//! The estimation engine's state: one second of samples, from which the
//! caller takes each axis's baseline, and five seconds of composite
//! magnitudes, from which the representative peak is selected.

use vstd::prelude::*;
use crate::percentile::{
    active_pivot_of,
    lemma_pivot_is_element,
    select_active_pivot,
    target_count,
    target_count_of,
};
use crate::sample::{is_magnitude, magnitude, Magnitude, Sample};
use crate::window::{keep_latest, BoundedWindow};

verus! {

/// How many seconds of composite magnitudes are kept by default.
pub const LONG_WINDOW_SECONDS: usize = 5;

/// The default percentile fraction, three tenths: its numerator.
pub const FRACTION_NUMERATOR: u32 = 3;

/// The default percentile fraction, three tenths: its denominator.
pub const FRACTION_DENOMINATOR: u32 = 10;

/// The activation threshold 0.0: every positive pivot is reported.
pub const THRESHOLD_ZERO: u32 = 0;

/// The activation threshold 0.4, which keeps the sensor's noise floor silent.
pub const THRESHOLD_NOISE_FLOOR: u32 = 0x3ECC_CCCD;

/// Why a configuration was refused.
#[derive(Clone, Copy, Debug, PartialEq, Eq)]
pub enum ConfigError {
    /// A window would have no room at all.
    ZeroCapacity,
    /// The long window for this rate would exceed the address space.
    CapacityOverflow,
    /// The percentile fraction has a zero denominator or is greater than one.
    ImproperFraction,
    /// The fraction of the long window's capacity rounds down to zero elements.
    EmptySelection,
    /// The threshold is negative, infinite or not a number.
    InvalidThreshold,
}

/// What an engine is built from.
#[derive(Clone, Copy, Debug, PartialEq, Eq)]
pub struct EngineConfig {
    /// Capacity of the window of samples.
    pub short_capacity: usize,
    /// Capacity of the window of composite magnitudes.
    pub long_capacity: usize,
    /// Numerator of the fraction of the long window's capacity that must lie
    /// at or above the selected magnitude.
    pub fraction_numerator: u32,
    /// Denominator of that fraction.
    pub fraction_denominator: u32,
    /// The magnitude that a pivot must exceed to be reported.
    pub threshold: u32,
}

impl EngineConfig {
    /// The first reason to refuse this configuration, if there is one.
    pub open spec fn fault(self) -> Option<ConfigError> {
        if self.short_capacity == 0 || self.long_capacity == 0 {
            Some(ConfigError::ZeroCapacity)
        } else if self.fraction_denominator == 0 || self.fraction_numerator
            > self.fraction_denominator {
            Some(ConfigError::ImproperFraction)
        } else if self.target() == 0 {
            Some(ConfigError::EmptySelection)
        } else if !magnitude(self.threshold) {
            Some(ConfigError::InvalidThreshold)
        } else {
            None
        }
    }

    /// The number of magnitudes that must lie at or above the selected one.
    pub open spec fn target(self) -> nat {
        target_count_of(
            self.long_capacity as nat,
            self.fraction_numerator as nat,
            self.fraction_denominator as nat,
        )
    }

    /// The usual sizing for a sample rate: one second of samples, five
    /// seconds of magnitudes, three tenths of the latter at or above the pivot.
    pub fn for_rate(rate: u32, threshold: u32) -> (r: Result<EngineConfig, ConfigError>)
        ensures
            rate * LONG_WINDOW_SECONDS > usize::MAX ==> r == Err::<EngineConfig, ConfigError>(
                ConfigError::CapacityOverflow,
            ),
            rate * LONG_WINDOW_SECONDS <= usize::MAX ==> r == Ok::<EngineConfig, ConfigError>(
                EngineConfig {
                    short_capacity: rate as usize,
                    long_capacity: (rate * LONG_WINDOW_SECONDS) as usize,
                    fraction_numerator: FRACTION_NUMERATOR,
                    fraction_denominator: FRACTION_DENOMINATOR,
                    threshold,
                },
            ),
    {
        let short_capacity: usize = rate as usize;
        if short_capacity > usize::MAX / LONG_WINDOW_SECONDS {
            Err(ConfigError::CapacityOverflow)
        } else {
            Ok(
                EngineConfig {
                    short_capacity,
                    long_capacity: short_capacity * LONG_WINDOW_SECONDS,
                    fraction_numerator: FRACTION_NUMERATOR,
                    fraction_denominator: FRACTION_DENOMINATOR,
                    threshold,
                },
            )
        }
    }
}

/// The rule by which a magnitude is selected.
struct SelectionRule {
    target: usize,
    threshold: Magnitude,
}

impl SelectionRule {
    #[verifier::type_invariant]
    spec fn well_formed(&self) -> bool {
        0 < self.target
    }
}

/// The patterns of a sequence of magnitudes.
pub open spec fn patterns(s: Seq<Magnitude>) -> Seq<u32> {
    s.map_values(|m: Magnitude| m@)
}

/// The windows of one sensor channel and the rule by which a magnitude is
/// selected from the long one.
pub struct IntensityEngine {
    short: BoundedWindow<Sample>,
    long: BoundedWindow<Magnitude>,
    rule: SelectionRule,
}

impl IntensityEngine {
    /// The samples held, oldest first.
    pub closed spec fn samples(&self) -> Seq<Sample> {
        self.short@
    }

    /// The composite magnitudes held, oldest first.
    pub closed spec fn magnitudes(&self) -> Seq<Magnitude> {
        self.long@
    }

    /// Capacity of the window of samples.
    pub closed spec fn short_capacity(&self) -> nat {
        self.short.cap()
    }

    /// Capacity of the window of magnitudes.
    pub closed spec fn long_capacity(&self) -> nat {
        self.long.cap()
    }

    /// The number of magnitudes that must lie at or above the selected one.
    pub closed spec fn target(&self) -> nat {
        self.rule.target as nat
    }

    /// The magnitude that a pivot must exceed to be reported.
    pub closed spec fn threshold(&self) -> u32 {
        self.rule.threshold@
    }

    /// What a magnitude selected now would be: see `active_pivot_of`.
    pub open spec fn pivot_now(&self) -> Option<u32> {
        active_pivot_of(patterns(self.magnitudes()), self.target(), self.threshold())
    }

    /// An engine with empty windows, or the first reason to refuse `config`.
    pub fn new(config: EngineConfig) -> (r: Result<IntensityEngine, ConfigError>)
        ensures
            match config.fault() {
                Some(e) => r == Err::<IntensityEngine, ConfigError>(e),
                None => r matches Ok(engine) && engine.samples() == Seq::<Sample>::empty()
                    && engine.magnitudes() == Seq::<Magnitude>::empty()
                    && engine.short_capacity() == config.short_capacity
                    && engine.long_capacity() == config.long_capacity && engine.target()
                    == config.target() && engine.threshold() == config.threshold,
            },
    {
        let short = match BoundedWindow::<Sample>::new(config.short_capacity) {
            Some(w) => w,
            None => {
                return Err(ConfigError::ZeroCapacity);
            },
        };
        let long = match BoundedWindow::<Magnitude>::new(config.long_capacity) {
            Some(w) => w,
            None => {
                return Err(ConfigError::ZeroCapacity);
            },
        };
        if config.fraction_denominator == 0 || config.fraction_numerator
            > config.fraction_denominator {
            return Err(ConfigError::ImproperFraction);
        }
        let target = target_count(
            config.long_capacity,
            config.fraction_numerator,
            config.fraction_denominator,
        );
        if target == 0 {
            return Err(ConfigError::EmptySelection);
        }
        if !is_magnitude(config.threshold) {
            return Err(ConfigError::InvalidThreshold);
        }
        let threshold = Magnitude::from_checked(config.threshold);
        Ok(IntensityEngine { short, long, rule: SelectionRule { target, threshold } })
    }

    /// Takes a sample into the window of samples, evicting the oldest where
    /// the window is full. The magnitudes are left as they are.
    pub fn push_sample(&mut self, sample: Sample)
        ensures
            final(self).samples() == keep_latest(
                old(self).samples().push(sample),
                old(self).short_capacity(),
            ),
            final(self).samples().len() <= final(self).short_capacity(),
            final(self).magnitudes() == old(self).magnitudes(),
            final(self).short_capacity() == old(self).short_capacity(),
            final(self).long_capacity() == old(self).long_capacity(),
            final(self).target() == old(self).target(),
            final(self).threshold() == old(self).threshold(),
    {
        self.short.push(sample);
    }

    /// A copy of the samples held, oldest first.
    pub fn baseline_window(&self) -> (r: Vec<Sample>)
        ensures
            r@ == self.samples(),
            r@.len() <= self.short_capacity(),
    {
        self.short.snapshot()
    }

    /// Takes a composite magnitude into the window of magnitudes, evicting
    /// the oldest where the window is full. The samples are left as they are.
    pub fn push_magnitude(&mut self, value: Magnitude)
        ensures
            final(self).magnitudes() == keep_latest(
                old(self).magnitudes().push(value),
                old(self).long_capacity(),
            ),
            final(self).magnitudes().len() <= final(self).long_capacity(),
            final(self).samples() == old(self).samples(),
            final(self).short_capacity() == old(self).short_capacity(),
            final(self).long_capacity() == old(self).long_capacity(),
            final(self).target() == old(self).target(),
            final(self).threshold() == old(self).threshold(),
    {
        self.long.push(value);
    }

    /// A copy of the magnitudes held, oldest first.
    pub fn magnitude_window(&self) -> (r: Vec<Magnitude>)
        ensures
            r@ == self.magnitudes(),
            r@.len() <= self.long_capacity(),
    {
        self.long.snapshot()
    }

    /// The number of magnitudes that must lie at or above the selected one.
    pub fn target_count(&self) -> (r: usize)
        ensures
            r == self.target(),
            0 < r,
    {
        proof {
            use_type_invariant(&self.rule);
        }
        self.rule.target
    }

    /// The magnitude that a pivot must exceed to be reported.
    pub fn activation_threshold(&self) -> (r: Magnitude)
        ensures
            r@ == self.threshold(),
    {
        self.rule.threshold
    }

    /// The representative peak of the magnitudes held: the one that stands
    /// `target` places before the end of their ascending arrangement, where
    /// more than `target` are held and that one exceeds the threshold. In
    /// every other case there is none, and the intensity to report is zero.
    pub fn pivot(&self) -> (r: Option<Magnitude>)
        ensures
            match self.pivot_now() {
                Some(p) => r is Some && r->0@ == p,
                None => r is None,
            },
            self.magnitudes().len() <= self.target() ==> r is None,
            r matches Some(p) ==> p@ > self.threshold() && self.magnitudes().contains(p),
    {
        let held = self.long.snapshot();
        let n: usize = held.len();
        let mut keys: Vec<u32> = Vec::with_capacity(n);
        let mut i: usize = 0;
        while i < n
            invariant
                n == held@.len(),
                i <= n,
                keys@ == patterns(held@.take(i as int)),
                forall|j: int| 0 <= j < i ==> magnitude(#[trigger] keys@[j]),
            decreases n - i,
        {
            keys.push(held[i].bits());
            assert(patterns(held@.take(i + 1)) =~= patterns(held@.take(i as int)).push(
                held@[i as int]@,
            ));
            i = i + 1;
        }
        assert(held@.take(n as int) =~= held@);
        match select_active_pivot(&keys, self.rule.target, self.rule.threshold.bits()) {
            Some(p) => {
                proof {
                    lemma_pivot_is_element(keys@, self.rule.target as nat);
                }
                let selected = Magnitude::from_checked(p);
                proof {
                    let at = choose|at: int| 0 <= at < keys@.len() && keys@[at] == p;
                    selected.lemma_same_pattern(held@[at]);
                }
                Some(selected)
            },
            None => None,
        }
    }
}

} // verus!
