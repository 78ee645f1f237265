//! The fixed-rate schedule: which work a tick does, how long to wait for
//! the next one, and when the tick counter and the timing epoch start over.
//!
//! The scheduler decides; its caller reads the sensor, reads the clock and
//! sleeps. Times are whole milliseconds since the epoch that the caller keeps.

use vstd::prelude::*;
use vstd::arithmetic::div_mod::{lemma_div_is_ordered, lemma_hoist_over_denominator};

verus! {

/// The greatest guard value: small enough that a tick's due time in
/// milliseconds, and any wait computed from it, fits in 64 bits.
pub const MAX_GUARD: u64 = 9_000_000_000_000_000;

/// The guard value used by default.
pub const DEFAULT_GUARD: u64 = 2_147_483_647;

/// The value the tick counter takes when it starts over.
pub const RESTART_TICK: u64 = 1;

/// The time at which tick number `tick` is due, in milliseconds after the
/// epoch, at `rate` ticks per second.
pub open spec fn due_millis(tick: nat, rate: nat) -> nat {
    (tick * 1000) / rate
}

/// How long to sleep once `tick` ticks are done and `elapsed` milliseconds
/// have passed since the epoch: the time left until the tick is due, and
/// nothing where that time has passed.
pub open spec fn wait_millis(tick: nat, rate: nat, elapsed: int) -> nat {
    if elapsed < due_millis(tick, rate) {
        (due_millis(tick, rate) - elapsed) as nat
    } else {
        0
    }
}

/// Why a schedule was refused.
#[derive(Clone, Copy, Debug, PartialEq, Eq)]
pub enum ScheduleError {
    /// The sample rate is zero.
    ZeroRate,
    /// Reports would be due every zero ticks.
    ZeroCadence,
    /// The guard value is below 2 or above `MAX_GUARD`.
    GuardOutOfRange,
}

/// What a schedule is built from.
#[derive(Clone, Copy, Debug, PartialEq, Eq)]
pub struct ScheduleConfig {
    /// Ticks per second.
    pub sample_rate: u32,
    /// A report is due on every tick whose number is a multiple of this.
    pub report_every: u32,
    /// The tick count at which counter and epoch start over.
    pub guard: u64,
}

impl ScheduleConfig {
    /// The first reason to refuse this configuration, if there is one.
    pub open spec fn fault(self) -> Option<ScheduleError> {
        if self.sample_rate == 0 {
            Some(ScheduleError::ZeroRate)
        } else if self.report_every == 0 {
            Some(ScheduleError::ZeroCadence)
        } else if self.guard < 2 || self.guard > MAX_GUARD {
            Some(ScheduleError::GuardOutOfRange)
        } else {
            None
        }
    }

    /// Ten reports per second, as for a console.
    pub fn console(sample_rate: u32) -> (r: ScheduleConfig)
        ensures
            r == (ScheduleConfig {
                sample_rate,
                report_every: (sample_rate / 10) as u32,
                guard: DEFAULT_GUARD,
            }),
    {
        ScheduleConfig { sample_rate, report_every: sample_rate / 10, guard: DEFAULT_GUARD }
    }

    /// One report per second, as for a slow display.
    pub fn display(sample_rate: u32) -> (r: ScheduleConfig)
        ensures
            r == (ScheduleConfig { sample_rate, report_every: sample_rate, guard: DEFAULT_GUARD }),
    {
        ScheduleConfig { sample_rate, report_every: sample_rate, guard: DEFAULT_GUARD }
    }
}

/// The work of one tick.
#[derive(Clone, Copy, Debug, PartialEq, Eq)]
pub struct TickPlan {
    /// Whether the sample is to be fed to the engine.
    pub process: bool,
    /// Whether the current estimate is to be delivered, with the tick number.
    pub report: bool,
}

/// What follows a tick's work.
#[derive(Clone, Copy, Debug, PartialEq, Eq)]
pub struct Pace {
    /// How long to sleep before the next tick, in milliseconds.
    pub sleep_millis: u64,
    /// Whether the epoch is to be set to the current time after that sleep.
    pub restart_epoch: bool,
}

/// The state of the sampling loop: its settings and the number of ticks
/// done since the epoch.
#[derive(Clone, Copy, Debug, PartialEq, Eq)]
pub struct SampleScheduler {
    sample_rate: u32,
    report_every: u32,
    guard: u64,
    tick: u64,
}

impl SampleScheduler {
    #[verifier::type_invariant]
    spec fn well_formed(&self) -> bool {
        &&& 0 < self.sample_rate
        &&& 0 < self.report_every
        &&& 2 <= self.guard <= MAX_GUARD
        &&& self.tick < self.guard
    }

    /// Ticks per second.
    pub closed spec fn rate(&self) -> nat {
        self.sample_rate as nat
    }

    /// The reporting cadence, in ticks.
    pub closed spec fn cadence(&self) -> nat {
        self.report_every as nat
    }

    /// The tick count at which counter and epoch start over.
    pub closed spec fn guard_value(&self) -> nat {
        self.guard as nat
    }

    /// The number of ticks done since the epoch.
    pub closed spec fn ticks(&self) -> nat {
        self.tick as nat
    }

    /// A scheduler at tick zero, or the first reason to refuse `config`.
    pub fn new(config: ScheduleConfig) -> (r: Result<SampleScheduler, ScheduleError>)
        ensures
            match config.fault() {
                Some(e) => r == Err::<SampleScheduler, ScheduleError>(e),
                None => r matches Ok(s) && s.ticks() == 0 && s.rate() == config.sample_rate
                    && s.cadence() == config.report_every && s.guard_value() == config.guard,
            },
    {
        if config.sample_rate == 0 {
            Err(ScheduleError::ZeroRate)
        } else if config.report_every == 0 {
            Err(ScheduleError::ZeroCadence)
        } else if config.guard < 2 || config.guard > MAX_GUARD {
            Err(ScheduleError::GuardOutOfRange)
        } else {
            Ok(
                SampleScheduler {
                    sample_rate: config.sample_rate,
                    report_every: config.report_every,
                    guard: config.guard,
                    tick: 0,
                },
            )
        }
    }

    /// The number of ticks done since the epoch, always below the guard value.
    pub fn tick(&self) -> (r: u64)
        ensures
            r == self.ticks(),
            r < self.guard_value(),
    {
        proof {
            use_type_invariant(self);
        }
        self.tick
    }

    /// The work of the current tick. A sample that could not be read is not
    /// processed and nothing is reported; a sample that was read is
    /// processed, and a report is due where the tick number is a multiple of
    /// the cadence.
    pub fn plan(&self, sample_read: bool) -> (r: TickPlan)
        ensures
            r.process == sample_read,
            r.report == (sample_read && self.ticks() % self.cadence() == 0),
    {
        proof {
            use_type_invariant(self);
        }
        TickPlan { process: sample_read, report: sample_read && self.tick % (self.report_every as u64) == 0 }
    }

    /// Ends the current tick, `elapsed` milliseconds after the epoch. The
    /// counter goes up by exactly one whatever the time; the wait is what is
    /// left until the new count is due, and nothing where the loop is late.
    /// Where the new count reaches the guard value, the counter starts over
    /// and the caller is told to start the epoch over too.
    pub fn advance(&mut self, elapsed: i64) -> (r: Pace)
        ensures
            r.sleep_millis == wait_millis(old(self).ticks() + 1, old(self).rate(), elapsed as int),
            r.restart_epoch == (old(self).ticks() + 1 >= old(self).guard_value()),
            final(self).ticks() == if r.restart_epoch {
                RESTART_TICK as nat
            } else {
                old(self).ticks() + 1
            },
            final(self).rate() == old(self).rate(),
            final(self).cadence() == old(self).cadence(),
            final(self).guard_value() == old(self).guard_value(),
    {
        proof {
            use_type_invariant(&*self);
        }
        let next: u64 = self.tick + 1;
        let due: u64 = next * 1000 / (self.sample_rate as u64);
        assert(due <= next * 1000) by (nonlinear_arith)
            requires
                due == (next * 1000) / (self.sample_rate as int),
                0 < self.sample_rate,
                0 <= next,
        ;
        let sleep_millis: u64 = if elapsed < 0 {
            due + ((-(elapsed + 1)) as u64) + 1
        } else if (elapsed as u64) < due {
            due - (elapsed as u64)
        } else {
            0
        };
        let restart_epoch: bool = next >= self.guard;
        if restart_epoch {
            self.tick = RESTART_TICK;
        } else {
            self.tick = next;
        }
        Pace { sleep_millis, restart_epoch }
    }
}

/// The schedule does not drift: `rate` ticks later is due exactly one
/// second later, whatever rounding a single due time has gone through.
pub proof fn lemma_due_advances_by_seconds(tick: nat, rate: nat, seconds: nat)
    requires
        0 < rate,
    ensures
        due_millis(tick + seconds * rate, rate) == due_millis(tick, rate) + 1000 * seconds,
{
    let x: int = (tick * 1000) as int;
    let j: int = (1000 * seconds) as int;
    lemma_hoist_over_denominator(x, j, rate);
    assert((tick + seconds * rate) * 1000 == x + j * rate) by (nonlinear_arith)
        requires
            x == tick * 1000,
            j == 1000 * seconds,
    ;
}

/// A later tick is never due earlier.
pub proof fn lemma_due_is_ordered(earlier: nat, later: nat, rate: nat)
    requires
        0 < rate,
        earlier <= later,
    ensures
        due_millis(earlier, rate) <= due_millis(later, rate),
{
    lemma_div_is_ordered((earlier * 1000) as int, (later * 1000) as int, rate as int);
}

/// The wait ends when the tick is due and not before; a loop that is on
/// time or late waits for nothing, and the due time stays what the tick
/// count gives: lateness is not made up for and not carried into the schedule.
pub proof fn lemma_wait_reaches_due(tick: nat, rate: nat, elapsed: int)
    requires
        0 < rate,
    ensures
        elapsed < due_millis(tick, rate) ==> elapsed + wait_millis(tick, rate, elapsed)
            == due_millis(tick, rate),
        elapsed >= due_millis(tick, rate) <==> wait_millis(tick, rate, elapsed) == 0,
{
}

} // verus!
