//! Values as they arrive: the bit patterns of IEEE 754 binary32 numbers.
//!
//! A pattern has a sign bit, eight exponent bits and twenty-three fraction
//! bits. It stands for a finite number unless all exponent bits are set.
//! Among the patterns of finite numbers with a clear sign bit, a greater
//! number has the greater pattern, so such patterns can be compared and
//! sorted as unsigned integers.

use vstd::prelude::*;

verus! {

/// The pattern of the largest finite number; every pattern up to it stands
/// for a finite number that is zero or positive.
pub const MAX_MAGNITUDE: u32 = 0x7F7F_FFFF;

/// The exponent bits.
pub const EXPONENT_MASK: u32 = 0x7F80_0000;

/// The exponent field of a pattern.
pub open spec fn exponent_of(bits: u32) -> nat {
    ((bits as nat) / 0x80_0000) % 0x100
}

/// Whether a pattern stands for a finite number: neither an infinity nor a
/// not-a-number.
pub open spec fn finite(bits: u32) -> bool {
    exponent_of(bits) != 0xFF
}

/// Whether a pattern stands for a finite number that is zero or positive.
pub open spec fn magnitude(bits: u32) -> bool {
    bits <= MAX_MAGNITUDE
}

/// The magnitudes are the finite patterns with a clear sign bit.
pub proof fn lemma_magnitude_is_finite(bits: u32)
    ensures
        magnitude(bits) <==> finite(bits) && bits < 0x8000_0000,
{
    assert(bits <= 0x7F7F_FFFFu32 <==> ((bits / 0x80_0000u32) % 0x100u32 != 0xFFu32 && bits
        < 0x8000_0000u32)) by (bit_vector);
}

/// Tests `finite`.
pub fn is_finite(bits: u32) -> (r: bool)
    ensures
        r == finite(bits),
{
    assert((bits & 0x7F80_0000u32 != 0x7F80_0000u32) <==> ((bits / 0x80_0000u32) % 0x100u32
        != 0xFFu32)) by (bit_vector);
    bits & EXPONENT_MASK != EXPONENT_MASK
}

/// Tests `magnitude`.
pub fn is_magnitude(bits: u32) -> (r: bool)
    ensures
        r == magnitude(bits),
{
    bits <= MAX_MAGNITUDE
}

/// Why a value was turned away before it reached the windows.
#[derive(Clone, Copy, Debug, PartialEq, Eq)]
pub enum InputDomainError {
    /// The axis with this index (0, 1 or 2) is infinite or not a number.
    NonFiniteAxis(usize),
    /// A composite magnitude is negative, infinite or not a number.
    InvalidMagnitude,
}

/// The index of the first pattern among the three that is not finite.
pub open spec fn first_non_finite(x: u32, y: u32, z: u32) -> Option<usize> {
    if !finite(x) {
        Some(0usize)
    } else if !finite(y) {
        Some(1usize)
    } else if !finite(z) {
        Some(2usize)
    } else {
        None
    }
}

/// Finds `first_non_finite`.
pub fn find_non_finite(x: u32, y: u32, z: u32) -> (r: Option<usize>)
    ensures
        r == first_non_finite(x, y, z),
{
    if !is_finite(x) {
        Some(0)
    } else if !is_finite(y) {
        Some(1)
    } else if !is_finite(z) {
        Some(2)
    } else {
        None
    }
}

/// One three-axis acceleration sample in raw sensor units, every axis finite.
#[derive(Clone, Copy, Debug, PartialEq, Eq)]
pub struct Sample {
    x: u32,
    y: u32,
    z: u32,
}

impl Sample {
    #[verifier::type_invariant]
    spec fn all_finite(&self) -> bool {
        finite(self.x) && finite(self.y) && finite(self.z)
    }

    /// The three axes, in order.
    pub closed spec fn view(&self) -> Seq<u32> {
        seq![self.x, self.y, self.z]
    }

    /// A sample of three finite patterns.
    pub(crate) fn from_finite(x: u32, y: u32, z: u32) -> (r: Sample)
        requires
            finite(x),
            finite(y),
            finite(z),
        ensures
            r@ == seq![x, y, z],
    {
        Sample { x, y, z }
    }

    /// A sample of the three patterns; refused where one of them is not finite,
    /// with the index of the first such axis.
    pub fn new(x: u32, y: u32, z: u32) -> (r: Result<Sample, InputDomainError>)
        ensures
            match first_non_finite(x, y, z) {
                Some(axis) => r == Err::<Sample, InputDomainError>(
                    InputDomainError::NonFiniteAxis(axis),
                ),
                None => r is Ok && r->Ok_0@ == seq![x, y, z],
            },
    {
        match find_non_finite(x, y, z) {
            Some(axis) => Err(InputDomainError::NonFiniteAxis(axis)),
            None => Ok(Sample::from_finite(x, y, z)),
        }
    }

    /// The three axes, in order; each is finite.
    pub fn axes(&self) -> (r: [u32; 3])
        ensures
            r@ == self@,
            finite(r[0]) && finite(r[1]) && finite(r[2]),
    {
        proof {
            use_type_invariant(self);
        }
        let r = [self.x, self.y, self.z];
        assert(r@ =~= self@);
        r
    }
}

/// One composite magnitude: a finite number that is zero or positive.
#[derive(Clone, Copy, Debug, PartialEq, Eq)]
pub struct Magnitude {
    bits: u32,
}

impl Magnitude {
    #[verifier::type_invariant]
    spec fn in_range(&self) -> bool {
        magnitude(self.bits)
    }

    /// The pattern.
    pub closed spec fn view(&self) -> u32 {
        self.bits
    }

    /// A magnitude of a pattern that is known to be one.
    pub(crate) fn from_checked(bits: u32) -> (r: Magnitude)
        requires
            magnitude(bits),
        ensures
            r@ == bits,
    {
        Magnitude { bits }
    }

    /// A magnitude of the pattern; refused where the pattern stands for a
    /// negative number, an infinity or a not-a-number.
    pub fn new(bits: u32) -> (r: Result<Magnitude, InputDomainError>)
        ensures
            magnitude(bits) ==> r is Ok && r->Ok_0@ == bits,
            !magnitude(bits) ==> r == Err::<Magnitude, InputDomainError>(
                InputDomainError::InvalidMagnitude,
            ),
    {
        if is_magnitude(bits) {
            Ok(Magnitude { bits })
        } else {
            Err(InputDomainError::InvalidMagnitude)
        }
    }

    /// Magnitudes with the same pattern are the same magnitude.
    pub proof fn lemma_same_pattern(self, other: Magnitude)
        requires
            self@ == other@,
        ensures
            self == other,
    {
    }

    /// The pattern, which is that of a magnitude.
    pub fn bits(&self) -> (r: u32)
        ensures
            r == self@,
            magnitude(r),
    {
        proof {
            use_type_invariant(self);
        }
        self.bits
    }
}

} // verus!
