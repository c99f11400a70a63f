//! Single-precision values carried by their bit pattern.
//!
//! Every coordinate, angle and colour channel of this crate is a [`Scalar`]:
//! the 32 bits of an IEEE-754 binary32 number, sign first, then eight
//! exponent bits, then twenty-three fraction bits. What can be decided from the
//! bits alone (equality, order, sign, clamping) is decided here; rounding
//! arithmetic is supplied by the caller through
//! [`Arithmetic`](crate::arithmetic::Arithmetic).

use vstd::prelude::*;
use vstd::std_specs::cmp::PartialEqSpecImpl;

verus! {

/// The sign bit of a bit pattern.
pub const SIGN_BIT: u32 = 0x8000_0000;

/// Positive infinity; every larger magnitude is a NaN.
pub const INFINITY_BITS: u32 = 0x7f80_0000;

/// `0.0`
pub const ZERO_BITS: u32 = 0x0000_0000;

/// `1.0`
pub const ONE_BITS: u32 = 0x3f80_0000;

/// `2.0`
pub const TWO_BITS: u32 = 0x4000_0000;

/// `10.0`
pub const TEN_BITS: u32 = 0x4120_0000;

/// `255.0`, the largest colour channel.
pub const CHANNEL_MAX_BITS: u32 = 0x437f_0000;

/// `360.0`, a full turn in degrees.
pub const FULL_TURN_BITS: u32 = 0x43b4_0000;

/// `0.5`
pub const HALF_BITS: u32 = 0x3f00_0000;

/// `0.01`, rounded to single precision.
pub const HUNDREDTH_BITS: u32 = 0x3c23_d70a;

/// `100.0`
pub const HUNDRED_BITS: u32 = 0x42c8_0000;

/// Pi, rounded to single precision.
pub const PI_BITS: u32 = 0x4049_0fdb;

/// Two times [`PI_BITS`]: a full turn in radians.
pub const TWO_PIE_BITS: u32 = 0x40c9_0fdb;

/// [`PI_BITS`] divided by `180.0`: the radians in one degree.
pub const DEG_RAD_BITS: u32 = 0x3c8e_fa35;

/// `180.0` divided by [`PI_BITS`]: the degrees in one radian.
pub const RAD_DEG_BITS: u32 = 0x4265_2ee0;

/// An IEEE-754 binary32 value, held as its bit pattern.
#[derive(Clone, Copy, Debug)]
pub struct Scalar {
    pub bits: u32,
}

impl Scalar {
    /// The value with the given bit pattern.
    pub open spec fn of(bits: u32) -> Scalar {
        Scalar { bits }
    }

    /// The value of a whole number from 0 to 255, which single precision
    /// holds exactly: above zero, the exponent is the place of the highest
    /// set bit, and the bits below it fill the top of the fraction.
    pub open spec fn of_byte(n: u8) -> Scalar {
        Scalar {
            bits: if n >= 128 {
                (0x4300_0000 + (n - 128) * 0x1_0000) as u32
            } else if n >= 64 {
                (0x4280_0000 + (n - 64) * 0x2_0000) as u32
            } else if n >= 32 {
                (0x4200_0000 + (n - 32) * 0x4_0000) as u32
            } else if n >= 16 {
                (0x4180_0000 + (n - 16) * 0x8_0000) as u32
            } else if n >= 8 {
                (0x4100_0000 + (n - 8) * 0x10_0000) as u32
            } else if n >= 4 {
                (0x4080_0000 + (n - 4) * 0x20_0000) as u32
            } else if n >= 2 {
                (0x4000_0000 + (n - 2) * 0x40_0000) as u32
            } else if n == 1 {
                ONE_BITS
            } else {
                ZERO_BITS
            },
        }
    }

    /// The bit pattern without its sign bit.
    pub open spec fn magnitude(self) -> u32 {
        if self.bits >= SIGN_BIT {
            (self.bits - SIGN_BIT) as u32
        } else {
            self.bits
        }
    }

    /// Whether the sign bit is set. True of `-0.0` and of half the NaNs.
    pub open spec fn sign(self) -> bool {
        self.bits >= SIGN_BIT
    }

    /// Whether the value is a NaN: all exponent bits set, fraction not zero.
    pub open spec fn nan(self) -> bool {
        self.magnitude() > INFINITY_BITS
    }

    /// Whether the value is neither an infinity nor a NaN.
    pub open spec fn finite(self) -> bool {
        self.magnitude() < INFINITY_BITS
    }

    /// Whether the value is `0.0` or `-0.0`.
    pub open spec fn zero(self) -> bool {
        self.magnitude() == 0
    }

    /// Where a value that is no NaN lies on the number line, as an integer
    /// that grows with the value: the magnitude, negated under a sign bit.
    /// Both zeros lie at 0.
    pub open spec fn rank(self) -> int {
        if self.sign() {
            -(self.magnitude() as int)
        } else {
            self.magnitude() as int
        }
    }

    /// IEEE equality: no NaN equals anything, the two zeros are equal, and
    /// otherwise the bits decide.
    pub open spec fn same_value(self, other: Scalar) -> bool {
        &&& !self.nan()
        &&& !other.nan()
        &&& self.rank() == other.rank()
    }

    /// IEEE `<`: false where either side is a NaN.
    pub open spec fn less_than(self, other: Scalar) -> bool {
        &&& !self.nan()
        &&& !other.nan()
        &&& self.rank() < other.rank()
    }

    /// IEEE `<=`: false where either side is a NaN.
    pub open spec fn at_most(self, other: Scalar) -> bool {
        &&& !self.nan()
        &&& !other.nan()
        &&& self.rank() <= other.rank()
    }

    /// The value with its sign bit flipped.
    pub open spec fn negated(self) -> Scalar {
        if self.bits >= SIGN_BIT {
            Scalar { bits: (self.bits - SIGN_BIT) as u32 }
        } else {
            Scalar { bits: (self.bits + SIGN_BIT) as u32 }
        }
    }

    /// `min` below `min`, `max` above `max`, the value itself in between and
    /// for a NaN.
    pub open spec fn clamped(self, min: Scalar, max: Scalar) -> Scalar {
        if self.less_than(min) {
            min
        } else if max.less_than(self) {
            max
        } else {
            self
        }
    }

    /// The value with the given bit pattern.
    #[verifier::when_used_as_spec(of)]
    pub fn from_bits(bits: u32) -> (r: Scalar)
        ensures
            r == Scalar::of(bits),
    {
        Scalar { bits }
    }

    /// The value of a whole number from 0 to 255.
    pub fn from_u8(n: u8) -> (r: Scalar)
        ensures
            r == Scalar::of_byte(n),
            r.bits <= CHANNEL_MAX_BITS,
    {
        let wide: u32 = n as u32;
        let bits: u32 = if n >= 128 {
            0x4300_0000 + (wide - 128) * 0x1_0000
        } else if n >= 64 {
            0x4280_0000 + (wide - 64) * 0x2_0000
        } else if n >= 32 {
            0x4200_0000 + (wide - 32) * 0x4_0000
        } else if n >= 16 {
            0x4180_0000 + (wide - 16) * 0x8_0000
        } else if n >= 8 {
            0x4100_0000 + (wide - 8) * 0x10_0000
        } else if n >= 4 {
            0x4080_0000 + (wide - 4) * 0x20_0000
        } else if n >= 2 {
            0x4000_0000 + (wide - 2) * 0x40_0000
        } else if n == 1 {
            ONE_BITS
        } else {
            ZERO_BITS
        };
        Scalar { bits }
    }

    /// The bit pattern of the value.
    pub fn to_bits(self) -> (r: u32)
        ensures
            r == self.bits,
    {
        self.bits
    }

    fn abs_bits(self) -> (r: u32)
        ensures
            r == self.magnitude(),
    {
        if self.bits >= SIGN_BIT {
            self.bits - SIGN_BIT
        } else {
            self.bits
        }
    }

    /// Whether the value is a NaN.
    pub fn is_nan(self) -> (r: bool)
        ensures
            r == self.nan(),
    {
        self.abs_bits() > INFINITY_BITS
    }

    /// Whether the value is neither an infinity nor a NaN.
    pub fn is_finite(self) -> (r: bool)
        ensures
            r == self.finite(),
    {
        self.abs_bits() < INFINITY_BITS
    }

    /// Whether the value is a zero of either sign.
    pub fn is_zero(self) -> (r: bool)
        ensures
            r == self.zero(),
    {
        self.abs_bits() == 0
    }

    /// Flips the sign bit, as unary minus does: also of a zero and of a NaN.
    pub fn neg(self) -> (r: Scalar)
        ensures
            r == self.negated(),
            r.magnitude() == self.magnitude(),
            r.sign() != self.sign(),
    {
        if self.bits >= SIGN_BIT {
            Scalar { bits: self.bits - SIGN_BIT }
        } else {
            Scalar { bits: self.bits + SIGN_BIT }
        }
    }

    /// IEEE `<`.
    pub fn lt(self, other: Scalar) -> (r: bool)
        ensures
            r == self.less_than(other),
    {
        if self.is_nan() || other.is_nan() {
            return false;
        }
        let a: u32 = self.abs_bits();
        let b: u32 = other.abs_bits();
        if self.bits >= SIGN_BIT {
            if other.bits >= SIGN_BIT {
                a > b
            } else {
                a > 0 || b > 0
            }
        } else {
            if other.bits >= SIGN_BIT {
                false
            } else {
                a < b
            }
        }
    }

    /// IEEE `<=`.
    pub fn le(self, other: Scalar) -> (r: bool)
        ensures
            r == self.at_most(other),
    {
        if self.is_nan() || other.is_nan() {
            false
        } else {
            !other.lt(self)
        }
    }

    /// Restricts the value to `min..=max`. A NaN passes through unchanged.
    pub fn clamp(self, min: Scalar, max: Scalar) -> (r: Scalar)
        requires
            !min.nan(),
            !max.nan(),
            min.rank() <= max.rank(),
        ensures
            r == self.clamped(min, max),
    {
        if self.lt(min) {
            min
        } else if max.lt(self) {
            max
        } else {
            self
        }
    }
}

impl PartialEq for Scalar {
    fn eq(&self, other: &Scalar) -> (r: bool) {
        if self.is_nan() || other.is_nan() {
            false
        } else {
            self.bits == other.bits || (self.is_zero() && other.is_zero())
        }
    }
}

impl PartialEqSpecImpl for Scalar {
    open spec fn obeys_eq_spec() -> bool {
        true
    }

    open spec fn eq_spec(&self, other: &Scalar) -> bool {
        self.same_value(*other)
    }
}

} // verus!
