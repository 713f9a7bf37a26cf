//! Single-precision numbers, held by their bit pattern.
//!
//! The interpreters store, move and compare scalars, and leave arithmetic on
//! them to their caller. A scalar is therefore kept as the 32 bits of its
//! IEEE 754 encoding: one sign bit, eight exponent bits, twenty-three mantissa
//! bits. The comparisons below are defined on that encoding.

use vstd::prelude::*;

verus! {

/// Bits of the sign of a single-precision number.
pub const SIGN_BIT: u32 = 0x8000_0000;

/// Bits of positive infinity; a larger magnitude is not a number.
pub const INFINITY_BITS: u32 = 0x7f80_0000;

/// Bits of the number one.
pub const ONE_BITS: u32 = 0x3f80_0000;

/// A single-precision number, held by the bits of its encoding.
#[derive(Clone, Copy, Debug, PartialEq, Eq, Structural)]
pub struct Scalar {
    /// The 32 bits of the encoding.
    pub bits: u32,
}

impl Scalar {
    /// The bits without the sign.
    pub open spec fn magnitude(self) -> int {
        self.bits as int % 0x8000_0000
    }

    /// Whether the sign bit is set.
    pub open spec fn sign(self) -> bool {
        self.bits >= 0x8000_0000
    }

    /// Whether the bits encode no number.
    pub open spec fn is_nan(self) -> bool {
        self.magnitude() > 0x7f80_0000
    }

    /// An integer that orders the numbers as their values do: the magnitude,
    /// negated under a sign. Both zeros get 0.
    pub open spec fn order_key(self) -> int {
        if self.sign() {
            -self.magnitude()
        } else {
            self.magnitude()
        }
    }

    /// `self != 0`: true of everything but the two zeros, and so of what is no
    /// number.
    pub open spec fn nonzero(self) -> bool {
        self.magnitude() != 0
    }

    /// `self > 0`: a number above zero.
    pub open spec fn positive(self) -> bool {
        0 < self.bits <= 0x7f80_0000
    }

    /// `self < other`: false as soon as one of them is no number.
    pub open spec fn below(self, other: Scalar) -> bool {
        !self.is_nan() && !other.is_nan() && self.order_key() < other.order_key()
    }

    /// `self == other` as numbers: the zeros are equal to each other, and what
    /// is no number equals nothing.
    pub open spec fn equals(self, other: Scalar) -> bool {
        !self.is_nan() && !other.is_nan() && self.order_key() == other.order_key()
    }

    /// `-self`: the same magnitude under the other sign, whatever the scalar
    /// holds.
    pub open spec fn negated(self) -> Scalar {
        Scalar {
            bits: if self.sign() {
                (self.bits - 0x8000_0000) as u32
            } else {
                (self.bits + 0x8000_0000) as u32
            },
        }
    }

    /// The exponent field of the encoding.
    pub open spec fn exponent(self) -> int {
        (self.bits as int / 0x80_0000) % 256
    }

    /// The significand of the encoding as an integer: the mantissa field,
    /// with the leading one of a normal number.
    pub open spec fn significand(self) -> int {
        if self.exponent() == 0 {
            self.bits as int % 0x80_0000
        } else {
            self.bits as int % 0x80_0000 + 0x80_0000
        }
    }

    /// The whole part of the magnitude of a number. The number is its
    /// significand times two to the power of its exponent less 150, so the
    /// whole part is the significand doubled or halved that often; below an
    /// exponent of 127 the magnitude is below one.
    pub open spec fn whole(self) -> int {
        if self.exponent() > 150 {
            doubled(self.significand(), (self.exponent() - 150) as nat)
        } else if self.exponent() >= 127 {
            halved(self.significand(), (150 - self.exponent()) as nat)
        } else {
            0
        }
    }

    /// The number without its fraction, and 0 for what is no number.
    pub open spec fn truncated(self) -> int {
        if self.is_nan() {
            0
        } else if self.sign() {
            -self.whole()
        } else {
            self.whole()
        }
    }

    /// The number as a byte: without its fraction, and no further from zero
    /// than the byte reaches.
    pub open spec fn as_byte(self) -> u8 {
        if self.truncated() < 0 {
            0u8
        } else if self.truncated() > 255 {
            255u8
        } else {
            self.truncated() as u8
        }
    }

    /// The number as an integer of 16 bits: without its fraction, and no
    /// further from zero than 16 bits reach.
    pub open spec fn as_short(self) -> i16 {
        if self.truncated() < -0x8000 {
            -0x8000i16
        } else if self.truncated() > 0x7fff {
            0x7fffi16
        } else {
            self.truncated() as i16
        }
    }

    /// The scalar with these bits.
    pub fn from_bits(bits: u32) -> (r: Scalar)
        ensures
            r.bits == bits,
    {
        Scalar { bits }
    }

    /// The bits of the scalar.
    pub fn to_bits(self) -> (r: u32)
        ensures
            r == self.bits,
    {
        self.bits
    }

    /// Positive zero.
    pub fn zero() -> (r: Scalar)
        ensures
            r.bits == 0,
    {
        Scalar { bits: 0 }
    }

    /// The number one.
    pub fn one() -> (r: Scalar)
        ensures
            r.bits == ONE_BITS,
    {
        Scalar { bits: ONE_BITS }
    }

    fn key(self) -> (r: i64)
        ensures
            r == self.order_key(),
    {
        let magnitude: i64 = (self.bits % SIGN_BIT) as i64;
        if self.bits >= SIGN_BIT {
            -magnitude
        } else {
            magnitude
        }
    }

    /// The scalar under the other sign.
    pub fn negate(self) -> (r: Scalar)
        ensures
            r == self.negated(),
    {
        if self.bits >= SIGN_BIT {
            Scalar { bits: self.bits - SIGN_BIT }
        } else {
            Scalar { bits: self.bits + SIGN_BIT }
        }
    }

    /// The whole part of the magnitude, or two to the power of 24 if it is
    /// at least that.
    fn whole_capped(self) -> (r: u32)
        ensures
            r == (if self.whole() >= 0x100_0000 {
                0x100_0000
            } else {
                self.whole()
            }),
            self.whole() >= 0,
    {
        let exponent: u32 = (self.bits / 0x80_0000) % 256;
        let significand: u32 = if exponent == 0 {
            self.bits % 0x80_0000
        } else {
            self.bits % 0x80_0000 + 0x80_0000
        };
        if exponent > 150 {
            proof {
                lemma_doubled_grows(significand as int, (exponent - 150) as nat);
            }
            0x100_0000
        } else if exponent >= 127 {
            let mut whole: u32 = significand;
            let mut left: u32 = 150 - exponent;
            while left > 0
                invariant
                    0 <= whole < 0x100_0000,
                    halved(whole as int, left as nat) == halved(
                        significand as int,
                        (150 - exponent) as nat,
                    ),
                decreases left,
            {
                whole = whole / 2;
                left -= 1;
            }
            whole
        } else {
            0
        }
    }

    /// Cuts the number to a byte.
    pub fn to_u8(self) -> (r: u8)
        ensures
            r == self.as_byte(),
    {
        let whole = self.whole_capped();
        if self.is_not_a_number() || self.bits >= SIGN_BIT {
            0
        } else if whole > 255 {
            255
        } else {
            whole as u8
        }
    }

    /// Cuts the number to an integer of 16 bits.
    pub fn to_i16(self) -> (r: i16)
        ensures
            r == self.as_short(),
    {
        let whole = self.whole_capped();
        if self.is_not_a_number() {
            0
        } else if self.bits >= SIGN_BIT {
            if whole > 0x8000 {
                -0x8000
            } else {
                (-(whole as i32)) as i16
            }
        } else if whole > 0x7fff {
            0x7fff
        } else {
            whole as i16
        }
    }

    /// Tells whether the bits encode no number.
    pub fn is_not_a_number(self) -> (r: bool)
        ensures
            r == self.is_nan(),
    {
        self.bits % SIGN_BIT > INFINITY_BITS
    }

    /// Tells whether the scalar differs from zero.
    pub fn is_nonzero(self) -> (r: bool)
        ensures
            r == self.nonzero(),
    {
        self.bits % SIGN_BIT != 0
    }

    /// Tells whether the scalar is above zero.
    pub fn is_positive(self) -> (r: bool)
        ensures
            r == self.positive(),
    {
        0 < self.bits && self.bits <= INFINITY_BITS
    }

    /// Tells whether the scalar is below `other`.
    pub fn is_below(self, other: Scalar) -> (r: bool)
        ensures
            r == self.below(other),
    {
        !self.is_not_a_number() && !other.is_not_a_number() && self.key() < other.key()
    }

    /// Tells whether the scalar equals `other` as a number.
    pub fn is_equal(self, other: Scalar) -> (r: bool)
        ensures
            r == self.equals(other),
    {
        !self.is_not_a_number() && !other.is_not_a_number() && self.key() == other.key()
    }
}

/// `x` halved `times` times, each time without the remainder.
pub open spec fn halved(x: int, times: nat) -> int
    decreases times,
{
    if times == 0 {
        x
    } else {
        halved(x / 2, (times - 1) as nat)
    }
}

/// `x` doubled `times` times.
pub open spec fn doubled(x: int, times: nat) -> int
    decreases times,
{
    if times == 0 {
        x
    } else {
        doubled(x * 2, (times - 1) as nat)
    }
}

/// Doubling at least once takes a number that is not negative to at least
/// twice itself.
pub proof fn lemma_doubled_grows(x: int, times: nat)
    requires
        0 <= x,
        times >= 1,
    ensures
        doubled(x, times) >= 2 * x,
    decreases times,
{
    if times > 1 {
        lemma_doubled_grows(x * 2, (times - 1) as nat);
    } else {
        assert(doubled(x * 2, 0) == x * 2);
    }
}

/// Of two scalars that are numbers exactly one of these holds: the first is
/// below the second, they are equal, or the second is below the first. Where
/// one is no number, none holds.
pub proof fn lemma_trichotomy(a: Scalar, b: Scalar)
    ensures
        !a.is_nan() && !b.is_nan() ==> (a.below(b) || a.equals(b) || b.below(a)),
        !(a.below(b) && a.equals(b)),
        !(a.below(b) && b.below(a)),
        !(a.equals(b) && b.below(a)),
        a.is_nan() || b.is_nan() ==> !a.below(b) && !a.equals(b) && !b.below(a),
{
}

/// Negating turns the order round, keeps what is no number as it is, and
/// undoes itself.
pub proof fn lemma_negated(a: Scalar, b: Scalar)
    ensures
        a.negated().negated() == a,
        a.negated().is_nan() == a.is_nan(),
        a.negated().magnitude() == a.magnitude(),
        a.below(b) <==> b.negated().below(a.negated()),
        a.equals(b) <==> a.negated().equals(b.negated()),
{
}

/// Being above zero is being a number that zero is below.
pub proof fn lemma_positive_is_above_zero(a: Scalar)
    ensures
        a.positive() <==> (Scalar { bits: 0 }).below(a),
        a.nonzero() <==> !a.equals(Scalar { bits: 0 }),
{
}

} // verus!
