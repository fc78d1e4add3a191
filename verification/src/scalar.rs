//! Binary64 numbers as bit patterns, and their order.
//!
//! The geometry of a scene is measured in IEEE-754 binary64 numbers.  Every
//! decision of the tracer (is this root inside the interval, does this ray
//! leave the surface, is this hit nearer than the last) is a comparison of
//! such numbers, and a comparison needs no arithmetic: it can be read off the
//! two bit patterns.  `Scalar` carries the pattern; the caller converts at the
//! boundary and keeps the arithmetic.

use vstd::prelude::*;

verus! {

/// The sign bit of a pattern.
pub const SIGN_BIT: u64 = 0x8000_0000_0000_0000;

/// The pattern of positive infinity.  A larger magnitude is not a number.
pub const INFINITY_BITS: u64 = 0x7FF0_0000_0000_0000;

/// The pattern of `1.0`.
pub const ONE_BITS: u64 = 0x3FF0_0000_0000_0000;

/// A binary64 number, held by its bit pattern.
///
/// The derived `==` compares patterns: it tells `0.0` from `-0.0` and finds a
/// NaN equal to itself.  Numeric comparison is `is_less_than` and its kin.
#[derive(Clone, Copy, Debug, PartialEq, Eq, Structural)]
pub struct Scalar {
    pub bits: u64,
}

impl Scalar {
    /// The sign bit is set.
    pub open spec fn sign(self) -> bool {
        self.bits >= SIGN_BIT
    }

    /// The pattern without its sign bit.  For numbers it grows with the
    /// absolute value.
    pub open spec fn magnitude(self) -> int {
        if self.sign() {
            self.bits - SIGN_BIT
        } else {
            self.bits as int
        }
    }

    /// The pattern stands for no number.
    pub open spec fn is_nan(self) -> bool {
        self.magnitude() > INFINITY_BITS
    }

    /// The place of a number on the line: the magnitude with the sign.
    /// Both zeros have rank 0; of two numbers the smaller has the lower rank.
    pub open spec fn rank(self) -> int {
        if self.sign() {
            -self.magnitude()
        } else {
            self.magnitude()
        }
    }

    /// `self < other` as binary64 has it: false as soon as one side is NaN.
    pub open spec fn lt(self, other: Scalar) -> bool {
        !self.is_nan() && !other.is_nan() && self.rank() < other.rank()
    }

    /// `self <= other` as binary64 has it.
    pub open spec fn le(self, other: Scalar) -> bool {
        !self.is_nan() && !other.is_nan() && self.rank() <= other.rank()
    }

    /// `self == other` as binary64 has it: the zeros are equal, a NaN equals
    /// nothing.
    pub open spec fn same(self, other: Scalar) -> bool {
        !self.is_nan() && !other.is_nan() && self.rank() == other.rank()
    }

    /// `self > 0.0`.
    pub open spec fn positive(self) -> bool {
        !self.is_nan() && self.rank() > 0
    }

    /// `self < 0.0`.
    pub open spec fn negative(self) -> bool {
        !self.is_nan() && self.rank() < 0
    }

    /// `self == 0.0`: one of the two zeros.
    pub open spec fn zero(self) -> bool {
        self.magnitude() == 0
    }

    /// `-self`: the same magnitude under the other sign.  Binary64 negates a
    /// zero and a NaN in the same way.
    pub open spec fn opposite(self) -> Scalar {
        if self.sign() {
            Scalar { bits: (self.bits - SIGN_BIT) as u64 }
        } else {
            Scalar { bits: (self.bits + SIGN_BIT) as u64 }
        }
    }

    /// The number with this pattern.
    pub fn from_bits(bits: u64) -> (r: Scalar)
        ensures
            r.bits == bits,
    {
        Scalar { bits }
    }

    /// The pattern of this number.
    pub fn to_bits(&self) -> (r: u64)
        ensures
            r == self.bits,
    {
        self.bits
    }

    /// `0.0`.
    pub fn new_zero() -> (r: Scalar)
        ensures
            r.bits == 0,
            r.zero(),
    {
        Scalar { bits: 0 }
    }

    /// `1.0`.
    pub fn new_one() -> (r: Scalar)
        ensures
            r.bits == ONE_BITS,
            r.positive(),
    {
        Scalar { bits: ONE_BITS }
    }

    /// Positive infinity: every other number is below it.
    pub fn new_infinity() -> (r: Scalar)
        ensures
            r.bits == INFINITY_BITS,
            !r.is_nan(),
            forall|x: Scalar| x.lt(r) || x.same(r) || x.is_nan(),
    {
        Scalar { bits: INFINITY_BITS }
    }

    fn sign_bit(&self) -> (r: bool)
        ensures
            r == self.sign(),
    {
        self.bits >= SIGN_BIT
    }

    fn magnitude_bits(&self) -> (r: u64)
        ensures
            r == self.magnitude(),
            r < SIGN_BIT,
    {
        if self.bits >= SIGN_BIT {
            self.bits - SIGN_BIT
        } else {
            self.bits
        }
    }

    /// Whether the pattern stands for no number.
    pub fn is_not_a_number(&self) -> (r: bool)
        ensures
            r == self.is_nan(),
    {
        self.magnitude_bits() > INFINITY_BITS
    }

    /// `self < other`.
    pub fn is_less_than(&self, other: &Scalar) -> (r: bool)
        ensures
            r == self.lt(*other),
    {
        if self.is_not_a_number() || other.is_not_a_number() {
            return false;
        }
        let a: u64 = self.magnitude_bits();
        let b: u64 = other.magnitude_bits();
        if self.sign_bit() {
            if other.sign_bit() {
                b < a
            } else {
                a != 0 || b != 0
            }
        } else {
            if other.sign_bit() {
                false
            } else {
                a < b
            }
        }
    }

    /// `self > other`.
    pub fn is_greater_than(&self, other: &Scalar) -> (r: bool)
        ensures
            r == other.lt(*self),
    {
        other.is_less_than(self)
    }

    /// `self <= other`.
    pub fn is_at_most(&self, other: &Scalar) -> (r: bool)
        ensures
            r == self.le(*other),
    {
        if self.is_not_a_number() || other.is_not_a_number() {
            return false;
        }
        !other.is_less_than(self)
    }

    /// `self == other`, numerically.
    pub fn is_same(&self, other: &Scalar) -> (r: bool)
        ensures
            r == self.same(*other),
    {
        if self.is_not_a_number() || other.is_not_a_number() {
            return false;
        }
        !self.is_less_than(other) && !other.is_less_than(self)
    }

    /// `self > 0.0`.
    pub fn is_positive(&self) -> (r: bool)
        ensures
            r == self.positive(),
    {
        !self.is_not_a_number() && !self.sign_bit() && self.magnitude_bits() != 0
    }

    /// `self < 0.0`.
    pub fn is_negative(&self) -> (r: bool)
        ensures
            r == self.negative(),
    {
        !self.is_not_a_number() && self.sign_bit() && self.magnitude_bits() != 0
    }

    /// `self == 0.0`.
    pub fn is_zero(&self) -> (r: bool)
        ensures
            r == self.zero(),
    {
        self.magnitude_bits() == 0
    }

    /// `-self`.
    pub fn negated(&self) -> (r: Scalar)
        ensures
            r == self.opposite(),
    {
        if self.bits >= SIGN_BIT {
            Scalar { bits: self.bits - SIGN_BIT }
        } else {
            Scalar { bits: self.bits + SIGN_BIT }
        }
    }
}

/// No number is below itself.
pub proof fn lemma_lt_irreflexive(a: Scalar)
    ensures
        !a.lt(a),
{
}

/// Of two scalars at most one is below the other.
pub proof fn lemma_lt_asymmetric(a: Scalar, b: Scalar)
    requires
        a.lt(b),
    ensures
        !b.lt(a),
{
}

/// Below is transitive.
pub proof fn lemma_lt_transitive(a: Scalar, b: Scalar, c: Scalar)
    requires
        a.lt(b),
        b.lt(c),
    ensures
        a.lt(c),
{
}

/// Two numbers are below, equal or above: exactly one of the three.
pub proof fn lemma_trichotomy(a: Scalar, b: Scalar)
    requires
        !a.is_nan(),
        !b.is_nan(),
    ensures
        a.lt(b) || a.same(b) || b.lt(a),
        !(a.lt(b) && a.same(b)),
        !(a.same(b) && b.lt(a)),
        !(a.lt(b) && b.lt(a)),
{
}

/// Beside a NaN every comparison is false.
pub proof fn lemma_nan_unordered(a: Scalar, b: Scalar)
    requires
        a.is_nan() || b.is_nan(),
    ensures
        !a.lt(b),
        !b.lt(a),
        !a.le(b),
        !b.le(a),
        !a.same(b),
{
}

/// Negation keeps the magnitude and changes the sign; done twice it gives
/// the number back.
pub proof fn lemma_opposite(a: Scalar)
    ensures
        a.opposite().magnitude() == a.magnitude(),
        a.opposite().sign() != a.sign(),
        a.opposite().rank() == -a.rank(),
        a.opposite().is_nan() == a.is_nan(),
        a.opposite().opposite() == a,
{
}

/// Negation turns the order round.
pub proof fn lemma_negation_reverses(a: Scalar, b: Scalar)
    ensures
        a.lt(b) == b.opposite().lt(a.opposite()),
{
    lemma_opposite(a);
    lemma_opposite(b);
}

} // verus!
