//! Real-valued quantities as the library carries them: classified and
//! compared exactly, never computed with.

use vstd::prelude::*;

verus! {

/// The bit that carries the sign of an encoded quantity.
pub const SIGN_BIT: u64 = 0x8000_0000_0000_0000;

/// The magnitude of the encoding of infinity; every larger magnitude encodes
/// "not a number".
pub const INFINITY_MAGNITUDE: u64 = 0x7FF0_0000_0000_0000;

/// The encoding of one.
pub const ONE_BITS: u64 = 0x3FF0_0000_0000_0000;

/// The encoding of the largest finite quantity.
pub const LARGEST_FINITE_BITS: u64 = 0x7FEF_FFFF_FFFF_FFFF;

/// A real-valued market quantity (a price, a strike, a volatility), held as
/// the 64 bits of its IEEE 754 binary64 encoding.
///
/// The library does no arithmetic on quantities. It classifies and compares
/// them, and both are exact on the encoding: the top bit is the sign, the
/// remaining 63 bits are a magnitude, and for numbers the magnitudes order
/// as the absolute values do.
#[derive(Clone, Copy, PartialEq, Eq, Debug, Structural)]
pub struct Quantity {
    pub bits: u64,
}

impl Quantity {
    /// The low 63 bits: the encoded absolute value.
    pub open spec fn magnitude(self) -> int {
        if self.bits >= SIGN_BIT {
            self.bits - SIGN_BIT
        } else {
            self.bits as int
        }
    }

    /// Whether the sign bit is set.
    pub open spec fn sign_is_negative(self) -> bool {
        self.bits >= SIGN_BIT
    }

    /// Whether the encoding stands for no number at all.
    pub open spec fn nan(self) -> bool {
        self.magnitude() > INFINITY_MAGNITUDE
    }

    /// Whether the encoding stands for a number that is not infinite.
    pub open spec fn finite(self) -> bool {
        self.magnitude() < INFINITY_MAGNITUDE
    }

    /// The place of a number on the number line: the magnitude, negated
    /// under a negative sign. Both zeros have place 0.
    pub open spec fn ordinal(self) -> int {
        if self.sign_is_negative() {
            -self.magnitude()
        } else {
            self.magnitude()
        }
    }

    /// `self < other` as binary64 compares: false whenever either side is
    /// not a number.
    pub open spec fn less_than(self, other: Quantity) -> bool {
        !self.nan() && !other.nan() && self.ordinal() < other.ordinal()
    }

    /// `self == other` as binary64 compares: the two zeros are equal, and
    /// "not a number" equals nothing.
    pub open spec fn same_value(self, other: Quantity) -> bool {
        !self.nan() && !other.nan() && self.ordinal() == other.ordinal()
    }

    /// `self <= other` as binary64 compares.
    pub open spec fn at_most(self, other: Quantity) -> bool {
        !self.nan() && !other.nan() && self.ordinal() <= other.ordinal()
    }

    /// The place of an encoding in the total order of binary64: as
    /// `ordinal` for numbers, but with negative zero just below positive
    /// zero, and with what is not a number beyond the infinity of its sign.
    pub open spec fn total_ordinal(self) -> int {
        if self.sign_is_negative() {
            -self.magnitude() - 1
        } else {
            self.magnitude()
        }
    }

    /// `self` is not after `other` in the total order of binary64.
    pub open spec fn total_at_most(self, other: Quantity) -> bool {
        self.total_ordinal() <= other.total_ordinal()
    }

    /// A number strictly above zero (infinity included).
    pub open spec fn positive(self) -> bool {
        !self.nan() && self.ordinal() > 0
    }

    /// The quantity with the given encoding.
    pub fn from_bits(bits: u64) -> (r: Quantity)
        ensures
            r.bits == bits,
    {
        Quantity { bits }
    }

    /// The encoding of the quantity.
    pub fn to_bits(self) -> (r: u64)
        ensures
            r == self.bits,
    {
        self.bits
    }

    /// Zero, with a positive sign.
    pub fn zero() -> (r: Quantity)
        ensures
            r.bits == 0,
            r.ordinal() == 0,
            r.finite(),
    {
        Quantity { bits: 0 }
    }

    /// One.
    pub fn one() -> (r: Quantity)
        ensures
            r.bits == ONE_BITS,
            r.ordinal() == ONE_BITS,
            r.finite(),
    {
        Quantity { bits: ONE_BITS }
    }

    /// Two.
    pub fn two() -> (r: Quantity)
        ensures
            r.bits == 0x4000_0000_0000_0000u64,
            r.finite(),
    {
        Quantity { bits: 0x4000_0000_0000_0000 }
    }

    /// The largest finite quantity.
    pub fn largest_finite() -> (r: Quantity)
        ensures
            r.bits == LARGEST_FINITE_BITS,
            r.ordinal() == LARGEST_FINITE_BITS,
            r.finite(),
    {
        Quantity { bits: LARGEST_FINITE_BITS }
    }

    /// The finite quantity furthest below zero.
    pub fn smallest_finite() -> (r: Quantity)
        ensures
            r.bits == LARGEST_FINITE_BITS + SIGN_BIT,
            r.ordinal() == -(LARGEST_FINITE_BITS as int),
            r.finite(),
    {
        Quantity { bits: 0xFFEF_FFFF_FFFF_FFFF }
    }

    /// The same quantity under the opposite sign.
    pub fn negated(self) -> (r: Quantity)
        ensures
            r.magnitude() == self.magnitude(),
            r.sign_is_negative() == !self.sign_is_negative(),
            r.ordinal() == -self.ordinal(),
            r.nan() == self.nan(),
    {
        if self.bits >= SIGN_BIT {
            Quantity { bits: self.bits - SIGN_BIT }
        } else {
            Quantity { bits: self.bits + SIGN_BIT }
        }
    }

    fn magnitude_bits(self) -> (r: u64)
        ensures
            r == self.magnitude(),
            r < SIGN_BIT,
    {
        if self.bits >= SIGN_BIT {
            self.bits - SIGN_BIT
        } else {
            self.bits
        }
    }

    /// Whether the quantity is no number at all.
    #[verifier::when_used_as_spec(nan)]
    pub fn is_nan(self) -> (r: bool)
        ensures
            r == self.nan(),
    {
        self.magnitude_bits() > INFINITY_MAGNITUDE
    }

    /// Whether the quantity is a number that is not infinite.
    #[verifier::when_used_as_spec(finite)]
    pub fn is_finite(self) -> (r: bool)
        ensures
            r == self.finite(),
    {
        self.magnitude_bits() < INFINITY_MAGNITUDE
    }

    /// Whether the quantity is a number strictly above zero.
    #[verifier::when_used_as_spec(positive)]
    pub fn is_positive(self) -> (r: bool)
        ensures
            r == self.positive(),
    {
        0 < self.bits && self.bits <= INFINITY_MAGNITUDE
    }

    /// `self < other`.
    #[verifier::when_used_as_spec(less_than)]
    pub fn lt(self, other: Quantity) -> (r: bool)
        ensures
            r == self.less_than(other),
    {
        if self.is_nan() || other.is_nan() {
            return false;
        }
        let a: u64 = self.magnitude_bits();
        let b: u64 = other.magnitude_bits();
        if self.bits >= SIGN_BIT {
            if other.bits >= SIGN_BIT {
                a > b
            } else {
                a > 0 || b > 0
            }
        } else {
            other.bits < SIGN_BIT && a < b
        }
    }

    /// `self > other`.
    pub fn gt(self, other: Quantity) -> (r: bool)
        ensures
            r == other.less_than(self),
    {
        other.lt(self)
    }

    /// `self <= other`.
    #[verifier::when_used_as_spec(at_most)]
    pub fn le(self, other: Quantity) -> (r: bool)
        ensures
            r == self.at_most(other),
    {
        if self.is_nan() || other.is_nan() {
            return false;
        }
        !other.lt(self)
    }

    /// `self >= other`.
    pub fn ge(self, other: Quantity) -> (r: bool)
        ensures
            r == other.at_most(self),
    {
        other.le(self)
    }

    /// Whether `self` is not after `other` in the total order of binary64.
    #[verifier::when_used_as_spec(total_at_most)]
    pub fn total_le(self, other: Quantity) -> (r: bool)
        ensures
            r == self.total_at_most(other),
    {
        let a: u64 = self.magnitude_bits();
        let b: u64 = other.magnitude_bits();
        if self.bits >= SIGN_BIT {
            other.bits < SIGN_BIT || a >= b
        } else {
            other.bits < SIGN_BIT && a <= b
        }
    }

    /// `self == other` as numbers.
    #[verifier::when_used_as_spec(same_value)]
    pub fn equals(self, other: Quantity) -> (r: bool)
        ensures
            r == self.same_value(other),
    {
        if self.is_nan() || other.is_nan() {
            return false;
        }
        let a: u64 = self.magnitude_bits();
        let b: u64 = other.magnitude_bits();
        (a == 0 && b == 0) || self.bits == other.bits
    }
}

/// The first and the last of the values in the total order of binary64,
/// or `None` where there is no value.
pub fn lowest_and_highest(values: &Vec<Quantity>) -> (r: Option<(Quantity, Quantity)>)
    ensures
        r is Some <==> values@.len() > 0,
        r matches Some((lowest, highest)) ==> {
            &&& values@.contains(lowest)
            &&& values@.contains(highest)
            &&& forall|i: int|
                0 <= i < values@.len() ==> lowest.total_at_most(#[trigger] values@[i])
                    && values@[i].total_at_most(highest)
        },
{
    if values.len() == 0 {
        return None;
    }
    let mut lowest = values[0];
    let mut highest = values[0];
    let mut i: usize = 1;
    while i < values.len()
        invariant
            1 <= i <= values@.len(),
            values@.contains(lowest),
            values@.contains(highest),
            forall|j: int|
                0 <= j < i ==> lowest.total_at_most(#[trigger] values@[j])
                    && values@[j].total_at_most(highest),
        decreases values@.len() - i,
    {
        let value = values[i];
        if !lowest.total_le(value) {
            lowest = value;
        }
        if !value.total_le(highest) {
            highest = value;
        }
        i += 1;
    }
    Some((lowest, highest))
}

/// The total order puts numbers in their order: a number below another
/// comes before it, and of two numbers the one that comes first is at most
/// the other.
pub proof fn lemma_total_order_extends_the_order_of_numbers(a: Quantity, b: Quantity)
    ensures
        a.less_than(b) ==> a.total_ordinal() < b.total_ordinal(),
        !a.nan() && !b.nan() && a.total_at_most(b) ==> a.at_most(b),
        a.total_ordinal() == b.total_ordinal() <==> a == b,
{
}

/// Below is transitive, and nothing is below itself.
pub proof fn lemma_less_than_is_a_strict_order(a: Quantity, b: Quantity, c: Quantity)
    ensures
        !a.less_than(a),
        a.less_than(b) ==> !b.less_than(a),
        a.less_than(b) && b.less_than(c) ==> a.less_than(c),
{
}

/// Of two numbers exactly one holds: the first is below the second, they
/// are equal, or the second is below the first.
pub proof fn lemma_numbers_are_totally_ordered(a: Quantity, b: Quantity)
    requires
        !a.nan(),
        !b.nan(),
    ensures
        a.less_than(b) || a.same_value(b) || b.less_than(a),
        !(a.less_than(b) && a.same_value(b)),
        !(b.less_than(a) && a.same_value(b)),
        a.at_most(b) <==> a.less_than(b) || a.same_value(b),
{
}

/// Positive numbers compare as their encodings do.
pub proof fn lemma_positive_numbers_order_as_their_bits(a: Quantity, b: Quantity)
    requires
        a.positive(),
        b.positive(),
    ensures
        a.less_than(b) <==> a.bits < b.bits,
        a.same_value(b) <==> a.bits == b.bits,
{
}

/// "Not a number" compares false with everything, itself included.
pub proof fn lemma_nan_compares_false(a: Quantity, b: Quantity)
    requires
        a.nan(),
    ensures
        !a.less_than(b),
        !b.less_than(a),
        !a.at_most(b),
        !b.at_most(a),
        !a.same_value(b),
        !a.positive(),
        !a.finite(),
{
}

} // verus!
