//! Measured numbers, compared as IEEE 754 compares them.
//!
//! A reading is the bit pattern of a binary64 number. Nothing is computed with readings; they are
//! compared, and every comparison of binary64 numbers is one of their signs and magnitudes.
use vstd::prelude::*;

verus! {

/// The sign bit of a binary64 number.
pub const SIGN_BIT: u64 = 0x8000_0000_0000_0000;

/// The magnitude of the infinities; what lies above is not a number.
pub const INFINITE: u64 = 0x7ff0_0000_0000_0000;

/// The bit pattern of a binary64 number.
#[derive(Clone, Copy, Debug, PartialEq, Eq, Structural)]
pub struct Reading {
    pub bits: u64,
}

impl Reading {
    /// Whether the sign bit is set.
    pub open spec fn negative(self) -> bool {
        self.bits >= SIGN_BIT
    }

    /// The bits without the sign: greater for greater absolute values.
    pub open spec fn magnitude(self) -> int {
        if self.negative() {
            self.bits - SIGN_BIT
        } else {
            self.bits as int
        }
    }

    /// Whether the pattern is not a number.
    pub open spec fn is_nan(self) -> bool {
        self.magnitude() > INFINITE
    }

    /// The place of a number among all numbers; the two zeros share one.
    pub open spec fn rank(self) -> int {
        if self.negative() {
            -self.magnitude()
        } else {
            self.magnitude()
        }
    }

    /// The place of a pattern in the total order, in which the negative zero comes just before
    /// the positive one and patterns that are not numbers come at the ends.
    pub open spec fn total_rank(self) -> int {
        if self.negative() {
            -self.magnitude() - 1
        } else {
            self.magnitude()
        }
    }

    /// The comparison `>` of binary64 numbers: never true of what is not a number.
    pub open spec fn above(self, other: Reading) -> bool {
        !self.is_nan() && !other.is_nan() && self.rank() > other.rank()
    }

    /// The comparison `>=` of binary64 numbers: never true of what is not a number.
    pub open spec fn at_least(self, other: Reading) -> bool {
        !self.is_nan() && !other.is_nan() && self.rank() >= other.rank()
    }

    /// The comparison `==` of binary64 numbers: never true of what is not a number.
    pub open spec fn equals(self, other: Reading) -> bool {
        !self.is_nan() && !other.is_nan() && self.rank() == other.rank()
    }

    /// The reading with a bit pattern.
    #[must_use]
    pub fn from_bits(bits: u64) -> (r: Self)
        ensures
            r == (Reading { bits }),
    {
        Reading { bits }
    }

    fn place(&self) -> (r: i64)
        ensures
            r == self.rank(),
    {
        if self.bits >= SIGN_BIT {
            -((self.bits - SIGN_BIT) as i64)
        } else {
            self.bits as i64
        }
    }

    fn ordered(&self) -> (r: bool)
        ensures
            r == !self.is_nan(),
    {
        if self.bits >= SIGN_BIT {
            self.bits - SIGN_BIT <= INFINITE
        } else {
            self.bits <= INFINITE
        }
    }

    /// Whether this is greater than `other`.
    #[must_use]
    pub fn is_above(&self, other: &Reading) -> (r: bool)
        ensures
            r == self.above(*other),
    {
        self.ordered() && other.ordered() && self.place() > other.place()
    }

    /// Whether this is greater than or equal to `other`.
    #[must_use]
    pub fn is_at_least(&self, other: &Reading) -> (r: bool)
        ensures
            r == self.at_least(*other),
    {
        self.ordered() && other.ordered() && self.place() >= other.place()
    }

    /// Whether this is equal to `other`.
    #[must_use]
    pub fn is_equal(&self, other: &Reading) -> (r: bool)
        ensures
            r == self.equals(*other),
    {
        self.ordered() && other.ordered() && self.place() == other.place()
    }

    /// Whether this does not come after `other` in the total order.
    #[must_use]
    pub fn not_after(&self, other: &Reading) -> (r: bool)
        ensures
            r == (self.total_rank() <= other.total_rank()),
    {
        let a: i64 = if self.bits >= SIGN_BIT {
            -((self.bits - SIGN_BIT) as i64) - 1
        } else {
            self.bits as i64
        };
        let b: i64 = if other.bits >= SIGN_BIT {
            -((other.bits - SIGN_BIT) as i64) - 1
        } else {
            other.bits as i64
        };
        a <= b
    }
}

// ---------------------------------------------------------------------------------------------
// Laws
// ---------------------------------------------------------------------------------------------

/// Patterns with the sign bit clear, up to that of infinity, are numbers in the order of their bits;
/// with the sign bit set they are the same numbers below zero, in the reverse order.
pub proof fn numbers_are_ordered_by_their_bits(a: u64, b: u64)
    requires
        a <= 0x7ff0_0000_0000_0000,
        b <= 0x7ff0_0000_0000_0000,
    ensures
        ({
            let x = Reading { bits: a };
            let y = Reading { bits: b };
            let minus_x = Reading { bits: (a + 0x8000_0000_0000_0000) as u64 };
            let minus_y = Reading { bits: (b + 0x8000_0000_0000_0000) as u64 };
            &&& x.above(y) <==> a > b
            &&& x.at_least(y) <==> a >= b
            &&& x.equals(y) <==> a == b
            &&& minus_x.above(minus_y) <==> a < b
            &&& minus_x.at_least(minus_y) <==> a <= b
            &&& minus_x.equals(minus_y) <==> a == b
            &&& x.at_least(minus_y)
            &&& x.above(minus_y) <==> a > 0 || b > 0
            &&& x.equals(minus_y) <==> a == 0 && b == 0
        }),
{
}

/// What is not a number compares with nothing, not even with itself.
pub proof fn no_number_compares_with_nothing(nan: Reading, other: Reading)
    requires
        0x7ff0_0000_0000_0000 < nan.bits < 0x8000_0000_0000_0000 || nan.bits
            > 0xfff0_0000_0000_0000,
    ensures
        !nan.above(other) && !other.above(nan),
        !nan.at_least(other) && !other.at_least(nan),
        !nan.equals(other) && !other.equals(nan),
{
}

/// Of two numbers exactly one of less, equal and greater holds, and greater or equal is either of
/// those two.
pub proof fn numbers_are_comparable(a: Reading, b: Reading)
    requires
        !a.is_nan(),
        !b.is_nan(),
    ensures
        a.above(b) || b.above(a) || a.equals(b),
        a.above(b) ==> !b.above(a) && !a.equals(b),
        a.equals(b) ==> b.equals(a) && !a.above(b),
        a.at_least(b) <==> a.above(b) || a.equals(b),
{
}

/// The total order has every pattern in its place: those with the sign bit before those without,
/// the former in the reverse order of their bits, the latter in the order of theirs.
pub proof fn the_total_order_places_every_pattern(a: Reading, b: Reading)
    ensures
        a.bits < 0x8000_0000_0000_0000 && b.bits < 0x8000_0000_0000_0000 ==> (a.total_rank()
            <= b.total_rank() <==> a.bits <= b.bits),
        a.bits >= 0x8000_0000_0000_0000 && b.bits >= 0x8000_0000_0000_0000 ==> (a.total_rank()
            <= b.total_rank() <==> a.bits >= b.bits),
        a.bits >= 0x8000_0000_0000_0000 && b.bits < 0x8000_0000_0000_0000 ==> a.total_rank()
            < b.total_rank(),
{
}

} // verus!
