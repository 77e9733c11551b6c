//! Quantities in IEEE 754 binary64, carried by their bit pattern.
//!
//! The library moves prices and amounts and compares them against bounds; it
//! does no arithmetic on them. A bit pattern is all it needs for that: for
//! numbers of one sign the order of the magnitudes' bit patterns is the order
//! of the numbers.

use crate::arith::{lemma_pow2_grows, pow2};
use vstd::prelude::*;

verus! {

/// The magnitude of the smallest number with a full exponent: 2 to the 52.
pub const FRACTION_RANGE: u64 = 0x10_0000_0000_0000;

/// The size of the number whose magnitude has the bit pattern `magnitude`,
/// in units of 2 to the -1074, for a magnitude below infinity: the fraction
/// alone where the exponent is zero, else the fraction with a leading one,
/// doubled once for every step of the exponent above one.
pub open spec fn size_of(magnitude: int) -> int {
    let exponent = magnitude / (FRACTION_RANGE as int);
    let fraction = magnitude % (FRACTION_RANGE as int);
    if exponent == 0 {
        fraction
    } else {
        (FRACTION_RANGE + fraction) * pow2((exponent - 1) as nat)
    }
}

/// A larger bit pattern of the magnitude stands for a larger size.
pub proof fn lemma_size_grows(smaller: int, larger: int)
    requires
        0 <= smaller < larger,
    ensures
        0 <= size_of(smaller) < size_of(larger),
{
    let range = FRACTION_RANGE as int;
    let e1 = smaller / range;
    let f1 = smaller % range;
    let e2 = larger / range;
    let f2 = larger % range;
    assert(smaller == e1 * range + f1 && larger == e2 * range + f2 && 0 <= f1 < range && 0 <= f2
        < range && 0 <= e1 <= e2) by (nonlinear_arith)
        requires
            range == 0x10_0000_0000_0000,
            0 <= smaller < larger,
            e1 == smaller / range,
            f1 == smaller % range,
            e2 == larger / range,
            f2 == larger % range,
    ;
    if e1 == e2 {
        if e1 > 0 {
            let p = pow2((e1 - 1) as nat);
            lemma_pow2_grows(0, (e1 - 1) as nat);
            assert(0 <= (range + f1) * p < (range + f2) * p) by (nonlinear_arith)
                requires
                    0 <= f1 < f2,
                    range > 0,
                    p >= 1,
            ;
        }
    } else {
        let p2 = pow2((e2 - 1) as nat);
        lemma_pow2_grows(0, (e2 - 1) as nat);
        if e1 == 0 {
            assert(f1 < (range + f2) * p2) by (nonlinear_arith)
                requires
                    0 <= f1 < range,
                    0 <= f2,
                    p2 >= 1,
            ;
        } else {
            let p1 = pow2((e1 - 1) as nat);
            lemma_pow2_grows(0, (e1 - 1) as nat);
            lemma_pow2_grows(e1 as nat, (e2 - 1) as nat);
            assert(pow2(e1 as nat) == 2 * p1);
            assert(0 <= (range + f1) * p1 < (range + f2) * p2) by (nonlinear_arith)
                requires
                    0 <= f1 < range,
                    0 <= f2,
                    p1 >= 1,
                    p2 >= 2 * p1,
            ;
        }
    }
}

/// The bit that holds the sign.
pub const SIGN_BIT: u64 = 0x8000_0000_0000_0000;

/// The magnitude of infinity; every larger magnitude is not a number.
pub const INFINITY_MAGNITUDE: u64 = 0x7FF0_0000_0000_0000;

/// A binary64 number as its 64 bits: sign, then exponent, then fraction.
#[derive(Debug, Clone, Copy)]
pub struct Binary64 {
    pub bits: u64,
}

impl Binary64 {
    /// Whether the sign bit is set.
    pub open spec fn sign(self) -> bool {
        self.bits >= SIGN_BIT
    }

    /// The bits below the sign bit.
    pub open spec fn magnitude(self) -> int {
        if self.bits >= SIGN_BIT {
            self.bits - SIGN_BIT
        } else {
            self.bits as int
        }
    }

    /// Whether the pattern stands for no number at all.
    pub open spec fn nan(self) -> bool {
        self.magnitude() > INFINITY_MAGNITUDE
    }

    /// The place of the number on the number line, for patterns that stand
    /// for a number: both zeros share place 0, and a larger number has a
    /// larger place.
    pub open spec fn rank(self) -> int {
        if self.sign() {
            -self.magnitude()
        } else {
            self.magnitude()
        }
    }

    /// Whether the pattern stands for a number that is not infinite.
    pub open spec fn finite(self) -> bool {
        self.magnitude() < INFINITY_MAGNITUDE
    }

    /// The number that a finite pattern stands for, in units of 2 to the
    /// -1074, in which every such number is whole.
    pub open spec fn scaled_value(self) -> int {
        if self.sign() {
            -size_of(self.magnitude())
        } else {
            size_of(self.magnitude())
        }
    }

    /// `self < other` as binary64 comparison has it: false when either side
    /// is not a number.
    pub open spec fn below(self, other: Binary64) -> bool {
        !self.nan() && !other.nan() && self.rank() < other.rank()
    }

    /// `self <= other` as binary64 comparison has it.
    pub open spec fn at_most(self, other: Binary64) -> bool {
        !self.nan() && !other.nan() && self.rank() <= other.rank()
    }

    /// The number with the given bit pattern.
    pub fn from_bits(bits: u64) -> (number: Binary64)
        ensures
            number.bits == bits,
    {
        Binary64 { bits }
    }

    /// The bit pattern of the number.
    pub fn to_bits(self) -> (bits: u64)
        ensures
            bits == self.bits,
    {
        self.bits
    }

    fn magnitude_bits(self) -> (magnitude: u64)
        ensures
            magnitude == self.magnitude(),
    {
        if self.bits >= SIGN_BIT {
            self.bits - SIGN_BIT
        } else {
            self.bits
        }
    }

    /// Whether the pattern stands for no number.
    pub fn is_nan(self) -> (answer: bool)
        ensures
            answer == self.nan(),
    {
        self.magnitude_bits() > INFINITY_MAGNITUDE
    }

    /// Whether `self < other`.
    pub fn lt(self, other: Binary64) -> (answer: bool)
        ensures
            answer == self.below(other),
    {
        if self.is_nan() || other.is_nan() {
            return false;
        }
        let mine: u64 = self.magnitude_bits();
        let theirs: u64 = other.magnitude_bits();
        if self.bits >= SIGN_BIT {
            if other.bits >= SIGN_BIT {
                mine > theirs
            } else {
                mine != 0 || theirs != 0
            }
        } else {
            if other.bits >= SIGN_BIT {
                false
            } else {
                mine < theirs
            }
        }
    }

    /// Whether `self <= other`.
    pub fn le(self, other: Binary64) -> (answer: bool)
        ensures
            answer == self.at_most(other),
    {
        if self.is_nan() || other.is_nan() {
            return false;
        }
        let mine: u64 = self.magnitude_bits();
        let theirs: u64 = other.magnitude_bits();
        if self.bits >= SIGN_BIT {
            if other.bits >= SIGN_BIT {
                mine >= theirs
            } else {
                true
            }
        } else {
            if other.bits >= SIGN_BIT {
                mine == 0 && theirs == 0
            } else {
                mine <= theirs
            }
        }
    }

    /// Whether `self > other`.
    pub fn gt(self, other: Binary64) -> (answer: bool)
        ensures
            answer == other.below(self),
    {
        other.lt(self)
    }

    /// Whether `self >= other`.
    pub fn ge(self, other: Binary64) -> (answer: bool)
        ensures
            answer == other.at_most(self),
    {
        other.le(self)
    }
}

/// The bit pattern of zero with the sign bit clear.
pub const ZERO_BITS: u64 = 0;

/// The bit pattern of one hundred.
pub const ONE_HUNDRED_BITS: u64 = 0x4059_0000_0000_0000;

/// The bit pattern of one thousand.
pub const ONE_THOUSAND_BITS: u64 = 0x408F_4000_0000_0000;

/// The places of finite numbers on the number line stand as the numbers
/// themselves do: comparing the places compares the numbers.
pub proof fn lemma_rank_orders_values(a: Binary64, b: Binary64)
    requires
        a.finite(),
        b.finite(),
    ensures
        a.rank() < b.rank() <==> a.scaled_value() < b.scaled_value(),
        a.rank() == b.rank() <==> a.scaled_value() == b.scaled_value(),
        a.below(b) <==> a.scaled_value() < b.scaled_value(),
        a.at_most(b) <==> a.scaled_value() <= b.scaled_value(),
{
    let ma = a.magnitude();
    let mb = b.magnitude();
    assert(size_of(0) == 0);
    if ma > 0 {
        lemma_size_grows(0, ma);
    }
    if mb > 0 {
        lemma_size_grows(0, mb);
    }
    if ma < mb {
        lemma_size_grows(ma, mb);
    }
    if mb < ma {
        lemma_size_grows(mb, ma);
    }
}

/// Comparison of numbers is strict: nothing is below itself, and of two
/// numbers at most one is below the other.
pub proof fn lemma_below_is_strict(a: Binary64, b: Binary64)
    ensures
        !a.below(a),
        a.below(b) ==> !b.below(a),
        a.below(b) ==> a.at_most(b),
        a.at_most(b) && b.at_most(a) ==> a.rank() == b.rank(),
{
}

/// Comparison of numbers is transitive.
pub proof fn lemma_below_is_transitive(a: Binary64, b: Binary64, c: Binary64)
    requires
        a.below(b),
        b.below(c),
    ensures
        a.below(c),
{
}

} // verus!
