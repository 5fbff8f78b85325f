//! Binary64 numbers, held by their bit pattern.
//!
//! Every comparison and every arithmetic operation has the result that IEEE 754
//! prescribes, with one difference that no comparison can see: a NaN result is
//! always the same quiet NaN.
use crate::quotient::round_quotient;
use crate::quotient::rounded_ratio;
use crate::rounding::round_product;
use crate::rounding::round_sum;
use crate::rounding::rounded;
use crate::rounding::units_of;
use crate::rounding::whole_part;
use crate::rounding::INFINITE;
use crate::rounding::lemma_rounded_exact;
use crate::rounding::lemma_units_order;
use vstd::arithmetic::power2::pow2;
use vstd::prelude::*;

verus! {

/// The weight of the sign bit.
pub const SIGN: u64 = 0x8000_0000_0000_0000;

/// The bit pattern that stands for every NaN result.
pub const QUIET_NAN: u64 = 0x7ff8_0000_0000_0000;

/// A binary64 number.
#[derive(Clone, Copy, Debug, PartialEq, Eq, Structural)]
pub struct Number {
    pub bits: u64,
}

impl Number {
    /// The bit pattern without the sign bit.
    pub open spec fn magnitude(self) -> u64 {
        if self.bits < SIGN {
            self.bits
        } else {
            (self.bits - SIGN) as u64
        }
    }

    /// Whether the sign bit is set.
    pub open spec fn negative(self) -> bool {
        self.bits >= SIGN
    }

    /// Not a number.
    pub open spec fn nan(self) -> bool {
        self.magnitude() > INFINITE
    }

    /// One of the two infinities.
    pub open spec fn infinite(self) -> bool {
        self.magnitude() == INFINITE
    }

    /// Neither infinite nor a NaN.
    pub open spec fn finite(self) -> bool {
        self.magnitude() < INFINITE
    }

    /// One of the two zeros.
    pub open spec fn zero(self) -> bool {
        self.magnitude() == 0
    }

    /// An integer that orders the numbers that are not NaN; both zeros have 0.
    pub open spec fn key(self) -> int {
        if self.negative() {
            -(self.magnitude() as int)
        } else {
            self.magnitude() as int
        }
    }

    /// The value of a finite number, in units of the smallest subnormal.
    pub open spec fn units(self) -> int {
        if self.negative() {
            -(units_of(self.magnitude()) as int)
        } else {
            units_of(self.magnitude()) as int
        }
    }

    /// The number with the given sign and magnitude.
    pub open spec fn signed(negative: bool, magnitude: u64) -> Number {
        Number {
            bits: if negative {
                (SIGN + magnitude) as u64
            } else {
                magnitude
            },
        }
    }

    /// `self < other`; false where either is NaN.
    pub open spec fn lt_spec(self, other: Number) -> bool {
        !self.nan() && !other.nan() && self.key() < other.key()
    }

    /// `self <= other`; false where either is NaN.
    pub open spec fn le_spec(self, other: Number) -> bool {
        !self.nan() && !other.nan() && self.key() <= other.key()
    }

    /// `|self|`.
    pub open spec fn abs_spec(self) -> Number {
        Number { bits: self.magnitude() }
    }

    /// `-self`.
    pub open spec fn neg_spec(self) -> Number {
        Number::signed(!self.negative(), self.magnitude())
    }

    /// The larger of the two; the other one where one is NaN.
    pub open spec fn max_spec(self, other: Number) -> Number {
        if self.nan() || self.lt_spec(other) {
            other
        } else {
            self
        }
    }

    /// The smaller of the two; the other one where one is NaN.
    pub open spec fn min_spec(self, other: Number) -> Number {
        if self.nan() || other.lt_spec(self) {
            other
        } else {
            self
        }
    }

    /// `self * other`, rounded to nearest, ties to even.
    pub open spec fn times_spec(self, other: Number) -> Number {
        let negative = self.negative() != other.negative();
        if self.nan() || other.nan() {
            Number { bits: QUIET_NAN }
        } else if self.infinite() || other.infinite() {
            if self.zero() || other.zero() {
                Number { bits: QUIET_NAN }
            } else {
                Number::signed(negative, INFINITE)
            }
        } else {
            Number::signed(
                negative,
                rounded(units_of(self.magnitude()) * units_of(other.magnitude()), 1074),
            )
        }
    }

    /// `self + other`, rounded to nearest, ties to even.
    pub open spec fn plus_spec(self, other: Number) -> Number {
        let exact = self.units() + other.units();
        if self.nan() || other.nan() {
            Number { bits: QUIET_NAN }
        } else if self.infinite() {
            if other.infinite() && self.negative() != other.negative() {
                Number { bits: QUIET_NAN }
            } else {
                self
            }
        } else if other.infinite() {
            other
        } else if exact == 0 {
            Number::signed(self.negative() && other.negative(), 0)
        } else if exact > 0 {
            Number::signed(false, rounded(exact as nat, 0))
        } else {
            Number::signed(true, rounded((-exact) as nat, 0))
        }
    }

    /// `self - other`, rounded to nearest, ties to even.
    pub open spec fn minus_spec(self, other: Number) -> Number {
        if other.nan() {
            Number { bits: QUIET_NAN }
        } else {
            self.plus_spec(other.neg_spec())
        }
    }

    /// `self / other`, rounded to nearest, ties to even.
    pub open spec fn over_spec(self, other: Number) -> Number {
        let negative = self.negative() != other.negative();
        if self.nan() || other.nan() || (self.infinite() && other.infinite()) || (self.zero()
            && other.zero()) {
            Number { bits: QUIET_NAN }
        } else if self.infinite() || other.zero() {
            Number::signed(negative, INFINITE)
        } else if other.infinite() {
            Number::signed(negative, 0)
        } else {
            Number::signed(
                negative,
                rounded_ratio(
                    units_of(self.magnitude()) * pow2(1074),
                    units_of(other.magnitude()),
                ),
            )
        }
    }

    /// The number cut to a whole one and held to the range of `u64`; 0 for NaN.
    pub open spec fn as_u64_spec(self) -> u64 {
        if self.nan() || self.negative() {
            0
        } else if self.infinite() || units_of(self.magnitude()) / pow2(1074) > u64::MAX {
            u64::MAX
        } else {
            (units_of(self.magnitude()) / pow2(1074)) as u64
        }
    }

    /// The number of a bit pattern.
    pub fn from_bits(bits: u64) -> (r: Number)
        ensures
            r.bits == bits,
    {
        Number { bits }
    }

    /// The bit pattern.
    pub fn to_bits(self) -> (r: u64)
        ensures
            r == self.bits,
    {
        self.bits
    }

    fn size(self) -> (r: u64)
        ensures
            r == self.magnitude(),
            r < SIGN,
    {
        if self.bits < SIGN {
            self.bits
        } else {
            self.bits - SIGN
        }
    }

    /// Whether this is a NaN.
    pub fn is_nan(self) -> (r: bool)
        ensures
            r == self.nan(),
    {
        self.size() > INFINITE
    }

    /// Whether this is neither infinite nor a NaN.
    pub fn is_finite(self) -> (r: bool)
        ensures
            r == self.finite(),
    {
        self.size() < INFINITE
    }

    /// `|self|`.
    pub fn abs(self) -> (r: Number)
        ensures
            r == self.abs_spec(),
    {
        Number { bits: self.size() }
    }

    /// `-self`.
    pub fn negated(self) -> (r: Number)
        ensures
            r == self.neg_spec(),
    {
        if self.bits < SIGN {
            Number { bits: self.bits + SIGN }
        } else {
            Number { bits: self.bits - SIGN }
        }
    }

    /// `self < other`.
    pub fn less(self, other: Number) -> (r: bool)
        ensures
            r == self.lt_spec(other),
    {
        let a: u64 = self.size();
        let b: u64 = other.size();
        if a > INFINITE || b > INFINITE {
            false
        } else if self.bits < SIGN {
            other.bits < SIGN && a < b
        } else if other.bits < SIGN {
            a > 0 || b > 0
        } else {
            b < a
        }
    }

    /// `self <= other`.
    pub fn at_most(self, other: Number) -> (r: bool)
        ensures
            r == self.le_spec(other),
    {
        !self.is_nan() && !other.is_nan() && !other.less(self)
    }

    /// Whether the two have the same value; a NaN has none.
    pub fn equals(self, other: Number) -> (r: bool)
        ensures
            r == (!self.nan() && !other.nan() && self.key() == other.key()),
    {
        self.at_most(other) && other.at_most(self)
    }

    /// The larger of the two; the other one where one is NaN.
    pub fn larger(self, other: Number) -> (r: Number)
        ensures
            r == self.max_spec(other),
    {
        if self.is_nan() || self.less(other) {
            other
        } else {
            self
        }
    }

    /// The smaller of the two; the other one where one is NaN.
    pub fn smaller(self, other: Number) -> (r: Number)
        ensures
            r == self.min_spec(other),
    {
        if self.is_nan() || other.less(self) {
            other
        } else {
            self
        }
    }

    /// `self * other`.
    pub fn times(self, other: Number) -> (r: Number)
        ensures
            r == self.times_spec(other),
    {
        let a: u64 = self.size();
        let b: u64 = other.size();
        let negative = (self.bits >= SIGN) != (other.bits >= SIGN);
        if a > INFINITE || b > INFINITE {
            return Number { bits: QUIET_NAN };
        }
        let m: u64 = if a == INFINITE || b == INFINITE {
            if a == 0 || b == 0 {
                return Number { bits: QUIET_NAN };
            }
            INFINITE
        } else {
            round_product(a, b)
        };
        if negative {
            Number { bits: m + SIGN }
        } else {
            Number { bits: m }
        }
    }

    /// `self + other`.
    pub fn plus(self, other: Number) -> (r: Number)
        ensures
            r == self.plus_spec(other),
    {
        let a: u64 = self.size();
        let b: u64 = other.size();
        let a_neg = self.bits >= SIGN;
        let b_neg = other.bits >= SIGN;
        if a > INFINITE || b > INFINITE {
            return Number { bits: QUIET_NAN };
        }
        if a == INFINITE {
            return if b == INFINITE && a_neg != b_neg {
                Number { bits: QUIET_NAN }
            } else {
                self
            };
        }
        if b == INFINITE {
            return other;
        }
        let apart = a_neg != b_neg;
        proof {
            lemma_units_order(a, b);
            lemma_units_order(0, a);
            lemma_units_order(0, b);
            assert(units_of(0) == 0) by {
                assert(0 * pow2(0) == 0);
            }
        }
        if apart && a == b {
            return Number { bits: 0 };
        }
        let negative = if a >= b {
            a_neg
        } else {
            b_neg
        };
        if a == 0 && b == 0 {
            return if negative {
                Number { bits: SIGN }
            } else {
                Number { bits: 0 }
            };
        }
        let m: u64 = if a >= b {
            round_sum(a, b, apart)
        } else {
            round_sum(b, a, apart)
        };
        if negative {
            Number { bits: m + SIGN }
        } else {
            Number { bits: m }
        }
    }

    /// `self / other`.
    pub fn over(self, other: Number) -> (r: Number)
        ensures
            r == self.over_spec(other),
    {
        let a: u64 = self.size();
        let b: u64 = other.size();
        let negative = (self.bits >= SIGN) != (other.bits >= SIGN);
        if a > INFINITE || b > INFINITE || (a == INFINITE && b == INFINITE) || (a == 0 && b == 0) {
            return Number { bits: QUIET_NAN };
        }
        let m: u64 = if a == INFINITE || b == 0 {
            INFINITE
        } else if b == INFINITE {
            0
        } else {
            round_quotient(a, b)
        };
        if negative {
            Number { bits: SIGN + m }
        } else {
            Number { bits: m }
        }
    }

    /// The number cut to a whole one and held to the range of `u64`.
    pub fn as_u64(self) -> (r: u64)
        ensures
            r == self.as_u64_spec(),
    {
        let m: u64 = self.size();
        if m > INFINITE || self.bits >= SIGN {
            0
        } else if m == INFINITE {
            u64::MAX
        } else {
            whole_part(m)
        }
    }

    /// `self - other`.
    pub fn minus(self, other: Number) -> (r: Number)
        ensures
            r == self.minus_spec(other),
    {
        if other.is_nan() {
            Number { bits: QUIET_NAN }
        } else {
            self.plus(other.negated())
        }
    }
}

/// The number 1.
pub open spec fn one() -> Number {
    Number { bits: 0x3ff0_0000_0000_0000 }
}

/// Finite numbers are ordered as their values.
pub proof fn law_order_is_by_value(a: Number, b: Number)
    requires
        a.finite(),
        b.finite(),
    ensures
        a.lt_spec(b) <==> a.units() < b.units(),
        a.le_spec(b) <==> a.units() <= b.units(),
{
    lemma_units_order(a.magnitude(), b.magnitude());
    lemma_units_order(0, a.magnitude());
    lemma_units_order(0, b.magnitude());
    assert(units_of(0) == 0) by {
        assert(0 * pow2(0) == 0);
    }
}

/// A comparison with a NaN never holds.
pub proof fn law_nan_compares_false(a: Number, b: Number)
    requires
        a.nan() || b.nan(),
    ensures
        !a.lt_spec(b),
        !a.le_spec(b),
        !b.lt_spec(a),
        !b.le_spec(a),
{
}

/// Negation reverses the order and undoes itself.
pub proof fn law_negation(a: Number, b: Number)
    ensures
        a.neg_spec().neg_spec() == a,
        a.neg_spec().lt_spec(b.neg_spec()) == b.lt_spec(a),
        a.neg_spec().le_spec(b.neg_spec()) == b.le_spec(a),
        a.neg_spec().nan() == a.nan(),
        a.neg_spec().finite() == a.finite(),
{
}

/// Addition commutes.
pub proof fn law_plus_commutes(a: Number, b: Number)
    ensures
        a.plus_spec(b) == b.plus_spec(a),
{
}

/// Multiplication commutes.
pub proof fn lemma_times_commutes(a: Number, b: Number)
    ensures
        a.times_spec(b) == b.times_spec(a),
{
    assert(units_of(a.magnitude()) * units_of(b.magnitude()) == units_of(b.magnitude()) * units_of(
        a.magnitude(),
    )) by (nonlinear_arith);
}

/// The sign of a product follows the signs of its factors.
pub proof fn law_times_negated(a: Number, b: Number)
    requires
        !a.nan() && !b.nan(),
        a.finite() && b.finite() || !a.zero() && !b.zero(),
    ensures
        a.neg_spec().times_spec(b) == a.times_spec(b).neg_spec(),
        a.times_spec(b.neg_spec()) == a.times_spec(b).neg_spec(),
        a.neg_spec().times_spec(b.neg_spec()) == a.times_spec(b),
{
    assert(rounded(units_of(a.magnitude()) * units_of(b.magnitude()), 1074) < SIGN);
}

/// Multiplying by one is exact.
pub proof fn lemma_times_one(a: Number)
    requires
        !a.nan(),
    ensures
        one().times_spec(a) == a,
        one().neg_spec().times_spec(a) == a.neg_spec(),
{
    let m = a.magnitude();
    assert(crate::rounding::scale_of(one().bits) == 1022);
    assert(crate::rounding::significand_of(one().bits) == crate::rounding::STEP);
    crate::rounding::lemma_format_powers();
    vstd::arithmetic::power2::lemma_pow2_adds(52, 1022);
    assert(units_of(one().bits) == pow2(1074));
    if a.finite() {
        lemma_rounded_exact(m, 1074);
        assert(pow2(1074) * units_of(m) == units_of(m) * pow2(1074)) by (nonlinear_arith);
    }
}

/// Multiplying a non-negative number by one that is at least 1 does not make it
/// smaller.
pub proof fn lemma_times_grows(a: Number, factor: Number)
    requires
        !a.nan(),
        a.zero() ==> !factor.infinite(),
        (Number { bits: 0 }).le_spec(a),
        one().le_spec(factor),
    ensures
        a.le_spec(a.times_spec(factor)),
{
    if a.finite() && factor.finite() {
        lemma_times_one(a);
        lemma_times_commutes(one(), a);
        lemma_units_order(one().magnitude(), factor.magnitude());
        let (ua, uo, uf) = (
            units_of(a.magnitude()),
            units_of(one().magnitude()),
            units_of(factor.magnitude()),
        );
        assert(ua * uo <= ua * uf) by (nonlinear_arith)
            requires
                uo <= uf,
        ;
        crate::rounding::lemma_rounded_monotone(ua * uo, ua * uf, 1074);
        assert(a.times_spec(one()).magnitude() == a.magnitude());
        if a.zero() {
            assert(ua == 0) by {
                assert(0 * pow2(0) == 0);
            }
            assert(ua * uo == 0 && ua * uf == 0) by (nonlinear_arith)
                requires
                    ua == 0,
            ;
        }
    }
}

/// A product with a non-negative factor is positive only where the other factor
/// is.
pub proof fn lemma_positive_product(a: Number, factor: Number)
    requires
        !factor.negative(),
        (Number { bits: 0 }).lt_spec(a.times_spec(factor)),
    ensures
        (Number { bits: 0 }).lt_spec(a),
        (Number { bits: 0 }).lt_spec(factor),
{
    let (ua, uf) = (units_of(a.magnitude()), units_of(factor.magnitude()));
    assert(units_of(0) == 0) by {
        assert(0 * pow2(0) == 0);
    }
    lemma_rounded_exact(0, 1074);
    assert(0 * pow2(1074) == 0);
    if a.zero() || factor.zero() {
        assert(ua * uf == 0) by (nonlinear_arith)
            requires
                ua == 0 || uf == 0,
        ;
    }
}

/// A larger positive factor gives no smaller product with a positive number.
pub proof fn lemma_times_monotone(a: Number, b: Number, factor: Number)
    requires
        (Number { bits: 0 }).lt_spec(a),
        a.le_spec(b),
        (Number { bits: 0 }).lt_spec(factor),
    ensures
        a.times_spec(factor).le_spec(b.times_spec(factor)),
{
    if b.finite() && factor.finite() {
        lemma_units_order(a.magnitude(), b.magnitude());
        let (ua, ub, uf) = (
            units_of(a.magnitude()),
            units_of(b.magnitude()),
            units_of(factor.magnitude()),
        );
        assert(ua * uf <= ub * uf) by (nonlinear_arith)
            requires
                ua <= ub,
        ;
        crate::rounding::lemma_rounded_monotone(ua * uf, ub * uf, 1074);
    }
}

} // verus!
