//! Numbers: their order, and operations that are exact where they can be.
use crate::number::law_order_is_by_value;
use crate::number::Number;
use crate::quotient::law_rounded_ratio_is_nearest;
use crate::rounding::distance;
use crate::rounding::law_rounded_is_nearest;
use crate::rounding::lemma_rounded_exact;
use crate::rounding::lemma_units_order;
use crate::rounding::units_of;
use vstd::arithmetic::div_mod::lemma_fundamental_div_mod;
use vstd::arithmetic::power2::lemma_pow2_pos;
use vstd::arithmetic::power2::pow2;
use vstd::prelude::*;

verus! {

/// Finite numbers are compared by their values, and comparisons with a NaN fail.
pub proof fn law_comparisons(a: Number, b: Number, below: bool, within: bool, equal: bool)
    requires
        call_ensures(Number::less, (a, b), below),
        call_ensures(Number::at_most, (a, b), within),
        call_ensures(Number::equals, (a, b), equal),
    ensures
        a.finite() && b.finite() ==> below == (a.units() < b.units()),
        a.finite() && b.finite() ==> within == (a.units() <= b.units()),
        a.finite() && b.finite() ==> equal == (a.units() == b.units()),
        a.nan() || b.nan() ==> !below && !within && !equal,
        below ==> within && !equal,
        within ==> below || equal,
{
    if a.finite() && b.finite() {
        law_order_is_by_value(a, b);
        law_order_is_by_value(b, a);
    }
}

/// The larger of two numbers is one of them and not below either, the smaller is
/// one of them and not above either, and a NaN gives way to the other one.
pub proof fn law_extremes(a: Number, b: Number, high: Number, low: Number)
    requires
        call_ensures(Number::larger, (a, b), high),
        call_ensures(Number::smaller, (a, b), low),
    ensures
        high == a || high == b,
        low == a || low == b,
        a.nan() ==> high == b && low == b,
        b.nan() && !a.nan() ==> high == a && low == a,
        !a.nan() && !b.nan() ==> a.le_spec(high) && b.le_spec(high),
        !a.nan() && !b.nan() ==> low.le_spec(a) && low.le_spec(b),
{
}

/// A size is not negative and has the distance of the number from 0 for its
/// value; negation turns the value round, and twice gives the number back.
pub proof fn law_sizes(a: Number, size: Number, opposite: Number, back: Number)
    requires
        call_ensures(Number::abs, (a,), size),
        call_ensures(Number::negated, (a,), opposite),
        call_ensures(Number::negated, (opposite,), back),
    ensures
        !size.negative(),
        size.nan() == a.nan(),
        a.units() >= 0 ==> size.units() == a.units(),
        a.units() <= 0 ==> size.units() == -a.units(),
        opposite.units() == -a.units(),
        opposite.negative() != a.negative(),
        opposite.nan() == a.nan(),
        back == a,
{
}

/// A finite sum or difference that a number can hold has exactly that value.
pub proof fn law_sums_are_exact(a: Number, b: Number, r: Number, sum: Number, difference: Number)
    requires
        call_ensures(Number::plus, (a, b), sum),
        call_ensures(Number::minus, (a, b), difference),
        a.finite(),
        b.finite(),
        r.finite(),
    ensures
        a.units() + b.units() == r.units() ==> sum.finite() && sum.units() == r.units(),
        a.units() - b.units() == r.units() ==> difference.finite() && difference.units()
            == r.units(),
{
    assert(b.neg_spec().units() == -b.units());
    lemma_held_sum(a, b, r);
    lemma_held_sum(a, b.neg_spec(), r);
}

proof fn lemma_held_sum(a: Number, b: Number, r: Number)
    requires
        a.finite(),
        b.finite(),
        r.finite(),
    ensures
        a.units() + b.units() == r.units() ==> a.plus_spec(b).finite() && a.plus_spec(b).units()
            == r.units(),
{
    lemma_rounded_exact(r.magnitude(), 0);
    lemma_zero_units();
    assert(pow2(0) == 1) by {
        vstd::arithmetic::power2::lemma2_to64();
    }
    assert(units_of(r.magnitude()) * pow2(0) == units_of(r.magnitude())) by (nonlinear_arith)
        requires
            pow2(0) == 1,
    ;
}

proof fn lemma_zero_units()
    ensures
        units_of(0) == 0,
{
    assert(0 * pow2(0) == 0);
}

/// Sums do not depend on the order of their terms, and products not on that of
/// their factors; a NaN spoils both.
pub proof fn law_order_of_operands(
    a: Number,
    b: Number,
    sum: Number,
    other_sum: Number,
    product: Number,
    other_product: Number,
)
    requires
        call_ensures(Number::plus, (a, b), sum),
        call_ensures(Number::plus, (b, a), other_sum),
        call_ensures(Number::times, (a, b), product),
        call_ensures(Number::times, (b, a), other_product),
    ensures
        sum == other_sum,
        product == other_product,
        a.nan() ==> sum.nan() && product.nan(),
        !product.nan() ==> product.negative() == (a.negative() != b.negative()),
{
    assert(units_of(a.magnitude()) * units_of(b.magnitude()) == units_of(b.magnitude()) * units_of(
        a.magnitude(),
    )) by (nonlinear_arith);
}

/// A finite product that a number can hold has exactly that size.
pub proof fn law_products_are_exact(a: Number, b: Number, r: Number, product: Number)
    requires
        call_ensures(Number::times, (a, b), product),
        a.finite(),
        b.finite(),
        r.finite(),
        units_of(a.magnitude()) * units_of(b.magnitude()) == units_of(r.magnitude()) * pow2(1074),
    ensures
        product.magnitude() == r.magnitude(),
        product.negative() == (a.negative() != b.negative()),
{
    lemma_rounded_exact(r.magnitude(), 1074);
}

/// A finite quotient is as near to the exact one as any finite number; its sign is
/// negative where the signs differ; a number over 0 is infinite, and 0 over 0 is
/// none.
pub proof fn law_quotients_are_nearest(a: Number, b: Number, other: Number, quotient: Number)
    requires
        call_ensures(Number::over, (a, b), quotient),
    ensures
        a.finite() && b.finite() && !b.zero() && quotient.finite() && other.finite() ==> distance(
            (units_of(quotient.magnitude()) * units_of(b.magnitude())) as int,
            (units_of(a.magnitude()) * pow2(1074)) as int,
        ) <= distance(
            (units_of(other.magnitude()) * units_of(b.magnitude())) as int,
            (units_of(a.magnitude()) * pow2(1074)) as int,
        ),
        !quotient.nan() ==> quotient.negative() == (a.negative() != b.negative()),
        a.nan() || b.nan() || a.zero() && b.zero() || a.infinite() && b.infinite()
            ==> quotient.nan(),
        !a.nan() && !a.zero() && b.zero() ==> quotient.infinite(),
        a.finite() && b.infinite() ==> quotient.zero(),
{
    if a.finite() && b.finite() && !b.zero() && quotient.finite() && other.finite() {
        lemma_zero_units();
        lemma_units_order(0, b.magnitude());
        law_rounded_ratio_is_nearest(
            units_of(a.magnitude()) * pow2(1074),
            units_of(b.magnitude()),
            other.magnitude(),
        );
    }
}

/// A number is cut to the whole one below it, held to what fits; what is negative
/// or not a number gives 0.
pub proof fn law_whole_part(a: Number, r: u64)
    requires
        call_ensures(Number::as_u64, (a,), r),
    ensures
        a.nan() || a.negative() ==> r == 0,
        a.infinite() && !a.negative() ==> r == u64::MAX,
        a.finite() && !a.negative() ==> r * pow2(1074) <= a.units(),
        a.finite() && !a.negative() && r < u64::MAX ==> a.units() < (r + 1) * pow2(1074),
{
    if a.finite() && !a.negative() {
        let n = units_of(a.magnitude()) as int;
        let d = pow2(1074) as int;
        lemma_pow2_pos(1074);
        lemma_fundamental_div_mod(n, d);
        let q = n / d;
        assert(q * d <= n < (q + 1) * d) by (nonlinear_arith)
            requires
                n == d * q + n % d,
                0 <= n % d < d,
        ;
        if q > u64::MAX {
            assert(u64::MAX * d <= q * d) by (nonlinear_arith)
                requires
                    q > u64::MAX,
                    d > 0,
            ;
        }
    }
}

/// A sum that vanishes is positive unless both terms are negative; a sum with an
/// infinite term is that term, unless the other one is infinite the other way.
pub proof fn law_edges_of_sums(a: Number, b: Number, sum: Number, difference: Number)
    requires
        call_ensures(Number::plus, (a, b), sum),
        call_ensures(Number::minus, (a, b), difference),
    ensures
        a.finite() && b.finite() && a.units() + b.units() == 0 ==> sum.zero() && sum.negative() == (
        a.negative() && b.negative()),
        a.finite() && b.finite() && a.units() + b.units() > 0 ==> !sum.negative(),
        a.finite() && b.finite() && a.units() + b.units() < 0 ==> sum.negative(),
        a.infinite() && b.finite() ==> sum == a && difference == a,
        a.finite() && b.infinite() ==> sum == b && difference == b.neg_spec(),
        a.infinite() && b.infinite() && a.negative() == b.negative() ==> sum == a
            && difference.nan(),
        a.infinite() && b.infinite() && a.negative() != b.negative() ==> sum.nan() && difference
            == a,
        a.nan() || b.nan() ==> sum.nan() && difference.nan(),
{
}

/// A finite sum is as near to the exact one as any finite number of its sign, and
/// so is a finite product.
pub proof fn law_results_are_nearest(
    a: Number,
    b: Number,
    other: Number,
    sum: Number,
    product: Number,
)
    requires
        call_ensures(Number::plus, (a, b), sum),
        call_ensures(Number::times, (a, b), product),
        a.finite(),
        b.finite(),
        other.finite(),
    ensures
        sum.finite() && a.units() + b.units() > 0 ==> distance(
            sum.units(),
            a.units() + b.units(),
        ) <= distance(units_of(other.magnitude()) as int, a.units() + b.units()),
        product.finite() ==> distance(
            (units_of(product.magnitude()) * pow2(1074)) as int,
            (units_of(a.magnitude()) * units_of(b.magnitude())) as int,
        ) <= distance(
            (units_of(other.magnitude()) * pow2(1074)) as int,
            (units_of(a.magnitude()) * units_of(b.magnitude())) as int,
        ),
{
    if product.finite() {
        law_rounded_is_nearest(
            units_of(a.magnitude()) * units_of(b.magnitude()),
            1074,
            other.magnitude(),
        );
    }
    let exact = a.units() + b.units();
    if sum.finite() && exact > 0 {
        assert(pow2(0) == 1) by {
            vstd::arithmetic::power2::lemma2_to64();
        }
        law_rounded_is_nearest(exact as nat, 0, other.magnitude());
        let n = units_of(sum.magnitude());
        let m = units_of(other.magnitude());
        assert(n * pow2(0) == n && m * pow2(0) == m) by (nonlinear_arith)
            requires
                pow2(0) == 1,
        ;
    }
}

} // verus!
