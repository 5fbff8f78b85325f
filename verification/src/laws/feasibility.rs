//! How a point is judged, by the values of its rows and variables and by their
//! bounds.
use crate::decimal::D0;
use crate::decimal::D1;
use crate::decimal::EPSILON;
use crate::feasibility::all_sides;
use crate::feasibility::block_sides;
use crate::feasibility::law_worst_is_largest;
use crate::feasibility::measurable;
use crate::feasibility::negligible;
use crate::feasibility::original_space_feasibility;
use crate::feasibility::satisfied;
use crate::feasibility::side_of;
use crate::feasibility::worst;
use crate::feasibility::FeasibilityStandards;
use crate::feasibility::ModelBounds;
use crate::feasibility::OriginalSpaceFeasibility;
use crate::feasibility::Side;
use crate::number::law_order_is_by_value;
use crate::number::lemma_positive_product;
use crate::number::lemma_times_commutes;
use crate::number::lemma_times_grows;
use crate::number::lemma_times_monotone;
use crate::number::Number;
use crate::rounding::lemma_rounded_exact;
use crate::rounding::lemma_rounded_monotone;
use crate::rounding::rounded;
use crate::rounding::units_of;
use vstd::arithmetic::power2::pow2;
use vstd::prelude::*;

verus! {

/// A lower bound that a model declares: a finite number above the sentinel for
/// none.
pub open spec fn has_lower(lo: Number, s: FeasibilityStandards) -> bool {
    lo.finite() && !lo.le_spec(s.lower_bound_inf)
}

/// An upper bound that a model declares: a finite number below the sentinel for
/// none.
pub open spec fn has_upper(hi: Number, s: FeasibilityStandards) -> bool {
    hi.finite() && !s.upper_bound_inf.le_spec(hi)
}

/// The value lies within the bounds that the model declares for it.
pub open spec fn within(v: Number, lo: Number, hi: Number, s: FeasibilityStandards) -> bool {
    &&& has_lower(lo, s) ==> lo.le_spec(v)
    &&& has_upper(hi, s) ==> v.le_spec(hi)
}

/// The rows of a model, or its variables.
pub enum Block {
    Rows,
    Variables,
}

/// The values of the block.
pub open spec fn values(k: Block, x: Seq<Number>, g: Seq<Number>) -> Seq<Number> {
    match k {
        Block::Rows => g,
        Block::Variables => x,
    }
}

/// The lower bounds of the block.
pub open spec fn lowers(k: Block, b: ModelBounds) -> Seq<Number> {
    match k {
        Block::Rows => b.g_l@,
        Block::Variables => b.x_l@,
    }
}

/// The upper bounds of the block.
pub open spec fn uppers(k: Block, b: ModelBounds) -> Seq<Number> {
    match k {
        Block::Rows => b.g_u@,
        Block::Variables => b.x_u@,
    }
}

/// A finite number minus a smaller one is positive, and minus one that is not
/// smaller is not.
proof fn lemma_difference(a: Number, b: Number)
    requires
        a.finite(),
        b.finite(),
    ensures
        b.lt_spec(a) ==> (Number { bits: D0 }).lt_spec(a.minus_spec(b)),
        a.le_spec(b) ==> a.minus_spec(b).le_spec(Number { bits: D0 }),
        !a.minus_spec(b).nan(),
{
    law_order_is_by_value(a, b);
    law_order_is_by_value(b, a);
    let exact = a.units() - b.units();
    assert(b.neg_spec().units() == -b.units());
    if exact > 0 {
        crate::rounding::lemma_format_powers();
        assert(units_of(1) == 1) by {
            assert(1 * pow2(0) == 1);
        }
        lemma_rounded_exact(1, 0);
        assert(1 * pow2(0) == 1);
        lemma_rounded_monotone(1, exact as nat, 0);
        assert(rounded(exact as nat, 0) >= 1);
    }
}

/// The side of a value of a block stands among all sides.
proof fn lemma_side_at(
    b: ModelBounds,
    x: Seq<Number>,
    g: Seq<Number>,
    s: FeasibilityStandards,
    block: Block,
    i: int,
    upper: bool,
) -> (k: int)
    requires
        0 <= i < lowers(block, b).len(),
    ensures
        0 <= k < all_sides(b, x, g, s).len(),
        all_sides(b, x, g, s)[k] == side_of(
            values(block, x, g)[i],
            lowers(block, b)[i],
            uppers(block, b)[i],
            upper,
            s,
        ),
{
    let u: int = if upper {
        1
    } else {
        0
    };
    let j = 2 * i + u;
    assert(j / 2 == i);
    assert(j % 2 == u);
    let rows = block_sides(g, b.g_l@, b.g_u@, s);
    match block {
        Block::Rows => {
            assert(all_sides(b, x, g, s)[j] == rows[j]);
            j
        },
        Block::Variables => {
            let vars = block_sides(x, b.x_l@, b.x_u@, s);
            assert(all_sides(b, x, g, s)[rows.len() + j] == vars[j]);
            rows.len() + j
        },
    }
}

/// Every side is that of some value of a block.
proof fn lemma_side_from(
    b: ModelBounds,
    x: Seq<Number>,
    g: Seq<Number>,
    s: FeasibilityStandards,
    k: int,
) -> (r: (Block, int, bool))
    requires
        0 <= k < all_sides(b, x, g, s).len(),
    ensures
        0 <= r.1 < lowers(r.0, b).len(),
        all_sides(b, x, g, s)[k] == side_of(
            values(r.0, x, g)[r.1],
            lowers(r.0, b)[r.1],
            uppers(r.0, b)[r.1],
            r.2,
            s,
        ),
{
    let rows = block_sides(g, b.g_l@, b.g_u@, s);
    if k < rows.len() {
        (Block::Rows, k / 2, k % 2 == 1)
    } else {
        let j = k - rows.len();
        assert(all_sides(b, x, g, s)[k] == block_sides(x, b.x_l@, b.x_u@, s)[j]);
        (Block::Variables, j / 2, j % 2 == 1)
    }
}

proof fn lemma_value_is_finite(
    b: ModelBounds,
    x: Seq<Number>,
    g: Seq<Number>,
    block: Block,
    i: int,
)
    requires
        measurable(x, b.x_l.len() as int),
        measurable(g, b.g_l.len() as int),
        0 <= i < lowers(block, b).len(),
    ensures
        values(block, x, g)[i].finite(),
{
    match block {
        Block::Rows => {
            assert(g[i].finite());
        },
        Block::Variables => {
            assert(x[i].finite());
        },
    }
}

proof fn lemma_no_nan(b: ModelBounds, x: Seq<Number>, g: Seq<Number>, s: FeasibilityStandards)
    requires
        measurable(x, b.x_l.len() as int),
        measurable(g, b.g_l.len() as int),
    ensures
        forall|k: int|
            0 <= k < all_sides(b, x, g, s).len() ==> !(#[trigger] all_sides(
                b,
                x,
                g,
                s,
            )[k]).viol.nan(),
{
    assert forall|k: int| 0 <= k < all_sides(b, x, g, s).len() implies !(#[trigger] all_sides(
        b,
        x,
        g,
        s,
    )[k]).viol.nan() by {
        let (block, i, upper) = lemma_side_from(b, x, g, s, k);
        lemma_value_is_finite(b, x, g, block, i);
        let v = values(block, x, g)[i];
        if lowers(block, b)[i].finite() {
            lemma_difference(lowers(block, b)[i], v);
        }
        if uppers(block, b)[i].finite() {
            lemma_difference(v, uppers(block, b)[i]);
        }
    }
}

proof fn lemma_worst_is_attained(sides: Seq<Side>)
    ensures
        worst(sides) == (Number { bits: D0 }) || exists|k: int|
            0 <= k < sides.len() && worst(sides) == (#[trigger] sides[k]).viol,
    decreases sides.len(),
{
    if sides.len() > 0 {
        let rest = sides.drop_last();
        lemma_worst_is_attained(rest);
        assert(sides.last() == sides[sides.len() - 1]);
        if worst(sides) == worst(rest) && worst(rest) != (Number { bits: D0 }) {
            let k = choose|k: int| 0 <= k < rest.len() && worst(rest) == (#[trigger] rest[k]).viol;
            assert(rest[k] == sides[k]);
        }
    }
}

/// A point is measured exactly where every row and every variable has a value
/// that is finite.
pub proof fn law_measured_where_finite(
    b: ModelBounds,
    x: Vec<Number>,
    g: Vec<Number>,
    s: FeasibilityStandards,
    r: Option<OriginalSpaceFeasibility>,
)
    requires
        call_ensures(original_space_feasibility, (&b, &x, &g, &s), r),
    ensures
        r is Some ==> x.len() >= b.x_l.len() && g.len() >= b.g_l.len(),
        r is Some ==> forall|i: int| 0 <= i < b.x_l.len() ==> (#[trigger] x@[i]).finite(),
        r is Some ==> forall|i: int| 0 <= i < b.g_l.len() ==> (#[trigger] g@[i]).finite(),
        x.len() >= b.x_l.len() && g.len() >= b.g_l.len() && (forall|i: int|
            0 <= i < b.x_l.len() ==> (#[trigger] x@[i]).finite()) && (forall|i: int|
            0 <= i < b.g_l.len() ==> (#[trigger] g@[i]).finite()) ==> r is Some,
{
}

/// A row or variable below its lower bound is a violation: the reported one is
/// positive, and at least as large as the bound minus the value.
pub proof fn law_missed_lower_bound_is_reported(
    b: ModelBounds,
    x: Vec<Number>,
    g: Vec<Number>,
    s: FeasibilityStandards,
    f: OriginalSpaceFeasibility,
    block: Block,
    i: int,
)
    requires
        call_ensures(original_space_feasibility, (&b, &x, &g, &s), Some(f)),
        0 <= i < lowers(block, b).len(),
        has_lower(lowers(block, b)[i], s),
        values(block, x@, g@)[i].lt_spec(lowers(block, b)[i]),
    ensures
        (Number { bits: D0 }).lt_spec(f.max_violation),
        lowers(block, b)[i].minus_spec(values(block, x@, g@)[i]).le_spec(f.max_violation),
{
    let k = lemma_side_at(b, x@, g@, s, block, i, false);
    lemma_value_is_finite(b, x@, g@, block, i);
    lemma_no_nan(b, x@, g@, s);
    lemma_difference(lowers(block, b)[i], values(block, x@, g@)[i]);
    law_worst_is_largest(all_sides(b, x@, g@, s), k);
}

/// A row or variable above its upper bound is a violation: the reported one is
/// positive, and at least as large as the value minus the bound.
pub proof fn law_missed_upper_bound_is_reported(
    b: ModelBounds,
    x: Vec<Number>,
    g: Vec<Number>,
    s: FeasibilityStandards,
    f: OriginalSpaceFeasibility,
    block: Block,
    i: int,
)
    requires
        call_ensures(original_space_feasibility, (&b, &x, &g, &s), Some(f)),
        0 <= i < lowers(block, b).len(),
        has_upper(uppers(block, b)[i], s),
        uppers(block, b)[i].lt_spec(values(block, x@, g@)[i]),
    ensures
        (Number { bits: D0 }).lt_spec(f.max_violation),
        values(block, x@, g@)[i].minus_spec(uppers(block, b)[i]).le_spec(f.max_violation),
{
    let k = lemma_side_at(b, x@, g@, s, block, i, true);
    lemma_value_is_finite(b, x@, g@, block, i);
    lemma_no_nan(b, x@, g@, s);
    lemma_difference(values(block, x@, g@)[i], uppers(block, b)[i]);
    law_worst_is_largest(all_sides(b, x@, g@, s), k);
}

/// A point within all its bounds has no violation and meets both standards.
pub proof fn law_feasible_point_is_clean(
    b: ModelBounds,
    x: Vec<Number>,
    g: Vec<Number>,
    s: FeasibilityStandards,
    f: OriginalSpaceFeasibility,
)
    requires
        call_ensures(original_space_feasibility, (&b, &x, &g, &s), Some(f)),
        forall|block: Block, i: int|
            0 <= i < lowers(block, b).len() ==> within(
                #[trigger] values(block, x@, g@)[i],
                lowers(block, b)[i],
                uppers(block, b)[i],
                s,
            ),
    ensures
        f.max_violation.zero(),
        f.negligible_at_tol,
        f.negligible_at_acceptable,
{
    let sides = all_sides(b, x@, g@, s);
    assert forall|k: int| 0 <= k < sides.len() implies satisfied(#[trigger] sides[k]) by {
        let (block, i, upper) = lemma_side_from(b, x@, g@, s, k);
        lemma_value_is_finite(b, x@, g@, block, i);
        let v = values(block, x@, g@)[i];
        assert(within(v, lowers(block, b)[i], uppers(block, b)[i], s));
        if lowers(block, b)[i].finite() {
            lemma_difference(lowers(block, b)[i], v);
        }
        if uppers(block, b)[i].finite() {
            lemma_difference(v, uppers(block, b)[i]);
        }
    }
    lemma_worst_of_satisfied(sides);
}

proof fn lemma_worst_of_satisfied(sides: Seq<Side>)
    requires
        forall|k: int| 0 <= k < sides.len() ==> satisfied(#[trigger] sides[k]),
    ensures
        worst(sides) == (Number { bits: D0 }),
    decreases sides.len(),
{
    if sides.len() > 0 {
        assert(sides.last() == sides[sides.len() - 1]);
        let rest = sides.drop_last();
        assert forall|k: int| 0 <= k < rest.len() implies satisfied(#[trigger] rest[k]) by {
            assert(rest[k] == sides[k]);
        }
        lemma_worst_of_satisfied(rest);
    }
}

/// What is reported as the violation is 0, or by how much some row or variable
/// misses one of its bounds.
pub proof fn law_reported_violation_is_some_rows(
    b: ModelBounds,
    x: Vec<Number>,
    g: Vec<Number>,
    s: FeasibilityStandards,
    f: OriginalSpaceFeasibility,
)
    requires
        call_ensures(original_space_feasibility, (&b, &x, &g, &s), Some(f)),
    ensures
        f.max_violation.zero() || exists|block: Block, i: int|
            0 <= i < lowers(block, b).len() && ((has_lower(lowers(block, b)[i], s)
                && f.max_violation == lowers(block, b)[i].minus_spec(
                #[trigger] values(block, x@, g@)[i],
            )) || (has_upper(uppers(block, b)[i], s) && f.max_violation == values(
                block,
                x@,
                g@,
            )[i].minus_spec(uppers(block, b)[i]))),
{
    let sides = all_sides(b, x@, g@, s);
    lemma_worst_is_attained(sides);
    if worst(sides) != (Number { bits: D0 }) {
        let k = choose|k: int| 0 <= k < sides.len() && worst(sides) == (#[trigger] sides[k]).viol;
        let (block, i, upper) = lemma_side_from(b, x@, g@, s, k);
        let v = values(block, x@, g@)[i];
        assert(f.max_violation == sides[k].viol);
    }
}

/// The size is that of the value or of one of its declared bounds.
pub open spec fn size_at(
    m: Number,
    v: Number,
    lo: Number,
    hi: Number,
    s: FeasibilityStandards,
) -> bool {
    ||| m == v.abs_spec()
    ||| has_lower(lo, s) && m == lo.abs_spec()
    ||| has_upper(hi, s) && m == hi.abs_spec()
}

/// By how much is too much: more than the relative tolerance at 1 and at every
/// size around, or more than the absolute tolerance and than the rounding error
/// at every size around.
pub open spec fn misses_by_too_much(
    miss: Number,
    v: Number,
    lo: Number,
    hi: Number,
    s: FeasibilityStandards,
    tol: Number,
    absolute: Number,
) -> bool {
    ||| (tol.times_spec(Number { bits: D1 }).lt_spec(miss) && forall|m: Number|
        size_at(m, v, lo, hi, s) ==> (#[trigger] tol.times_spec(m)).lt_spec(miss))
    ||| (absolute.lt_spec(miss) && forall|m: Number|
        size_at(m, v, lo, hi, s) ==> (#[trigger] s.noise_floor_kappa.times_spec(
            Number { bits: EPSILON },
        ).times_spec(m)).lt_spec(miss))
}

proof fn lemma_scale_is_a_size(
    v: Number,
    lo: Number,
    hi: Number,
    upper: bool,
    s: FeasibilityStandards,
)
    requires
        v.finite(),
    ensures
        size_at(side_of(v, lo, hi, upper, s).scale, v, lo, hi, s),
        side_of(v, lo, hi, upper, s).scale.abs_spec() == side_of(v, lo, hi, upper, s).scale,
        side_of(v, lo, hi, upper, s).scale.finite(),
{
}

/// A lower bound that is missed by more than the tolerances allow makes the
/// point fail the standard, strict or acceptable.
pub proof fn law_missed_lower_bound_fails(
    b: ModelBounds,
    x: Vec<Number>,
    g: Vec<Number>,
    s: FeasibilityStandards,
    f: OriginalSpaceFeasibility,
    block: Block,
    i: int,
)
    requires
        call_ensures(original_space_feasibility, (&b, &x, &g, &s), Some(f)),
        0 <= i < lowers(block, b).len(),
        has_lower(lowers(block, b)[i], s),
        values(block, x@, g@)[i].lt_spec(lowers(block, b)[i]),
    ensures
        misses_by_too_much(
            lowers(block, b)[i].minus_spec(values(block, x@, g@)[i]),
            values(block, x@, g@)[i],
            lowers(block, b)[i],
            uppers(block, b)[i],
            s,
            s.tol,
            s.constr_viol_tol,
        ) ==> !f.negligible_at_tol,
        misses_by_too_much(
            lowers(block, b)[i].minus_spec(values(block, x@, g@)[i]),
            values(block, x@, g@)[i],
            lowers(block, b)[i],
            uppers(block, b)[i],
            s,
            s.acceptable_tol,
            s.acceptable_constr_viol_tol,
        ) ==> !f.negligible_at_acceptable,
{
    let k = lemma_side_at(b, x@, g@, s, block, i, false);
    lemma_value_is_finite(b, x@, g@, block, i);
    lemma_difference(lowers(block, b)[i], values(block, x@, g@)[i]);
    lemma_scale_is_a_size(
        values(block, x@, g@)[i],
        lowers(block, b)[i],
        uppers(block, b)[i],
        false,
        s,
    );
    let side = all_sides(b, x@, g@, s)[k];
    assert(!satisfied(side));
    assert(f.negligible_at_tol ==> negligible(
        side,
        s.tol,
        s.constr_viol_tol,
        s.noise_floor_kappa,
    ));
    assert(f.negligible_at_acceptable ==> negligible(
        side,
        s.acceptable_tol,
        s.acceptable_constr_viol_tol,
        s.noise_floor_kappa,
    ));
}

/// So does an upper bound.
pub proof fn law_missed_upper_bound_fails(
    b: ModelBounds,
    x: Vec<Number>,
    g: Vec<Number>,
    s: FeasibilityStandards,
    f: OriginalSpaceFeasibility,
    block: Block,
    i: int,
)
    requires
        call_ensures(original_space_feasibility, (&b, &x, &g, &s), Some(f)),
        0 <= i < lowers(block, b).len(),
        has_upper(uppers(block, b)[i], s),
        uppers(block, b)[i].lt_spec(values(block, x@, g@)[i]),
    ensures
        misses_by_too_much(
            values(block, x@, g@)[i].minus_spec(uppers(block, b)[i]),
            values(block, x@, g@)[i],
            lowers(block, b)[i],
            uppers(block, b)[i],
            s,
            s.tol,
            s.constr_viol_tol,
        ) ==> !f.negligible_at_tol,
        misses_by_too_much(
            values(block, x@, g@)[i].minus_spec(uppers(block, b)[i]),
            values(block, x@, g@)[i],
            lowers(block, b)[i],
            uppers(block, b)[i],
            s,
            s.acceptable_tol,
            s.acceptable_constr_viol_tol,
        ) ==> !f.negligible_at_acceptable,
{
    let k = lemma_side_at(b, x@, g@, s, block, i, true);
    lemma_value_is_finite(b, x@, g@, block, i);
    lemma_difference(values(block, x@, g@)[i], uppers(block, b)[i]);
    lemma_scale_is_a_size(
        values(block, x@, g@)[i],
        lowers(block, b)[i],
        uppers(block, b)[i],
        true,
        s,
    );
    let side = all_sides(b, x@, g@, s)[k];
    assert(!satisfied(side));
    assert(f.negligible_at_tol ==> negligible(
        side,
        s.tol,
        s.constr_viol_tol,
        s.noise_floor_kappa,
    ));
    assert(f.negligible_at_acceptable ==> negligible(
        side,
        s.acceptable_tol,
        s.acceptable_constr_viol_tol,
        s.noise_floor_kappa,
    ));
}

/// No declared bound of the value is missed by more than the two tolerances.
pub open spec fn missed_by_at_most(
    v: Number,
    lo: Number,
    hi: Number,
    s: FeasibilityStandards,
    tol: Number,
    absolute: Number,
) -> bool {
    &&& has_lower(lo, s) && v.lt_spec(lo) ==> lo.minus_spec(v).le_spec(tol) && lo.minus_spec(
        v,
    ).le_spec(absolute)
    &&& has_upper(hi, s) && hi.lt_spec(v) ==> v.minus_spec(hi).le_spec(tol) && v.minus_spec(
        hi,
    ).le_spec(absolute)
}

/// A point that misses no bound by more than `tol` and `constr_viol_tol` meets
/// the strict standard; with the acceptable tolerances, the acceptable one.
pub proof fn law_small_misses_pass(
    b: ModelBounds,
    x: Vec<Number>,
    g: Vec<Number>,
    s: FeasibilityStandards,
    f: OriginalSpaceFeasibility,
)
    requires
        call_ensures(original_space_feasibility, (&b, &x, &g, &s), Some(f)),
    ensures
        (forall|block: Block, i: int|
            0 <= i < lowers(block, b).len() ==> missed_by_at_most(
                #[trigger] values(block, x@, g@)[i],
                lowers(block, b)[i],
                uppers(block, b)[i],
                s,
                s.tol,
                s.constr_viol_tol,
            )) ==> f.negligible_at_tol,
        (forall|block: Block, i: int|
            0 <= i < lowers(block, b).len() ==> missed_by_at_most(
                #[trigger] values(block, x@, g@)[i],
                lowers(block, b)[i],
                uppers(block, b)[i],
                s,
                s.acceptable_tol,
                s.acceptable_constr_viol_tol,
            )) ==> f.negligible_at_acceptable,
{
    lemma_small_misses_pass(b, x@, g@, s, s.tol, s.constr_viol_tol);
    lemma_small_misses_pass(b, x@, g@, s, s.acceptable_tol, s.acceptable_constr_viol_tol);
}

proof fn lemma_small_misses_pass(
    b: ModelBounds,
    x: Seq<Number>,
    g: Seq<Number>,
    s: FeasibilityStandards,
    tol: Number,
    absolute: Number,
)
    requires
        measurable(x, b.x_l.len() as int),
        measurable(g, b.g_l.len() as int),
    ensures
        (forall|block: Block, i: int|
            0 <= i < lowers(block, b).len() ==> missed_by_at_most(
                #[trigger] values(block, x, g)[i],
                lowers(block, b)[i],
                uppers(block, b)[i],
                s,
                tol,
                absolute,
            )) ==> crate::feasibility::all_negligible(
            all_sides(b, x, g, s),
            tol,
            absolute,
            s.noise_floor_kappa,
        ),
{
    if forall|block: Block, i: int|
        0 <= i < lowers(block, b).len() ==> missed_by_at_most(
            #[trigger] values(block, x, g)[i],
            lowers(block, b)[i],
            uppers(block, b)[i],
            s,
            tol,
            absolute,
        ) {
        let sides = all_sides(b, x, g, s);
        assert forall|k: int| 0 <= k < sides.len() implies satisfied(#[trigger] sides[k])
            || negligible(sides[k], tol, absolute, s.noise_floor_kappa) by {
            let (block, i, upper) = lemma_side_from(b, x, g, s, k);
            lemma_value_is_finite(b, x, g, block, i);
            let v = values(block, x, g)[i];
            let lo = lowers(block, b)[i];
            let hi = uppers(block, b)[i];
            assert(missed_by_at_most(v, lo, hi, s, tol, absolute));
            if lo.finite() {
                lemma_difference(lo, v);
            }
            if hi.finite() {
                lemma_difference(v, hi);
            }
            lemma_scale_is_a_size(v, lo, hi, upper, s);
            if !satisfied(sides[k]) {
                let width = sides[k].scale.abs_spec().max_spec(Number { bits: D1 });
                assert(sides[k].viol.le_spec(tol));
                lemma_times_grows(tol, width);
            }
        }
    }
}

/// A miss is allowed: it is within the relative tolerance at 1, at the value or at
/// one of its declared bounds, and within the absolute tolerance, or within the
/// rounding error at the value or at one of its declared bounds.
pub open spec fn allowed(
    miss: Number,
    v: Number,
    lo: Number,
    hi: Number,
    s: FeasibilityStandards,
    tol: Number,
    absolute: Number,
) -> bool {
    let noise = s.noise_floor_kappa.times_spec(Number { bits: EPSILON });
    &&& miss.le_spec(tol.times_spec(Number { bits: D1 })) || miss.le_spec(
        tol.times_spec(v.abs_spec()),
    ) || has_lower(lo, s) && miss.le_spec(tol.times_spec(lo.abs_spec())) || has_upper(hi, s)
        && miss.le_spec(tol.times_spec(hi.abs_spec()))
    &&& miss.le_spec(absolute) || miss.le_spec(noise.times_spec(v.abs_spec())) || has_lower(lo, s)
        && miss.le_spec(noise.times_spec(lo.abs_spec())) || has_upper(hi, s) && miss.le_spec(
        noise.times_spec(hi.abs_spec()),
    )
}

/// Every miss of the value is allowed.
pub open spec fn misses_are_allowed(
    v: Number,
    lo: Number,
    hi: Number,
    s: FeasibilityStandards,
    tol: Number,
    absolute: Number,
) -> bool {
    &&& has_lower(lo, s) && v.lt_spec(lo) ==> allowed(
        lo.minus_spec(v),
        v,
        lo,
        hi,
        s,
        tol,
        absolute,
    )
    &&& has_upper(hi, s) && hi.lt_spec(v) ==> allowed(
        v.minus_spec(hi),
        v,
        lo,
        hi,
        s,
        tol,
        absolute,
    )
}

/// A positive product at a size is not above the one at a larger size.
proof fn lemma_at_larger_size(factor: Number, small: Number, large: Number, miss: Number)
    requires
        (Number { bits: D0 }).lt_spec(miss),
        miss.le_spec(factor.times_spec(small)),
        !small.negative(),
        small.le_spec(large),
    ensures
        miss.le_spec(factor.times_spec(large)),
{
    lemma_positive_product(factor, small);
    lemma_times_commutes(factor, small);
    lemma_times_commutes(factor, large);
    lemma_times_monotone(small, large, factor);
}

proof fn lemma_allowed_is_negligible(
    v: Number,
    lo: Number,
    hi: Number,
    upper: bool,
    s: FeasibilityStandards,
    tol: Number,
    absolute: Number,
)
    requires
        v.finite(),
        !satisfied(side_of(v, lo, hi, upper, s)),
        !side_of(v, lo, hi, upper, s).viol.nan(),
    ensures
        negligible(side_of(v, lo, hi, upper, s), tol, absolute, s.noise_floor_kappa) <==> allowed(
            side_of(v, lo, hi, upper, s).viol,
            v,
            lo,
            hi,
            s,
            tol,
            absolute,
        ),
{
    let side = side_of(v, lo, hi, upper, s);
    let miss = side.viol;
    let scale = side.scale;
    lemma_scale_is_a_size(v, lo, hi, upper, s);
    let width = scale.max_spec(Number { bits: D1 });
    let noise = s.noise_floor_kappa.times_spec(Number { bits: EPSILON });
    assert(miss.abs_spec() == miss);
    assert(v.abs_spec().le_spec(scale));
    assert(has_lower(lo, s) ==> lo.abs_spec().le_spec(scale));
    assert(has_upper(hi, s) ==> hi.abs_spec().le_spec(scale));
    assert(scale.le_spec(width));
    if miss.le_spec(tol.times_spec(Number { bits: D1 })) {
        lemma_at_larger_size(tol, Number { bits: D1 }, width, miss);
    }
    if miss.le_spec(tol.times_spec(v.abs_spec())) {
        lemma_at_larger_size(tol, v.abs_spec(), width, miss);
    }
    if has_lower(lo, s) && miss.le_spec(tol.times_spec(lo.abs_spec())) {
        lemma_at_larger_size(tol, lo.abs_spec(), width, miss);
    }
    if has_upper(hi, s) && miss.le_spec(tol.times_spec(hi.abs_spec())) {
        lemma_at_larger_size(tol, hi.abs_spec(), width, miss);
    }
    if miss.le_spec(noise.times_spec(v.abs_spec())) {
        lemma_at_larger_size(noise, v.abs_spec(), scale, miss);
    }
    if has_lower(lo, s) && miss.le_spec(noise.times_spec(lo.abs_spec())) {
        lemma_at_larger_size(noise, lo.abs_spec(), scale, miss);
    }
    if has_upper(hi, s) && miss.le_spec(noise.times_spec(hi.abs_spec())) {
        lemma_at_larger_size(noise, hi.abs_spec(), scale, miss);
    }
}

proof fn lemma_verdict_by_misses(
    b: ModelBounds,
    x: Seq<Number>,
    g: Seq<Number>,
    s: FeasibilityStandards,
    tol: Number,
    absolute: Number,
)
    requires
        measurable(x, b.x_l.len() as int),
        measurable(g, b.g_l.len() as int),
    ensures
        crate::feasibility::all_negligible(
            all_sides(b, x, g, s),
            tol,
            absolute,
            s.noise_floor_kappa,
        ) <==> forall|block: Block, i: int|
            0 <= i < lowers(block, b).len() ==> misses_are_allowed(
                #[trigger] values(block, x, g)[i],
                lowers(block, b)[i],
                uppers(block, b)[i],
                s,
                tol,
                absolute,
            ),
{
    let sides = all_sides(b, x, g, s);
    if crate::feasibility::all_negligible(sides, tol, absolute, s.noise_floor_kappa) {
        assert forall|block: Block, i: int|
            0 <= i < lowers(block, b).len() implies misses_are_allowed(
            #[trigger] values(block, x, g)[i],
            lowers(block, b)[i],
            uppers(block, b)[i],
            s,
            tol,
            absolute,
        ) by {
            let (v, lo, hi) = (values(block, x, g)[i], lowers(block, b)[i], uppers(block, b)[i]);
            lemma_value_is_finite(b, x, g, block, i);
            if has_lower(lo, s) && v.lt_spec(lo) {
                let k = lemma_side_at(b, x, g, s, block, i, false);
                lemma_difference(lo, v);
                lemma_allowed_is_negligible(v, lo, hi, false, s, tol, absolute);
                assert(satisfied(sides[k]) || negligible(
                    sides[k],
                    tol,
                    absolute,
                    s.noise_floor_kappa,
                ));
            }
            if has_upper(hi, s) && hi.lt_spec(v) {
                let k = lemma_side_at(b, x, g, s, block, i, true);
                lemma_difference(v, hi);
                lemma_allowed_is_negligible(v, lo, hi, true, s, tol, absolute);
                assert(satisfied(sides[k]) || negligible(
                    sides[k],
                    tol,
                    absolute,
                    s.noise_floor_kappa,
                ));
            }
        }
    }
    if forall|block: Block, i: int|
        0 <= i < lowers(block, b).len() ==> misses_are_allowed(
            #[trigger] values(block, x, g)[i],
            lowers(block, b)[i],
            uppers(block, b)[i],
            s,
            tol,
            absolute,
        ) {
        assert forall|k: int| 0 <= k < sides.len() implies satisfied(#[trigger] sides[k])
            || negligible(sides[k], tol, absolute, s.noise_floor_kappa) by {
            let (block, i, upper) = lemma_side_from(b, x, g, s, k);
            let (v, lo, hi) = (values(block, x, g)[i], lowers(block, b)[i], uppers(block, b)[i]);
            lemma_value_is_finite(b, x, g, block, i);
            assert(misses_are_allowed(v, lo, hi, s, tol, absolute));
            if lo.finite() {
                lemma_difference(lo, v);
            }
            if hi.finite() {
                lemma_difference(v, hi);
            }
            if !satisfied(sides[k]) {
                lemma_allowed_is_negligible(v, lo, hi, upper, s, tol, absolute);
            }
        }
    }
}

/// A point meets a standard exactly where every miss of every row and variable is
/// allowed by the tolerances of that standard.
pub proof fn law_verdict_is_by_misses(
    b: ModelBounds,
    x: Vec<Number>,
    g: Vec<Number>,
    s: FeasibilityStandards,
    f: OriginalSpaceFeasibility,
)
    requires
        call_ensures(original_space_feasibility, (&b, &x, &g, &s), Some(f)),
    ensures
        f.negligible_at_tol <==> forall|block: Block, i: int|
            0 <= i < lowers(block, b).len() ==> misses_are_allowed(
                #[trigger] values(block, x@, g@)[i],
                lowers(block, b)[i],
                uppers(block, b)[i],
                s,
                s.tol,
                s.constr_viol_tol,
            ),
        f.negligible_at_acceptable <==> forall|block: Block, i: int|
            0 <= i < lowers(block, b).len() ==> misses_are_allowed(
                #[trigger] values(block, x@, g@)[i],
                lowers(block, b)[i],
                uppers(block, b)[i],
                s,
                s.acceptable_tol,
                s.acceptable_constr_viol_tol,
            ),
{
    lemma_verdict_by_misses(b, x@, g@, s, s.tol, s.constr_viol_tol);
    lemma_verdict_by_misses(b, x@, g@, s, s.acceptable_tol, s.acceptable_constr_viol_tol);
}

} // verus!
