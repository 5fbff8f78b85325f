//! How well a point satisfies the rows and bounds of the model as it was given.
use crate::decimal::D0;
use crate::decimal::D1;
use crate::decimal::EPSILON;
use crate::number::lemma_positive_product;
use crate::number::lemma_times_monotone;
use crate::number::Number;
use vstd::prelude::*;

verus! {

/// The bounds of the variables and of the constraint rows.
#[derive(Debug)]
pub struct ModelBounds {
    pub x_l: Vec<Number>,
    pub x_u: Vec<Number>,
    pub g_l: Vec<Number>,
    pub g_u: Vec<Number>,
}

/// What a point is judged by.
#[derive(Clone, Copy, Debug, PartialEq, Eq, Structural)]
pub struct FeasibilityStandards {
    /// A lower bound at or below this is absent.
    pub lower_bound_inf: Number,
    /// An upper bound at or above this is absent.
    pub upper_bound_inf: Number,
    pub tol: Number,
    pub acceptable_tol: Number,
    pub constr_viol_tol: Number,
    pub acceptable_constr_viol_tol: Number,
    pub noise_floor_kappa: Number,
}

/// The verdict on a point.
#[derive(Clone, Copy, Debug, PartialEq, Eq, Structural)]
pub struct OriginalSpaceFeasibility {
    /// The largest violation of any row or bound.
    pub max_violation: Number,
    /// Every violation is negligible at the strict tolerances.
    pub negligible_at_tol: bool,
    /// Every violation is negligible at the acceptable tolerances.
    pub negligible_at_acceptable: bool,
}

/// A bound that counts: finite, and not at or beyond the sentinel.
pub open spec fn present(b: Number, is_lower: bool, s: FeasibilityStandards) -> bool {
    b.finite() && !(if is_lower {
        b.le_spec(s.lower_bound_inf)
    } else {
        s.upper_bound_inf.le_spec(b)
    })
}

/// The magnitude of a bound that counts, 0 of one that does not.
pub open spec fn bound_size(b: Number, is_lower: bool, s: FeasibilityStandards) -> Number {
    if present(b, is_lower, s) {
        b.abs_spec()
    } else {
        Number { bits: D0 }
    }
}

/// The magnitude at which a value and its bounds live.
pub open spec fn scale_of(v: Number, lo: Number, hi: Number, s: FeasibilityStandards) -> Number {
    v.abs_spec().max_spec(bound_size(lo, true, s)).max_spec(bound_size(hi, false, s))
}

/// By how much the value lies outside the bound; not positive where it does
/// not.
pub open spec fn violation(v: Number, b: Number, is_lower: bool, s: FeasibilityStandards) -> Number {
    if !present(b, is_lower, s) {
        Number { bits: D0 }
    } else if is_lower {
        b.minus_spec(v)
    } else {
        v.minus_spec(b)
    }
}

/// A violation of a value at some magnitude.
pub struct Side {
    pub viol: Number,
    pub scale: Number,
}

/// The two sides of a value: side 0 is its lower bound, side 1 its upper one.
pub open spec fn side_of(
    v: Number,
    lo: Number,
    hi: Number,
    upper: bool,
    s: FeasibilityStandards,
) -> Side {
    Side {
        viol: if upper {
            violation(v, hi, false, s)
        } else {
            violation(v, lo, true, s)
        },
        scale: scale_of(v, lo, hi, s),
    }
}

/// The sides of a block of values, two of each.
pub open spec fn block_sides(
    v: Seq<Number>,
    lo: Seq<Number>,
    hi: Seq<Number>,
    s: FeasibilityStandards,
) -> Seq<Side> {
    Seq::new(
        2 * lo.len(),
        |k: int| side_of(v[k / 2], lo[k / 2], hi[k / 2], k % 2 == 1, s),
    )
}

/// The sides of the rows, then those of the variables.
pub open spec fn all_sides(
    b: ModelBounds,
    x: Seq<Number>,
    g: Seq<Number>,
    s: FeasibilityStandards,
) -> Seq<Side> {
    block_sides(g, b.g_l@, b.g_u@, s) + block_sides(x, b.x_l@, b.x_u@, s)
}

/// The bound is kept.
pub open spec fn satisfied(side: Side) -> bool {
    side.viol.le_spec(Number { bits: D0 })
}

/// The violation is no more than the tolerance at the magnitude of the value,
/// and no more than the absolute tolerance or the rounding error there.
pub open spec fn negligible(side: Side, tol: Number, absolute: Number, kappa: Number) -> bool {
    let noise = kappa.times_spec(Number { bits: EPSILON }).times_spec(side.scale.abs_spec());
    &&& side.viol.abs_spec().le_spec(
        tol.times_spec(side.scale.abs_spec().max_spec(Number { bits: D1 })),
    )
    &&& side.viol.le_spec(absolute) || side.viol.le_spec(noise)
}

/// Every side is satisfied or negligible.
pub open spec fn all_negligible(
    sides: Seq<Side>,
    tol: Number,
    absolute: Number,
    kappa: Number,
) -> bool {
    forall|k: int|
        0 <= k < sides.len() ==> satisfied(#[trigger] sides[k]) || negligible(
            sides[k],
            tol,
            absolute,
            kappa,
        )
}

/// The largest violation among the sides; 0 where there is none.
pub open spec fn worst(sides: Seq<Side>) -> Number
    decreases sides.len(),
{
    if sides.len() == 0 {
        Number { bits: D0 }
    } else if satisfied(sides.last()) {
        worst(sides.drop_last())
    } else {
        worst(sides.drop_last()).max_spec(sides.last().viol)
    }
}

/// The verdict on the sides.
pub open spec fn verdict(sides: Seq<Side>, s: FeasibilityStandards) -> OriginalSpaceFeasibility {
    OriginalSpaceFeasibility {
        max_violation: worst(sides),
        negligible_at_tol: all_negligible(sides, s.tol, s.constr_viol_tol, s.noise_floor_kappa),
        negligible_at_acceptable: all_negligible(
            sides,
            s.acceptable_tol,
            s.acceptable_constr_viol_tol,
            s.noise_floor_kappa,
        ),
    }
}

/// There is a finite value for every pair of bounds.
pub open spec fn measurable(v: Seq<Number>, bounds: int) -> bool {
    v.len() >= bounds && forall|i: int| 0 <= i < bounds ==> (#[trigger] v[i]).finite()
}

fn is_present(b: Number, is_lower: bool, s: &FeasibilityStandards) -> (r: bool)
    ensures
        r == present(b, is_lower, *s),
{
    let absent = if is_lower {
        b.at_most(s.lower_bound_inf)
    } else {
        s.upper_bound_inf.at_most(b)
    };
    b.is_finite() && !absent
}

/// The violation and the magnitude of one side of a value.
fn measure(v: Number, lo: Number, hi: Number, upper: bool, s: &FeasibilityStandards) -> (r: (
    Number,
    Number,
))
    ensures
        (Side { viol: r.0, scale: r.1 }) == side_of(v, lo, hi, upper, *s),
{
    let zero = Number { bits: D0 };
    let has_lo = is_present(lo, true, s);
    let has_hi = is_present(hi, false, s);
    let lo_size = if has_lo {
        lo.abs()
    } else {
        zero
    };
    let hi_size = if has_hi {
        hi.abs()
    } else {
        zero
    };
    let scale = v.abs().larger(lo_size).larger(hi_size);
    let viol = if upper {
        if has_hi {
            v.minus(hi)
        } else {
            zero
        }
    } else if has_lo {
        lo.minus(v)
    } else {
        zero
    };
    (viol, scale)
}

fn is_negligible(viol: Number, scale: Number, tol: Number, absolute: Number, kappa: Number) -> (r:
    bool)
    ensures
        r == negligible(Side { viol, scale }, tol, absolute, kappa),
{
    let noise = kappa.times(Number { bits: EPSILON }).times(scale.abs());
    viol.abs().at_most(tol.times(scale.abs().larger(Number { bits: D1 }))) && (viol.at_most(
        absolute,
    ) || viol.at_most(noise))
}

/// Folds one more side into the verdict.
fn judge(
    so_far: &mut OriginalSpaceFeasibility,
    viol: Number,
    scale: Number,
    s: &FeasibilityStandards,
    Ghost(sides): Ghost<Seq<Side>>,
)
    requires
        *old(so_far) == verdict(sides, *s),
    ensures
        *final(so_far) == verdict(sides.push(Side { viol, scale }), *s),
{
    let ghost side = Side { viol, scale };
    let ghost more = sides.push(side);
    assert(more.drop_last() =~= sides);
    assert(more.last() == side);
    proof {
        assert forall|tol: Number, absolute: Number| #[trigger]
            all_negligible(more, tol, absolute, s.noise_floor_kappa) == (all_negligible(
                sides,
                tol,
                absolute,
                s.noise_floor_kappa,
            ) && (satisfied(side) || negligible(side, tol, absolute, s.noise_floor_kappa))) by {
            let kappa = s.noise_floor_kappa;
            if all_negligible(more, tol, absolute, kappa) {
                assert(more[sides.len() as int] == side);
                assert forall|k: int| 0 <= k < sides.len() implies satisfied(#[trigger] sides[k])
                    || negligible(sides[k], tol, absolute, kappa) by {
                    assert(more[k] == sides[k]);
                }
            }
            if all_negligible(sides, tol, absolute, kappa) && (satisfied(side) || negligible(
                side,
                tol,
                absolute,
                kappa,
            )) {
                assert forall|k: int| 0 <= k < more.len() implies satisfied(#[trigger] more[k])
                    || negligible(more[k], tol, absolute, kappa) by {
                    if k < sides.len() {
                        assert(more[k] == sides[k]);
                    }
                }
            }
        }
    }
    if viol.at_most(Number { bits: D0 }) {
        return;
    }
    so_far.max_violation = so_far.max_violation.larger(viol);
    if !is_negligible(viol, scale, s.tol, s.constr_viol_tol, s.noise_floor_kappa) {
        so_far.negligible_at_tol = false;
    }
    if !is_negligible(
        viol,
        scale,
        s.acceptable_tol,
        s.acceptable_constr_viol_tol,
        s.noise_floor_kappa,
    ) {
        so_far.negligible_at_acceptable = false;
    }
}

/// One more value of a block adds its two sides.
proof fn lemma_two_more_sides(
    before: Seq<Side>,
    v: Seq<Number>,
    lo: Seq<Number>,
    hi: Seq<Number>,
    s: FeasibilityStandards,
    i: int,
)
    requires
        0 <= i < lo.len(),
    ensures
        (before + block_sides(v, lo, hi, s).take(2 * i)).push(
            side_of(v[i], lo[i], hi[i], false, s),
        ).push(side_of(v[i], lo[i], hi[i], true, s)) == before + block_sides(v, lo, hi, s).take(
            2 * (i + 1),
        ),
{
    let block = block_sides(v, lo, hi, s);
    let k = 2 * i;
    assert(k / 2 == i && k % 2 == 0);
    assert((k + 1) / 2 == i && (k + 1) % 2 == 1);
    assert((before + block.take(k)).push(block[k]).push(block[k + 1]) =~= before + block.take(
        2 * (i + 1),
    ));
}

/// Folds a block of values into the verdict; false where some value is not
/// finite.
#[verifier::spinoff_prover]
#[verifier::rlimit(30)]
fn judge_block(
    so_far: &mut OriginalSpaceFeasibility,
    v: &Vec<Number>,
    lo: &Vec<Number>,
    hi: &Vec<Number>,
    s: &FeasibilityStandards,
    Ghost(before): Ghost<Seq<Side>>,
) -> (r: bool)
    requires
        *old(so_far) == verdict(before, *s),
        lo.len() == hi.len(),
        lo.len() <= v.len(),
    ensures
        r == measurable(v@, lo.len() as int),
        r ==> *final(so_far) == verdict(before + block_sides(v@, lo@, hi@, *s), *s),
{
    let n: usize = lo.len();
    let mut i: usize = 0;
    let ghost block = block_sides(v@, lo@, hi@, *s);
    proof {
        assert(before + block.take(0) =~= before);
    }
    while i < n
        invariant
            i <= n,
            n == lo.len(),
            lo.len() == hi.len(),
            lo.len() <= v.len(),
            block == block_sides(v@, lo@, hi@, *s),
            *so_far == verdict(before + block.take(2 * i), *s),
            forall|j: int| 0 <= j < i ==> (#[trigger] v@[j]).finite(),
        decreases n - i,
    {
        if !v[i].is_finite() {
            assert(!v@[i as int].finite());
            return false;
        }
        let (viol_lo, scale_lo) = measure(v[i], lo[i], hi[i], false, s);
        let ghost mid = before + block.take(2 * i);
        judge(so_far, viol_lo, scale_lo, s, Ghost(mid));
        let (viol_hi, scale_hi) = measure(v[i], lo[i], hi[i], true, s);
        let ghost mid2 = mid.push(Side { viol: viol_lo, scale: scale_lo });
        judge(so_far, viol_hi, scale_hi, s, Ghost(mid2));
        proof {
            lemma_two_more_sides(before, v@, lo@, hi@, *s, i as int);
        }
        i = i + 1;
    }
    proof {
        assert(block.take(2 * n as int) =~= block);
    }
    true
}

/// Measures how well `x`, with `g` the values of the rows there, satisfies the
/// model as it was given. Nothing is said of a point that cannot be measured.
pub fn original_space_feasibility(
    bounds: &ModelBounds,
    x: &Vec<Number>,
    g: &Vec<Number>,
    standards: &FeasibilityStandards,
) -> (r: Option<OriginalSpaceFeasibility>)
    requires
        bounds.x_l.len() == bounds.x_u.len(),
        bounds.g_l.len() == bounds.g_u.len(),
    ensures
        r is Some <==> measurable(x@, bounds.x_l.len() as int) && measurable(
            g@,
            bounds.g_l.len() as int,
        ),
        r matches Some(f) ==> f == verdict(all_sides(*bounds, x@, g@, *standards), *standards),
{
    if x.len() < bounds.x_l.len() || g.len() < bounds.g_l.len() {
        return None;
    }
    let mut so_far = OriginalSpaceFeasibility {
        max_violation: Number { bits: D0 },
        negligible_at_tol: true,
        negligible_at_acceptable: true,
    };
    let ghost none = Seq::<Side>::empty();
    if !judge_block(&mut so_far, g, &bounds.g_l, &bounds.g_u, standards, Ghost(none)) {
        return None;
    }
    let ghost rows = block_sides(g@, bounds.g_l@, bounds.g_u@, *standards);
    proof {
        assert(none + rows =~= rows);
    }
    if !judge_block(&mut so_far, x, &bounds.x_l, &bounds.x_u, standards, Ghost(rows)) {
        return None;
    }
    Some(so_far)
}

/// Of a point that meets the strict standards, every bound is kept or missed by
/// no more than the relative tolerance, and by no more than the absolute one or
/// the rounding error of the value.
pub proof fn law_strict_means_small(sides: Seq<Side>, s: FeasibilityStandards, k: int)
    requires
        verdict(sides, s).negligible_at_tol,
        0 <= k < sides.len(),
    ensures
        satisfied(sides[k]) || negligible(
            sides[k],
            s.tol,
            s.constr_viol_tol,
            s.noise_floor_kappa,
        ),
{
}

/// No violation is larger than the reported one.
pub proof fn law_worst_is_largest(sides: Seq<Side>, k: int)
    requires
        0 <= k < sides.len(),
        forall|i: int| 0 <= i < sides.len() ==> !(#[trigger] sides[i]).viol.nan(),
    ensures
        satisfied(sides[k]) || sides[k].viol.le_spec(worst(sides)),
        !worst(sides).nan(),
        (Number { bits: D0 }).le_spec(worst(sides)),
    decreases sides.len(),
{
    let rest = sides.drop_last();
    assert forall|i: int| 0 <= i < rest.len() implies !(#[trigger] rest[i]).viol.nan() by {
        assert(rest[i] == sides[i]);
    }
    assert(sides.last() == sides[sides.len() - 1]);
    if rest.len() > 0 {
        let j = if k < rest.len() {
            k
        } else {
            0
        };
        law_worst_is_largest(rest, j);
        assert(rest[j] == sides[j]);
    } else {
        assert(worst(rest) == Number { bits: D0 });
    }
}

/// The second standard asks no more than the first: it is the same, or larger.
pub open spec fn no_tighter(than: Number, standard: Number) -> bool {
    than == standard || than.le_spec(standard)
}

/// A violation that is negligible stays so at looser tolerances and with more
/// rounding error allowed.
proof fn lemma_negligible_at_looser(
    side: Side,
    tol: Number,
    absolute: Number,
    kappa: Number,
    tol_2: Number,
    absolute_2: Number,
    kappa_2: Number,
)
    requires
        !satisfied(side),
        negligible(side, tol, absolute, kappa),
        no_tighter(tol, tol_2),
        no_tighter(absolute, absolute_2),
        no_tighter(kappa, kappa_2),
    ensures
        negligible(side, tol_2, absolute_2, kappa_2),
{
    let size = side.scale.abs_spec();
    let width = size.max_spec(Number { bits: D1 });
    if tol != tol_2 {
        lemma_positive_product(tol, width);
        lemma_times_monotone(tol, tol_2, width);
    }
    if !side.viol.le_spec(absolute) && kappa != kappa_2 {
        let eps = Number { bits: EPSILON };
        lemma_positive_product(kappa.times_spec(eps), size);
        lemma_positive_product(kappa, eps);
        lemma_times_monotone(kappa, kappa_2, eps);
        lemma_times_monotone(kappa.times_spec(eps), kappa_2.times_spec(eps), size);
    }
}

/// Sides that are all negligible stay so at looser tolerances.
proof fn lemma_all_negligible_at_looser(
    sides: Seq<Side>,
    tol: Number,
    absolute: Number,
    kappa: Number,
    tol_2: Number,
    absolute_2: Number,
    kappa_2: Number,
)
    requires
        all_negligible(sides, tol, absolute, kappa),
        no_tighter(tol, tol_2),
        no_tighter(absolute, absolute_2),
        no_tighter(kappa, kappa_2),
    ensures
        all_negligible(sides, tol_2, absolute_2, kappa_2),
{
    assert forall|k: int| 0 <= k < sides.len() implies satisfied(#[trigger] sides[k])
        || negligible(sides[k], tol_2, absolute_2, kappa_2) by {
        if !satisfied(sides[k]) {
            lemma_negligible_at_looser(
                sides[k],
                tol,
                absolute,
                kappa,
                tol_2,
                absolute_2,
                kappa_2,
            );
        }
    }
}

/// What is measured of a point is never a NaN.
proof fn lemma_measured_is_a_number(
    b: ModelBounds,
    x: Seq<Number>,
    g: Seq<Number>,
    s: FeasibilityStandards,
    k: int,
)
    requires
        b.x_l.len() == b.x_u.len(),
        b.g_l.len() == b.g_u.len(),
        measurable(x, b.x_l.len() as int),
        measurable(g, b.g_l.len() as int),
        0 <= k < all_sides(b, x, g, s).len(),
    ensures
        !all_sides(b, x, g, s)[k].viol.nan(),
{
    let rows = block_sides(g, b.g_l@, b.g_u@, s);
    let (v, lo, hi, j) = if k < rows.len() {
        (g, b.g_l@, b.g_u@, k)
    } else {
        (x, b.x_l@, b.x_u@, k - rows.len())
    };
    assert(v[j / 2].finite());
    assert(all_sides(b, x, g, s)[k] == side_of(v[j / 2], lo[j / 2], hi[j / 2], j % 2 == 1, s));
}

/// The verdict on a point holds together. The reported violation is never
/// negative; where it is 0, the point meets the strict standards; and a point
/// that meets the strict standards meets the acceptable ones, where those are no
/// tighter.
pub proof fn law_verdict_holds_together(
    b: ModelBounds,
    x: Seq<Number>,
    g: Seq<Number>,
    s: FeasibilityStandards,
)
    requires
        b.x_l.len() == b.x_u.len(),
        b.g_l.len() == b.g_u.len(),
        measurable(x, b.x_l.len() as int),
        measurable(g, b.g_l.len() as int),
    ensures
        (Number { bits: D0 }).le_spec(verdict(all_sides(b, x, g, s), s).max_violation),
        verdict(all_sides(b, x, g, s), s).max_violation.zero() ==> verdict(
            all_sides(b, x, g, s),
            s,
        ).negligible_at_tol,
        verdict(all_sides(b, x, g, s), s).max_violation.zero() ==> verdict(
            all_sides(b, x, g, s),
            s,
        ).negligible_at_acceptable,
        no_tighter(s.tol, s.acceptable_tol) && no_tighter(
            s.constr_viol_tol,
            s.acceptable_constr_viol_tol,
        ) && verdict(all_sides(b, x, g, s), s).negligible_at_tol ==> verdict(
            all_sides(b, x, g, s),
            s,
        ).negligible_at_acceptable,
{
    let sides = all_sides(b, x, g, s);
    assert forall|k: int| 0 <= k < sides.len() implies !(#[trigger] sides[k]).viol.nan() by {
        lemma_measured_is_a_number(b, x, g, s, k);
    }
    if sides.len() > 0 {
        law_worst_is_largest(sides, 0);
    }
    if worst(sides).zero() {
        assert forall|k: int| 0 <= k < sides.len() implies satisfied(#[trigger] sides[k]) by {
            law_worst_is_largest(sides, k);
        }
    }
    if no_tighter(s.tol, s.acceptable_tol) && no_tighter(
        s.constr_viol_tol,
        s.acceptable_constr_viol_tol,
    ) && verdict(sides, s).negligible_at_tol {
        lemma_all_negligible_at_looser(
            sides,
            s.tol,
            s.constr_viol_tol,
            s.noise_floor_kappa,
            s.acceptable_tol,
            s.acceptable_constr_viol_tol,
            s.noise_floor_kappa,
        );
    }
}

/// Looser standards never take a verdict back: with the tolerances and the
/// allowance for rounding error raised, a point that met the strict standards
/// still meets them, likewise the acceptable ones, and the reported violation is
/// the same.
pub proof fn law_looser_standards_keep_the_verdict(
    b: ModelBounds,
    x: Seq<Number>,
    g: Seq<Number>,
    s: FeasibilityStandards,
    looser: FeasibilityStandards,
)
    requires
        looser.lower_bound_inf == s.lower_bound_inf,
        looser.upper_bound_inf == s.upper_bound_inf,
    ensures
        verdict(all_sides(b, x, g, looser), looser).max_violation == verdict(
            all_sides(b, x, g, s),
            s,
        ).max_violation,
        no_tighter(s.tol, looser.tol) && no_tighter(s.constr_viol_tol, looser.constr_viol_tol)
            && no_tighter(s.noise_floor_kappa, looser.noise_floor_kappa) && verdict(
            all_sides(b, x, g, s),
            s,
        ).negligible_at_tol ==> verdict(all_sides(b, x, g, looser), looser).negligible_at_tol,
        no_tighter(s.acceptable_tol, looser.acceptable_tol) && no_tighter(
            s.acceptable_constr_viol_tol,
            looser.acceptable_constr_viol_tol,
        ) && no_tighter(s.noise_floor_kappa, looser.noise_floor_kappa) && verdict(
            all_sides(b, x, g, s),
            s,
        ).negligible_at_acceptable ==> verdict(
            all_sides(b, x, g, looser),
            looser,
        ).negligible_at_acceptable,
{
    let sides = all_sides(b, x, g, s);
    assert(all_sides(b, x, g, looser) =~= sides);
    if no_tighter(s.tol, looser.tol) && no_tighter(s.constr_viol_tol, looser.constr_viol_tol)
        && no_tighter(s.noise_floor_kappa, looser.noise_floor_kappa) && verdict(
        sides,
        s,
    ).negligible_at_tol {
        lemma_all_negligible_at_looser(
            sides,
            s.tol,
            s.constr_viol_tol,
            s.noise_floor_kappa,
            looser.tol,
            looser.constr_viol_tol,
            looser.noise_floor_kappa,
        );
    }
    if no_tighter(s.acceptable_tol, looser.acceptable_tol) && no_tighter(
        s.acceptable_constr_viol_tol,
        looser.acceptable_constr_viol_tol,
    ) && no_tighter(s.noise_floor_kappa, looser.noise_floor_kappa) && verdict(
        sides,
        s,
    ).negligible_at_acceptable {
        lemma_all_negligible_at_looser(
            sides,
            s.acceptable_tol,
            s.acceptable_constr_viol_tol,
            s.noise_floor_kappa,
            looser.acceptable_tol,
            looser.acceptable_constr_viol_tol,
            looser.noise_floor_kappa,
        );
    }
}

} // verus!
