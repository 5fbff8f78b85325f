//! When a second solve is worth spending, and when its answer may replace the
//! first one's.
use crate::decimal::D0;
use crate::decimal::D1;
use crate::number::lemma_times_one;
use crate::number::one;
use crate::number::Number;
use vstd::prelude::*;

verus! {

/// How far below the dual residual the other two must lie for it to be the
/// whole residual: 1e-6.
pub const DUAL_DIV_RETRY_DOMINANCE: u64 = 0x3eb0_c6f7_a0b5_ed8d;

/// The dual residual below which a multiplier has not run away: 100.
pub const DUAL_DIV_RETRY_DU_FLOOR: u64 = 0x4059_0000_0000_0000;

/// The answer is converged except that a multiplier ran away: the dual
/// residual is positive and not below the floor, and the others are negligible
/// beside it. What cannot be measured does not count.
pub open spec fn whole_residual_is_dual(
    dual_inf: Number,
    viol: Number,
    compl: Number,
    du_floor: Number,
) -> bool {
    &&& dual_inf.finite()
    &&& (Number { bits: D0 }).lt_spec(dual_inf)
    &&& du_floor.le_spec(dual_inf)
    &&& viol.finite()
    &&& compl.finite()
    &&& viol.max_spec(compl).le_spec(
        (Number { bits: DUAL_DIV_RETRY_DOMINANCE }).times_spec(dual_inf),
    )
}

/// Whether the answer is converged except that a multiplier ran away.
pub fn runaway_is_the_whole_residual(
    dual_inf: Number,
    viol: Number,
    compl: Number,
    du_floor: Number,
) -> (r: bool)
    ensures
        r == whole_residual_is_dual(dual_inf, viol, compl, du_floor),
{
    let zero = Number { bits: D0 };
    let dominance = Number { bits: DUAL_DIV_RETRY_DOMINANCE };
    dual_inf.is_finite() && zero.less(dual_inf) && du_floor.at_most(dual_inf) && viol.is_finite()
        && compl.is_finite() && viol.larger(compl).at_most(dominance.times(dual_inf))
}

/// The base answer is a point worth protecting: it can be measured and is
/// feasible within the tolerance.
pub open spec fn worth_protecting(base_obj: Number, base_viol: Number, accept_tol: Number) -> bool {
    base_obj.finite() && base_viol.finite() && !accept_tol.lt_spec(base_viol)
}

/// The slack within which two objectives count as equal.
pub open spec fn objective_slack(base: Number, accept_tol: Number) -> Number {
    accept_tol.times_spec(base.abs_spec().max_spec(Number { bits: D1 }))
}

/// The retry's answer may stand beside the base one. `sense` is 1 where lower
/// objectives are better and -1 where higher ones are. A base answer that is
/// not worth protecting protects nothing. Otherwise the retry's objective must
/// not be worse, and a better one must not cost feasibility.
pub open spec fn admissible(
    base_obj: Number,
    base_viol: Number,
    retry_obj: Number,
    retry_viol: Number,
    accept_tol: Number,
    sense: Number,
) -> bool {
    let base = sense.times_spec(base_obj);
    let retry = sense.times_spec(retry_obj);
    let slack = objective_slack(base, accept_tol);
    worth_protecting(base_obj, base_viol, accept_tol) ==> {
        &&& retry_obj.finite()
        &&& !base.plus_spec(slack).lt_spec(retry)
        &&& retry.lt_spec(base.minus_spec(slack)) ==> retry_viol.finite() && retry_viol.le_spec(
            base_viol,
        )
    }
}

/// Whether the retry's answer may stand beside the base one.
pub fn retry_answer_is_admissible(
    base_obj: Number,
    base_viol: Number,
    retry_obj: Number,
    retry_viol: Number,
    accept_tol: Number,
    sense: Number,
) -> (r: bool)
    ensures
        r == admissible(base_obj, base_viol, retry_obj, retry_viol, accept_tol, sense),
{
    if !base_obj.is_finite() || !base_viol.is_finite() || accept_tol.less(base_viol) {
        return true;
    }
    if !retry_obj.is_finite() {
        return false;
    }
    let base = sense.times(base_obj);
    let retry = sense.times(retry_obj);
    let slack = accept_tol.times(base.abs().larger(Number { bits: D1 }));
    if base.plus(slack).less(retry) {
        return false;
    }
    if retry.less(base.minus(slack)) {
        return retry_viol.is_finite() && retry_viol.at_most(base_viol);
    }
    true
}

/// What cannot be measured never buys a retry.
pub proof fn law_unmeasured_buys_no_retry(
    dual_inf: Number,
    viol: Number,
    compl: Number,
    du_floor: Number,
)
    requires
        !dual_inf.finite() || !viol.finite() || !compl.finite() || du_floor.nan(),
    ensures
        !whole_residual_is_dual(dual_inf, viol, compl, du_floor),
{
}

/// A dual residual below the floor is no runaway, however dominant.
pub proof fn law_small_residual_is_no_runaway(
    dual_inf: Number,
    viol: Number,
    compl: Number,
    du_floor: Number,
)
    requires
        dual_inf.lt_spec(du_floor),
    ensures
        !whole_residual_is_dual(dual_inf, viol, compl, du_floor),
{
}

/// Negating both the objectives and the sense changes no verdict.
pub proof fn law_sense_is_inert(
    base_obj: Number,
    base_viol: Number,
    retry_obj: Number,
    retry_viol: Number,
    accept_tol: Number,
)
    ensures
        admissible(base_obj, base_viol, retry_obj, retry_viol, accept_tol, one()) == admissible(
            base_obj.neg_spec(),
            base_viol,
            retry_obj.neg_spec(),
            retry_viol,
            accept_tol,
            one().neg_spec(),
        ),
{
    if worth_protecting(base_obj, base_viol, accept_tol) && retry_obj.finite() {
        lemma_times_one(base_obj);
        lemma_times_one(retry_obj);
        lemma_times_one(base_obj.neg_spec());
        lemma_times_one(retry_obj.neg_spec());
    }
}

/// The retry never replaces a feasible answer by one with a worse objective,
/// nor by one that paid for a better objective with feasibility.
pub proof fn law_admissible_answers(
    base_obj: Number,
    base_viol: Number,
    retry_obj: Number,
    retry_viol: Number,
    accept_tol: Number,
)
    requires
        worth_protecting(base_obj, base_viol, accept_tol),
        admissible(base_obj, base_viol, retry_obj, retry_viol, accept_tol, one()),
    ensures
        retry_obj.finite(),
        !base_obj.plus_spec(objective_slack(base_obj, accept_tol)).lt_spec(retry_obj),
        retry_obj.lt_spec(base_obj.minus_spec(objective_slack(base_obj, accept_tol)))
            ==> retry_viol.le_spec(base_viol),
{
    lemma_times_one(base_obj);
    lemma_times_one(retry_obj);
}

} // verus!
