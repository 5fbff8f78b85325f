//! Two answers side by side: which second one may stand, in either sense of the
//! objective.
use crate::decimal::D0;
use crate::decimal::D1;
use crate::laws::second_opinion::slack_at;
use crate::number::lemma_times_one;
use crate::number::Number;
use crate::retry::retry_answer_is_admissible;
use crate::retry::runaway_is_the_whole_residual;
use vstd::prelude::*;

verus! {

/// The first answer is protected: it has an objective and is feasible within the
/// tolerance.
pub open spec fn protected(objective: Number, viol: Number, tol: Number) -> bool {
    objective.finite() && viol.finite() && !tol.lt_spec(viol)
}

/// In a minimization a second answer may stand beside a protected one exactly
/// where its objective is not higher beyond the slack, and one that is lower beyond
/// the slack is no less feasible. Beside any other it may always stand.
pub proof fn law_lower_is_better(
    base: Number,
    base_viol: Number,
    second: Number,
    second_viol: Number,
    tol: Number,
    r: bool,
)
    requires
        call_ensures(
            retry_answer_is_admissible,
            (base, base_viol, second, second_viol, tol, Number { bits: D1 }),
            r,
        ),
    ensures
        !protected(base, base_viol, tol) ==> r,
        protected(base, base_viol, tol) && !second.finite() ==> !r,
        protected(base, base_viol, tol) && base.plus_spec(slack_at(base, tol)).lt_spec(second)
            ==> !r,
        protected(base, base_viol, tol) && second.lt_spec(base.minus_spec(slack_at(base, tol)))
            && !second_viol.le_spec(base_viol) ==> !r,
        second.finite() && second.le_spec(base.plus_spec(slack_at(base, tol)))
            && second_viol.finite() && second_viol.le_spec(base_viol) ==> r,
        second.finite() && second.le_spec(base.plus_spec(slack_at(base, tol)))
            && base.minus_spec(slack_at(base, tol)).le_spec(second) ==> r,
{
    if base.finite() {
        lemma_times_one(base);
    }
    if second.finite() {
        lemma_times_one(second);
    }
}

/// Turning both objectives and the sense round changes no verdict, so that in a
/// maximization higher objectives are better.
pub proof fn law_higher_is_better(
    base: Number,
    base_viol: Number,
    second: Number,
    second_viol: Number,
    tol: Number,
    r: bool,
    q: bool,
)
    requires
        call_ensures(
            retry_answer_is_admissible,
            (base, base_viol, second, second_viol, tol, Number { bits: D1 }),
            r,
        ),
        call_ensures(
            retry_answer_is_admissible,
            (
                base.neg_spec(),
                base_viol,
                second.neg_spec(),
                second_viol,
                tol,
                (Number { bits: D1 }).neg_spec(),
            ),
            q,
        ),
    ensures
        r == q,
{
    if base.finite() {
        lemma_times_one(base);
        lemma_times_one(base.neg_spec());
    }
    if second.finite() {
        lemma_times_one(second);
        lemma_times_one(second.neg_spec());
    }
}

/// A multiplier ran away exactly where the dual residual is finite, positive and
/// not below the floor, and each of the other two is finite and within a millionth
/// of it.
pub proof fn law_runaway(dual: Number, viol: Number, compl: Number, du_floor: Number, r: bool)
    requires
        call_ensures(runaway_is_the_whole_residual, (dual, viol, compl, du_floor), r),
    ensures
        r <==> {
            &&& dual.finite()
            &&& (Number { bits: D0 }).lt_spec(dual)
            &&& du_floor.le_spec(dual)
            &&& viol.finite()
            &&& compl.finite()
            &&& viol.le_spec((Number { bits: 0x3eb0_c6f7_a0b5_ed8d }).times_spec(dual))
            &&& compl.le_spec((Number { bits: 0x3eb0_c6f7_a0b5_ed8d }).times_spec(dual))
        },
{
}

/// The two residuals beside the dual one count alike, and what passes a floor
/// passes a lower one.
pub proof fn law_runaway_by_two(
    dual: Number,
    viol: Number,
    compl: Number,
    du_floor: Number,
    lower: Number,
    r: bool,
    swapped: bool,
    lowered: bool,
)
    requires
        call_ensures(runaway_is_the_whole_residual, (dual, viol, compl, du_floor), r),
        call_ensures(runaway_is_the_whole_residual, (dual, compl, viol, du_floor), swapped),
        call_ensures(runaway_is_the_whole_residual, (dual, viol, compl, lower), lowered),
        lower.le_spec(du_floor),
    ensures
        r == swapped,
        r ==> lowered,
{
}

} // verus!
