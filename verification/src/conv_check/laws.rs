//! What holds of the optimality-error check over whole runs.
use crate::conv_check::opt_error::OptErrorConvCheck;
use crate::conv_check::opt_error::VETO_MAX_EXTRA_ITERS;
use crate::conv_check::ConvergenceStatus;
use crate::conv_check::IterateState;
use crate::decimal::D0;
use crate::number::Number;
use vstd::prelude::*;

verus! {

/// The arguments of one check.
pub struct Check {
    pub nlp_err: Number,
    pub iter_count: i32,
    pub state: IterateState,
}

/// The policy after a series of checks.
pub open spec fn after_all(policy: OptErrorConvCheck, checks: Seq<Check>) -> OptErrorConvCheck
    decreases checks.len(),
{
    if checks.len() == 0 {
        policy
    } else {
        let c = checks.last();
        after_all(policy, checks.drop_last()).after(c.nlp_err, c.iter_count, c.state)
    }
}

/// Every check of the series told the main loop to go on.
pub open spec fn went_on(policy: OptErrorConvCheck, checks: Seq<Check>) -> bool
    decreases checks.len(),
{
    if checks.len() == 0 {
        true
    } else {
        let c = checks.last();
        &&& went_on(policy, checks.drop_last())
        &&& after_all(policy, checks.drop_last()).status(c.nlp_err, c.iter_count, c.state)
            == ConvergenceStatus::Continue
    }
}

/// The two iterates differ at most in the objective scale and the unscaled
/// error, the quantities that the veto alone reads.
pub open spec fn alike_but_for_scale(a: IterateState, b: IterateState) -> bool {
    a == (IterateState { obj_scale: a.obj_scale, unscaled_err: a.unscaled_err, ..b })
}

/// With a threshold that is non-positive or NaN no certificate is ever
/// refused, and neither the objective scale nor the unscaled error matters.
pub proof fn law_veto_opt_out(
    policy: OptErrorConvCheck,
    nlp_err: Number,
    iter_count: i32,
    a: IterateState,
    b: IterateState,
)
    requires
        !(Number { bits: D0 }).lt_spec(policy.obj_scale_certificate_threshold),
        alike_but_for_scale(a, b),
    ensures
        !policy.masks(a),
        policy.status(nlp_err, iter_count, a) == policy.status(nlp_err, iter_count, b),
        policy.after(nlp_err, iter_count, a) == policy.after(nlp_err, iter_count, b),
        policy.after(nlp_err, iter_count, a).veto_fired == policy.veto_fired,
        policy.after(nlp_err, iter_count, a).acceptable_veto_fired == policy.acceptable_veto_fired,
{
}

/// A veto withholds both certificates, and each refusal is recorded.
pub proof fn law_refusals_are_recorded(
    policy: OptErrorConvCheck,
    nlp_err: Number,
    iter_count: i32,
    state: IterateState,
)
    requires
        policy.masks(state),
    ensures
        policy.status(nlp_err, iter_count, state) != ConvergenceStatus::Converged,
        policy.status(nlp_err, iter_count, state) != ConvergenceStatus::ConvergedToAcceptable,
        policy.strict_at(nlp_err, state) ==> policy.after(nlp_err, iter_count, state).veto_fired,
        policy.acceptable_complete(nlp_err, state) ==> policy.after(
            nlp_err,
            iter_count,
            state,
        ).acceptable_veto_fired,
{
}

/// A refusal, once recorded, stays recorded.
pub proof fn law_refusals_stay(
    policy: OptErrorConvCheck,
    nlp_err: Number,
    iter_count: i32,
    state: IterateState,
)
    ensures
        policy.veto_fired ==> policy.after(nlp_err, iter_count, state).veto_fired,
        policy.acceptable_veto_fired ==> policy.after(
            nlp_err,
            iter_count,
            state,
        ).acceptable_veto_fired,
{
}

/// The acceptable streak is the same whether or not iterates are masked.
pub proof fn law_streak_ignores_masking(
    policy: OptErrorConvCheck,
    nlp_err: Number,
    iter_count: i32,
    a: IterateState,
    b: IterateState,
)
    requires
        alike_but_for_scale(a, b),
        !policy.strict_at(nlp_err, a),
    ensures
        policy.after(nlp_err, iter_count, a).acceptable_count == policy.after(
            nlp_err,
            iter_count,
            b,
        ).acceptable_count,
        policy.acceptable_complete(nlp_err, a) == policy.acceptable_complete(nlp_err, b),
{
}

/// A check changes none of the tolerances, nor the recorded objective.
pub proof fn law_tolerances_are_kept(
    policy: OptErrorConvCheck,
    nlp_err: Number,
    iter_count: i32,
    state: IterateState,
)
    ensures
        policy.after(nlp_err, iter_count, state) == (OptErrorConvCheck {
            acceptable_count: policy.after(nlp_err, iter_count, state).acceptable_count,
            infeas_streak: policy.after(nlp_err, iter_count, state).infeas_streak,
            veto_fired: policy.after(nlp_err, iter_count, state).veto_fired,
            acceptable_veto_fired: policy.after(nlp_err, iter_count, state).acceptable_veto_fired,
            veto_extra_iters: policy.after(nlp_err, iter_count, state).veto_extra_iters,
            ..policy
        }),
{
}

proof fn lemma_tolerances_after_all(policy: OptErrorConvCheck, checks: Seq<Check>)
    ensures
        ({
            let end = after_all(policy, checks);
            end == (OptErrorConvCheck {
                acceptable_count: end.acceptable_count,
                infeas_streak: end.infeas_streak,
                veto_fired: end.veto_fired,
                acceptable_veto_fired: end.acceptable_veto_fired,
                veto_extra_iters: end.veto_extra_iters,
                ..policy
            })
        }),
    decreases checks.len(),
{
    if checks.len() > 0 {
        lemma_tolerances_after_all(policy, checks.drop_last());
    }
}

/// A veto has a bounded budget: once it has refused a certificate, after 60
/// more checks no certificate is refused any more.
pub proof fn law_veto_budget(policy: OptErrorConvCheck, checks: Seq<Check>, state: IterateState)
    requires
        policy.vetoing(),
        0 <= policy.veto_extra_iters,
        policy.veto_extra_iters + checks.len() < i32::MAX,
        checks.len() >= VETO_MAX_EXTRA_ITERS,
    ensures
        !after_all(policy, checks).masks(state),
{
    lemma_veto_count(policy, checks);
}

proof fn lemma_veto_count(policy: OptErrorConvCheck, checks: Seq<Check>)
    requires
        policy.vetoing(),
        0 <= policy.veto_extra_iters,
        policy.veto_extra_iters + checks.len() < i32::MAX,
    ensures
        after_all(policy, checks).vetoing(),
        after_all(policy, checks).veto_extra_iters == policy.veto_extra_iters + checks.len(),
    decreases checks.len(),
{
    if checks.len() > 0 {
        lemma_veto_count(policy, checks.drop_last());
    }
}

/// Zero `acceptable_iter` switches termination at the acceptable level off, in
/// both checks.
pub proof fn law_acceptable_iter_zero(
    policy: OptErrorConvCheck,
    nlp_err: Number,
    iter_count: i32,
    state: IterateState,
)
    requires
        policy.acceptable_iter == 0,
    ensures
        policy.status(nlp_err, iter_count, state) != ConvergenceStatus::ConvergedToAcceptable,
        policy.scalar_status(nlp_err, iter_count) != ConvergenceStatus::ConvergedToAcceptable,
{
}

/// In a run that starts without a streak and has gone on so far, the streak is
/// the number of qualifying iterates at its end.
pub proof fn law_acceptable_streak_is_consecutive(policy: OptErrorConvCheck, checks: Seq<Check>)
    requires
        policy.acceptable_count == 0,
        checks.len() < i32::MAX,
        went_on(policy, checks),
    ensures
        0 <= after_all(policy, checks).acceptable_count <= checks.len(),
        forall|i: int|
            checks.len() - after_all(policy, checks).acceptable_count <= i < checks.len()
                ==> policy.counts_acceptable(#[trigger] checks[i].nlp_err, checks[i].state),
        after_all(policy, checks).acceptable_count < checks.len() ==> {
            let c = checks[checks.len() - after_all(policy, checks).acceptable_count - 1];
            !policy.counts_acceptable(c.nlp_err, c.state)
        },
    decreases checks.len(),
{
    if checks.len() > 0 {
        let before = checks.drop_last();
        let c = checks.last();
        law_acceptable_streak_is_consecutive(policy, before);
        lemma_tolerances_after_all(policy, before);
        let mid = after_all(policy, before);
        let end = after_all(policy, checks);
        assert(mid.counts_acceptable(c.nlp_err, c.state) == policy.counts_acceptable(
            c.nlp_err,
            c.state,
        ));
        assert forall|i: int|
            checks.len() - end.acceptable_count <= i
                < checks.len() implies policy.counts_acceptable(
            #[trigger] checks[i].nlp_err,
            checks[i].state,
        ) by {
            if i < before.len() {
                assert(before[i] == checks[i]);
                assert(before[i].nlp_err == checks[i].nlp_err);
            }
        }
        if end.acceptable_count < checks.len() && end.acceptable_count > 0 {
            let k = checks.len() - end.acceptable_count - 1;
            assert(before[k] == checks[k]);
        }
    }
}

/// A run that stops at the acceptable level has had `acceptable_iter`
/// qualifying iterates in a row.
pub proof fn law_acceptable_stop_needs_a_full_streak(
    policy: OptErrorConvCheck,
    checks: Seq<Check>,
    last: Check,
)
    requires
        policy.acceptable_count == 0,
        checks.len() < i32::MAX,
        went_on(policy, checks),
        after_all(policy, checks).status(last.nlp_err, last.iter_count, last.state)
            == ConvergenceStatus::ConvergedToAcceptable,
    ensures
        policy.counts_acceptable(last.nlp_err, last.state),
        checks.len() + 1 >= policy.acceptable_iter,
        forall|i: int|
            checks.len() + 1 - policy.acceptable_iter <= i < checks.len()
                ==> policy.counts_acceptable(#[trigger] checks[i].nlp_err, checks[i].state),
{
    law_acceptable_streak_is_consecutive(policy, checks);
    lemma_tolerances_after_all(policy, checks);
}

/// A non-finite objective is neither acceptable nor grounds for a veto.
pub proof fn law_non_finite_objective(
    policy: OptErrorConvCheck,
    nlp_err: Number,
    state: IterateState,
)
    requires
        !state.curr_f.finite(),
    ensures
        !policy.counts_acceptable(nlp_err, state),
        !policy.masks(state),
{
}

/// With detection switched off nothing is declared infeasible and the streak
/// stands still.
pub proof fn law_detection_off(
    policy: OptErrorConvCheck,
    nlp_err: Number,
    iter_count: i32,
    state: IterateState,
)
    requires
        !policy.detects_infeasibility(),
    ensures
        policy.status(nlp_err, iter_count, state) != ConvergenceStatus::LocallyInfeasible,
        policy.after(nlp_err, iter_count, state).infeas_streak == policy.infeas_streak,
{
}

/// Infeasibility is declared only at a full streak of infeasible-stationary
/// iterates, and never where some move still reduces the violation.
pub proof fn law_infeasible_verdict(
    policy: OptErrorConvCheck,
    nlp_err: Number,
    iter_count: i32,
    state: IterateState,
)
    requires
        policy.status(nlp_err, iter_count, state) == ConvergenceStatus::LocallyInfeasible,
    ensures
        !state.descent_available,
        policy.infeas_streak + 1 >= policy.infeas_max_streak > 0,
        policy.infeas_viol_kappa.times_spec(policy.constr_viol_tol).lt_spec(state.constr_viol),
        state.stationarity.le_spec(policy.infeas_stationarity_tol),
{
}

} // verus!
