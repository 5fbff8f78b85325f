//! When the main loop stops, by the iterate and the tolerances.
use crate::conv_check::opt_error::certificate_masked;
use crate::conv_check::opt_error::OptErrorConvCheck;
use crate::conv_check::Clock;
use crate::conv_check::ConvCheck;
use crate::conv_check::ConvergenceStatus;
use crate::conv_check::DeadlineKind;
use crate::conv_check::IterateState;
use crate::decimal::D0;
use crate::decimal::D1;
use crate::decimal::D1E20;
use crate::number::Number;
use vstd::prelude::*;

verus! {

/// A run that is declared converged has every residual of its iterate within the
/// tolerance of its own name, and its error within `tol`.
pub proof fn law_converged_meets_every_tolerance(
    p: &mut OptErrorConvCheck,
    nlp_err: Number,
    iter_count: i32,
    state: IterateState,
)
    requires
        call_ensures(
            <OptErrorConvCheck as ConvCheck>::check_convergence_with_state,
            (p, nlp_err, iter_count, &state),
            ConvergenceStatus::Converged,
        ),
    ensures
        nlp_err.le_spec(old(p).tol),
        state.dual_inf.le_spec(old(p).dual_inf_tol),
        state.constr_viol.le_spec(old(p).constr_viol_tol),
        state.compl_inf.le_spec(old(p).compl_inf_tol),
        final(p).acceptable_count == old(p).acceptable_count,
        final(p).infeas_streak == old(p).infeas_streak,
{
}

/// An iterate that meets every tolerance ends the run at once, unless the
/// objective scale is small enough to have masked an unscaled error above
/// `acceptable_tol`.
pub proof fn law_met_tolerances_end_the_run(
    p: &mut OptErrorConvCheck,
    nlp_err: Number,
    iter_count: i32,
    state: IterateState,
    status: ConvergenceStatus,
)
    requires
        call_ensures(
            <OptErrorConvCheck as ConvCheck>::check_convergence_with_state,
            (p, nlp_err, iter_count, &state),
            status,
        ),
        nlp_err.le_spec(old(p).tol),
        state.dual_inf.le_spec(old(p).dual_inf_tol),
        state.constr_viol.le_spec(old(p).constr_viol_tol),
        state.compl_inf.le_spec(old(p).compl_inf_tol),
    ensures
        status == ConvergenceStatus::Converged || (state.obj_scale.abs_spec().lt_spec(
            old(p).obj_scale_certificate_threshold,
        ) && old(p).acceptable_tol.lt_spec(state.unscaled_err) && (Number { bits: D0 }).lt_spec(
            old(p).obj_scale_certificate_threshold,
        ) && state.curr_f.finite() && final(p).veto_fired),
        state.unscaled_err.le_spec(old(p).acceptable_tol) ==> status
            == ConvergenceStatus::Converged,
        old(p).obj_scale_certificate_threshold.le_spec(state.obj_scale.abs_spec()) ==> status
            == ConvergenceStatus::Converged,
        old(p).veto_fired && old(p).veto_extra_iters >= 60 ==> status
            == ConvergenceStatus::Converged,
{
}

/// A certificate under a small objective scale is held back while the unscaled
/// error is above `acceptable_tol`: the run goes on, for at most 60 checks.
pub proof fn law_masked_certificate_is_held_back(
    p: &mut OptErrorConvCheck,
    nlp_err: Number,
    iter_count: i32,
    state: IterateState,
    status: ConvergenceStatus,
)
    requires
        call_ensures(
            <OptErrorConvCheck as ConvCheck>::check_convergence_with_state,
            (p, nlp_err, iter_count, &state),
            status,
        ),
        state.curr_f.finite(),
        (Number { bits: D0 }).lt_spec(old(p).obj_scale_certificate_threshold),
        state.obj_scale.abs_spec().lt_spec(old(p).obj_scale_certificate_threshold),
        old(p).acceptable_tol.lt_spec(state.unscaled_err),
        0 <= old(p).veto_extra_iters < 60,
    ensures
        status != ConvergenceStatus::Converged,
        status != ConvergenceStatus::ConvergedToAcceptable,
        old(p).veto_fired || old(p).acceptable_veto_fired ==> final(p).veto_extra_iters
            == old(p).veto_extra_iters + 1,
        !old(p).veto_fired && !old(p).acceptable_veto_fired ==> final(p).veto_extra_iters
            == old(p).veto_extra_iters,
        old(p).veto_fired ==> final(p).veto_fired,
        old(p).acceptable_veto_fired ==> final(p).acceptable_veto_fired,
{
}

/// A run that is ended at the acceptable level has every residual of its iterate
/// within the acceptable tolerance of its own name, a finite objective, and a
/// full streak of such iterates behind it.
pub proof fn law_acceptable_stop_meets_every_tolerance(
    p: &mut OptErrorConvCheck,
    nlp_err: Number,
    iter_count: i32,
    state: IterateState,
)
    requires
        call_ensures(
            <OptErrorConvCheck as ConvCheck>::check_convergence_with_state,
            (p, nlp_err, iter_count, &state),
            ConvergenceStatus::ConvergedToAcceptable,
        ),
        old(p).acceptable_count < i32::MAX,
    ensures
        nlp_err.finite(),
        nlp_err.le_spec(old(p).acceptable_tol),
        state.dual_inf.le_spec(old(p).acceptable_dual_inf_tol),
        state.constr_viol.le_spec(old(p).acceptable_constr_viol_tol),
        state.compl_inf.le_spec(old(p).acceptable_compl_inf_tol),
        state.curr_f.finite(),
        old(p).acceptable_iter > 0,
        final(p).acceptable_count == old(p).acceptable_count + 1,
        final(p).acceptable_count >= old(p).acceptable_iter,
{
}

/// An iterate counts toward the acceptable streak only where every residual is
/// within the acceptable tolerance of its own name; any other breaks the streak.
pub proof fn law_streak_counts_acceptable_iterates(
    p: &mut OptErrorConvCheck,
    nlp_err: Number,
    iter_count: i32,
    state: IterateState,
    status: ConvergenceStatus,
)
    requires
        call_ensures(
            <OptErrorConvCheck as ConvCheck>::check_convergence_with_state,
            (p, nlp_err, iter_count, &state),
            status,
        ),
        0 <= old(p).acceptable_count < i32::MAX,
        status != ConvergenceStatus::Converged,
    ensures
        final(p).acceptable_count == 0 || final(p).acceptable_count == old(p).acceptable_count + 1,
        final(p).acceptable_count > 0 ==> {
            &&& nlp_err.finite()
            &&& nlp_err.le_spec(old(p).acceptable_tol)
            &&& state.dual_inf.le_spec(old(p).acceptable_dual_inf_tol)
            &&& state.constr_viol.le_spec(old(p).acceptable_constr_viol_tol)
            &&& state.compl_inf.le_spec(old(p).acceptable_compl_inf_tol)
            &&& state.curr_f.finite()
            &&& old(p).acceptable_iter > 0
        },
        old(p).acceptable_iter > 0 && nlp_err.finite() && nlp_err.le_spec(old(p).acceptable_tol)
            && state.dual_inf.le_spec(old(p).acceptable_dual_inf_tol) && state.constr_viol.le_spec(
            old(p).acceptable_constr_viol_tol,
        ) && state.compl_inf.le_spec(old(p).acceptable_compl_inf_tol) && state.curr_f.finite()
            && old(p).last_acceptable_obj is None ==> final(p).acceptable_count
            == old(p).acceptable_count + 1,
        final(p).acceptable_count >= old(p).acceptable_iter && final(p).acceptable_count > 0
            && !(state.obj_scale.abs_spec().lt_spec(old(p).obj_scale_certificate_threshold)
            && old(p).acceptable_tol.lt_spec(state.unscaled_err)) ==> status
            == ConvergenceStatus::ConvergedToAcceptable,
{
}

/// Once there is an acceptable point, an iterate whose objective has moved from
/// it by `acceptable_obj_change_tol`, relative to its size where that is above 1,
/// never counts, and one whose objective has settled counts where its residuals
/// do. At 1e20 the objective is not asked.
pub proof fn law_moved_objective_breaks_the_streak(
    p: &mut OptErrorConvCheck,
    nlp_err: Number,
    iter_count: i32,
    state: IterateState,
    status: ConvergenceStatus,
    prev: Number,
    size: Number,
)
    requires
        call_ensures(
            <OptErrorConvCheck as ConvCheck>::check_convergence_with_state,
            (p, nlp_err, iter_count, &state),
            status,
        ),
        status != ConvergenceStatus::Converged,
        0 <= old(p).acceptable_count < i32::MAX,
        old(p).last_acceptable_obj == Some(prev),
        size == if (Number { bits: D1 }).lt_spec(state.curr_f.abs_spec()) {
            state.curr_f.abs_spec()
        } else {
            Number { bits: D1 }
        },
    ensures
        old(p).acceptable_obj_change_tol.lt_spec(Number { bits: D1E20 }) && old(p).acceptable_obj_change_tol.times_spec(size).le_spec(
            prev.minus_spec(state.curr_f).abs_spec(),
        ) ==> final(p).acceptable_count == 0,
        old(p).acceptable_iter > 0 && nlp_err.finite() && nlp_err.le_spec(old(p).acceptable_tol)
            && state.dual_inf.le_spec(old(p).acceptable_dual_inf_tol) && state.constr_viol.le_spec(
            old(p).acceptable_constr_viol_tol,
        ) && state.compl_inf.le_spec(old(p).acceptable_compl_inf_tol) && state.curr_f.finite() && (
        !old(p).acceptable_obj_change_tol.lt_spec(Number { bits: D1E20 })
            || !old(p).acceptable_obj_change_tol.times_spec(size).le_spec(
            prev.minus_spec(state.curr_f).abs_spec(),
        )) ==> final(p).acceptable_count == old(p).acceptable_count + 1,
{
}

/// The budgets are kept: a run goes on only below its iteration limit and within
/// its times, and each budget is reported under its own name.
pub proof fn law_budgets_end_the_run(
    p: &mut OptErrorConvCheck,
    nlp_err: Number,
    iter_count: i32,
    state: IterateState,
    status: ConvergenceStatus,
)
    requires
        call_ensures(
            <OptErrorConvCheck as ConvCheck>::check_convergence_with_state,
            (p, nlp_err, iter_count, &state),
            status,
        ),
    ensures
        status == ConvergenceStatus::Continue ==> iter_count < old(p).max_iter,
        status == ConvergenceStatus::MaxIterExceeded ==> iter_count >= old(p).max_iter,
        iter_count >= old(p).max_iter ==> status == ConvergenceStatus::MaxIterExceeded || status
            == ConvergenceStatus::Converged || status == ConvergenceStatus::ConvergedToAcceptable,
        status == ConvergenceStatus::Continue ==> match state.clock {
            Clock::Deadline(spent) => spent is None,
            Clock::Elapsed { cpu, wall } => !old(p).max_cpu_time.le_spec(cpu)
                && !old(p).max_wall_time.le_spec(wall),
        },
        status == ConvergenceStatus::CpuTimeExceeded ==> match state.clock {
            Clock::Deadline(spent) => spent == Some(DeadlineKind::Cpu),
            Clock::Elapsed { cpu, wall } => old(p).max_cpu_time.le_spec(cpu),
        },
        status == ConvergenceStatus::WallTimeExceeded ==> match state.clock {
            Clock::Deadline(spent) => spent == Some(DeadlineKind::Wall),
            Clock::Elapsed { cpu, wall } => old(p).max_wall_time.le_spec(wall)
                && !old(p).max_cpu_time.le_spec(cpu),
        },
        status != ConvergenceStatus::Failed,
{
}

/// Infeasibility is declared only of an iterate whose violation is above
/// `infeas_viol_kappa` times `constr_viol_tol`, whose violation no move reduces,
/// and whose gradient of the violation has been flat for `infeas_max_streak`
/// checks in a row.
pub proof fn law_infeasibility_needs_a_violation(
    p: &mut OptErrorConvCheck,
    nlp_err: Number,
    iter_count: i32,
    state: IterateState,
)
    requires
        call_ensures(
            <OptErrorConvCheck as ConvCheck>::check_convergence_with_state,
            (p, nlp_err, iter_count, &state),
            ConvergenceStatus::LocallyInfeasible,
        ),
        old(p).infeas_streak < i32::MAX,
    ensures
        !state.descent_available,
        old(p).infeas_viol_kappa.times_spec(old(p).constr_viol_tol).lt_spec(state.constr_viol),
        state.stationarity.le_spec(old(p).infeas_stationarity_tol),
        (Number { bits: D0 }).lt_spec(old(p).infeas_stationarity_tol),
        old(p).infeas_max_streak > 0,
        final(p).infeas_streak == old(p).infeas_streak + 1,
        final(p).infeas_streak >= old(p).infeas_max_streak,
{
}

/// The infeasibility streak: an iterate that goes on adds to it where it is flat
/// and violated, and breaks it otherwise; so does one that some move improves
/// once the streak is full.
pub proof fn law_infeasibility_streak(
    p: &mut OptErrorConvCheck,
    nlp_err: Number,
    iter_count: i32,
    state: IterateState,
)
    requires
        call_ensures(
            <OptErrorConvCheck as ConvCheck>::check_convergence_with_state,
            (p, nlp_err, iter_count, &state),
            ConvergenceStatus::Continue,
        ),
        0 <= old(p).infeas_streak < i32::MAX,
        (Number { bits: D0 }).lt_spec(old(p).infeas_stationarity_tol),
        old(p).infeas_max_streak > 0,
    ensures
        old(p).infeas_viol_kappa.times_spec(old(p).constr_viol_tol).lt_spec(state.constr_viol)
            && state.stationarity.le_spec(old(p).infeas_stationarity_tol) && old(p).infeas_streak
            + 1 < old(p).infeas_max_streak ==> final(p).infeas_streak == old(p).infeas_streak + 1,
        state.constr_viol.le_spec(
            old(p).infeas_viol_kappa.times_spec(old(p).constr_viol_tol),
        ) ==> final(p).infeas_streak == 0,
        old(p).infeas_stationarity_tol.lt_spec(state.stationarity) ==> final(p).infeas_streak == 0,
        final(p).infeas_streak < old(p).infeas_max_streak,
{
}

/// Where the detection of infeasibility is switched off, by its tolerance or by its
/// length, no check touches the streak or claims infeasibility; nor does a check touch
/// it that ends the run at either tolerance or at the iteration limit.
pub proof fn law_streak_rests(
    p: &mut OptErrorConvCheck,
    nlp_err: Number,
    iter_count: i32,
    state: IterateState,
    r: ConvergenceStatus,
)
    requires
        call_ensures(
            <OptErrorConvCheck as ConvCheck>::check_convergence_with_state,
            (p, nlp_err, iter_count, &state),
            r,
        ),
    ensures
        old(p).infeas_stationarity_tol.le_spec(Number { bits: D0 }) || old(p).infeas_max_streak <= 0
            ==> final(p).infeas_streak == old(p).infeas_streak && r
            != ConvergenceStatus::LocallyInfeasible,
        r == ConvergenceStatus::Converged || r == ConvergenceStatus::ConvergedToAcceptable || r
            == ConvergenceStatus::MaxIterExceeded ==> final(p).infeas_streak
            == old(p).infeas_streak,
        r == ConvergenceStatus::Converged ==> final(p).acceptable_count
            == old(p).acceptable_count,
{
}

/// A full infeasibility streak that no move can break ends the run, where
/// nothing else ended it before.
pub proof fn law_full_streak_is_infeasible(
    p: &mut OptErrorConvCheck,
    nlp_err: Number,
    iter_count: i32,
    state: IterateState,
    status: ConvergenceStatus,
)
    requires
        call_ensures(
            <OptErrorConvCheck as ConvCheck>::check_convergence_with_state,
            (p, nlp_err, iter_count, &state),
            status,
        ),
        (Number { bits: D0 }).lt_spec(old(p).infeas_stationarity_tol),
        old(p).infeas_max_streak > 0,
        old(p).infeas_streak + 1 >= old(p).infeas_max_streak,
        old(p).infeas_viol_kappa.times_spec(old(p).constr_viol_tol).lt_spec(state.constr_viol),
        state.stationarity.le_spec(old(p).infeas_stationarity_tol),
        !state.descent_available,
    ensures
        status == ConvergenceStatus::LocallyInfeasible || status == ConvergenceStatus::Converged
            || status == ConvergenceStatus::ConvergedToAcceptable || status
            == ConvergenceStatus::MaxIterExceeded,
{
}

/// A check keeps every tolerance and limit.
pub proof fn law_check_keeps_the_tolerances(
    p: &mut OptErrorConvCheck,
    nlp_err: Number,
    iter_count: i32,
    state: IterateState,
    status: ConvergenceStatus,
)
    requires
        call_ensures(
            <OptErrorConvCheck as ConvCheck>::check_convergence_with_state,
            (p, nlp_err, iter_count, &state),
            status,
        ),
    ensures
        final(p).tol == old(p).tol,
        final(p).dual_inf_tol == old(p).dual_inf_tol,
        final(p).constr_viol_tol == old(p).constr_viol_tol,
        final(p).compl_inf_tol == old(p).compl_inf_tol,
        final(p).acceptable_tol == old(p).acceptable_tol,
        final(p).acceptable_dual_inf_tol == old(p).acceptable_dual_inf_tol,
        final(p).acceptable_constr_viol_tol == old(p).acceptable_constr_viol_tol,
        final(p).acceptable_compl_inf_tol == old(p).acceptable_compl_inf_tol,
        final(p).acceptable_obj_change_tol == old(p).acceptable_obj_change_tol,
        final(p).acceptable_iter == old(p).acceptable_iter,
        final(p).max_iter == old(p).max_iter,
        final(p).max_cpu_time == old(p).max_cpu_time,
        final(p).max_wall_time == old(p).max_wall_time,
        final(p).last_acceptable_obj == old(p).last_acceptable_obj,
        final(p).infeas_stationarity_tol == old(p).infeas_stationarity_tol,
        final(p).infeas_viol_kappa == old(p).infeas_viol_kappa,
        final(p).infeas_max_streak == old(p).infeas_max_streak,
        final(p).obj_scale_certificate_threshold == old(p).obj_scale_certificate_threshold,
        old(p).veto_fired ==> final(p).veto_fired,
        old(p).acceptable_veto_fired ==> final(p).acceptable_veto_fired,
{
}

/// The check on the scalars: each stop has its reason in the error or the count,
/// and the streak is that of errors within `acceptable_tol`.
pub proof fn law_scalar_check(
    p: &mut OptErrorConvCheck,
    nlp_err: Number,
    iter_count: i32,
    status: ConvergenceStatus,
)
    requires
        call_ensures(
            <OptErrorConvCheck as ConvCheck>::check_convergence,
            (p, nlp_err, iter_count),
            status,
        ),
        0 <= old(p).acceptable_count < i32::MAX,
    ensures
        status == ConvergenceStatus::Converged <==> nlp_err.le_spec(old(p).tol),
        status == ConvergenceStatus::ConvergedToAcceptable ==> nlp_err.le_spec(
            old(p).acceptable_tol,
        ) && old(p).acceptable_iter > 0 && final(p).acceptable_count >= old(p).acceptable_iter,
        status == ConvergenceStatus::MaxIterExceeded ==> iter_count >= old(p).max_iter,
        status == ConvergenceStatus::Continue ==> iter_count < old(p).max_iter,
        status == ConvergenceStatus::Continue && old(p).acceptable_iter > 0 && nlp_err.le_spec(
            old(p).acceptable_tol,
        ) ==> final(p).acceptable_count == old(p).acceptable_count + 1 && final(p).acceptable_count
            < old(p).acceptable_iter,
        old(p).acceptable_tol.lt_spec(nlp_err) && old(p).tol.lt_spec(nlp_err) ==> final(p).acceptable_count == 0,
        status == ConvergenceStatus::Converged || status == ConvergenceStatus::ConvergedToAcceptable
            || status == ConvergenceStatus::MaxIterExceeded || status
            == ConvergenceStatus::Continue,
        final(p).tol == old(p).tol,
        final(p).acceptable_tol == old(p).acceptable_tol,
        final(p).acceptable_iter == old(p).acceptable_iter,
        final(p).max_iter == old(p).max_iter,
{
}

/// The test of the strict tolerances, and that of the acceptable ones, hold each
/// residual against the tolerance of its own name.
pub proof fn law_residual_tests(
    p: OptErrorConvCheck,
    nlp_err: Number,
    state: IterateState,
    strict: bool,
    acceptable: bool,
    scalar: bool,
)
    requires
        call_ensures(OptErrorConvCheck::current_passes_strict, (&p, nlp_err, &state), strict),
        call_ensures(
            <OptErrorConvCheck as ConvCheck>::current_is_acceptable_with_state,
            (&p, nlp_err, &state),
            acceptable,
        ),
        call_ensures(
            <OptErrorConvCheck as ConvCheck>::current_is_acceptable,
            (&p, nlp_err),
            scalar,
        ),
    ensures
        strict <==> nlp_err.le_spec(p.tol) && state.dual_inf.le_spec(p.dual_inf_tol)
            && state.constr_viol.le_spec(p.constr_viol_tol) && state.compl_inf.le_spec(
            p.compl_inf_tol,
        ),
        acceptable ==> {
            &&& nlp_err.finite()
            &&& nlp_err.le_spec(p.acceptable_tol)
            &&& state.dual_inf.le_spec(p.acceptable_dual_inf_tol)
            &&& state.constr_viol.le_spec(p.acceptable_constr_viol_tol)
            &&& state.compl_inf.le_spec(p.acceptable_compl_inf_tol)
            &&& state.curr_f.finite()
        },
        nlp_err.finite() && nlp_err.le_spec(p.acceptable_tol) && state.dual_inf.le_spec(
            p.acceptable_dual_inf_tol,
        ) && state.constr_viol.le_spec(p.acceptable_constr_viol_tol) && state.compl_inf.le_spec(
            p.acceptable_compl_inf_tol,
        ) && state.curr_f.finite() && p.last_acceptable_obj is None ==> acceptable,
        scalar <==> nlp_err.finite() && nlp_err.le_spec(p.acceptable_tol),
{
}

/// A certificate is masked by a small positive threshold alone, by the size of
/// the objective scale whatever its sign, and only above `acceptable_tol`.
pub proof fn law_masking(
    obj_scale: Number,
    unscaled_err: Number,
    threshold: Number,
    acceptable_tol: Number,
    r: bool,
    mirrored: bool,
)
    requires
        call_ensures(certificate_masked, (obj_scale, unscaled_err, threshold, acceptable_tol), r),
        call_ensures(
            certificate_masked,
            (obj_scale.neg_spec(), unscaled_err, threshold, acceptable_tol),
            mirrored,
        ),
    ensures
        r == mirrored,
        r ==> acceptable_tol.lt_spec(unscaled_err),
        r ==> (Number { bits: D0 }).lt_spec(threshold),
        r && (Number { bits: D0 }).le_spec(obj_scale) ==> obj_scale.lt_spec(threshold),
        (Number { bits: D0 }).le_spec(obj_scale) && obj_scale.lt_spec(threshold)
            && acceptable_tol.lt_spec(unscaled_err) ==> r,
{
}

/// Changing a tolerance by its name changes the field of that name alone; a name
/// that is none of them changes nothing.
pub proof fn law_named_tolerance(p: &mut OptErrorConvCheck, name: &str, v: Number, r: bool)
    requires
        call_ensures(<OptErrorConvCheck as ConvCheck>::set_tolerance, (p, name, v), r),
    ensures
        name@ == "tol"@ ==> r && *final(p) == (OptErrorConvCheck { tol: v, ..*old(p) }),
        name@ == "dual_inf_tol"@ ==> r && *final(p) == (OptErrorConvCheck {
            dual_inf_tol: v,
            ..*old(p)
        }),
        name@ == "constr_viol_tol"@ ==> r && *final(p) == (OptErrorConvCheck {
            constr_viol_tol: v,
            ..*old(p)
        }),
        name@ == "compl_inf_tol"@ ==> r && *final(p) == (OptErrorConvCheck {
            compl_inf_tol: v,
            ..*old(p)
        }),
        name@ == "acceptable_tol"@ ==> r && *final(p) == (OptErrorConvCheck {
            acceptable_tol: v,
            ..*old(p)
        }),
        name@ == "acceptable_dual_inf_tol"@ ==> r && *final(p) == (OptErrorConvCheck {
            acceptable_dual_inf_tol: v,
            ..*old(p)
        }),
        name@ == "acceptable_constr_viol_tol"@ ==> r && *final(p) == (OptErrorConvCheck {
            acceptable_constr_viol_tol: v,
            ..*old(p)
        }),
        name@ == "acceptable_compl_inf_tol"@ ==> r && *final(p) == (OptErrorConvCheck {
            acceptable_compl_inf_tol: v,
            ..*old(p)
        }),
        name@ == "acceptable_obj_change_tol"@ ==> r && *final(p) == (OptErrorConvCheck {
            acceptable_obj_change_tol: v,
            ..*old(p)
        }),
        !r ==> *final(p) == *old(p),
        name@ == "max_iter"@ ==> !r,
{
    reveal_strlit("tol");
    reveal_strlit("dual_inf_tol");
    reveal_strlit("constr_viol_tol");
    reveal_strlit("compl_inf_tol");
    reveal_strlit("acceptable_tol");
    reveal_strlit("acceptable_dual_inf_tol");
    reveal_strlit("acceptable_constr_viol_tol");
    reveal_strlit("acceptable_compl_inf_tol");
    reveal_strlit("acceptable_obj_change_tol");
    reveal_strlit("max_iter");
    assert("tol"@.len() == 3);
    assert("dual_inf_tol"@.len() == 12);
    assert("constr_viol_tol"@.len() == 15);
    assert("compl_inf_tol"@.len() == 13);
    assert("acceptable_tol"@.len() == 14);
    assert("acceptable_dual_inf_tol"@.len() == 23);
    assert("acceptable_constr_viol_tol"@.len() == 26);
    assert("acceptable_compl_inf_tol"@.len() == 24);
    assert("acceptable_obj_change_tol"@.len() == 25);
    assert("max_iter"@.len() == 8);
}

/// The objective that is recorded is the one that later iterates are held
/// against, and nothing else changes.
pub proof fn law_recorded_objective(p: &mut OptErrorConvCheck, obj: Number)
    requires
        call_ensures(
            <OptErrorConvCheck as ConvCheck>::set_curr_acceptable_obj,
            (p, obj),
            (),
        ),
    ensures
        final(p).last_acceptable_obj == Some(obj),
        *final(p) == (OptErrorConvCheck { last_acceptable_obj: Some(obj), ..*old(p) }),
{
}

/// The tolerances that the main loop asks for are those of the check.
pub proof fn law_asked_tolerances(
    p: OptErrorConvCheck,
    tol: Number,
    viol: Number,
    strict: bool,
    acceptable: bool,
)
    requires
        call_ensures(<OptErrorConvCheck as ConvCheck>::tol_or_default, (&p,), tol),
        call_ensures(
            <OptErrorConvCheck as ConvCheck>::acceptable_constr_viol_tol_or_default,
            (&p,),
            viol,
        ),
        call_ensures(<OptErrorConvCheck as ConvCheck>::certificate_vetoed, (&p,), strict),
        call_ensures(
            <OptErrorConvCheck as ConvCheck>::acceptable_certificate_vetoed,
            (&p,),
            acceptable,
        ),
    ensures
        tol == p.tol,
        viol == p.acceptable_constr_viol_tol,
        strict == p.veto_fired,
        acceptable == p.acceptable_veto_fired,
{
}

} // verus!
