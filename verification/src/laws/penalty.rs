//! How the l1 penalty grows, when it stops, and what it reports.
use crate::application::IpoptApplication;
use crate::decimal::D1EM12;
use crate::feasibility::OriginalSpaceFeasibility;
use crate::number::Number;
use crate::penalty::claims_infeasible;
use crate::penalty::l1_delivery;
use crate::penalty::InnerPoint;
use crate::penalty::L1Loop;
use crate::penalty::L1Point;
use crate::penalty::L1Settings;
use crate::penalty::L1Verdict;
use crate::solve::Delivery;
use crate::statistics::FinalizeSnapshot;
use crate::status::ApplicationReturnStatus;
use crate::status::SolverReturn;
use vstd::prelude::*;

verus! {

/// The loop is begun on a model that could be relaxed and has equality rows, at
/// the first penalty and with nothing solved.
pub proof fn law_loop_begins(s: L1Settings, m_eq: Option<usize>, r: Option<L1Loop>)
    requires
        call_ensures(L1Loop::begin, (s, m_eq), r),
    ensures
        r is Some <==> (m_eq matches Some(m) && m > 0),
        r matches Some(l) ==> l.settings == s && l.rho == s.rho_init && l.solves == 0
            && l.last_status == ApplicationReturnStatus::InternalError,
{
}

/// A solve is counted and its status kept, and the settings stay. Another one
/// follows only a claimed solution with a point that is not feasible, below the
/// largest penalty and within the budget; the penalty is raised in no other case.
pub proof fn law_step(
    l: &mut L1Loop,
    status: ApplicationReturnStatus,
    point: Option<InnerPoint>,
    again: bool,
)
    requires
        call_ensures(L1Loop::step, (l, status, point), again),
        old(l).solves < usize::MAX,
    ensures
        final(l).last_status == status,
        final(l).solves == old(l).solves + 1,
        final(l).settings == old(l).settings,
        again ==> final(l).solves < old(l).settings.max_outer,
        (again || final(l).rho != old(l).rho) ==> {
            &&& status == ApplicationReturnStatus::SolveSucceeded || status
                == ApplicationReturnStatus::SolvedToAcceptableLevel
            &&& point is Some
            &&& point->0.feasible != Some(true)
            &&& !old(l).settings.rho_max.le_spec(old(l).rho)
            &&& point->0.feasible is None ==> !(point->0.slack_sum.finite()
                && point->0.slack_sum.le_spec(old(l).settings.slack_tol))
        },
        point is Some && (status == ApplicationReturnStatus::SolveSucceeded || status
            == ApplicationReturnStatus::SolvedToAcceptableLevel) && (point->0.feasible == Some(false)
            || point->0.feasible is None && old(l).settings.slack_tol.lt_spec(point->0.slack_sum))
            && old(l).rho.lt_spec(old(l).settings.rho_max) && old(l).solves + 1
            < old(l).settings.max_outer ==> again,
{
}

/// The penalty grows by its factor, or to what the multipliers ask for where that
/// is more, and never above the largest.
pub proof fn law_penalty_growth(
    l: &mut L1Loop,
    status: ApplicationReturnStatus,
    p: InnerPoint,
    geometric: Number,
    steered: Number,
)
    requires
        call_ensures(L1Loop::step, (l, status, Some(p)), true),
        geometric == old(l).rho.times_spec(old(l).settings.factor),
        steered == old(l).settings.tau.times_spec(p.y_eq_inf).plus_spec(Number { bits: D1EM12 }),
        !geometric.nan(),
        !steered.nan(),
        !old(l).settings.rho_max.nan(),
    ensures
        final(l).rho.le_spec(old(l).settings.rho_max),
        geometric.le_spec(old(l).settings.rho_max) ==> geometric.le_spec(final(l).rho),
        steered.le_spec(old(l).settings.rho_max) ==> steered.le_spec(final(l).rho),
        old(l).settings.rho_max.le_spec(geometric) || old(l).settings.rho_max.le_spec(steered)
            ==> final(l).rho.key() == old(l).settings.rho_max.key(),
        final(l).rho == geometric || final(l).rho == steered || final(l).rho
            == old(l).settings.rho_max,
{
}

/// The last solve claims a solution.
pub open spec fn claimed(l: L1Loop) -> bool {
    l.last_status == ApplicationReturnStatus::SolveSucceeded || l.last_status
        == ApplicationReturnStatus::SolvedToAcceptableLevel
}

/// What is reported of a measured point, by how it satisfies the model itself: a
/// claimed solution that meets the strict standard stands as it is; one that meets
/// only the acceptable one is downgraded; one that meets neither is infeasible, or
/// a breakdown where the starting point disproves that.
pub proof fn law_measured_point_is_judged(
    a: &mut IpoptApplication,
    l: L1Loop,
    p: L1Point,
    f: OriginalSpaceFeasibility,
    r: L1Verdict,
)
    requires
        call_ensures(IpoptApplication::conclude_l1_penalty, (a, &l, &Some(p)), r),
        p.feas == Some(f),
    ensures
        r.deliver is Some,
        claimed(l) && f.negligible_at_tol && f.negligible_at_acceptable ==> r.status
            == l.last_status && (p.solver_status is Some ==> r.deliver == p.solver_status),
        claimed(l) && !f.negligible_at_tol && f.negligible_at_acceptable ==> r.status
            == ApplicationReturnStatus::SolvedToAcceptableLevel && r.deliver == Some(
            SolverReturn::StopAtAcceptablePoint,
        ),
        claimed(l) && !f.negligible_at_acceptable && (p.presolve_proof || !p.start_is_feasible)
            ==> r.status == ApplicationReturnStatus::InfeasibleProblemDetected && r.deliver == Some(
            SolverReturn::LocalInfeasibility,
        ),
        claimed(l) && !f.negligible_at_acceptable && !p.presolve_proof && p.start_is_feasible
            ==> r.status == ApplicationReturnStatus::ErrorInStepComputation && r.deliver == Some(
            SolverReturn::ErrorInStepComputation,
        ),
        !claimed(l) ==> r.status == l.last_status && (p.solver_status is Some ==> r.deliver
            == p.solver_status) && (p.solver_status is None ==> r.deliver == Some(
            SolverReturn::InternalError,
        )),
{
}

/// A point that cannot be measured is judged by its slacks.
pub proof fn law_unmeasured_point_is_judged(
    a: &mut IpoptApplication,
    l: L1Loop,
    p: L1Point,
    r: L1Verdict,
)
    requires
        call_ensures(IpoptApplication::conclude_l1_penalty, (a, &l, &Some(p)), r),
        p.feas is None,
    ensures
        *final(a) == *old(a),
        claimed(l) && p.slack_sum.le_spec(l.settings.slack_tol) ==> r.status == l.last_status,
        claimed(l) && p.slack_sum.finite() && l.settings.slack_tol.lt_spec(p.slack_sum) && (
        p.presolve_proof || !p.start_is_feasible) ==> r.status
            == ApplicationReturnStatus::InfeasibleProblemDetected,
        claimed(l) && p.slack_sum.finite() && l.settings.slack_tol.lt_spec(p.slack_sum)
            && !p.presolve_proof && p.start_is_feasible ==> r.status
            == ApplicationReturnStatus::ErrorInStepComputation,
        !p.slack_sum.finite() ==> r.status == l.last_status,
        !claimed(l) ==> r.status == l.last_status,
{
}

/// Without a point the last status stands, nothing is delivered, and nothing
/// changes.
pub proof fn law_no_point(a: &mut IpoptApplication, l: L1Loop, r: L1Verdict)
    requires
        call_ensures(IpoptApplication::conclude_l1_penalty, (a, &l, &None::<L1Point>), r),
    ensures
        r.status == l.last_status,
        r.deliver is None,
        *final(a) == *old(a),
{
}

/// The violation of the model itself is what is reported; the errors are never
/// below it. The scaled numbers follow only where no row was scaled.
pub proof fn law_measured_violation_is_reported(
    a: &mut IpoptApplication,
    l: L1Loop,
    p: L1Point,
    f: OriginalSpaceFeasibility,
    r: L1Verdict,
)
    requires
        call_ensures(IpoptApplication::conclude_l1_penalty, (a, &l, &Some(p)), r),
        p.feas == Some(f),
        !f.max_violation.nan(),
    ensures
        final(a).statistics.final_unscaled_constr_viol == f.max_violation,
        f.max_violation.le_spec(final(a).statistics.final_unscaled_kkt_error),
        final(a).statistics.final_unscaled_kkt_error == f.max_violation || final(
            a).statistics.final_unscaled_kkt_error == old(a).statistics.final_unscaled_kkt_error,
        f.max_violation.le_spec(old(a).statistics.final_unscaled_kkt_error) ==> final(
            a).statistics.final_unscaled_kkt_error.key()
            == old(a).statistics.final_unscaled_kkt_error.key(),
        old(a).row_scaling_active == Some(false) ==> {
            &&& final(a).statistics.final_constr_viol == f.max_violation
            &&& f.max_violation.le_spec(final(a).statistics.final_kkt_error)
            &&& f.max_violation.le_spec(final(a).statistics.final_kkt_error_above_noise)
        },
        old(a).row_scaling_active != Some(false) ==> {
            &&& final(a).statistics.final_constr_viol == old(a).statistics.final_constr_viol
            &&& final(a).statistics.final_kkt_error == old(a).statistics.final_kkt_error
            &&& final(a).statistics.final_kkt_error_above_noise
                == old(a).statistics.final_kkt_error_above_noise
        },
        final(a).statistics.final_objective == old(a).statistics.final_objective,
        final(a).statistics.final_dual_inf == old(a).statistics.final_dual_inf,
        final(a).statistics.iteration_count == old(a).statistics.iteration_count,
        final(a).options == old(a).options,
{
}

/// Infeasibility is claimed of a claimed solution alone, by the acceptable
/// standard or, unmeasured, by the slacks.
pub proof fn law_claim(l: L1Loop, p: L1Point, r: bool, none: bool)
    requires
        call_ensures(claims_infeasible, (&l, &Some(p)), r),
        call_ensures(claims_infeasible, (&l, &None::<L1Point>), none),
    ensures
        !none,
        r ==> claimed(l),
        p.feas matches Some(f) ==> (r <==> claimed(l) && !f.negligible_at_acceptable),
        p.feas is None ==> (r <==> claimed(l) && p.slack_sum.finite()
            && l.settings.slack_tol.lt_spec(p.slack_sum)),
{
}

/// What is delivered of a point is the point.
pub proof fn law_penalty_delivery(d: Delivery, r: FinalizeSnapshot)
    requires
        call_ensures(l1_delivery, (d,), r),
    ensures
        r.status == d.status,
        r.x@ == d.x@,
        r.z_l@ == d.z_l@,
        r.z_u@ == d.z_u@,
        r.g@ == d.g@,
        r.lambda@ == d.lambda@,
        d.objective matches Some(f) ==> r.obj_value == f,
        d.objective is None ==> r.obj_value.nan(),
{
}

} // verus!
