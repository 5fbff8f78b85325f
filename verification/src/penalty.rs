//! The outer loop of the l1 penalty: how the penalty grows, when it stops, and
//! what the caller is told.
use crate::application::IpoptApplication;
use crate::decimal::D0;
use crate::decimal::D1;
use crate::decimal::D1E1;
use crate::decimal::D1E6;
use crate::decimal::D1EM12;
use crate::decimal::D1EM6;
use crate::decimal::D8;
use crate::feasibility::OriginalSpaceFeasibility;
use crate::number::lemma_times_grows;
use crate::number::one;
use crate::number::Number;
use crate::number::QUIET_NAN;
use crate::options::integer_or;
use crate::options::numeric_or;
use crate::options::OptionsList;
use crate::options::OptionsView;
use crate::solve::Delivery;
use crate::statistics::FinalizeSnapshot;
use crate::statistics::SolveStatistics;
use crate::status::claims_solution;
use crate::status::is_solution_status;
use crate::status::unrefuted;
use crate::status::withdraw_infeasibility_if_refuted;
use crate::status::ApplicationReturnStatus;
use crate::status::SolverReturn;
use vstd::prelude::*;

verus! {

/// What governs the outer loop.
#[derive(Clone, Copy, Debug, PartialEq, Eq, Structural)]
pub struct L1Settings {
    pub rho_init: Number,
    pub rho_max: Number,
    pub factor: Number,
    /// Weight of the multipliers in the next penalty.
    pub tau: Number,
    pub slack_tol: Number,
    pub max_outer: usize,
}

/// The cap on the number of solves, as the option gives it.
pub open spec fn outer_iterations(o: OptionsView) -> usize {
    integer_or(o, "l1_penalty_max_outer_iter"@, 8) as usize
}

/// The settings that the options give. The largest penalty is at least the
/// first one, the factor at least 1, and there is at least one solve.
pub open spec fn l1_settings_of(o: OptionsView) -> L1Settings {
    let rho_init = numeric_or(o, "l1_penalty_init"@, Number { bits: D1 });
    L1Settings {
        rho_init,
        rho_max: numeric_or(o, "l1_penalty_max"@, Number { bits: D1E6 }).max_spec(rho_init),
        factor: numeric_or(o, "l1_penalty_increase_factor"@, Number { bits: D8 }).max_spec(
            Number { bits: D1 },
        ),
        tau: numeric_or(o, "l1_steering_factor"@, Number { bits: D1E1 }),
        slack_tol: numeric_or(o, "l1_slack_tol"@, Number { bits: D1EM6 }),
        max_outer: if outer_iterations(o) < 1 {
            1
        } else {
            outer_iterations(o)
        },
    }
}

/// Reads the settings of the outer loop.
pub fn l1_settings(o: &OptionsList) -> (r: L1Settings)
    ensures
        r == l1_settings_of(o@),
{
    let rho_init = o.numeric("l1_penalty_init", Number { bits: D1 });
    let cap: i32 = o.integer("l1_penalty_max_outer_iter", 8);
    let max_outer: usize = #[verifier::truncate]
    (cap as usize);
    L1Settings {
        rho_init,
        rho_max: o.numeric("l1_penalty_max", Number { bits: D1E6 }).larger(rho_init),
        factor: o.numeric("l1_penalty_increase_factor", Number { bits: D8 }).larger(
            Number { bits: D1 },
        ),
        tau: o.numeric("l1_steering_factor", Number { bits: D1E1 }),
        slack_tol: o.numeric("l1_slack_tol", Number { bits: D1EM6 }),
        max_outer: if max_outer < 1 {
            1
        } else {
            max_outer
        },
    }
}

/// What an inner solve left behind.
#[derive(Clone, Copy, Debug, PartialEq, Eq, Structural)]
pub struct InnerPoint {
    /// The sum of the slacks.
    pub slack_sum: Number,
    /// The largest equality multiplier.
    pub y_eq_inf: Number,
    /// Whether the point is feasible for the model as given; unknown where it
    /// cannot be measured. Read only where the solve claims a solution.
    pub feasible: Option<bool>,
}

/// The state of the outer loop.
#[derive(Clone, Copy, Debug, PartialEq, Eq, Structural)]
pub struct L1Loop {
    pub settings: L1Settings,
    /// The penalty of the next solve.
    pub rho: Number,
    /// Solves so far.
    pub solves: usize,
    pub last_status: ApplicationReturnStatus,
}

impl L1Loop {
    /// Before the first solve.
    pub open spec fn initial(settings: L1Settings) -> L1Loop {
        L1Loop {
            settings,
            rho: settings.rho_init,
            solves: 0,
            last_status: ApplicationReturnStatus::InternalError,
        }
    }

    /// A solve is still allowed.
    pub open spec fn may_solve(self) -> bool {
        self.solves < self.settings.max_outer
    }

    /// The point satisfies the model; where that cannot be measured, its slacks
    /// are as good as gone.
    pub open spec fn settled(self, point: InnerPoint) -> bool {
        match point.feasible {
            Some(f) => f,
            None => point.slack_sum.finite() && point.slack_sum.le_spec(self.settings.slack_tol),
        }
    }

    /// A larger penalty is worth trying.
    pub open spec fn escalates(
        self,
        status: ApplicationReturnStatus,
        point: Option<InnerPoint>,
    ) -> bool {
        &&& point is Some
        &&& claims_solution(status)
        &&& !self.settled(point->0)
        &&& !self.settings.rho_max.le_spec(self.rho)
    }

    /// The next penalty: geometric growth, or more where the multipliers ask
    /// for it, up to the largest.
    pub open spec fn next_rho(self, point: InnerPoint) -> Number {
        self.rho.times_spec(self.settings.factor).max_spec(
            self.settings.tau.times_spec(point.y_eq_inf).plus_spec(Number { bits: D1EM12 }),
        ).min_spec(self.settings.rho_max)
    }

    /// The state after a solve.
    pub open spec fn after(
        self,
        status: ApplicationReturnStatus,
        point: Option<InnerPoint>,
    ) -> L1Loop {
        L1Loop {
            rho: if self.escalates(status, point) {
                self.next_rho(point->0)
            } else {
                self.rho
            },
            solves: (self.solves + 1) as usize,
            last_status: status,
            ..self
        }
    }

    /// The loop has something to do: the model could be relaxed, and has equality
    /// rows to relax.
    pub open spec fn applies(m_eq: Option<usize>) -> bool {
        m_eq is Some && m_eq->0 > 0
    }

    /// The loop on a model with so many equality rows; on one that could not be
    /// relaxed there is no count. None where it has nothing to do: the model is
    /// then solved without it.
    pub fn begin(settings: L1Settings, m_eq: Option<usize>) -> (r: Option<L1Loop>)
        ensures
            r is Some <==> L1Loop::applies(m_eq),
            r matches Some(l) ==> l == L1Loop::initial(settings),
    {
        match m_eq {
            Some(rows) => {
                if rows > 0 {
                    Some(L1Loop::new(settings))
                } else {
                    None
                }
            },
            None => None,
        }
    }

    /// Before the first solve.
    pub fn new(settings: L1Settings) -> (r: L1Loop)
        ensures
            r == L1Loop::initial(settings),
    {
        L1Loop {
            settings,
            rho: settings.rho_init,
            solves: 0,
            last_status: ApplicationReturnStatus::InternalError,
        }
    }

    /// Takes in the outcome of a solve; true where another one is to follow.
    pub fn step(&mut self, status: ApplicationReturnStatus, point: Option<InnerPoint>) -> (again:
        bool)
        requires
            old(self).may_solve(),
        ensures
            *final(self) == old(self).after(status, point),
            again == (old(self).escalates(status, point) && final(self).may_solve()),
    {
        self.last_status = status;
        self.solves = self.solves + 1;
        let p = match point {
            Some(p) => p,
            None => {
                return false;
            },
        };
        if !is_solution_status(status) {
            return false;
        }
        match p.feasible {
            Some(true) => {
                return false;
            },
            Some(false) => {},
            None => {
                if p.slack_sum.is_finite() && p.slack_sum.at_most(self.settings.slack_tol) {
                    return false;
                }
            },
        }
        if self.settings.rho_max.at_most(self.rho) {
            return false;
        }
        let geom = self.rho.times(self.settings.factor);
        let steer = self.settings.tau.times(p.y_eq_inf).plus(Number { bits: D1EM12 });
        self.rho = geom.larger(steer).smaller(self.settings.rho_max);
        self.solves < self.settings.max_outer
    }
}

/// The claim that the point found is the best there is although it does not
/// satisfy the model, even to the acceptable tolerances.
pub open spec fn certifies_infeasible(
    last_status: ApplicationReturnStatus,
    feas: Option<OriginalSpaceFeasibility>,
    slack_sum: Number,
    slack_tol: Number,
) -> bool {
    claims_solution(last_status) && match feas {
        Some(f) => !f.negligible_at_acceptable,
        None => slack_sum.finite() && slack_tol.lt_spec(slack_sum),
    }
}

/// The point satisfies the model to the acceptable tolerances only.
pub open spec fn only_acceptable(
    last_status: ApplicationReturnStatus,
    feas: Option<OriginalSpaceFeasibility>,
) -> bool {
    claims_solution(last_status) && feas is Some && !feas->0.negligible_at_tol
        && feas->0.negligible_at_acceptable
}

/// The point that the outer loop ended with, and what is known of it.
#[derive(Clone, Copy, Debug, PartialEq, Eq, Structural)]
pub struct L1Point {
    /// How the solve that found it ended, where that is known.
    pub solver_status: Option<SolverReturn>,
    pub feas: Option<OriginalSpaceFeasibility>,
    /// The sum of the slacks.
    pub slack_sum: Number,
    /// Presolve has proved the model infeasible.
    pub presolve_proof: bool,
    /// The model's starting point satisfies every constraint.
    pub start_is_feasible: bool,
}

/// What the outer loop comes to.
#[derive(Clone, Copy, Debug, PartialEq, Eq, Structural)]
pub struct L1Verdict {
    /// What is reported.
    pub status: ApplicationReturnStatus,
    /// What the point is delivered under; none where there is no point.
    pub deliver: Option<SolverReturn>,
}

/// The point of the loop is claimed to be the best of an infeasible model,
/// before the starting point is asked. Without a point nothing is claimed.
pub open spec fn l1_claims_infeasible(l: L1Loop, point: Option<L1Point>) -> bool {
    match point {
        Some(p) => certifies_infeasible(
            l.last_status,
            p.feas,
            p.slack_sum,
            l.settings.slack_tol,
        ),
        None => false,
    }
}

/// What the outer loop comes to, judged on the model as it was given. A claim of
/// infeasibility that the starting point disproves becomes a breakdown. Where no
/// solve has found a point, the last status stands and nothing is delivered.
pub open spec fn l1_verdict(l: L1Loop, point: Option<L1Point>) -> L1Verdict {
    match point {
        None => L1Verdict { status: l.last_status, deliver: None },
        Some(p) => if l1_claims_infeasible(l, point) {
            if p.start_is_feasible && !p.presolve_proof {
                L1Verdict {
                    status: ApplicationReturnStatus::ErrorInStepComputation,
                    deliver: Some(SolverReturn::ErrorInStepComputation),
                }
            } else {
                L1Verdict {
                    status: ApplicationReturnStatus::InfeasibleProblemDetected,
                    deliver: Some(SolverReturn::LocalInfeasibility),
                }
            }
        } else if only_acceptable(l.last_status, p.feas) {
            L1Verdict {
                status: ApplicationReturnStatus::SolvedToAcceptableLevel,
                deliver: Some(SolverReturn::StopAtAcceptablePoint),
            }
        } else {
            L1Verdict {
                status: l.last_status,
                deliver: Some(
                    match p.solver_status {
                        Some(r) => r,
                        None => SolverReturn::InternalError,
                    },
                ),
            }
        },
    }
}

/// Whether the model is claimed infeasible, before the starting point is asked.
pub fn claims_infeasible(l: &L1Loop, point: &Option<L1Point>) -> (r: bool)
    ensures
        r == l1_claims_infeasible(*l, *point),
{
    match point {
        Some(p) => is_solution_status(l.last_status) && match p.feas {
            Some(f) => !f.negligible_at_acceptable,
            None => p.slack_sum.is_finite() && l.settings.slack_tol.less(p.slack_sum),
        },
        None => false,
    }
}

/// What the outer loop comes to.
pub fn l1_final_statuses(l: &L1Loop, point: &Option<L1Point>) -> (r: L1Verdict)
    ensures
        r == l1_verdict(*l, *point),
{
    let p = match point {
        Some(p) => *p,
        None => {
            return L1Verdict { status: l.last_status, deliver: None };
        },
    };
    let claimed = is_solution_status(l.last_status);
    let downgrade = claimed && match p.feas {
        Some(f) => !f.negligible_at_tol && f.negligible_at_acceptable,
        None => false,
    };
    let certificate = claims_infeasible(l, point);
    let claim = SolverReturn::LocalInfeasibility;
    let refuted = certificate && withdraw_infeasibility_if_refuted(
        claim,
        p.presolve_proof,
        p.start_is_feasible,
    ) != claim;
    let (status, solver_status) = if certificate && !refuted {
        (ApplicationReturnStatus::InfeasibleProblemDetected, SolverReturn::LocalInfeasibility)
    } else if certificate {
        (ApplicationReturnStatus::ErrorInStepComputation, SolverReturn::ErrorInStepComputation)
    } else if downgrade {
        (ApplicationReturnStatus::SolvedToAcceptableLevel, SolverReturn::StopAtAcceptablePoint)
    } else {
        (
            l.last_status,
            match p.solver_status {
                Some(r) => r,
                None => SolverReturn::InternalError,
            },
        )
    };
    L1Verdict { status, deliver: Some(solver_status) }
}

/// The statistics with the violation of the model as it was given. The scaled
/// numbers follow only where no row was scaled; where that is not known, they
/// do not.
pub open spec fn with_measured_violation(
    s: SolveStatistics,
    violation: Number,
    row_scaling_active: Option<bool>,
) -> SolveStatistics {
    let unscaled = SolveStatistics {
        final_unscaled_constr_viol: violation,
        final_unscaled_kkt_error: s.final_unscaled_kkt_error.max_spec(violation),
        ..s
    };
    if row_scaling_active == Some(false) {
        SolveStatistics {
            final_constr_viol: violation,
            final_kkt_error: s.final_kkt_error.max_spec(violation),
            final_kkt_error_above_noise: s.final_kkt_error_above_noise.max_spec(violation),
            ..unscaled
        }
    } else {
        unscaled
    }
}

/// Reports the violation of the model as it was given.
pub fn record_measured_violation(
    stats: &mut SolveStatistics,
    violation: Number,
    row_scaling_active: Option<bool>,
)
    ensures
        *final(stats) == with_measured_violation(*old(stats), violation, row_scaling_active),
{
    stats.final_unscaled_constr_viol = violation;
    stats.final_unscaled_kkt_error = stats.final_unscaled_kkt_error.larger(violation);
    if let Some(active) = row_scaling_active {
        if !active {
            stats.final_constr_viol = violation;
            stats.final_kkt_error = stats.final_kkt_error.larger(violation);
            stats.final_kkt_error_above_noise = stats.final_kkt_error_above_noise.larger(violation);
        }
    }
}

/// The application after the outer loop: the violation of the model as it was
/// given is reported, where there is a point and it could be measured.
pub open spec fn after_l1(a: IpoptApplication, point: Option<L1Point>) -> IpoptApplication {
    match point {
        Some(p) => match p.feas {
            Some(f) => IpoptApplication {
                statistics: with_measured_violation(
                    a.statistics,
                    f.max_violation,
                    a.row_scaling_active,
                ),
                ..a
            },
            None => a,
        },
        None => a,
    }
}

impl IpoptApplication {
    /// Takes in the point that the outer loop ended with, if any of its solves
    /// found one; what it comes to is handed back.
    pub fn conclude_l1_penalty(&mut self, l: &L1Loop, point: &Option<L1Point>) -> (r: L1Verdict)
        ensures
            *final(self) == after_l1(*old(self), *point),
            r == l1_verdict(*l, *point),
    {
        if let Some(p) = point {
            if let Some(f) = p.feas {
                record_measured_violation(
                    &mut self.statistics,
                    f.max_violation,
                    self.row_scaling_active,
                );
            }
        }
        l1_final_statuses(l, point)
    }
}

/// The solution that is delivered of a point, as it stands: multipliers that the
/// point lacks are not made up, and the objective is a NaN where it could not be
/// evaluated.
pub fn l1_delivery(d: Delivery) -> (r: FinalizeSnapshot)
    ensures
        r.status == d.status,
        r.x == d.x,
        r.z_l == d.z_l,
        r.z_u == d.z_u,
        r.g == d.g,
        r.lambda == d.lambda,
        r.obj_value == match d.objective {
            Some(f) => f,
            None => Number { bits: QUIET_NAN },
        },
{
    FinalizeSnapshot {
        status: d.status,
        x: d.x,
        z_l: d.z_l,
        z_u: d.z_u,
        g: d.g,
        lambda: d.lambda,
        obj_value: match d.objective {
            Some(f) => f,
            None => Number { bits: QUIET_NAN },
        },
    }
}

/// The verdict can downgrade a success but never turns a failure into one, and
/// a success is reported only of a point that meets the strict standards on
/// the model as it was given, where that can be measured.
pub proof fn law_verdict_never_upgrades(l: L1Loop, p: L1Point)
    ensures
        !claims_solution(l.last_status) ==> l1_verdict(l, Some(p)).status == l.last_status,
        !claims_solution(l.last_status) && p.solver_status is Some ==> l1_verdict(
            l,
            Some(p),
        ).deliver == p.solver_status,
        claims_solution(l1_verdict(l, Some(p)).status) ==> claims_solution(l.last_status),
        l1_verdict(l, Some(p)).status == ApplicationReturnStatus::SolveSucceeded ==> l.last_status
            == ApplicationReturnStatus::SolveSucceeded,
        claims_solution(l1_verdict(l, Some(p)).status) && p.feas is Some
            ==> p.feas->0.negligible_at_acceptable,
        l1_verdict(l, Some(p)).status == ApplicationReturnStatus::SolveSucceeded && p.feas is Some
            ==> p.feas->0.negligible_at_tol,
{
}

/// The verdict never claims infeasibility of a model whose starting point is
/// feasible, short of a proof, unless the inner solve itself did.
pub proof fn law_verdict_respects_refutation(l: L1Loop, p: L1Point)
    requires
        p.start_is_feasible,
        !p.presolve_proof,
        claims_solution(l.last_status),
    ensures
        l1_verdict(l, Some(p)).status != ApplicationReturnStatus::InfeasibleProblemDetected,
        unrefuted(SolverReturn::LocalInfeasibility, p.presolve_proof, p.start_is_feasible)
            != SolverReturn::LocalInfeasibility,
{
}

/// A point is delivered exactly where some solve has found one.
pub proof fn law_delivered_where_found(l: L1Loop, point: Option<L1Point>)
    ensures
        l1_verdict(l, point).deliver is Some <==> point is Some,
{
}

/// What may be mirrored into the scaled numbers is decided fail-closed: without
/// a record that no row was scaled, they stay as the inner solve left them.
pub proof fn law_mirroring_is_fail_closed(
    s: SolveStatistics,
    violation: Number,
    row_scaling_active: Option<bool>,
)
    requires
        row_scaling_active != Some(false),
    ensures
        with_measured_violation(s, violation, row_scaling_active) == (SolveStatistics {
            final_unscaled_constr_viol: violation,
            final_unscaled_kkt_error: s.final_unscaled_kkt_error.max_spec(violation),
            ..s
        }),
{
}

/// The penalty stays at or below the largest one and never shrinks.
pub proof fn law_penalty_grows_to_its_cap(
    l: L1Loop,
    status: ApplicationReturnStatus,
    point: Option<InnerPoint>,
)
    requires
        (Number { bits: D0 }).le_spec(l.rho),
        one().le_spec(l.settings.factor),
        l.rho.zero() ==> !l.settings.factor.infinite(),
        l.rho.le_spec(l.settings.rho_max),
    ensures
        l.rho.le_spec(l.after(status, point).rho),
        l.after(status, point).rho.le_spec(l.settings.rho_max),
{
    lemma_times_grows(l.rho, l.settings.factor);
}

/// The outcomes of a series of solves.
pub open spec fn after_solves(
    l: L1Loop,
    outcomes: Seq<(ApplicationReturnStatus, Option<InnerPoint>)>,
) -> L1Loop
    decreases outcomes.len(),
{
    if outcomes.len() == 0 {
        l
    } else {
        after_solves(l, outcomes.drop_last()).after(outcomes.last().0, outcomes.last().1)
    }
}

/// However the solves end, the loop stops once it has spent its budget.
pub proof fn law_outer_loop_ends(
    settings: L1Settings,
    outcomes: Seq<(ApplicationReturnStatus, Option<InnerPoint>)>,
)
    requires
        outcomes.len() <= usize::MAX,
    ensures
        after_solves(L1Loop::initial(settings), outcomes).solves == outcomes.len(),
        after_solves(L1Loop::initial(settings), outcomes).settings == settings,
        outcomes.len() >= settings.max_outer ==> !after_solves(
            L1Loop::initial(settings),
            outcomes,
        ).may_solve(),
    decreases outcomes.len(),
{
    if outcomes.len() > 0 {
        law_outer_loop_ends(settings, outcomes.drop_last());
    }
}

/// Where none of the solves finds a point, the status of the last one is
/// reported, nothing is delivered and the application stays as the solves left
/// it.
pub proof fn law_without_a_point_the_last_status_stands(
    a: IpoptApplication,
    settings: L1Settings,
    outcomes: Seq<(ApplicationReturnStatus, Option<InnerPoint>)>,
)
    requires
        outcomes.len() > 0,
    ensures
        l1_verdict(after_solves(L1Loop::initial(settings), outcomes), None) == (L1Verdict {
            status: outcomes.last().0,
            deliver: None,
        }),
        after_l1(a, None) == a,
{
}

} // verus!
