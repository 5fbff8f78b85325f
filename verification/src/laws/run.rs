//! What becomes of a run: what is reported of it, and what is delivered.
use crate::alg_builder::AlgorithmBuilder;
use crate::alg_builder::FdPatternSource;
use crate::application::CrossoverReport;
use crate::application::IpoptApplication;
use crate::application::SqpIterates;
use crate::application::WorkingSet;
use crate::decimal::D0;
use crate::decimal::D1;
use crate::feral::FeralSurroundings;
use crate::iterates::IterateSnapshot;
use crate::iterates::IteratesVector;
use crate::laws::given::answer_given;
use crate::laws::given::lemma_yes_is_not_no;
use crate::laws::given::number_given;
use crate::number::Number;
use crate::solve::ConstrainedSetup;
use crate::solve::Delivery;
use crate::solve::RunEnding;
use crate::solve::RunRecord;
use crate::solve::SqpRecord;
use crate::statistics::FinalizeSnapshot;
use crate::statistics::IterRecord;
use crate::status::is_l1_fallback_trigger;
use crate::status::is_solution_status;
use crate::status::solver_return_to_app_status;
use crate::status::withdraw_infeasibility_if_refuted;
use crate::status::ApplicationReturnStatus;
use crate::status::SolverReturn;
use crate::status::SqpStatus;
use vstd::prelude::*;

verus! {

/// The run that is built from the options has the builder that the options
/// describe, field by field, but for the installed partition.
pub proof fn law_run_has_the_options_builder(
    a: IpoptApplication,
    s: FeralSurroundings,
    r: ConstrainedSetup,
    b: AlgorithmBuilder,
)
    requires
        call_ensures(IpoptApplication::constrained_builder, (&a, &s), r),
        call_ensures(IpoptApplication::algorithm_builder_from_options, (&a,), b),
    ensures
        r.builder.algorithm == b.algorithm,
        r.builder.linear_solver == b.linear_solver,
        r.builder.linear_system_scaling == b.linear_system_scaling,
        r.builder.linear_scaling_on_demand == b.linear_scaling_on_demand,
        r.builder.mu_strategy == b.mu_strategy,
        r.builder.mu_oracle == b.mu_oracle,
        r.builder.hessian_approximation == b.hessian_approximation,
        r.builder.limited_memory_max_history == b.limited_memory_max_history,
        r.builder.line_search_method == b.line_search_method,
        r.builder.warm_start_init_point == b.warm_start_init_point,
        r.builder.mehrotra_algorithm == b.mehrotra_algorithm,
        r.builder.kappa_sigma == b.kappa_sigma,
        r.builder.kappa_d == b.kappa_d,
        r.builder.s_max == b.s_max,
        r.builder.tiny_step_tol == b.tiny_step_tol,
        r.builder.diverging_iterates_tol == b.diverging_iterates_tol,
        r.builder.kkt_fidelity_tol == b.kkt_fidelity_tol,
        r.builder.conv_check == b.conv_check,
        r.builder.mu == b.mu,
        r.builder.line_search == b.line_search,
        r.builder.refinement == b.refinement,
        r.builder.perturbation == b.perturbation,
        r.builder.resto == b.resto,
        r.builder.output == b.output,
        r.builder.warm == b.warm,
        r.builder.init.bound_push == b.init.bound_push,
        r.builder.init.bound_mult_init_val == b.init.bound_mult_init_val,
{
}

/// The run is measured: it did not refuse its starting point.
pub open spec fn measured(r: RunRecord) -> bool {
    r.solver_status != SolverReturn::InvalidProblemDefinition
}

/// The crossover that counts: one that was accepted, with a complementarity that
/// is a finite number.
pub open spec fn counts(c: Option<CrossoverReport>) -> bool {
    c is Some && c->0.accepted && c->0.compl_after.finite()
}

/// What a run spent is reported under its own names, of a refused start too.
pub proof fn law_run_cost_is_reported(
    a: &mut IpoptApplication,
    r: RunRecord,
    iterations: Vec<IterRecord>,
    e: RunEnding,
)
    requires
        call_ensures(IpoptApplication::conclude_run, (a, &r, iterations), e),
    ensures
        final(a).statistics.iteration_count == r.iter_count,
        final(a).statistics.final_mu == r.mu,
        final(a).statistics.total_wallclock_time_secs == r.wallclock,
        final(a).statistics.restoration_calls == r.resto_calls,
        final(a).statistics.restoration_inner_iters == r.resto_inner_iters,
        final(a).statistics.restoration_outer_iters == r.resto_outer_iters,
        final(a).statistics.restoration_wall_secs == r.resto_wall_secs,
        old(a).quality_escalations <= i32::MAX ==> final(a).statistics.quality_escalations
            == old(a).quality_escalations,
        final(a).statistics.dual_divergence_signature <==> old(a).dual_divergence_signature
            || r.dual_divergence_signature,
        final(a).dual_divergence_signature == final(a).statistics.dual_divergence_signature,
        final(a).statistics.dual_divergence_retry_promoted == old(a).dual_divergence_retry_promoted,
        old(a).record_iter_history ==> final(a).statistics.iterations == Some(iterations),
        !old(a).record_iter_history ==> final(a).statistics.iterations is None,
        final(a).options == old(a).options,
        final(a).last_finalize == old(a).last_finalize,
        final(a).crossover_report == old(a).crossover_report,
        final(a).sqp_last_working_set == old(a).sqp_last_working_set,
        final(a).answer_restored_from_floor == old(a).answer_restored_from_floor,
{
}

/// The census of a finite-difference Hessian is reported where there was one: 0 for
/// the declared pattern, 1 for that of the Jacobian, -1 for none.
pub proof fn law_fd_census_is_reported(
    a: &mut IpoptApplication,
    r: RunRecord,
    iterations: Vec<IterRecord>,
    e: RunEnding,
)
    requires
        call_ensures(IpoptApplication::conclude_run, (a, &r, iterations), e),
    ensures
        r.fd matches Some(f) ==> final(a).statistics.fd_hessian_nnz == f.nnz,
        r.fd matches Some(f) ==> final(a).statistics.fd_hessian_n == f.n,
        r.fd matches Some(f) ==> final(a).statistics.fd_hessian_groups == f.groups,
        r.fd matches Some(f) ==> final(a).statistics.fd_hessian_rho_max == f.rho_max,
        r.fd matches Some(f) ==> final(a).statistics.fd_hessian_coloring_fell_back
            == f.coloring_fell_back,
        r.fd matches Some(f) ==> final(a).statistics.fd_hessian_objective_clique_widened
            == f.objective_clique_widened,
        r.fd matches Some(f) ==> (final(a).statistics.fd_hessian_pattern_used == 0 <==> f.pattern_used
            == Some(FdPatternSource::Declared)),
        r.fd matches Some(f) ==> (final(a).statistics.fd_hessian_pattern_used == 1 <==> f.pattern_used
            == Some(FdPatternSource::Jacobian)),
        r.fd matches Some(f) ==> (final(a).statistics.fd_hessian_pattern_used == -1 <==> f.pattern_used is None),
        r.fd is None ==> final(a).statistics.fd_hessian_nnz == old(a).statistics.fd_hessian_nnz,
        r.fd is None ==> final(a).statistics.fd_hessian_pattern_used
            == old(a).statistics.fd_hessian_pattern_used,
{
}

/// What is measured at the last iterate is reported under its own names; the
/// violation of the bounds as declared where they were widened, and a NaN where not.
pub proof fn law_measures_are_reported(
    a: &mut IpoptApplication,
    r: RunRecord,
    iterations: Vec<IterRecord>,
    e: RunEnding,
)
    requires
        call_ensures(IpoptApplication::conclude_run, (a, &r, iterations), e),
        measured(r),
    ensures
        final(a).statistics.final_dual_inf == r.measures.dual_inf,
        final(a).statistics.final_constr_viol == r.measures.constr_viol,
        final(a).statistics.final_declared_box_viol == r.measures.declared_box_viol,
        final(a).statistics.final_unscaled_dual_inf == r.measures.unscaled_dual_inf,
        final(a).statistics.final_unscaled_constr_viol == r.measures.unscaled_constr_viol,
        r.measures.scaled_objective matches Some(f) ==> final(a).statistics.final_objective == f
            && final(a).statistics.final_scaled_objective == f,
        r.measures.scaled_objective is None ==> final(a).statistics.final_objective
            == old(a).statistics.final_objective,
        (Number { bits: D0 }).lt_spec(r.bound_relax_factor)
            ==> final(a).statistics.final_declared_constr_viol == r.measures.declared_constr_viol,
        !(Number { bits: D0 }).lt_spec(r.bound_relax_factor)
            ==> final(a).statistics.final_declared_constr_viol.nan(),
        final(a).row_scaling_active == Some(r.measures.rows_scaled),
        !counts(old(a).crossover_report) ==> final(a).statistics.final_kkt_error == r.measures.nlp_error,
        !counts(old(a).crossover_report) ==> final(a).statistics.final_kkt_error_above_noise == r.measures.nlp_error_above_noise,
        !counts(old(a).crossover_report) ==> final(a).statistics.final_unscaled_compl == r.measures.unscaled_compl,
        !counts(old(a).crossover_report) ==> final(a).statistics.final_unscaled_kkt_error == r.measures.unscaled_nlp_error,
{
}

/// The reported complementarity is the largest of the four products: none of them
/// is above it, and it is one of them.
pub proof fn law_largest_complementarity_is_reported(
    a: &mut IpoptApplication,
    r: RunRecord,
    iterations: Vec<IterRecord>,
    e: RunEnding,
)
    requires
        call_ensures(IpoptApplication::conclude_run, (a, &r, iterations), e),
        measured(r),
        !counts(old(a).crossover_report),
        !r.measures.compl_x_l.nan(),
        !r.measures.compl_x_u.nan(),
        !r.measures.compl_s_l.nan(),
        !r.measures.compl_s_u.nan(),
    ensures
        r.measures.compl_x_l.le_spec(final(a).statistics.final_compl),
        r.measures.compl_x_u.le_spec(final(a).statistics.final_compl),
        r.measures.compl_s_l.le_spec(final(a).statistics.final_compl),
        r.measures.compl_s_u.le_spec(final(a).statistics.final_compl),
        final(a).statistics.final_compl == r.measures.compl_x_l || final(a).statistics.final_compl
            == r.measures.compl_x_u || final(a).statistics.final_compl == r.measures.compl_s_l
            || final(a).statistics.final_compl == r.measures.compl_s_u,
{
}

/// An accepted crossover is reported by its own complementarity and errors, without
/// the size of the objective scale, and its overall error is none of the three parts
/// below it.
pub proof fn law_crossover_is_reported(
    a: &mut IpoptApplication,
    r: RunRecord,
    iterations: Vec<IterRecord>,
    e: RunEnding,
)
    requires
        call_ensures(IpoptApplication::conclude_run, (a, &r, iterations), e),
        measured(r),
        counts(old(a).crossover_report),
    ensures
        final(a).statistics.final_compl == old(a).crossover_report->0.compl_after,
        final(a).statistics.final_kkt_error == r.measures.crossover_nlp_error,
        final(a).statistics.final_kkt_error_above_noise
            == r.measures.crossover_nlp_error_above_noise,
        r.measures.objective_scale == (Number { bits: D1 })
            ==> final(a).statistics.final_unscaled_compl == old(a).crossover_report->0.compl_after,
        r.measures.objective_scale.zero() ==> final(a).statistics.final_unscaled_compl
            == old(a).crossover_report->0.compl_after,
        !r.measures.objective_scale.zero() && !r.measures.objective_scale.nan()
            && r.measures.objective_scale.abs_spec() != (Number { bits: D1 })
            ==> final(a).statistics.final_unscaled_compl == old(a).crossover_report->0.compl_after.over_spec(
            r.measures.objective_scale.abs_spec(),
        ),
        !r.measures.unscaled_dual_inf.nan() ==> r.measures.unscaled_dual_inf.le_spec(
            final(a).statistics.final_unscaled_kkt_error,
        ),
        !r.measures.unscaled_constr_viol.nan() && !r.measures.unscaled_dual_inf.nan()
            ==> r.measures.unscaled_constr_viol.le_spec(
            final(a).statistics.final_unscaled_kkt_error,
        ),
{
}

/// A run that refused its starting point reports no new answer and delivers none.
pub proof fn law_refused_start_reports_no_answer(
    a: &mut IpoptApplication,
    r: RunRecord,
    iterations: Vec<IterRecord>,
    e: RunEnding,
)
    requires
        call_ensures(IpoptApplication::conclude_run, (a, &r, iterations), e),
        !measured(r),
    ensures
        final(a).statistics.final_objective == old(a).statistics.final_objective,
        final(a).statistics.final_kkt_error == old(a).statistics.final_kkt_error,
        final(a).statistics.final_constr_viol == old(a).statistics.final_constr_viol,
        final(a).statistics.final_unscaled_kkt_error
            == old(a).statistics.final_unscaled_kkt_error,
        final(a).row_scaling_active == old(a).row_scaling_active,
        !e.deliver,
        !e.notify,
        e.status == ApplicationReturnStatus::InvalidProblemDefinition,
{
}

/// How a run is reported: a success as one, unless the caller set a positive
/// fidelity tolerance that its unscaled error exceeds; a claim of infeasibility only
/// where the starting point does not disprove it; each budget under its own name. A
/// solution is delivered under the ending itself.
pub proof fn law_run_is_reported(
    a: &mut IpoptApplication,
    r: RunRecord,
    iterations: Vec<IterRecord>,
    e: RunEnding,
)
    requires
        call_ensures(IpoptApplication::conclude_run, (a, &r, iterations), e),
    ensures
        r.solver_status == SolverReturn::Success && number_given(
            old(a).options@,
            "kkt_fidelity_tol"@,
        ) is None ==> e.status == ApplicationReturnStatus::SolveSucceeded,
        e.status == ApplicationReturnStatus::SolveSucceeded ==> r.solver_status == SolverReturn::Success,
        r.solver_status == SolverReturn::Success ==> (e.status
            == ApplicationReturnStatus::SolvedToAcceptableLevel <==> (number_given(
            old(a).options@,
            "kkt_fidelity_tol"@,
        ) matches Some(v) && (Number { bits: D0 }).lt_spec(v) && v.lt_spec(
            final(a).statistics.final_unscaled_kkt_error,
        ))),
        r.solver_status == SolverReturn::Success ==> e.status == ApplicationReturnStatus::SolveSucceeded
            || e.status == ApplicationReturnStatus::SolvedToAcceptableLevel,
        r.solver_status == SolverReturn::StopAtAcceptablePoint ==> e.status
            == ApplicationReturnStatus::SolvedToAcceptableLevel,
        e.status == ApplicationReturnStatus::InfeasibleProblemDetected <==> r.solver_status
            == SolverReturn::LocalInfeasibility && (r.presolve_proof || !r.start_is_feasible),
        r.solver_status == SolverReturn::LocalInfeasibility && !r.presolve_proof && r.start_is_feasible
            ==> e.status == ApplicationReturnStatus::ErrorInStepComputation && e.solver_status
            == SolverReturn::ErrorInStepComputation,
        r.solver_status != SolverReturn::LocalInfeasibility ==> e.solver_status == r.solver_status,
        r.solver_status == SolverReturn::MaxiterExceeded ==> e.status
            == ApplicationReturnStatus::MaximumIterationsExceeded,
        r.solver_status == SolverReturn::CpuTimeExceeded ==> e.status
            == ApplicationReturnStatus::MaximumCpuTimeExceeded,
        r.solver_status == SolverReturn::WallTimeExceeded ==> e.status
            == ApplicationReturnStatus::MaximumWallTimeExceeded,
        r.solver_status == SolverReturn::RestorationFailure ==> e.status
            == ApplicationReturnStatus::RestorationFailed,
        e.deliver <==> measured(r),
        e.notify <==> e.status == ApplicationReturnStatus::SolveSucceeded || e.status
            == ApplicationReturnStatus::SolvedToAcceptableLevel,
{
}

/// The fidelity gate on a status by itself.
pub proof fn law_fidelity_gate(
    a: IpoptApplication,
    status: ApplicationReturnStatus,
    r: ApplicationReturnStatus,
)
    requires
        call_ensures(IpoptApplication::apply_kkt_fidelity_gate, (&a, status), r),
    ensures
        status != ApplicationReturnStatus::SolveSucceeded ==> r == status,
        status == ApplicationReturnStatus::SolveSucceeded ==> (r
            == ApplicationReturnStatus::SolvedToAcceptableLevel <==> (number_given(
            a.options@,
            "kkt_fidelity_tol"@,
        ) matches Some(v) && (Number { bits: D0 }).lt_spec(v) && v.lt_spec(
            a.statistics.final_unscaled_kkt_error,
        ))),
        status == ApplicationReturnStatus::SolveSucceeded ==> r
            == ApplicationReturnStatus::SolveSucceeded || r
            == ApplicationReturnStatus::SolvedToAcceptableLevel,
{
}

/// An SQP run is reported with its own numbers, no complementarity, and an error
/// that is the larger of its two residuals; its working set is kept.
pub proof fn law_sqp_run_is_reported(
    a: &mut IpoptApplication,
    r: SqpRecord,
    w: Option<WorkingSet>,
    s: (ApplicationReturnStatus, SolverReturn),
)
    requires
        call_ensures(IpoptApplication::conclude_sqp_run, (a, &r, w), s),
    ensures
        final(a).statistics.iteration_count == r.n_iter,
        final(a).statistics.sqp_qp_solves == r.n_qp_solves,
        final(a).statistics.sqp_qp_working_set_changes == r.n_qp_working_set_changes,
        final(a).statistics.final_objective == r.obj,
        final(a).statistics.final_scaled_objective == r.obj,
        final(a).statistics.final_dual_inf == r.final_stationarity,
        final(a).statistics.final_constr_viol == r.final_constr_viol,
        final(a).statistics.final_unscaled_dual_inf == r.final_stationarity,
        final(a).statistics.final_unscaled_constr_viol == r.final_constr_viol,
        final(a).statistics.final_compl.zero(),
        final(a).statistics.final_unscaled_compl.zero(),
        final(a).statistics.total_wallclock_time_secs == r.wallclock,
        r.final_stationarity.le_spec(r.final_constr_viol) ==> final(a).statistics.final_kkt_error.key() == r.final_constr_viol.key(),
        r.final_constr_viol.lt_spec(r.final_stationarity) ==> final(a).statistics.final_kkt_error
            == r.final_stationarity,
        final(a).statistics.final_unscaled_kkt_error == final(a).statistics.final_kkt_error,
        final(a).sqp_last_working_set == w,
        final(a).options == old(a).options,
        final(a).statistics.final_mu == old(a).statistics.final_mu,
{
}

/// The statuses of an SQP run: optimality is a success, unless the fidelity gate
/// holds it; infeasibility is claimed of a certified subproblem that the starting
/// point does not disprove; limits, unboundedness and bad numbers keep their names.
pub proof fn law_sqp_run_is_judged(
    a: &mut IpoptApplication,
    r: SqpRecord,
    w: Option<WorkingSet>,
    s: (ApplicationReturnStatus, SolverReturn),
)
    requires
        call_ensures(IpoptApplication::conclude_sqp_run, (a, &r, w), s),
    ensures
        s.0 == ApplicationReturnStatus::SolveSucceeded ==> r.status == SqpStatus::Optimal,
        r.status == SqpStatus::Optimal ==> s.1 == SolverReturn::Success,
        r.status == SqpStatus::Optimal && number_given(old(a).options@, "kkt_fidelity_tol"@) is None
            ==> s.0 == ApplicationReturnStatus::SolveSucceeded,
        s.0 == ApplicationReturnStatus::InfeasibleProblemDetected <==> r.status
            == SqpStatus::InfeasibleSubproblem && (r.presolve_proof || !r.start_is_feasible),
        r.status == SqpStatus::InfeasibleSubproblem && !r.presolve_proof && r.start_is_feasible
            ==> s.0 == ApplicationReturnStatus::ErrorInStepComputation && s.1
            == SolverReturn::ErrorInStepComputation,
        r.status == SqpStatus::MaxIter || r.status == SqpStatus::QpIterationLimit ==> s.0
            == ApplicationReturnStatus::MaximumIterationsExceeded && s.1
            == SolverReturn::MaxiterExceeded,
        r.status == SqpStatus::Unbounded ==> s.0 == ApplicationReturnStatus::DivergingIterates && s.1
            == SolverReturn::DivergingIterates,
        r.status == SqpStatus::InvalidNumber ==> s.0
            == ApplicationReturnStatus::InvalidNumberDetected && s.1
            == SolverReturn::InvalidNumberDetected,
        r.status == SqpStatus::LineSearchFailed || r.status == SqpStatus::QpStepFailed ==> s.0
            == ApplicationReturnStatus::SearchDirectionBecomesTooSmall && s.1
            == SolverReturn::ErrorInStepComputation,
{
}

/// The endings of the algorithm keep their meaning: two endings are told apart by
/// their statuses, but for the two internal ones, and each is told by its name.
pub proof fn law_statuses_tell_endings_apart(
    s: SolverReturn,
    r: ApplicationReturnStatus,
    t: SolverReturn,
    q: ApplicationReturnStatus,
)
    requires
        call_ensures(solver_return_to_app_status, (s,), r),
        call_ensures(solver_return_to_app_status, (t,), q),
    ensures
        r == q ==> s == t || r == ApplicationReturnStatus::InternalError,
        r == ApplicationReturnStatus::SolveSucceeded <==> s == SolverReturn::Success,
        r == ApplicationReturnStatus::SolvedToAcceptableLevel <==> s
            == SolverReturn::StopAtAcceptablePoint,
        r == ApplicationReturnStatus::FeasiblePointFound <==> s == SolverReturn::FeasiblePointFound,
        r == ApplicationReturnStatus::MaximumIterationsExceeded <==> s
            == SolverReturn::MaxiterExceeded,
        r == ApplicationReturnStatus::MaximumCpuTimeExceeded <==> s == SolverReturn::CpuTimeExceeded,
        r == ApplicationReturnStatus::MaximumWallTimeExceeded <==> s
            == SolverReturn::WallTimeExceeded,
        r == ApplicationReturnStatus::SearchDirectionBecomesTooSmall <==> s
            == SolverReturn::StopAtTinyStep,
        r == ApplicationReturnStatus::InfeasibleProblemDetected <==> s
            == SolverReturn::LocalInfeasibility,
        r == ApplicationReturnStatus::UserRequestedStop <==> s == SolverReturn::UserRequestedStop,
        r == ApplicationReturnStatus::DivergingIterates <==> s == SolverReturn::DivergingIterates,
        r == ApplicationReturnStatus::RestorationFailed <==> s == SolverReturn::RestorationFailure,
        r == ApplicationReturnStatus::ErrorInStepComputation <==> s
            == SolverReturn::ErrorInStepComputation,
        r == ApplicationReturnStatus::InvalidNumberDetected <==> s
            == SolverReturn::InvalidNumberDetected,
        r == ApplicationReturnStatus::NotEnoughDegreesOfFreedom <==> s
            == SolverReturn::TooFewDegreesOfFreedom,
        r == ApplicationReturnStatus::InvalidProblemDefinition <==> s
            == SolverReturn::InvalidProblemDefinition,
        r == ApplicationReturnStatus::InvalidOption <==> s == SolverReturn::InvalidOption,
        r == ApplicationReturnStatus::InsufficientMemory <==> s == SolverReturn::OutOfMemory,
{
}

/// Which statuses claim a solution, which call for the l1 penalty, and when a
/// claim of infeasibility is withdrawn.
pub proof fn law_statuses(
    s: ApplicationReturnStatus,
    solution: bool,
    trigger: bool,
    c: SolverReturn,
    proof_at_hand: bool,
    feasible: bool,
    kept: SolverReturn,
)
    requires
        call_ensures(is_solution_status, (s,), solution),
        call_ensures(is_l1_fallback_trigger, (s,), trigger),
        call_ensures(withdraw_infeasibility_if_refuted, (c, proof_at_hand, feasible), kept),
    ensures
        solution <==> s == ApplicationReturnStatus::SolveSucceeded || s
            == ApplicationReturnStatus::SolvedToAcceptableLevel,
        trigger <==> s == ApplicationReturnStatus::RestorationFailed || s
            == ApplicationReturnStatus::InfeasibleProblemDetected || s
            == ApplicationReturnStatus::SolvedToAcceptableLevel || s
            == ApplicationReturnStatus::MaximumIterationsExceeded || s
            == ApplicationReturnStatus::NotEnoughDegreesOfFreedom,
        kept == SolverReturn::LocalInfeasibility <==> c == SolverReturn::LocalInfeasibility && (
        proof_at_hand || !feasible),
        c == SolverReturn::LocalInfeasibility && kept != c ==> kept
            == SolverReturn::ErrorInStepComputation,
        c != SolverReturn::LocalInfeasibility ==> kept == c,
{
}

/// A solution is delivered as it is, with zeros for multipliers that are missing;
/// it is the last one delivered, and an interior-point one sets the objective.
pub proof fn law_delivery(
    a: &mut IpoptApplication,
    d: Delivery,
    interior_point: bool,
    r: FinalizeSnapshot,
)
    requires
        call_ensures(IpoptApplication::record_delivery, (a, d, interior_point), r),
    ensures
        r.status == d.status,
        r.x@ == d.x@,
        r.g@ == d.g@,
        d.z_l.len() > 0 ==> r.z_l@ == d.z_l@,
        d.z_u.len() > 0 ==> r.z_u@ == d.z_u@,
        d.lambda.len() > 0 ==> r.lambda@ == d.lambda@,
        d.z_l.len() == 0 ==> r.z_l@.len() == d.n && forall|i: int|
            0 <= i < d.n ==> (#[trigger] r.z_l@[i]) == (Number { bits: D0 }),
        d.z_u.len() == 0 ==> r.z_u@.len() == d.n && forall|i: int|
            0 <= i < d.n ==> (#[trigger] r.z_u@[i]) == (Number { bits: D0 }),
        d.lambda.len() == 0 ==> r.lambda@.len() == d.m && forall|i: int|
            0 <= i < d.m ==> (#[trigger] r.lambda@[i]) == (Number { bits: D0 }),
        d.objective matches Some(f) ==> r.obj_value == f,
        d.objective is None ==> r.obj_value.nan(),
        final(a).last_finalize matches Some(k) && k.status == r.status && k.x@ == r.x@ && k.z_l@
            == r.z_l@ && k.z_u@ == r.z_u@ && k.g@ == r.g@ && k.lambda@ == r.lambda@ && k.obj_value
            == r.obj_value,
        interior_point ==> final(a).statistics.final_objective == r.obj_value,
        !interior_point ==> final(a).statistics == old(a).statistics,
        final(a).statistics.final_scaled_objective == old(a).statistics.final_scaled_objective,
        final(a).options == old(a).options,
{
}

/// The evaluations are counted under their own names; the two blocks of rows are
/// evaluated together, so the larger count is the number of calls.
pub proof fn law_evaluations(a: &mut IpoptApplication, c: [i32; 7])
    requires
        call_ensures(IpoptApplication::record_eval_counts, (a, c), ()),
    ensures
        final(a).statistics.num_obj_evals == c@[0],
        final(a).statistics.num_obj_grad_evals == c@[1],
        final(a).statistics.num_constr_evals >= c@[2],
        final(a).statistics.num_constr_evals >= c@[3],
        final(a).statistics.num_constr_evals == c@[2] || final(a).statistics.num_constr_evals
            == c@[3],
        final(a).statistics.num_constr_jac_evals >= c@[4],
        final(a).statistics.num_constr_jac_evals >= c@[5],
        final(a).statistics.num_constr_jac_evals == c@[4] || final(a).statistics.num_constr_jac_evals == c@[5],
        final(a).statistics.num_hess_evals == c@[6],
        final(a).statistics.final_objective == old(a).statistics.final_objective,
        final(a).statistics.iteration_count == old(a).statistics.iteration_count,
        final(a).options == old(a).options,
{
}

/// A crossover runs on a converged run alone, where it is switched on, and starts
/// without a report; what it did is reported, and an accepted one leaves its
/// working set.
pub proof fn law_crossover(
    a: &mut IpoptApplication,
    status: SolverReturn,
    runs: bool,
    z: &mut IpoptApplication,
    report: CrossoverReport,
    w: Option<WorkingSet>,
)
    requires
        call_ensures(IpoptApplication::begin_crossover, (a, status), runs),
        call_ensures(IpoptApplication::record_crossover, (z, report, w), ()),
    ensures
        runs <==> answer_given(old(a).options@, "crossover"@) == Some(true) && (status
            == SolverReturn::Success || status == SolverReturn::StopAtAcceptablePoint),
        final(a).crossover_report is None,
        final(a).statistics == old(a).statistics,
        final(z).crossover_report == Some(report),
        report.accepted ==> final(z).sqp_last_working_set == w,
        !report.accepted ==> final(z).sqp_last_working_set == old(z).sqp_last_working_set,
        final(z).statistics == old(z).statistics,
{
    lemma_yes_is_not_no();
}

/// A solve and each of its runs begin without what the ones before left behind,
/// and keep what the caller installed.
pub proof fn law_fresh_starts(
    a: &mut IpoptApplication,
    z: &mut IpoptApplication,
    q: &mut IpoptApplication,
)
    requires
        call_ensures(IpoptApplication::reset_for_solve, (a,), ()),
        call_ensures(IpoptApplication::begin_constrained, (z,), ()),
        call_ensures(IpoptApplication::count_quality_escalation, (q,), ()),
    ensures
        !final(a).dual_divergence_signature,
        !final(a).dual_divergence_retry_promoted,
        !final(a).answer_restored_from_floor,
        final(a).sqp_last_working_set is None,
        final(a).crossover_report is None,
        final(a).options == old(a).options,
        final(a).sqp_warm_start == old(a).sqp_warm_start,
        final(a).warm_start_iterate == old(a).warm_start_iterate,
        final(a).external_ordering == old(a).external_ordering,
        final(a).kkt_schur_block == old(a).kkt_schur_block,
        final(a).record_iter_history == old(a).record_iter_history,
        final(z).row_scaling_active is None,
        final(z).crossover_report is None,
        final(z).quality_escalations == 0,
        final(z).dual_divergence_signature == old(z).dual_divergence_signature,
        final(z).options == old(z).options,
        final(z).statistics == old(z).statistics,
        old(q).quality_escalations < u64::MAX ==> final(q).quality_escalations
            == old(q).quality_escalations + 1,
{
}

/// An iterate that is kept for the next solve is handed out once, and only to a
/// problem whose eight blocks have its dimensions.
pub proof fn law_kept_iterate_is_handed_out(
    a: &mut IpoptApplication,
    fresh: IteratesVector,
    r: Option<IterateSnapshot>,
)
    requires
        call_ensures(IpoptApplication::take_warm_start_iterate, (a, &fresh), r),
    ensures
        final(a).warm_start_iterate is None,
        old(a).warm_start_iterate is None ==> r is None,
        r is Some ==> r == old(a).warm_start_iterate,
        r matches Some(k) ==> {
            &&& k.iterates.x.len() == fresh.x.len()
            &&& k.iterates.s.len() == fresh.s.len()
            &&& k.iterates.y_c.len() == fresh.y_c.len()
            &&& k.iterates.y_d.len() == fresh.y_d.len()
            &&& k.iterates.z_l.len() == fresh.z_l.len()
            &&& k.iterates.z_u.len() == fresh.z_u.len()
            &&& k.iterates.v_l.len() == fresh.v_l.len()
            &&& k.iterates.v_u.len() == fresh.v_u.len()
        },
        old(a).warm_start_iterate matches Some(k) ==> k.iterates.x.len() == fresh.x.len()
            && k.iterates.s.len() == fresh.s.len() && k.iterates.y_c.len() == fresh.y_c.len()
            && k.iterates.y_d.len() == fresh.y_d.len() && k.iterates.z_l.len() == fresh.z_l.len()
            && k.iterates.z_u.len() == fresh.z_u.len() && k.iterates.v_l.len() == fresh.v_l.len()
            && k.iterates.v_u.len() == fresh.v_u.len() ==> r == Some(k),
{
    if let Some(k) = old(a).warm_start_iterate {
        let d = k.iterates.dims();
        let f = fresh.dims();
        if d == f {
            assert(d[0] == f[0] && d[1] == f[1] && d[2] == f[2] && d[3] == f[3] && d[4] == f[4]
                && d[5] == f[5] && d[6] == f[6] && d[7] == f[7]);
        } else {
            assert(!(d =~= f));
        }
    }
}

/// What is installed on an application is what it holds until it is cleared.
pub proof fn law_installed_things(
    a: &mut IpoptApplication,
    perm: Vec<usize>,
    b: &mut IpoptApplication,
    block: Vec<usize>,
    c: &mut IpoptApplication,
    warm: SqpIterates,
    d: &mut IpoptApplication,
    taken: Option<SqpIterates>,
    e: &mut IpoptApplication,
    snap: IterateSnapshot,
    f: &mut IpoptApplication,
    g: &mut IpoptApplication,
    h: &mut IpoptApplication,
)
    requires
        call_ensures(IpoptApplication::set_external_ordering, (a, perm), ()),
        call_ensures(IpoptApplication::set_kkt_schur_block, (b, block), ()),
        call_ensures(IpoptApplication::set_sqp_warm_start, (c, warm), ()),
        call_ensures(IpoptApplication::take_sqp_warm_start, (d,), taken),
        call_ensures(IpoptApplication::set_warm_start_iterate, (e, snap), ()),
        call_ensures(IpoptApplication::clear_external_ordering, (f,), ()),
        call_ensures(IpoptApplication::clear_kkt_schur_block, (g,), ()),
        call_ensures(IpoptApplication::clear_sqp_warm_start, (h,), ()),
    ensures
        final(a).external_ordering == Some(perm),
        final(a).options == old(a).options,
        final(b).kkt_schur_block == Some(block),
        final(b).options == old(b).options,
        final(c).sqp_warm_start == Some(warm),
        taken == old(d).sqp_warm_start,
        final(d).sqp_warm_start is None,
        final(e).warm_start_iterate == Some(snap),
        final(f).external_ordering is None,
        final(g).kkt_schur_block is None,
        final(h).sqp_warm_start is None,
{
}

} // verus!
