//! One interior-point or SQP solve: what it is given, and what is made of its
//! outcome.
use crate::alg_builder::AlgorithmBuilder;
use crate::alg_builder::AlgorithmChoice;
use crate::alg_builder::FdPatternSource;
use crate::alg_builder::HessianApproxChoice;
use crate::alg_builder::LinearSolverChoice;
use crate::alg_builder::LinearSystemScalingChoice;
use crate::application::CrossoverReport;
use crate::application::IpoptApplication;
use crate::application::WorkingSet;
use crate::assembly::copy_indices;
use crate::assembly::SqpAlgorithm;
use crate::decimal::D0;
use crate::decimal::D1;
use crate::decimal::D1E19;
use crate::decimal::D1E2;
use crate::decimal::D1EM4;
use crate::decimal::D1EM8;
use crate::decimal::DM1E19;
use crate::feral::feral_config_from_options;
use crate::feral::feral_config_of;
use crate::feral::FeralConfig;
use crate::feral::FeralSurroundings;
use crate::from_options::configured;
use crate::iterates::or_zeros;
use crate::iterates::same_dims;
use crate::iterates::IterateSnapshot;
use crate::iterates::IteratesVector;
use crate::number::Number;
use crate::number::QUIET_NAN;
use crate::options::integer_or;
use crate::options::integer_set;
use crate::options::numeric_or;
use crate::options::numeric_set;
use crate::options::switch_or;
use crate::options::text_set;
use crate::options::OptionsView;
use crate::sqp_options::qp_over;
use crate::sqp_options::sqp_over;
use crate::sqp_options::QpOptions;
use crate::sqp_options::SqpOptions;
use crate::statistics::FinalizeSnapshot;
use crate::statistics::IterRecord;
use crate::statistics::SolveStatistics;
use crate::status::app_status_of;
use crate::status::claims_solution;
use crate::status::is_solution_status;
use crate::status::solver_return_to_app_status;
use crate::status::sqp_statuses;
use crate::status::sqp_statuses_of;
use crate::status::unrefuted;
use crate::status::withdraw_infeasibility_if_refuted;
use crate::status::ApplicationReturnStatus;
use crate::status::SolverReturn;
use crate::status::SqpStatus;
use crate::text::same;
use vstd::prelude::*;

verus! {

/// What becomes of variables whose bounds coincide.
#[derive(Clone, Copy, Debug, PartialEq, Eq, Structural)]
pub enum FixedVarTreatment {
    MakeParameter,
    RelaxBounds,
}

/// How the model is scaled.
#[derive(Clone, Copy, Debug, PartialEq, Eq, Structural)]
pub enum NlpScaling {
    Off,
    GradientBased,
    /// By factors that the model gives.
    UserScaling,
}

/// What the options say of a solve, beside the builder.
#[derive(Clone, Copy, Debug, PartialEq, Eq, Structural)]
pub struct SolvePlan {
    pub print_user_options: bool,
    /// Time the parts of the solve.
    pub detailed_timing: bool,
    pub print_timing: bool,
    /// Print to the console.
    pub console_output: bool,
    pub lower_bound_inf: Number,
    pub upper_bound_inf: Number,
    pub fixed_treatment: FixedVarTreatment,
    /// Negative for a maximization.
    pub obj_scaling_factor: Number,
    pub bound_relax_factor: Number,
    pub constr_viol_tol: Number,
    pub honor_original_bounds: bool,
    pub scaling_method: NlpScaling,
    pub max_gradient: Number,
    pub min_value: Number,
    pub obj_target_gradient: Number,
    pub constr_target_gradient: Number,
    pub num_linear_variables: i32,
    /// Unset: the calculated quantities keep their own value.
    pub slack_move: Option<Number>,
    pub max_iter: i32,
    pub tol: Number,
}

/// Something is printed unless the print level is set below 1.
pub open spec fn console_output_of(o: OptionsView) -> bool {
    match integer_set(o, "print_level"@) {
        Some(v) => v >= 1,
        None => true,
    }
}

/// What becomes of variables whose bounds coincide.
pub open spec fn fixed_treatment_of(o: OptionsView) -> FixedVarTreatment {
    if text_set(o, "fixed_variable_treatment"@) == Some("relax_bounds"@) {
        FixedVarTreatment::RelaxBounds
    } else {
        FixedVarTreatment::MakeParameter
    }
}

/// The model gives the factors: user scaling, or curvature-based scaling, which
/// hands them in the same way.
pub open spec fn model_gives_factors(o: OptionsView) -> bool {
    match text_set(o, "nlp_scaling_method"@) {
        Some(t) => t == "user-scaling"@ || t == "curvature-based"@,
        None => false,
    }
}

/// How the model is scaled; by its gradients unless the caller says otherwise.
pub open spec fn scaling_method_of(o: OptionsView) -> NlpScaling {
    if model_gives_factors(o) {
        NlpScaling::UserScaling
    } else if text_set(o, "nlp_scaling_method"@) == Some("none"@) {
        NlpScaling::Off
    } else {
        NlpScaling::GradientBased
    }
}

/// What the options say of a solve.
pub open spec fn plan_of(o: OptionsView) -> SolvePlan {
    SolvePlan {
        print_user_options: switch_or(o, "print_user_options"@, false),
        detailed_timing: (switch_or(o, "timing_statistics"@, false) || switch_or(
            o,
            "print_timing_statistics"@,
            false,
        )),
        print_timing: switch_or(o, "print_timing_statistics"@, false),
        console_output: console_output_of(o),
        lower_bound_inf: numeric_or(o, "nlp_lower_bound_inf"@, Number { bits: DM1E19 }),
        upper_bound_inf: numeric_or(o, "nlp_upper_bound_inf"@, Number { bits: D1E19 }),
        fixed_treatment: fixed_treatment_of(o),
        obj_scaling_factor: numeric_or(o, "obj_scaling_factor"@, Number { bits: D1 }),
        bound_relax_factor: numeric_or(o, "bound_relax_factor"@, Number { bits: D1EM8 }),
        constr_viol_tol: numeric_or(o, "constr_viol_tol"@, Number { bits: D1EM4 }),
        honor_original_bounds: switch_or(o, "honor_original_bounds"@, false),
        scaling_method: scaling_method_of(o),
        max_gradient: numeric_or(o, "nlp_scaling_max_gradient"@, Number { bits: D1E2 }),
        min_value: numeric_or(o, "nlp_scaling_min_value"@, Number { bits: D1EM8 }),
        obj_target_gradient: numeric_or(o, "nlp_scaling_obj_target_gradient"@, Number { bits: D0 }),
        constr_target_gradient: numeric_or(o, "nlp_scaling_constr_target_gradient"@, Number { bits: D0 }),
        num_linear_variables: integer_or(o, "num_linear_variables"@, 0),
        slack_move: numeric_set(o, "slack_move"@),
        max_iter: integer_or(o, "max_iter"@, 3000),
        tol: numeric_or(o, "tol"@, Number { bits: D1EM8 }),
    }
}

/// There are fewer free variables than equality rows.
pub open spec fn too_few_degrees(n_x_var: i32, n_c: i32) -> bool {
    0 < n_x_var < n_c
}

/// Whether there are fewer free variables than equality rows.
pub fn lacks_degrees_of_freedom(n_x_var: i32, n_c: i32) -> (r: bool)
    ensures
        r == too_few_degrees(n_x_var, n_c),
{
    n_x_var > 0 && n_x_var < n_c
}

/// Why a run could not begin.
#[derive(Clone, Copy, Debug, PartialEq, Eq, Structural)]
pub enum SetupFailure {
    /// The model gives no usable dimensions or bounds.
    Model,
    /// The problem could not be put into the solver's form.
    Problem,
    /// There are fewer free variables than equality rows; whether the rows are
    /// proved inconsistent.
    Overdetermined { certified_infeasible: bool },
    /// The list of nonlinear variables does not fit the model.
    NonlinearVariables,
    /// The driver broke off without an outcome.
    Driver,
}

/// The status with which such a solve ends.
pub open spec fn setup_status(f: SetupFailure) -> ApplicationReturnStatus {
    match f {
        SetupFailure::Model => ApplicationReturnStatus::InvalidProblemDefinition,
        SetupFailure::Problem => ApplicationReturnStatus::InternalError,
        SetupFailure::Overdetermined { certified_infeasible } => if certified_infeasible {
            ApplicationReturnStatus::InfeasibleProblemDetected
        } else {
            ApplicationReturnStatus::NotEnoughDegreesOfFreedom
        },
        SetupFailure::NonlinearVariables => ApplicationReturnStatus::InvalidProblemDefinition,
        SetupFailure::Driver => ApplicationReturnStatus::InternalError,
    }
}

impl SetupFailure {
    /// The status with which such a solve ends.
    pub fn status(self) -> (r: ApplicationReturnStatus)
        ensures
            r == setup_status(self),
    {
        match self {
            SetupFailure::Model => ApplicationReturnStatus::InvalidProblemDefinition,
            SetupFailure::Problem => ApplicationReturnStatus::InternalError,
            SetupFailure::Overdetermined { certified_infeasible } => {
                if certified_infeasible {
                    ApplicationReturnStatus::InfeasibleProblemDetected
                } else {
                    ApplicationReturnStatus::NotEnoughDegreesOfFreedom
                }
            },
            SetupFailure::NonlinearVariables => ApplicationReturnStatus::InvalidProblemDefinition,
            SetupFailure::Driver => ApplicationReturnStatus::InternalError,
        }
    }
}

/// What a run is built from.
#[derive(Debug)]
pub struct ConstrainedSetup {
    pub builder: AlgorithmBuilder,
    pub feral: FeralConfig,
    /// An ordering that replaces the one in the configuration.
    pub ordering: Option<Vec<usize>>,
}

/// The run is built from what the application holds.
pub open spec fn sets_up(
    a: IpoptApplication,
    surroundings: FeralSurroundings,
    r: ConstrainedSetup,
) -> bool {
    &&& r.feral == feral_config_of(a.options@, surroundings)
    &&& configured(
        a.options@,
        a.ma57_available,
        AlgorithmBuilder { kkt_schur: None, ..r.builder },
    )
    &&& match a.kkt_schur_block {
        Some(indices) => r.builder.kkt_schur matches Some((i, c)) && i@ == indices@ && c == r.feral,
        None => r.builder.kkt_schur is None,
    }
    &&& match a.external_ordering {
        Some(perm) => r.ordering matches Some(o) && o@ == perm@,
        None => r.ordering is None,
    }
}

/// What a Hessian approximation asks the model about its nonlinear variables.
#[derive(Clone, Copy, Debug, PartialEq, Eq, Structural)]
pub struct NonlinearQueries {
    /// Those of the objective.
    pub objective: bool,
    /// Those that curvature is kept for.
    pub curvature: bool,
}

/// What a Hessian approximation asks the model about its nonlinear variables.
pub fn nonlinear_queries(h: HessianApproxChoice) -> (r: NonlinearQueries)
    ensures
        r.objective == (h == HessianApproxChoice::Partitioned || h
            == HessianApproxChoice::FiniteDifference),
        r.curvature == (h == HessianApproxChoice::LimitedMemory || h
            == HessianApproxChoice::FiniteDifference),
{
    match h {
        HessianApproxChoice::Exact => NonlinearQueries { objective: false, curvature: false },
        HessianApproxChoice::LimitedMemory => {
            NonlinearQueries { objective: false, curvature: true }
        },
        HessianApproxChoice::Partitioned => NonlinearQueries { objective: true, curvature: false },
        HessianApproxChoice::FiniteDifference => {
            NonlinearQueries { objective: true, curvature: true }
        },
    }
}

/// A count, a negative one as 0.
pub open spec fn count_of(v: i32) -> usize {
    if v > 0 {
        v as usize
    } else {
        0
    }
}

/// A count where there is one.
pub open spec fn optional_count(v: Option<i32>) -> Option<usize> {
    match v {
        Some(x) => Some(count_of(x)),
        None => None,
    }
}

fn to_count(v: i32) -> (r: usize)
    ensures
        r == count_of(v),
{
    if v > 0 {
        v as usize
    } else {
        0
    }
}

fn to_optional_count(v: Option<i32>) -> (r: Option<usize>)
    ensures
        r == optional_count(v),
{
    match v {
        Some(x) => Some(to_count(x)),
        None => None,
    }
}

/// What the main loop is given beside its strategies.
#[derive(Clone, Copy, Debug, PartialEq, Eq, Structural)]
pub struct AlgorithmKnobs {
    pub max_iter: i32,
    pub kappa_sigma: Number,
    pub kappa_d: Number,
    pub s_max: Number,
    pub slack_based_scaling: bool,
    pub recalc_y: bool,
    pub recalc_y_feas_tol: Number,
    pub start_with_resto: Option<bool>,
    pub tiny_step_tol: Number,
    pub tiny_step_y_tol: Number,
    pub diverging_iterates_tol: Number,
    pub dual_diverging_streak: usize,
    pub dual_divergence_retry_step_tol: Option<Number>,
    pub dual_divergence_retry_du_floor: Number,
    pub resto_decline_deferrals: Option<usize>,
    pub resto_decline_progress_ratio: Option<Number>,
    pub neg_curv_escapes: Option<usize>,
    pub lbfgs_ls_failure_restarts: Option<usize>,
    pub kkt_fidelity_tol: Number,
    pub max_wall_time: Number,
    pub max_cpu_time: Number,
    pub print_iter_output: bool,
}

/// What the main loop is given beside its strategies.
pub open spec fn knobs_of(b: AlgorithmBuilder, plan: SolvePlan) -> AlgorithmKnobs {
    AlgorithmKnobs {
        max_iter: plan.max_iter,
        kappa_sigma: b.kappa_sigma,
        kappa_d: b.kappa_d,
        s_max: b.s_max,
        slack_based_scaling: (b.linear_system_scaling == LinearSystemScalingChoice::SlackBased),
        recalc_y: b.recalc_y,
        recalc_y_feas_tol: b.recalc_y_feas_tol,
        start_with_resto: b.resto.start_with_resto,
        tiny_step_tol: b.tiny_step_tol,
        tiny_step_y_tol: b.tiny_step_y_tol,
        diverging_iterates_tol: b.diverging_iterates_tol,
        dual_diverging_streak: count_of(b.dual_diverging_streak),
        dual_divergence_retry_step_tol: b.dual_divergence_retry_step_tol,
        dual_divergence_retry_du_floor: b.dual_divergence_retry_du_floor,
        resto_decline_deferrals: optional_count(b.resto_decline_deferrals),
        resto_decline_progress_ratio: b.resto_decline_progress_ratio,
        neg_curv_escapes: optional_count(b.neg_curv_escapes),
        lbfgs_ls_failure_restarts: optional_count(b.limited_memory_ls_failure_restarts),
        kkt_fidelity_tol: b.kkt_fidelity_tol,
        max_wall_time: b.conv_check.max_wall_time,
        max_cpu_time: b.conv_check.max_cpu_time,
        print_iter_output: plan.console_output,
    }
}

/// What the main loop is given beside its strategies.
pub fn algorithm_knobs(b: &AlgorithmBuilder, plan: &SolvePlan) -> (r: AlgorithmKnobs)
    ensures
        r == knobs_of(*b, *plan),
{
    AlgorithmKnobs {
        max_iter: plan.max_iter,
        kappa_sigma: b.kappa_sigma,
        kappa_d: b.kappa_d,
        s_max: b.s_max,
        slack_based_scaling: b.linear_system_scaling == LinearSystemScalingChoice::SlackBased,
        recalc_y: b.recalc_y,
        recalc_y_feas_tol: b.recalc_y_feas_tol,
        start_with_resto: b.resto.start_with_resto,
        tiny_step_tol: b.tiny_step_tol,
        tiny_step_y_tol: b.tiny_step_y_tol,
        diverging_iterates_tol: b.diverging_iterates_tol,
        dual_diverging_streak: to_count(b.dual_diverging_streak),
        dual_divergence_retry_step_tol: b.dual_divergence_retry_step_tol,
        dual_divergence_retry_du_floor: b.dual_divergence_retry_du_floor,
        resto_decline_deferrals: to_optional_count(b.resto_decline_deferrals),
        resto_decline_progress_ratio: b.resto_decline_progress_ratio,
        neg_curv_escapes: to_optional_count(b.neg_curv_escapes),
        lbfgs_ls_failure_restarts: to_optional_count(b.limited_memory_ls_failure_restarts),
        kkt_fidelity_tol: b.kkt_fidelity_tol,
        max_wall_time: b.conv_check.max_wall_time,
        max_cpu_time: b.conv_check.max_cpu_time,
        print_iter_output: plan.console_output,
    }
}

/// What a finite-difference Hessian did.
#[derive(Clone, Copy, Debug, PartialEq, Eq, Structural)]
pub struct FdCensus {
    pub pattern_used: Option<FdPatternSource>,
    pub nnz: i32,
    pub n: i32,
    pub groups: i32,
    pub rho_max: i32,
    pub coloring_fell_back: bool,
    pub objective_clique_widened: bool,
}

/// What is measured at the last iterate.
#[derive(Clone, Copy, Debug, PartialEq, Eq, Structural)]
pub struct FinalMeasures {
    /// The scaled objective, where it could be evaluated.
    pub scaled_objective: Option<Number>,
    pub dual_inf: Number,
    pub constr_viol: Number,
    /// The violation of the bounds as declared.
    pub declared_constr_viol: Number,
    pub declared_box_viol: Number,
    /// The largest complementarity product of each of the four bound blocks.
    pub compl_x_l: Number,
    pub compl_x_u: Number,
    pub compl_s_l: Number,
    pub compl_s_u: Number,
    pub nlp_error: Number,
    pub nlp_error_above_noise: Number,
    pub unscaled_dual_inf: Number,
    pub unscaled_constr_viol: Number,
    pub unscaled_compl: Number,
    pub unscaled_nlp_error: Number,
    /// Some constraint row was scaled.
    pub rows_scaled: bool,
    /// The errors with the complementarity of the crossover in place of the
    /// measured one; read only where a crossover was accepted.
    pub crossover_nlp_error: Number,
    pub crossover_nlp_error_above_noise: Number,
    /// The objective scale; read only where a crossover was accepted.
    pub objective_scale: Number,
}

/// How an interior-point run ended.
#[derive(Clone, Copy, Debug, PartialEq, Eq, Structural)]
pub struct RunRecord {
    pub solver_status: SolverReturn,
    pub iter_count: i32,
    pub mu: Number,
    pub wallclock: Number,
    pub fd: Option<FdCensus>,
    pub resto_calls: i32,
    pub resto_inner_iters: i32,
    pub resto_outer_iters: i32,
    pub resto_wall_secs: Number,
    /// The run saw its multipliers run away.
    pub dual_divergence_signature: bool,
    pub measures: FinalMeasures,
    /// Bounds were widened before the run.
    pub bound_relax_factor: Number,
    /// Presolve has proved the model infeasible.
    pub presolve_proof: bool,
    /// The model's starting point satisfies every constraint.
    pub start_is_feasible: bool,
}

/// The crossover whose point is reported: accepted, with a complementarity that
/// can be reported.
pub open spec fn reported_crossover(a: IpoptApplication) -> Option<CrossoverReport> {
    match a.crossover_report {
        Some(r) => if r.accepted && r.compl_after.finite() {
            Some(r)
        } else {
            None
        },
        None => None,
    }
}

/// The code of a pattern source in the statistics.
pub open spec fn pattern_code(p: Option<FdPatternSource>) -> i32 {
    match p {
        Some(FdPatternSource::Declared) => 0i32,
        Some(FdPatternSource::Jacobian) => 1i32,
        None => -1i32,
    }
}

/// The trajectory that is kept of a run: what it recorded where the caller asked
/// for it, and none otherwise.
pub open spec fn kept_trajectory(
    a: IpoptApplication,
    iterations: Vec<IterRecord>,
) -> Option<Vec<IterRecord>> {
    if a.record_iter_history {
        Some(iterations)
    } else {
        None
    }
}

/// The statistics with what the run spent.
pub open spec fn with_run_cost(
    a: IpoptApplication,
    r: RunRecord,
    kept: Option<Vec<IterRecord>>,
) -> SolveStatistics {
    let seen = a.dual_divergence_signature || r.dual_divergence_signature;
    let base = SolveStatistics {
        iteration_count: r.iter_count,
        final_mu: r.mu,
        total_wallclock_time_secs: r.wallclock,
        restoration_calls: r.resto_calls,
        restoration_inner_iters: r.resto_inner_iters,
        restoration_outer_iters: r.resto_outer_iters,
        restoration_wall_secs: r.resto_wall_secs,
        quality_escalations: a.quality_escalations as i32,
        dual_divergence_signature: seen,
        dual_divergence_retry_promoted: a.dual_divergence_retry_promoted,
        iterations: kept,
        ..a.statistics
    };
    match r.fd {
        Some(fd) => SolveStatistics {
            fd_hessian_pattern_used: pattern_code(fd.pattern_used),
            fd_hessian_nnz: fd.nnz,
            fd_hessian_n: fd.n,
            fd_hessian_groups: fd.groups,
            fd_hessian_rho_max: fd.rho_max,
            fd_hessian_coloring_fell_back: fd.coloring_fell_back,
            fd_hessian_objective_clique_widened: fd.objective_clique_widened,
            ..base
        },
        None => base,
    }
}

/// The largest of the four complementarity products.
pub open spec fn largest_compl(m: FinalMeasures) -> Number {
    m.compl_x_l.max_spec(m.compl_x_u).max_spec(m.compl_s_l).max_spec(m.compl_s_u)
}

/// The complementarity of a crossover without the objective scale, whose
/// magnitude is divided out unless it is 0 or 1.
pub open spec fn crossover_unscaled_compl(m: FinalMeasures, report: CrossoverReport) -> Number {
    let df = m.objective_scale.abs_spec();
    if !df.nan() && (df.key() == (Number { bits: D0 }).key() || df.key() == (Number {
        bits: D1,
    }).key()) {
        report.compl_after
    } else {
        report.compl_after.over_spec(df)
    }
}

/// The statistics with what was measured. An accepted crossover is reported
/// with its own complementarity, against the bounds as declared.
pub open spec fn with_measures(
    s: SolveStatistics,
    m: FinalMeasures,
    bound_relax_factor: Number,
    crossover: Option<CrossoverReport>,
) -> SolveStatistics {
    let measured = SolveStatistics {
        final_objective: match m.scaled_objective {
            Some(f) => f,
            None => s.final_objective,
        },
        final_scaled_objective: match m.scaled_objective {
            Some(f) => f,
            None => s.final_scaled_objective,
        },
        final_dual_inf: m.dual_inf,
        final_constr_viol: m.constr_viol,
        final_declared_constr_viol: if (Number { bits: D0 }).lt_spec(bound_relax_factor) {
            m.declared_constr_viol
        } else {
            Number { bits: QUIET_NAN }
        },
        final_declared_box_viol: m.declared_box_viol,
        final_compl: largest_compl(m),
        final_kkt_error: m.nlp_error,
        final_kkt_error_above_noise: m.nlp_error_above_noise,
        final_unscaled_dual_inf: m.unscaled_dual_inf,
        final_unscaled_constr_viol: m.unscaled_constr_viol,
        final_unscaled_compl: m.unscaled_compl,
        final_unscaled_kkt_error: m.unscaled_nlp_error,
        ..s
    };
    match crossover {
        Some(report) => SolveStatistics {
            final_compl: report.compl_after,
            final_kkt_error: m.crossover_nlp_error,
            final_kkt_error_above_noise: m.crossover_nlp_error_above_noise,
            final_unscaled_compl: crossover_unscaled_compl(m, report),
            final_unscaled_kkt_error: m.unscaled_dual_inf.max_spec(
                m.unscaled_constr_viol,
            ).max_spec(crossover_unscaled_compl(m, report)),
            ..measured
        },
        None => measured,
    }
}

/// The application after an interior-point run of which this trajectory is kept.
/// A run that refused its starting point has nothing to measure.
pub open spec fn after_run(
    a: IpoptApplication,
    r: RunRecord,
    kept: Option<Vec<IterRecord>>,
) -> IpoptApplication {
    let seen = a.dual_divergence_signature || r.dual_divergence_signature;
    let spent = with_run_cost(a, r, kept);
    if r.solver_status == SolverReturn::InvalidProblemDefinition {
        IpoptApplication { statistics: spent, dual_divergence_signature: seen, ..a }
    } else {
        IpoptApplication {
            statistics: with_measures(
                spent,
                r.measures,
                r.bound_relax_factor,
                reported_crossover(a),
            ),
            dual_divergence_signature: seen,
            row_scaling_active: Some(r.measures.rows_scaled),
            ..a
        }
    }
}

/// The status after the fidelity gate: a success whose unscaled error exceeds
/// the tolerance that the caller set is one at the acceptable level only.
pub open spec fn gated(
    o: OptionsView,
    s: SolveStatistics,
    status: ApplicationReturnStatus,
) -> ApplicationReturnStatus {
    match numeric_set(o, "kkt_fidelity_tol"@) {
        Some(tol) => if status == ApplicationReturnStatus::SolveSucceeded && (Number {
            bits: D0,
        }).lt_spec(tol) && tol.lt_spec(s.final_unscaled_kkt_error) {
            ApplicationReturnStatus::SolvedToAcceptableLevel
        } else {
            status
        },
        None => status,
    }
}

/// What follows an interior-point run.
#[derive(Clone, Copy, Debug, PartialEq, Eq, Structural)]
pub struct RunEnding {
    /// What is reported.
    pub status: ApplicationReturnStatus,
    /// What the solution is delivered under.
    pub solver_status: SolverReturn,
    /// The observer of converged runs is told.
    pub notify: bool,
    /// There is a solution to deliver.
    pub deliver: bool,
}

/// What follows an interior-point run: a claim of infeasibility that the
/// starting point disproves is withdrawn, a success passes the fidelity gate,
/// and a run that refused its starting point has no solution.
pub open spec fn ending_of(a: IpoptApplication, r: RunRecord) -> RunEnding {
    let solver_status = unrefuted(r.solver_status, r.presolve_proof, r.start_is_feasible);
    let status = gated(
        a.options@,
        after_run(a, r, None).statistics,
        app_status_of(solver_status),
    );
    RunEnding {
        status,
        solver_status,
        notify: claims_solution(status),
        deliver: solver_status != SolverReturn::InvalidProblemDefinition,
    }
}

/// How an SQP run ended.
#[derive(Clone, Copy, Debug, PartialEq, Eq, Structural)]
pub struct SqpRecord {
    pub status: SqpStatus,
    pub n_iter: i32,
    pub n_qp_solves: i32,
    pub n_qp_working_set_changes: i32,
    pub obj: Number,
    pub final_stationarity: Number,
    pub final_constr_viol: Number,
    pub wallclock: Number,
    /// Presolve has proved the model infeasible.
    pub presolve_proof: bool,
    /// The model's starting point satisfies every constraint.
    pub start_is_feasible: bool,
}

/// The statistics of an SQP run, which has no barrier and scales nothing. It
/// measures no barrier parameter, no error above the rounding noise and no
/// violation of the bounds as declared.
pub open spec fn with_sqp_run(s: SolveStatistics, r: SqpRecord) -> SolveStatistics {
    let error = r.final_stationarity.max_spec(r.final_constr_viol);
    SolveStatistics {
        iteration_count: r.n_iter,
        sqp_qp_solves: r.n_qp_solves,
        sqp_qp_working_set_changes: r.n_qp_working_set_changes,
        final_objective: r.obj,
        final_scaled_objective: r.obj,
        final_dual_inf: r.final_stationarity,
        final_constr_viol: r.final_constr_viol,
        final_compl: Number { bits: D0 },
        final_kkt_error: error,
        final_unscaled_dual_inf: r.final_stationarity,
        final_unscaled_constr_viol: r.final_constr_viol,
        final_unscaled_compl: Number { bits: D0 },
        final_unscaled_kkt_error: error,
        total_wallclock_time_secs: r.wallclock,
        ..s
    }
}

/// The statuses of an SQP run, without a claim of infeasibility that the
/// starting point disproves.
pub open spec fn sqp_verdict(r: SqpRecord) -> (ApplicationReturnStatus, SolverReturn) {
    let (app, solver) = sqp_statuses_of(r.status);
    let kept = unrefuted(solver, r.presolve_proof, r.start_is_feasible);
    if kept == solver {
        (app, solver)
    } else {
        (app_status_of(kept), kept)
    }
}

/// Knobs of the crossover. It keeps its own value of one that is unset.
#[derive(Clone, Copy, Debug, PartialEq, Eq, Structural)]
pub struct CrossoverOptions {
    pub enabled: bool,
    pub max_iter: Option<u32>,
    pub mult_tol: Option<Number>,
    pub primal_tol: Option<Number>,
}

/// The knobs of the crossover that the caller set.
pub open spec fn crossover_options_of(o: OptionsView) -> CrossoverOptions {
    CrossoverOptions {
        enabled: switch_or(o, "crossover"@, false),
        max_iter: crate::from_options::non_negative_set(o, "crossover_max_iter"@),
        mult_tol: numeric_set(o, "crossover_mult_tol"@),
        primal_tol: numeric_set(o, "crossover_primal_tol"@),
    }
}

/// What a solution is delivered with.
#[derive(Debug)]
pub struct Delivery {
    pub status: SolverReturn,
    pub x: Vec<Number>,
    /// Empty where there are none.
    pub z_l: Vec<Number>,
    pub z_u: Vec<Number>,
    pub lambda: Vec<Number>,
    pub g: Vec<Number>,
    /// The objective, where it could be evaluated.
    pub objective: Option<Number>,
    pub n: usize,
    pub m: usize,
}

/// The numbers, or as many zeros where there are none.
pub open spec fn padded(v: Seq<Number>, n: nat) -> Seq<Number> {
    if v.len() > 0 {
        v
    } else {
        Seq::new(n, |i: int| Number { bits: D0 })
    }
}

/// The snapshot holds what is delivered.
pub open spec fn delivers(d: Delivery, s: FinalizeSnapshot) -> bool {
    &&& s.status == d.status
    &&& s.x@ == d.x@
    &&& s.z_l@ == padded(d.z_l@, d.n as nat)
    &&& s.z_u@ == padded(d.z_u@, d.n as nat)
    &&& s.g@ == d.g@
    &&& s.lambda@ == padded(d.lambda@, d.m as nat)
    &&& s.obj_value == match d.objective {
        Some(f) => f,
        None => Number { bits: QUIET_NAN },
    }
}

impl IpoptApplication {
    /// Whether to print to the console.
    pub fn console_output(&self) -> (r: bool)
        ensures
            r == console_output_of(self.options@),
    {
        match self.options.set_integer("print_level") {
            Some(v) => v >= 1,
            None => true,
        }
    }

    fn fixed_treatment(&self) -> (r: FixedVarTreatment)
        ensures
            r == fixed_treatment_of(self.options@),
    {
        match self.options.set_text("fixed_variable_treatment") {
            Some(t) => {
                if same(t.as_str(), "relax_bounds") {
                    FixedVarTreatment::RelaxBounds
                } else {
                    FixedVarTreatment::MakeParameter
                }
            },
            None => FixedVarTreatment::MakeParameter,
        }
    }

    /// Whether the model gives the scaling factors.
    pub fn wants_model_factors(&self) -> (r: bool)
        ensures
            r == model_gives_factors(self.options@),
    {
        match self.options.set_text("nlp_scaling_method") {
            Some(t) => same(t.as_str(), "user-scaling") || same(t.as_str(), "curvature-based"),
            None => false,
        }
    }

    fn scaling_method(&self) -> (r: NlpScaling)
        ensures
            r == scaling_method_of(self.options@),
    {
        if self.wants_model_factors() {
            return NlpScaling::UserScaling;
        }
        match self.options.set_text("nlp_scaling_method") {
            Some(t) => {
                if same(t.as_str(), "none") {
                    NlpScaling::Off
                } else {
                    NlpScaling::GradientBased
                }
            },
            None => NlpScaling::GradientBased,
        }
    }

    /// What the options say of a solve.
    pub fn solve_plan(&self) -> (r: SolvePlan)
        ensures
            r == plan_of(self.options@),
    {
        let o = &self.options;
        SolvePlan {
            print_user_options: o.switch("print_user_options", false),
            detailed_timing: o.switch("timing_statistics", false) || o.switch(
                "print_timing_statistics",
                false,
            ),
            print_timing: o.switch("print_timing_statistics", false),
            console_output: self.console_output(),
            lower_bound_inf: o.numeric("nlp_lower_bound_inf", Number { bits: DM1E19 }),
            upper_bound_inf: o.numeric("nlp_upper_bound_inf", Number { bits: D1E19 }),
            fixed_treatment: self.fixed_treatment(),
            obj_scaling_factor: o.numeric("obj_scaling_factor", Number { bits: D1 }),
            bound_relax_factor: o.numeric("bound_relax_factor", Number { bits: D1EM8 }),
            constr_viol_tol: o.numeric("constr_viol_tol", Number { bits: D1EM4 }),
            honor_original_bounds: o.switch("honor_original_bounds", false),
            scaling_method: self.scaling_method(),
            max_gradient: o.numeric("nlp_scaling_max_gradient", Number { bits: D1E2 }),
            min_value: o.numeric("nlp_scaling_min_value", Number { bits: D1EM8 }),
            obj_target_gradient: o.numeric("nlp_scaling_obj_target_gradient", Number { bits: D0 }),
            constr_target_gradient: o.numeric(
                "nlp_scaling_constr_target_gradient",
                Number { bits: D0 },
            ),
            num_linear_variables: o.integer("num_linear_variables", 0),
            slack_move: o.set_numeric("slack_move"),
            max_iter: o.integer("max_iter", 3000),
            tol: o.numeric("tol", Number { bits: D1EM8 }),
        }
    }

    /// Keeps the factors that were applied to the variables, or none.
    pub fn record_variable_scaling(&mut self, factors: Option<Vec<Number>>)
        ensures
            *final(self) == (IpoptApplication { variable_scaling: factors, ..*old(self) }),
    {
        self.variable_scaling = factors;
    }

    /// Forgets what belongs to the run before: whether rows were scaled is not
    /// known until this run says so, and no crossover has run yet.
    pub fn begin_constrained(&mut self)
        ensures
            *final(self) == (IpoptApplication {
                row_scaling_active: None,
                quality_escalations: 0,
                crossover_report: None,
                ..*old(self)
            }),
    {
        self.row_scaling_active = None;
        self.quality_escalations = 0;
        self.crossover_report = None;
    }

    /// Counts a quality escalation of the linear solver.
    pub fn count_quality_escalation(&mut self)
        requires
            old(self).quality_escalations < u64::MAX,
        ensures
            *final(self) == (IpoptApplication {
                quality_escalations: (old(self).quality_escalations + 1) as u64,
                ..*old(self)
            }),
    {
        self.quality_escalations = self.quality_escalations + 1;
    }

    /// The builder of a run and the configuration of its linear solver. The
    /// blocks of an installed partition are configured as the whole system is,
    /// but for an ordering that the caller gave, which is of the whole system.
    pub fn constrained_builder(&self, surroundings: &FeralSurroundings) -> (r: ConstrainedSetup)
        ensures
            sets_up(*self, *surroundings, r),
    {
        let mut builder = self.algorithm_builder_from_options();
        let feral = feral_config_from_options(&self.options, surroundings);
        let ghost plain = builder;
        if let Some(indices) = &self.kkt_schur_block {
            builder.set_kkt_schur(copy_indices(indices), feral);
        }
        assert((AlgorithmBuilder { kkt_schur: None, ..builder }) == plain);
        let ordering = match &self.external_ordering {
            Some(perm) => Some(copy_indices(perm)),
            None => None,
        };
        ConstrainedSetup { builder, feral, ordering }
    }

    /// The SQP driver that the options describe, whichever algorithm they
    /// select. `reader_accepts` says whether the QP solver's own reader takes the
    /// `sqp_qp_*` options.
    pub fn sqp_algorithm(&self, reader_accepts: bool) -> (r: Option<SqpAlgorithm>)
        ensures
            r matches Some(a) && a.backend == LinearSolverChoice::Feral && a.sqp == sqp_over(
                self.options@,
                SqpOptions::standard(),
            ) && qp_over(self.options@, reader_accepts, QpOptions::standard(), a.qp),
    {
        let mut builder = self.algorithm_builder_snapshot(reader_accepts);
        builder.algorithm = AlgorithmChoice::ActiveSetSqp;
        builder.build_sqp_with_backend()
    }

    /// Hands out the iterate kept for this solve, which is then gone. One whose
    /// dimensions differ from those of the fresh iterate is dropped.
    pub fn take_warm_start_iterate(&mut self, fresh: &IteratesVector) -> (r: Option<
        IterateSnapshot,
    >)
        requires
            fresh.fits(),
            old(self).warm_start_iterate matches Some(s) ==> s.iterates.fits(),
        ensures
            *final(self) == (IpoptApplication { warm_start_iterate: None, ..*old(self) }),
            match old(self).warm_start_iterate {
                Some(s) => if s.iterates.dims() == fresh.dims() {
                    r == Some(s)
                } else {
                    r is None
                },
                None => r is None,
            },
    {
        match self.warm_start_iterate.take() {
            Some(snap) => {
                if same_dims(fresh, &snap.iterates) {
                    Some(snap)
                } else {
                    None
                }
            },
            None => None,
        }
    }

    fn spend(&mut self, r: &RunRecord, kept: Option<Vec<IterRecord>>)
        ensures
            *final(self) == (IpoptApplication {
                statistics: with_run_cost(*old(self), *r, kept),
                ..*old(self)
            }),
    {
        let seen = self.dual_divergence_signature || r.dual_divergence_signature;
        let promoted = self.dual_divergence_retry_promoted;
        let escalations = #[verifier::truncate]
        (self.quality_escalations as i32);
        let s = &mut self.statistics;
        s.iteration_count = r.iter_count;
        s.final_mu = r.mu;
        s.total_wallclock_time_secs = r.wallclock;
        s.restoration_calls = r.resto_calls;
        s.restoration_inner_iters = r.resto_inner_iters;
        s.restoration_outer_iters = r.resto_outer_iters;
        s.restoration_wall_secs = r.resto_wall_secs;
        s.quality_escalations = escalations;
        s.dual_divergence_signature = seen;
        s.dual_divergence_retry_promoted = promoted;
        s.iterations = kept;
        if let Some(fd) = r.fd {
            s.fd_hessian_pattern_used = match fd.pattern_used {
                Some(FdPatternSource::Declared) => 0,
                Some(FdPatternSource::Jacobian) => 1,
                None => -1,
            };
            s.fd_hessian_nnz = fd.nnz;
            s.fd_hessian_n = fd.n;
            s.fd_hessian_groups = fd.groups;
            s.fd_hessian_rho_max = fd.rho_max;
            s.fd_hessian_coloring_fell_back = fd.coloring_fell_back;
            s.fd_hessian_objective_clique_widened = fd.objective_clique_widened;
        }
    }

    /// Takes in how an interior-point run ended and the iterates it recorded;
    /// the statuses to report come back. The status is judged after the numbers
    /// are in place. The iterates are kept where the caller asked for them.
    pub fn record_run(&mut self, r: &RunRecord, iterations: Vec<IterRecord>) -> (statuses: (
        ApplicationReturnStatus,
        SolverReturn,
    ))
        ensures
            *final(self) == after_run(*old(self), *r, kept_trajectory(*old(self), iterations)),
            final(self).statistics.iterations == kept_trajectory(*old(self), iterations),
            statuses.1 == unrefuted(r.solver_status, r.presolve_proof, r.start_is_feasible),
            statuses.0 == gated(
                old(self).options@,
                final(self).statistics,
                app_status_of(statuses.1),
            ),
    {
        let kept = if self.record_iter_history {
            Some(iterations)
        } else {
            None
        };
        self.spend(r, kept);
        self.dual_divergence_signature = self.dual_divergence_signature
            || r.dual_divergence_signature;
        if r.solver_status != SolverReturn::InvalidProblemDefinition {
            let crossover = match self.crossover_report {
                Some(c) => {
                    if c.accepted && c.compl_after.is_finite() {
                        Some(c)
                    } else {
                        None
                    }
                },
                None => None,
            };
            take_measures(&mut self.statistics, &r.measures, r.bound_relax_factor, crossover);
            self.row_scaling_active = Some(r.measures.rows_scaled);
        }
        let solver = withdraw_infeasibility_if_refuted(
            r.solver_status,
            r.presolve_proof,
            r.start_is_feasible,
        );
        let app = self.apply_kkt_fidelity_gate(solver_return_to_app_status(solver));
        (app, solver)
    }

    /// Takes in how an interior-point run ended and the iterates it recorded,
    /// and says what is to follow.
    pub fn conclude_run(&mut self, r: &RunRecord, iterations: Vec<IterRecord>) -> (e: RunEnding)
        ensures
            *final(self) == after_run(*old(self), *r, kept_trajectory(*old(self), iterations)),
            final(self).statistics.iterations == kept_trajectory(*old(self), iterations),
            e == ending_of(*old(self), *r),
    {
        let (status, solver_status) = self.record_run(r, iterations);
        RunEnding {
            status,
            solver_status,
            notify: is_solution_status(status),
            deliver: solver_status != SolverReturn::InvalidProblemDefinition,
        }
    }

    /// The status after the fidelity gate.
    pub fn apply_kkt_fidelity_gate(&self, status: ApplicationReturnStatus) -> (r:
        ApplicationReturnStatus)
        ensures
            r == gated(self.options@, self.statistics, status),
    {
        if status != ApplicationReturnStatus::SolveSucceeded {
            return status;
        }
        let zero = Number { bits: D0 };
        if let Some(tol) = self.options.set_numeric("kkt_fidelity_tol") {
            if zero.less(tol) && tol.less(self.statistics.final_unscaled_kkt_error) {
                return ApplicationReturnStatus::SolvedToAcceptableLevel;
            }
        }
        status
    }

    /// Takes in how an SQP run ended; the statuses to report come back, the
    /// first of them before the fidelity gate.
    pub fn record_sqp_run(&mut self, r: &SqpRecord, working_set: Option<WorkingSet>) -> (statuses: (
        ApplicationReturnStatus,
        SolverReturn,
    ))
        ensures
            *final(self) == (IpoptApplication {
                sqp_last_working_set: working_set,
                statistics: with_sqp_run(old(self).statistics, *r),
                ..*old(self)
            }),
            statuses == sqp_verdict(*r),
    {
        self.sqp_last_working_set = working_set;
        let error = r.final_stationarity.larger(r.final_constr_viol);
        let zero = Number { bits: D0 };
        self.statistics.iteration_count = r.n_iter;
        self.statistics.sqp_qp_solves = r.n_qp_solves;
        self.statistics.sqp_qp_working_set_changes = r.n_qp_working_set_changes;
        self.statistics.final_objective = r.obj;
        self.statistics.final_scaled_objective = r.obj;
        self.statistics.final_dual_inf = r.final_stationarity;
        self.statistics.final_constr_viol = r.final_constr_viol;
        self.statistics.final_compl = zero;
        self.statistics.final_kkt_error = error;
        self.statistics.final_unscaled_dual_inf = r.final_stationarity;
        self.statistics.final_unscaled_constr_viol = r.final_constr_viol;
        self.statistics.final_unscaled_compl = zero;
        self.statistics.final_unscaled_kkt_error = error;
        self.statistics.total_wallclock_time_secs = r.wallclock;
        let (app, solver) = sqp_statuses(r.status);
        let kept = withdraw_infeasibility_if_refuted(solver, r.presolve_proof, r.start_is_feasible);
        if kept == solver {
            (app, solver)
        } else {
            (solver_return_to_app_status(kept), kept)
        }
    }

    /// Takes in how an SQP run ended. Its point is delivered under the second
    /// status; the first is reported.
    pub fn conclude_sqp_run(&mut self, r: &SqpRecord, working_set: Option<WorkingSet>) -> (
        statuses: (ApplicationReturnStatus, SolverReturn))
        ensures
            *final(self) == (IpoptApplication {
                sqp_last_working_set: working_set,
                statistics: with_sqp_run(old(self).statistics, *r),
                ..*old(self)
            }),
            statuses.0 == gated(
                old(self).options@,
                final(self).statistics,
                sqp_verdict(*r).0,
            ),
            statuses.1 == sqp_verdict(*r).1,
    {
        let (status, solver_status) = self.record_sqp_run(r, working_set);
        (self.apply_kkt_fidelity_gate(status), solver_status)
    }

    /// Takes in how often the model was evaluated: the objective, its gradient,
    /// the two constraint blocks, their Jacobians, the Hessian. Each block is
    /// evaluated by the same call, so the larger count is the number of calls.
    pub fn record_eval_counts(&mut self, counts: [i32; 7])
        ensures
            *final(self) == (IpoptApplication {
                statistics: SolveStatistics {
                    num_obj_evals: counts@[0],
                    num_obj_grad_evals: counts@[1],
                    num_constr_evals: if counts@[2] >= counts@[3] {
                        counts@[2]
                    } else {
                        counts@[3]
                    },
                    num_constr_jac_evals: if counts@[4] >= counts@[5] {
                        counts@[4]
                    } else {
                        counts@[5]
                    },
                    num_hess_evals: counts@[6],
                    ..old(self).statistics
                },
                ..*old(self)
            }),
    {
        self.statistics.num_obj_evals = counts[0];
        self.statistics.num_obj_grad_evals = counts[1];
        self.statistics.num_constr_evals = if counts[2] >= counts[3] {
            counts[2]
        } else {
            counts[3]
        };
        self.statistics.num_constr_jac_evals = if counts[4] >= counts[5] {
            counts[4]
        } else {
            counts[5]
        };
        self.statistics.num_hess_evals = counts[6];
    }

    /// The knobs of the crossover that the caller set.
    pub fn crossover_options(&self) -> (r: CrossoverOptions)
        ensures
            r == crossover_options_of(self.options@),
    {
        let o = &self.options;
        CrossoverOptions {
            enabled: o.switch("crossover", false),
            max_iter: match o.set_integer("crossover_max_iter") {
                Some(v) => Some(
                    if v > 0 {
                        v as u32
                    } else {
                        0
                    },
                ),
                None => None,
            },
            mult_tol: o.set_numeric("crossover_mult_tol"),
            primal_tol: o.set_numeric("crossover_primal_tol"),
        }
    }

    /// Forgets the last crossover and says whether one is to run: where it is
    /// switched on and the run converged.
    pub fn begin_crossover(&mut self, status: SolverReturn) -> (r: bool)
        ensures
            *final(self) == (IpoptApplication { crossover_report: None, ..*old(self) }),
            r == (switch_or(old(self).options@, "crossover"@, false) && (status
                == SolverReturn::Success || status == SolverReturn::StopAtAcceptablePoint)),
    {
        self.crossover_report = None;
        let options = self.crossover_options();
        if !options.enabled {
            return false;
        }
        match status {
            SolverReturn::Success | SolverReturn::StopAtAcceptablePoint => true,
            _ => false,
        }
    }

    /// Takes in what a crossover did. An accepted one leaves its working set
    /// for the next SQP solve.
    pub fn record_crossover(&mut self, report: CrossoverReport, working_set: Option<WorkingSet>)
        ensures
            *final(self) == (IpoptApplication {
                crossover_report: Some(report),
                sqp_last_working_set: if report.accepted {
                    working_set
                } else {
                    old(self).sqp_last_working_set
                },
                ..*old(self)
            }),
    {
        if report.accepted {
            self.sqp_last_working_set = working_set;
        }
        self.crossover_report = Some(report);
    }

    /// Keeps a solution as the last one delivered; the copy to deliver comes
    /// back. An interior-point solve reports its objective.
    pub fn record_delivery(&mut self, d: Delivery, interior_point: bool) -> (r: FinalizeSnapshot)
        ensures
            delivers(d, r),
            final(self).last_finalize matches Some(s) && delivers(d, s),
            *final(self) == (IpoptApplication {
                last_finalize: final(self).last_finalize,
                statistics: if interior_point {
                    SolveStatistics { final_objective: r.obj_value, ..old(self).statistics }
                } else {
                    old(self).statistics
                },
                ..*old(self)
            }),
    {
        let obj_value = match d.objective {
            Some(f) => f,
            None => Number { bits: QUIET_NAN },
        };
        let snap = FinalizeSnapshot {
            status: d.status,
            x: d.x,
            z_l: or_zeros(d.z_l, d.n),
            z_u: or_zeros(d.z_u, d.n),
            g: d.g,
            lambda: or_zeros(d.lambda, d.m),
            obj_value,
        };
        let copy = snap.duplicate();
        self.last_finalize = Some(snap);
        if interior_point {
            self.statistics.final_objective = obj_value;
        }
        copy
    }
}

fn take_measures(
    r: &mut SolveStatistics,
    m: &FinalMeasures,
    bound_relax_factor: Number,
    crossover: Option<CrossoverReport>,
)
    ensures
        *final(r) == with_measures(*old(r), *m, bound_relax_factor, crossover),
{
    let zero = Number { bits: D0 };
    if let Some(f) = m.scaled_objective {
        r.final_objective = f;
        r.final_scaled_objective = f;
    }
    r.final_dual_inf = m.dual_inf;
    r.final_constr_viol = m.constr_viol;
    r.final_declared_constr_viol = if zero.less(bound_relax_factor) {
        m.declared_constr_viol
    } else {
        Number { bits: QUIET_NAN }
    };
    r.final_declared_box_viol = m.declared_box_viol;
    r.final_compl = m.compl_x_l.larger(m.compl_x_u).larger(m.compl_s_l).larger(m.compl_s_u);
    r.final_kkt_error = m.nlp_error;
    r.final_kkt_error_above_noise = m.nlp_error_above_noise;
    r.final_unscaled_dual_inf = m.unscaled_dual_inf;
    r.final_unscaled_constr_viol = m.unscaled_constr_viol;
    r.final_unscaled_compl = m.unscaled_compl;
    r.final_unscaled_kkt_error = m.unscaled_nlp_error;
    if let Some(report) = crossover {
        r.final_compl = report.compl_after;
        r.final_kkt_error = m.crossover_nlp_error;
        r.final_kkt_error_above_noise = m.crossover_nlp_error_above_noise;
        let df = m.objective_scale.abs();
        let unscaled = if df.equals(zero) || df.equals(Number { bits: D1 }) {
            report.compl_after
        } else {
            report.compl_after.over(df)
        };
        r.final_unscaled_compl = unscaled;
        r.final_unscaled_kkt_error = m.unscaled_dual_inf.larger(m.unscaled_constr_viol).larger(
            unscaled,
        );
    }
}

/// The fidelity gate changes nothing but a success, and that only to the
/// acceptable level; unset or non-positive it changes nothing at all.
pub proof fn law_fidelity_gate_only_downgrades(
    o: OptionsView,
    s: SolveStatistics,
    status: ApplicationReturnStatus,
)
    ensures
        gated(o, s, status) == status || (status == ApplicationReturnStatus::SolveSucceeded
            && gated(o, s, status) == ApplicationReturnStatus::SolvedToAcceptableLevel),
        numeric_set(o, "kkt_fidelity_tol"@) is None ==> gated(o, s, status) == status,
        numeric_set(o, "kkt_fidelity_tol"@) matches Some(t) ==> t.le_spec(Number { bits: D0 })
            ==> gated(o, s, status) == status,
{
}

/// Infeasibility is never reported of a model whose starting point is feasible,
/// short of a proof.
pub proof fn law_run_verdict_respects_refutation(a: IpoptApplication, r: RunRecord)
    requires
        r.start_is_feasible,
        !r.presolve_proof,
    ensures
        ending_of(a, r).status != ApplicationReturnStatus::InfeasibleProblemDetected,
        ending_of(a, r).solver_status != SolverReturn::LocalInfeasibility,
{
}

/// Only a point that the run claims to solve the model is shown to the observer
/// of converged runs, and every such point is delivered too.
pub proof fn law_converged_is_delivered(a: IpoptApplication, r: RunRecord)
    ensures
        ending_of(a, r).notify ==> claims_solution(ending_of(a, r).status) && ending_of(
            a,
            r,
        ).deliver,
{
}

/// A run that ends before anything is measured leaves no record of row scaling
/// from the run before.
pub proof fn law_row_scaling_is_fail_closed(
    a: IpoptApplication,
    r: RunRecord,
    kept: Option<Vec<IterRecord>>,
)
    requires
        a.row_scaling_active is None,
        r.solver_status == SolverReturn::InvalidProblemDefinition,
    ensures
        after_run(a, r, kept).row_scaling_active is None,
{
}

/// The sight of runaway multipliers adds up over the attempts of a solve.
pub proof fn law_signature_accumulates(
    a: IpoptApplication,
    r: RunRecord,
    kept: Option<Vec<IterRecord>>,
)
    ensures
        a.dual_divergence_signature ==> after_run(a, r, kept).dual_divergence_signature,
        after_run(a, r, kept).dual_divergence_signature
            == after_run(a, r, kept).statistics.dual_divergence_signature,
{
}

/// The SQP driver never claims infeasibility of a model whose starting point is
/// feasible, short of a proof.
pub proof fn law_sqp_verdict_respects_refutation(r: SqpRecord)
    requires
        r.start_is_feasible,
        !r.presolve_proof,
    ensures
        sqp_verdict(r).0 != ApplicationReturnStatus::InfeasibleProblemDetected,
        sqp_verdict(r).1 != SolverReturn::LocalInfeasibility,
{
}

} // verus!
