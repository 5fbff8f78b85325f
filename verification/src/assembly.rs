//! Assembling the strategies of an algorithm from a builder.
use crate::alg_builder::AdaptiveMuGlobalization;
use crate::alg_builder::AdaptiveMuKktNorm;
use crate::alg_builder::AlgorithmBuilder;
use crate::alg_builder::AlgorithmChoice;
use crate::alg_builder::AlphaForY;
use crate::alg_builder::BalancingTermType;
use crate::alg_builder::CentralityType;
use crate::alg_builder::ElementMode;
use crate::alg_builder::FdColoring;
use crate::alg_builder::FdPatternSource;
use crate::alg_builder::HessianApproxChoice;
use crate::alg_builder::InitOptions;
use crate::alg_builder::InitialApprox;
use crate::alg_builder::LineSearchChoice;
use crate::alg_builder::LinearSolverChoice;
use crate::alg_builder::LinearSystemScalingChoice;
use crate::alg_builder::MuOracleKind;
use crate::alg_builder::MuStrategyChoice;
use crate::alg_builder::NormType;
use crate::alg_builder::RefinementOptions;
use crate::alg_builder::UpdateType;
use crate::alg_builder::WarmStartOptions;
use crate::conv_check::opt_error::OptErrorConvCheck;
use crate::decimal::D0;
use crate::decimal::D1E5;
use crate::feral::FeralConfig;
use crate::number::Number;
use crate::sqp_options::QpOptions;
use crate::sqp_options::SqpOptions;
use vstd::prelude::*;

verus! {

/// The monotone barrier strategy.
#[derive(Clone, Copy, Debug, PartialEq, Eq, Structural)]
pub struct MonotoneMuUpdate {
    pub mu_max: Number,
    pub mu_init: Number,
    pub mu_min: Number,
    pub mu_target: Number,
    pub mu_linear_decrease_factor: Number,
    pub mu_superlinear_decrease_power: Number,
    pub mu_allow_fast_monotone_decrease: bool,
    pub barrier_tol_factor: Number,
    pub tau_min: Number,
    pub compl_inf_tol: Number,
}

/// The adaptive barrier strategy. A negative `mu_max` is left to the strategy.
#[derive(Clone, Copy, Debug, PartialEq, Eq, Structural)]
pub struct AdaptiveMuUpdate {
    pub mu_oracle: MuOracleKind,
    pub mu_init: Number,
    pub mu_max: Number,
    pub mu_max_fact: Number,
    pub mu_min: Number,
    pub mu_linear_decrease_factor: Number,
    pub mu_superlinear_decrease_power: Number,
    pub barrier_tol_factor: Number,
    pub tau_min: Number,
    pub sigma_min: Number,
    pub sigma_max: Number,
    pub adaptive_mu_globalization: AdaptiveMuGlobalization,
    pub qf_norm_type: NormType,
    pub qf_centrality_type: CentralityType,
    pub qf_balancing_term: BalancingTermType,
    pub qf_max_section_steps: i32,
    pub qf_section_sigma_tol: Number,
    pub qf_section_qf_tol: Number,
    pub probing_iterate_quality_factor: Number,
    pub adaptive_mu_safeguard_factor: Number,
    pub adaptive_mu_monotone_init_factor: Number,
    pub restore_accepted_iterate: bool,
    pub max_free_returns: Option<i32>,
    pub budget_pin_fraction: Option<Number>,
    pub adaptive_mu_kkterror_red_iters: usize,
    pub adaptive_mu_kkterror_red_fact: Number,
    pub filter_margin_fact: Number,
    pub filter_max_margin: Number,
    pub adaptive_mu_kkt_norm: AdaptiveMuKktNorm,
}

/// The barrier strategy.
#[derive(Clone, Copy, Debug, PartialEq, Eq, Structural)]
pub enum MuUpdate {
    Monotone(MonotoneMuUpdate),
    Adaptive(AdaptiveMuUpdate),
}

/// The filter that accepts trial points.
#[derive(Clone, Copy, Debug, PartialEq, Eq, Structural)]
pub struct FilterLsAcceptor {
    pub eta_phi: Number,
    pub delta: Number,
    pub theta_min_fact: Number,
    pub theta_max_fact: Number,
    pub theta_max_row_scale_kappa: Option<Number>,
    pub theta_max_adaptive_trigger: Option<u32>,
    pub theta_max_adaptive_factor: Option<Number>,
    pub theta_max_adaptive_max_raises: Option<u32>,
    pub gamma_phi: Number,
    pub gamma_theta: Number,
    pub s_phi: Number,
    pub s_theta: Number,
    pub alpha_min_frac: Number,
    pub obj_max_inc: Number,
    pub max_filter_resets: i32,
    pub filter_reset_trigger: i32,
}

/// The merit function that accepts trial points.
#[derive(Clone, Copy, Debug, PartialEq, Eq, Structural)]
pub struct PenaltyLsAcceptor {
    pub nu_init: Option<Number>,
    pub nu_inc: Option<Number>,
    pub rho: Option<Number>,
    pub eta_penalty: Option<Number>,
}

/// What accepts trial points.
#[derive(Clone, Copy, Debug, PartialEq, Eq, Structural)]
pub enum LsAcceptor {
    Filter(FilterLsAcceptor),
    Penalty(PenaltyLsAcceptor),
}

/// The line search.
#[derive(Clone, Copy, Debug, PartialEq, Eq, Structural)]
pub struct BacktrackingLineSearch {
    pub acceptor: LsAcceptor,
    pub watchdog_shortened_iter_trigger: i32,
    pub watchdog_trial_iter_max: i32,
    pub soft_resto_pderror_reduction_factor: Number,
    pub max_soft_resto_iters: i32,
    pub accept_every_trial_step: bool,
    pub alpha_for_y: AlphaForY,
    pub alpha_red_factor: Number,
    pub alpha_red_factor_min: Option<Number>,
    pub accept_after_max_steps: i32,
    pub max_soc: i32,
    pub kappa_soc: Number,
    pub soc_method: i32,
}

/// The limited-memory quasi-Newton update.
#[derive(Clone, Copy, Debug, PartialEq, Eq, Structural)]
pub struct LimMemQuasiNewtonUpdater {
    pub update_type: UpdateType,
    pub max_history: i32,
    pub initialization: InitialApprox,
    pub init_val: Number,
    pub init_val_max: Option<Number>,
    pub init_val_min: Option<Number>,
    pub max_skipping: Option<i32>,
}

/// The partitioned quasi-Newton update.
#[derive(Clone, Copy, Debug, PartialEq, Eq, Structural)]
pub struct PartitionedQuasiNewtonUpdater {
    pub update_type: UpdateType,
    pub update_type_was_set: bool,
    pub max_element: Option<usize>,
    pub elements: Option<ElementMode>,
    pub block_size: Option<usize>,
    pub curvature_cap: Option<Number>,
}

/// The finite-difference Hessian.
#[derive(Clone, Copy, Debug, PartialEq, Eq, Structural)]
pub struct FdHessianUpdater {
    pub pattern: Option<FdPatternSource>,
    pub coloring: Option<FdColoring>,
    pub reuse_tol: Option<Number>,
}

/// Where the Hessian comes from.
#[derive(Clone, Copy, Debug, PartialEq, Eq, Structural)]
pub enum HessianUpdater {
    Exact,
    LimitedMemory(LimMemQuasiNewtonUpdater),
    Partitioned(PartitionedQuasiNewtonUpdater),
    FiniteDifference(FdHessianUpdater),
}

/// How the first iterate is made.
#[derive(Debug)]
pub enum IterateInitializer {
    WarmStart(WarmStartOptions),
    Cold(InitOptions),
}

/// How equality multipliers are estimated.
#[derive(Clone, Copy, Debug, PartialEq, Eq, Structural)]
pub enum EqMultCalculator {
    LeastSquare,
}

/// Whether an iteration prints its remarks.
#[derive(Clone, Copy, Debug, PartialEq, Eq, Structural)]
pub enum PrintInfoString {
    Yes,
    No,
}

/// Which constraint violation an iteration prints.
#[derive(Clone, Copy, Debug, PartialEq, Eq, Structural)]
pub enum InfPrTag {
    Original,
    Internal,
}

/// What an iteration prints.
#[derive(Clone, Copy, Debug, PartialEq, Eq, Structural)]
pub struct OrigIterationOutput {
    pub print_frequency_iter: i32,
    pub print_frequency_time: Number,
    pub print_info_string: PrintInfoString,
    pub inf_pr_output: InfPrTag,
}

/// The scaling method of the linear solver.
#[derive(Clone, Copy, Debug, PartialEq, Eq, Structural)]
pub enum ScalingMethod {
    Ruiz,
    SlackBased,
}

/// How the augmented system is solved.
#[derive(Debug)]
pub enum AugSystemSolver {
    /// The linear solver on the whole system.
    Std,
    /// The linear solver on the diagonal part, with a low-rank correction.
    LowRank,
    /// The complement of a block, falling back to the whole system.
    Schur { indices: Vec<usize>, cfg: FeralConfig },
}

/// The inertia correction.
#[derive(Clone, Copy, Debug, PartialEq, Eq, Structural)]
pub struct PdPerturbationHandler {
    pub delta_xs_max: Number,
    pub delta_xs_min: Number,
    pub delta_xs_first_inc_fact: Number,
    pub delta_xs_inc_fact: Number,
    pub delta_xs_dec_fact: Number,
    pub delta_xs_init: Number,
    pub delta_cd_val: Number,
    pub delta_cd_exp: Number,
    pub perturb_always_cd: bool,
    pub delta_c_max_rungs: Option<i32>,
}

/// The solver of the primal-dual system, and what it is made of.
#[derive(Debug)]
pub struct PdSearchDirCalc {
    pub backend: LinearSolverChoice,
    pub scaling: Option<ScalingMethod>,
    pub scaling_on_demand: bool,
    pub aug_solver: AugSystemSolver,
    pub perturbation: PdPerturbationHandler,
    pub refinement: RefinementOptions,
    pub mehrotra_algorithm: bool,
    pub fast_step_computation: bool,
}

/// The assembled strategies of the interior-point algorithm.
#[derive(Debug)]
pub struct AlgorithmBundle {
    pub mu_update: MuUpdate,
    pub conv_check: OptErrorConvCheck,
    pub init: IterateInitializer,
    pub eq_mult: EqMultCalculator,
    pub hess: HessianUpdater,
    pub line_search: BacktrackingLineSearch,
    pub iter_output: OrigIterationOutput,
    /// Present where the bundle was built with a linear solver.
    pub search_dir: Option<PdSearchDirCalc>,
}

/// The active-set SQP algorithm: the backend of its QP solver, and the options
/// of both.
#[derive(Debug)]
pub struct SqpAlgorithm {
    pub backend: LinearSolverChoice,
    pub sqp: SqpOptions,
    pub qp: QpOptions,
}

/// The barrier strategy that the builder describes. A monotone strategy keeps
/// its own limit on the barrier parameter unless a positive one is given.
pub open spec fn mu_update_of(b: AlgorithmBuilder) -> MuUpdate {
    match b.mu_strategy {
        MuStrategyChoice::Monotone => MuUpdate::Monotone(
            MonotoneMuUpdate {
                mu_max: if (Number { bits: D0 }).lt_spec(b.mu.mu_max) {
                    b.mu.mu_max
                } else {
                    Number { bits: D1E5 }
                },
                mu_init: b.mu.mu_init,
                mu_min: b.mu.mu_min,
                mu_target: b.mu.mu_target,
                mu_linear_decrease_factor: b.mu.mu_linear_decrease_factor,
                mu_superlinear_decrease_power: b.mu.mu_superlinear_decrease_power,
                mu_allow_fast_monotone_decrease: b.mu.mu_allow_fast_monotone_decrease,
                barrier_tol_factor: b.mu.barrier_tol_factor,
                tau_min: b.mu.tau_min,
                compl_inf_tol: b.conv_check.compl_inf_tol,
            },
        ),
        MuStrategyChoice::Adaptive => MuUpdate::Adaptive(
            AdaptiveMuUpdate {
                mu_oracle: b.mu_oracle,
                mu_init: b.mu.mu_init,
                mu_max: b.mu.mu_max,
                mu_max_fact: b.mu.mu_max_fact,
                mu_min: b.mu.mu_min,
                mu_linear_decrease_factor: b.mu.mu_linear_decrease_factor,
                mu_superlinear_decrease_power: b.mu.mu_superlinear_decrease_power,
                barrier_tol_factor: b.mu.barrier_tol_factor,
                tau_min: b.mu.tau_min,
                sigma_min: b.mu.sigma_min,
                sigma_max: b.mu.sigma_max,
                adaptive_mu_globalization: b.mu.adaptive_mu_globalization,
                qf_norm_type: b.mu.quality_function_norm_type,
                qf_centrality_type: b.mu.quality_function_centrality,
                qf_balancing_term: b.mu.quality_function_balancing_term,
                qf_max_section_steps: b.mu.quality_function_max_section_steps,
                qf_section_sigma_tol: b.mu.quality_function_section_sigma_tol,
                qf_section_qf_tol: b.mu.quality_function_section_qf_tol,
                probing_iterate_quality_factor: b.mu.probing_iterate_quality_factor,
                adaptive_mu_safeguard_factor: b.mu.adaptive_mu_safeguard_factor,
                adaptive_mu_monotone_init_factor: b.mu.adaptive_mu_monotone_init_factor,
                restore_accepted_iterate: b.mu.adaptive_mu_restore_previous_iterate,
                max_free_returns: b.mu.adaptive_mu_max_free_returns,
                budget_pin_fraction: b.mu.adaptive_mu_budget_pin_fraction,
                adaptive_mu_kkterror_red_iters: b.mu.adaptive_mu_kkterror_red_iters,
                adaptive_mu_kkterror_red_fact: b.mu.adaptive_mu_kkterror_red_fact,
                filter_margin_fact: b.mu.filter_margin_fact,
                filter_max_margin: b.mu.filter_max_margin,
                adaptive_mu_kkt_norm: b.mu.adaptive_mu_kkt_norm_type,
            },
        ),
    }
}

/// The line search that the builder describes. The CG-penalty method shares
/// the penalty acceptor.
pub open spec fn line_search_of(b: AlgorithmBuilder) -> BacktrackingLineSearch {
    BacktrackingLineSearch {
        acceptor: match b.line_search_method {
            LineSearchChoice::Filter => LsAcceptor::Filter(
                FilterLsAcceptor {
                    eta_phi: b.line_search.eta_phi,
                    delta: b.line_search.delta,
                    theta_min_fact: b.line_search.theta_min_fact,
                    theta_max_fact: b.line_search.theta_max_fact,
                    theta_max_row_scale_kappa: b.line_search.theta_max_row_scale_kappa,
                    theta_max_adaptive_trigger: b.line_search.theta_max_adaptive_trigger,
                    theta_max_adaptive_factor: b.line_search.theta_max_adaptive_factor,
                    theta_max_adaptive_max_raises: b.line_search.theta_max_adaptive_max_raises,
                    gamma_phi: b.line_search.gamma_phi,
                    gamma_theta: b.line_search.gamma_theta,
                    s_phi: b.line_search.s_phi,
                    s_theta: b.line_search.s_theta,
                    alpha_min_frac: b.line_search.alpha_min_frac,
                    obj_max_inc: b.line_search.obj_max_inc,
                    max_filter_resets: b.line_search.max_filter_resets,
                    filter_reset_trigger: b.line_search.filter_reset_trigger,
                },
            ),
            _ => LsAcceptor::Penalty(
                PenaltyLsAcceptor {
                    nu_init: b.line_search.nu_init,
                    nu_inc: b.line_search.nu_inc,
                    rho: b.line_search.rho,
                    eta_penalty: b.line_search.eta_penalty,
                },
            ),
        },
        watchdog_shortened_iter_trigger: b.line_search.watchdog_shortened_iter_trigger,
        watchdog_trial_iter_max: b.line_search.watchdog_trial_iter_max,
        soft_resto_pderror_reduction_factor: b.line_search.soft_resto_pderror_reduction_factor,
        max_soft_resto_iters: b.line_search.max_soft_resto_iters,
        accept_every_trial_step: b.line_search.accept_every_trial_step,
        alpha_for_y: b.line_search.alpha_for_y,
        alpha_red_factor: b.line_search.alpha_red_factor,
        alpha_red_factor_min: b.line_search.alpha_red_factor_min,
        accept_after_max_steps: b.line_search.accept_after_max_steps,
        max_soc: b.line_search.max_soc,
        kappa_soc: b.line_search.kappa_soc,
        soc_method: b.line_search.soc_method,
    }
}

/// The convergence check that the builder describes; no streak runs.
pub open spec fn conv_check_of(b: AlgorithmBuilder) -> OptErrorConvCheck {
    OptErrorConvCheck {
        tol: b.conv_check.tol,
        dual_inf_tol: b.conv_check.dual_inf_tol,
        constr_viol_tol: b.conv_check.constr_viol_tol,
        compl_inf_tol: b.conv_check.compl_inf_tol,
        acceptable_tol: b.conv_check.acceptable_tol,
        acceptable_dual_inf_tol: b.conv_check.acceptable_dual_inf_tol,
        acceptable_constr_viol_tol: b.conv_check.acceptable_constr_viol_tol,
        acceptable_compl_inf_tol: b.conv_check.acceptable_compl_inf_tol,
        acceptable_obj_change_tol: b.conv_check.acceptable_obj_change_tol,
        acceptable_iter: b.conv_check.acceptable_iter,
        max_iter: b.conv_check.max_iter,
        max_cpu_time: b.conv_check.max_cpu_time,
        max_wall_time: b.conv_check.max_wall_time,
        infeas_stationarity_tol: b.conv_check.infeas_stationarity_tol,
        infeas_viol_kappa: b.conv_check.infeas_viol_kappa,
        infeas_max_streak: b.conv_check.infeas_max_streak,
        obj_scale_certificate_threshold: b.conv_check.obj_scale_certificate_threshold,
        ..OptErrorConvCheck::initial()
    }
}

/// The source of the Hessian that the builder describes.
pub open spec fn hess_of(b: AlgorithmBuilder) -> HessianUpdater {
    match b.hessian_approximation {
        HessianApproxChoice::Exact => HessianUpdater::Exact,
        HessianApproxChoice::LimitedMemory => HessianUpdater::LimitedMemory(
            LimMemQuasiNewtonUpdater {
                update_type: b.limited_memory_update_type,
                max_history: b.limited_memory_max_history,
                initialization: b.limited_memory_initialization,
                init_val: b.limited_memory_init_val,
                init_val_max: b.limited_memory_init_val_max,
                init_val_min: b.limited_memory_init_val_min,
                max_skipping: b.limited_memory_max_skipping,
            },
        ),
        HessianApproxChoice::Partitioned => HessianUpdater::Partitioned(
            PartitionedQuasiNewtonUpdater {
                update_type: b.partitioned_update_type,
                update_type_was_set: b.partitioned_update_type_was_set,
                max_element: b.partitioned_max_element,
                elements: b.partitioned_elements,
                block_size: b.partitioned_block_size,
                curvature_cap: b.partitioned_curvature_cap,
            },
        ),
        HessianApproxChoice::FiniteDifference => HessianUpdater::FiniteDifference(
            FdHessianUpdater {
                pattern: b.fd_hessian_pattern,
                coloring: b.fd_hessian_coloring,
                reuse_tol: b.fd_hessian_reuse_tol,
            },
        ),
    }
}

/// The output that the builder describes.
pub open spec fn output_of(b: AlgorithmBuilder) -> OrigIterationOutput {
    OrigIterationOutput {
        print_frequency_iter: b.output.print_frequency_iter,
        print_frequency_time: b.output.print_frequency_time,
        print_info_string: if b.output.print_info_string {
            PrintInfoString::Yes
        } else {
            PrintInfoString::No
        },
        inf_pr_output: if b.output.inf_pr_output_internal {
            InfPrTag::Internal
        } else {
            InfPrTag::Original
        },
    }
}

/// The initializer that the builder describes.
pub open spec fn initializes(b: AlgorithmBuilder, init: IterateInitializer) -> bool {
    match init {
        IterateInitializer::WarmStart(w) => b.warm_start_init_point && w == b.warm,
        IterateInitializer::Cold(d) => !b.warm_start_init_point && d.same_as(b.init),
    }
}

/// The scaling method that the builder describes; one that is not available
/// stands for none.
pub open spec fn scaling_of(b: AlgorithmBuilder) -> Option<ScalingMethod> {
    match b.linear_system_scaling {
        LinearSystemScalingChoice::Unscaled => None,
        LinearSystemScalingChoice::Ruiz => Some(ScalingMethod::Ruiz),
        LinearSystemScalingChoice::Mc19 => None,
        LinearSystemScalingChoice::SlackBased => Some(ScalingMethod::SlackBased),
    }
}

/// A partition of the KKT system is honored with an exact Hessian and the FERAL
/// backend alone.
pub open spec fn honors_schur(b: AlgorithmBuilder) -> bool {
    &&& b.hessian_approximation == HessianApproxChoice::Exact
    &&& b.kkt_schur is Some
    &&& b.linear_solver == LinearSolverChoice::Feral
}

/// The solver of the augmented system that the builder describes.
pub open spec fn solves_augmented(b: AlgorithmBuilder, s: AugSystemSolver) -> bool {
    if b.hessian_approximation == HessianApproxChoice::LimitedMemory {
        s is LowRank
    } else if honors_schur(b) {
        &&& b.kkt_schur matches Some((indices, cfg))
        &&& s is Schur
        &&& s->indices@ == indices@
        &&& s->cfg == cfg
    } else {
        s is Std
    }
}

/// The inertia correction that the builder describes.
pub open spec fn perturbation_of(b: AlgorithmBuilder) -> PdPerturbationHandler {
    PdPerturbationHandler {
        delta_xs_max: b.perturbation.max_hessian_perturbation,
        delta_xs_min: b.perturbation.min_hessian_perturbation,
        delta_xs_first_inc_fact: b.perturbation.perturb_inc_fact_first,
        delta_xs_inc_fact: b.perturbation.perturb_inc_fact,
        delta_xs_dec_fact: b.perturbation.perturb_dec_fact,
        delta_xs_init: b.perturbation.first_hessian_perturbation,
        delta_cd_val: b.perturbation.jacobian_regularization_value,
        delta_cd_exp: b.perturbation.jacobian_regularization_exponent,
        perturb_always_cd: b.perturbation.perturb_always_cd,
        delta_c_max_rungs: b.perturbation.perturb_delta_c_max_rungs,
    }
}

/// The search-direction solver that the builder describes.
pub open spec fn searches(b: AlgorithmBuilder, s: PdSearchDirCalc) -> bool {
    &&& s.backend == b.linear_solver
    &&& s.scaling == scaling_of(b)
    &&& s.scaling_on_demand == b.linear_scaling_on_demand
    &&& solves_augmented(b, s.aug_solver)
    &&& s.perturbation == perturbation_of(b)
    &&& s.refinement == b.refinement
    &&& s.mehrotra_algorithm == b.mehrotra_algorithm
    &&& s.fast_step_computation == b.fast_step_computation
}

/// The strategies that the builder describes, the search direction aside.
pub open spec fn assembles(b: AlgorithmBuilder, bundle: AlgorithmBundle) -> bool {
    &&& bundle.mu_update == mu_update_of(b)
    &&& bundle.conv_check == conv_check_of(b)
    &&& initializes(b, bundle.init)
    &&& bundle.eq_mult == EqMultCalculator::LeastSquare
    &&& bundle.hess == hess_of(b)
    &&& bundle.line_search == line_search_of(b)
    &&& bundle.iter_output == output_of(b)
}

/// A copy of the indices.
pub fn copy_indices(v: &Vec<usize>) -> (r: Vec<usize>)
    ensures
        r@ == v@,
{
    let mut r: Vec<usize> = Vec::new();
    let mut i: usize = 0;
    while i < v.len()
        invariant
            i <= v.len(),
            r@ == v@.take(i as int),
        decreases v.len() - i,
    {
        r.push(v[i]);
        i = i + 1;
        assert(v@.take(i as int) =~= v@.take(i - 1).push(v@[i - 1]));
    }
    assert(v@.take(v.len() as int) =~= v@);
    r
}

impl AlgorithmBuilder {
    fn make_mu_update(&self) -> (r: MuUpdate)
        ensures
            r == mu_update_of(*self),
    {
        match self.mu_strategy {
            MuStrategyChoice::Monotone => {
                let zero = Number { bits: D0 };
                let mu_max = if zero.less(self.mu.mu_max) {
                    self.mu.mu_max
                } else {
                    Number { bits: D1E5 }
                };
                MuUpdate::Monotone(
                    MonotoneMuUpdate {
                        mu_max,
                        mu_init: self.mu.mu_init,
                        mu_min: self.mu.mu_min,
                        mu_target: self.mu.mu_target,
                        mu_linear_decrease_factor: self.mu.mu_linear_decrease_factor,
                        mu_superlinear_decrease_power: self.mu.mu_superlinear_decrease_power,
                        mu_allow_fast_monotone_decrease: self.mu.mu_allow_fast_monotone_decrease,
                        barrier_tol_factor: self.mu.barrier_tol_factor,
                        tau_min: self.mu.tau_min,
                        compl_inf_tol: self.conv_check.compl_inf_tol,
                    },
                )
            },
            MuStrategyChoice::Adaptive => MuUpdate::Adaptive(
                AdaptiveMuUpdate {
                    mu_oracle: self.mu_oracle,
                    mu_init: self.mu.mu_init,
                    mu_max: self.mu.mu_max,
                    mu_max_fact: self.mu.mu_max_fact,
                    mu_min: self.mu.mu_min,
                    mu_linear_decrease_factor: self.mu.mu_linear_decrease_factor,
                    mu_superlinear_decrease_power: self.mu.mu_superlinear_decrease_power,
                    barrier_tol_factor: self.mu.barrier_tol_factor,
                    tau_min: self.mu.tau_min,
                    sigma_min: self.mu.sigma_min,
                    sigma_max: self.mu.sigma_max,
                    adaptive_mu_globalization: self.mu.adaptive_mu_globalization,
                    qf_norm_type: self.mu.quality_function_norm_type,
                    qf_centrality_type: self.mu.quality_function_centrality,
                    qf_balancing_term: self.mu.quality_function_balancing_term,
                    qf_max_section_steps: self.mu.quality_function_max_section_steps,
                    qf_section_sigma_tol: self.mu.quality_function_section_sigma_tol,
                    qf_section_qf_tol: self.mu.quality_function_section_qf_tol,
                    probing_iterate_quality_factor: self.mu.probing_iterate_quality_factor,
                    adaptive_mu_safeguard_factor: self.mu.adaptive_mu_safeguard_factor,
                    adaptive_mu_monotone_init_factor: self.mu.adaptive_mu_monotone_init_factor,
                    restore_accepted_iterate: self.mu.adaptive_mu_restore_previous_iterate,
                    max_free_returns: self.mu.adaptive_mu_max_free_returns,
                    budget_pin_fraction: self.mu.adaptive_mu_budget_pin_fraction,
                    adaptive_mu_kkterror_red_iters: self.mu.adaptive_mu_kkterror_red_iters,
                    adaptive_mu_kkterror_red_fact: self.mu.adaptive_mu_kkterror_red_fact,
                    filter_margin_fact: self.mu.filter_margin_fact,
                    filter_max_margin: self.mu.filter_max_margin,
                    adaptive_mu_kkt_norm: self.mu.adaptive_mu_kkt_norm_type,
                },
            ),
        }
    }

    fn make_line_search(&self) -> (r: BacktrackingLineSearch)
        ensures
            r == line_search_of(*self),
    {
        let acceptor = match self.line_search_method {
            LineSearchChoice::Filter => LsAcceptor::Filter(
                FilterLsAcceptor {
                    eta_phi: self.line_search.eta_phi,
                    delta: self.line_search.delta,
                    theta_min_fact: self.line_search.theta_min_fact,
                    theta_max_fact: self.line_search.theta_max_fact,
                    theta_max_row_scale_kappa: self.line_search.theta_max_row_scale_kappa,
                    theta_max_adaptive_trigger: self.line_search.theta_max_adaptive_trigger,
                    theta_max_adaptive_factor: self.line_search.theta_max_adaptive_factor,
                    theta_max_adaptive_max_raises: self.line_search.theta_max_adaptive_max_raises,
                    gamma_phi: self.line_search.gamma_phi,
                    gamma_theta: self.line_search.gamma_theta,
                    s_phi: self.line_search.s_phi,
                    s_theta: self.line_search.s_theta,
                    alpha_min_frac: self.line_search.alpha_min_frac,
                    obj_max_inc: self.line_search.obj_max_inc,
                    max_filter_resets: self.line_search.max_filter_resets,
                    filter_reset_trigger: self.line_search.filter_reset_trigger,
                },
            ),
            LineSearchChoice::Penalty | LineSearchChoice::CgPenalty => LsAcceptor::Penalty(
                PenaltyLsAcceptor {
                    nu_init: self.line_search.nu_init,
                    nu_inc: self.line_search.nu_inc,
                    rho: self.line_search.rho,
                    eta_penalty: self.line_search.eta_penalty,
                },
            ),
        };
        BacktrackingLineSearch {
            acceptor,
            watchdog_shortened_iter_trigger: self.line_search.watchdog_shortened_iter_trigger,
            watchdog_trial_iter_max: self.line_search.watchdog_trial_iter_max,
            soft_resto_pderror_reduction_factor: self.line_search.soft_resto_pderror_reduction_factor,
            max_soft_resto_iters: self.line_search.max_soft_resto_iters,
            accept_every_trial_step: self.line_search.accept_every_trial_step,
            alpha_for_y: self.line_search.alpha_for_y,
            alpha_red_factor: self.line_search.alpha_red_factor,
            alpha_red_factor_min: self.line_search.alpha_red_factor_min,
            accept_after_max_steps: self.line_search.accept_after_max_steps,
            max_soc: self.line_search.max_soc,
            kappa_soc: self.line_search.kappa_soc,
            soc_method: self.line_search.soc_method,
        }
    }

    fn make_conv_check(&self) -> (r: OptErrorConvCheck)
        ensures
            r == conv_check_of(*self),
    {
        OptErrorConvCheck {
            tol: self.conv_check.tol,
            dual_inf_tol: self.conv_check.dual_inf_tol,
            constr_viol_tol: self.conv_check.constr_viol_tol,
            compl_inf_tol: self.conv_check.compl_inf_tol,
            acceptable_tol: self.conv_check.acceptable_tol,
            acceptable_dual_inf_tol: self.conv_check.acceptable_dual_inf_tol,
            acceptable_constr_viol_tol: self.conv_check.acceptable_constr_viol_tol,
            acceptable_compl_inf_tol: self.conv_check.acceptable_compl_inf_tol,
            acceptable_obj_change_tol: self.conv_check.acceptable_obj_change_tol,
            acceptable_iter: self.conv_check.acceptable_iter,
            max_iter: self.conv_check.max_iter,
            max_cpu_time: self.conv_check.max_cpu_time,
            max_wall_time: self.conv_check.max_wall_time,
            infeas_stationarity_tol: self.conv_check.infeas_stationarity_tol,
            infeas_viol_kappa: self.conv_check.infeas_viol_kappa,
            infeas_max_streak: self.conv_check.infeas_max_streak,
            obj_scale_certificate_threshold: self.conv_check.obj_scale_certificate_threshold,
            acceptable_count: 0,
            last_acceptable_obj: None,
            infeas_streak: 0,
            veto_fired: false,
            acceptable_veto_fired: false,
            veto_extra_iters: 0,
        }
    }

    fn make_hess(&self) -> (r: HessianUpdater)
        ensures
            r == hess_of(*self),
    {
        match self.hessian_approximation {
            HessianApproxChoice::Exact => HessianUpdater::Exact,
            HessianApproxChoice::LimitedMemory => HessianUpdater::LimitedMemory(
                LimMemQuasiNewtonUpdater {
                    update_type: self.limited_memory_update_type,
                    max_history: self.limited_memory_max_history,
                    initialization: self.limited_memory_initialization,
                    init_val: self.limited_memory_init_val,
                    init_val_max: self.limited_memory_init_val_max,
                    init_val_min: self.limited_memory_init_val_min,
                    max_skipping: self.limited_memory_max_skipping,
                },
            ),
            HessianApproxChoice::Partitioned => HessianUpdater::Partitioned(
                PartitionedQuasiNewtonUpdater {
                    update_type: self.partitioned_update_type,
                    update_type_was_set: self.partitioned_update_type_was_set,
                    max_element: self.partitioned_max_element,
                    elements: self.partitioned_elements,
                    block_size: self.partitioned_block_size,
                    curvature_cap: self.partitioned_curvature_cap,
                },
            ),
            HessianApproxChoice::FiniteDifference => HessianUpdater::FiniteDifference(
                FdHessianUpdater {
                    pattern: self.fd_hessian_pattern,
                    coloring: self.fd_hessian_coloring,
                    reuse_tol: self.fd_hessian_reuse_tol,
                },
            ),
        }
    }

    fn make_aug_solver(&self) -> (r: AugSystemSolver)
        ensures
            solves_augmented(*self, r),
    {
        match self.hessian_approximation {
            HessianApproxChoice::LimitedMemory => AugSystemSolver::LowRank,
            HessianApproxChoice::Exact => match &self.kkt_schur {
                Some((indices, cfg)) => {
                    if self.linear_solver == LinearSolverChoice::Feral {
                        AugSystemSolver::Schur { indices: copy_indices(indices), cfg: *cfg }
                    } else {
                        AugSystemSolver::Std
                    }
                },
                None => AugSystemSolver::Std,
            },
            _ => AugSystemSolver::Std,
        }
    }

    fn build_inner(&self, search_dir: Option<PdSearchDirCalc>) -> (bundle: AlgorithmBundle)
        ensures
            assembles(*self, bundle),
            bundle.search_dir == search_dir,
    {
        let init = if self.warm_start_init_point {
            IterateInitializer::WarmStart(self.warm)
        } else {
            IterateInitializer::Cold(self.init.duplicate())
        };
        let iter_output = OrigIterationOutput {
            print_frequency_iter: self.output.print_frequency_iter,
            print_frequency_time: self.output.print_frequency_time,
            print_info_string: if self.output.print_info_string {
                PrintInfoString::Yes
            } else {
                PrintInfoString::No
            },
            inf_pr_output: if self.output.inf_pr_output_internal {
                InfPrTag::Internal
            } else {
                InfPrTag::Original
            },
        };
        AlgorithmBundle {
            mu_update: self.make_mu_update(),
            conv_check: self.make_conv_check(),
            init,
            eq_mult: EqMultCalculator::LeastSquare,
            hess: self.make_hess(),
            line_search: self.make_line_search(),
            iter_output,
            search_dir,
        }
    }

    /// The strategies without a search direction, for which no linear solver is
    /// needed.
    pub fn build(&self) -> (bundle: AlgorithmBundle)
        ensures
            assembles(*self, bundle),
            bundle.search_dir is None,
    {
        self.build_inner(None)
    }

    /// The strategies with the search direction, and the linear solver that it
    /// is to be given.
    pub fn build_with_backend(&self) -> (bundle: AlgorithmBundle)
        ensures
            assembles(*self, bundle),
            bundle.search_dir matches Some(s) && searches(*self, s),
    {
        let scaling = match self.linear_system_scaling {
            LinearSystemScalingChoice::Unscaled => None,
            LinearSystemScalingChoice::Ruiz => Some(ScalingMethod::Ruiz),
            LinearSystemScalingChoice::Mc19 => None,
            LinearSystemScalingChoice::SlackBased => Some(ScalingMethod::SlackBased),
        };
        let perturbation = PdPerturbationHandler {
            delta_xs_max: self.perturbation.max_hessian_perturbation,
            delta_xs_min: self.perturbation.min_hessian_perturbation,
            delta_xs_first_inc_fact: self.perturbation.perturb_inc_fact_first,
            delta_xs_inc_fact: self.perturbation.perturb_inc_fact,
            delta_xs_dec_fact: self.perturbation.perturb_dec_fact,
            delta_xs_init: self.perturbation.first_hessian_perturbation,
            delta_cd_val: self.perturbation.jacobian_regularization_value,
            delta_cd_exp: self.perturbation.jacobian_regularization_exponent,
            perturb_always_cd: self.perturbation.perturb_always_cd,
            delta_c_max_rungs: self.perturbation.perturb_delta_c_max_rungs,
        };
        let search_dir = PdSearchDirCalc {
            backend: self.linear_solver,
            scaling,
            scaling_on_demand: self.linear_scaling_on_demand,
            aug_solver: self.make_aug_solver(),
            perturbation,
            refinement: self.refinement,
            mehrotra_algorithm: self.mehrotra_algorithm,
            fast_step_computation: self.fast_step_computation,
        };
        self.build_inner(Some(search_dir))
    }

    /// The SQP algorithm, where the builder chose it.
    pub fn build_sqp_with_backend(&self) -> (r: Option<SqpAlgorithm>)
        ensures
            r is Some <==> self.algorithm == AlgorithmChoice::ActiveSetSqp,
            r matches Some(a) ==> a.backend == self.linear_solver && a.sqp == self.sqp
                && a.qp.same_as(self.sqp_qp),
    {
        if self.algorithm != AlgorithmChoice::ActiveSetSqp {
            return None;
        }
        Some(
            SqpAlgorithm {
                backend: self.linear_solver,
                sqp: self.sqp,
                qp: self.sqp_qp.duplicate(),
            },
        )
    }
}

/// A partition of the KKT system never displaces a backend that the caller
/// chose, nor the low-rank solver of a limited-memory Hessian.
pub proof fn law_schur_only_with_feral_and_exact(b: AlgorithmBuilder, s: AugSystemSolver)
    requires
        solves_augmented(b, s),
        s is Schur,
    ensures
        b.linear_solver == LinearSolverChoice::Feral,
        b.hessian_approximation == HessianApproxChoice::Exact,
        b.kkt_schur is Some,
{
}

} // verus!
