//! What a solve is made of: the choices, the knobs, and the strategies that
//! they are assembled into.
use crate::decimal::D0;
use crate::decimal::D1;
use crate::decimal::D11EM1;
use crate::decimal::D15EM1;
use crate::decimal::D1E1;
use crate::decimal::D1E10;
use crate::decimal::D1E2;
use crate::decimal::D1E20;
use crate::decimal::D1E3;
use crate::decimal::D1E4;
use crate::decimal::D1E6;
use crate::decimal::D1EM1;
use crate::decimal::D1EM10;
use crate::decimal::D1EM11;
use crate::decimal::D1EM2;
use crate::decimal::D1EM20;
use crate::decimal::D1EM3;
use crate::decimal::D1EM4;
use crate::decimal::D1EM5;
use crate::decimal::D1EM6;
use crate::decimal::D1EM8;
use crate::decimal::D23EM1;
use crate::decimal::D25EM2;
use crate::decimal::D2EM1;
use crate::decimal::D5;
use crate::decimal::D5EM1;
use crate::decimal::D5EM2;
use crate::decimal::D64;
use crate::decimal::D8;
use crate::decimal::D8EM1;
use crate::decimal::D999999999EM9;
use crate::decimal::D9999EM4;
use crate::decimal::D99EM2;
use crate::decimal::DM1;
use crate::decimal::ONE_THIRD;
use crate::decimal::TEN_EPSILON;
use crate::feral::FeralConfig;
use crate::number::Number;
use crate::sqp_options::QpOptions;
use crate::sqp_options::SqpOptions;
use vstd::prelude::*;

verus! {

/// The top-level algorithm.
#[derive(Clone, Copy, Debug, PartialEq, Eq, Structural)]
pub enum AlgorithmChoice {
    InteriorPoint,
    ActiveSetSqp,
}

/// The backend of the linear systems.
#[derive(Clone, Copy, Debug, PartialEq, Eq, Structural)]
pub enum LinearSolverChoice {
    Ma57,
    Feral,
}

/// Symmetric scaling of the augmented system.
#[derive(Clone, Copy, Debug, PartialEq, Eq, Structural)]
pub enum LinearSystemScalingChoice {
    Unscaled,
    /// Iterative equilibration in the max norm.
    Ruiz,
    /// Curtis-Reid scaling; not available, so it stands for no scaling.
    Mc19,
    SlackBased,
}

/// How the barrier parameter is updated.
#[derive(Clone, Copy, Debug, PartialEq, Eq, Structural)]
pub enum MuStrategyChoice {
    Monotone,
    Adaptive,
}

/// Where the Hessian of the Lagrangian comes from.
#[derive(Clone, Copy, Debug, PartialEq, Eq, Structural)]
pub enum HessianApproxChoice {
    Exact,
    LimitedMemory,
    Partitioned,
    FiniteDifference,
}

/// What accepts a trial point.
#[derive(Clone, Copy, Debug, PartialEq, Eq, Structural)]
pub enum LineSearchChoice {
    Filter,
    CgPenalty,
    Penalty,
}

/// How the adaptive strategy picks a barrier parameter.
#[derive(Clone, Copy, Debug, PartialEq, Eq, Structural)]
pub enum MuOracleKind {
    QualityFunction,
    Probing,
    Loqo,
}

/// A quasi-Newton update formula.
#[derive(Clone, Copy, Debug, PartialEq, Eq, Structural)]
pub enum UpdateType {
    Bfgs,
    Sr1,
}

/// The formula for the initial quasi-Newton scalar.
#[derive(Clone, Copy, Debug, PartialEq, Eq, Structural)]
pub enum InitialApprox {
    Scalar1,
    Scalar2,
    Scalar3,
    Scalar4,
    Constant,
    HistoryMax,
}

/// What makes the adaptive strategy fall back.
#[derive(Clone, Copy, Debug, PartialEq, Eq, Structural)]
pub enum AdaptiveMuGlobalization {
    ObjConstrFilter,
    KktError,
    NeverMonotoneMode,
}

/// The norm of the KKT error in the adaptive strategy.
#[derive(Clone, Copy, Debug, PartialEq, Eq, Structural)]
pub enum AdaptiveMuKktNorm {
    OneNorm,
    TwoNorm,
    TwoNormSquared,
    MaxNorm,
}

/// The norm of the quality function.
#[derive(Clone, Copy, Debug, PartialEq, Eq, Structural)]
pub enum NormType {
    OneNorm,
    TwoNorm,
    TwoNormSquared,
    MaxNorm,
}

/// The centrality term of the quality function.
#[derive(Clone, Copy, Debug, PartialEq, Eq, Structural)]
pub enum CentralityType {
    Off,
    LogCenter,
    ReciprocalCenter,
    CubedReciprocalCenter,
}

/// The balancing term of the quality function.
#[derive(Clone, Copy, Debug, PartialEq, Eq, Structural)]
pub enum BalancingTermType {
    Off,
    CubicTerm,
}

/// The step length of the equality multipliers.
#[derive(Clone, Copy, Debug, PartialEq, Eq, Structural)]
pub enum AlphaForY {
    Primal,
    BoundMult,
    Full,
    Min,
    Max,
}

/// Whether a warm start is recentered.
#[derive(Clone, Copy, Debug, PartialEq, Eq, Structural)]
pub enum WarmStartRecentering {
    Off,
    Residual,
}

/// Where the sparsity pattern of a finite-difference Hessian comes from.
#[derive(Clone, Copy, Debug, PartialEq, Eq, Structural)]
pub enum FdPatternSource {
    Jacobian,
    Declared,
}

/// The coloring of a finite-difference Hessian.
#[derive(Clone, Copy, Debug, PartialEq, Eq, Structural)]
pub enum FdColoring {
    Cpr,
    Star,
}

/// The elements of a partitioned quasi-Newton Hessian.
#[derive(Clone, Copy, Debug, PartialEq, Eq, Structural)]
pub enum ElementMode {
    PrimalBlock,
    PerConstraint,
}

impl Default for AlgorithmChoice {
    fn default() -> (r: AlgorithmChoice)
        ensures
            r == AlgorithmChoice::InteriorPoint,
    {
        AlgorithmChoice::InteriorPoint
    }
}

impl Default for LinearSystemScalingChoice {
    fn default() -> (r: LinearSystemScalingChoice)
        ensures
            r == LinearSystemScalingChoice::Unscaled,
    {
        LinearSystemScalingChoice::Unscaled
    }
}

/// Knobs of the convergence check.
#[derive(Clone, Copy, Debug, PartialEq, Eq, Structural)]
pub struct ConvCheckOptions {
    pub tol: Number,
    pub dual_inf_tol: Number,
    pub constr_viol_tol: Number,
    pub compl_inf_tol: Number,
    pub acceptable_tol: Number,
    pub acceptable_dual_inf_tol: Number,
    pub acceptable_constr_viol_tol: Number,
    pub acceptable_compl_inf_tol: Number,
    pub acceptable_obj_change_tol: Number,
    pub acceptable_iter: i32,
    pub max_iter: i32,
    pub max_cpu_time: Number,
    pub max_wall_time: Number,
    pub infeas_stationarity_tol: Number,
    pub infeas_viol_kappa: Number,
    pub infeas_max_streak: i32,
    /// Objective scale below which a certificate can be masked; 0 switches the veto off.
    pub obj_scale_certificate_threshold: Number,
    /// Multiple of the rounding error of a row below which its violation is noise; 0 opts out.
    pub primal_noise_floor_kappa: Number,
    /// Unset: the check keeps its own value.
    pub acceptable_progress_kappa: Option<Number>,
    /// Unset: the check keeps its own value.
    pub dual_inf_scale_kappa: Option<Number>,
}

impl ConvCheckOptions {
    /// The knobs that nobody has set.
    pub open spec fn standard() -> ConvCheckOptions {
        ConvCheckOptions {
            tol: Number { bits: D1EM8 },
            dual_inf_tol: Number { bits: D1 },
            constr_viol_tol: Number { bits: D1EM4 },
            compl_inf_tol: Number { bits: D1EM4 },
            acceptable_tol: Number { bits: D1EM6 },
            acceptable_dual_inf_tol: Number { bits: D1E10 },
            acceptable_constr_viol_tol: Number { bits: D1EM2 },
            acceptable_compl_inf_tol: Number { bits: D1EM2 },
            acceptable_obj_change_tol: Number { bits: D1E20 },
            acceptable_iter: 15,
            max_iter: 3000,
            max_cpu_time: Number { bits: D1E6 },
            max_wall_time: Number { bits: D1E6 },
            infeas_stationarity_tol: Number { bits: D1EM8 },
            infeas_viol_kappa: Number { bits: D1E2 },
            infeas_max_streak: 5,
            obj_scale_certificate_threshold: Number { bits: D1EM4 },
            primal_noise_floor_kappa: Number { bits: D64 },
            acceptable_progress_kappa: None,
            dual_inf_scale_kappa: None,
        }
    }
}

impl Default for ConvCheckOptions {
    fn default() -> (r: ConvCheckOptions)
        ensures
            r == ConvCheckOptions::standard(),
    {
        ConvCheckOptions {
            tol: Number { bits: D1EM8 },
            dual_inf_tol: Number { bits: D1 },
            constr_viol_tol: Number { bits: D1EM4 },
            compl_inf_tol: Number { bits: D1EM4 },
            acceptable_tol: Number { bits: D1EM6 },
            acceptable_dual_inf_tol: Number { bits: D1E10 },
            acceptable_constr_viol_tol: Number { bits: D1EM2 },
            acceptable_compl_inf_tol: Number { bits: D1EM2 },
            acceptable_obj_change_tol: Number { bits: D1E20 },
            acceptable_iter: 15,
            max_iter: 3000,
            max_cpu_time: Number { bits: D1E6 },
            max_wall_time: Number { bits: D1E6 },
            infeas_stationarity_tol: Number { bits: D1EM8 },
            infeas_viol_kappa: Number { bits: D1E2 },
            infeas_max_streak: 5,
            obj_scale_certificate_threshold: Number { bits: D1EM4 },
            primal_noise_floor_kappa: Number { bits: D64 },
            acceptable_progress_kappa: None,
            dual_inf_scale_kappa: None,
        }
    }
}

/// Knobs of the warm-start initializer.
#[derive(Clone, Copy, Debug, PartialEq, Eq, Structural)]
pub struct WarmStartOptions {
    pub bound_push: Number,
    pub bound_frac: Number,
    pub slack_bound_push: Number,
    pub slack_bound_frac: Number,
    pub mult_bound_push: Number,
    pub mult_init_max: Number,
    pub target_mu: Number,
    pub entire_iterate: bool,
    pub same_structure: bool,
    /// Unset: the initializer keeps its own value.
    pub recentering: Option<WarmStartRecentering>,
}

impl WarmStartOptions {
    /// The knobs that nobody has set.
    pub open spec fn standard() -> WarmStartOptions {
        WarmStartOptions {
            bound_push: Number { bits: D1EM3 },
            bound_frac: Number { bits: D1EM3 },
            slack_bound_push: Number { bits: D1EM3 },
            slack_bound_frac: Number { bits: D1EM3 },
            mult_bound_push: Number { bits: D1EM3 },
            mult_init_max: Number { bits: D1E6 },
            target_mu: Number { bits: D0 },
            entire_iterate: false,
            same_structure: false,
            recentering: None,
        }
    }
}

impl Default for WarmStartOptions {
    fn default() -> (r: WarmStartOptions)
        ensures
            r == WarmStartOptions::standard(),
    {
        WarmStartOptions {
            bound_push: Number { bits: D1EM3 },
            bound_frac: Number { bits: D1EM3 },
            slack_bound_push: Number { bits: D1EM3 },
            slack_bound_frac: Number { bits: D1EM3 },
            mult_bound_push: Number { bits: D1EM3 },
            mult_init_max: Number { bits: D1E6 },
            target_mu: Number { bits: D0 },
            entire_iterate: false,
            same_structure: false,
            recentering: None,
        }
    }
}

/// Knobs of the barrier-parameter update.
#[derive(Clone, Copy, Debug, PartialEq, Eq, Structural)]
pub struct MuOptions {
    pub mu_init: Number,
    /// Negative leaves the limit to the strategy.
    pub mu_max: Number,
    pub mu_max_fact: Number,
    pub mu_min: Number,
    pub mu_target: Number,
    pub mu_linear_decrease_factor: Number,
    pub mu_superlinear_decrease_power: Number,
    pub mu_allow_fast_monotone_decrease: bool,
    pub barrier_tol_factor: Number,
    /// Floor of the fraction-to-the-boundary parameter.
    pub tau_min: Number,
    pub sigma_max: Number,
    pub sigma_min: Number,
    pub adaptive_mu_globalization: AdaptiveMuGlobalization,
    pub quality_function_norm_type: NormType,
    pub quality_function_centrality: CentralityType,
    pub quality_function_balancing_term: BalancingTermType,
    pub quality_function_max_section_steps: i32,
    pub quality_function_section_sigma_tol: Number,
    pub quality_function_section_qf_tol: Number,
    pub adaptive_mu_safeguard_factor: Number,
    pub adaptive_mu_monotone_init_factor: Number,
    pub adaptive_mu_restore_previous_iterate: bool,
    /// Unset: the strategy keeps its own value.
    pub adaptive_mu_max_free_returns: Option<i32>,
    /// Unset: the strategy keeps its own value.
    pub adaptive_mu_budget_pin_fraction: Option<Number>,
    pub adaptive_mu_kkterror_red_iters: usize,
    pub adaptive_mu_kkterror_red_fact: Number,
    pub filter_margin_fact: Number,
    pub filter_max_margin: Number,
    pub adaptive_mu_kkt_norm_type: AdaptiveMuKktNorm,
    /// Non-positive switches the guard off.
    pub probing_iterate_quality_factor: Number,
}

impl MuOptions {
    /// The knobs that nobody has set.
    pub open spec fn standard() -> MuOptions {
        MuOptions {
            mu_init: Number { bits: D1EM1 },
            mu_max: Number { bits: DM1 },
            mu_max_fact: Number { bits: D1E3 },
            mu_min: Number { bits: D1EM11 },
            mu_target: Number { bits: D0 },
            mu_linear_decrease_factor: Number { bits: D2EM1 },
            mu_superlinear_decrease_power: Number { bits: D15EM1 },
            mu_allow_fast_monotone_decrease: true,
            barrier_tol_factor: Number { bits: D1E1 },
            tau_min: Number { bits: D99EM2 },
            sigma_max: Number { bits: D1E2 },
            sigma_min: Number { bits: D1EM6 },
            adaptive_mu_globalization: AdaptiveMuGlobalization::ObjConstrFilter,
            quality_function_norm_type: NormType::TwoNormSquared,
            quality_function_centrality: CentralityType::Off,
            quality_function_balancing_term: BalancingTermType::Off,
            quality_function_max_section_steps: 8,
            quality_function_section_sigma_tol: Number { bits: D1EM2 },
            quality_function_section_qf_tol: Number { bits: D0 },
            adaptive_mu_safeguard_factor: Number { bits: D0 },
            adaptive_mu_monotone_init_factor: Number { bits: D8EM1 },
            adaptive_mu_restore_previous_iterate: false,
            adaptive_mu_max_free_returns: None,
            adaptive_mu_budget_pin_fraction: None,
            adaptive_mu_kkterror_red_iters: 4,
            adaptive_mu_kkterror_red_fact: Number { bits: D9999EM4 },
            filter_margin_fact: Number { bits: D1EM5 },
            filter_max_margin: Number { bits: D1 },
            adaptive_mu_kkt_norm_type: AdaptiveMuKktNorm::TwoNormSquared,
            probing_iterate_quality_factor: Number { bits: D1E4 },
        }
    }
}

impl Default for MuOptions {
    fn default() -> (r: MuOptions)
        ensures
            r == MuOptions::standard(),
    {
        MuOptions {
            mu_init: Number { bits: D1EM1 },
            mu_max: Number { bits: DM1 },
            mu_max_fact: Number { bits: D1E3 },
            mu_min: Number { bits: D1EM11 },
            mu_target: Number { bits: D0 },
            mu_linear_decrease_factor: Number { bits: D2EM1 },
            mu_superlinear_decrease_power: Number { bits: D15EM1 },
            mu_allow_fast_monotone_decrease: true,
            barrier_tol_factor: Number { bits: D1E1 },
            tau_min: Number { bits: D99EM2 },
            sigma_max: Number { bits: D1E2 },
            sigma_min: Number { bits: D1EM6 },
            adaptive_mu_globalization: AdaptiveMuGlobalization::ObjConstrFilter,
            quality_function_norm_type: NormType::TwoNormSquared,
            quality_function_centrality: CentralityType::Off,
            quality_function_balancing_term: BalancingTermType::Off,
            quality_function_max_section_steps: 8,
            quality_function_section_sigma_tol: Number { bits: D1EM2 },
            quality_function_section_qf_tol: Number { bits: D0 },
            adaptive_mu_safeguard_factor: Number { bits: D0 },
            adaptive_mu_monotone_init_factor: Number { bits: D8EM1 },
            adaptive_mu_restore_previous_iterate: false,
            adaptive_mu_max_free_returns: None,
            adaptive_mu_budget_pin_fraction: None,
            adaptive_mu_kkterror_red_iters: 4,
            adaptive_mu_kkterror_red_fact: Number { bits: D9999EM4 },
            filter_margin_fact: Number { bits: D1EM5 },
            filter_max_margin: Number { bits: D1 },
            adaptive_mu_kkt_norm_type: AdaptiveMuKktNorm::TwoNormSquared,
            probing_iterate_quality_factor: Number { bits: D1E4 },
        }
    }
}

/// Knobs of the backtracking line search.
#[derive(Clone, Copy, Debug, PartialEq, Eq, Structural)]
pub struct LineSearchOptions {
    pub watchdog_shortened_iter_trigger: i32,
    pub watchdog_trial_iter_max: i32,
    /// 0 switches soft restoration off.
    pub soft_resto_pderror_reduction_factor: Number,
    pub max_soft_resto_iters: i32,
    pub accept_every_trial_step: bool,
    pub alpha_for_y: AlphaForY,
    pub alpha_red_factor: Number,
    /// Unset: backtracking is not adaptive.
    pub alpha_red_factor_min: Option<Number>,
    /// Negative switches the escape off.
    pub accept_after_max_steps: i32,
    pub eta_phi: Number,
    pub delta: Number,
    pub theta_min_fact: Number,
    pub theta_max_fact: Number,
    /// Unset: the filter keeps its own value.
    pub theta_max_row_scale_kappa: Option<Number>,
    /// Unset: the filter keeps its own value.
    pub theta_max_adaptive_trigger: Option<u32>,
    /// Unset: the filter keeps its own value.
    pub theta_max_adaptive_factor: Option<Number>,
    /// Unset: the filter keeps its own value.
    pub theta_max_adaptive_max_raises: Option<u32>,
    pub gamma_phi: Number,
    pub gamma_theta: Number,
    pub s_phi: Number,
    pub s_theta: Number,
    pub alpha_min_frac: Number,
    pub obj_max_inc: Number,
    pub max_filter_resets: i32,
    pub filter_reset_trigger: i32,
    /// Unset: the penalty acceptor keeps its own value.
    pub nu_init: Option<Number>,
    /// Unset: the penalty acceptor keeps its own value.
    pub nu_inc: Option<Number>,
    /// Unset: the penalty acceptor keeps its own value.
    pub rho: Option<Number>,
    /// Unset: the penalty acceptor keeps its own value.
    pub eta_penalty: Option<Number>,
    /// 0 switches second-order corrections off.
    pub max_soc: i32,
    pub kappa_soc: Number,
    pub soc_method: i32,
}

impl LineSearchOptions {
    /// The knobs that nobody has set.
    pub open spec fn standard() -> LineSearchOptions {
        LineSearchOptions {
            watchdog_shortened_iter_trigger: 10,
            watchdog_trial_iter_max: 3,
            soft_resto_pderror_reduction_factor: Number { bits: D9999EM4 },
            max_soft_resto_iters: 10,
            accept_every_trial_step: false,
            alpha_for_y: AlphaForY::Primal,
            alpha_red_factor: Number { bits: D5EM1 },
            alpha_red_factor_min: None,
            accept_after_max_steps: -1i32,
            eta_phi: Number { bits: D1EM8 },
            delta: Number { bits: D1 },
            theta_min_fact: Number { bits: D1EM4 },
            theta_max_fact: Number { bits: D1E4 },
            theta_max_row_scale_kappa: None,
            theta_max_adaptive_trigger: None,
            theta_max_adaptive_factor: None,
            theta_max_adaptive_max_raises: None,
            gamma_phi: Number { bits: D1EM8 },
            gamma_theta: Number { bits: D1EM5 },
            s_phi: Number { bits: D23EM1 },
            s_theta: Number { bits: D11EM1 },
            alpha_min_frac: Number { bits: D5EM2 },
            obj_max_inc: Number { bits: D5 },
            max_filter_resets: 5,
            filter_reset_trigger: 5,
            nu_init: None,
            nu_inc: None,
            rho: None,
            eta_penalty: None,
            max_soc: 4,
            kappa_soc: Number { bits: D99EM2 },
            soc_method: 0,
        }
    }
}

impl Default for LineSearchOptions {
    fn default() -> (r: LineSearchOptions)
        ensures
            r == LineSearchOptions::standard(),
    {
        LineSearchOptions {
            watchdog_shortened_iter_trigger: 10,
            watchdog_trial_iter_max: 3,
            soft_resto_pderror_reduction_factor: Number { bits: D9999EM4 },
            max_soft_resto_iters: 10,
            accept_every_trial_step: false,
            alpha_for_y: AlphaForY::Primal,
            alpha_red_factor: Number { bits: D5EM1 },
            alpha_red_factor_min: None,
            accept_after_max_steps: -1i32,
            eta_phi: Number { bits: D1EM8 },
            delta: Number { bits: D1 },
            theta_min_fact: Number { bits: D1EM4 },
            theta_max_fact: Number { bits: D1E4 },
            theta_max_row_scale_kappa: None,
            theta_max_adaptive_trigger: None,
            theta_max_adaptive_factor: None,
            theta_max_adaptive_max_raises: None,
            gamma_phi: Number { bits: D1EM8 },
            gamma_theta: Number { bits: D1EM5 },
            s_phi: Number { bits: D23EM1 },
            s_theta: Number { bits: D11EM1 },
            alpha_min_frac: Number { bits: D5EM2 },
            obj_max_inc: Number { bits: D5 },
            max_filter_resets: 5,
            filter_reset_trigger: 5,
            nu_init: None,
            nu_inc: None,
            rho: None,
            eta_penalty: None,
            max_soc: 4,
            kappa_soc: Number { bits: D99EM2 },
            soc_method: 0,
        }
    }
}

/// Knobs of the inertia correction.
#[derive(Clone, Copy, Debug, PartialEq, Eq, Structural)]
pub struct PerturbationOptions {
    pub max_hessian_perturbation: Number,
    pub min_hessian_perturbation: Number,
    pub perturb_inc_fact_first: Number,
    pub perturb_inc_fact: Number,
    pub perturb_dec_fact: Number,
    pub first_hessian_perturbation: Number,
    pub jacobian_regularization_value: Number,
    pub jacobian_regularization_exponent: Number,
    pub perturb_always_cd: bool,
    /// Unset: the handler keeps its own value.
    pub perturb_delta_c_max_rungs: Option<i32>,
}

impl PerturbationOptions {
    /// The knobs that nobody has set.
    pub open spec fn standard() -> PerturbationOptions {
        PerturbationOptions {
            max_hessian_perturbation: Number { bits: D1E20 },
            min_hessian_perturbation: Number { bits: D1EM20 },
            perturb_inc_fact_first: Number { bits: D1E2 },
            perturb_inc_fact: Number { bits: D8 },
            perturb_dec_fact: Number { bits: ONE_THIRD },
            first_hessian_perturbation: Number { bits: D1EM4 },
            jacobian_regularization_value: Number { bits: D1EM8 },
            jacobian_regularization_exponent: Number { bits: D25EM2 },
            perturb_always_cd: false,
            perturb_delta_c_max_rungs: None,
        }
    }
}

impl Default for PerturbationOptions {
    fn default() -> (r: PerturbationOptions)
        ensures
            r == PerturbationOptions::standard(),
    {
        PerturbationOptions {
            max_hessian_perturbation: Number { bits: D1E20 },
            min_hessian_perturbation: Number { bits: D1EM20 },
            perturb_inc_fact_first: Number { bits: D1E2 },
            perturb_inc_fact: Number { bits: D8 },
            perturb_dec_fact: Number { bits: ONE_THIRD },
            first_hessian_perturbation: Number { bits: D1EM4 },
            jacobian_regularization_value: Number { bits: D1EM8 },
            jacobian_regularization_exponent: Number { bits: D25EM2 },
            perturb_always_cd: false,
            perturb_delta_c_max_rungs: None,
        }
    }
}

/// Knobs of the restoration phase.
#[derive(Clone, Copy, Debug, PartialEq, Eq, Structural)]
pub struct RestoOptions {
    pub bound_mult_reset_threshold: Number,
    pub constr_mult_reset_threshold: Number,
    pub resto_penalty_parameter: Number,
    pub resto_proximity_weight: Number,
    /// Unset: the restoration phase keeps its own value.
    pub required_infeasibility_reduction: Option<Number>,
    /// Unset: the restoration phase keeps its own value.
    pub evaluate_orig_obj_at_resto_trial: Option<bool>,
    /// Unset: the restoration phase keeps its own value.
    pub expect_infeasible_problem: Option<bool>,
    /// Unset: the restoration phase keeps its own value.
    pub start_with_resto: Option<bool>,
    pub max_resto_iter: i32,
}

impl RestoOptions {
    /// The knobs that nobody has set.
    pub open spec fn standard() -> RestoOptions {
        RestoOptions {
            bound_mult_reset_threshold: Number { bits: D1E3 },
            constr_mult_reset_threshold: Number { bits: D0 },
            resto_penalty_parameter: Number { bits: D1E3 },
            resto_proximity_weight: Number { bits: D1 },
            required_infeasibility_reduction: None,
            evaluate_orig_obj_at_resto_trial: None,
            expect_infeasible_problem: None,
            start_with_resto: None,
            max_resto_iter: 3000,
        }
    }
}

impl Default for RestoOptions {
    fn default() -> (r: RestoOptions)
        ensures
            r == RestoOptions::standard(),
    {
        RestoOptions {
            bound_mult_reset_threshold: Number { bits: D1E3 },
            constr_mult_reset_threshold: Number { bits: D0 },
            resto_penalty_parameter: Number { bits: D1E3 },
            resto_proximity_weight: Number { bits: D1 },
            required_infeasibility_reduction: None,
            evaluate_orig_obj_at_resto_trial: None,
            expect_infeasible_problem: None,
            start_with_resto: None,
            max_resto_iter: 3000,
        }
    }
}

/// Knobs of the iterative refinement.
#[derive(Clone, Copy, Debug, PartialEq, Eq, Structural)]
pub struct RefinementOptions {
    pub min_refinement_steps: i32,
    pub max_refinement_steps: i32,
    pub residual_ratio_max: Number,
    pub residual_ratio_singular: Number,
    pub residual_improvement_factor: Number,
    /// 0 leaves the inertia check in charge.
    pub neg_curv_test_tol: Number,
    /// Unset: the solver keeps its own value.
    pub neg_curv_test_reg: Option<bool>,
}

impl RefinementOptions {
    /// The knobs that nobody has set.
    pub open spec fn standard() -> RefinementOptions {
        RefinementOptions {
            min_refinement_steps: 1,
            max_refinement_steps: 10,
            residual_ratio_max: Number { bits: D1EM10 },
            residual_ratio_singular: Number { bits: D1EM5 },
            residual_improvement_factor: Number { bits: D999999999EM9 },
            neg_curv_test_tol: Number { bits: D0 },
            neg_curv_test_reg: None,
        }
    }
}

impl Default for RefinementOptions {
    fn default() -> (r: RefinementOptions)
        ensures
            r == RefinementOptions::standard(),
    {
        RefinementOptions {
            min_refinement_steps: 1,
            max_refinement_steps: 10,
            residual_ratio_max: Number { bits: D1EM10 },
            residual_ratio_singular: Number { bits: D1EM5 },
            residual_improvement_factor: Number { bits: D999999999EM9 },
            neg_curv_test_tol: Number { bits: D0 },
            neg_curv_test_reg: None,
        }
    }
}

/// Knobs of the iteration output.
#[derive(Clone, Copy, Debug, PartialEq, Eq, Structural)]
pub struct OutputOptions {
    pub print_frequency_iter: i32,
    pub print_frequency_time: Number,
    pub print_info_string: bool,
    /// Print the violation of the reformulated problem rather than of the given one.
    pub inf_pr_output_internal: bool,
}

impl OutputOptions {
    /// The knobs that nobody has set.
    pub open spec fn standard() -> OutputOptions {
        OutputOptions {
            print_frequency_iter: 1,
            print_frequency_time: Number { bits: D0 },
            print_info_string: false,
            inf_pr_output_internal: false,
        }
    }
}

impl Default for OutputOptions {
    fn default() -> (r: OutputOptions)
        ensures
            r == OutputOptions::standard(),
    {
        OutputOptions {
            print_frequency_iter: 1,
            print_frequency_time: Number { bits: D0 },
            print_info_string: false,
            inf_pr_output_internal: false,
        }
    }
}

/// Knobs of the default initializer.
#[derive(Debug)]
pub struct InitOptions {
    pub bound_push: Number,
    pub bound_frac: Number,
    pub slack_bound_push: Number,
    pub slack_bound_frac: Number,
    pub constr_mult_init_max: Number,
    pub bound_mult_init_val: Number,
    /// `constant` or `mu-based`.
    pub bound_mult_init_method: String,
    /// Start from the least-norm point that satisfies the linearized
    /// constraints.
    pub least_square_init_primal: bool,
}

impl InitOptions {
    /// The knobs that nobody has set.
    pub open spec fn is_standard(self) -> bool {
        &&& self.bound_push == Number { bits: D1EM2 }
        &&& self.bound_frac == Number { bits: D1EM2 }
        &&& self.slack_bound_push == Number { bits: D1EM2 }
        &&& self.slack_bound_frac == Number { bits: D1EM2 }
        &&& self.constr_mult_init_max == Number { bits: D1E3 }
        &&& self.bound_mult_init_val == Number { bits: D1 }
        &&& self.bound_mult_init_method@ == "constant"@
        &&& !self.least_square_init_primal
    }

    /// The two hold the same.
    pub open spec fn same_as(self, other: InitOptions) -> bool {
        &&& self.bound_push == other.bound_push
        &&& self.bound_frac == other.bound_frac
        &&& self.slack_bound_push == other.slack_bound_push
        &&& self.slack_bound_frac == other.slack_bound_frac
        &&& self.constr_mult_init_max == other.constr_mult_init_max
        &&& self.bound_mult_init_val == other.bound_mult_init_val
        &&& self.bound_mult_init_method@ == other.bound_mult_init_method@
        &&& self.least_square_init_primal == other.least_square_init_primal
    }

    /// A copy.
    pub fn duplicate(&self) -> (r: InitOptions)
        ensures
            r.same_as(*self),
    {
        InitOptions {
            bound_push: self.bound_push,
            bound_frac: self.bound_frac,
            slack_bound_push: self.slack_bound_push,
            slack_bound_frac: self.slack_bound_frac,
            constr_mult_init_max: self.constr_mult_init_max,
            bound_mult_init_val: self.bound_mult_init_val,
            bound_mult_init_method: self.bound_mult_init_method.clone(),
            least_square_init_primal: self.least_square_init_primal,
        }
    }
}

impl Default for InitOptions {
    fn default() -> (r: InitOptions)
        ensures
            r.is_standard(),
    {
        InitOptions {
            bound_push: Number { bits: D1EM2 },
            bound_frac: Number { bits: D1EM2 },
            slack_bound_push: Number { bits: D1EM2 },
            slack_bound_frac: Number { bits: D1EM2 },
            constr_mult_init_max: Number { bits: D1E3 },
            bound_mult_init_val: Number { bits: D1 },
            bound_mult_init_method: "constant".to_owned(),
            least_square_init_primal: false,
        }
    }
}

/// Every choice and knob that goes into assembling an algorithm.
#[derive(Debug)]
pub struct AlgorithmBuilder {
    pub algorithm: AlgorithmChoice,
    /// The backend that will in fact run.
    pub linear_solver: LinearSolverChoice,
    pub linear_system_scaling: LinearSystemScalingChoice,
    /// Scale only once a solve asks for it.
    pub linear_scaling_on_demand: bool,
    pub mu_strategy: MuStrategyChoice,
    /// Read by the adaptive strategy only.
    pub mu_oracle: MuOracleKind,
    pub hessian_approximation: HessianApproxChoice,
    pub limited_memory_update_type: UpdateType,
    pub limited_memory_max_history: i32,
    pub limited_memory_initialization: InitialApprox,
    pub limited_memory_init_val: Number,
    /// Unset: the updater keeps its own value.
    pub limited_memory_init_val_max: Option<Number>,
    /// Unset: the updater keeps its own value.
    pub limited_memory_init_val_min: Option<Number>,
    /// Unset: the updater keeps its own value.
    pub limited_memory_max_skipping: Option<i32>,
    /// Unset: the algorithm keeps its own value.
    pub limited_memory_ls_failure_restarts: Option<i32>,
    pub partitioned_update_type: UpdateType,
    pub partitioned_update_type_was_set: bool,
    /// Unset: the updater keeps its own value.
    pub partitioned_max_element: Option<usize>,
    /// Unset: the updater keeps its own value.
    pub partitioned_elements: Option<ElementMode>,
    /// Unset: the updater keeps its own value.
    pub partitioned_block_size: Option<usize>,
    /// Unset: the updater keeps its own value.
    pub partitioned_curvature_cap: Option<Number>,
    /// Unset: the updater keeps its own value.
    pub fd_hessian_pattern: Option<FdPatternSource>,
    /// Unset: the updater keeps its own value.
    pub fd_hessian_coloring: Option<FdColoring>,
    /// Unset: the updater keeps its own value.
    pub fd_hessian_reuse_tol: Option<Number>,
    pub line_search_method: LineSearchChoice,
    pub warm_start_init_point: bool,
    pub mehrotra_algorithm: bool,
    pub fast_step_computation: bool,
    pub recalc_y: bool,
    pub recalc_y_feas_tol: Number,
    pub kappa_sigma: Number,
    pub kappa_d: Number,
    pub s_max: Number,
    /// Ten times the machine precision.
    pub tiny_step_tol: Number,
    pub tiny_step_y_tol: Number,
    pub diverging_iterates_tol: Number,
    /// 0 switches the guard off.
    pub dual_diverging_streak: i32,
    /// Unset: the algorithm keeps its own value.
    pub dual_divergence_retry_step_tol: Option<Number>,
    pub dual_divergence_retry_du_floor: Number,
    /// Unset: the algorithm keeps its own value.
    pub resto_decline_deferrals: Option<i32>,
    /// Unset: the algorithm keeps its own value.
    pub resto_decline_progress_ratio: Option<Number>,
    /// Unset: the algorithm keeps its own value.
    pub neg_curv_escapes: Option<i32>,
    /// 0 switches the fidelity gate off.
    pub kkt_fidelity_tol: Number,
    pub conv_check: ConvCheckOptions,
    pub mu: MuOptions,
    pub line_search: LineSearchOptions,
    pub refinement: RefinementOptions,
    pub perturbation: PerturbationOptions,
    pub resto: RestoOptions,
    pub output: OutputOptions,
    pub warm: WarmStartOptions,
    pub sqp: SqpOptions,
    pub sqp_qp: QpOptions,
    pub init: InitOptions,
    /// A partition of the KKT system: its indices, and the configuration of the
    /// solvers of the blocks.
    pub kkt_schur: Option<(Vec<usize>, FeralConfig)>,
}

impl AlgorithmBuilder {
    /// Nothing but the SQP options has been configured.
    pub open spec fn is_standard_but_for_sqp(self) -> bool {
        &&& self.algorithm == AlgorithmChoice::InteriorPoint
        &&& self.linear_solver == LinearSolverChoice::Feral
        &&& self.linear_system_scaling == LinearSystemScalingChoice::Unscaled
        &&& self.linear_scaling_on_demand == true
        &&& self.mu_strategy == MuStrategyChoice::Monotone
        &&& self.mu_oracle == MuOracleKind::QualityFunction
        &&& self.hessian_approximation == HessianApproxChoice::Exact
        &&& self.limited_memory_update_type == UpdateType::Bfgs
        &&& self.limited_memory_max_history == 6
        &&& self.limited_memory_initialization == InitialApprox::Scalar1
        &&& self.limited_memory_init_val == Number { bits: D1 }
        &&& self.limited_memory_init_val_max is None
        &&& self.limited_memory_init_val_min is None
        &&& self.limited_memory_max_skipping is None
        &&& self.limited_memory_ls_failure_restarts is None
        &&& self.partitioned_update_type == UpdateType::Sr1
        &&& self.partitioned_update_type_was_set == false
        &&& self.partitioned_max_element is None
        &&& self.partitioned_elements is None
        &&& self.partitioned_block_size is None
        &&& self.partitioned_curvature_cap is None
        &&& self.fd_hessian_pattern is None
        &&& self.fd_hessian_coloring is None
        &&& self.fd_hessian_reuse_tol is None
        &&& self.line_search_method == LineSearchChoice::Filter
        &&& self.warm_start_init_point == false
        &&& self.mehrotra_algorithm == false
        &&& self.fast_step_computation == false
        &&& self.recalc_y == false
        &&& self.recalc_y_feas_tol == Number { bits: D1EM6 }
        &&& self.kappa_sigma == Number { bits: D1E10 }
        &&& self.kappa_d == Number { bits: D1EM5 }
        &&& self.s_max == Number { bits: D1E2 }
        &&& self.tiny_step_tol == Number { bits: TEN_EPSILON }
        &&& self.tiny_step_y_tol == Number { bits: D1EM2 }
        &&& self.diverging_iterates_tol == Number { bits: D1E20 }
        &&& self.dual_diverging_streak == 0
        &&& self.dual_divergence_retry_step_tol is None
        &&& self.dual_divergence_retry_du_floor == Number { bits: D1E2 }
        &&& self.resto_decline_deferrals is None
        &&& self.resto_decline_progress_ratio is None
        &&& self.neg_curv_escapes is None
        &&& self.kkt_fidelity_tol == Number { bits: D0 }
        &&& self.conv_check == ConvCheckOptions::standard()
        &&& self.mu == MuOptions::standard()
        &&& self.line_search == LineSearchOptions::standard()
        &&& self.refinement == RefinementOptions::standard()
        &&& self.perturbation == PerturbationOptions::standard()
        &&& self.resto == RestoOptions::standard()
        &&& self.output == OutputOptions::standard()
        &&& self.warm == WarmStartOptions::standard()
        &&& self.init.is_standard()
        &&& self.kkt_schur is None
    }

    /// The builder that nothing has configured.
    pub open spec fn is_standard(self) -> bool {
        &&& self.is_standard_but_for_sqp()
        &&& self.sqp == SqpOptions::standard()
        &&& self.sqp_qp == QpOptions::standard()
    }

    /// The builder that nothing has configured.
    pub fn new() -> (r: AlgorithmBuilder)
        ensures
            r.is_standard(),
    {
        AlgorithmBuilder {
            algorithm: AlgorithmChoice::InteriorPoint,
            linear_solver: LinearSolverChoice::Feral,
            linear_system_scaling: LinearSystemScalingChoice::Unscaled,
            linear_scaling_on_demand: true,
            mu_strategy: MuStrategyChoice::Monotone,
            mu_oracle: MuOracleKind::QualityFunction,
            hessian_approximation: HessianApproxChoice::Exact,
            limited_memory_update_type: UpdateType::Bfgs,
            limited_memory_max_history: 6,
            limited_memory_initialization: InitialApprox::Scalar1,
            limited_memory_init_val: Number { bits: D1 },
            limited_memory_init_val_max: None,
            limited_memory_init_val_min: None,
            limited_memory_max_skipping: None,
            limited_memory_ls_failure_restarts: None,
            partitioned_update_type: UpdateType::Sr1,
            partitioned_update_type_was_set: false,
            partitioned_max_element: None,
            partitioned_elements: None,
            partitioned_block_size: None,
            partitioned_curvature_cap: None,
            fd_hessian_pattern: None,
            fd_hessian_coloring: None,
            fd_hessian_reuse_tol: None,
            line_search_method: LineSearchChoice::Filter,
            warm_start_init_point: false,
            mehrotra_algorithm: false,
            fast_step_computation: false,
            recalc_y: false,
            recalc_y_feas_tol: Number { bits: D1EM6 },
            kappa_sigma: Number { bits: D1E10 },
            kappa_d: Number { bits: D1EM5 },
            s_max: Number { bits: D1E2 },
            tiny_step_tol: Number { bits: TEN_EPSILON },
            tiny_step_y_tol: Number { bits: D1EM2 },
            diverging_iterates_tol: Number { bits: D1E20 },
            dual_diverging_streak: 0,
            dual_divergence_retry_step_tol: None,
            dual_divergence_retry_du_floor: Number { bits: D1E2 },
            resto_decline_deferrals: None,
            resto_decline_progress_ratio: None,
            neg_curv_escapes: None,
            kkt_fidelity_tol: Number { bits: D0 },
            conv_check: ConvCheckOptions::default(),
            mu: MuOptions::default(),
            line_search: LineSearchOptions::default(),
            refinement: RefinementOptions::default(),
            perturbation: PerturbationOptions::default(),
            resto: RestoOptions::default(),
            output: OutputOptions::default(),
            warm: WarmStartOptions::default(),
            sqp: SqpOptions::default(),
            sqp_qp: QpOptions::default(),
            init: InitOptions::default(),
            kkt_schur: None,
        }
    }

    /// Installs a partition of the KKT system.
    pub fn set_kkt_schur(&mut self, schur_indices: Vec<usize>, cfg: FeralConfig)
        ensures
            *final(self) == (AlgorithmBuilder {
                kkt_schur: Some((schur_indices, cfg)),
                ..*old(self)
            }),
    {
        self.kkt_schur = Some((schur_indices, cfg));
    }
}

impl Default for AlgorithmBuilder {
    fn default() -> (r: AlgorithmBuilder)
        ensures
            r.is_standard(),
    {
        AlgorithmBuilder::new()
    }
}

} // verus!
