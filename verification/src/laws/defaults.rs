//! What stands where nobody has configured anything.
use crate::alg_builder::AlgorithmBuilder;
use crate::alg_builder::AdaptiveMuGlobalization;
use crate::alg_builder::AdaptiveMuKktNorm;
use crate::alg_builder::AlgorithmChoice;
use crate::alg_builder::AlphaForY;
use crate::alg_builder::BalancingTermType;
use crate::alg_builder::CentralityType;
use crate::alg_builder::HessianApproxChoice;
use crate::alg_builder::InitialApprox;
use crate::alg_builder::LineSearchChoice;
use crate::alg_builder::LinearSolverChoice;
use crate::alg_builder::LinearSystemScalingChoice;
use crate::alg_builder::MuOracleKind;
use crate::alg_builder::MuStrategyChoice;
use crate::alg_builder::NormType;
use crate::alg_builder::UpdateType;
use crate::application::IpoptApplication;
use crate::assembly::AlgorithmBundle;
use crate::conv_check::opt_error::OptErrorConvCheck;
use crate::decimal::D0;
use crate::decimal::D1;
use crate::decimal::D11EM1;
use crate::decimal::D15EM1;
use crate::decimal::D1E1;
use crate::decimal::D1E10;
use crate::decimal::D1E2;
use crate::decimal::D1E20;
use crate::decimal::D1E3;
use crate::decimal::D1E4;
use crate::decimal::D1E6;
use crate::decimal::D1EM1;
use crate::decimal::D1EM10;
use crate::decimal::D1EM11;
use crate::decimal::D1EM2;
use crate::decimal::D1EM20;
use crate::decimal::D1EM3;
use crate::decimal::D1EM4;
use crate::decimal::D1EM5;
use crate::decimal::D1EM6;
use crate::decimal::D1EM8;
use crate::decimal::D23EM1;
use crate::decimal::D25EM2;
use crate::decimal::D2EM1;
use crate::decimal::D5;
use crate::decimal::D5EM1;
use crate::decimal::D5EM2;
use crate::decimal::D64;
use crate::decimal::D8;
use crate::decimal::D8EM1;
use crate::decimal::D999999999EM9;
use crate::decimal::D9999EM4;
use crate::decimal::D99EM2;
use crate::decimal::DM1;
use crate::decimal::ONE_THIRD;
use crate::decimal::TEN_EPSILON;
use crate::laws::given::number_given;
use crate::number::Number;
use vstd::prelude::*;

verus! {

/// A builder that nothing has configured runs the interior-point algorithm with
/// an exact Hessian, the monotone barrier, the filter and FERAL, and has the
/// documented values in its own knobs.
pub proof fn law_fresh_builder(b: AlgorithmBuilder)
    requires
        call_ensures(AlgorithmBuilder::new, (), b),
    ensures
        b.algorithm == AlgorithmChoice::InteriorPoint,
        b.linear_solver == LinearSolverChoice::Feral,
        b.linear_system_scaling == LinearSystemScalingChoice::Unscaled,
        b.linear_scaling_on_demand == true,
        b.mu_strategy == MuStrategyChoice::Monotone,
        b.mu_oracle == MuOracleKind::QualityFunction,
        b.hessian_approximation == HessianApproxChoice::Exact,
        b.limited_memory_update_type == UpdateType::Bfgs,
        b.limited_memory_max_history == 6,
        b.limited_memory_initialization == InitialApprox::Scalar1,
        b.limited_memory_init_val == (Number { bits: D1 }),
        b.limited_memory_init_val_max is None,
        b.limited_memory_init_val_min is None,
        b.limited_memory_max_skipping is None,
        b.limited_memory_ls_failure_restarts is None,
        b.partitioned_update_type == UpdateType::Sr1,
        b.partitioned_update_type_was_set == false,
        b.partitioned_max_element is None,
        b.partitioned_elements is None,
        b.partitioned_block_size is None,
        b.partitioned_curvature_cap is None,
        b.fd_hessian_pattern is None,
        b.fd_hessian_coloring is None,
        b.fd_hessian_reuse_tol is None,
        b.line_search_method == LineSearchChoice::Filter,
        b.warm_start_init_point == false,
        b.mehrotra_algorithm == false,
        b.fast_step_computation == false,
        b.recalc_y == false,
        b.recalc_y_feas_tol == (Number { bits: D1EM6 }),
        b.kappa_sigma == (Number { bits: D1E10 }),
        b.kappa_d == (Number { bits: D1EM5 }),
        b.s_max == (Number { bits: D1E2 }),
        b.tiny_step_tol == (Number { bits: TEN_EPSILON }),
        b.tiny_step_y_tol == (Number { bits: D1EM2 }),
        b.diverging_iterates_tol == (Number { bits: D1E20 }),
        b.dual_diverging_streak == 0,
        b.dual_divergence_retry_step_tol is None,
        b.dual_divergence_retry_du_floor == (Number { bits: D1E2 }),
        b.resto_decline_deferrals is None,
        b.resto_decline_progress_ratio is None,
        b.neg_curv_escapes is None,
        b.kkt_fidelity_tol == (Number { bits: D0 }),
        b.kkt_schur is None,
        b.sqp.tol is None,
        b.sqp.max_iter is None,
        b.sqp.hessian is None,
        !b.sqp_qp.certify_second_order,
        b.sqp_qp.max_iter is None,
{
}

/// Its knobs of the convergence check have the documented values.
pub proof fn law_fresh_conv_check(b: AlgorithmBuilder)
    requires
        call_ensures(AlgorithmBuilder::new, (), b),
    ensures
        b.conv_check.tol == (Number { bits: D1EM8 }),
        b.conv_check.dual_inf_tol == (Number { bits: D1 }),
        b.conv_check.constr_viol_tol == (Number { bits: D1EM4 }),
        b.conv_check.compl_inf_tol == (Number { bits: D1EM4 }),
        b.conv_check.acceptable_tol == (Number { bits: D1EM6 }),
        b.conv_check.acceptable_dual_inf_tol == (Number { bits: D1E10 }),
        b.conv_check.acceptable_constr_viol_tol == (Number { bits: D1EM2 }),
        b.conv_check.acceptable_compl_inf_tol == (Number { bits: D1EM2 }),
        b.conv_check.acceptable_obj_change_tol == (Number { bits: D1E20 }),
        b.conv_check.acceptable_iter == 15,
        b.conv_check.max_iter == 3000,
        b.conv_check.max_cpu_time == (Number { bits: D1E6 }),
        b.conv_check.max_wall_time == (Number { bits: D1E6 }),
        b.conv_check.infeas_stationarity_tol == (Number { bits: D1EM8 }),
        b.conv_check.infeas_viol_kappa == (Number { bits: D1E2 }),
        b.conv_check.infeas_max_streak == 5,
        b.conv_check.obj_scale_certificate_threshold == (Number { bits: D1EM4 }),
        b.conv_check.primal_noise_floor_kappa == (Number { bits: D64 }),
        b.conv_check.acceptable_progress_kappa is None,
        b.conv_check.dual_inf_scale_kappa is None,
{
}

/// Its knobs of the warm start have the documented values.
pub proof fn law_fresh_warm(b: AlgorithmBuilder)
    requires
        call_ensures(AlgorithmBuilder::new, (), b),
    ensures
        b.warm.bound_push == (Number { bits: D1EM3 }),
        b.warm.bound_frac == (Number { bits: D1EM3 }),
        b.warm.slack_bound_push == (Number { bits: D1EM3 }),
        b.warm.slack_bound_frac == (Number { bits: D1EM3 }),
        b.warm.mult_bound_push == (Number { bits: D1EM3 }),
        b.warm.mult_init_max == (Number { bits: D1E6 }),
        b.warm.target_mu == (Number { bits: D0 }),
        !b.warm.entire_iterate,
        !b.warm.same_structure,
        b.warm.recentering is None,
{
}

/// Its knobs of the barrier strategies have the documented values.
pub proof fn law_fresh_mu(b: AlgorithmBuilder)
    requires
        call_ensures(AlgorithmBuilder::new, (), b),
    ensures
        b.mu.mu_init == (Number { bits: D1EM1 }),
        b.mu.mu_max == (Number { bits: DM1 }),
        b.mu.mu_max_fact == (Number { bits: D1E3 }),
        b.mu.mu_min == (Number { bits: D1EM11 }),
        b.mu.mu_target == (Number { bits: D0 }),
        b.mu.mu_linear_decrease_factor == (Number { bits: D2EM1 }),
        b.mu.mu_superlinear_decrease_power == (Number { bits: D15EM1 }),
        b.mu.mu_allow_fast_monotone_decrease,
        b.mu.barrier_tol_factor == (Number { bits: D1E1 }),
        b.mu.tau_min == (Number { bits: D99EM2 }),
        b.mu.sigma_max == (Number { bits: D1E2 }),
        b.mu.sigma_min == (Number { bits: D1EM6 }),
        b.mu.adaptive_mu_globalization == AdaptiveMuGlobalization::ObjConstrFilter,
        b.mu.quality_function_norm_type == NormType::TwoNormSquared,
        b.mu.quality_function_centrality == CentralityType::Off,
        b.mu.quality_function_balancing_term == BalancingTermType::Off,
        b.mu.quality_function_max_section_steps == 8,
        b.mu.quality_function_section_sigma_tol == (Number { bits: D1EM2 }),
        b.mu.quality_function_section_qf_tol == (Number { bits: D0 }),
        b.mu.adaptive_mu_safeguard_factor == (Number { bits: D0 }),
        b.mu.adaptive_mu_monotone_init_factor == (Number { bits: D8EM1 }),
        !b.mu.adaptive_mu_restore_previous_iterate,
        b.mu.adaptive_mu_max_free_returns is None,
        b.mu.adaptive_mu_budget_pin_fraction is None,
        b.mu.adaptive_mu_kkterror_red_iters == 4,
        b.mu.adaptive_mu_kkterror_red_fact == (Number { bits: D9999EM4 }),
        b.mu.filter_margin_fact == (Number { bits: D1EM5 }),
        b.mu.filter_max_margin == (Number { bits: D1 }),
        b.mu.adaptive_mu_kkt_norm_type == AdaptiveMuKktNorm::TwoNormSquared,
        b.mu.probing_iterate_quality_factor == (Number { bits: D1E4 }),
{
}

/// Its knobs of the line search have the documented values.
pub proof fn law_fresh_line_search(b: AlgorithmBuilder)
    requires
        call_ensures(AlgorithmBuilder::new, (), b),
    ensures
        b.line_search.watchdog_shortened_iter_trigger == 10,
        b.line_search.watchdog_trial_iter_max == 3,
        b.line_search.soft_resto_pderror_reduction_factor == (Number { bits: D9999EM4 }),
        b.line_search.max_soft_resto_iters == 10,
        !b.line_search.accept_every_trial_step,
        b.line_search.alpha_for_y == AlphaForY::Primal,
        b.line_search.alpha_red_factor == (Number { bits: D5EM1 }),
        b.line_search.alpha_red_factor_min is None,
        b.line_search.accept_after_max_steps == -1i32,
        b.line_search.eta_phi == (Number { bits: D1EM8 }),
        b.line_search.delta == (Number { bits: D1 }),
        b.line_search.theta_min_fact == (Number { bits: D1EM4 }),
        b.line_search.theta_max_fact == (Number { bits: D1E4 }),
        b.line_search.theta_max_row_scale_kappa is None,
        b.line_search.theta_max_adaptive_trigger is None,
        b.line_search.theta_max_adaptive_factor is None,
        b.line_search.theta_max_adaptive_max_raises is None,
        b.line_search.gamma_phi == (Number { bits: D1EM8 }),
        b.line_search.gamma_theta == (Number { bits: D1EM5 }),
        b.line_search.s_phi == (Number { bits: D23EM1 }),
        b.line_search.s_theta == (Number { bits: D11EM1 }),
        b.line_search.alpha_min_frac == (Number { bits: D5EM2 }),
        b.line_search.obj_max_inc == (Number { bits: D5 }),
        b.line_search.max_filter_resets == 5,
        b.line_search.filter_reset_trigger == 5,
        b.line_search.nu_init is None,
        b.line_search.nu_inc is None,
        b.line_search.rho is None,
        b.line_search.eta_penalty is None,
        b.line_search.max_soc == 4,
        b.line_search.kappa_soc == (Number { bits: D99EM2 }),
        b.line_search.soc_method == 0,
{
}

/// Its knobs of the inertia correction have the documented values.
pub proof fn law_fresh_perturbation(b: AlgorithmBuilder)
    requires
        call_ensures(AlgorithmBuilder::new, (), b),
    ensures
        b.perturbation.max_hessian_perturbation == (Number { bits: D1E20 }),
        b.perturbation.min_hessian_perturbation == (Number { bits: D1EM20 }),
        b.perturbation.perturb_inc_fact_first == (Number { bits: D1E2 }),
        b.perturbation.perturb_inc_fact == (Number { bits: D8 }),
        b.perturbation.perturb_dec_fact == (Number { bits: ONE_THIRD }),
        b.perturbation.first_hessian_perturbation == (Number { bits: D1EM4 }),
        b.perturbation.jacobian_regularization_value == (Number { bits: D1EM8 }),
        b.perturbation.jacobian_regularization_exponent == (Number { bits: D25EM2 }),
        !b.perturbation.perturb_always_cd,
        b.perturbation.perturb_delta_c_max_rungs is None,
{
}

/// Its knobs of the restoration phase have the documented values.
pub proof fn law_fresh_resto(b: AlgorithmBuilder)
    requires
        call_ensures(AlgorithmBuilder::new, (), b),
    ensures
        b.resto.bound_mult_reset_threshold == (Number { bits: D1E3 }),
        b.resto.constr_mult_reset_threshold == (Number { bits: D0 }),
        b.resto.resto_penalty_parameter == (Number { bits: D1E3 }),
        b.resto.resto_proximity_weight == (Number { bits: D1 }),
        b.resto.required_infeasibility_reduction is None,
        b.resto.evaluate_orig_obj_at_resto_trial is None,
        b.resto.expect_infeasible_problem is None,
        b.resto.start_with_resto is None,
        b.resto.max_resto_iter == 3000,
{
}

/// Its knobs of the iterative refinement have the documented values.
pub proof fn law_fresh_refinement(b: AlgorithmBuilder)
    requires
        call_ensures(AlgorithmBuilder::new, (), b),
    ensures
        b.refinement.min_refinement_steps == 1,
        b.refinement.max_refinement_steps == 10,
        b.refinement.residual_ratio_max == (Number { bits: D1EM10 }),
        b.refinement.residual_ratio_singular == (Number { bits: D1EM5 }),
        b.refinement.residual_improvement_factor == (Number { bits: D999999999EM9 }),
        b.refinement.neg_curv_test_tol == (Number { bits: D0 }),
        b.refinement.neg_curv_test_reg is None,
{
}

/// Its knobs of the iteration output have the documented values.
pub proof fn law_fresh_output(b: AlgorithmBuilder)
    requires
        call_ensures(AlgorithmBuilder::new, (), b),
    ensures
        b.output.print_frequency_iter == 1,
        b.output.print_frequency_time == (Number { bits: D0 }),
        !b.output.print_info_string,
        !b.output.inf_pr_output_internal,
{
}

/// A fresh convergence check is the one that a fresh builder assembles.
pub proof fn law_fresh_check(b: AlgorithmBuilder, r: AlgorithmBundle, c: OptErrorConvCheck)
    requires
        call_ensures(AlgorithmBuilder::new, (), b),
        call_ensures(AlgorithmBuilder::build, (&b,), r),
        call_ensures(OptErrorConvCheck::new, (), c),
    ensures
        r.conv_check == c,
{
}

/// The builder of an SQP solve is a fresh one but for the SQP knobs that the
/// options set.
pub proof fn law_sqp_builder_is_fresh(
    a: IpoptApplication,
    accepted: bool,
    s: AlgorithmBuilder,
    b: AlgorithmBuilder,
)
    requires
        call_ensures(IpoptApplication::algorithm_builder_snapshot, (&a, accepted), s),
        call_ensures(AlgorithmBuilder::new, (), b),
    ensures
        s.algorithm == b.algorithm,
        s.linear_solver == b.linear_solver,
        s.mu_strategy == b.mu_strategy,
        s.hessian_approximation == b.hessian_approximation,
        s.line_search_method == b.line_search_method,
        s.conv_check == b.conv_check,
        s.mu == b.mu,
        s.line_search == b.line_search,
        s.perturbation == b.perturbation,
        s.resto == b.resto,
        s.kkt_schur is None,
        s.sqp.tol == number_given(a.options@, "sqp_tol"@),
        s.sqp.constr_viol_tol == number_given(a.options@, "sqp_constr_viol_tol"@),
        s.sqp.dual_inf_tol == number_given(a.options@, "sqp_dual_inf_tol"@),
        !accepted ==> s.sqp_qp.feas_tol is None && s.sqp_qp.max_iter is None,
{
}

} // verus!
