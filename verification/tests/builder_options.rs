use pounce_algorithm::alg_builder::AdaptiveMuGlobalization;
use pounce_algorithm::alg_builder::AdaptiveMuKktNorm;
use pounce_algorithm::alg_builder::AlgorithmBuilder;
use pounce_algorithm::alg_builder::AlphaForY;
use pounce_algorithm::alg_builder::BalancingTermType;
use pounce_algorithm::alg_builder::CentralityType;
use pounce_algorithm::alg_builder::ElementMode;
use pounce_algorithm::alg_builder::FdColoring;
use pounce_algorithm::alg_builder::FdPatternSource;
use pounce_algorithm::alg_builder::HessianApproxChoice;
use pounce_algorithm::alg_builder::InitialApprox;
use pounce_algorithm::alg_builder::LineSearchChoice;
use pounce_algorithm::alg_builder::LinearSystemScalingChoice;
use pounce_algorithm::alg_builder::MuOracleKind;
use pounce_algorithm::alg_builder::MuStrategyChoice;
use pounce_algorithm::alg_builder::NormType;
use pounce_algorithm::alg_builder::UpdateType;
use pounce_algorithm::alg_builder::WarmStartRecentering;
use pounce_algorithm::application::IpoptApplication;
use pounce_algorithm::assembly::AugSystemSolver;
use pounce_algorithm::assembly::HessianUpdater;
use pounce_algorithm::assembly::MuUpdate;
use pounce_algorithm::feral::FeralConfig;
use pounce_algorithm::number::Number;

fn n(x: f64) -> Number {
    Number::from_bits(x.to_bits())
}

type NumberOf = fn(&AlgorithmBuilder) -> Option<Number>;
type IntegerOf = fn(&AlgorithmBuilder) -> Option<i32>;

fn numbers() -> Vec<(&'static str, NumberOf)> {
    vec![
        ("tol", |b| Some(b.conv_check.tol)),
        ("obj_scale_certificate_threshold", |b| Some(b.conv_check.obj_scale_certificate_threshold)),
        ("primal_noise_floor_kappa", |b| Some(b.conv_check.primal_noise_floor_kappa)),
        ("acceptable_progress_kappa", |b| b.conv_check.acceptable_progress_kappa),
        ("dual_inf_scale_kappa", |b| b.conv_check.dual_inf_scale_kappa),
        ("kkt_fidelity_tol", |b| Some(b.kkt_fidelity_tol)),
        ("dual_inf_tol", |b| Some(b.conv_check.dual_inf_tol)),
        ("constr_viol_tol", |b| Some(b.conv_check.constr_viol_tol)),
        ("compl_inf_tol", |b| Some(b.conv_check.compl_inf_tol)),
        ("max_cpu_time", |b| Some(b.conv_check.max_cpu_time)),
        ("max_wall_time", |b| Some(b.conv_check.max_wall_time)),
        ("acceptable_tol", |b| Some(b.conv_check.acceptable_tol)),
        ("acceptable_dual_inf_tol", |b| Some(b.conv_check.acceptable_dual_inf_tol)),
        ("acceptable_constr_viol_tol", |b| Some(b.conv_check.acceptable_constr_viol_tol)),
        ("acceptable_compl_inf_tol", |b| Some(b.conv_check.acceptable_compl_inf_tol)),
        ("acceptable_obj_change_tol", |b| Some(b.conv_check.acceptable_obj_change_tol)),
        ("infeas_stationarity_tol", |b| Some(b.conv_check.infeas_stationarity_tol)),
        ("infeas_viol_kappa", |b| Some(b.conv_check.infeas_viol_kappa)),
        ("kappa_sigma", |b| Some(b.kappa_sigma)),
        ("kappa_d", |b| Some(b.kappa_d)),
        ("s_max", |b| Some(b.s_max)),
        ("tiny_step_tol", |b| Some(b.tiny_step_tol)),
        ("tiny_step_y_tol", |b| Some(b.tiny_step_y_tol)),
        ("diverging_iterates_tol", |b| Some(b.diverging_iterates_tol)),
        ("dual_divergence_retry_step_tol", |b| b.dual_divergence_retry_step_tol),
        ("dual_divergence_retry_du_floor", |b| Some(b.dual_divergence_retry_du_floor)),
        ("resto_decline_progress_ratio", |b| b.resto_decline_progress_ratio),
        ("mu_init", |b| Some(b.mu.mu_init)),
        ("mu_max", |b| Some(b.mu.mu_max)),
        ("mu_max_fact", |b| Some(b.mu.mu_max_fact)),
        ("mu_min", |b| Some(b.mu.mu_min)),
        ("mu_target", |b| Some(b.mu.mu_target)),
        ("mu_linear_decrease_factor", |b| Some(b.mu.mu_linear_decrease_factor)),
        ("mu_superlinear_decrease_power", |b| Some(b.mu.mu_superlinear_decrease_power)),
        ("barrier_tol_factor", |b| Some(b.mu.barrier_tol_factor)),
        ("tau_min", |b| Some(b.mu.tau_min)),
        ("sigma_max", |b| Some(b.mu.sigma_max)),
        ("sigma_min", |b| Some(b.mu.sigma_min)),
        ("quality_function_section_sigma_tol", |b| Some(b.mu.quality_function_section_sigma_tol)),
        ("quality_function_section_qf_tol", |b| Some(b.mu.quality_function_section_qf_tol)),
        ("probing_iterate_quality_factor", |b| Some(b.mu.probing_iterate_quality_factor)),
        ("adaptive_mu_safeguard_factor", |b| Some(b.mu.adaptive_mu_safeguard_factor)),
        ("adaptive_mu_monotone_init_factor", |b| Some(b.mu.adaptive_mu_monotone_init_factor)),
        ("adaptive_mu_kkterror_red_fact", |b| Some(b.mu.adaptive_mu_kkterror_red_fact)),
        ("filter_margin_fact", |b| Some(b.mu.filter_margin_fact)),
        ("filter_max_margin", |b| Some(b.mu.filter_max_margin)),
        ("soft_resto_pderror_reduction_factor", |b| Some(b.line_search.soft_resto_pderror_reduction_factor)),
        ("alpha_red_factor", |b| Some(b.line_search.alpha_red_factor)),
        ("eta_phi", |b| Some(b.line_search.eta_phi)),
        ("delta", |b| Some(b.line_search.delta)),
        ("theta_min_fact", |b| Some(b.line_search.theta_min_fact)),
        ("theta_max_row_scale_kappa", |b| b.line_search.theta_max_row_scale_kappa),
        ("theta_max_adaptive_factor", |b| b.line_search.theta_max_adaptive_factor),
        ("theta_max_fact", |b| Some(b.line_search.theta_max_fact)),
        ("gamma_phi", |b| Some(b.line_search.gamma_phi)),
        ("gamma_theta", |b| Some(b.line_search.gamma_theta)),
        ("s_phi", |b| Some(b.line_search.s_phi)),
        ("s_theta", |b| Some(b.line_search.s_theta)),
        ("alpha_min_frac", |b| Some(b.line_search.alpha_min_frac)),
        ("obj_max_inc", |b| Some(b.line_search.obj_max_inc)),
        ("nu_init", |b| b.line_search.nu_init),
        ("nu_inc", |b| b.line_search.nu_inc),
        ("rho", |b| b.line_search.rho),
        ("eta_penalty", |b| b.line_search.eta_penalty),
        ("kappa_soc", |b| Some(b.line_search.kappa_soc)),
        ("max_hessian_perturbation", |b| Some(b.perturbation.max_hessian_perturbation)),
        ("min_hessian_perturbation", |b| Some(b.perturbation.min_hessian_perturbation)),
        ("perturb_inc_fact_first", |b| Some(b.perturbation.perturb_inc_fact_first)),
        ("perturb_inc_fact", |b| Some(b.perturbation.perturb_inc_fact)),
        ("perturb_dec_fact", |b| Some(b.perturbation.perturb_dec_fact)),
        ("first_hessian_perturbation", |b| Some(b.perturbation.first_hessian_perturbation)),
        ("jacobian_regularization_value", |b| Some(b.perturbation.jacobian_regularization_value)),
        ("jacobian_regularization_exponent", |b| Some(b.perturbation.jacobian_regularization_exponent)),
        ("residual_ratio_max", |b| Some(b.refinement.residual_ratio_max)),
        ("residual_ratio_singular", |b| Some(b.refinement.residual_ratio_singular)),
        ("residual_improvement_factor", |b| Some(b.refinement.residual_improvement_factor)),
        ("neg_curv_test_tol", |b| Some(b.refinement.neg_curv_test_tol)),
        ("bound_mult_reset_threshold", |b| Some(b.resto.bound_mult_reset_threshold)),
        ("constr_mult_reset_threshold", |b| Some(b.resto.constr_mult_reset_threshold)),
        ("resto_penalty_parameter", |b| Some(b.resto.resto_penalty_parameter)),
        ("resto_proximity_weight", |b| Some(b.resto.resto_proximity_weight)),
        ("required_infeasibility_reduction", |b| b.resto.required_infeasibility_reduction),
        ("print_frequency_time", |b| Some(b.output.print_frequency_time)),
        ("warm_start_bound_push", |b| Some(b.warm.bound_push)),
        ("warm_start_bound_frac", |b| Some(b.warm.bound_frac)),
        ("warm_start_slack_bound_push", |b| Some(b.warm.slack_bound_push)),
        ("warm_start_slack_bound_frac", |b| Some(b.warm.slack_bound_frac)),
        ("warm_start_mult_bound_push", |b| Some(b.warm.mult_bound_push)),
        ("warm_start_target_mu", |b| Some(b.warm.target_mu)),
        ("adaptive_mu_budget_pin_fraction", |b| b.mu.adaptive_mu_budget_pin_fraction),
        ("alpha_red_factor_min", |b| b.line_search.alpha_red_factor_min),
        ("warm_start_mult_init_max", |b| Some(b.warm.mult_init_max)),
        ("bound_push", |b| Some(b.init.bound_push)),
        ("bound_frac", |b| Some(b.init.bound_frac)),
        ("slack_bound_push", |b| Some(b.init.slack_bound_push)),
        ("slack_bound_frac", |b| Some(b.init.slack_bound_frac)),
        ("constr_mult_init_max", |b| Some(b.init.constr_mult_init_max)),
        ("bound_mult_init_val", |b| Some(b.init.bound_mult_init_val)),
    ]
}

fn f(x: Number) -> f64 {
    f64::from_bits(x.to_bits())
}

fn integers() -> Vec<(&'static str, IntegerOf)> {
    vec![
        ("max_iter", |b| Some(b.conv_check.max_iter)),
        ("acceptable_iter", |b| Some(b.conv_check.acceptable_iter)),
        ("infeas_max_streak", |b| Some(b.conv_check.infeas_max_streak)),
        ("dual_diverging_streak", |b| Some(b.dual_diverging_streak)),
        ("resto_decline_deferrals", |b| b.resto_decline_deferrals),
        ("neg_curv_escapes", |b| b.neg_curv_escapes),
        ("limited_memory_ls_failure_restarts", |b| b.limited_memory_ls_failure_restarts),
        ("quality_function_max_section_steps", |b| Some(b.mu.quality_function_max_section_steps)),
        ("adaptive_mu_max_free_returns", |b| b.mu.adaptive_mu_max_free_returns),
        ("watchdog_shortened_iter_trigger", |b| Some(b.line_search.watchdog_shortened_iter_trigger)),
        ("watchdog_trial_iter_max", |b| Some(b.line_search.watchdog_trial_iter_max)),
        ("max_soft_resto_iters", |b| Some(b.line_search.max_soft_resto_iters)),
        ("accept_after_max_steps", |b| Some(b.line_search.accept_after_max_steps)),
        ("max_filter_resets", |b| Some(b.line_search.max_filter_resets)),
        ("filter_reset_trigger", |b| Some(b.line_search.filter_reset_trigger)),
        ("max_soc", |b| Some(b.line_search.max_soc)),
        ("soc_method", |b| Some(b.line_search.soc_method)),
        ("perturb_delta_c_max_rungs", |b| b.perturbation.perturb_delta_c_max_rungs),
        ("min_refinement_steps", |b| Some(b.refinement.min_refinement_steps)),
        ("max_refinement_steps", |b| Some(b.refinement.max_refinement_steps)),
        ("max_resto_iter", |b| Some(b.resto.max_resto_iter)),
        ("print_frequency_iter", |b| Some(b.output.print_frequency_iter)),
    ]
}

/// Every number that the caller sets arrives in its own place, and in no other.
#[test]
fn every_number_reaches_its_place() {
    let plain = IpoptApplication::new().algorithm_builder_from_options();
    let all = numbers();
    for (k, (name, _)) in all.iter().enumerate() {
        let mut app = IpoptApplication::new();
        app.options_mut().set_numeric_value(name, n(0.0625));
        let b = app.algorithm_builder_from_options();
        for (j, (other, place)) in all.iter().enumerate() {
            if j == k {
                assert_eq!(place(&b), Some(n(0.0625)), "{name}");
            } else {
                assert_eq!(place(&b), place(&plain), "{name} changed {other}");
            }
        }
    }
}

/// Every integer that the caller sets arrives in its own place, and in no other.
#[test]
fn every_integer_reaches_its_place() {
    let plain = IpoptApplication::new().algorithm_builder_from_options();
    let all = integers();
    for (k, (name, _)) in all.iter().enumerate() {
        let mut app = IpoptApplication::new();
        app.options_mut().set_integer_value(name, 29);
        let b = app.algorithm_builder_from_options();
        for (j, (other, place)) in all.iter().enumerate() {
            if j == k {
                assert_eq!(place(&b), Some(29), "{name}");
            } else {
                assert_eq!(place(&b), place(&plain), "{name} changed {other}");
            }
        }
    }
}

/// An option that nobody set leaves the default, a registered one included.
#[test]
fn registered_defaults_change_nothing() {
    let plain = IpoptApplication::new().algorithm_builder_from_options();
    for (name, place) in numbers() {
        let mut app = IpoptApplication::new();
        let registered = pounce_algorithm::options::OptionValue::Numeric(n(0.0625));
        app.options_mut().register_default(name, registered);
        assert_eq!(place(&app.algorithm_builder_from_options()), place(&plain), "{name}");
    }
}

#[test]
fn the_defaults_are_these() {
    let b = AlgorithmBuilder::new();
    assert_eq!(f(b.mu.mu_init), 0.1);
    assert_eq!(f(b.mu.mu_max), -1.0);
    assert_eq!(f(b.mu.mu_max_fact), 1e3);
    assert_eq!(f(b.mu.mu_min), 1e-11);
    assert_eq!(f(b.mu.mu_target), 0.0);
    assert_eq!(f(b.mu.mu_linear_decrease_factor), 0.2);
    assert_eq!(f(b.mu.mu_superlinear_decrease_power), 1.5);
    assert!(b.mu.mu_allow_fast_monotone_decrease);
    assert_eq!(f(b.mu.barrier_tol_factor), 10.0);
    assert_eq!(f(b.mu.sigma_max), 1e2);
    assert_eq!(f(b.mu.sigma_min), 1e-6);
    assert_eq!(b.mu.quality_function_max_section_steps, 8);
    assert_eq!(f(b.mu.quality_function_section_sigma_tol), 1e-2);
    assert_eq!(f(b.mu.quality_function_section_qf_tol), 0.0);
    assert_eq!(f(b.mu.adaptive_mu_safeguard_factor), 0.0);
    assert_eq!(f(b.mu.adaptive_mu_monotone_init_factor), 0.8);
    assert!(!b.mu.adaptive_mu_restore_previous_iterate);
    assert_eq!(b.mu.adaptive_mu_kkterror_red_iters, 4);
    assert_eq!(f(b.mu.adaptive_mu_kkterror_red_fact), 0.9999);
    assert_eq!(f(b.mu.probing_iterate_quality_factor), 1e4);
    assert_eq!(b.line_search.watchdog_shortened_iter_trigger, 10);
    assert_eq!(b.line_search.watchdog_trial_iter_max, 3);
    assert_eq!(f(b.line_search.soft_resto_pderror_reduction_factor), 1.0 - 1e-4);
    assert_eq!(b.line_search.max_soft_resto_iters, 10);
    assert!(!b.line_search.accept_every_trial_step);
    assert_eq!(f(b.line_search.eta_phi), 1e-8);
    assert_eq!(f(b.line_search.theta_min_fact), 1e-4);
    assert_eq!(f(b.line_search.theta_max_fact), 1e4);
    assert_eq!(f(b.line_search.gamma_phi), 1e-8);
    assert_eq!(f(b.line_search.gamma_theta), 1e-5);
    assert_eq!(f(b.line_search.s_phi), 2.3);
    assert_eq!(f(b.line_search.s_theta), 1.1);
    assert_eq!(f(b.line_search.alpha_min_frac), 0.05);
    assert_eq!(f(b.line_search.obj_max_inc), 5.0);
    assert_eq!(b.line_search.max_filter_resets, 5);
    assert_eq!(b.line_search.filter_reset_trigger, 5);
    assert_eq!(b.line_search.max_soc, 4);
    assert_eq!(f(b.line_search.kappa_soc), 0.99);
    assert_eq!(b.line_search.soc_method, 0);
    assert_eq!(f(b.perturbation.max_hessian_perturbation), 1e20);
    assert_eq!(f(b.perturbation.min_hessian_perturbation), 1e-20);
    assert_eq!(f(b.perturbation.perturb_inc_fact_first), 100.0);
    assert_eq!(f(b.perturbation.perturb_inc_fact), 8.0);
    assert_eq!(f(b.perturbation.perturb_dec_fact), 1.0 / 3.0);
    assert_eq!(f(b.perturbation.first_hessian_perturbation), 1e-4);
    assert_eq!(f(b.perturbation.jacobian_regularization_value), 1e-8);
    assert_eq!(f(b.perturbation.jacobian_regularization_exponent), 0.25);
    assert!(!b.perturbation.perturb_always_cd);
    assert_eq!(f(b.resto.bound_mult_reset_threshold), 1e3);
    assert_eq!(f(b.resto.constr_mult_reset_threshold), 0.0);
    assert_eq!(f(b.resto.resto_penalty_parameter), 1e3);
    assert_eq!(f(b.resto.resto_proximity_weight), 1.0);
    assert_eq!(b.refinement.min_refinement_steps, 1);
    assert_eq!(b.refinement.max_refinement_steps, 10);
    assert_eq!(f(b.refinement.residual_ratio_max), 1e-10);
    assert_eq!(f(b.refinement.residual_ratio_singular), 1e-5);
    assert_eq!(f(b.refinement.residual_improvement_factor), 0.999_999_999);
    assert_eq!(b.output.print_frequency_iter, 1);
    assert_eq!(f(b.output.print_frequency_time), 0.0);
    assert!(!b.output.print_info_string);
    assert!(!b.output.inf_pr_output_internal);
    assert_eq!(f(b.warm.bound_push), 1e-3);
    assert_eq!(f(b.warm.bound_frac), 1e-3);
    assert_eq!(f(b.warm.slack_bound_push), 1e-3);
    assert_eq!(f(b.warm.slack_bound_frac), 1e-3);
    assert_eq!(f(b.warm.mult_bound_push), 1e-3);
    assert_eq!(f(b.warm.mult_init_max), 1e6);
    assert_eq!(f(b.warm.target_mu), 0.0);
    assert!(!b.warm.entire_iterate);
    assert!(!b.warm.same_structure);
    assert_eq!(f(b.conv_check.tol), 1e-8);
    assert_eq!(f(b.conv_check.dual_inf_tol), 1.0);
    assert_eq!(f(b.conv_check.constr_viol_tol), 1e-4);
    assert_eq!(f(b.conv_check.compl_inf_tol), 1e-4);
    assert_eq!(f(b.conv_check.acceptable_tol), 1e-6);
    assert_eq!(f(b.conv_check.acceptable_dual_inf_tol), 1e10);
    assert_eq!(f(b.conv_check.acceptable_constr_viol_tol), 1e-2);
    assert_eq!(f(b.conv_check.acceptable_compl_inf_tol), 1e-2);
    assert_eq!(f(b.conv_check.acceptable_obj_change_tol), 1e20);
    assert_eq!(b.conv_check.acceptable_iter, 15);
    assert_eq!(b.conv_check.max_iter, 3000);
    assert_eq!(f(b.conv_check.max_cpu_time), 1e6);
    assert_eq!(f(b.conv_check.max_wall_time), 1e6);
    assert_eq!(f(b.conv_check.infeas_stationarity_tol), 1e-8);
    assert_eq!(f(b.conv_check.infeas_viol_kappa), 1e2);
    assert_eq!(b.conv_check.infeas_max_streak, 5);
    assert_eq!(f(b.conv_check.obj_scale_certificate_threshold), 1e-4);
    assert_eq!(f(b.init.bound_push), 1e-2);
    assert_eq!(f(b.init.bound_frac), 1e-2);
    assert_eq!(f(b.init.slack_bound_push), 1e-2);
    assert_eq!(f(b.init.slack_bound_frac), 1e-2);
    assert_eq!(f(b.init.constr_mult_init_max), 1e3);
    assert_eq!(f(b.init.bound_mult_init_val), 1.0);
    assert!(!b.init.least_square_init_primal);
    assert!(b.linear_scaling_on_demand);
    assert_eq!(b.limited_memory_max_history, 6);
    assert!(!b.warm_start_init_point);
    assert!(!b.mehrotra_algorithm);
    assert_eq!(f(b.kappa_sigma), 1e10);
    assert_eq!(f(b.kappa_d), 1e-5);
    assert_eq!(f(b.tiny_step_tol), 10.0 * f64::EPSILON);
    assert_eq!(f(b.tiny_step_y_tol), 1e-2);
    assert_eq!(f(b.diverging_iterates_tol), 1e20);
    assert_eq!(b.dual_diverging_streak, 0);
    assert_eq!(f(b.kkt_fidelity_tol), 0.0);
}

fn with(pairs: &[(&str, &str)]) -> AlgorithmBuilder {
    let mut app = IpoptApplication::new();
    for (name, value) in pairs {
        app.options_mut().set_string_value(name, value);
    }
    app.algorithm_builder_from_options()
}

#[test]
fn names_choose_their_variants() {
    let hess = |v| with(&[("hessian_approximation", v)]).hessian_approximation;
    assert_eq!(hess("limited-memory"), HessianApproxChoice::LimitedMemory);
    assert_eq!(hess("partitioned"), HessianApproxChoice::Partitioned);
    assert_eq!(hess("finite-difference"), HessianApproxChoice::FiniteDifference);
    assert_eq!(hess("exact"), HessianApproxChoice::Exact);
    let ls = |v| with(&[("line_search_method", v)]).line_search_method;
    assert_eq!(ls("cg-penalty"), LineSearchChoice::CgPenalty);
    assert_eq!(ls("penalty"), LineSearchChoice::Penalty);
    assert_eq!(ls("anything"), LineSearchChoice::Filter);
    let alpha = |v| with(&[("alpha_for_y", v)]).line_search.alpha_for_y;
    assert_eq!(alpha("bound_mult"), AlphaForY::BoundMult);
    assert_eq!(alpha("bound-mult"), AlphaForY::BoundMult);
    assert_eq!(alpha("full"), AlphaForY::Full);
    assert_eq!(alpha("min"), AlphaForY::Min);
    assert_eq!(alpha("max"), AlphaForY::Max);
    assert_eq!(alpha("dual-and-full"), AlphaForY::Primal);
    let scaling = |v| with(&[("linear_system_scaling", v)]).linear_system_scaling;
    assert_eq!(scaling("ruiz"), LinearSystemScalingChoice::Ruiz);
    assert_eq!(scaling("mc19"), LinearSystemScalingChoice::Mc19);
    assert_eq!(scaling("slack-based"), LinearSystemScalingChoice::SlackBased);
    assert_eq!(scaling("none"), LinearSystemScalingChoice::Unscaled);
    let oracle = |v| with(&[("mu_oracle", v)]).mu_oracle;
    assert_eq!(oracle("loqo"), MuOracleKind::Loqo);
    assert_eq!(oracle("probing"), MuOracleKind::Probing);
    assert_eq!(oracle("other"), MuOracleKind::QualityFunction);
    let glob = |v| with(&[("adaptive_mu_globalization", v)]).mu.adaptive_mu_globalization;
    assert_eq!(glob("kkt-error"), AdaptiveMuGlobalization::KktError);
    assert_eq!(glob("never-monotone-mode"), AdaptiveMuGlobalization::NeverMonotoneMode);
    assert_eq!(glob("obj-constr-filter"), AdaptiveMuGlobalization::ObjConstrFilter);
    let norm = |v| with(&[("quality_function_norm_type", v)]).mu.quality_function_norm_type;
    assert_eq!(norm("1-norm"), NormType::OneNorm);
    assert_eq!(norm("2-norm"), NormType::TwoNorm);
    assert_eq!(norm("max-norm"), NormType::MaxNorm);
    assert_eq!(norm("2-norm-squared"), NormType::TwoNormSquared);
    let kkt = |v| with(&[("adaptive_mu_kkt_norm_type", v)]).mu.adaptive_mu_kkt_norm_type;
    assert_eq!(kkt("max-norm"), AdaptiveMuKktNorm::MaxNorm);
    let cent = |v| with(&[("quality_function_centrality", v)]).mu.quality_function_centrality;
    assert_eq!(cent("log"), CentralityType::LogCenter);
    assert_eq!(cent("reciprocal"), CentralityType::ReciprocalCenter);
    assert_eq!(cent("cubed-reciprocal"), CentralityType::CubedReciprocalCenter);
    assert_eq!(cent("none"), CentralityType::Off);
    let b = with(&[
        ("quality_function_balancing_term", "cubic"),
        ("fd_hessian_pattern", "jacobian"),
        ("fd_hessian_coloring", "cpr"),
        ("partitioned_elements", "blocks"),
        ("partitioned_update_type", "bfgs"),
        ("limited_memory_initialization", "unheard-of"),
        ("warm_start_recentering", "Residual"),
        ("bound_mult_init_method", "mu-based"),
        ("inf_pr_output", "internal"),
    ]);
    assert_eq!(b.mu.quality_function_balancing_term, BalancingTermType::CubicTerm);
    assert_eq!(b.fd_hessian_pattern, Some(FdPatternSource::Jacobian));
    assert_eq!(b.fd_hessian_coloring, Some(FdColoring::Cpr));
    assert_eq!(b.partitioned_elements, Some(ElementMode::PrimalBlock));
    assert_eq!(b.partitioned_update_type, UpdateType::Bfgs);
    assert!(b.partitioned_update_type_was_set);
    assert_eq!(b.limited_memory_initialization, InitialApprox::Scalar2);
    assert_eq!(b.warm.recentering, Some(WarmStartRecentering::Residual));
    assert_eq!(b.init.bound_mult_init_method, "mu-based");
    assert!(b.output.inf_pr_output_internal);
    assert_eq!(
        with(&[("warm_start_recentering", "NONE")]).warm.recentering,
        Some(WarmStartRecentering::Off)
    );
}

#[test]
fn an_eager_algorithm_changes_its_defaults_and_nothing_explicit() {
    let b = with(&[("mehrotra_algorithm", "yes")]);
    assert!(b.mehrotra_algorithm && b.line_search.accept_every_trial_step);
    assert_eq!(b.mu_strategy, MuStrategyChoice::Adaptive);
    assert_eq!(b.mu_oracle, MuOracleKind::Probing);
    assert_eq!(b.line_search.alpha_for_y, AlphaForY::BoundMult);
    assert_eq!(b.mu.adaptive_mu_globalization, AdaptiveMuGlobalization::NeverMonotoneMode);
    assert!(b.init.least_square_init_primal);
    assert_eq!((f(b.init.bound_push), f(b.init.bound_frac)), (10.0, 0.2));
    assert_eq!((f(b.init.slack_bound_push), f(b.init.slack_bound_frac)), (10.0, 0.2));
    assert_eq!((f(b.init.bound_mult_init_val), f(b.init.constr_mult_init_max)), (1.0, 0.0));
    let b = with(&[
        ("mehrotra_algorithm", "yes"),
        ("accept_every_trial_step", "no"),
        ("alpha_for_y", "max"),
        ("mu_oracle", "loqo"),
        ("mu_strategy", "monotone"),
        ("least_square_init_primal", "no"),
    ]);
    assert!(!b.line_search.accept_every_trial_step && !b.init.least_square_init_primal);
    assert_eq!(b.line_search.alpha_for_y, AlphaForY::Max);
    assert_eq!(b.mu_oracle, MuOracleKind::Loqo);
    assert_eq!(b.mu_strategy, MuStrategyChoice::Adaptive, "the one setting that it overrides");
}

#[test]
fn negative_counts_are_held_to_zero() {
    let mut app = IpoptApplication::new();
    let o = app.options_mut();
    o.set_integer_value("theta_max_adaptive_trigger", -2);
    o.set_integer_value("theta_max_adaptive_max_raises", 3);
    o.set_integer_value("adaptive_mu_kkterror_red_iters", -1);
    let b = app.algorithm_builder_from_options();
    assert_eq!(b.line_search.theta_max_adaptive_trigger, Some(0));
    assert_eq!(b.line_search.theta_max_adaptive_max_raises, Some(3));
    assert_eq!(b.mu.adaptive_mu_kkterror_red_iters, 4);
}

#[test]
fn strategies_are_assembled_as_described() {
    let bundle = with(&[("mu_strategy", "adaptive")]).build();
    assert!(matches!(bundle.mu_update, MuUpdate::Adaptive(_)));
    let bundle = with(&[]).build();
    assert!(matches!(bundle.mu_update, MuUpdate::Monotone(_)));
    assert!(matches!(bundle.hess, HessianUpdater::Exact));
    let bundle = with(&[("hessian_approximation", "limited-memory")]).build();
    assert!(matches!(bundle.hess, HessianUpdater::LimitedMemory(_)));
    assert_eq!(f(bundle.conv_check.tol), 1e-8);
}

#[test]
fn a_partition_needs_the_default_backend_and_an_exact_hessian() {
    let cfg = FeralConfig {
        cascade_break: None,
        fma: true,
        parallel: None,
        refine: true,
        increase_quality: true,
        refine_max_steps: 10,
        refine_target: n(1e-10),
        static_pivoting: None,
        singular_pivot_floor: n(1e-20),
        inertia_pivot_floor: None,
        min_par_flops: None,
        pivtol: n(1e-8),
        ordering: 0,
        scaling: 0,
    };
    let aug = |pairs: &[(&str, &str)]| {
        let mut b = with(pairs);
        b.set_kkt_schur(vec![1, 2], cfg);
        b.build_with_backend().search_dir.unwrap().aug_solver
    };
    assert!(matches!(aug(&[]), AugSystemSolver::Schur { .. }));
    assert!(!matches!(
        aug(&[("hessian_approximation", "limited-memory")]),
        AugSystemSolver::Schur { .. }
    ));
}
