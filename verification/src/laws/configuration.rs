//! What each option configures, by its name.
use crate::alg_builder::AdaptiveMuGlobalization;
use crate::alg_builder::AdaptiveMuKktNorm;
use crate::alg_builder::AlgorithmBuilder;
use crate::alg_builder::AlgorithmChoice;
use crate::alg_builder::AlphaForY;
use crate::alg_builder::BalancingTermType;
use crate::alg_builder::CentralityType;
use crate::alg_builder::ElementMode;
use crate::alg_builder::FdColoring;
use crate::alg_builder::FdPatternSource;
use crate::alg_builder::HessianApproxChoice;
use crate::alg_builder::InitialApprox;
use crate::alg_builder::LineSearchChoice;
use crate::alg_builder::LinearSolverChoice;
use crate::alg_builder::LinearSystemScalingChoice;
use crate::alg_builder::MuOracleKind;
use crate::alg_builder::MuStrategyChoice;
use crate::alg_builder::NormType;
use crate::alg_builder::UpdateType;
use crate::alg_builder::WarmStartRecentering;
use crate::alg_builder::ConvCheckOptions;
use crate::alg_builder::LineSearchOptions;
use crate::alg_builder::MuOptions;
use crate::alg_builder::OutputOptions;
use crate::alg_builder::PerturbationOptions;
use crate::alg_builder::RefinementOptions;
use crate::alg_builder::RestoOptions;
use crate::alg_builder::WarmStartOptions;
use crate::application::IpoptApplication;
use crate::decimal::D0;
use crate::decimal::D1;
use crate::decimal::D11EM1;
use crate::decimal::D15EM1;
use crate::decimal::D1E1;
use crate::decimal::D1E10;
use crate::decimal::D1E2;
use crate::decimal::D1E20;
use crate::decimal::D1E3;
use crate::decimal::D1E4;
use crate::decimal::D1E6;
use crate::decimal::D1EM1;
use crate::decimal::D1EM10;
use crate::decimal::D1EM11;
use crate::decimal::D1EM2;
use crate::decimal::D1EM20;
use crate::decimal::D1EM3;
use crate::decimal::D1EM4;
use crate::decimal::D1EM5;
use crate::decimal::D1EM6;
use crate::decimal::D1EM8;
use crate::decimal::D23EM1;
use crate::decimal::D25EM2;
use crate::decimal::D2EM1;
use crate::decimal::D5;
use crate::decimal::D5EM1;
use crate::decimal::D5EM2;
use crate::decimal::D64;
use crate::decimal::D8;
use crate::decimal::D8EM1;
use crate::decimal::D999999999EM9;
use crate::decimal::D9999EM4;
use crate::decimal::D99EM2;
use crate::decimal::DM1;
use crate::decimal::ONE_THIRD;
use crate::decimal::TEN_EPSILON;
use crate::from_options::bounded_set;
use crate::from_options::conv_check_from;
use crate::from_options::elements_named;
use crate::from_options::fd_coloring_named;
use crate::from_options::fd_pattern_named;
use crate::from_options::hessian_of;
use crate::from_options::history_of;
use crate::from_options::init_from;
use crate::from_options::initial_approx_named;
use crate::from_options::limited_memory_update_named;
use crate::from_options::line_search_from;
use crate::from_options::line_search_named;
use crate::from_options::linear_solver_of;
use crate::from_options::mehrotra;
use crate::from_options::mu_from;
use crate::from_options::mu_oracle_of;
use crate::from_options::mu_strategy_of;
use crate::from_options::non_negative_integer_set;
use crate::from_options::output_from;
use crate::from_options::partitioned_update_named;
use crate::from_options::perturbation_from;
use crate::from_options::positive_size_set;
use crate::from_options::refinement_from;
use crate::from_options::resto_from;
use crate::from_options::scaling_named;
use crate::from_options::warm_from;
use crate::laws::given::answer_given;
use crate::laws::given::answer_or;
use crate::laws::given::integer_given;
use crate::laws::given::integer_or_else;
use crate::laws::given::lemma_yes_is_not_no;
use crate::laws::given::number_given;
use crate::laws::given::number_or;
use crate::laws::given::stands_at;
use crate::laws::given::text_given;
use crate::number::Number;
use crate::options::Held;
use crate::options::any_yes_or;
use crate::options::integer_or;
use crate::options::integer_set;
use crate::options::numeric_or;
use crate::options::numeric_set;
use crate::options::switch_or;
use crate::options::text_set;
use crate::options::yes_or;
use crate::options::OptionsView;
use crate::sqp_options::QpOptions;
use crate::sqp_options::SqpOptions;
use crate::text::alike;
use vstd::prelude::*;

verus! {

/// The caller asked for the Mehrotra algorithm.
pub open spec fn asks_for_mehrotra(o: OptionsView) -> bool {
    text_given(o, "mehrotra_algorithm"@) == Some("yes"@)
}

/// The caller's text under the name is `yes`; the other answer where the caller
/// set no text.
pub open spec fn says_yes(o: OptionsView, name: Seq<char>, other: bool) -> bool {
    match text_given(o, name) {
        Some(t) => t == "yes"@,
        None => other,
    }
}

proof fn lemma_conv_check(o: OptionsView, c: ConvCheckOptions)
    requires
        c == conv_check_from(o),
    ensures
        c.tol == number_or(number_given(o, "tol"@), Number { bits: D1EM8 }),
        c.dual_inf_tol == number_or(number_given(o, "dual_inf_tol"@), Number { bits: D1 }),
        c.constr_viol_tol == number_or(number_given(o, "constr_viol_tol"@), Number { bits: D1EM4 }),
        c.compl_inf_tol == number_or(number_given(o, "compl_inf_tol"@), Number { bits: D1EM4 }),
        c.acceptable_tol == number_or(number_given(o, "acceptable_tol"@), Number { bits: D1EM6 }),
        c.acceptable_dual_inf_tol == number_or(number_given(o, "acceptable_dual_inf_tol"@), Number { bits: D1E10 }),
        c.acceptable_constr_viol_tol == number_or(number_given(o, "acceptable_constr_viol_tol"@), Number { bits: D1EM2 }),
        c.acceptable_compl_inf_tol == number_or(number_given(o, "acceptable_compl_inf_tol"@), Number { bits: D1EM2 }),
        c.acceptable_obj_change_tol == number_or(number_given(o, "acceptable_obj_change_tol"@), Number { bits: D1E20 }),
        c.acceptable_iter == integer_or_else(integer_given(o, "acceptable_iter"@), 15),
        c.max_iter == integer_or_else(integer_given(o, "max_iter"@), 3000),
        c.max_cpu_time == number_or(number_given(o, "max_cpu_time"@), Number { bits: D1E6 }),
        c.max_wall_time == number_or(number_given(o, "max_wall_time"@), Number { bits: D1E6 }),
        c.infeas_stationarity_tol == number_or(number_given(o, "infeas_stationarity_tol"@), Number { bits: D1EM8 }),
        c.infeas_viol_kappa == number_or(number_given(o, "infeas_viol_kappa"@), Number { bits: D1E2 }),
        c.infeas_max_streak == integer_or_else(integer_given(o, "infeas_max_streak"@), 5),
        c.obj_scale_certificate_threshold == number_or(number_given(o, "obj_scale_certificate_threshold"@), Number { bits: D1EM4 }),
        c.primal_noise_floor_kappa == number_or(number_given(o, "primal_noise_floor_kappa"@), Number { bits: D64 }),
        c.acceptable_progress_kappa == number_given(o, "acceptable_progress_kappa"@),
        c.dual_inf_scale_kappa == number_given(o, "dual_inf_scale_kappa"@),
{
    lemma_yes_is_not_no();
}

/// The tolerances and limits of the convergence check: what the caller set under the name counts, and
/// what the caller did not set stands at its default.
pub proof fn law_conv_check_follow_the_options(a: IpoptApplication, b: AlgorithmBuilder)
    requires
        call_ensures(IpoptApplication::algorithm_builder_from_options, (&a,), b),
    ensures
        b.conv_check.tol == number_or(number_given(a.options@, "tol"@), Number { bits: D1EM8 }),
        b.conv_check.dual_inf_tol == number_or(number_given(a.options@, "dual_inf_tol"@), Number { bits: D1 }),
        b.conv_check.constr_viol_tol == number_or(number_given(a.options@, "constr_viol_tol"@), Number { bits: D1EM4 }),
        b.conv_check.compl_inf_tol == number_or(number_given(a.options@, "compl_inf_tol"@), Number { bits: D1EM4 }),
        b.conv_check.acceptable_tol == number_or(number_given(a.options@, "acceptable_tol"@), Number { bits: D1EM6 }),
        b.conv_check.acceptable_dual_inf_tol == number_or(number_given(a.options@, "acceptable_dual_inf_tol"@), Number { bits: D1E10 }),
        b.conv_check.acceptable_constr_viol_tol == number_or(number_given(a.options@, "acceptable_constr_viol_tol"@), Number { bits: D1EM2 }),
        b.conv_check.acceptable_compl_inf_tol == number_or(number_given(a.options@, "acceptable_compl_inf_tol"@), Number { bits: D1EM2 }),
        b.conv_check.acceptable_obj_change_tol == number_or(number_given(a.options@, "acceptable_obj_change_tol"@), Number { bits: D1E20 }),
        b.conv_check.acceptable_iter == integer_or_else(integer_given(a.options@, "acceptable_iter"@), 15),
        b.conv_check.max_iter == integer_or_else(integer_given(a.options@, "max_iter"@), 3000),
        b.conv_check.max_cpu_time == number_or(number_given(a.options@, "max_cpu_time"@), Number { bits: D1E6 }),
        b.conv_check.max_wall_time == number_or(number_given(a.options@, "max_wall_time"@), Number { bits: D1E6 }),
        b.conv_check.infeas_stationarity_tol == number_or(number_given(a.options@, "infeas_stationarity_tol"@), Number { bits: D1EM8 }),
        b.conv_check.infeas_viol_kappa == number_or(number_given(a.options@, "infeas_viol_kappa"@), Number { bits: D1E2 }),
        b.conv_check.infeas_max_streak == integer_or_else(integer_given(a.options@, "infeas_max_streak"@), 5),
        b.conv_check.obj_scale_certificate_threshold == number_or(number_given(a.options@, "obj_scale_certificate_threshold"@), Number { bits: D1EM4 }),
        b.conv_check.primal_noise_floor_kappa == number_or(number_given(a.options@, "primal_noise_floor_kappa"@), Number { bits: D64 }),
        b.conv_check.acceptable_progress_kappa == number_given(a.options@, "acceptable_progress_kappa"@),
        b.conv_check.dual_inf_scale_kappa == number_given(a.options@, "dual_inf_scale_kappa"@),
{
    lemma_conv_check(a.options@, b.conv_check);
}

proof fn lemma_warm(o: OptionsView, c: WarmStartOptions)
    requires
        c == warm_from(o),
    ensures
        c.bound_push == number_or(number_given(o, "warm_start_bound_push"@), Number { bits: D1EM3 }),
        c.bound_frac == number_or(number_given(o, "warm_start_bound_frac"@), Number { bits: D1EM3 }),
        c.slack_bound_push == number_or(number_given(o, "warm_start_slack_bound_push"@), Number { bits: D1EM3 }),
        c.slack_bound_frac == number_or(number_given(o, "warm_start_slack_bound_frac"@), Number { bits: D1EM3 }),
        c.mult_bound_push == number_or(number_given(o, "warm_start_mult_bound_push"@), Number { bits: D1EM3 }),
        c.mult_init_max == number_or(number_given(o, "warm_start_mult_init_max"@), Number { bits: D1E6 }),
        c.target_mu == number_or(number_given(o, "warm_start_target_mu"@), Number { bits: D0 }),
        c.entire_iterate == false,
        c.same_structure == false,
{
    lemma_yes_is_not_no();
}

/// The knobs of a warm start: what the caller set under the name counts, and
/// what the caller did not set stands at its default.
pub proof fn law_warm_follow_the_options(a: IpoptApplication, b: AlgorithmBuilder)
    requires
        call_ensures(IpoptApplication::algorithm_builder_from_options, (&a,), b),
    ensures
        b.warm.bound_push == number_or(number_given(a.options@, "warm_start_bound_push"@), Number { bits: D1EM3 }),
        b.warm.bound_frac == number_or(number_given(a.options@, "warm_start_bound_frac"@), Number { bits: D1EM3 }),
        b.warm.slack_bound_push == number_or(number_given(a.options@, "warm_start_slack_bound_push"@), Number { bits: D1EM3 }),
        b.warm.slack_bound_frac == number_or(number_given(a.options@, "warm_start_slack_bound_frac"@), Number { bits: D1EM3 }),
        b.warm.mult_bound_push == number_or(number_given(a.options@, "warm_start_mult_bound_push"@), Number { bits: D1EM3 }),
        b.warm.mult_init_max == number_or(number_given(a.options@, "warm_start_mult_init_max"@), Number { bits: D1E6 }),
        b.warm.target_mu == number_or(number_given(a.options@, "warm_start_target_mu"@), Number { bits: D0 }),
        b.warm.entire_iterate == false,
        b.warm.same_structure == false,
{
    lemma_warm(a.options@, b.warm);
}

proof fn lemma_mu(o: OptionsView, c: MuOptions)
    requires
        c == mu_from(o),
    ensures
        c.mu_init == number_or(number_given(o, "mu_init"@), Number { bits: D1EM1 }),
        c.mu_max == number_or(number_given(o, "mu_max"@), Number { bits: DM1 }),
        c.mu_max_fact == number_or(number_given(o, "mu_max_fact"@), Number { bits: D1E3 }),
        c.mu_min == number_or(number_given(o, "mu_min"@), Number { bits: D1EM11 }),
        c.mu_target == number_or(number_given(o, "mu_target"@), Number { bits: D0 }),
        c.mu_linear_decrease_factor == number_or(number_given(o, "mu_linear_decrease_factor"@), Number { bits: D2EM1 }),
        c.mu_superlinear_decrease_power == number_or(number_given(o, "mu_superlinear_decrease_power"@), Number { bits: D15EM1 }),
        c.mu_allow_fast_monotone_decrease == says_yes(o, "mu_allow_fast_monotone_decrease"@, true),
        c.barrier_tol_factor == number_or(number_given(o, "barrier_tol_factor"@), Number { bits: D1E1 }),
        c.tau_min == number_or(number_given(o, "tau_min"@), Number { bits: D99EM2 }),
        c.sigma_max == number_or(number_given(o, "sigma_max"@), Number { bits: D1E2 }),
        c.sigma_min == number_or(number_given(o, "sigma_min"@), Number { bits: D1EM6 }),
        c.quality_function_max_section_steps == integer_or_else(integer_given(o, "quality_function_max_section_steps"@), 8),
        c.quality_function_section_sigma_tol == number_or(number_given(o, "quality_function_section_sigma_tol"@), Number { bits: D1EM2 }),
        c.quality_function_section_qf_tol == number_or(number_given(o, "quality_function_section_qf_tol"@), Number { bits: D0 }),
        c.adaptive_mu_safeguard_factor == number_or(number_given(o, "adaptive_mu_safeguard_factor"@), Number { bits: D0 }),
        c.adaptive_mu_monotone_init_factor == number_or(number_given(o, "adaptive_mu_monotone_init_factor"@), Number { bits: D8EM1 }),
        c.adaptive_mu_restore_previous_iterate == answer_or(answer_given(o, "adaptive_mu_restore_previous_iterate"@), false),
        c.adaptive_mu_max_free_returns == integer_given(o, "adaptive_mu_max_free_returns"@),
        c.adaptive_mu_budget_pin_fraction == number_given(o, "adaptive_mu_budget_pin_fraction"@),
        c.adaptive_mu_kkterror_red_fact == number_or(number_given(o, "adaptive_mu_kkterror_red_fact"@), Number { bits: D9999EM4 }),
        c.filter_margin_fact == number_or(number_given(o, "filter_margin_fact"@), Number { bits: D1EM5 }),
        c.filter_max_margin == number_or(number_given(o, "filter_max_margin"@), Number { bits: D1 }),
        c.probing_iterate_quality_factor == number_or(number_given(o, "probing_iterate_quality_factor"@), Number { bits: D1E4 }),
{
    lemma_yes_is_not_no();
}

/// The knobs of the barrier strategies: what the caller set under the name counts, and
/// what the caller did not set stands at its default.
pub proof fn law_mu_follow_the_options(a: IpoptApplication, b: AlgorithmBuilder)
    requires
        call_ensures(IpoptApplication::algorithm_builder_from_options, (&a,), b),
    ensures
        b.mu.mu_init == number_or(number_given(a.options@, "mu_init"@), Number { bits: D1EM1 }),
        b.mu.mu_max == number_or(number_given(a.options@, "mu_max"@), Number { bits: DM1 }),
        b.mu.mu_max_fact == number_or(number_given(a.options@, "mu_max_fact"@), Number { bits: D1E3 }),
        b.mu.mu_min == number_or(number_given(a.options@, "mu_min"@), Number { bits: D1EM11 }),
        b.mu.mu_target == number_or(number_given(a.options@, "mu_target"@), Number { bits: D0 }),
        b.mu.mu_linear_decrease_factor == number_or(number_given(a.options@, "mu_linear_decrease_factor"@), Number { bits: D2EM1 }),
        b.mu.mu_superlinear_decrease_power == number_or(number_given(a.options@, "mu_superlinear_decrease_power"@), Number { bits: D15EM1 }),
        b.mu.mu_allow_fast_monotone_decrease == says_yes(a.options@, "mu_allow_fast_monotone_decrease"@, true),
        b.mu.barrier_tol_factor == number_or(number_given(a.options@, "barrier_tol_factor"@), Number { bits: D1E1 }),
        b.mu.tau_min == number_or(number_given(a.options@, "tau_min"@), Number { bits: D99EM2 }),
        b.mu.sigma_max == number_or(number_given(a.options@, "sigma_max"@), Number { bits: D1E2 }),
        b.mu.sigma_min == number_or(number_given(a.options@, "sigma_min"@), Number { bits: D1EM6 }),
        b.mu.quality_function_max_section_steps == integer_or_else(integer_given(a.options@, "quality_function_max_section_steps"@), 8),
        b.mu.quality_function_section_sigma_tol == number_or(number_given(a.options@, "quality_function_section_sigma_tol"@), Number { bits: D1EM2 }),
        b.mu.quality_function_section_qf_tol == number_or(number_given(a.options@, "quality_function_section_qf_tol"@), Number { bits: D0 }),
        b.mu.adaptive_mu_safeguard_factor == number_or(number_given(a.options@, "adaptive_mu_safeguard_factor"@), Number { bits: D0 }),
        b.mu.adaptive_mu_monotone_init_factor == number_or(number_given(a.options@, "adaptive_mu_monotone_init_factor"@), Number { bits: D8EM1 }),
        b.mu.adaptive_mu_restore_previous_iterate == answer_or(answer_given(a.options@, "adaptive_mu_restore_previous_iterate"@), false),
        b.mu.adaptive_mu_max_free_returns == integer_given(a.options@, "adaptive_mu_max_free_returns"@),
        b.mu.adaptive_mu_budget_pin_fraction == number_given(a.options@, "adaptive_mu_budget_pin_fraction"@),
        b.mu.adaptive_mu_kkterror_red_fact == number_or(number_given(a.options@, "adaptive_mu_kkterror_red_fact"@), Number { bits: D9999EM4 }),
        b.mu.filter_margin_fact == number_or(number_given(a.options@, "filter_margin_fact"@), Number { bits: D1EM5 }),
        b.mu.filter_max_margin == number_or(number_given(a.options@, "filter_max_margin"@), Number { bits: D1 }),
        b.mu.probing_iterate_quality_factor == number_or(number_given(a.options@, "probing_iterate_quality_factor"@), Number { bits: D1E4 }),
{
    lemma_mu(a.options@, b.mu);
}

proof fn lemma_line_search(o: OptionsView, c: LineSearchOptions)
    requires
        c == line_search_from(o),
    ensures
        c.watchdog_shortened_iter_trigger == integer_or_else(integer_given(o, "watchdog_shortened_iter_trigger"@), 10),
        c.watchdog_trial_iter_max == integer_or_else(integer_given(o, "watchdog_trial_iter_max"@), 3),
        c.soft_resto_pderror_reduction_factor == number_or(number_given(o, "soft_resto_pderror_reduction_factor"@), Number { bits: D9999EM4 }),
        c.max_soft_resto_iters == integer_or_else(integer_given(o, "max_soft_resto_iters"@), 10),
        c.accept_every_trial_step == says_yes(o, "accept_every_trial_step"@, asks_for_mehrotra(o)),
        c.alpha_red_factor == number_or(number_given(o, "alpha_red_factor"@), Number { bits: D5EM1 }),
        c.alpha_red_factor_min == number_given(o, "alpha_red_factor_min"@),
        c.accept_after_max_steps == integer_or_else(integer_given(o, "accept_after_max_steps"@), -1i32),
        c.eta_phi == number_or(number_given(o, "eta_phi"@), Number { bits: D1EM8 }),
        c.delta == number_or(number_given(o, "delta"@), Number { bits: D1 }),
        c.theta_min_fact == number_or(number_given(o, "theta_min_fact"@), Number { bits: D1EM4 }),
        c.theta_max_fact == number_or(number_given(o, "theta_max_fact"@), Number { bits: D1E4 }),
        c.theta_max_row_scale_kappa == number_given(o, "theta_max_row_scale_kappa"@),
        c.theta_max_adaptive_factor == number_given(o, "theta_max_adaptive_factor"@),
        c.gamma_phi == number_or(number_given(o, "gamma_phi"@), Number { bits: D1EM8 }),
        c.gamma_theta == number_or(number_given(o, "gamma_theta"@), Number { bits: D1EM5 }),
        c.s_phi == number_or(number_given(o, "s_phi"@), Number { bits: D23EM1 }),
        c.s_theta == number_or(number_given(o, "s_theta"@), Number { bits: D11EM1 }),
        c.alpha_min_frac == number_or(number_given(o, "alpha_min_frac"@), Number { bits: D5EM2 }),
        c.obj_max_inc == number_or(number_given(o, "obj_max_inc"@), Number { bits: D5 }),
        c.max_filter_resets == integer_or_else(integer_given(o, "max_filter_resets"@), 5),
        c.filter_reset_trigger == integer_or_else(integer_given(o, "filter_reset_trigger"@), 5),
        c.nu_init == number_given(o, "nu_init"@),
        c.nu_inc == number_given(o, "nu_inc"@),
        c.rho == number_given(o, "rho"@),
        c.eta_penalty == number_given(o, "eta_penalty"@),
        c.max_soc == integer_or_else(integer_given(o, "max_soc"@), 4),
        c.kappa_soc == number_or(number_given(o, "kappa_soc"@), Number { bits: D99EM2 }),
        c.soc_method == integer_or_else(integer_given(o, "soc_method"@), 0),
{
    lemma_yes_is_not_no();
}

/// The knobs of the line search: what the caller set under the name counts, and
/// what the caller did not set stands at its default.
pub proof fn law_line_search_follow_the_options(a: IpoptApplication, b: AlgorithmBuilder)
    requires
        call_ensures(IpoptApplication::algorithm_builder_from_options, (&a,), b),
    ensures
        b.line_search.watchdog_shortened_iter_trigger == integer_or_else(integer_given(a.options@, "watchdog_shortened_iter_trigger"@), 10),
        b.line_search.watchdog_trial_iter_max == integer_or_else(integer_given(a.options@, "watchdog_trial_iter_max"@), 3),
        b.line_search.soft_resto_pderror_reduction_factor == number_or(number_given(a.options@, "soft_resto_pderror_reduction_factor"@), Number { bits: D9999EM4 }),
        b.line_search.max_soft_resto_iters == integer_or_else(integer_given(a.options@, "max_soft_resto_iters"@), 10),
        b.line_search.accept_every_trial_step == says_yes(a.options@, "accept_every_trial_step"@, asks_for_mehrotra(a.options@)),
        b.line_search.alpha_red_factor == number_or(number_given(a.options@, "alpha_red_factor"@), Number { bits: D5EM1 }),
        b.line_search.alpha_red_factor_min == number_given(a.options@, "alpha_red_factor_min"@),
        b.line_search.accept_after_max_steps == integer_or_else(integer_given(a.options@, "accept_after_max_steps"@), -1i32),
        b.line_search.eta_phi == number_or(number_given(a.options@, "eta_phi"@), Number { bits: D1EM8 }),
        b.line_search.delta == number_or(number_given(a.options@, "delta"@), Number { bits: D1 }),
        b.line_search.theta_min_fact == number_or(number_given(a.options@, "theta_min_fact"@), Number { bits: D1EM4 }),
        b.line_search.theta_max_fact == number_or(number_given(a.options@, "theta_max_fact"@), Number { bits: D1E4 }),
        b.line_search.theta_max_row_scale_kappa == number_given(a.options@, "theta_max_row_scale_kappa"@),
        b.line_search.theta_max_adaptive_factor == number_given(a.options@, "theta_max_adaptive_factor"@),
        b.line_search.gamma_phi == number_or(number_given(a.options@, "gamma_phi"@), Number { bits: D1EM8 }),
        b.line_search.gamma_theta == number_or(number_given(a.options@, "gamma_theta"@), Number { bits: D1EM5 }),
        b.line_search.s_phi == number_or(number_given(a.options@, "s_phi"@), Number { bits: D23EM1 }),
        b.line_search.s_theta == number_or(number_given(a.options@, "s_theta"@), Number { bits: D11EM1 }),
        b.line_search.alpha_min_frac == number_or(number_given(a.options@, "alpha_min_frac"@), Number { bits: D5EM2 }),
        b.line_search.obj_max_inc == number_or(number_given(a.options@, "obj_max_inc"@), Number { bits: D5 }),
        b.line_search.max_filter_resets == integer_or_else(integer_given(a.options@, "max_filter_resets"@), 5),
        b.line_search.filter_reset_trigger == integer_or_else(integer_given(a.options@, "filter_reset_trigger"@), 5),
        b.line_search.nu_init == number_given(a.options@, "nu_init"@),
        b.line_search.nu_inc == number_given(a.options@, "nu_inc"@),
        b.line_search.rho == number_given(a.options@, "rho"@),
        b.line_search.eta_penalty == number_given(a.options@, "eta_penalty"@),
        b.line_search.max_soc == integer_or_else(integer_given(a.options@, "max_soc"@), 4),
        b.line_search.kappa_soc == number_or(number_given(a.options@, "kappa_soc"@), Number { bits: D99EM2 }),
        b.line_search.soc_method == integer_or_else(integer_given(a.options@, "soc_method"@), 0),
{
    lemma_line_search(a.options@, b.line_search);
}

proof fn lemma_perturbation(o: OptionsView, c: PerturbationOptions)
    requires
        c == perturbation_from(o),
    ensures
        c.max_hessian_perturbation == number_or(number_given(o, "max_hessian_perturbation"@), Number { bits: D1E20 }),
        c.min_hessian_perturbation == number_or(number_given(o, "min_hessian_perturbation"@), Number { bits: D1EM20 }),
        c.perturb_inc_fact_first == number_or(number_given(o, "perturb_inc_fact_first"@), Number { bits: D1E2 }),
        c.perturb_inc_fact == number_or(number_given(o, "perturb_inc_fact"@), Number { bits: D8 }),
        c.perturb_dec_fact == number_or(number_given(o, "perturb_dec_fact"@), Number { bits: ONE_THIRD }),
        c.first_hessian_perturbation == number_or(number_given(o, "first_hessian_perturbation"@), Number { bits: D1EM4 }),
        c.jacobian_regularization_value == number_or(number_given(o, "jacobian_regularization_value"@), Number { bits: D1EM8 }),
        c.jacobian_regularization_exponent == number_or(number_given(o, "jacobian_regularization_exponent"@), Number { bits: D25EM2 }),
        c.perturb_always_cd == answer_or(answer_given(o, "perturb_always_cd"@), false),
        c.perturb_delta_c_max_rungs == integer_given(o, "perturb_delta_c_max_rungs"@),
{
    lemma_yes_is_not_no();
}

/// The knobs of the inertia correction: what the caller set under the name counts, and
/// what the caller did not set stands at its default.
pub proof fn law_perturbation_follow_the_options(a: IpoptApplication, b: AlgorithmBuilder)
    requires
        call_ensures(IpoptApplication::algorithm_builder_from_options, (&a,), b),
    ensures
        b.perturbation.max_hessian_perturbation == number_or(number_given(a.options@, "max_hessian_perturbation"@), Number { bits: D1E20 }),
        b.perturbation.min_hessian_perturbation == number_or(number_given(a.options@, "min_hessian_perturbation"@), Number { bits: D1EM20 }),
        b.perturbation.perturb_inc_fact_first == number_or(number_given(a.options@, "perturb_inc_fact_first"@), Number { bits: D1E2 }),
        b.perturbation.perturb_inc_fact == number_or(number_given(a.options@, "perturb_inc_fact"@), Number { bits: D8 }),
        b.perturbation.perturb_dec_fact == number_or(number_given(a.options@, "perturb_dec_fact"@), Number { bits: ONE_THIRD }),
        b.perturbation.first_hessian_perturbation == number_or(number_given(a.options@, "first_hessian_perturbation"@), Number { bits: D1EM4 }),
        b.perturbation.jacobian_regularization_value == number_or(number_given(a.options@, "jacobian_regularization_value"@), Number { bits: D1EM8 }),
        b.perturbation.jacobian_regularization_exponent == number_or(number_given(a.options@, "jacobian_regularization_exponent"@), Number { bits: D25EM2 }),
        b.perturbation.perturb_always_cd == answer_or(answer_given(a.options@, "perturb_always_cd"@), false),
        b.perturbation.perturb_delta_c_max_rungs == integer_given(a.options@, "perturb_delta_c_max_rungs"@),
{
    lemma_perturbation(a.options@, b.perturbation);
}

proof fn lemma_resto(o: OptionsView, c: RestoOptions)
    requires
        c == resto_from(o),
    ensures
        c.bound_mult_reset_threshold == number_or(number_given(o, "bound_mult_reset_threshold"@), Number { bits: D1E3 }),
        c.constr_mult_reset_threshold == number_or(number_given(o, "constr_mult_reset_threshold"@), Number { bits: D0 }),
        c.resto_penalty_parameter == number_or(number_given(o, "resto_penalty_parameter"@), Number { bits: D1E3 }),
        c.resto_proximity_weight == number_or(number_given(o, "resto_proximity_weight"@), Number { bits: D1 }),
        c.required_infeasibility_reduction == number_given(o, "required_infeasibility_reduction"@),
        c.max_resto_iter == integer_or_else(integer_given(o, "max_resto_iter"@), 3000),
{
    lemma_yes_is_not_no();
}

/// The knobs of the restoration phase: what the caller set under the name counts, and
/// what the caller did not set stands at its default.
pub proof fn law_resto_follow_the_options(a: IpoptApplication, b: AlgorithmBuilder)
    requires
        call_ensures(IpoptApplication::algorithm_builder_from_options, (&a,), b),
    ensures
        b.resto.bound_mult_reset_threshold == number_or(number_given(a.options@, "bound_mult_reset_threshold"@), Number { bits: D1E3 }),
        b.resto.constr_mult_reset_threshold == number_or(number_given(a.options@, "constr_mult_reset_threshold"@), Number { bits: D0 }),
        b.resto.resto_penalty_parameter == number_or(number_given(a.options@, "resto_penalty_parameter"@), Number { bits: D1E3 }),
        b.resto.resto_proximity_weight == number_or(number_given(a.options@, "resto_proximity_weight"@), Number { bits: D1 }),
        b.resto.required_infeasibility_reduction == number_given(a.options@, "required_infeasibility_reduction"@),
        b.resto.max_resto_iter == integer_or_else(integer_given(a.options@, "max_resto_iter"@), 3000),
{
    lemma_resto(a.options@, b.resto);
}

proof fn lemma_refinement(o: OptionsView, c: RefinementOptions)
    requires
        c == refinement_from(o),
    ensures
        c.min_refinement_steps == integer_or_else(integer_given(o, "min_refinement_steps"@), 1),
        c.max_refinement_steps == integer_or_else(integer_given(o, "max_refinement_steps"@), 10),
        c.residual_ratio_max == number_or(number_given(o, "residual_ratio_max"@), Number { bits: D1EM10 }),
        c.residual_ratio_singular == number_or(number_given(o, "residual_ratio_singular"@), Number { bits: D1EM5 }),
        c.residual_improvement_factor == number_or(number_given(o, "residual_improvement_factor"@), Number { bits: D999999999EM9 }),
        c.neg_curv_test_tol == number_or(number_given(o, "neg_curv_test_tol"@), Number { bits: D0 }),
        c.neg_curv_test_reg == answer_given(o, "neg_curv_test_reg"@),
{
    lemma_yes_is_not_no();
}

/// The knobs of the iterative refinement: what the caller set under the name counts, and
/// what the caller did not set stands at its default.
pub proof fn law_refinement_follow_the_options(a: IpoptApplication, b: AlgorithmBuilder)
    requires
        call_ensures(IpoptApplication::algorithm_builder_from_options, (&a,), b),
    ensures
        b.refinement.min_refinement_steps == integer_or_else(integer_given(a.options@, "min_refinement_steps"@), 1),
        b.refinement.max_refinement_steps == integer_or_else(integer_given(a.options@, "max_refinement_steps"@), 10),
        b.refinement.residual_ratio_max == number_or(number_given(a.options@, "residual_ratio_max"@), Number { bits: D1EM10 }),
        b.refinement.residual_ratio_singular == number_or(number_given(a.options@, "residual_ratio_singular"@), Number { bits: D1EM5 }),
        b.refinement.residual_improvement_factor == number_or(number_given(a.options@, "residual_improvement_factor"@), Number { bits: D999999999EM9 }),
        b.refinement.neg_curv_test_tol == number_or(number_given(a.options@, "neg_curv_test_tol"@), Number { bits: D0 }),
        b.refinement.neg_curv_test_reg == answer_given(a.options@, "neg_curv_test_reg"@),
{
    lemma_refinement(a.options@, b.refinement);
}

proof fn lemma_output(o: OptionsView, c: OutputOptions)
    requires
        c == output_from(o),
    ensures
        c.print_frequency_iter == integer_or_else(integer_given(o, "print_frequency_iter"@), 1),
        c.print_frequency_time == number_or(number_given(o, "print_frequency_time"@), Number { bits: D0 }),
        c.print_info_string == answer_or(answer_given(o, "print_info_string"@), false),
{
    lemma_yes_is_not_no();
}

/// The knobs of the iteration output: what the caller set under the name counts, and
/// what the caller did not set stands at its default.
pub proof fn law_output_follow_the_options(a: IpoptApplication, b: AlgorithmBuilder)
    requires
        call_ensures(IpoptApplication::algorithm_builder_from_options, (&a,), b),
    ensures
        b.output.print_frequency_iter == integer_or_else(integer_given(a.options@, "print_frequency_iter"@), 1),
        b.output.print_frequency_time == number_or(number_given(a.options@, "print_frequency_time"@), Number { bits: D0 }),
        b.output.print_info_string == answer_or(answer_given(a.options@, "print_info_string"@), false),
{
    lemma_output(a.options@, b.output);
}

proof fn lemma_own_knobs(o: OptionsView, b: AlgorithmBuilder)
    requires
        b.linear_scaling_on_demand == switch_or(o, "linear_scaling_on_demand"@, true),
        b.limited_memory_init_val == numeric_or(o, "limited_memory_init_val"@, Number { bits: D1 }),
        b.limited_memory_init_val_max == numeric_set(o, "limited_memory_init_val_max"@),
        b.limited_memory_init_val_min == numeric_set(o, "limited_memory_init_val_min"@),
        b.limited_memory_ls_failure_restarts == integer_set(o, "limited_memory_ls_failure_restarts"@),
        b.warm_start_init_point == switch_or(o, "warm_start_init_point"@, false),
        b.recalc_y == yes_or(o, "recalc_y"@, false),
        b.recalc_y_feas_tol == numeric_or(o, "recalc_y_feas_tol"@, Number { bits: D1EM6 }),
        b.kappa_sigma == numeric_or(o, "kappa_sigma"@, Number { bits: D1E10 }),
        b.kappa_d == numeric_or(o, "kappa_d"@, Number { bits: D1EM5 }),
        b.s_max == numeric_or(o, "s_max"@, Number { bits: D1E2 }),
        b.tiny_step_tol == numeric_or(o, "tiny_step_tol"@, Number { bits: TEN_EPSILON }),
        b.tiny_step_y_tol == numeric_or(o, "tiny_step_y_tol"@, Number { bits: D1EM2 }),
        b.diverging_iterates_tol == numeric_or(o, "diverging_iterates_tol"@, Number { bits: D1E20 }),
        b.dual_diverging_streak == integer_or(o, "dual_diverging_streak"@, 0),
        b.dual_divergence_retry_step_tol == numeric_set(o, "dual_divergence_retry_step_tol"@),
        b.dual_divergence_retry_du_floor == numeric_or(o, "dual_divergence_retry_du_floor"@, Number { bits: D1E2 }),
        b.resto_decline_deferrals == integer_set(o, "resto_decline_deferrals"@),
        b.resto_decline_progress_ratio == numeric_set(o, "resto_decline_progress_ratio"@),
        b.neg_curv_escapes == integer_set(o, "neg_curv_escapes"@),
        b.kkt_fidelity_tol == numeric_or(o, "kkt_fidelity_tol"@, Number { bits: D0 }),
    ensures
        b.linear_scaling_on_demand == answer_or(answer_given(o, "linear_scaling_on_demand"@), true),
        b.limited_memory_init_val == number_or(number_given(o, "limited_memory_init_val"@), Number { bits: D1 }),
        b.limited_memory_init_val_max == number_given(o, "limited_memory_init_val_max"@),
        b.limited_memory_init_val_min == number_given(o, "limited_memory_init_val_min"@),
        b.limited_memory_ls_failure_restarts == integer_given(o, "limited_memory_ls_failure_restarts"@),
        b.warm_start_init_point == answer_or(answer_given(o, "warm_start_init_point"@), false),
        b.recalc_y == says_yes(o, "recalc_y"@, false),
        b.recalc_y_feas_tol == number_or(number_given(o, "recalc_y_feas_tol"@), Number { bits: D1EM6 }),
        b.kappa_sigma == number_or(number_given(o, "kappa_sigma"@), Number { bits: D1E10 }),
        b.kappa_d == number_or(number_given(o, "kappa_d"@), Number { bits: D1EM5 }),
        b.s_max == number_or(number_given(o, "s_max"@), Number { bits: D1E2 }),
        b.tiny_step_tol == number_or(number_given(o, "tiny_step_tol"@), Number { bits: TEN_EPSILON }),
        b.tiny_step_y_tol == number_or(number_given(o, "tiny_step_y_tol"@), Number { bits: D1EM2 }),
        b.diverging_iterates_tol == number_or(number_given(o, "diverging_iterates_tol"@), Number { bits: D1E20 }),
        b.dual_diverging_streak == integer_or_else(integer_given(o, "dual_diverging_streak"@), 0),
        b.dual_divergence_retry_step_tol == number_given(o, "dual_divergence_retry_step_tol"@),
        b.dual_divergence_retry_du_floor == number_or(number_given(o, "dual_divergence_retry_du_floor"@), Number { bits: D1E2 }),
        b.resto_decline_deferrals == integer_given(o, "resto_decline_deferrals"@),
        b.resto_decline_progress_ratio == number_given(o, "resto_decline_progress_ratio"@),
        b.neg_curv_escapes == integer_given(o, "neg_curv_escapes"@),
        b.kkt_fidelity_tol == number_or(number_given(o, "kkt_fidelity_tol"@), Number { bits: D0 }),
{
    lemma_yes_is_not_no();
}

/// The knobs of the algorithm itself: what the caller set under the name counts, and
/// what the caller did not set stands at its default.
pub proof fn law_own_knobs_follow_the_options(a: IpoptApplication, b: AlgorithmBuilder)
    requires
        call_ensures(IpoptApplication::algorithm_builder_from_options, (&a,), b),
    ensures
        b.linear_scaling_on_demand == answer_or(answer_given(a.options@, "linear_scaling_on_demand"@), true),
        b.limited_memory_init_val == number_or(number_given(a.options@, "limited_memory_init_val"@), Number { bits: D1 }),
        b.limited_memory_init_val_max == number_given(a.options@, "limited_memory_init_val_max"@),
        b.limited_memory_init_val_min == number_given(a.options@, "limited_memory_init_val_min"@),
        b.limited_memory_ls_failure_restarts == integer_given(a.options@, "limited_memory_ls_failure_restarts"@),
        b.warm_start_init_point == answer_or(answer_given(a.options@, "warm_start_init_point"@), false),
        b.recalc_y == says_yes(a.options@, "recalc_y"@, false),
        b.recalc_y_feas_tol == number_or(number_given(a.options@, "recalc_y_feas_tol"@), Number { bits: D1EM6 }),
        b.kappa_sigma == number_or(number_given(a.options@, "kappa_sigma"@), Number { bits: D1E10 }),
        b.kappa_d == number_or(number_given(a.options@, "kappa_d"@), Number { bits: D1EM5 }),
        b.s_max == number_or(number_given(a.options@, "s_max"@), Number { bits: D1E2 }),
        b.tiny_step_tol == number_or(number_given(a.options@, "tiny_step_tol"@), Number { bits: TEN_EPSILON }),
        b.tiny_step_y_tol == number_or(number_given(a.options@, "tiny_step_y_tol"@), Number { bits: D1EM2 }),
        b.diverging_iterates_tol == number_or(number_given(a.options@, "diverging_iterates_tol"@), Number { bits: D1E20 }),
        b.dual_diverging_streak == integer_or_else(integer_given(a.options@, "dual_diverging_streak"@), 0),
        b.dual_divergence_retry_step_tol == number_given(a.options@, "dual_divergence_retry_step_tol"@),
        b.dual_divergence_retry_du_floor == number_or(number_given(a.options@, "dual_divergence_retry_du_floor"@), Number { bits: D1E2 }),
        b.resto_decline_deferrals == integer_given(a.options@, "resto_decline_deferrals"@),
        b.resto_decline_progress_ratio == number_given(a.options@, "resto_decline_progress_ratio"@),
        b.neg_curv_escapes == integer_given(a.options@, "neg_curv_escapes"@),
        b.kkt_fidelity_tol == number_or(number_given(a.options@, "kkt_fidelity_tol"@), Number { bits: D0 }),
{
    lemma_own_knobs(a.options@, b);
}

proof fn lemma_mu_oracle(o: OptionsView, c: MuOracleKind)
    requires
        c == mu_oracle_of(o),
    ensures
        text_given(o, "mu_oracle"@) == Some("loqo"@) ==> c == MuOracleKind::Loqo,
        text_given(o, "mu_oracle"@) == Some("probing"@) ==> c == MuOracleKind::Probing,
        text_given(o, "mu_oracle"@) matches Some(t) ==> t != "loqo"@ && t != "probing"@ ==> c == MuOracleKind::QualityFunction,
        text_given(o, "mu_oracle"@) is None ==> c == (if asks_for_mehrotra(o) { MuOracleKind::Probing } else { MuOracleKind::QualityFunction }),
{
    reveal_strlit("loqo");
    reveal_strlit("probing");
    assert("loqo"@.len() == 4);
    assert("probing"@.len() == 7);
}

/// Each name of `mu_oracle` stands for its own choice.
pub proof fn law_mu_oracle_by_name(a: IpoptApplication, b: AlgorithmBuilder)
    requires
        call_ensures(IpoptApplication::algorithm_builder_from_options, (&a,), b),
    ensures
        text_given(a.options@, "mu_oracle"@) == Some("loqo"@) ==> b.mu_oracle == MuOracleKind::Loqo,
        text_given(a.options@, "mu_oracle"@) == Some("probing"@) ==> b.mu_oracle == MuOracleKind::Probing,
        text_given(a.options@, "mu_oracle"@) matches Some(t) ==> t != "loqo"@ && t != "probing"@ ==> b.mu_oracle == MuOracleKind::QualityFunction,
        text_given(a.options@, "mu_oracle"@) is None ==> b.mu_oracle == (if asks_for_mehrotra(a.options@) { MuOracleKind::Probing } else { MuOracleKind::QualityFunction }),
{
    lemma_mu_oracle(a.options@, b.mu_oracle);
}

proof fn lemma_adaptive_mu_globalization(o: OptionsView, c: MuOptions)
    requires
        c == mu_from(o),
    ensures
        text_given(o, "adaptive_mu_globalization"@) == Some("kkt-error"@) ==> c.adaptive_mu_globalization == AdaptiveMuGlobalization::KktError,
        text_given(o, "adaptive_mu_globalization"@) == Some("never-monotone-mode"@) ==> c.adaptive_mu_globalization == AdaptiveMuGlobalization::NeverMonotoneMode,
        text_given(o, "adaptive_mu_globalization"@) matches Some(t) ==> t != "kkt-error"@ && t != "never-monotone-mode"@ ==> c.adaptive_mu_globalization == AdaptiveMuGlobalization::ObjConstrFilter,
        text_given(o, "adaptive_mu_globalization"@) is None ==> c.adaptive_mu_globalization == (if asks_for_mehrotra(o) { AdaptiveMuGlobalization::NeverMonotoneMode } else { AdaptiveMuGlobalization::ObjConstrFilter }),
{
    reveal_strlit("kkt-error");
    reveal_strlit("never-monotone-mode");
    assert("kkt-error"@.len() == 9);
    assert("never-monotone-mode"@.len() == 19);
}

/// Each name of `adaptive_mu_globalization` stands for its own choice.
pub proof fn law_adaptive_mu_globalization_by_name(a: IpoptApplication, b: AlgorithmBuilder)
    requires
        call_ensures(IpoptApplication::algorithm_builder_from_options, (&a,), b),
    ensures
        text_given(a.options@, "adaptive_mu_globalization"@) == Some("kkt-error"@) ==> b.mu.adaptive_mu_globalization == AdaptiveMuGlobalization::KktError,
        text_given(a.options@, "adaptive_mu_globalization"@) == Some("never-monotone-mode"@) ==> b.mu.adaptive_mu_globalization == AdaptiveMuGlobalization::NeverMonotoneMode,
        text_given(a.options@, "adaptive_mu_globalization"@) matches Some(t) ==> t != "kkt-error"@ && t != "never-monotone-mode"@ ==> b.mu.adaptive_mu_globalization == AdaptiveMuGlobalization::ObjConstrFilter,
        text_given(a.options@, "adaptive_mu_globalization"@) is None ==> b.mu.adaptive_mu_globalization == (if asks_for_mehrotra(a.options@) { AdaptiveMuGlobalization::NeverMonotoneMode } else { AdaptiveMuGlobalization::ObjConstrFilter }),
{
    lemma_adaptive_mu_globalization(a.options@, b.mu);
}

proof fn lemma_hessian_approximation(o: OptionsView, c: HessianApproxChoice)
    requires
        c == hessian_of(o),
    ensures
        text_given(o, "hessian_approximation"@) == Some("limited-memory"@) ==> c == HessianApproxChoice::LimitedMemory,
        text_given(o, "hessian_approximation"@) == Some("partitioned"@) ==> c == HessianApproxChoice::Partitioned,
        text_given(o, "hessian_approximation"@) == Some("finite-difference"@) ==> c == HessianApproxChoice::FiniteDifference,
        text_given(o, "hessian_approximation"@) matches Some(t) ==> t != "limited-memory"@ && t != "partitioned"@ && t != "finite-difference"@ ==> c == HessianApproxChoice::Exact,
        text_given(o, "hessian_approximation"@) is None ==> c == HessianApproxChoice::Exact,
{
    reveal_strlit("limited-memory");
    reveal_strlit("partitioned");
    reveal_strlit("finite-difference");
    assert("limited-memory"@.len() == 14);
    assert("partitioned"@.len() == 11);
    assert("finite-difference"@.len() == 17);
}

/// Each name of `hessian_approximation` stands for its own choice.
pub proof fn law_hessian_approximation_by_name(a: IpoptApplication, b: AlgorithmBuilder)
    requires
        call_ensures(IpoptApplication::algorithm_builder_from_options, (&a,), b),
    ensures
        text_given(a.options@, "hessian_approximation"@) == Some("limited-memory"@) ==> b.hessian_approximation == HessianApproxChoice::LimitedMemory,
        text_given(a.options@, "hessian_approximation"@) == Some("partitioned"@) ==> b.hessian_approximation == HessianApproxChoice::Partitioned,
        text_given(a.options@, "hessian_approximation"@) == Some("finite-difference"@) ==> b.hessian_approximation == HessianApproxChoice::FiniteDifference,
        text_given(a.options@, "hessian_approximation"@) matches Some(t) ==> t != "limited-memory"@ && t != "partitioned"@ && t != "finite-difference"@ ==> b.hessian_approximation == HessianApproxChoice::Exact,
        text_given(a.options@, "hessian_approximation"@) is None ==> b.hessian_approximation == HessianApproxChoice::Exact,
{
    lemma_hessian_approximation(a.options@, b.hessian_approximation);
}

proof fn lemma_line_search_method(o: OptionsView, c: LineSearchChoice)
    requires
        c == match text_set(o, "line_search_method"@) {
            Some(t) => line_search_named(t),
            None => LineSearchChoice::Filter,
        },
    ensures
        text_given(o, "line_search_method"@) == Some("cg-penalty"@) ==> c == LineSearchChoice::CgPenalty,
        text_given(o, "line_search_method"@) == Some("penalty"@) ==> c == LineSearchChoice::Penalty,
        text_given(o, "line_search_method"@) matches Some(t) ==> t != "cg-penalty"@ && t != "penalty"@ ==> c == LineSearchChoice::Filter,
        text_given(o, "line_search_method"@) is None ==> c == LineSearchChoice::Filter,
{
    reveal_strlit("cg-penalty");
    reveal_strlit("penalty");
    assert("cg-penalty"@.len() == 10);
    assert("penalty"@.len() == 7);
}

/// Each name of `line_search_method` stands for its own choice.
pub proof fn law_line_search_method_by_name(a: IpoptApplication, b: AlgorithmBuilder)
    requires
        call_ensures(IpoptApplication::algorithm_builder_from_options, (&a,), b),
    ensures
        text_given(a.options@, "line_search_method"@) == Some("cg-penalty"@) ==> b.line_search_method == LineSearchChoice::CgPenalty,
        text_given(a.options@, "line_search_method"@) == Some("penalty"@) ==> b.line_search_method == LineSearchChoice::Penalty,
        text_given(a.options@, "line_search_method"@) matches Some(t) ==> t != "cg-penalty"@ && t != "penalty"@ ==> b.line_search_method == LineSearchChoice::Filter,
        text_given(a.options@, "line_search_method"@) is None ==> b.line_search_method == LineSearchChoice::Filter,
{
    lemma_line_search_method(a.options@, b.line_search_method);
}

proof fn lemma_linear_system_scaling(o: OptionsView, c: LinearSystemScalingChoice)
    requires
        c == match text_set(o, "linear_system_scaling"@) {
            Some(t) => scaling_named(t),
            None => LinearSystemScalingChoice::Unscaled,
        },
    ensures
        text_given(o, "linear_system_scaling"@) == Some("ruiz"@) ==> c == LinearSystemScalingChoice::Ruiz,
        text_given(o, "linear_system_scaling"@) == Some("mc19"@) ==> c == LinearSystemScalingChoice::Mc19,
        text_given(o, "linear_system_scaling"@) == Some("slack-based"@) ==> c == LinearSystemScalingChoice::SlackBased,
        text_given(o, "linear_system_scaling"@) matches Some(t) ==> t != "ruiz"@ && t != "mc19"@ && t != "slack-based"@ ==> c == LinearSystemScalingChoice::Unscaled,
        text_given(o, "linear_system_scaling"@) is None ==> c == LinearSystemScalingChoice::Unscaled,
{
    reveal_strlit("ruiz");
    reveal_strlit("mc19");
    reveal_strlit("slack-based");
    assert("ruiz"@.len() == 4);
    assert("mc19"@.len() == 4);
    assert("slack-based"@.len() == 11);
    assert("mc19"@[0] == 'm' && "ruiz"@[0] == 'r');
}

/// Each name of `linear_system_scaling` stands for its own choice.
pub proof fn law_linear_system_scaling_by_name(a: IpoptApplication, b: AlgorithmBuilder)
    requires
        call_ensures(IpoptApplication::algorithm_builder_from_options, (&a,), b),
    ensures
        text_given(a.options@, "linear_system_scaling"@) == Some("ruiz"@) ==> b.linear_system_scaling == LinearSystemScalingChoice::Ruiz,
        text_given(a.options@, "linear_system_scaling"@) == Some("mc19"@) ==> b.linear_system_scaling == LinearSystemScalingChoice::Mc19,
        text_given(a.options@, "linear_system_scaling"@) == Some("slack-based"@) ==> b.linear_system_scaling == LinearSystemScalingChoice::SlackBased,
        text_given(a.options@, "linear_system_scaling"@) matches Some(t) ==> t != "ruiz"@ && t != "mc19"@ && t != "slack-based"@ ==> b.linear_system_scaling == LinearSystemScalingChoice::Unscaled,
        text_given(a.options@, "linear_system_scaling"@) is None ==> b.linear_system_scaling == LinearSystemScalingChoice::Unscaled,
{
    lemma_linear_system_scaling(a.options@, b.linear_system_scaling);
}

proof fn lemma_limited_memory_initialization(o: OptionsView, c: InitialApprox)
    requires
        c == match text_set(o, "limited_memory_initialization"@) {
            Some(t) => initial_approx_named(t),
            None => InitialApprox::Scalar1,
        },
    ensures
        text_given(o, "limited_memory_initialization"@) == Some("scalar1"@) ==> c == InitialApprox::Scalar1,
        text_given(o, "limited_memory_initialization"@) == Some("scalar2"@) ==> c == InitialApprox::Scalar2,
        text_given(o, "limited_memory_initialization"@) == Some("scalar3"@) ==> c == InitialApprox::Scalar3,
        text_given(o, "limited_memory_initialization"@) == Some("scalar4"@) ==> c == InitialApprox::Scalar4,
        text_given(o, "limited_memory_initialization"@) == Some("constant"@) ==> c == InitialApprox::Constant,
        text_given(o, "limited_memory_initialization"@) == Some("history-max"@) ==> c == InitialApprox::HistoryMax,
        text_given(o, "limited_memory_initialization"@) matches Some(t) ==> t != "scalar1"@ && t != "scalar2"@ && t != "scalar3"@ && t != "scalar4"@ && t != "constant"@ && t != "history-max"@ ==> c == InitialApprox::Scalar2,
        text_given(o, "limited_memory_initialization"@) is None ==> c == InitialApprox::Scalar1,
{
    reveal_strlit("scalar1");
    reveal_strlit("scalar2");
    reveal_strlit("scalar3");
    reveal_strlit("scalar4");
    reveal_strlit("constant");
    reveal_strlit("history-max");
    assert("scalar1"@.len() == 7);
    assert("scalar2"@.len() == 7);
    assert("scalar3"@.len() == 7);
    assert("scalar4"@.len() == 7);
    assert("constant"@.len() == 8);
    assert("history-max"@.len() == 11);
    assert("scalar2"@[6] == '2' && "scalar1"@[6] == '1');
    assert("scalar3"@[6] == '3' && "scalar1"@[6] == '1');
    assert("scalar3"@[6] == '3' && "scalar2"@[6] == '2');
    assert("scalar4"@[6] == '4' && "scalar1"@[6] == '1');
    assert("scalar4"@[6] == '4' && "scalar2"@[6] == '2');
    assert("scalar4"@[6] == '4' && "scalar3"@[6] == '3');
}

/// Each name of `limited_memory_initialization` stands for its own choice.
pub proof fn law_limited_memory_initialization_by_name(a: IpoptApplication, b: AlgorithmBuilder)
    requires
        call_ensures(IpoptApplication::algorithm_builder_from_options, (&a,), b),
    ensures
        text_given(a.options@, "limited_memory_initialization"@) == Some("scalar1"@) ==> b.limited_memory_initialization == InitialApprox::Scalar1,
        text_given(a.options@, "limited_memory_initialization"@) == Some("scalar2"@) ==> b.limited_memory_initialization == InitialApprox::Scalar2,
        text_given(a.options@, "limited_memory_initialization"@) == Some("scalar3"@) ==> b.limited_memory_initialization == InitialApprox::Scalar3,
        text_given(a.options@, "limited_memory_initialization"@) == Some("scalar4"@) ==> b.limited_memory_initialization == InitialApprox::Scalar4,
        text_given(a.options@, "limited_memory_initialization"@) == Some("constant"@) ==> b.limited_memory_initialization == InitialApprox::Constant,
        text_given(a.options@, "limited_memory_initialization"@) == Some("history-max"@) ==> b.limited_memory_initialization == InitialApprox::HistoryMax,
        text_given(a.options@, "limited_memory_initialization"@) matches Some(t) ==> t != "scalar1"@ && t != "scalar2"@ && t != "scalar3"@ && t != "scalar4"@ && t != "constant"@ && t != "history-max"@ ==> b.limited_memory_initialization == InitialApprox::Scalar2,
        text_given(a.options@, "limited_memory_initialization"@) is None ==> b.limited_memory_initialization == InitialApprox::Scalar1,
{
    lemma_limited_memory_initialization(a.options@, b.limited_memory_initialization);
}

proof fn lemma_quality_function_norm_type(o: OptionsView, c: MuOptions)
    requires
        c == mu_from(o),
    ensures
        text_given(o, "quality_function_norm_type"@) == Some("1-norm"@) ==> c.quality_function_norm_type == NormType::OneNorm,
        text_given(o, "quality_function_norm_type"@) == Some("2-norm"@) ==> c.quality_function_norm_type == NormType::TwoNorm,
        text_given(o, "quality_function_norm_type"@) == Some("max-norm"@) ==> c.quality_function_norm_type == NormType::MaxNorm,
        text_given(o, "quality_function_norm_type"@) matches Some(t) ==> t != "1-norm"@ && t != "2-norm"@ && t != "max-norm"@ ==> c.quality_function_norm_type == NormType::TwoNormSquared,
        text_given(o, "quality_function_norm_type"@) is None ==> c.quality_function_norm_type == NormType::TwoNormSquared,
{
    reveal_strlit("1-norm");
    reveal_strlit("2-norm");
    reveal_strlit("max-norm");
    assert("1-norm"@.len() == 6);
    assert("2-norm"@.len() == 6);
    assert("max-norm"@.len() == 8);
    assert("2-norm"@[0] == '2' && "1-norm"@[0] == '1');
}

/// Each name of `quality_function_norm_type` stands for its own choice.
pub proof fn law_quality_function_norm_type_by_name(a: IpoptApplication, b: AlgorithmBuilder)
    requires
        call_ensures(IpoptApplication::algorithm_builder_from_options, (&a,), b),
    ensures
        text_given(a.options@, "quality_function_norm_type"@) == Some("1-norm"@) ==> b.mu.quality_function_norm_type == NormType::OneNorm,
        text_given(a.options@, "quality_function_norm_type"@) == Some("2-norm"@) ==> b.mu.quality_function_norm_type == NormType::TwoNorm,
        text_given(a.options@, "quality_function_norm_type"@) == Some("max-norm"@) ==> b.mu.quality_function_norm_type == NormType::MaxNorm,
        text_given(a.options@, "quality_function_norm_type"@) matches Some(t) ==> t != "1-norm"@ && t != "2-norm"@ && t != "max-norm"@ ==> b.mu.quality_function_norm_type == NormType::TwoNormSquared,
        text_given(a.options@, "quality_function_norm_type"@) is None ==> b.mu.quality_function_norm_type == NormType::TwoNormSquared,
{
    lemma_quality_function_norm_type(a.options@, b.mu);
}

proof fn lemma_adaptive_mu_kkt_norm_type(o: OptionsView, c: MuOptions)
    requires
        c == mu_from(o),
    ensures
        text_given(o, "adaptive_mu_kkt_norm_type"@) == Some("1-norm"@) ==> c.adaptive_mu_kkt_norm_type == AdaptiveMuKktNorm::OneNorm,
        text_given(o, "adaptive_mu_kkt_norm_type"@) == Some("2-norm"@) ==> c.adaptive_mu_kkt_norm_type == AdaptiveMuKktNorm::TwoNorm,
        text_given(o, "adaptive_mu_kkt_norm_type"@) == Some("max-norm"@) ==> c.adaptive_mu_kkt_norm_type == AdaptiveMuKktNorm::MaxNorm,
        text_given(o, "adaptive_mu_kkt_norm_type"@) matches Some(t) ==> t != "1-norm"@ && t != "2-norm"@ && t != "max-norm"@ ==> c.adaptive_mu_kkt_norm_type == AdaptiveMuKktNorm::TwoNormSquared,
        text_given(o, "adaptive_mu_kkt_norm_type"@) is None ==> c.adaptive_mu_kkt_norm_type == AdaptiveMuKktNorm::TwoNormSquared,
{
    reveal_strlit("1-norm");
    reveal_strlit("2-norm");
    reveal_strlit("max-norm");
    assert("1-norm"@.len() == 6);
    assert("2-norm"@.len() == 6);
    assert("max-norm"@.len() == 8);
    assert("2-norm"@[0] == '2' && "1-norm"@[0] == '1');
}

/// Each name of `adaptive_mu_kkt_norm_type` stands for its own choice.
pub proof fn law_adaptive_mu_kkt_norm_type_by_name(a: IpoptApplication, b: AlgorithmBuilder)
    requires
        call_ensures(IpoptApplication::algorithm_builder_from_options, (&a,), b),
    ensures
        text_given(a.options@, "adaptive_mu_kkt_norm_type"@) == Some("1-norm"@) ==> b.mu.adaptive_mu_kkt_norm_type == AdaptiveMuKktNorm::OneNorm,
        text_given(a.options@, "adaptive_mu_kkt_norm_type"@) == Some("2-norm"@) ==> b.mu.adaptive_mu_kkt_norm_type == AdaptiveMuKktNorm::TwoNorm,
        text_given(a.options@, "adaptive_mu_kkt_norm_type"@) == Some("max-norm"@) ==> b.mu.adaptive_mu_kkt_norm_type == AdaptiveMuKktNorm::MaxNorm,
        text_given(a.options@, "adaptive_mu_kkt_norm_type"@) matches Some(t) ==> t != "1-norm"@ && t != "2-norm"@ && t != "max-norm"@ ==> b.mu.adaptive_mu_kkt_norm_type == AdaptiveMuKktNorm::TwoNormSquared,
        text_given(a.options@, "adaptive_mu_kkt_norm_type"@) is None ==> b.mu.adaptive_mu_kkt_norm_type == AdaptiveMuKktNorm::TwoNormSquared,
{
    lemma_adaptive_mu_kkt_norm_type(a.options@, b.mu);
}

proof fn lemma_quality_function_centrality(o: OptionsView, c: MuOptions)
    requires
        c == mu_from(o),
    ensures
        text_given(o, "quality_function_centrality"@) == Some("log"@) ==> c.quality_function_centrality == CentralityType::LogCenter,
        text_given(o, "quality_function_centrality"@) == Some("reciprocal"@) ==> c.quality_function_centrality == CentralityType::ReciprocalCenter,
        text_given(o, "quality_function_centrality"@) == Some("cubed-reciprocal"@) ==> c.quality_function_centrality == CentralityType::CubedReciprocalCenter,
        text_given(o, "quality_function_centrality"@) matches Some(t) ==> t != "log"@ && t != "reciprocal"@ && t != "cubed-reciprocal"@ ==> c.quality_function_centrality == CentralityType::Off,
        text_given(o, "quality_function_centrality"@) is None ==> c.quality_function_centrality == CentralityType::Off,
{
    reveal_strlit("log");
    reveal_strlit("reciprocal");
    reveal_strlit("cubed-reciprocal");
    assert("log"@.len() == 3);
    assert("reciprocal"@.len() == 10);
    assert("cubed-reciprocal"@.len() == 16);
}

/// Each name of `quality_function_centrality` stands for its own choice.
pub proof fn law_quality_function_centrality_by_name(a: IpoptApplication, b: AlgorithmBuilder)
    requires
        call_ensures(IpoptApplication::algorithm_builder_from_options, (&a,), b),
    ensures
        text_given(a.options@, "quality_function_centrality"@) == Some("log"@) ==> b.mu.quality_function_centrality == CentralityType::LogCenter,
        text_given(a.options@, "quality_function_centrality"@) == Some("reciprocal"@) ==> b.mu.quality_function_centrality == CentralityType::ReciprocalCenter,
        text_given(a.options@, "quality_function_centrality"@) == Some("cubed-reciprocal"@) ==> b.mu.quality_function_centrality == CentralityType::CubedReciprocalCenter,
        text_given(a.options@, "quality_function_centrality"@) matches Some(t) ==> t != "log"@ && t != "reciprocal"@ && t != "cubed-reciprocal"@ ==> b.mu.quality_function_centrality == CentralityType::Off,
        text_given(a.options@, "quality_function_centrality"@) is None ==> b.mu.quality_function_centrality == CentralityType::Off,
{
    lemma_quality_function_centrality(a.options@, b.mu);
}

proof fn lemma_quality_function_balancing_term(o: OptionsView, c: MuOptions)
    requires
        c == mu_from(o),
    ensures
        text_given(o, "quality_function_balancing_term"@) == Some("cubic"@) ==> c.quality_function_balancing_term == BalancingTermType::CubicTerm,
        text_given(o, "quality_function_balancing_term"@) matches Some(t) ==> t != "cubic"@ ==> c.quality_function_balancing_term == BalancingTermType::Off,
        text_given(o, "quality_function_balancing_term"@) is None ==> c.quality_function_balancing_term == BalancingTermType::Off,
{
    reveal_strlit("cubic");
    assert("cubic"@.len() == 5);
}

/// Each name of `quality_function_balancing_term` stands for its own choice.
pub proof fn law_quality_function_balancing_term_by_name(a: IpoptApplication, b: AlgorithmBuilder)
    requires
        call_ensures(IpoptApplication::algorithm_builder_from_options, (&a,), b),
    ensures
        text_given(a.options@, "quality_function_balancing_term"@) == Some("cubic"@) ==> b.mu.quality_function_balancing_term == BalancingTermType::CubicTerm,
        text_given(a.options@, "quality_function_balancing_term"@) matches Some(t) ==> t != "cubic"@ ==> b.mu.quality_function_balancing_term == BalancingTermType::Off,
        text_given(a.options@, "quality_function_balancing_term"@) is None ==> b.mu.quality_function_balancing_term == BalancingTermType::Off,
{
    lemma_quality_function_balancing_term(a.options@, b.mu);
}

proof fn lemma_alpha_for_y(o: OptionsView, c: LineSearchOptions)
    requires
        c == line_search_from(o),
    ensures
        text_given(o, "alpha_for_y"@) == Some("bound-mult"@) ==> c.alpha_for_y == AlphaForY::BoundMult,
        text_given(o, "alpha_for_y"@) == Some("bound_mult"@) ==> c.alpha_for_y == AlphaForY::BoundMult,
        text_given(o, "alpha_for_y"@) == Some("full"@) ==> c.alpha_for_y == AlphaForY::Full,
        text_given(o, "alpha_for_y"@) == Some("min"@) ==> c.alpha_for_y == AlphaForY::Min,
        text_given(o, "alpha_for_y"@) == Some("max"@) ==> c.alpha_for_y == AlphaForY::Max,
        text_given(o, "alpha_for_y"@) == Some("primal"@) ==> c.alpha_for_y == AlphaForY::Primal,
        text_given(o, "alpha_for_y"@) matches Some(t) ==> t != "bound-mult"@ && t != "bound_mult"@ && t != "full"@ && t != "min"@ && t != "max"@ && t != "primal"@ ==> c.alpha_for_y == AlphaForY::Primal,
        text_given(o, "alpha_for_y"@) is None ==> c.alpha_for_y == (if asks_for_mehrotra(o) { AlphaForY::BoundMult } else { AlphaForY::Primal }),
{
    reveal_strlit("bound-mult");
    reveal_strlit("bound_mult");
    reveal_strlit("full");
    reveal_strlit("min");
    reveal_strlit("max");
    reveal_strlit("primal");
    assert("bound-mult"@.len() == 10);
    assert("bound_mult"@.len() == 10);
    assert("full"@.len() == 4);
    assert("min"@.len() == 3);
    assert("max"@.len() == 3);
    assert("primal"@.len() == 6);
    assert("bound_mult"@[5] == '_' && "bound-mult"@[5] == '-');
    assert("max"@[1] == 'a' && "min"@[1] == 'i');
}

/// Each name of `alpha_for_y` stands for its own choice.
pub proof fn law_alpha_for_y_by_name(a: IpoptApplication, b: AlgorithmBuilder)
    requires
        call_ensures(IpoptApplication::algorithm_builder_from_options, (&a,), b),
    ensures
        text_given(a.options@, "alpha_for_y"@) == Some("bound-mult"@) ==> b.line_search.alpha_for_y == AlphaForY::BoundMult,
        text_given(a.options@, "alpha_for_y"@) == Some("bound_mult"@) ==> b.line_search.alpha_for_y == AlphaForY::BoundMult,
        text_given(a.options@, "alpha_for_y"@) == Some("full"@) ==> b.line_search.alpha_for_y == AlphaForY::Full,
        text_given(a.options@, "alpha_for_y"@) == Some("min"@) ==> b.line_search.alpha_for_y == AlphaForY::Min,
        text_given(a.options@, "alpha_for_y"@) == Some("max"@) ==> b.line_search.alpha_for_y == AlphaForY::Max,
        text_given(a.options@, "alpha_for_y"@) == Some("primal"@) ==> b.line_search.alpha_for_y == AlphaForY::Primal,
        text_given(a.options@, "alpha_for_y"@) matches Some(t) ==> t != "bound-mult"@ && t != "bound_mult"@ && t != "full"@ && t != "min"@ && t != "max"@ && t != "primal"@ ==> b.line_search.alpha_for_y == AlphaForY::Primal,
        text_given(a.options@, "alpha_for_y"@) is None ==> b.line_search.alpha_for_y == (if asks_for_mehrotra(a.options@) { AlphaForY::BoundMult } else { AlphaForY::Primal }),
{
    lemma_alpha_for_y(a.options@, b.line_search);
}

proof fn lemma_limited_memory_update_type(o: OptionsView, c: UpdateType)
    requires
        c == match text_set(o, "limited_memory_update_type"@) {
            Some(t) => limited_memory_update_named(t),
            None => UpdateType::Bfgs,
        },
    ensures
        text_given(o, "limited_memory_update_type"@) == Some("sr1"@) ==> c == UpdateType::Sr1,
        text_given(o, "limited_memory_update_type"@) == Some("bfgs"@) ==> c == UpdateType::Bfgs,
        text_given(o, "limited_memory_update_type"@) matches Some(t) ==> t != "sr1"@ && t != "bfgs"@ ==> c == UpdateType::Bfgs,
        text_given(o, "limited_memory_update_type"@) is None ==> c == UpdateType::Bfgs,
{
    reveal_strlit("sr1");
    reveal_strlit("bfgs");
    assert("sr1"@.len() == 3);
    assert("bfgs"@.len() == 4);
}

/// Each name of `limited_memory_update_type` stands for its own choice.
pub proof fn law_limited_memory_update_type_by_name(a: IpoptApplication, b: AlgorithmBuilder)
    requires
        call_ensures(IpoptApplication::algorithm_builder_from_options, (&a,), b),
    ensures
        text_given(a.options@, "limited_memory_update_type"@) == Some("sr1"@) ==> b.limited_memory_update_type == UpdateType::Sr1,
        text_given(a.options@, "limited_memory_update_type"@) == Some("bfgs"@) ==> b.limited_memory_update_type == UpdateType::Bfgs,
        text_given(a.options@, "limited_memory_update_type"@) matches Some(t) ==> t != "sr1"@ && t != "bfgs"@ ==> b.limited_memory_update_type == UpdateType::Bfgs,
        text_given(a.options@, "limited_memory_update_type"@) is None ==> b.limited_memory_update_type == UpdateType::Bfgs,
{
    lemma_limited_memory_update_type(a.options@, b.limited_memory_update_type);
}

proof fn lemma_partitioned_update_type(o: OptionsView, c: UpdateType)
    requires
        c == match text_set(o, "partitioned_update_type"@) {
            Some(t) => partitioned_update_named(t),
            None => UpdateType::Sr1,
        },
    ensures
        text_given(o, "partitioned_update_type"@) == Some("sr1"@) ==> c == UpdateType::Sr1,
        text_given(o, "partitioned_update_type"@) == Some("bfgs"@) ==> c == UpdateType::Bfgs,
        text_given(o, "partitioned_update_type"@) matches Some(t) ==> t != "sr1"@ && t != "bfgs"@ ==> c == UpdateType::Sr1,
        text_given(o, "partitioned_update_type"@) is None ==> c == UpdateType::Sr1,
{
    reveal_strlit("sr1");
    reveal_strlit("bfgs");
    assert("sr1"@.len() == 3);
    assert("bfgs"@.len() == 4);
}

/// Each name of `partitioned_update_type` stands for its own choice.
pub proof fn law_partitioned_update_type_by_name(a: IpoptApplication, b: AlgorithmBuilder)
    requires
        call_ensures(IpoptApplication::algorithm_builder_from_options, (&a,), b),
    ensures
        text_given(a.options@, "partitioned_update_type"@) == Some("sr1"@) ==> b.partitioned_update_type == UpdateType::Sr1,
        text_given(a.options@, "partitioned_update_type"@) == Some("bfgs"@) ==> b.partitioned_update_type == UpdateType::Bfgs,
        text_given(a.options@, "partitioned_update_type"@) matches Some(t) ==> t != "sr1"@ && t != "bfgs"@ ==> b.partitioned_update_type == UpdateType::Sr1,
        text_given(a.options@, "partitioned_update_type"@) is None ==> b.partitioned_update_type == UpdateType::Sr1,
{
    lemma_partitioned_update_type(a.options@, b.partitioned_update_type);
}

proof fn lemma_partitioned_elements(o: OptionsView, c: Option<ElementMode>)
    requires
        c == match text_set(o, "partitioned_elements"@) {
            Some(t) => Some(elements_named(t)),
            None => None,
        },
    ensures
        text_given(o, "partitioned_elements"@) == Some("blocks"@) ==> c == Some(ElementMode::PrimalBlock),
        text_given(o, "partitioned_elements"@) matches Some(t) ==> t != "blocks"@ ==> c == Some(ElementMode::PerConstraint),
        text_given(o, "partitioned_elements"@) is None ==> c == None::<ElementMode>,
{
    reveal_strlit("blocks");
    assert("blocks"@.len() == 6);
}

/// Each name of `partitioned_elements` stands for its own choice.
pub proof fn law_partitioned_elements_by_name(a: IpoptApplication, b: AlgorithmBuilder)
    requires
        call_ensures(IpoptApplication::algorithm_builder_from_options, (&a,), b),
    ensures
        text_given(a.options@, "partitioned_elements"@) == Some("blocks"@) ==> b.partitioned_elements == Some(ElementMode::PrimalBlock),
        text_given(a.options@, "partitioned_elements"@) matches Some(t) ==> t != "blocks"@ ==> b.partitioned_elements == Some(ElementMode::PerConstraint),
        text_given(a.options@, "partitioned_elements"@) is None ==> b.partitioned_elements == None::<ElementMode>,
{
    lemma_partitioned_elements(a.options@, b.partitioned_elements);
}

proof fn lemma_fd_hessian_pattern(o: OptionsView, c: Option<FdPatternSource>)
    requires
        c == match text_set(o, "fd_hessian_pattern"@) {
            Some(t) => Some(fd_pattern_named(t)),
            None => None,
        },
    ensures
        text_given(o, "fd_hessian_pattern"@) == Some("jacobian"@) ==> c == Some(FdPatternSource::Jacobian),
        text_given(o, "fd_hessian_pattern"@) matches Some(t) ==> t != "jacobian"@ ==> c == Some(FdPatternSource::Declared),
        text_given(o, "fd_hessian_pattern"@) is None ==> c == None::<FdPatternSource>,
{
    reveal_strlit("jacobian");
    assert("jacobian"@.len() == 8);
}

/// Each name of `fd_hessian_pattern` stands for its own choice.
pub proof fn law_fd_hessian_pattern_by_name(a: IpoptApplication, b: AlgorithmBuilder)
    requires
        call_ensures(IpoptApplication::algorithm_builder_from_options, (&a,), b),
    ensures
        text_given(a.options@, "fd_hessian_pattern"@) == Some("jacobian"@) ==> b.fd_hessian_pattern == Some(FdPatternSource::Jacobian),
        text_given(a.options@, "fd_hessian_pattern"@) matches Some(t) ==> t != "jacobian"@ ==> b.fd_hessian_pattern == Some(FdPatternSource::Declared),
        text_given(a.options@, "fd_hessian_pattern"@) is None ==> b.fd_hessian_pattern == None::<FdPatternSource>,
{
    lemma_fd_hessian_pattern(a.options@, b.fd_hessian_pattern);
}

proof fn lemma_fd_hessian_coloring(o: OptionsView, c: Option<FdColoring>)
    requires
        c == match text_set(o, "fd_hessian_coloring"@) {
            Some(t) => Some(fd_coloring_named(t)),
            None => None,
        },
    ensures
        text_given(o, "fd_hessian_coloring"@) == Some("cpr"@) ==> c == Some(FdColoring::Cpr),
        text_given(o, "fd_hessian_coloring"@) matches Some(t) ==> t != "cpr"@ ==> c == Some(FdColoring::Star),
        text_given(o, "fd_hessian_coloring"@) is None ==> c == None::<FdColoring>,
{
    reveal_strlit("cpr");
    assert("cpr"@.len() == 3);
}

/// Each name of `fd_hessian_coloring` stands for its own choice.
pub proof fn law_fd_hessian_coloring_by_name(a: IpoptApplication, b: AlgorithmBuilder)
    requires
        call_ensures(IpoptApplication::algorithm_builder_from_options, (&a,), b),
    ensures
        text_given(a.options@, "fd_hessian_coloring"@) == Some("cpr"@) ==> b.fd_hessian_coloring == Some(FdColoring::Cpr),
        text_given(a.options@, "fd_hessian_coloring"@) matches Some(t) ==> t != "cpr"@ ==> b.fd_hessian_coloring == Some(FdColoring::Star),
        text_given(a.options@, "fd_hessian_coloring"@) is None ==> b.fd_hessian_coloring == None::<FdColoring>,
{
    lemma_fd_hessian_coloring(a.options@, b.fd_hessian_coloring);
}

/// The barrier strategy: the Mehrotra algorithm takes the adaptive one; else the
/// name that the caller set decides; else a limited-memory Hessian takes the
proof fn lemma_mu_strategy_by_name(a: IpoptApplication, b: AlgorithmBuilder)
    requires
        b.mu_strategy == mu_strategy_of(a.options@),
    ensures
        asks_for_mehrotra(a.options@) ==> b.mu_strategy == MuStrategyChoice::Adaptive,
        text_given(a.options@, "mu_strategy"@) == Some("adaptive"@) ==> b.mu_strategy
            == MuStrategyChoice::Adaptive,
        !asks_for_mehrotra(a.options@) && text_given(a.options@, "mu_strategy"@) is Some
            && text_given(a.options@, "mu_strategy"@) != Some("adaptive"@) ==> b.mu_strategy
            == MuStrategyChoice::Monotone,
        !asks_for_mehrotra(a.options@) && text_given(a.options@, "mu_strategy"@) is None ==> (
        b.mu_strategy == MuStrategyChoice::Adaptive <==> text_given(
            a.options@,
            "hessian_approximation"@,
        ) == Some("limited-memory"@)),
{
    reveal_strlit("limited-memory");
    reveal_strlit("partitioned");
    reveal_strlit("finite-difference");
    assert("limited-memory"@.len() == 14);
    assert("partitioned"@.len() == 11);
    assert("finite-difference"@.len() == 17);
}

/// adaptive one and any other the monotone one.
pub proof fn law_mu_strategy_by_name(a: IpoptApplication, b: AlgorithmBuilder)
    requires
        call_ensures(IpoptApplication::algorithm_builder_from_options, (&a,), b),
    ensures
        asks_for_mehrotra(a.options@) ==> b.mu_strategy == MuStrategyChoice::Adaptive,
        text_given(a.options@, "mu_strategy"@) == Some("adaptive"@) ==> b.mu_strategy
            == MuStrategyChoice::Adaptive,
        !asks_for_mehrotra(a.options@) && text_given(a.options@, "mu_strategy"@) is Some
            && text_given(a.options@, "mu_strategy"@) != Some("adaptive"@) ==> b.mu_strategy
            == MuStrategyChoice::Monotone,
        !asks_for_mehrotra(a.options@) && text_given(a.options@, "mu_strategy"@) is None ==> (
        b.mu_strategy == MuStrategyChoice::Adaptive <==> text_given(
            a.options@,
            "hessian_approximation"@,
        ) == Some("limited-memory"@)),
{
    lemma_mu_strategy_by_name(a, b);
}

/// What the Mehrotra algorithm asks for where the caller set nothing: a start
proof fn lemma_mehrotra_defaults(a: IpoptApplication, b: AlgorithmBuilder, m: bool)
    requires
        b.mehrotra_algorithm == mehrotra(a.options@),
        init_from(a.options@, b.init),
        b.line_search == line_search_from(a.options@),
        m == asks_for_mehrotra(a.options@),
    ensures
        b.mehrotra_algorithm == m,
        b.init.bound_push == number_or(
            number_given(a.options@, "bound_push"@),
            if m { Number { bits: D1E1 } } else { Number { bits: D1EM2 } },
        ),
        b.init.bound_frac == number_or(
            number_given(a.options@, "bound_frac"@),
            if m { Number { bits: D2EM1 } } else { Number { bits: D1EM2 } },
        ),
        b.init.slack_bound_push == number_or(
            number_given(a.options@, "slack_bound_push"@),
            if m { Number { bits: D1E1 } } else { Number { bits: D1EM2 } },
        ),
        b.init.slack_bound_frac == number_or(
            number_given(a.options@, "slack_bound_frac"@),
            if m { Number { bits: D2EM1 } } else { Number { bits: D1EM2 } },
        ),
        b.init.constr_mult_init_max == number_or(
            number_given(a.options@, "constr_mult_init_max"@),
            if m { Number { bits: D0 } } else { Number { bits: D1E3 } },
        ),
        b.init.bound_mult_init_val == number_or(
            number_given(a.options@, "bound_mult_init_val"@),
            Number { bits: D1 },
        ),
        text_given(a.options@, "bound_mult_init_method"@) matches Some(t)
            ==> b.init.bound_mult_init_method@ == t,
        text_given(a.options@, "bound_mult_init_method"@) is None
            ==> b.init.bound_mult_init_method@ == "constant"@,
        b.init.least_square_init_primal == says_yes(a.options@, "least_square_init_primal"@, m),
        b.line_search.accept_every_trial_step == says_yes(
            a.options@,
            "accept_every_trial_step"@,
            m,
        ),
{
}

/// pushed far inside, every trial step taken, no safeguard on the barrier.
pub proof fn law_mehrotra_defaults(a: IpoptApplication, b: AlgorithmBuilder, m: bool)
    requires
        call_ensures(IpoptApplication::algorithm_builder_from_options, (&a,), b),
        m == asks_for_mehrotra(a.options@),
    ensures
        b.mehrotra_algorithm == m,
        b.init.bound_push == number_or(
            number_given(a.options@, "bound_push"@),
            if m { Number { bits: D1E1 } } else { Number { bits: D1EM2 } },
        ),
        b.init.bound_frac == number_or(
            number_given(a.options@, "bound_frac"@),
            if m { Number { bits: D2EM1 } } else { Number { bits: D1EM2 } },
        ),
        b.init.slack_bound_push == number_or(
            number_given(a.options@, "slack_bound_push"@),
            if m { Number { bits: D1E1 } } else { Number { bits: D1EM2 } },
        ),
        b.init.slack_bound_frac == number_or(
            number_given(a.options@, "slack_bound_frac"@),
            if m { Number { bits: D2EM1 } } else { Number { bits: D1EM2 } },
        ),
        b.init.constr_mult_init_max == number_or(
            number_given(a.options@, "constr_mult_init_max"@),
            if m { Number { bits: D0 } } else { Number { bits: D1E3 } },
        ),
        b.init.bound_mult_init_val == number_or(
            number_given(a.options@, "bound_mult_init_val"@),
            Number { bits: D1 },
        ),
        text_given(a.options@, "bound_mult_init_method"@) matches Some(t)
            ==> b.init.bound_mult_init_method@ == t,
        text_given(a.options@, "bound_mult_init_method"@) is None
            ==> b.init.bound_mult_init_method@ == "constant"@,
        b.init.least_square_init_primal == says_yes(a.options@, "least_square_init_primal"@, m),
        b.line_search.accept_every_trial_step == says_yes(
            a.options@,
            "accept_every_trial_step"@,
            m,
        ),
{
    lemma_mehrotra_defaults(a, b, m);
}

/// The linear solver: MA57 where the option stands at that name, in any case of
proof fn lemma_linear_solver_by_name(a: IpoptApplication, b: AlgorithmBuilder)
    requires
        b.linear_solver == linear_solver_of(a.options@, a.ma57_available),
        b.algorithm == AlgorithmChoice::InteriorPoint,
        b.kkt_schur is None,
    ensures
        b.linear_solver == LinearSolverChoice::Ma57 <==> a.ma57_available && (stands_at(
            a.options@,
            "linear_solver"@,
        ) matches Some(Held::Text(t)) && alike(t, "ma57"@)),
        stands_at(a.options@, "linear_solver"@) == Some(Held::Text("ma57"@)) && a.ma57_available
            ==> b.linear_solver == LinearSolverChoice::Ma57,
        b.linear_solver == LinearSolverChoice::Ma57 || b.linear_solver == LinearSolverChoice::Feral,
        b.algorithm == AlgorithmChoice::InteriorPoint,
        b.kkt_schur is None,
{
}

/// its letters, and the build has it; FERAL everywhere else.
pub proof fn law_linear_solver_by_name(a: IpoptApplication, b: AlgorithmBuilder)
    requires
        call_ensures(IpoptApplication::algorithm_builder_from_options, (&a,), b),
    ensures
        b.linear_solver == LinearSolverChoice::Ma57 <==> a.ma57_available && (stands_at(
            a.options@,
            "linear_solver"@,
        ) matches Some(Held::Text(t)) && alike(t, "ma57"@)),
        stands_at(a.options@, "linear_solver"@) == Some(Held::Text("ma57"@)) && a.ma57_available
            ==> b.linear_solver == LinearSolverChoice::Ma57,
        b.linear_solver == LinearSolverChoice::Ma57 || b.linear_solver == LinearSolverChoice::Feral,
        b.algorithm == AlgorithmChoice::InteriorPoint,
        b.kkt_schur is None,
{
    lemma_linear_solver_by_name(a, b);
}

/// Counts and limits that are held to their range: a negative one is dropped or
proof fn lemma_counts_are_held_to_their_range(a: IpoptApplication, b: AlgorithmBuilder)
    requires
        b.mu == mu_from(a.options@),
        b.line_search == line_search_from(a.options@),
        b.limited_memory_max_history == history_of(a.options@),
        b.limited_memory_max_skipping == non_negative_integer_set(a.options@, "limited_memory_max_skipping"@),
        b.partitioned_max_element == positive_size_set(a.options@, "partitioned_max_element"@),
        b.partitioned_block_size == positive_size_set(a.options@, "partitioned_block_size"@),
        b.partitioned_curvature_cap == bounded_set(a.options@, "partitioned_curvature_cap"@, false),
        b.fd_hessian_reuse_tol == bounded_set(a.options@, "fd_hessian_reuse_tol"@, true),
        b.partitioned_update_type_was_set == (text_set(a.options@, "partitioned_update_type"@) is Some),
    ensures
        integer_given(a.options@, "adaptive_mu_kkterror_red_iters"@) matches Some(v) ==> v >= 0
            ==> b.mu.adaptive_mu_kkterror_red_iters == v,
        integer_given(a.options@, "adaptive_mu_kkterror_red_iters"@) matches Some(v) ==> v < 0
            ==> b.mu.adaptive_mu_kkterror_red_iters == 4,
        integer_given(a.options@, "adaptive_mu_kkterror_red_iters"@) is None
            ==> b.mu.adaptive_mu_kkterror_red_iters == 4,
        integer_given(a.options@, "theta_max_adaptive_trigger"@) matches Some(v)
            ==> b.line_search.theta_max_adaptive_trigger matches Some(w) && w == (if v > 0 { v } else { 0 }),
        integer_given(a.options@, "theta_max_adaptive_trigger"@) is None
            ==> b.line_search.theta_max_adaptive_trigger is None,
        integer_given(a.options@, "theta_max_adaptive_max_raises"@) matches Some(v)
            ==> b.line_search.theta_max_adaptive_max_raises matches Some(w) && w == (if v > 0 { v } else { 0 }),
        integer_given(a.options@, "theta_max_adaptive_max_raises"@) is None
            ==> b.line_search.theta_max_adaptive_max_raises is None,
        integer_given(a.options@, "limited_memory_max_history"@) matches Some(v) ==> v >= 0
            ==> b.limited_memory_max_history == v,
        integer_given(a.options@, "limited_memory_max_history"@) matches Some(v) ==> v < 0
            ==> b.limited_memory_max_history == 6,
        integer_given(a.options@, "limited_memory_max_history"@) is None
            ==> b.limited_memory_max_history == 6,
        integer_given(a.options@, "limited_memory_max_skipping"@) matches Some(v) ==> v >= 0
            ==> b.limited_memory_max_skipping == Some(v),
        integer_given(a.options@, "limited_memory_max_skipping"@) matches Some(v) ==> v < 0
            ==> b.limited_memory_max_skipping is None,
        integer_given(a.options@, "limited_memory_max_skipping"@) is None
            ==> b.limited_memory_max_skipping is None,
        integer_given(a.options@, "partitioned_max_element"@) matches Some(v) ==> v > 0
            ==> (b.partitioned_max_element matches Some(w) && w == v),
        integer_given(a.options@, "partitioned_max_element"@) matches Some(v) ==> v <= 0
            ==> b.partitioned_max_element is None,
        integer_given(a.options@, "partitioned_max_element"@) is None
            ==> b.partitioned_max_element is None,
        integer_given(a.options@, "partitioned_block_size"@) matches Some(v) ==> v > 0
            ==> (b.partitioned_block_size matches Some(w) && w == v),
        integer_given(a.options@, "partitioned_block_size"@) matches Some(v) ==> v <= 0
            ==> b.partitioned_block_size is None,
        integer_given(a.options@, "partitioned_block_size"@) is None
            ==> b.partitioned_block_size is None,
        number_given(a.options@, "partitioned_curvature_cap"@) matches Some(v) ==> (Number {
            bits: D0,
        }).lt_spec(v) ==> b.partitioned_curvature_cap == Some(v),
        number_given(a.options@, "partitioned_curvature_cap"@) matches Some(v) ==> !(Number {
            bits: D0,
        }).lt_spec(v) ==> b.partitioned_curvature_cap is None,
        number_given(a.options@, "partitioned_curvature_cap"@) is None
            ==> b.partitioned_curvature_cap is None,
        number_given(a.options@, "fd_hessian_reuse_tol"@) matches Some(v) ==> (Number {
            bits: D0,
        }).le_spec(v) ==> b.fd_hessian_reuse_tol == Some(v),
        number_given(a.options@, "fd_hessian_reuse_tol"@) matches Some(v) ==> !(Number {
            bits: D0,
        }).le_spec(v) ==> b.fd_hessian_reuse_tol is None,
        number_given(a.options@, "fd_hessian_reuse_tol"@) is None ==> b.fd_hessian_reuse_tol is None,
        b.partitioned_update_type_was_set <==> text_given(
            a.options@,
            "partitioned_update_type"@,
        ) is Some,
{
}

/// taken as 0, as its option says.
pub proof fn law_counts_are_held_to_their_range(a: IpoptApplication, b: AlgorithmBuilder)
    requires
        call_ensures(IpoptApplication::algorithm_builder_from_options, (&a,), b),
    ensures
        integer_given(a.options@, "adaptive_mu_kkterror_red_iters"@) matches Some(v) ==> v >= 0
            ==> b.mu.adaptive_mu_kkterror_red_iters == v,
        integer_given(a.options@, "adaptive_mu_kkterror_red_iters"@) matches Some(v) ==> v < 0
            ==> b.mu.adaptive_mu_kkterror_red_iters == 4,
        integer_given(a.options@, "adaptive_mu_kkterror_red_iters"@) is None
            ==> b.mu.adaptive_mu_kkterror_red_iters == 4,
        integer_given(a.options@, "theta_max_adaptive_trigger"@) matches Some(v)
            ==> b.line_search.theta_max_adaptive_trigger matches Some(w) && w == (if v > 0 { v } else { 0 }),
        integer_given(a.options@, "theta_max_adaptive_trigger"@) is None
            ==> b.line_search.theta_max_adaptive_trigger is None,
        integer_given(a.options@, "theta_max_adaptive_max_raises"@) matches Some(v)
            ==> b.line_search.theta_max_adaptive_max_raises matches Some(w) && w == (if v > 0 { v } else { 0 }),
        integer_given(a.options@, "theta_max_adaptive_max_raises"@) is None
            ==> b.line_search.theta_max_adaptive_max_raises is None,
        integer_given(a.options@, "limited_memory_max_history"@) matches Some(v) ==> v >= 0
            ==> b.limited_memory_max_history == v,
        integer_given(a.options@, "limited_memory_max_history"@) matches Some(v) ==> v < 0
            ==> b.limited_memory_max_history == 6,
        integer_given(a.options@, "limited_memory_max_history"@) is None
            ==> b.limited_memory_max_history == 6,
        integer_given(a.options@, "limited_memory_max_skipping"@) matches Some(v) ==> v >= 0
            ==> b.limited_memory_max_skipping == Some(v),
        integer_given(a.options@, "limited_memory_max_skipping"@) matches Some(v) ==> v < 0
            ==> b.limited_memory_max_skipping is None,
        integer_given(a.options@, "limited_memory_max_skipping"@) is None
            ==> b.limited_memory_max_skipping is None,
        integer_given(a.options@, "partitioned_max_element"@) matches Some(v) ==> v > 0
            ==> (b.partitioned_max_element matches Some(w) && w == v),
        integer_given(a.options@, "partitioned_max_element"@) matches Some(v) ==> v <= 0
            ==> b.partitioned_max_element is None,
        integer_given(a.options@, "partitioned_max_element"@) is None
            ==> b.partitioned_max_element is None,
        integer_given(a.options@, "partitioned_block_size"@) matches Some(v) ==> v > 0
            ==> (b.partitioned_block_size matches Some(w) && w == v),
        integer_given(a.options@, "partitioned_block_size"@) matches Some(v) ==> v <= 0
            ==> b.partitioned_block_size is None,
        integer_given(a.options@, "partitioned_block_size"@) is None
            ==> b.partitioned_block_size is None,
        number_given(a.options@, "partitioned_curvature_cap"@) matches Some(v) ==> (Number {
            bits: D0,
        }).lt_spec(v) ==> b.partitioned_curvature_cap == Some(v),
        number_given(a.options@, "partitioned_curvature_cap"@) matches Some(v) ==> !(Number {
            bits: D0,
        }).lt_spec(v) ==> b.partitioned_curvature_cap is None,
        number_given(a.options@, "partitioned_curvature_cap"@) is None
            ==> b.partitioned_curvature_cap is None,
        number_given(a.options@, "fd_hessian_reuse_tol"@) matches Some(v) ==> (Number {
            bits: D0,
        }).le_spec(v) ==> b.fd_hessian_reuse_tol == Some(v),
        number_given(a.options@, "fd_hessian_reuse_tol"@) matches Some(v) ==> !(Number {
            bits: D0,
        }).le_spec(v) ==> b.fd_hessian_reuse_tol is None,
        number_given(a.options@, "fd_hessian_reuse_tol"@) is None ==> b.fd_hessian_reuse_tol is None,
        b.partitioned_update_type_was_set <==> text_given(
            a.options@,
            "partitioned_update_type"@,
        ) is Some,
{
    lemma_counts_are_held_to_their_range(a, b);
}

/// Switches that are read as a text: yes in any case of its letters, no
proof fn lemma_texts_that_say_yes(a: IpoptApplication, b: AlgorithmBuilder)
    requires
        b.resto == resto_from(a.options@),
        b.output == output_from(a.options@),
        b.warm == warm_from(a.options@),
        b.fast_step_computation == any_yes_or(a.options@, "fast_step_computation"@, false),
    ensures
        text_given(a.options@, "evaluate_orig_obj_at_resto_trial"@) matches Some(t)
            ==> b.resto.evaluate_orig_obj_at_resto_trial == Some(alike(t, "yes"@)),
        text_given(a.options@, "evaluate_orig_obj_at_resto_trial"@) is None
            ==> b.resto.evaluate_orig_obj_at_resto_trial is None,
        text_given(a.options@, "expect_infeasible_problem"@) matches Some(t)
            ==> b.resto.expect_infeasible_problem == Some(alike(t, "yes"@)),
        text_given(a.options@, "expect_infeasible_problem"@) is None
            ==> b.resto.expect_infeasible_problem is None,
        text_given(a.options@, "start_with_resto"@) matches Some(t) ==> b.resto.start_with_resto
            == Some(alike(t, "yes"@)),
        text_given(a.options@, "start_with_resto"@) is None ==> b.resto.start_with_resto is None,
        text_given(a.options@, "fast_step_computation"@) matches Some(t)
            ==> b.fast_step_computation == alike(t, "yes"@),
        text_given(a.options@, "fast_step_computation"@) is None ==> !b.fast_step_computation,
        b.output.inf_pr_output_internal <==> text_given(a.options@, "inf_pr_output"@) == Some(
            "internal"@,
        ),
        text_given(a.options@, "warm_start_recentering"@) matches Some(t) ==> b.warm.recentering
            == Some(
            if alike(t, "none"@) { WarmStartRecentering::Off } else { WarmStartRecentering::Residual },
        ),
        text_given(a.options@, "warm_start_recentering"@) is None ==> b.warm.recentering is None,
{
}

/// otherwise, and untouched where the caller set none.
pub proof fn law_texts_that_say_yes(a: IpoptApplication, b: AlgorithmBuilder)
    requires
        call_ensures(IpoptApplication::algorithm_builder_from_options, (&a,), b),
    ensures
        text_given(a.options@, "evaluate_orig_obj_at_resto_trial"@) matches Some(t)
            ==> b.resto.evaluate_orig_obj_at_resto_trial == Some(alike(t, "yes"@)),
        text_given(a.options@, "evaluate_orig_obj_at_resto_trial"@) is None
            ==> b.resto.evaluate_orig_obj_at_resto_trial is None,
        text_given(a.options@, "expect_infeasible_problem"@) matches Some(t)
            ==> b.resto.expect_infeasible_problem == Some(alike(t, "yes"@)),
        text_given(a.options@, "expect_infeasible_problem"@) is None
            ==> b.resto.expect_infeasible_problem is None,
        text_given(a.options@, "start_with_resto"@) matches Some(t) ==> b.resto.start_with_resto
            == Some(alike(t, "yes"@)),
        text_given(a.options@, "start_with_resto"@) is None ==> b.resto.start_with_resto is None,
        text_given(a.options@, "fast_step_computation"@) matches Some(t)
            ==> b.fast_step_computation == alike(t, "yes"@),
        text_given(a.options@, "fast_step_computation"@) is None ==> !b.fast_step_computation,
        b.output.inf_pr_output_internal <==> text_given(a.options@, "inf_pr_output"@) == Some(
            "internal"@,
        ),
        text_given(a.options@, "warm_start_recentering"@) matches Some(t) ==> b.warm.recentering
            == Some(
            if alike(t, "none"@) { WarmStartRecentering::Off } else { WarmStartRecentering::Residual },
        ),
        text_given(a.options@, "warm_start_recentering"@) is None ==> b.warm.recentering is None,
{
    lemma_texts_that_say_yes(a, b);
}

proof fn lemma_sqp_knobs_stay_out(a: IpoptApplication, b: AlgorithmBuilder)
    requires
        b.sqp == SqpOptions::standard(),
        b.sqp_qp == QpOptions::standard(),
    ensures
        b.sqp.max_iter is None,
        b.sqp.tol is None,
        b.sqp.hessian is None,
        b.sqp_qp.max_iter is None,
        b.sqp_qp.anti_cycling is None,
        !b.sqp_qp.certify_second_order,
{
}

/// The options of the SQP driver do not reach the interior-point builder.
pub proof fn law_sqp_knobs_stay_out(a: IpoptApplication, b: AlgorithmBuilder)
    requires
        call_ensures(IpoptApplication::algorithm_builder_from_options, (&a,), b),
    ensures
        b.sqp.max_iter is None,
        b.sqp.tol is None,
        b.sqp.hessian is None,
        b.sqp_qp.max_iter is None,
        b.sqp_qp.anti_cycling is None,
        !b.sqp_qp.certify_second_order,
{
    lemma_sqp_knobs_stay_out(a, b);
}

} // verus!
