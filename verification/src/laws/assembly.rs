//! What a builder's knobs become in the assembled algorithm.
use crate::alg_builder::AlgorithmBuilder;
use crate::alg_builder::AlgorithmChoice;
use crate::alg_builder::HessianApproxChoice;
use crate::alg_builder::LineSearchChoice;
use crate::alg_builder::LinearSolverChoice;
use crate::alg_builder::LinearSystemScalingChoice;
use crate::alg_builder::MuStrategyChoice;
use crate::application::IpoptApplication;
use crate::assembly::AlgorithmBundle;
use crate::assembly::InfPrTag;
use crate::assembly::IterateInitializer;
use crate::assembly::PrintInfoString;
use crate::assembly::ScalingMethod;
use crate::assembly::SqpAlgorithm;
use crate::conv_check::opt_error::OptErrorConvCheck;
use crate::conv_check::ConvCheck;
use crate::conv_check::ConvergenceStatus;
use crate::conv_check::IterateState;
use crate::decimal::D0;
use crate::decimal::D1;
use crate::decimal::D1E10;
use crate::decimal::D1E5;
use crate::decimal::D1EM2;
use crate::decimal::D1EM4;
use crate::decimal::D1EM6;
use crate::decimal::D1EM8;
use crate::feral::FeralConfig;
use crate::laws::check::law_acceptable_stop_meets_every_tolerance;
use crate::laws::check::law_budgets_end_the_run;
use crate::laws::check::law_converged_meets_every_tolerance;
use crate::laws::configuration::law_conv_check_follow_the_options;
use crate::laws::given::integer_given;
use crate::laws::given::integer_or_else;
use crate::laws::given::number_given;
use crate::laws::given::number_or;
use crate::number::Number;
use vstd::prelude::*;

verus! {

/// Every tolerance and limit of the assembled convergence check is the one of the
/// same name in the builder, and no streak runs yet.
pub proof fn law_check_has_the_builders_tolerances(b: AlgorithmBuilder, r: AlgorithmBundle)
    requires
        call_ensures(AlgorithmBuilder::build, (&b,), r) || call_ensures(
            AlgorithmBuilder::build_with_backend,
            (&b,),
            r,
        ),
    ensures
        r.conv_check.tol == b.conv_check.tol,
        r.conv_check.dual_inf_tol == b.conv_check.dual_inf_tol,
        r.conv_check.constr_viol_tol == b.conv_check.constr_viol_tol,
        r.conv_check.compl_inf_tol == b.conv_check.compl_inf_tol,
        r.conv_check.acceptable_tol == b.conv_check.acceptable_tol,
        r.conv_check.acceptable_dual_inf_tol == b.conv_check.acceptable_dual_inf_tol,
        r.conv_check.acceptable_constr_viol_tol == b.conv_check.acceptable_constr_viol_tol,
        r.conv_check.acceptable_compl_inf_tol == b.conv_check.acceptable_compl_inf_tol,
        r.conv_check.acceptable_obj_change_tol == b.conv_check.acceptable_obj_change_tol,
        r.conv_check.acceptable_iter == b.conv_check.acceptable_iter,
        r.conv_check.max_iter == b.conv_check.max_iter,
        r.conv_check.max_cpu_time == b.conv_check.max_cpu_time,
        r.conv_check.max_wall_time == b.conv_check.max_wall_time,
        r.conv_check.infeas_stationarity_tol == b.conv_check.infeas_stationarity_tol,
        r.conv_check.infeas_viol_kappa == b.conv_check.infeas_viol_kappa,
        r.conv_check.infeas_max_streak == b.conv_check.infeas_max_streak,
        r.conv_check.obj_scale_certificate_threshold == b.conv_check.obj_scale_certificate_threshold,
        r.conv_check.acceptable_count == 0,
        r.conv_check.infeas_streak == 0,
        r.conv_check.veto_extra_iters == 0,
        !r.conv_check.veto_fired,
        !r.conv_check.acceptable_veto_fired,
        r.conv_check.last_acceptable_obj is None,
{
}

/// The monotone barrier strategy has the knobs of the builder. A limit on the
/// barrier parameter counts where it is positive; else it is 1e5.
pub proof fn law_monotone_strategy(b: AlgorithmBuilder, r: AlgorithmBundle)
    requires
        call_ensures(AlgorithmBuilder::build, (&b,), r) || call_ensures(
            AlgorithmBuilder::build_with_backend,
            (&b,),
            r,
        ),
        b.mu_strategy == MuStrategyChoice::Monotone,
    ensures
        r.mu_update is Monotone,
        r.mu_update->Monotone_0.mu_init == b.mu.mu_init,
        r.mu_update->Monotone_0.mu_min == b.mu.mu_min,
        r.mu_update->Monotone_0.mu_target == b.mu.mu_target,
        r.mu_update->Monotone_0.mu_linear_decrease_factor == b.mu.mu_linear_decrease_factor,
        r.mu_update->Monotone_0.mu_superlinear_decrease_power == b.mu.mu_superlinear_decrease_power,
        r.mu_update->Monotone_0.mu_allow_fast_monotone_decrease == b.mu.mu_allow_fast_monotone_decrease,
        r.mu_update->Monotone_0.barrier_tol_factor == b.mu.barrier_tol_factor,
        r.mu_update->Monotone_0.tau_min == b.mu.tau_min,
        r.mu_update->Monotone_0.compl_inf_tol == b.conv_check.compl_inf_tol,
        (Number { bits: D0 }).lt_spec(b.mu.mu_max) ==> r.mu_update->Monotone_0.mu_max == b.mu.mu_max,
        !(Number { bits: D0 }).lt_spec(b.mu.mu_max) ==> r.mu_update->Monotone_0.mu_max == (Number {
            bits: D1E5,
        }),
{
}

/// The adaptive barrier strategy has the knobs of the builder.
pub proof fn law_adaptive_strategy(b: AlgorithmBuilder, r: AlgorithmBundle)
    requires
        call_ensures(AlgorithmBuilder::build, (&b,), r) || call_ensures(
            AlgorithmBuilder::build_with_backend,
            (&b,),
            r,
        ),
        b.mu_strategy == MuStrategyChoice::Adaptive,
    ensures
        r.mu_update is Adaptive,
        r.mu_update->Adaptive_0.mu_oracle == b.mu_oracle,
        r.mu_update->Adaptive_0.mu_init == b.mu.mu_init,
        r.mu_update->Adaptive_0.mu_max == b.mu.mu_max,
        r.mu_update->Adaptive_0.mu_max_fact == b.mu.mu_max_fact,
        r.mu_update->Adaptive_0.mu_min == b.mu.mu_min,
        r.mu_update->Adaptive_0.mu_linear_decrease_factor == b.mu.mu_linear_decrease_factor,
        r.mu_update->Adaptive_0.mu_superlinear_decrease_power == b.mu.mu_superlinear_decrease_power,
        r.mu_update->Adaptive_0.barrier_tol_factor == b.mu.barrier_tol_factor,
        r.mu_update->Adaptive_0.tau_min == b.mu.tau_min,
        r.mu_update->Adaptive_0.sigma_min == b.mu.sigma_min,
        r.mu_update->Adaptive_0.sigma_max == b.mu.sigma_max,
        r.mu_update->Adaptive_0.adaptive_mu_globalization == b.mu.adaptive_mu_globalization,
        r.mu_update->Adaptive_0.qf_norm_type == b.mu.quality_function_norm_type,
        r.mu_update->Adaptive_0.qf_centrality_type == b.mu.quality_function_centrality,
        r.mu_update->Adaptive_0.qf_balancing_term == b.mu.quality_function_balancing_term,
        r.mu_update->Adaptive_0.qf_max_section_steps == b.mu.quality_function_max_section_steps,
        r.mu_update->Adaptive_0.qf_section_sigma_tol == b.mu.quality_function_section_sigma_tol,
        r.mu_update->Adaptive_0.qf_section_qf_tol == b.mu.quality_function_section_qf_tol,
        r.mu_update->Adaptive_0.probing_iterate_quality_factor == b.mu.probing_iterate_quality_factor,
        r.mu_update->Adaptive_0.adaptive_mu_safeguard_factor == b.mu.adaptive_mu_safeguard_factor,
        r.mu_update->Adaptive_0.adaptive_mu_monotone_init_factor == b.mu.adaptive_mu_monotone_init_factor,
        r.mu_update->Adaptive_0.restore_accepted_iterate == b.mu.adaptive_mu_restore_previous_iterate,
        r.mu_update->Adaptive_0.max_free_returns == b.mu.adaptive_mu_max_free_returns,
        r.mu_update->Adaptive_0.budget_pin_fraction == b.mu.adaptive_mu_budget_pin_fraction,
        r.mu_update->Adaptive_0.adaptive_mu_kkterror_red_iters == b.mu.adaptive_mu_kkterror_red_iters,
        r.mu_update->Adaptive_0.adaptive_mu_kkterror_red_fact == b.mu.adaptive_mu_kkterror_red_fact,
        r.mu_update->Adaptive_0.filter_margin_fact == b.mu.filter_margin_fact,
        r.mu_update->Adaptive_0.filter_max_margin == b.mu.filter_max_margin,
        r.mu_update->Adaptive_0.adaptive_mu_kkt_norm == b.mu.adaptive_mu_kkt_norm_type,
{
}

/// The line search has the knobs of the builder. The filter method has a filter,
/// both penalty methods a merit function.
pub proof fn law_line_search(b: AlgorithmBuilder, r: AlgorithmBundle)
    requires
        call_ensures(AlgorithmBuilder::build, (&b,), r) || call_ensures(
            AlgorithmBuilder::build_with_backend,
            (&b,),
            r,
        ),
    ensures
        r.line_search.watchdog_shortened_iter_trigger == b.line_search.watchdog_shortened_iter_trigger,
        r.line_search.watchdog_trial_iter_max == b.line_search.watchdog_trial_iter_max,
        r.line_search.soft_resto_pderror_reduction_factor == b.line_search.soft_resto_pderror_reduction_factor,
        r.line_search.max_soft_resto_iters == b.line_search.max_soft_resto_iters,
        r.line_search.accept_every_trial_step == b.line_search.accept_every_trial_step,
        r.line_search.alpha_for_y == b.line_search.alpha_for_y,
        r.line_search.alpha_red_factor == b.line_search.alpha_red_factor,
        r.line_search.alpha_red_factor_min == b.line_search.alpha_red_factor_min,
        r.line_search.accept_after_max_steps == b.line_search.accept_after_max_steps,
        r.line_search.max_soc == b.line_search.max_soc,
        r.line_search.kappa_soc == b.line_search.kappa_soc,
        r.line_search.soc_method == b.line_search.soc_method,
        r.line_search.acceptor is Filter <==> b.line_search_method == LineSearchChoice::Filter,
        r.line_search.acceptor is Penalty <==> b.line_search_method == LineSearchChoice::Penalty
            || b.line_search_method == LineSearchChoice::CgPenalty,
{
}

/// The filter has the knobs of the builder.
pub proof fn law_filter(b: AlgorithmBuilder, r: AlgorithmBundle)
    requires
        call_ensures(AlgorithmBuilder::build, (&b,), r) || call_ensures(
            AlgorithmBuilder::build_with_backend,
            (&b,),
            r,
        ),
    ensures
        r.line_search.acceptor is Filter ==> r.line_search.acceptor->Filter_0.eta_phi
            == b.line_search.eta_phi,
        r.line_search.acceptor is Filter ==> r.line_search.acceptor->Filter_0.delta
            == b.line_search.delta,
        r.line_search.acceptor is Filter ==> r.line_search.acceptor->Filter_0.theta_min_fact
            == b.line_search.theta_min_fact,
        r.line_search.acceptor is Filter ==> r.line_search.acceptor->Filter_0.theta_max_fact
            == b.line_search.theta_max_fact,
        r.line_search.acceptor is Filter ==> r.line_search.acceptor->Filter_0.theta_max_row_scale_kappa
            == b.line_search.theta_max_row_scale_kappa,
        r.line_search.acceptor is Filter ==> r.line_search.acceptor->Filter_0.theta_max_adaptive_trigger
            == b.line_search.theta_max_adaptive_trigger,
        r.line_search.acceptor is Filter ==> r.line_search.acceptor->Filter_0.theta_max_adaptive_factor
            == b.line_search.theta_max_adaptive_factor,
        r.line_search.acceptor is Filter ==> r.line_search.acceptor->Filter_0.theta_max_adaptive_max_raises
            == b.line_search.theta_max_adaptive_max_raises,
        r.line_search.acceptor is Filter ==> r.line_search.acceptor->Filter_0.gamma_phi
            == b.line_search.gamma_phi,
        r.line_search.acceptor is Filter ==> r.line_search.acceptor->Filter_0.gamma_theta
            == b.line_search.gamma_theta,
        r.line_search.acceptor is Filter ==> r.line_search.acceptor->Filter_0.s_phi
            == b.line_search.s_phi,
        r.line_search.acceptor is Filter ==> r.line_search.acceptor->Filter_0.s_theta
            == b.line_search.s_theta,
        r.line_search.acceptor is Filter ==> r.line_search.acceptor->Filter_0.alpha_min_frac
            == b.line_search.alpha_min_frac,
        r.line_search.acceptor is Filter ==> r.line_search.acceptor->Filter_0.obj_max_inc
            == b.line_search.obj_max_inc,
        r.line_search.acceptor is Filter ==> r.line_search.acceptor->Filter_0.max_filter_resets
            == b.line_search.max_filter_resets,
        r.line_search.acceptor is Filter ==> r.line_search.acceptor->Filter_0.filter_reset_trigger
            == b.line_search.filter_reset_trigger,
{
}

/// The merit function has the knobs of the builder.
pub proof fn law_merit_function(b: AlgorithmBuilder, r: AlgorithmBundle)
    requires
        call_ensures(AlgorithmBuilder::build, (&b,), r) || call_ensures(
            AlgorithmBuilder::build_with_backend,
            (&b,),
            r,
        ),
    ensures
        r.line_search.acceptor is Penalty ==> r.line_search.acceptor->Penalty_0.nu_init
            == b.line_search.nu_init,
        r.line_search.acceptor is Penalty ==> r.line_search.acceptor->Penalty_0.nu_inc
            == b.line_search.nu_inc,
        r.line_search.acceptor is Penalty ==> r.line_search.acceptor->Penalty_0.rho
            == b.line_search.rho,
        r.line_search.acceptor is Penalty ==> r.line_search.acceptor->Penalty_0.eta_penalty
            == b.line_search.eta_penalty,
{
}

/// The Hessian comes from where the builder says.
pub proof fn law_hessian_source(b: AlgorithmBuilder, r: AlgorithmBundle)
    requires
        call_ensures(AlgorithmBuilder::build, (&b,), r) || call_ensures(
            AlgorithmBuilder::build_with_backend,
            (&b,),
            r,
        ),
    ensures
        r.hess is Exact <==> b.hessian_approximation == HessianApproxChoice::Exact,
        r.hess is LimitedMemory <==> b.hessian_approximation == HessianApproxChoice::LimitedMemory,
        r.hess is Partitioned <==> b.hessian_approximation == HessianApproxChoice::Partitioned,
        r.hess is FiniteDifference <==> b.hessian_approximation
            == HessianApproxChoice::FiniteDifference,
        r.hess is LimitedMemory ==> r.hess->LimitedMemory_0.update_type == b.limited_memory_update_type,
        r.hess is LimitedMemory ==> r.hess->LimitedMemory_0.max_history == b.limited_memory_max_history,
        r.hess is LimitedMemory ==> r.hess->LimitedMemory_0.initialization == b.limited_memory_initialization,
        r.hess is LimitedMemory ==> r.hess->LimitedMemory_0.init_val == b.limited_memory_init_val,
        r.hess is LimitedMemory ==> r.hess->LimitedMemory_0.init_val_max == b.limited_memory_init_val_max,
        r.hess is LimitedMemory ==> r.hess->LimitedMemory_0.init_val_min == b.limited_memory_init_val_min,
        r.hess is LimitedMemory ==> r.hess->LimitedMemory_0.max_skipping == b.limited_memory_max_skipping,
        r.hess is Partitioned ==> r.hess->Partitioned_0.update_type == b.partitioned_update_type,
        r.hess is Partitioned ==> r.hess->Partitioned_0.update_type_was_set == b.partitioned_update_type_was_set,
        r.hess is Partitioned ==> r.hess->Partitioned_0.max_element == b.partitioned_max_element,
        r.hess is Partitioned ==> r.hess->Partitioned_0.elements == b.partitioned_elements,
        r.hess is Partitioned ==> r.hess->Partitioned_0.block_size == b.partitioned_block_size,
        r.hess is Partitioned ==> r.hess->Partitioned_0.curvature_cap == b.partitioned_curvature_cap,
        r.hess is FiniteDifference ==> r.hess->FiniteDifference_0.pattern == b.fd_hessian_pattern,
        r.hess is FiniteDifference ==> r.hess->FiniteDifference_0.coloring == b.fd_hessian_coloring,
        r.hess is FiniteDifference ==> r.hess->FiniteDifference_0.reuse_tol == b.fd_hessian_reuse_tol,
{
}

/// The first iterate is made by the warm start where the builder asks for it, and
/// by the cold one otherwise, each with the knobs of the builder.
pub proof fn law_first_iterate(b: AlgorithmBuilder, r: AlgorithmBundle)
    requires
        call_ensures(AlgorithmBuilder::build, (&b,), r) || call_ensures(
            AlgorithmBuilder::build_with_backend,
            (&b,),
            r,
        ),
    ensures
        r.init is WarmStart <==> b.warm_start_init_point,
        r.init matches IterateInitializer::WarmStart(w) ==> w == b.warm,
        r.init matches IterateInitializer::Cold(c) ==> c.bound_push == b.init.bound_push,
        r.init matches IterateInitializer::Cold(c) ==> c.bound_frac == b.init.bound_frac,
        r.init matches IterateInitializer::Cold(c) ==> c.slack_bound_push == b.init.slack_bound_push,
        r.init matches IterateInitializer::Cold(c) ==> c.slack_bound_frac == b.init.slack_bound_frac,
        r.init matches IterateInitializer::Cold(c) ==> c.constr_mult_init_max == b.init.constr_mult_init_max,
        r.init matches IterateInitializer::Cold(c) ==> c.bound_mult_init_val == b.init.bound_mult_init_val,
        r.init matches IterateInitializer::Cold(c) ==> c.bound_mult_init_method@ == b.init.bound_mult_init_method@,
        r.init matches IterateInitializer::Cold(c) ==> c.least_square_init_primal == b.init.least_square_init_primal,
{
}

/// An iteration prints what the builder says.
pub proof fn law_iteration_output(b: AlgorithmBuilder, r: AlgorithmBundle)
    requires
        call_ensures(AlgorithmBuilder::build, (&b,), r) || call_ensures(
            AlgorithmBuilder::build_with_backend,
            (&b,),
            r,
        ),
    ensures
        r.iter_output.print_frequency_iter == b.output.print_frequency_iter,
        r.iter_output.print_frequency_time == b.output.print_frequency_time,
        r.iter_output.print_info_string == PrintInfoString::Yes <==> b.output.print_info_string,
        r.iter_output.inf_pr_output == InfPrTag::Internal <==> b.output.inf_pr_output_internal,
{
}

/// A bundle that is built with a linear solver has a search direction with the
/// backend, scaling, inertia correction and refinement of the builder; one that is
/// built without has none.
pub proof fn law_search_direction(b: AlgorithmBuilder, r: AlgorithmBundle, bare: AlgorithmBundle)
    requires
        call_ensures(AlgorithmBuilder::build_with_backend, (&b,), r),
        call_ensures(AlgorithmBuilder::build, (&b,), bare),
    ensures
        r.search_dir is Some,
        bare.search_dir is None,
        r.search_dir->0.backend == b.linear_solver,
        r.search_dir->0.scaling_on_demand == b.linear_scaling_on_demand,
        r.search_dir->0.refinement == b.refinement,
        r.search_dir->0.mehrotra_algorithm == b.mehrotra_algorithm,
        r.search_dir->0.fast_step_computation == b.fast_step_computation,
        r.search_dir->0.scaling == Some(ScalingMethod::Ruiz) <==> b.linear_system_scaling
            == LinearSystemScalingChoice::Ruiz,
        r.search_dir->0.scaling == Some(ScalingMethod::SlackBased) <==> b.linear_system_scaling
            == LinearSystemScalingChoice::SlackBased,
        r.search_dir->0.perturbation.delta_xs_max == b.perturbation.max_hessian_perturbation,
        r.search_dir->0.perturbation.delta_xs_min == b.perturbation.min_hessian_perturbation,
        r.search_dir->0.perturbation.delta_xs_first_inc_fact == b.perturbation.perturb_inc_fact_first,
        r.search_dir->0.perturbation.delta_xs_inc_fact == b.perturbation.perturb_inc_fact,
        r.search_dir->0.perturbation.delta_xs_dec_fact == b.perturbation.perturb_dec_fact,
        r.search_dir->0.perturbation.delta_xs_init == b.perturbation.first_hessian_perturbation,
        r.search_dir->0.perturbation.delta_cd_val == b.perturbation.jacobian_regularization_value,
        r.search_dir->0.perturbation.delta_cd_exp == b.perturbation.jacobian_regularization_exponent,
        r.search_dir->0.perturbation.perturb_always_cd == b.perturbation.perturb_always_cd,
        r.search_dir->0.perturbation.delta_c_max_rungs == b.perturbation.perturb_delta_c_max_rungs,
{
}

/// The augmented system: a low-rank correction for a limited-memory Hessian; the
/// partition that the builder holds, with an exact Hessian and FERAL alone; the whole
/// system otherwise.
pub proof fn law_augmented_system(b: AlgorithmBuilder, r: AlgorithmBundle)
    requires
        call_ensures(AlgorithmBuilder::build_with_backend, (&b,), r),
    ensures
        r.search_dir->0.aug_solver is LowRank <==> b.hessian_approximation
            == HessianApproxChoice::LimitedMemory,
        r.search_dir->0.aug_solver is Schur <==> b.kkt_schur is Some && b.linear_solver
            == LinearSolverChoice::Feral && b.hessian_approximation == HessianApproxChoice::Exact,
        r.search_dir->0.aug_solver is Schur ==> (b.kkt_schur matches Some((i, c)) && r.search_dir->0.aug_solver->indices@ == i@ && r.search_dir->0.aug_solver->cfg == c),
{
}

/// The SQP driver is built where the builder chose it, with the builder's backend
/// and both sets of knobs.
pub proof fn law_sqp_driver(b: AlgorithmBuilder, r: Option<SqpAlgorithm>)
    requires
        call_ensures(AlgorithmBuilder::build_sqp_with_backend, (&b,), r),
    ensures
        r is Some <==> b.algorithm == AlgorithmChoice::ActiveSetSqp,
        r is Some ==> r->0.backend == b.linear_solver,
        r is Some ==> r->0.sqp == b.sqp,
        r is Some ==> r->0.qp.max_iter == b.sqp_qp.max_iter,
        r is Some ==> r->0.qp.feas_tol == b.sqp_qp.feas_tol,
        r is Some ==> r->0.qp.opt_tol == b.sqp_qp.opt_tol,
        r is Some ==> r->0.qp.elastic_gamma == b.sqp_qp.elastic_gamma,
        r is Some ==> (r->0.qp.anti_cycling is Some <==> b.sqp_qp.anti_cycling is Some),
        r is Some && b.sqp_qp.anti_cycling is Some ==> r->0.qp.anti_cycling->0@
            == b.sqp_qp.anti_cycling->0@,
        r is Some ==> r->0.qp.use_schur_updates == b.sqp_qp.use_schur_updates,
        r is Some ==> r->0.qp.max_schur_updates_before_refactor
            == b.sqp_qp.max_schur_updates_before_refactor,
        r is Some ==> r->0.qp.use_homotopy == b.sqp_qp.use_homotopy,
        r is Some ==> r->0.qp.certify_second_order == b.sqp_qp.certify_second_order,
{
}

/// An installed partition is what the builder holds from then on.
pub proof fn law_installed_partition(b: &mut AlgorithmBuilder, indices: Vec<usize>, cfg: FeralConfig)
    requires
        call_ensures(AlgorithmBuilder::set_kkt_schur, (b, indices, cfg), ()),
    ensures
        final(b).kkt_schur == Some((indices, cfg)),
        *final(b) == (AlgorithmBuilder { kkt_schur: Some((indices, cfg)), ..*old(b) }),
{
}

/// From the option to the stop: a run that is assembled from the options and
/// declared converged has each residual within the number that the caller set for
/// it, or within the default where the caller set none.
pub proof fn law_converged_by_the_callers_tolerances(
    a: IpoptApplication,
    b: AlgorithmBuilder,
    r: AlgorithmBundle,
    p: &mut OptErrorConvCheck,
    nlp_err: Number,
    iter_count: i32,
    state: IterateState,
)
    requires
        call_ensures(IpoptApplication::algorithm_builder_from_options, (&a,), b),
        call_ensures(AlgorithmBuilder::build_with_backend, (&b,), r),
        *old(p) == r.conv_check,
        call_ensures(
            <OptErrorConvCheck as ConvCheck>::check_convergence_with_state,
            (p, nlp_err, iter_count, &state),
            ConvergenceStatus::Converged,
        ),
    ensures
        nlp_err.le_spec(number_or(number_given(a.options@, "tol"@), Number { bits: D1EM8 })),
        state.dual_inf.le_spec(
            number_or(number_given(a.options@, "dual_inf_tol"@), Number { bits: D1 }),
        ),
        state.constr_viol.le_spec(
            number_or(number_given(a.options@, "constr_viol_tol"@), Number { bits: D1EM4 }),
        ),
        state.compl_inf.le_spec(
            number_or(number_given(a.options@, "compl_inf_tol"@), Number { bits: D1EM4 }),
        ),
{
    law_conv_check_follow_the_options(a, b);
    law_check_has_the_builders_tolerances(b, r);
    law_converged_meets_every_tolerance(p, nlp_err, iter_count, state);
}

/// So for a run that is ended at the acceptable level, or by its iteration limit.
pub proof fn law_stopped_by_the_callers_limits(
    a: IpoptApplication,
    b: AlgorithmBuilder,
    r: AlgorithmBundle,
    p: &mut OptErrorConvCheck,
    nlp_err: Number,
    iter_count: i32,
    state: IterateState,
    status: ConvergenceStatus,
)
    requires
        call_ensures(IpoptApplication::algorithm_builder_from_options, (&a,), b),
        call_ensures(AlgorithmBuilder::build_with_backend, (&b,), r),
        *old(p) == (OptErrorConvCheck {
            acceptable_count: old(p).acceptable_count,
            infeas_streak: old(p).infeas_streak,
            last_acceptable_obj: old(p).last_acceptable_obj,
            veto_fired: old(p).veto_fired,
            acceptable_veto_fired: old(p).acceptable_veto_fired,
            veto_extra_iters: old(p).veto_extra_iters,
            ..r.conv_check
        }),
        old(p).acceptable_count < i32::MAX,
        call_ensures(
            <OptErrorConvCheck as ConvCheck>::check_convergence_with_state,
            (p, nlp_err, iter_count, &state),
            status,
        ),
    ensures
        status == ConvergenceStatus::ConvergedToAcceptable ==> {
            &&& nlp_err.le_spec(
                number_or(number_given(a.options@, "acceptable_tol"@), Number { bits: D1EM6 }),
            )
            &&& state.dual_inf.le_spec(
                number_or(
                    number_given(a.options@, "acceptable_dual_inf_tol"@),
                    Number { bits: D1E10 },
                ),
            )
            &&& state.constr_viol.le_spec(
                number_or(
                    number_given(a.options@, "acceptable_constr_viol_tol"@),
                    Number { bits: D1EM2 },
                ),
            )
            &&& state.compl_inf.le_spec(
                number_or(
                    number_given(a.options@, "acceptable_compl_inf_tol"@),
                    Number { bits: D1EM2 },
                ),
            )
        },
        status == ConvergenceStatus::Continue ==> iter_count < integer_or_else(
            integer_given(a.options@, "max_iter"@),
            3000,
        ),
{
    law_conv_check_follow_the_options(a, b);
    law_check_has_the_builders_tolerances(b, r);
    law_budgets_end_the_run(p, nlp_err, iter_count, state, status);
    if status == ConvergenceStatus::ConvergedToAcceptable {
        law_acceptable_stop_meets_every_tolerance(p, nlp_err, iter_count, state);
    }
}

} // verus!
