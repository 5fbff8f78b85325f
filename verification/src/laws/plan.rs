//! What a solve is planned with, option by option.
use crate::alg_builder::AlgorithmBuilder;
use crate::alg_builder::HessianApproxChoice;
use crate::alg_builder::LinearSolverChoice;
use crate::alg_builder::LinearSystemScalingChoice;
use crate::application::IpoptApplication;
use crate::assembly::SqpAlgorithm;
use crate::decimal::D0;
use crate::decimal::D1;
use crate::decimal::D1E1;
use crate::decimal::D1E19;
use crate::decimal::D1E2;
use crate::decimal::D1E6;
use crate::decimal::D1EM2;
use crate::decimal::D1EM4;
use crate::decimal::D1EM6;
use crate::decimal::D1EM8;
use crate::decimal::D64;
use crate::decimal::D8;
use crate::decimal::DM1E19;
use crate::feasibility::FeasibilityStandards;
use crate::feral::FeralConfig;
use crate::feral::FeralSurroundings;
use crate::feral::feral_config_from_options;
use crate::laws::given::answer_given;
use crate::laws::given::answer_or;
use crate::laws::given::anything_given;
use crate::laws::given::integer_given;
use crate::laws::given::integer_or_else;
use crate::laws::given::lemma_yes_is_not_no;
use crate::laws::given::number_given;
use crate::laws::given::number_or;
use crate::laws::given::stands_at;
use crate::laws::given::text_given;
use crate::number::Number;
use crate::options::Held;
use crate::options::OptionsList;
use crate::penalty::L1Settings;
use crate::penalty::l1_settings;
use crate::requests::DerivativeTestOptions;
use crate::requests::StartConditioner;
use crate::solve::AlgorithmKnobs;
use crate::solve::ConstrainedSetup;
use crate::solve::CrossoverOptions;
use crate::solve::FixedVarTreatment;
use crate::solve::NlpScaling;
use crate::solve::NonlinearQueries;
use crate::solve::SetupFailure;
use crate::solve::SolvePlan;
use crate::solve::algorithm_knobs;
use crate::solve::lacks_degrees_of_freedom;
use crate::solve::nonlinear_queries;
use crate::solve::plan_of;
use crate::sqp_options::QpOptions;
use crate::sqp_options::SqpGlobalization;
use crate::sqp_options::SqpHessianSource;
use crate::sqp_options::SqpOptions;
use crate::sqp_options::apply_qp_subproblem_options;
use crate::sqp_options::apply_sqp_options;
use crate::status::ApplicationReturnStatus;
use vstd::prelude::*;

verus! {

proof fn lemma_plan(a: IpoptApplication, r: SolvePlan)
    requires
        r == plan_of(a.options@),
    ensures
        r.print_user_options == answer_or(answer_given(a.options@, "print_user_options"@), false),
        r.print_timing == answer_or(answer_given(a.options@, "print_timing_statistics"@), false),
        r.lower_bound_inf == number_or(number_given(a.options@, "nlp_lower_bound_inf"@), Number { bits: DM1E19 }),
        r.upper_bound_inf == number_or(number_given(a.options@, "nlp_upper_bound_inf"@), Number { bits: D1E19 }),
        r.obj_scaling_factor == number_or(number_given(a.options@, "obj_scaling_factor"@), Number { bits: D1 }),
        r.bound_relax_factor == number_or(number_given(a.options@, "bound_relax_factor"@), Number { bits: D1EM8 }),
        r.constr_viol_tol == number_or(number_given(a.options@, "constr_viol_tol"@), Number { bits: D1EM4 }),
        r.honor_original_bounds == answer_or(answer_given(a.options@, "honor_original_bounds"@), false),
        r.max_gradient == number_or(number_given(a.options@, "nlp_scaling_max_gradient"@), Number { bits: D1E2 }),
        r.min_value == number_or(number_given(a.options@, "nlp_scaling_min_value"@), Number { bits: D1EM8 }),
        r.obj_target_gradient == number_or(number_given(a.options@, "nlp_scaling_obj_target_gradient"@), Number { bits: D0 }),
        r.constr_target_gradient == number_or(number_given(a.options@, "nlp_scaling_constr_target_gradient"@), Number { bits: D0 }),
        r.num_linear_variables == integer_or_else(integer_given(a.options@, "num_linear_variables"@), 0),
        r.max_iter == integer_or_else(integer_given(a.options@, "max_iter"@), 3000),
        r.tol == number_or(number_given(a.options@, "tol"@), Number { bits: D1EM8 }),
        r.slack_move == number_given(a.options@, "slack_move"@),
        r.detailed_timing <==> answer_given(a.options@, "timing_statistics"@) == Some(true)
            || answer_given(a.options@, "print_timing_statistics"@) == Some(true),
{
    lemma_yes_is_not_no();
}

/// The plan of a solve: each number and switch is what the caller set under its
/// option, and the default where the caller set none. A negative objective factor
/// reaches the model as it is.
pub proof fn law_plan_follows_the_options(a: IpoptApplication, r: SolvePlan)
    requires
        call_ensures(IpoptApplication::solve_plan, (&a,), r),
    ensures
        r.print_user_options == answer_or(answer_given(a.options@, "print_user_options"@), false),
        r.print_timing == answer_or(answer_given(a.options@, "print_timing_statistics"@), false),
        r.lower_bound_inf == number_or(number_given(a.options@, "nlp_lower_bound_inf"@), Number { bits: DM1E19 }),
        r.upper_bound_inf == number_or(number_given(a.options@, "nlp_upper_bound_inf"@), Number { bits: D1E19 }),
        r.obj_scaling_factor == number_or(number_given(a.options@, "obj_scaling_factor"@), Number { bits: D1 }),
        r.bound_relax_factor == number_or(number_given(a.options@, "bound_relax_factor"@), Number { bits: D1EM8 }),
        r.constr_viol_tol == number_or(number_given(a.options@, "constr_viol_tol"@), Number { bits: D1EM4 }),
        r.honor_original_bounds == answer_or(answer_given(a.options@, "honor_original_bounds"@), false),
        r.max_gradient == number_or(number_given(a.options@, "nlp_scaling_max_gradient"@), Number { bits: D1E2 }),
        r.min_value == number_or(number_given(a.options@, "nlp_scaling_min_value"@), Number { bits: D1EM8 }),
        r.obj_target_gradient == number_or(number_given(a.options@, "nlp_scaling_obj_target_gradient"@), Number { bits: D0 }),
        r.constr_target_gradient == number_or(number_given(a.options@, "nlp_scaling_constr_target_gradient"@), Number { bits: D0 }),
        r.num_linear_variables == integer_or_else(integer_given(a.options@, "num_linear_variables"@), 0),
        r.max_iter == integer_or_else(integer_given(a.options@, "max_iter"@), 3000),
        r.tol == number_or(number_given(a.options@, "tol"@), Number { bits: D1EM8 }),
        r.slack_move == number_given(a.options@, "slack_move"@),
        r.detailed_timing <==> answer_given(a.options@, "timing_statistics"@) == Some(true)
            || answer_given(a.options@, "print_timing_statistics"@) == Some(true),
{
    lemma_plan(a, r);
}

/// A model that the caller poses as a maximization is planned as one, and no other
/// is.
pub proof fn law_maximization_is_planned(a: IpoptApplication, r: SolvePlan)
    requires
        call_ensures(IpoptApplication::solve_plan, (&a,), r),
    ensures
        r.obj_scaling_factor.lt_spec(Number { bits: D0 }) <==> (number_given(
            a.options@,
            "obj_scaling_factor"@,
        ) matches Some(v) && v.lt_spec(Number { bits: D0 })),
{
    lemma_plan(a, r);
}

/// Names in the plan: how fixed variables are treated and how the model is
/// scaled; and what is printed.
pub proof fn law_plan_by_name(a: IpoptApplication, r: SolvePlan, console: bool, factors: bool)
    requires
        call_ensures(IpoptApplication::solve_plan, (&a,), r),
        call_ensures(IpoptApplication::console_output, (&a,), console),
        call_ensures(IpoptApplication::wants_model_factors, (&a,), factors),
    ensures
        r.fixed_treatment == FixedVarTreatment::RelaxBounds <==> text_given(
            a.options@,
            "fixed_variable_treatment"@,
        ) == Some("relax_bounds"@),
        factors <==> text_given(a.options@, "nlp_scaling_method"@) == Some("user-scaling"@)
            || text_given(a.options@, "nlp_scaling_method"@) == Some("curvature-based"@),
        r.scaling_method == NlpScaling::UserScaling <==> factors,
        r.scaling_method == NlpScaling::Off <==> text_given(a.options@, "nlp_scaling_method"@)
            == Some("none"@),
        r.scaling_method == NlpScaling::GradientBased || factors || r.scaling_method
            == NlpScaling::Off,
        r.console_output == console,
        console <==> !(integer_given(a.options@, "print_level"@) matches Some(v) && v < 1),
{
    reveal_strlit("user-scaling");
    reveal_strlit("curvature-based");
    reveal_strlit("none");
    assert("user-scaling"@.len() == 12);
    assert("curvature-based"@.len() == 15);
    assert("none"@.len() == 4);
}

/// What the main loop is given: each knob is the builder's of the same name, the
/// limit and the printing are the plan's, and a count is never negative.
pub proof fn law_main_loop_has_the_builders_knobs(
    b: AlgorithmBuilder,
    plan: SolvePlan,
    r: AlgorithmKnobs,
)
    requires
        call_ensures(algorithm_knobs, (&b, &plan), r),
    ensures
        r.max_iter == plan.max_iter,
        r.kappa_sigma == b.kappa_sigma,
        r.kappa_d == b.kappa_d,
        r.s_max == b.s_max,
        r.recalc_y == b.recalc_y,
        r.recalc_y_feas_tol == b.recalc_y_feas_tol,
        r.start_with_resto == b.resto.start_with_resto,
        r.tiny_step_tol == b.tiny_step_tol,
        r.tiny_step_y_tol == b.tiny_step_y_tol,
        r.diverging_iterates_tol == b.diverging_iterates_tol,
        r.dual_divergence_retry_step_tol == b.dual_divergence_retry_step_tol,
        r.dual_divergence_retry_du_floor == b.dual_divergence_retry_du_floor,
        r.resto_decline_progress_ratio == b.resto_decline_progress_ratio,
        r.kkt_fidelity_tol == b.kkt_fidelity_tol,
        r.max_wall_time == b.conv_check.max_wall_time,
        r.max_cpu_time == b.conv_check.max_cpu_time,
        r.print_iter_output == plan.console_output,
        r.slack_based_scaling <==> b.linear_system_scaling
            == LinearSystemScalingChoice::SlackBased,
        b.dual_diverging_streak >= 0 ==> r.dual_diverging_streak == b.dual_diverging_streak,
        b.dual_diverging_streak < 0 ==> r.dual_diverging_streak == 0,
        r.resto_decline_deferrals is Some <==> b.resto_decline_deferrals is Some,
        b.resto_decline_deferrals matches Some(v) ==> v >= 0 ==> r.resto_decline_deferrals->0 == v,
        b.resto_decline_deferrals matches Some(v) ==> v < 0 ==> r.resto_decline_deferrals->0 == 0,
        r.neg_curv_escapes is Some <==> b.neg_curv_escapes is Some,
        b.neg_curv_escapes matches Some(v) ==> v >= 0 ==> r.neg_curv_escapes->0 == v,
        b.neg_curv_escapes matches Some(v) ==> v < 0 ==> r.neg_curv_escapes->0 == 0,
        r.lbfgs_ls_failure_restarts is Some <==> b.limited_memory_ls_failure_restarts is Some,
        b.limited_memory_ls_failure_restarts matches Some(v) ==> v >= 0
            ==> r.lbfgs_ls_failure_restarts->0 == v,
        b.limited_memory_ls_failure_restarts matches Some(v) ==> v < 0
            ==> r.lbfgs_ls_failure_restarts->0 == 0,
{
}

/// The standards by which a point is judged are the caller's tolerances, each
/// under its own name.
pub proof fn law_standards_follow_the_options(a: IpoptApplication, r: FeasibilityStandards)
    requires
        call_ensures(IpoptApplication::feasibility_standards, (&a,), r),
    ensures
        r.lower_bound_inf == number_or(number_given(a.options@, "nlp_lower_bound_inf"@), Number { bits: DM1E19 }),
        r.upper_bound_inf == number_or(number_given(a.options@, "nlp_upper_bound_inf"@), Number { bits: D1E19 }),
        r.tol == number_or(number_given(a.options@, "tol"@), Number { bits: D1EM8 }),
        r.acceptable_tol == number_or(number_given(a.options@, "acceptable_tol"@), Number { bits: D1EM6 }),
        r.constr_viol_tol == number_or(number_given(a.options@, "constr_viol_tol"@), Number { bits: D1EM4 }),
        r.acceptable_constr_viol_tol == number_or(number_given(a.options@, "acceptable_constr_viol_tol"@), Number { bits: D1EM2 }),
        r.noise_floor_kappa == number_or(number_given(a.options@, "primal_noise_floor_kappa"@), Number { bits: D64 }),
{
}

/// The settings of the l1 penalty follow the options: the largest penalty is at
/// least the first, the factor at least 1, and there is at least one solve.
pub proof fn law_penalty_settings_follow_the_options(o: OptionsList, r: L1Settings)
    requires
        call_ensures(l1_settings, (&o,), r),
    ensures
        r.rho_init == number_or(number_given(o@, "l1_penalty_init"@), Number { bits: D1 }),
        r.tau == number_or(number_given(o@, "l1_steering_factor"@), Number { bits: D1E1 }),
        r.slack_tol == number_or(number_given(o@, "l1_slack_tol"@), Number { bits: D1EM6 }),
        r.rho_init.le_spec(
            number_or(number_given(o@, "l1_penalty_max"@), Number { bits: D1E6 }),
        ) ==> r.rho_max == number_or(number_given(o@, "l1_penalty_max"@), Number { bits: D1E6 }),
        number_or(number_given(o@, "l1_penalty_max"@), Number { bits: D1E6 }).lt_spec(r.rho_init)
            ==> r.rho_max == r.rho_init,
        (Number { bits: D1 }).le_spec(
            number_or(number_given(o@, "l1_penalty_increase_factor"@), Number { bits: D8 }),
        ) ==> r.factor == number_or(
            number_given(o@, "l1_penalty_increase_factor"@),
            Number { bits: D8 },
        ),
        number_or(number_given(o@, "l1_penalty_increase_factor"@), Number { bits: D8 }).lt_spec(
            Number { bits: D1 },
        ) ==> r.factor == (Number { bits: D1 }),
        integer_given(o@, "l1_penalty_max_outer_iter"@) matches Some(v) ==> v >= 1 ==> r.max_outer
            == v,
        integer_given(o@, "l1_penalty_max_outer_iter"@) matches Some(v) ==> v == 0 ==> r.max_outer
            == 1,
        integer_given(o@, "l1_penalty_max_outer_iter"@) is None ==> r.max_outer == 8,
        r.max_outer >= 1,
{
}

/// The knobs of the crossover follow the options; it is off unless asked for.
pub proof fn law_crossover_follows_the_options(a: IpoptApplication, r: CrossoverOptions)
    requires
        call_ensures(IpoptApplication::crossover_options, (&a,), r),
    ensures
        r.enabled <==> answer_given(a.options@, "crossover"@) == Some(true),
        r.mult_tol == number_given(a.options@, "crossover_mult_tol"@),
        r.primal_tol == number_given(a.options@, "crossover_primal_tol"@),
        r.max_iter is Some <==> integer_given(a.options@, "crossover_max_iter"@) is Some,
        integer_given(a.options@, "crossover_max_iter"@) matches Some(v) ==> v >= 0
            ==> r.max_iter->0 == v,
        integer_given(a.options@, "crossover_max_iter"@) matches Some(v) ==> v < 0 ==> r.max_iter->0
            == 0,
{
    lemma_yes_is_not_no();
}

/// The four constant-derivative hints are those that the caller said yes to, in
/// the order of the objective gradient, the Hessian and the two Jacobians.
pub proof fn law_hints_follow_the_options(a: IpoptApplication, r: [bool; 4])
    requires
        call_ensures(IpoptApplication::asserted_constant_derivative_hints, (&a,), r),
    ensures
        r@[0] <==> answer_given(a.options@, "grad_f_constant"@) == Some(true),
        r@[1] <==> answer_given(a.options@, "hessian_constant"@) == Some(true),
        r@[2] <==> answer_given(a.options@, "jac_c_constant"@) == Some(true),
        r@[3] <==> answer_given(a.options@, "jac_d_constant"@) == Some(true),
{
    lemma_yes_is_not_no();
}

/// The derivative test follows the options.
pub proof fn law_derivative_test_follows_the_options(
    a: IpoptApplication,
    r: DerivativeTestOptions,
)
    requires
        call_ensures(IpoptApplication::derivative_test_options, (&a,), r),
    ensures
        r.mode is Some <==> text_given(a.options@, "derivative_test"@) is Some,
        r.mode matches Some(m) ==> text_given(a.options@, "derivative_test"@) == Some(m@),
        r.perturbation == number_or(
            number_given(a.options@, "derivative_test_perturbation"@),
            Number { bits: D1EM8 },
        ),
        r.tol == number_or(number_given(a.options@, "derivative_test_tol"@), Number { bits: D1EM4 }),
        r.first_index == integer_or_else(
            integer_given(a.options@, "derivative_test_first_index"@),
            -2i32,
        ),
        r.print_all == answer_or(answer_given(a.options@, "derivative_test_print_all"@), false),
{
    lemma_yes_is_not_no();
}

/// What is done to the starting point: a displacement by the positive scale that
/// the option stands at, with its seed; else the warm-up where it is named; else
/// nothing.
pub proof fn law_start_conditioner_follows_the_options(
    a: IpoptApplication,
    r: Option<StartConditioner>,
)
    requires
        call_ensures(IpoptApplication::start_conditioner, (&a,), r),
    ensures
        stands_at(a.options@, "start_point_perturbation"@) matches Some(Held::Numeric(v)) ==> (
        Number { bits: D0 }).lt_spec(v) ==> (r matches Some(
            StartConditioner::Jitter { seed, scale },
        ) && scale == v && (stands_at(a.options@, "start_point_perturbation_seed"@) matches Some(
            Held::Integer(k),
        ) ==> k >= 0 ==> seed == k)),
        r matches Some(StartConditioner::Jitter { seed, scale }) ==> (Number { bits: D0 }).lt_spec(
            scale,
        ) && stands_at(a.options@, "start_point_perturbation"@) == Some(Held::Numeric(scale)),
        r matches Some(StartConditioner::Adam { iters, lr, rho }) ==> {
            &&& stands_at(a.options@, "start_point_conditioner"@) == Some(Held::Text("adam"@))
            &&& (stands_at(a.options@, "adam_warmup_iters"@) matches Some(Held::Integer(k)) ==> k
                >= 0 ==> (iters matches Some(n) && n == k))
            &&& (stands_at(a.options@, "adam_warmup_iters"@) is None ==> iters is None)
            &&& lr == (match stands_at(a.options@, "adam_warmup_learning_rate"@) {
                Some(Held::Numeric(v)) => Some(v),
                _ => None,
            })
            &&& rho == (match stands_at(a.options@, "adam_warmup_penalty"@) {
                Some(Held::Numeric(v)) => Some(v),
                _ => None,
            })
        },
        r is None ==> stands_at(a.options@, "start_point_conditioner"@) != Some(
            Held::Text("adam"@),
        ),
{
}

/// The configuration of FERAL: what the caller set under an option wins; what the
/// caller did not set stays as the surroundings have it.
pub proof fn law_feral_follows_the_options(
    o: OptionsList,
    s: FeralSurroundings,
    r: FeralConfig,
)
    requires
        call_ensures(feral_config_from_options, (&o, &s), r),
    ensures
        r.cascade_break == (match answer_given(o@, "feral_cascade_break"@) {
            Some(v) => Some(v),
            None => s.from_env.cascade_break,
        }),
        r.fma == answer_or(answer_given(o@, "feral_fma"@), s.from_env.fma),
        r.parallel == s.from_env.parallel,
        r.increase_quality == answer_or(
            answer_given(o@, "feral_increase_quality"@),
            s.from_env.increase_quality,
        ),
        integer_given(o@, "feral_refine_steps"@) matches Some(v) ==> r.refine_max_steps == (if v
            > 0 {
            v
        } else {
            0
        }),
        integer_given(o@, "feral_refine_steps"@) is None ==> r.refine_max_steps
            == s.from_env.refine_max_steps,
        number_given(o@, "feral_refine_target"@) matches Some(v) ==> (Number { bits: D0 }).le_spec(v)
            ==> r.refine_target.key() == v.key() && !r.refine_target.nan(),
        number_given(o@, "feral_refine_target"@) matches Some(v) ==> v.lt_spec(Number { bits: D0 })
            ==> r.refine_target == (Number { bits: D0 }),
        number_given(o@, "feral_refine_target"@) is None ==> r.refine_target
            == s.from_env.refine_target,
        r.static_pivoting == (match answer_given(o@, "feral_static_pivoting"@) {
            Some(v) => Some(v),
            None => s.from_env.static_pivoting,
        }),
        r.singular_pivot_floor == number_or(
            number_given(o@, "feral_singular_pivot_floor"@),
            s.from_env.singular_pivot_floor,
        ),
        r.inertia_pivot_floor == (match number_given(o@, "feral_inertia_pivot_floor"@) {
            Some(v) => Some(v),
            None => s.from_env.inertia_pivot_floor,
        }),
        number_given(o@, "feral_min_par_flops"@) is Some ==> r.min_par_flops is Some,
        number_given(o@, "feral_min_par_flops"@) is None ==> r.min_par_flops
            == s.from_env.min_par_flops,
        r.pivtol == number_or(number_given(o@, "feral_pivtol"@), s.from_env.pivtol),
        r.ordering == (if text_given(o@, "feral_ordering"@) is Some && s.ordering_code is Some {
            s.ordering_code->0
        } else {
            s.from_env.ordering
        }),
        r.scaling == (if text_given(o@, "feral_scaling"@) is Some && s.scaling_code is Some {
            s.scaling_code->0
        } else {
            s.from_env.scaling
        }),
{
    lemma_yes_is_not_no();
}

/// Whether FERAL refines: the caller's answer; else the environment's; else no
/// with a limited-memory Hessian; else the registered answer.
pub proof fn law_feral_refines(o: OptionsList, s: FeralSurroundings, r: FeralConfig)
    requires
        call_ensures(feral_config_from_options, (&o, &s), r),
    ensures
        answer_given(o@, "feral_refine"@) matches Some(v) ==> r.refine == v,
        answer_given(o@, "feral_refine"@) is None && s.refine_in_env ==> r.refine
            == s.from_env.refine,
        answer_given(o@, "feral_refine"@) is None && !s.refine_in_env && text_given(
            o@,
            "hessian_approximation"@,
        ) == Some("limited-memory"@) ==> !r.refine,
        !anything_given(o@, "feral_refine"@) && !s.refine_in_env && text_given(
            o@,
            "hessian_approximation"@,
        ) != Some("limited-memory"@) ==> {
            &&& stands_at(o@, "feral_refine"@) == Some(Held::Text("yes"@)) ==> r.refine
            &&& stands_at(o@, "feral_refine"@) == Some(Held::Text("no"@)) ==> !r.refine
            &&& stands_at(o@, "feral_refine"@) is None ==> r.refine == s.from_env.refine
        },
{
    lemma_yes_is_not_no();
}

/// A serial configuration is the same one in a single thread.
pub proof fn law_serial(c: FeralConfig, r: FeralConfig)
    requires
        call_ensures(FeralConfig::serial, (c,), r),
    ensures
        r.parallel == Some(false),
        r == (FeralConfig { parallel: Some(false), ..c }),
{
}

/// The knobs of the SQP driver: what the caller set under an option of the driver
/// replaces what was there, and nothing else changes.
pub proof fn law_sqp_knobs_follow_the_options(o: OptionsList, k: &mut SqpOptions)
    requires
        call_ensures(apply_sqp_options, (&o, k), ()),
    ensures
        final(k).tol == (match number_given(o@, "sqp_tol"@) {
            Some(v) => Some(v),
            None => old(k).tol,
        }),
        final(k).constr_viol_tol == (match number_given(o@, "sqp_constr_viol_tol"@) {
            Some(v) => Some(v),
            None => old(k).constr_viol_tol,
        }),
        final(k).dual_inf_tol == (match number_given(o@, "sqp_dual_inf_tol"@) {
            Some(v) => Some(v),
            None => old(k).dual_inf_tol,
        }),
        final(k).l1_penalty == (match number_given(o@, "sqp_l1_penalty"@) {
            Some(v) => Some(v),
            None => old(k).l1_penalty,
        }),
        final(k).l1_penalty_safety == (match number_given(o@, "sqp_l1_penalty_safety"@) {
            Some(v) => Some(v),
            None => old(k).l1_penalty_safety,
        }),
        final(k).l1_penalty_max == (match number_given(o@, "sqp_l1_penalty_max"@) {
            Some(v) => Some(v),
            None => old(k).l1_penalty_max,
        }),
        final(k).bt_reduction == (match number_given(o@, "sqp_bt_reduction"@) {
            Some(v) => Some(v),
            None => old(k).bt_reduction,
        }),
        final(k).bt_min_alpha == (match number_given(o@, "sqp_bt_min_alpha"@) {
            Some(v) => Some(v),
            None => old(k).bt_min_alpha,
        }),
        integer_given(o@, "sqp_max_iter"@) matches Some(v) ==> v >= 0 ==> (final(k).max_iter matches Some(
            w,
        ) && w == v),
        integer_given(o@, "sqp_max_iter"@) matches Some(v) ==> v < 0 ==> final(k).max_iter
            == old(k).max_iter,
        integer_given(o@, "sqp_max_iter"@) is None ==> final(k).max_iter == old(k).max_iter,
        integer_given(o@, "sqp_lbfgs_max_history"@) matches Some(v) ==> v >= 1 ==> (
        final(k).lbfgs_max_history matches Some(w) && w == v),
        integer_given(o@, "sqp_lbfgs_max_history"@) matches Some(v) ==> v < 1
            ==> final(k).lbfgs_max_history == old(k).lbfgs_max_history,
        integer_given(o@, "sqp_lbfgs_max_history"@) is None ==> final(k).lbfgs_max_history
            == old(k).lbfgs_max_history,
        integer_given(o@, "sqp_print_level"@) matches Some(v) ==> 0 <= v <= 255 ==> (
        final(k).print_level matches Some(w) && w == v),
        integer_given(o@, "sqp_print_level"@) matches Some(v) ==> v < 0 ==> final(k).print_level
            == Some(0u8),
        integer_given(o@, "sqp_print_level"@) matches Some(v) ==> v > 255 ==> final(k).print_level
            == Some(255u8),
        integer_given(o@, "sqp_print_level"@) is None ==> final(k).print_level
            == old(k).print_level,
        text_given(o@, "sqp_globalization"@) == Some("filter"@) ==> final(k).globalization == Some(
            SqpGlobalization::Filter,
        ),
        text_given(o@, "sqp_globalization"@) == Some("l1-elastic"@) ==> final(k).globalization
            == Some(SqpGlobalization::L1Elastic),
        text_given(o@, "sqp_globalization"@) is None ==> final(k).globalization
            == old(k).globalization,
        text_given(o@, "sqp_hessian"@) == Some("exact"@) ==> final(k).hessian == Some(
            SqpHessianSource::Exact,
        ),
        text_given(o@, "sqp_hessian"@) == Some("damped-bfgs"@) ==> final(k).hessian == Some(
            SqpHessianSource::DampedBfgs,
        ),
        text_given(o@, "sqp_hessian"@) == Some("lbfgs"@) ==> final(k).hessian == Some(
            SqpHessianSource::Lbfgs,
        ),
        text_given(o@, "sqp_hessian"@) is None && text_given(o@, "hessian_approximation"@) == Some(
            "limited-memory"@,
        ) ==> final(k).hessian == Some(SqpHessianSource::DampedBfgs),
        text_given(o@, "sqp_hessian"@) is None && text_given(o@, "hessian_approximation"@) != Some(
            "limited-memory"@,
        ) ==> final(k).hessian == old(k).hessian,
{
    reveal_strlit("filter");
    reveal_strlit("l1-elastic");
    reveal_strlit("exact");
    reveal_strlit("damped-bfgs");
    reveal_strlit("lbfgs");
    assert("filter"@.len() == 6);
    assert("l1-elastic"@.len() == 10);
    assert("damped-bfgs"@.len() == 11);
    assert("exact"@[0] == 'e');
    assert("lbfgs"@[0] == 'l');
}

/// The knobs of the QP solver: a family that its reader refuses, or whose limit
/// is below 1, changes nothing; of any other each option replaces its own knob.
pub proof fn law_qp_knobs_follow_the_options(o: OptionsList, accepted: bool, k: &mut QpOptions)
    requires
        call_ensures(apply_qp_subproblem_options, (&o, accepted, k), ()),
    ensures
        !accepted ==> *final(k) == *old(k),
        integer_given(o@, "sqp_qp_max_iter"@) matches Some(v) ==> v < 1 ==> *final(k) == *old(k),
        accepted && !(integer_given(o@, "sqp_qp_max_iter"@) matches Some(v) && v < 1) ==> {
            &&& final(k).feas_tol == (match number_given(o@, "sqp_qp_feas_tol"@) {
                Some(v) => Some(v),
                None => old(k).feas_tol,
            })
            &&& final(k).opt_tol == (match number_given(o@, "sqp_qp_opt_tol"@) {
                Some(v) => Some(v),
                None => old(k).opt_tol,
            })
            &&& final(k).elastic_gamma == (match number_given(o@, "sqp_qp_elastic_gamma"@) {
                Some(v) => Some(v),
                None => old(k).elastic_gamma,
            })
            &&& final(k).max_iter == (match integer_given(o@, "sqp_qp_max_iter"@) {
                Some(v) => Some(v),
                None => old(k).max_iter,
            })
            &&& final(k).max_schur_updates_before_refactor == (match integer_given(o@, "sqp_qp_max_schur_updates_before_refactor"@) {
                Some(v) => Some(v),
                None => old(k).max_schur_updates_before_refactor,
            })
            &&& final(k).use_schur_updates == (match answer_given(o@, "sqp_qp_use_schur_updates"@) {
                Some(v) => Some(v),
                None => old(k).use_schur_updates,
            })
            &&& final(k).use_homotopy == (match answer_given(o@, "sqp_qp_use_homotopy"@) {
                Some(v) => Some(v),
                None => old(k).use_homotopy,
            })
            &&& final(k).certify_second_order == answer_or(
                answer_given(o@, "sqp_qp_certify_second_order"@),
                old(k).certify_second_order,
            )
            &&& text_given(o@, "sqp_qp_anti_cycling"@) matches Some(t) ==> (
            final(k).anti_cycling matches Some(s) && s@ == t)
            &&& text_given(o@, "sqp_qp_anti_cycling"@) is None ==> final(k).anti_cycling
                == old(k).anti_cycling
        },
{
    lemma_yes_is_not_no();
}

/// The SQP driver of an application has the knobs that its options set, FERAL for
/// its systems, and no second-order certificate unless asked for.
pub proof fn law_sqp_driver_of_the_options(
    a: IpoptApplication,
    accepted: bool,
    r: Option<SqpAlgorithm>,
)
    requires
        call_ensures(IpoptApplication::sqp_algorithm, (&a, accepted), r),
    ensures
        r is Some,
        r->0.backend == LinearSolverChoice::Feral,
        r->0.sqp.tol == number_given(a.options@, "sqp_tol"@),
        r->0.sqp.constr_viol_tol == number_given(a.options@, "sqp_constr_viol_tol"@),
        r->0.sqp.dual_inf_tol == number_given(a.options@, "sqp_dual_inf_tol"@),
        r->0.sqp.l1_penalty == number_given(a.options@, "sqp_l1_penalty"@),
        r->0.sqp.l1_penalty_safety == number_given(a.options@, "sqp_l1_penalty_safety"@),
        r->0.sqp.l1_penalty_max == number_given(a.options@, "sqp_l1_penalty_max"@),
        r->0.sqp.bt_reduction == number_given(a.options@, "sqp_bt_reduction"@),
        r->0.sqp.bt_min_alpha == number_given(a.options@, "sqp_bt_min_alpha"@),
        accepted && integer_given(a.options@, "sqp_qp_max_iter"@) is None ==> r->0.qp.feas_tol
            == number_given(a.options@, "sqp_qp_feas_tol"@),
        accepted && integer_given(a.options@, "sqp_qp_max_iter"@) is None ==> r->0.qp.opt_tol
            == number_given(a.options@, "sqp_qp_opt_tol"@),
        answer_given(a.options@, "sqp_qp_certify_second_order"@) != Some(true)
            ==> !r->0.qp.certify_second_order,
        !accepted ==> r->0.qp.feas_tol is None && r->0.qp.anti_cycling is None,
{
    lemma_yes_is_not_no();
}

/// Which models ask about nonlinear variables, by where the Hessian comes from.
pub proof fn law_nonlinear_queries(h: HessianApproxChoice, r: NonlinearQueries)
    requires
        call_ensures(nonlinear_queries, (h,), r),
    ensures
        r.objective <==> h == HessianApproxChoice::Partitioned || h
            == HessianApproxChoice::FiniteDifference,
        r.curvature <==> h == HessianApproxChoice::LimitedMemory || h
            == HessianApproxChoice::FiniteDifference,
{
}

/// A run is not begun with fewer free variables than equality rows, and is with
/// no free variable at all.
pub proof fn law_degrees_of_freedom(n: i32, m: i32, r: bool)
    requires
        call_ensures(lacks_degrees_of_freedom, (n, m), r),
    ensures
        r <==> 0 < n && n < m,
        n >= m ==> !r,
        n == 0 ==> !r,
{
}

/// The status of a run that could not begin.
pub proof fn law_setup_failures(f: SetupFailure, r: ApplicationReturnStatus)
    requires
        call_ensures(SetupFailure::status, (f,), r),
    ensures
        f == SetupFailure::Model ==> r == ApplicationReturnStatus::InvalidProblemDefinition,
        f == SetupFailure::NonlinearVariables ==> r
            == ApplicationReturnStatus::InvalidProblemDefinition,
        f == SetupFailure::Problem || f == SetupFailure::Driver ==> r
            == ApplicationReturnStatus::InternalError,
        r == ApplicationReturnStatus::InfeasibleProblemDetected <==> f
            == (SetupFailure::Overdetermined { certified_infeasible: true }),
        r == ApplicationReturnStatus::NotEnoughDegreesOfFreedom <==> f
            == (SetupFailure::Overdetermined { certified_infeasible: false }),
{
}

/// What a run is built from: the options' builder, with the installed partition
/// in its blocks and the installed ordering beside it.
pub proof fn law_installed_structures_reach_the_run(
    a: IpoptApplication,
    s: FeralSurroundings,
    r: ConstrainedSetup,
    cfg: FeralConfig,
)
    requires
        call_ensures(IpoptApplication::constrained_builder, (&a, &s), r),
        call_ensures(feral_config_from_options, (&a.options, &s), cfg),
    ensures
        r.feral == cfg,
        r.builder.kkt_schur is Some <==> a.kkt_schur_block is Some,
        r.builder.kkt_schur matches Some((i, c)) ==> i@ == a.kkt_schur_block->0@ && c == cfg,
        r.ordering is Some <==> a.external_ordering is Some,
        r.ordering matches Some(p) ==> p@ == a.external_ordering->0@,
{
}

} // verus!
