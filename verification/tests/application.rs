use pounce_algorithm::alg_builder::AlgorithmBuilder;
use pounce_algorithm::alg_builder::HessianApproxChoice;
use pounce_algorithm::alg_builder::InitialApprox;
use pounce_algorithm::alg_builder::LineSearchChoice;
use pounce_algorithm::alg_builder::LinearSolverChoice;
use pounce_algorithm::alg_builder::LinearSystemScalingChoice;
use pounce_algorithm::alg_builder::MuOracleKind;
use pounce_algorithm::alg_builder::MuStrategyChoice;
use pounce_algorithm::alg_builder::UpdateType;
use pounce_algorithm::application::IpoptApplication;
use pounce_algorithm::decimal::D0;
use pounce_algorithm::feral::feral_config_from_options;
use pounce_algorithm::feral::FeralConfig;
use pounce_algorithm::feral::FeralSurroundings;
use pounce_algorithm::number::Number;
use pounce_algorithm::options::OptionsList;
use pounce_algorithm::retry::retry_answer_is_admissible;
use pounce_algorithm::retry::runaway_is_the_whole_residual;
use pounce_algorithm::retry::DUAL_DIV_RETRY_DOMINANCE;
use pounce_algorithm::retry::DUAL_DIV_RETRY_DU_FLOOR;
use pounce_algorithm::sqp_options::QpOptions;
use pounce_algorithm::sqp_options::SqpGlobalization;
use pounce_algorithm::sqp_options::SqpHessianSource;
use pounce_algorithm::sqp_options::SqpOptions;

fn n(x: f64) -> Number {
    Number::from_bits(x.to_bits())
}

fn f(x: Number) -> f64 {
    f64::from_bits(x.to_bits())
}

const NUMBERS: [&str; 12] = [
    "sqp_tol",
    "sqp_constr_viol_tol",
    "sqp_dual_inf_tol",
    "sqp_l1_penalty",
    "sqp_bt_reduction",
    "sqp_bt_min_alpha",
    "sqp_qp_feas_tol",
    "sqp_qp_opt_tol",
    "sqp_qp_elastic_gamma",
    "limited_memory_init_val",
    "recalc_y_feas_tol",
    "feral_min_par_flops",
];

fn load(app: &mut IpoptApplication, text: &str) {
    for line in text.lines() {
        let (name, value) = line.trim().split_once(' ').unwrap();
        let options = app.options_mut();
        if NUMBERS.contains(&name) {
            options.set_numeric_value(name, n(value.parse::<f64>().unwrap()));
        } else if let Ok(i) = value.parse::<i32>() {
            options.set_integer_value(name, i);
        } else {
            options.set_string_value(name, value);
        }
    }
}

fn loaded(text: &str) -> IpoptApplication {
    let mut app = IpoptApplication::new();
    app.initialize().unwrap();
    load(&mut app, text);
    app
}

fn backend_default() -> FeralConfig {
    FeralConfig {
        cascade_break: None,
        fma: true,
        parallel: None,
        refine: true,
        increase_quality: true,
        refine_max_steps: 10,
        refine_target: n(1e-10),
        static_pivoting: None,
        singular_pivot_floor: n(1e-20),
        inertia_pivot_floor: None,
        min_par_flops: None,
        pivtol: n(1e-8),
        ordering: 0,
        scaling: 0,
    }
}

fn feral(options: &OptionsList) -> FeralConfig {
    feral_config_from_options(
        options,
        &FeralSurroundings {
            from_env: backend_default(),
            refine_in_env: false,
            ordering_code: None,
            scaling_code: None,
        },
    )
}

#[test]
fn default_builder_assembles() {
    let bundle = AlgorithmBuilder::new().build();
    assert!(bundle.search_dir.is_none());
}

#[test]
fn build_with_backend_assembles_search_dir_chain() {
    let bundle = AlgorithmBuilder::new().build_with_backend();
    assert!(bundle.search_dir.is_some());
}

#[test]
fn limited_memory_sr1_propagates() {
    let b = AlgorithmBuilder {
        hessian_approximation: HessianApproxChoice::LimitedMemory,
        limited_memory_update_type: UpdateType::Sr1,
        ..AlgorithmBuilder::default()
    };
    let _bundle = b.build();
}

#[test]
fn every_strategy_combination_assembles_without_panic() {
    let solvers = [LinearSolverChoice::Ma57, LinearSolverChoice::Feral];
    let mu = [MuStrategyChoice::Monotone, MuStrategyChoice::Adaptive];
    let hess = [
        HessianApproxChoice::Exact,
        HessianApproxChoice::LimitedMemory,
    ];
    let ls = [
        LineSearchChoice::Filter,
        LineSearchChoice::CgPenalty,
        LineSearchChoice::Penalty,
    ];
    for &linear_solver in &solvers {
        for &mu_strategy in &mu {
            for &hessian_approximation in &hess {
                for &line_search_method in &ls {
                    let _ = AlgorithmBuilder {
                        linear_solver,
                        linear_system_scaling: LinearSystemScalingChoice::Unscaled,
                        linear_scaling_on_demand: true,
                        mu_strategy,
                        mu_oracle: MuOracleKind::QualityFunction,
                        hessian_approximation,
                        limited_memory_update_type: UpdateType::Bfgs,
                        limited_memory_max_history: 6,
                        line_search_method,
                        warm_start_init_point: false,
                        mehrotra_algorithm: false,
                        kappa_sigma: n(1e10),
                        kappa_d: n(1e-5),
                        tiny_step_tol: n(10.0 * f64::EPSILON),
                        tiny_step_y_tol: n(1e-2),
                        diverging_iterates_tol: n(1e20),
                        dual_diverging_streak: 0,
                        kkt_fidelity_tol: n(0.0),
                        kkt_schur: None,
                        ..AlgorithmBuilder::default()
                    }
                    .build();
                }
            }
        }
    }
}

#[test]
fn mu_strategy_fallback_default_defers_to_an_explicit_strategy() {
    let app = IpoptApplication::new();
    assert!(app.is_mu_strategy_fallback_enabled());

    let mut app = IpoptApplication::new();
    app.options_mut().set_string_value("mu_strategy", "monotone");
    assert!(!app.is_mu_strategy_fallback_enabled());

    app.options_mut().set_string_value("mu_strategy_fallback", "yes");
    assert!(app.is_mu_strategy_fallback_enabled());

    let mut app = IpoptApplication::new();
    app.options_mut().set_string_value("mu_strategy_fallback", "no");
    assert!(!app.is_mu_strategy_fallback_enabled());
}

#[test]
fn application_default_does_not_select_sqp() {
    let mut app = IpoptApplication::new();
    app.initialize().unwrap();
    assert!(!app.is_sqp_algorithm_selected());
}

#[test]
fn application_routes_to_sqp_when_algorithm_option_set() {
    let app = loaded("algorithm active-set-sqp\n");
    assert!(app.is_sqp_algorithm_selected());
}

#[test]
fn application_routes_to_sqp_case_insensitively() {
    let app = loaded("algorithm Active-Set-SQP\n");
    assert!(app.is_sqp_algorithm_selected());
}

#[test]
fn feral_min_par_flops_option_reaches_config() {
    let mut app = IpoptApplication::new();
    app.initialize().unwrap();
    assert_eq!(
        feral(app.options()).min_par_flops,
        None,
        "unset feral_min_par_flops should not force an override"
    );
    load(&mut app, "feral_min_par_flops 0\n");
    assert_eq!(feral(app.options()).min_par_flops, Some(0));
    load(&mut app, "feral_min_par_flops 5e8\n");
    assert_eq!(feral(app.options()).min_par_flops, Some(500_000_000));
}

#[test]
fn feral_refine_steps_option_reaches_config() {
    let mut app = IpoptApplication::new();
    app.initialize().unwrap();
    assert_eq!(
        feral(app.options()).refine_max_steps,
        backend_default().refine_max_steps,
        "unset feral_refine_steps must keep feral's own default"
    );
    load(&mut app, "feral_refine_steps 1\n");
    assert_eq!(feral(app.options()).refine_max_steps, 1);
    load(&mut app, "feral_refine_steps 0\n");
    assert_eq!(feral(app.options()).refine_max_steps, 0);
}

#[test]
fn feral_static_pivoting_option_reaches_config() {
    let mut app = IpoptApplication::new();
    app.initialize().unwrap();
    assert_eq!(
        feral(app.options()).static_pivoting,
        None,
        "unset feral_static_pivoting must not force a numeric override"
    );
    load(&mut app, "feral_static_pivoting yes\n");
    assert_eq!(feral(app.options()).static_pivoting, Some(true));
    load(&mut app, "feral_static_pivoting no\n");
    assert_eq!(feral(app.options()).static_pivoting, Some(false));
}

#[test]
fn application_constructs_and_loads_options() {
    let app = loaded("print_level 5\nfile_print_level 7\n");
    let (level, found) = app.options().get_integer_value("print_level").unwrap();
    assert!(found);
    assert_eq!(level, 5);
}

#[test]
fn application_sqp_suboptions_propagate_to_builder() {
    let app = loaded(
        "algorithm active-set-sqp\n\
         sqp_globalization l1-elastic\n\
         sqp_hessian lbfgs\n\
         sqp_max_iter 17\n\
         sqp_tol 1e-7\n\
         sqp_constr_viol_tol 1e-5\n\
         sqp_dual_inf_tol 1e-3\n\
         sqp_l1_penalty 2.5\n\
         sqp_bt_reduction 0.25\n\
         sqp_bt_min_alpha 1e-10\n\
         sqp_print_level 2\n\
         sqp_lbfgs_max_history 12\n",
    );
    let snap = app.algorithm_builder_snapshot(true);
    assert_eq!(snap.sqp.globalization, Some(SqpGlobalization::L1Elastic));
    assert_eq!(snap.sqp.hessian, Some(SqpHessianSource::Lbfgs));
    assert_eq!(snap.sqp.max_iter, Some(17));
    assert!((f(snap.sqp.tol.unwrap()) - 1e-7).abs() < 1e-18);
    assert!((f(snap.sqp.constr_viol_tol.unwrap()) - 1e-5).abs() < 1e-18);
    assert!((f(snap.sqp.dual_inf_tol.unwrap()) - 1e-3).abs() < 1e-18);
    assert!((f(snap.sqp.l1_penalty.unwrap()) - 2.5).abs() < 1e-18);
    assert!((f(snap.sqp.bt_reduction.unwrap()) - 0.25).abs() < 1e-18);
    assert!((f(snap.sqp.bt_min_alpha.unwrap()) - 1e-10).abs() < 1e-18);
    assert_eq!(snap.sqp.print_level, Some(2));
    assert_eq!(snap.sqp.lbfgs_max_history, Some(12));
}

#[test]
fn application_sqp_qp_subproblem_options_are_registered_and_propagate() {
    let app = loaded(
        "algorithm active-set-sqp\n\
         sqp_qp_max_iter 37\n\
         sqp_qp_feas_tol 1e-7\n\
         sqp_qp_opt_tol 2e-7\n\
         sqp_qp_elastic_gamma 1e4\n\
         sqp_qp_anti_cycling bland\n\
         sqp_qp_use_schur_updates yes\n\
         sqp_qp_max_schur_updates_before_refactor 12\n\
         sqp_qp_use_homotopy yes\n\
         sqp_qp_certify_second_order yes\n",
    );
    let qp = &app.algorithm_builder_snapshot(true).sqp_qp;
    assert_eq!(qp.max_iter, Some(37));
    assert!((f(qp.feas_tol.unwrap()) - 1e-7).abs() < 1e-20);
    assert!((f(qp.opt_tol.unwrap()) - 2e-7).abs() < 1e-20);
    assert!((f(qp.elastic_gamma.unwrap()) - 1e4).abs() < 1e-9);
    assert_eq!(qp.anti_cycling.as_deref(), Some("bland"));
    assert_eq!(qp.use_schur_updates, Some(true));
    assert_eq!(qp.max_schur_updates_before_refactor, Some(12));
    assert_eq!(qp.use_homotopy, Some(true));
    assert!(qp.certify_second_order);

    let app = loaded("algorithm active-set-sqp\n");
    let defaults = QpOptions::default();
    let qp = &app.algorithm_builder_snapshot(true).sqp_qp;
    assert_eq!(qp.max_iter, defaults.max_iter);
    assert_eq!(qp.feas_tol, defaults.feas_tol);
    assert_eq!(qp.opt_tol, defaults.opt_tol);
    assert_eq!(qp.anti_cycling, defaults.anti_cycling);
    assert_ne!(qp.use_schur_updates, Some(true));
    assert_eq!(
        qp.max_schur_updates_before_refactor,
        defaults.max_schur_updates_before_refactor
    );
    assert!(!qp.certify_second_order);
}

#[test]
fn qp_options_that_the_reader_refuses_are_left_out_whole() {
    let app = loaded(
        "algorithm active-set-sqp\n\
         sqp_qp_max_iter 37\n\
         sqp_qp_anti_cycling no-such-rule\n",
    );
    let qp = &app.algorithm_builder_snapshot(false).sqp_qp;
    assert_eq!(*qp, QpOptions::default());
    let app = loaded("sqp_qp_max_iter 0\nsqp_qp_feas_tol 1e-7\n");
    assert_eq!(app.algorithm_builder_snapshot(true).sqp_qp, QpOptions::default());
}

#[test]
fn application_sqp_hessian_approximation_maps_to_damped_bfgs() {
    let app = loaded(
        "algorithm active-set-sqp\n\
         hessian_approximation limited-memory\n",
    );
    assert_eq!(
        app.algorithm_builder_snapshot(true).sqp.hessian,
        Some(SqpHessianSource::DampedBfgs)
    );

    let app = loaded(
        "algorithm active-set-sqp\n\
         hessian_approximation limited-memory\n\
         sqp_hessian lbfgs\n",
    );
    assert_eq!(
        app.algorithm_builder_snapshot(true).sqp.hessian,
        Some(SqpHessianSource::Lbfgs)
    );
}

#[test]
fn application_sqp_suboptions_default_when_unset() {
    let mut app = IpoptApplication::new();
    app.initialize().unwrap();
    let snap = app.algorithm_builder_snapshot(true);
    let d = SqpOptions::default();
    assert_eq!(snap.sqp.globalization, d.globalization);
    assert_eq!(snap.sqp.hessian, d.hessian);
    assert_eq!(snap.sqp.max_iter, d.max_iter);
    assert_eq!(snap.sqp.tol, d.tol);
    assert_eq!(snap.sqp.constr_viol_tol, d.constr_viol_tol);
    assert_eq!(snap.sqp.dual_inf_tol, d.dual_inf_tol);
    assert_eq!(snap.sqp.l1_penalty, d.l1_penalty);
    assert_eq!(snap.sqp.bt_reduction, d.bt_reduction);
    assert_eq!(snap.sqp.bt_min_alpha, d.bt_min_alpha);
    assert_eq!(snap.sqp.print_level, d.print_level);
    assert_eq!(snap.sqp.lbfgs_max_history, d.lbfgs_max_history);
}

#[test]
fn application_linear_solver_records_the_effective_backend() {
    let app = loaded("");
    assert_eq!(
        app.algorithm_builder_from_options().linear_solver,
        LinearSolverChoice::Feral,
        "the registered default is `feral`, in an ma57 build too"
    );

    let mut app = loaded("linear_solver ma57\n");
    assert_eq!(
        app.algorithm_builder_from_options().linear_solver,
        LinearSolverChoice::Feral
    );
    app.ma57_available = true;
    assert_eq!(
        app.algorithm_builder_from_options().linear_solver,
        LinearSolverChoice::Ma57
    );

    let app = loaded("linear_solver feral\n");
    assert_eq!(
        app.algorithm_builder_from_options().linear_solver,
        LinearSolverChoice::Feral
    );
}

#[test]
fn limited_memory_defaults_mu_strategy_to_adaptive() {
    let app = loaded("");
    assert_eq!(
        app.algorithm_builder_from_options().mu_strategy,
        MuStrategyChoice::Monotone,
        "the exact arm must keep the registered default"
    );

    let app = loaded("hessian_approximation limited-memory\n");
    assert_eq!(
        app.algorithm_builder_from_options().mu_strategy,
        MuStrategyChoice::Adaptive,
        "limited-memory must take the quasi-Newton default"
    );

    let app = loaded(
        "hessian_approximation limited-memory\n\
         mu_strategy monotone\n",
    );
    assert_eq!(
        app.algorithm_builder_from_options().mu_strategy,
        MuStrategyChoice::Monotone,
        "an explicit mu_strategy must not be overridden"
    );
}

#[test]
fn fallback_flip_follows_the_resolved_mu_strategy() {
    let app = loaded("");
    assert!(
        !app.effective_mu_strategy_is_adaptive(),
        "unset + exact resolves to monotone"
    );

    let app = loaded("hessian_approximation limited-memory\n");
    assert!(
        app.effective_mu_strategy_is_adaptive(),
        "unset + limited-memory resolves to adaptive"
    );

    let app = loaded(
        "hessian_approximation limited-memory\n\
         mu_strategy monotone\n",
    );
    assert!(
        !app.effective_mu_strategy_is_adaptive(),
        "an explicit monotone under limited-memory resolves to monotone"
    );
}

#[test]
fn application_limited_memory_options_propagate_to_builder() {
    let app = loaded("");
    let def = app.algorithm_builder_from_options();
    assert_eq!(def.limited_memory_update_type, UpdateType::Bfgs);
    assert_eq!(def.limited_memory_max_history, 6);

    let app = loaded(
        "hessian_approximation limited-memory\n\
         limited_memory_update_type sr1\n\
         limited_memory_max_history 9\n",
    );
    let snap = app.algorithm_builder_from_options();
    assert_eq!(snap.limited_memory_update_type, UpdateType::Sr1);
    assert_eq!(snap.limited_memory_max_history, 9);
}

#[test]
fn application_recalc_y_is_wired_and_defaults_off() {
    let app = loaded("");
    let b = app.algorithm_builder_from_options();
    assert!(!b.recalc_y, "exact-Hessian default must stay off");
    assert_eq!(f(b.recalc_y_feas_tol), 1e-6, "default changed");

    let app = loaded("hessian_approximation limited-memory\n");
    assert!(
        !app.algorithm_builder_from_options().recalc_y,
        "limited-memory must not silently enable recalc_y"
    );

    let app = loaded("recalc_y yes\nrecalc_y_feas_tol 1e-3\n");
    let b = app.algorithm_builder_from_options();
    assert!(b.recalc_y);
    assert_eq!(f(b.recalc_y_feas_tol), 1e-3);
}

#[test]
fn application_limited_memory_initialization_propagates_to_builder() {
    for (kw, want) in [
        ("scalar1", InitialApprox::Scalar1),
        ("scalar2", InitialApprox::Scalar2),
        ("scalar3", InitialApprox::Scalar3),
        ("scalar4", InitialApprox::Scalar4),
        ("constant", InitialApprox::Constant),
        ("history-max", InitialApprox::HistoryMax),
    ] {
        let app = loaded(&format!(
            "hessian_approximation limited-memory\n\
             limited_memory_initialization {kw}\n"
        ));
        assert_eq!(
            app.algorithm_builder_from_options().limited_memory_initialization,
            want,
            "limited_memory_initialization={kw} did not reach the builder"
        );
    }

    let app = loaded(
        "hessian_approximation limited-memory\n\
         limited_memory_init_val 4.5\n",
    );
    assert_eq!(
        f(app.algorithm_builder_from_options().limited_memory_init_val),
        4.5
    );

    let app = loaded("");
    let def = app.algorithm_builder_from_options();
    assert_eq!(def.limited_memory_initialization, InitialApprox::Scalar1);
    assert_eq!(f(def.limited_memory_init_val), 1.0);
}

#[test]
fn each_constant_derivative_hint_lights_up_its_own_slot() {
    let app = IpoptApplication::new();
    assert_eq!(
        app.asserted_constant_derivative_hints(),
        [false; 4],
        "no hint is asserted on a fresh options list",
    );

    let names = [
        "grad_f_constant",
        "hessian_constant",
        "jac_c_constant",
        "jac_d_constant",
    ];
    for (k, name) in names.iter().enumerate() {
        let app = loaded(&format!("{name} yes\n"));
        let mut expected = [false; 4];
        expected[k] = true;
        assert_eq!(
            app.asserted_constant_derivative_hints(),
            expected,
            "`{name}=yes` must set slot {k} and nothing else",
        );

        let app = loaded(&format!("{name} no\n"));
        assert_eq!(
            app.asserted_constant_derivative_hints(),
            [false; 4],
            "`{name}=no` is the registered default and asserts nothing",
        );
    }
}

#[test]
fn refinement_is_decided_in_order() {
    let refine = |options: &OptionsList, env: bool, in_env: bool| {
        let surroundings = FeralSurroundings {
            from_env: FeralConfig { refine: env, ..backend_default() },
            refine_in_env: in_env,
            ordering_code: None,
            scaling_code: None,
        };
        feral_config_from_options(options, &surroundings).refine
    };
    let plain = loaded("");
    assert!(refine(plain.options(), false, false), "the registered default");
    assert!(!refine(plain.options(), false, true), "the environment");
    let lm = loaded("hessian_approximation limited-memory\n");
    assert!(!refine(lm.options(), true, false), "limited memory goes without");
    assert!(refine(lm.options(), true, true), "the environment before the Hessian");
    let on = loaded("hessian_approximation limited-memory\nferal_refine yes\n");
    assert!(refine(on.options(), false, true), "the option before all");
    let off = loaded("feral_refine no\n");
    assert!(!refine(off.options(), true, true));
}

#[test]
fn methods_change_only_where_the_backend_knows_them() {
    let app = loaded("feral_ordering amd\nferal_scaling weird\n");
    let surroundings = FeralSurroundings {
        from_env: backend_default(),
        refine_in_env: false,
        ordering_code: Some(3),
        scaling_code: None,
    };
    let cfg = feral_config_from_options(app.options(), &surroundings);
    assert_eq!((cfg.ordering, cfg.scaling), (3, 0));
    let unset = feral_config_from_options(loaded("").options(), &surroundings);
    assert_eq!(unset.ordering, 0);
}

fn ratio_only(dual_inf: f64, viol: f64, compl: f64) -> bool {
    runaway_is_the_whole_residual(n(dual_inf), n(viol), n(compl), Number { bits: D0 })
}

fn runaway(dual_inf: f64, viol: f64, compl: f64) -> bool {
    runaway_is_the_whole_residual(
        n(dual_inf),
        n(viol),
        n(compl),
        Number { bits: DUAL_DIV_RETRY_DU_FLOOR },
    )
}

#[test]
fn a_converged_point_with_a_runaway_multiplier_opens_the_retry() {
    assert!(runaway(7.90e4, 1.1e-16, 1.1e-9));
    assert!(runaway(3.25e11, 2.5e-16, 2.8e-3));
    assert!(runaway(5.5743e3, 5.6e-14, 2.08e-5));
}

#[test]
fn an_unconverged_point_does_not_open_the_retry() {
    assert!(!ratio_only(9.90e1, 8.0e-13, 4.65e0));
    assert!(!ratio_only(1.0e6, 1.0e1, 1.0e-16));
    assert!(!ratio_only(1.0e6, 1.0e-16, 1.0e1));
}

#[test]
fn a_small_dual_residual_is_not_a_runaway_however_dominant() {
    assert!(ratio_only(4.4e-1, 1.0e-30, 1.0e-30));
    assert!(!runaway(4.4e-1, 1.0e-30, 1.0e-30));
    assert!(!runaway(4.397e-1, 1.0e-16, 1.0e-16));
    assert!(!runaway(2.026e1, 1.0e-16, 1.0e-16));
    let floor = f64::from_bits(DUAL_DIV_RETRY_DU_FLOOR);
    assert!(runaway(floor, 0.0, 0.0));
    assert!(!runaway(floor * 0.999, 0.0, 0.0));
}

#[test]
fn the_threshold_is_where_the_constant_says_it_is() {
    let dominance = f64::from_bits(DUAL_DIV_RETRY_DOMINANCE);
    assert!(ratio_only(1.0, dominance, 0.0));
    assert!(!ratio_only(1.0, dominance * 1.001, 0.0));
}

#[test]
fn what_we_cannot_measure_does_not_buy_a_retry() {
    assert!(!ratio_only(f64::NAN, 0.0, 0.0));
    assert!(!ratio_only(1.0e6, f64::NAN, 0.0));
    assert!(!ratio_only(1.0e6, 0.0, f64::NAN));
    assert!(!ratio_only(f64::INFINITY, 0.0, 0.0));
    assert!(!ratio_only(0.0, 0.0, 0.0));
    assert!(!ratio_only(-1.0, 0.0, 0.0));
}

const ACCEPT: f64 = 1e-6;
const MIN: f64 = 1.0;
const MAX: f64 = -1.0;

fn judged(bo: f64, bv: f64, ro: f64, rv: f64, sense: f64) -> bool {
    retry_answer_is_admissible(n(bo), n(bv), n(ro), n(rv), n(ACCEPT), n(sense))
}

fn admissible(bo: f64, bv: f64, ro: f64, rv: f64) -> bool {
    judged(bo, bv, ro, rv, MIN)
}

#[test]
fn the_reproducers_promotion_is_still_admissible() {
    assert!(admissible(3.586e-28, 1.11e-16, 5.835e-11, 5.47e-12));
}

#[test]
fn a_worse_feasible_objective_is_refused_however_clean_the_certificate() {
    assert!(!admissible(
        -1.3005680756e1,
        2.22e-16,
        -1.2072337962e0,
        4.55e-13
    ));
    assert!(!admissible(
        -4.7919265770e0,
        1.07e-14,
        -9.8562977711e-1,
        7.99e-14
    ));
    assert!(!admissible(
        -2.9558632401e-1,
        6.25e-17,
        -9.7321185691e-2,
        6.21e-13
    ));
}

#[test]
fn an_improvement_bought_with_primal_slack_is_refused() {
    assert!(!admissible(
        1.8175997416e-9,
        2.07e-25,
        -6.6088333055e-5,
        1.09e-9
    ));
    assert!(admissible(
        1.8175997416e-9,
        2.07e-25,
        -6.6088333055e-5,
        2.07e-25
    ));
}

#[test]
fn the_objective_tolerance_is_not_fitted_to_one_model() {
    let inside = 5.835e-11;
    let outside = 0.198;
    assert!(inside < ACCEPT / 1.0e4, "{inside} is not well inside");
    assert!(outside > ACCEPT * 1.0e4, "{outside} is not well outside");
    assert!(admissible(1.0e6, 0.0, 1.0e6 + 0.5, 0.0));
    assert!(!admissible(1.0e6, 0.0, 1.0e6 + 5.0, 0.0));
}

#[test]
fn the_rules_follow_the_objective_sense() {
    assert!(judged(-3.586e-28, 1.11e-16, -5.835e-11, 5.47e-12, MAX));
    assert!(!judged(
        1.3005680756e1,
        2.22e-16,
        1.2072337962e0,
        4.55e-13,
        MAX
    ));
    assert!(!judged(
        -1.8175997416e-9,
        2.07e-25,
        6.6088333055e-5,
        1.09e-9,
        MAX
    ));
    assert!(judged(
        -1.8175997416e-9,
        2.07e-25,
        6.6088333055e-5,
        2.07e-25,
        MAX
    ));
}

#[test]
fn negating_the_objective_and_the_sense_is_inert() {
    for &(bo, bv, ro, rv) in &[
        (3.586e-28, 1.11e-16, 5.835e-11, 5.47e-12),
        (-1.3005680756e1, 2.22e-16, -1.2072337962e0, 4.55e-13),
        (1.8175997416e-9, 2.07e-25, -6.6088333055e-5, 1.09e-9),
        (1.8175997416e-9, 2.07e-25, -6.6088333055e-5, 2.07e-25),
        (-1.0e3, 1.0e-2, 0.0, 1.0e-12),
    ] {
        assert_eq!(
            judged(bo, bv, ro, rv, MIN),
            judged(-bo, bv, -ro, rv, MAX),
            "verdict moved under (obj, sense) -> (-obj, -sense) at {bo:e}/{ro:e}"
        );
    }
}

#[test]
fn an_infeasible_base_attempt_protects_nothing() {
    assert!(admissible(-1.0e3, 1.0e-2, 0.0, 1.0e-12));
    assert!(admissible(f64::NAN, 0.0, 0.0, 0.0));
    assert!(!admissible(0.0, 0.0, f64::NAN, 0.0));
    assert!(!admissible(0.0, 0.0, -1.0, f64::NAN));
}
