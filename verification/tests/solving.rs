use pounce_algorithm::alg_builder::FdPatternSource;
use pounce_algorithm::alg_builder::HessianApproxChoice;
use pounce_algorithm::alg_builder::LinearSolverChoice;
use pounce_algorithm::application::CrossoverReport;
use pounce_algorithm::application::IpoptApplication;
use pounce_algorithm::application::SqpIterates;
use pounce_algorithm::application::WorkingSet;
use pounce_algorithm::feral::FeralConfig;
use pounce_algorithm::feral::FeralSurroundings;
use pounce_algorithm::iterates::install_crossover_iterate;
use pounce_algorithm::iterates::iterates_dims;
use pounce_algorithm::iterates::join_numbers;
use pounce_algorithm::iterates::or_zeros;
use pounce_algorithm::iterates::split_signed;
use pounce_algorithm::iterates::CrossoverPoint;
use pounce_algorithm::iterates::IterateSnapshot;
use pounce_algorithm::iterates::IteratesVector;
use pounce_algorithm::number::Number;
use pounce_algorithm::solve::algorithm_knobs;
use pounce_algorithm::solve::lacks_degrees_of_freedom;
use pounce_algorithm::solve::nonlinear_queries;
use pounce_algorithm::solve::Delivery;
use pounce_algorithm::solve::FdCensus;
use pounce_algorithm::solve::FinalMeasures;
use pounce_algorithm::solve::FixedVarTreatment;
use pounce_algorithm::solve::NlpScaling;
use pounce_algorithm::solve::RunRecord;
use pounce_algorithm::solve::SetupFailure;
use pounce_algorithm::solve::SqpRecord;
use pounce_algorithm::statistics::IterRecord;
use pounce_algorithm::statistics::SolutionCertificate;
use pounce_algorithm::statistics::SolveStatistics;
use pounce_algorithm::status::ApplicationReturnStatus;
use pounce_algorithm::status::SolverReturn;
use pounce_algorithm::status::SqpStatus;

fn n(x: f64) -> Number {
    Number::from_bits(x.to_bits())
}

fn f(x: Number) -> f64 {
    f64::from_bits(x.to_bits())
}

fn ns(v: &[f64]) -> Vec<Number> {
    v.iter().map(|x| n(*x)).collect()
}

fn measures() -> FinalMeasures {
    FinalMeasures {
        scaled_objective: Some(n(17.0)),
        dual_inf: n(1e-9),
        constr_viol: n(2e-9),
        declared_constr_viol: n(3e-9),
        declared_box_viol: n(4e-9),
        compl_x_l: n(5e-10),
        compl_x_u: n(7e-10),
        compl_s_l: n(6e-10),
        compl_s_u: n(1e-10),
        nlp_error: n(8e-9),
        nlp_error_above_noise: n(9e-9),
        unscaled_dual_inf: n(1e-7),
        unscaled_constr_viol: n(2e-7),
        unscaled_compl: n(3e-7),
        unscaled_nlp_error: n(4e-7),
        rows_scaled: false,
        crossover_nlp_error: n(5e-9),
        crossover_nlp_error_above_noise: n(6e-9),
        objective_scale: n(-0.5),
    }
}

fn record(status: SolverReturn) -> RunRecord {
    RunRecord {
        solver_status: status,
        iter_count: 12,
        mu: n(1e-9),
        wallclock: n(0.25),
        fd: None,
        resto_calls: 1,
        resto_inner_iters: 2,
        resto_outer_iters: 3,
        resto_wall_secs: n(0.125),
        dual_divergence_signature: false,
        measures: measures(),
        bound_relax_factor: n(1e-8),
        presolve_proof: false,
        start_is_feasible: false,
    }
}

#[test]
fn a_run_is_recorded_with_its_numbers() {
    let mut app = IpoptApplication::new();
    app.begin_constrained();
    app.count_quality_escalation();
    app.count_quality_escalation();
    let e = app.conclude_run(&record(SolverReturn::Success), vec![]);
    assert_eq!(e.status, ApplicationReturnStatus::SolveSucceeded);
    assert_eq!(e.solver_status, SolverReturn::Success);
    assert!(e.notify && e.deliver);
    let s = app.statistics();
    assert_eq!(s.iteration_count, 12);
    assert_eq!(f(s.final_objective), 17.0);
    assert_eq!(f(s.final_scaled_objective), 17.0);
    assert_eq!(f(s.final_compl), 7e-10);
    assert_eq!(f(s.final_kkt_error), 8e-9);
    assert_eq!(f(s.final_unscaled_kkt_error), 4e-7);
    assert_eq!(f(s.final_declared_constr_viol), 3e-9);
    assert_eq!(f(s.final_declared_box_viol), 4e-9);
    assert_eq!(s.quality_escalations, 2);
    assert_eq!(
        (s.restoration_calls, s.restoration_inner_iters, s.restoration_outer_iters),
        (1, 2, 3)
    );
    assert_eq!(app.row_scaling_active, Some(false));

    let mut r = record(SolverReturn::Success);
    r.bound_relax_factor = n(0.0);
    r.measures.scaled_objective = None;
    r.measures.rows_scaled = true;
    r.fd = Some(FdCensus {
        pattern_used: Some(FdPatternSource::Jacobian),
        nnz: 9,
        n: 3,
        groups: 2,
        rho_max: 4,
        coloring_fell_back: true,
        objective_clique_widened: false,
    });
    app.conclude_run(&r, vec![]);
    let s = app.statistics();
    assert!(s.final_declared_constr_viol.is_nan());
    assert_eq!(f(s.final_objective), 17.0);
    assert_eq!(app.row_scaling_active, Some(true));
    assert_eq!((s.fd_hessian_pattern_used, s.fd_hessian_nnz, s.fd_hessian_groups), (1, 9, 2));
}

#[test]
fn row_scaling_active_is_cleared_when_a_later_solve_bails_early() {
    let mut app = IpoptApplication::new();
    app.begin_constrained();
    app.conclude_run(&record(SolverReturn::Success), vec![]);
    assert!(app.row_scaling_active.is_some());

    app.begin_constrained();
    assert_eq!(SetupFailure::Model.status(), ApplicationReturnStatus::InvalidProblemDefinition);
    assert_eq!(app.row_scaling_active, None);

    let e = app.conclude_run(&record(SolverReturn::InvalidProblemDefinition), vec![]);
    assert_eq!(e.status, ApplicationReturnStatus::InvalidProblemDefinition);
    assert!(!e.deliver && !e.notify);
    assert_eq!(app.row_scaling_active, None);
}

#[test]
fn an_accepted_crossover_reports_its_own_complementarity() {
    let mut app = IpoptApplication::new();
    app.record_crossover(
        CrossoverReport { accepted: true, compl_after: n(3e-12) },
        Some(WorkingSet { bounds: vec![1], constraints: vec![0] }),
    );
    assert!(app.last_sqp_working_set().is_some());
    app.conclude_run(&record(SolverReturn::Success), vec![]);
    let s = app.statistics();
    assert_eq!(f(s.final_compl), 3e-12);
    assert_eq!(f(s.final_kkt_error), 5e-9);
    assert_eq!(f(s.final_kkt_error_above_noise), 6e-9);
    assert_eq!(f(s.final_unscaled_compl), 3e-12 / 0.5);
    assert_eq!(f(s.final_unscaled_kkt_error), 2e-7);

    for scale in [0.0, 1.0, -1.0] {
        let mut r = record(SolverReturn::Success);
        r.measures.objective_scale = n(scale);
        app.conclude_run(&r, vec![]);
        assert_eq!(f(app.statistics().final_unscaled_compl), 3e-12, "{scale}");
    }

    for report in [
        CrossoverReport { accepted: false, compl_after: n(3e-12) },
        CrossoverReport { accepted: true, compl_after: n(f64::NAN) },
    ] {
        let mut app = IpoptApplication::new();
        app.record_crossover(report, None);
        app.conclude_run(&record(SolverReturn::Success), vec![]);
        assert_eq!(f(app.statistics().final_compl), 7e-10);
    }
}

#[test]
fn a_crossover_runs_on_converged_points_only() {
    let mut app = IpoptApplication::new();
    assert!(!app.begin_crossover(SolverReturn::Success), "off by default");
    app.options_mut().set_string_value("crossover", "yes");
    app.options_mut().set_integer_value("crossover_max_iter", -3);
    app.options_mut().set_numeric_value("crossover_mult_tol", n(1e-5));
    app.record_crossover(CrossoverReport { accepted: true, compl_after: n(0.0) }, None);
    assert!(app.begin_crossover(SolverReturn::Success));
    assert_eq!(app.crossover_report(), None);
    assert!(app.begin_crossover(SolverReturn::StopAtAcceptablePoint));
    assert!(!app.begin_crossover(SolverReturn::MaxiterExceeded));
    let o = app.crossover_options();
    assert_eq!((o.enabled, o.max_iter), (true, Some(0)));
    assert_eq!(o.mult_tol, Some(n(1e-5)));
    assert_eq!(o.primal_tol, None);
}

#[test]
fn the_fidelity_gate_only_downgrades_a_success() {
    let mut app = IpoptApplication::new();
    app.options_mut().set_numeric_value("kkt_fidelity_tol", n(1e-7));
    let e = app.conclude_run(&record(SolverReturn::Success), vec![]);
    assert_eq!(e.status, ApplicationReturnStatus::SolvedToAcceptableLevel);
    assert_eq!(e.solver_status, SolverReturn::Success);
    let e = app.conclude_run(&record(SolverReturn::MaxiterExceeded), vec![]);
    assert_eq!(e.status, ApplicationReturnStatus::MaximumIterationsExceeded);
    app.options_mut().set_numeric_value("kkt_fidelity_tol", n(4e-7));
    let e = app.conclude_run(&record(SolverReturn::Success), vec![]);
    assert_eq!(e.status, ApplicationReturnStatus::SolveSucceeded, "at the tolerance");
    app.options_mut().set_numeric_value("kkt_fidelity_tol", n(0.0));
    let e = app.conclude_run(&record(SolverReturn::Success), vec![]);
    assert_eq!(e.status, ApplicationReturnStatus::SolveSucceeded, "switched off");
}

#[test]
fn a_refuted_claim_of_infeasibility_is_withdrawn() {
    let mut app = IpoptApplication::new();
    let mut r = record(SolverReturn::LocalInfeasibility);
    assert_eq!(app.conclude_run(&r, vec![]).status, ApplicationReturnStatus::InfeasibleProblemDetected);
    r.start_is_feasible = true;
    let e = app.conclude_run(&r, vec![]);
    assert_eq!(e.status, ApplicationReturnStatus::ErrorInStepComputation);
    assert_eq!(e.solver_status, SolverReturn::ErrorInStepComputation);
    r.presolve_proof = true;
    assert_eq!(app.conclude_run(&r, vec![]).status, ApplicationReturnStatus::InfeasibleProblemDetected);
}

#[test]
fn the_sight_of_runaway_multipliers_adds_up() {
    let mut app = IpoptApplication::new();
    let mut r = record(SolverReturn::Success);
    r.dual_divergence_signature = true;
    app.conclude_run(&r, vec![]);
    assert!(app.statistics().dual_divergence_signature);
    app.conclude_run(&record(SolverReturn::Success), vec![]);
    assert!(app.statistics().dual_divergence_signature);
    app.reset_for_solve();
    app.conclude_run(&record(SolverReturn::Success), vec![]);
    assert!(!app.statistics().dual_divergence_signature);
}

fn sqp_record(status: SqpStatus) -> SqpRecord {
    SqpRecord {
        status,
        n_iter: 5,
        n_qp_solves: 6,
        n_qp_working_set_changes: 7,
        obj: n(-1.5),
        final_stationarity: n(1e-9),
        final_constr_viol: n(3e-9),
        wallclock: n(0.5),
        presolve_proof: false,
        start_is_feasible: true,
    }
}

#[test]
fn an_sqp_run_is_recorded_without_a_barrier() {
    let mut app = IpoptApplication::new();
    let ws = WorkingSet { bounds: vec![0, 1], constraints: vec![2] };
    let (status, solver) = app.conclude_sqp_run(&sqp_record(SqpStatus::Optimal), Some(ws));
    assert_eq!(status, ApplicationReturnStatus::SolveSucceeded);
    assert_eq!(solver, SolverReturn::Success);
    let s = app.statistics();
    assert_eq!((s.iteration_count, s.sqp_qp_solves, s.sqp_qp_working_set_changes), (5, 6, 7));
    assert_eq!(f(s.final_objective), -1.5);
    assert_eq!(f(s.final_compl), 0.0);
    assert_eq!(f(s.final_kkt_error), 3e-9);
    assert_eq!(f(s.final_unscaled_kkt_error), 3e-9);
    assert_eq!(app.last_sqp_working_set().unwrap().constraints, vec![2]);
}

#[test]
fn every_sqp_status_has_its_verdict() {
    let table = [
        (
            SqpStatus::MaxIter,
            ApplicationReturnStatus::MaximumIterationsExceeded,
            SolverReturn::MaxiterExceeded,
        ),
        (
            SqpStatus::InfeasibleSubproblem,
            ApplicationReturnStatus::ErrorInStepComputation,
            SolverReturn::ErrorInStepComputation,
        ),
        (
            SqpStatus::LineSearchFailed,
            ApplicationReturnStatus::SearchDirectionBecomesTooSmall,
            SolverReturn::ErrorInStepComputation,
        ),
        (
            SqpStatus::QpStepFailed,
            ApplicationReturnStatus::SearchDirectionBecomesTooSmall,
            SolverReturn::ErrorInStepComputation,
        ),
        (
            SqpStatus::QpIterationLimit,
            ApplicationReturnStatus::MaximumIterationsExceeded,
            SolverReturn::MaxiterExceeded,
        ),
        (
            SqpStatus::Unbounded,
            ApplicationReturnStatus::DivergingIterates,
            SolverReturn::DivergingIterates,
        ),
        (
            SqpStatus::InvalidNumber,
            ApplicationReturnStatus::InvalidNumberDetected,
            SolverReturn::InvalidNumberDetected,
        ),
    ];
    for (status, app_status, solver) in table {
        let mut app = IpoptApplication::new();
        assert_eq!(app.conclude_sqp_run(&sqp_record(status), None), (app_status, solver));
    }
    let mut app = IpoptApplication::new();
    let mut r = sqp_record(SqpStatus::InfeasibleSubproblem);
    r.start_is_feasible = false;
    assert_eq!(
        app.conclude_sqp_run(&r, None),
        (ApplicationReturnStatus::InfeasibleProblemDetected, SolverReturn::LocalInfeasibility)
    );
    app.options_mut().set_numeric_value("kkt_fidelity_tol", n(1e-9));
    assert_eq!(
        app.conclude_sqp_run(&sqp_record(SqpStatus::Optimal), None),
        (ApplicationReturnStatus::SolvedToAcceptableLevel, SolverReturn::Success)
    );
}

#[test]
fn application_sqp_warm_start_auto_clears_after_use() {
    let mut app = IpoptApplication::new();
    app.initialize().unwrap();
    app.options_mut().set_string_value("algorithm", "active-set-sqp");
    app.set_sqp_warm_start(SqpIterates {
        x: ns(&[0.0, 1.0]),
        lambda_g: ns(&[1.0]),
        lambda_x: ns(&[0.0, 0.0]),
        working: None,
    });
    assert!(app.sqp_warm_start.is_some());
    let taken = app.take_sqp_warm_start().unwrap();
    assert_eq!(taken.x, ns(&[0.0, 1.0]));
    assert!(
        app.sqp_warm_start.is_none(),
        "warm-start input must be auto-cleared after use"
    );
}

#[test]
fn the_sqp_driver_is_built_from_its_options() {
    let mut app = IpoptApplication::new();
    app.options_mut().set_integer_value("sqp_max_iter", 17);
    app.options_mut().set_string_value("linear_solver", "ma57");
    let a = app.sqp_algorithm(true).unwrap();
    assert_eq!(a.sqp.max_iter, Some(17));
    assert_eq!(a.backend, LinearSolverChoice::Feral);
    assert!(!a.qp.certify_second_order);
}

#[test]
fn setups_fail_with_their_statuses() {
    assert_eq!(SetupFailure::Problem.status(), ApplicationReturnStatus::InternalError);
    assert_eq!(SetupFailure::Driver.status(), ApplicationReturnStatus::InternalError);
    assert_eq!(
        SetupFailure::NonlinearVariables.status(),
        ApplicationReturnStatus::InvalidProblemDefinition
    );
    assert_eq!(
        SetupFailure::Overdetermined { certified_infeasible: true }.status(),
        ApplicationReturnStatus::InfeasibleProblemDetected
    );
    assert_eq!(
        SetupFailure::Overdetermined { certified_infeasible: false }.status(),
        ApplicationReturnStatus::NotEnoughDegreesOfFreedom
    );
    assert!(lacks_degrees_of_freedom(1, 2));
    assert!(!lacks_degrees_of_freedom(2, 2));
    assert!(!lacks_degrees_of_freedom(0, 2), "a model without variables is left to the solver");
}

#[test]
fn each_hessian_asks_for_its_own_nonlinear_variables() {
    let q = |h| {
        let r = nonlinear_queries(h);
        (r.objective, r.curvature)
    };
    assert_eq!(q(HessianApproxChoice::Exact), (false, false));
    assert_eq!(q(HessianApproxChoice::LimitedMemory), (false, true));
    assert_eq!(q(HessianApproxChoice::Partitioned), (true, false));
    assert_eq!(q(HessianApproxChoice::FiniteDifference), (true, true));
}

fn surroundings() -> FeralSurroundings {
    FeralSurroundings {
        from_env: FeralConfig {
            cascade_break: None,
            fma: true,
            parallel: None,
            refine: true,
            increase_quality: true,
            refine_max_steps: 10,
            refine_target: n(1e-10),
            static_pivoting: None,
            singular_pivot_floor: n(1e-20),
            inertia_pivot_floor: None,
            min_par_flops: None,
            pivtol: n(1e-8),
            ordering: 0,
            scaling: 0,
        },
        refine_in_env: false,
        ordering_code: None,
        scaling_code: None,
    }
}

#[test]
fn a_run_is_set_up_with_the_partition_and_the_ordering() {
    let mut app = IpoptApplication::new();
    let plain = app.constrained_builder(&surroundings());
    assert!(plain.builder.kkt_schur.is_none());
    assert_eq!(plain.ordering, None);
    app.set_kkt_schur_block(vec![3, 1]);
    app.set_external_ordering(vec![2, 0, 1]);
    app.options_mut().set_string_value("feral_static_pivoting", "yes");
    let s = app.constrained_builder(&surroundings());
    assert_eq!(s.feral.static_pivoting, Some(true));
    assert_eq!(s.builder.kkt_schur, Some((vec![3, 1], s.feral)));
    assert_eq!(s.ordering, Some(vec![2, 0, 1]));
    assert_eq!(app.kkt_schur_block(), Some(&vec![3, 1]));
    assert_eq!(app.external_ordering(), Some(&vec![2, 0, 1]));
    app.clear_kkt_schur_block();
    app.clear_external_ordering();
    let s = app.constrained_builder(&surroundings());
    assert!(s.builder.kkt_schur.is_none() && s.ordering.is_none());
}

#[test]
fn the_plan_follows_the_options() {
    let mut app = IpoptApplication::new();
    let p = app.solve_plan();
    assert_eq!(f(p.lower_bound_inf), -1e19);
    assert_eq!(f(p.upper_bound_inf), 1e19);
    assert_eq!(f(p.obj_scaling_factor), 1.0);
    assert_eq!(f(p.bound_relax_factor), 1e-8);
    assert_eq!(f(p.constr_viol_tol), 1e-4);
    assert_eq!(f(p.max_gradient), 100.0);
    assert_eq!(f(p.min_value), 1e-8);
    assert_eq!(f(p.tol), 1e-8);
    assert_eq!(p.max_iter, 3000);
    assert_eq!(p.fixed_treatment, FixedVarTreatment::MakeParameter);
    assert_eq!(p.scaling_method, NlpScaling::GradientBased);
    assert_eq!(p.slack_move, None);
    assert!(p.console_output && !p.detailed_timing && !p.print_timing);
    assert!(!p.honor_original_bounds && !p.print_user_options);

    let o = app.options_mut();
    o.set_string_value("fixed_variable_treatment", "relax_bounds");
    o.set_string_value("nlp_scaling_method", "curvature-based");
    o.set_string_value("timing_statistics", "yes");
    o.set_integer_value("print_level", 0);
    o.set_integer_value("max_iter", 7);
    o.set_numeric_value("slack_move", n(1e-3));
    let p = app.solve_plan();
    assert_eq!(p.fixed_treatment, FixedVarTreatment::RelaxBounds);
    assert_eq!(p.scaling_method, NlpScaling::UserScaling);
    assert!(app.wants_model_factors());
    assert!(p.detailed_timing && !p.print_timing && !p.console_output);
    assert_eq!(p.max_iter, 7);
    assert_eq!(p.slack_move, Some(n(1e-3)));
    app.options_mut().set_string_value("nlp_scaling_method", "none");
    assert_eq!(app.solve_plan().scaling_method, NlpScaling::Off);
    assert!(!app.wants_model_factors());
    app.options_mut().set_string_value("nlp_scaling_method", "something");
    assert_eq!(app.solve_plan().scaling_method, NlpScaling::GradientBased);
    app.options_mut().set_string_value("print_timing_statistics", "yes");
    assert!(app.solve_plan().print_timing);

    let b = app.algorithm_builder_from_options();
    let k = algorithm_knobs(&b, &app.solve_plan());
    assert_eq!(k.max_iter, 7);
    assert_eq!(k.kappa_sigma, b.kappa_sigma);
    assert!(!k.print_iter_output && !k.slack_based_scaling);
}

#[test]
fn negative_counts_switch_their_guards_off() {
    let mut app = IpoptApplication::new();
    app.options_mut().set_integer_value("dual_diverging_streak", 4);
    let mut b = app.algorithm_builder_from_options();
    assert_eq!(algorithm_knobs(&b, &app.solve_plan()).dual_diverging_streak, 4);
    b.dual_diverging_streak = -4;
    b.neg_curv_escapes = Some(-1);
    b.resto_decline_deferrals = Some(2);
    let k = algorithm_knobs(&b, &app.solve_plan());
    assert_eq!(k.dual_diverging_streak, 0);
    assert_eq!(k.neg_curv_escapes, Some(0));
    assert_eq!(k.resto_decline_deferrals, Some(2));
}

fn iterate(dims: [usize; 8]) -> IteratesVector {
    let z = |k: usize| vec![n(0.0); k];
    IteratesVector {
        x: z(dims[0]),
        s: z(dims[1]),
        y_c: z(dims[2]),
        y_d: z(dims[3]),
        z_l: z(dims[4]),
        z_u: z(dims[5]),
        v_l: z(dims[6]),
        v_u: z(dims[7]),
    }
}

#[test]
fn a_kept_iterate_is_used_once_and_only_where_it_fits() {
    let mut app = IpoptApplication::new();
    let fresh = iterate([2, 1, 1, 1, 2, 2, 1, 1]);
    assert!(app.take_warm_start_iterate(&fresh).is_none());
    app.set_warm_start_iterate(IterateSnapshot { iterates: fresh.deep_copy(), mu: n(1e-4) });
    assert_eq!(app.take_warm_start_iterate(&fresh).unwrap().mu, n(1e-4));
    assert!(app.take_warm_start_iterate(&fresh).is_none());
    app.set_warm_start_iterate(IterateSnapshot {
        iterates: iterate([2, 1, 1, 1, 2, 2, 1, 0]),
        mu: n(1e-4),
    });
    assert!(app.take_warm_start_iterate(&fresh).is_none());
    assert!(app.warm_start_iterate.is_none(), "a misfit is dropped");
    assert_eq!(iterates_dims(&fresh), [2, 1, 1, 1, 2, 2, 1, 1]);
}

#[test]
fn a_crossover_point_is_installed_whole_or_not_at_all() {
    let curr = iterate([2, 1, 1, 1, 1, 0, 1, 0]);
    let point = CrossoverPoint {
        x: ns(&[1.0, 2.0]),
        lambda_g: ns(&[3.0, 4.0]),
        rows: ns(&[0.0, 5.0]),
        z_l: ns(&[6.0]),
        z_u: vec![],
        v_l: ns(&[7.0]),
        v_u: vec![],
        m_c: 1,
    };
    let it = install_crossover_iterate(&curr, &point).unwrap();
    assert_eq!(it.x, ns(&[1.0, 2.0]));
    assert_eq!(it.s, ns(&[5.0]));
    assert_eq!(it.y_c, ns(&[3.0]));
    assert_eq!(it.y_d, ns(&[4.0]));
    assert_eq!(it.z_l, ns(&[6.0]));
    assert_eq!(it.v_l, ns(&[7.0]));
    let misfit = CrossoverPoint { v_u: ns(&[1.0]), ..point };
    assert!(install_crossover_iterate(&curr, &misfit).is_none());
}

#[test]
fn signed_multipliers_are_split_into_their_parts() {
    let (z_l, z_u) = split_signed(&ns(&[2.0, -3.0, 0.0, f64::NAN]));
    let got: Vec<(f64, f64)> = z_l.iter().zip(&z_u).map(|(a, b)| (f(*a), f(*b))).collect();
    assert_eq!(got, vec![(2.0, 0.0), (0.0, 3.0), (0.0, 0.0), (0.0, 0.0)]);
    assert_eq!(join_numbers(&ns(&[1.0]), &ns(&[2.0, 3.0])), ns(&[1.0, 2.0, 3.0]));
    assert_eq!(or_zeros(vec![], 2), ns(&[0.0, 0.0]));
    assert_eq!(or_zeros(ns(&[4.0]), 2), ns(&[4.0]));
}

#[test]
fn a_delivery_fills_in_what_is_missing() {
    let mut app = IpoptApplication::new();
    let delivery = |objective| Delivery {
        status: SolverReturn::Success,
        x: ns(&[1.0, 2.0]),
        z_l: vec![],
        z_u: ns(&[3.0, 4.0]),
        lambda: vec![],
        g: ns(&[5.0]),
        objective,
        n: 2,
        m: 1,
    };
    let s = app.record_delivery(delivery(Some(n(9.0))), true);
    assert_eq!(s.z_l, ns(&[0.0, 0.0]));
    assert_eq!(s.z_u, ns(&[3.0, 4.0]));
    assert_eq!(s.lambda, ns(&[0.0]));
    assert_eq!(f(s.obj_value), 9.0);
    assert_eq!(f(app.statistics().final_objective), 9.0);
    assert_eq!(app.last_finalize.as_ref().unwrap().x, s.x);
    let s = app.record_delivery(delivery(None), false);
    assert!(s.obj_value.is_nan());
    assert_eq!(f(app.statistics().final_objective), 9.0);
}

#[test]
fn evaluations_are_counted_by_call() {
    let mut app = IpoptApplication::new();
    app.record_eval_counts([1, 2, 3, 4, 6, 5, 7]);
    let s = app.statistics();
    assert_eq!(
        (
            s.num_obj_evals,
            s.num_obj_grad_evals,
            s.num_constr_evals,
            s.num_constr_jac_evals,
            s.num_hess_evals
        ),
        (1, 2, 4, 6, 7)
    );
}

#[test]
fn a_certificate_goes_round() {
    let mut app = IpoptApplication::new();
    app.conclude_run(&record(SolverReturn::Success), vec![]);
    let first = app.statistics();
    let c = SolutionCertificate::of(&first);
    let mut other = SolveStatistics { iteration_count: 99, ..SolveStatistics::new() };
    c.restore_into(&mut other);
    assert_eq!(SolutionCertificate::of(&other), c);
    assert_eq!(other.iteration_count, 99);
    assert_eq!(other.final_unscaled_kkt_error, first.final_unscaled_kkt_error);
    assert_eq!(f(other.final_declared_constr_viol), 3e-9);
    assert_eq!(f(other.final_declared_box_viol), 4e-9);
}

#[test]
fn the_working_set_is_that_of_the_last_solve() {
    let mut app = IpoptApplication::new();
    assert!(app.last_sqp_working_set().is_none());
    app.reset_for_solve();
    let ws = WorkingSet { bounds: vec![0, 1], constraints: vec![2] };
    app.conclude_sqp_run(&sqp_record(SqpStatus::Optimal), Some(ws));
    assert!(app.last_sqp_working_set().is_some());

    app.reset_for_solve();
    app.begin_constrained();
    assert!(!app.begin_crossover(SolverReturn::Success));
    app.conclude_run(&record(SolverReturn::Success), vec![]);
    assert!(app.last_sqp_working_set().is_none(), "an interior-point solve leaves none");

    app.reset_for_solve();
    app.begin_constrained();
    app.record_crossover(
        CrossoverReport { accepted: true, compl_after: n(0.0) },
        Some(WorkingSet { bounds: vec![4], constraints: vec![] }),
    );
    assert_eq!(app.last_sqp_working_set().unwrap().bounds, vec![4]);
}

#[test]
fn a_crossover_report_is_that_of_the_last_solve() {
    let report = CrossoverReport { accepted: true, compl_after: n(1e-12) };
    let mut app = IpoptApplication::new();
    app.record_crossover(report, None);
    assert_eq!(app.crossover_report(), Some(report));
    app.begin_constrained();
    assert_eq!(app.crossover_report(), None, "gone before the set-up can fail");

    app.record_crossover(report, None);
    app.reset_for_solve();
    assert_eq!(app.crossover_report(), None);
}

fn row(iter: i32) -> IterRecord {
    IterRecord {
        iter,
        objective: n(2.0),
        inf_pr: n(1e-3),
        inf_du: n(1e-2),
        mu: n(0.1),
        d_norm: n(0.5),
        alpha_du: n(1.0),
        alpha_pr: n(0.25),
        ls_trials: 2,
    }
}

#[test]
fn the_trajectory_is_kept_on_request() {
    let mut app = IpoptApplication::new();
    app.conclude_run(&record(SolverReturn::Success), vec![row(0), row(1)]);
    assert_eq!(app.statistics().iterations, None, "off by default");
    app.enable_iter_history();
    app.conclude_run(&record(SolverReturn::Success), vec![row(0), row(1)]);
    assert_eq!(app.statistics().iterations, Some(vec![row(0), row(1)]));
    app.record_run(&record(SolverReturn::Success), vec![row(7)]);
    assert_eq!(app.statistics().iterations, Some(vec![row(7)]), "of the last run only");
    assert_eq!(app.statistics(), app.statistics);
}

#[test]
fn the_derivative_test_of_the_application_keeps_its_defaults() {
    let mut app = IpoptApplication::new();
    let d = app.derivative_test_options();
    assert_eq!((d.mode, d.first_index, d.print_all), (None, -2, false));
    assert_eq!((f(d.perturbation), f(d.tol)), (1e-8, 1e-4));
    app.options_mut().set_string_value("derivative_test", "first-order");
    app.options_mut().set_numeric_value("derivative_test_perturbation", n(0.5));
    app.options_mut().set_numeric_value("derivative_test_tol", n(0.5));
    let d = app.derivative_test_options();
    assert_eq!(d.mode.as_deref(), Some("first-order"));
    assert_eq!((f(d.perturbation), f(d.tol)), (0.5, 0.5));
}
