use pounce_algorithm::application::IpoptApplication;
use pounce_algorithm::dispatch::unsupported_selection_message;
use pounce_algorithm::dispatch::ConvexDefaults;
use pounce_algorithm::dispatch::ModelFacts;
use pounce_algorithm::dispatch::Refusal;
use pounce_algorithm::dispatch::Route;
use pounce_algorithm::driver::Action;
use pounce_algorithm::driver::SolveDriver;
use pounce_algorithm::feasibility::original_space_feasibility;
use pounce_algorithm::feasibility::FeasibilityStandards;
use pounce_algorithm::feasibility::ModelBounds;
use pounce_algorithm::feasibility::OriginalSpaceFeasibility;
use pounce_algorithm::number::Number;
use pounce_algorithm::options::OptionValue;
use pounce_algorithm::penalty::claims_infeasible;
use pounce_algorithm::penalty::l1_delivery;
use pounce_algorithm::penalty::l1_settings;
use pounce_algorithm::penalty::InnerPoint;
use pounce_algorithm::penalty::L1Loop;
use pounce_algorithm::penalty::L1Point;
use pounce_algorithm::penalty::L1Verdict;
use pounce_algorithm::requests::StartConditioner;
use pounce_algorithm::second_opinion::RetryVerdict;
use pounce_algorithm::solve::Delivery;
use pounce_algorithm::status::is_l1_fallback_trigger;
use pounce_algorithm::status::is_solution_status;
use pounce_algorithm::status::journal_level_from_int;
use pounce_algorithm::status::solver_return_to_app_status;
use pounce_algorithm::status::withdraw_infeasibility_if_refuted;
use pounce_algorithm::status::ApplicationReturnStatus;
use pounce_algorithm::status::JournalLevel;
use pounce_algorithm::status::SolverReturn;

fn n(x: f64) -> Number {
    Number::from_bits(x.to_bits())
}

fn f(x: Number) -> f64 {
    f64::from_bits(x.to_bits())
}

fn ns(v: &[f64]) -> Vec<Number> {
    v.iter().map(|x| n(*x)).collect()
}

fn facts(m: i32) -> Option<ModelFacts> {
    Some(ModelFacts { m, proved_infeasible: false })
}

/// An attempt that delivers a point and reports its numbers.
fn attempt(app: &mut IpoptApplication, x: f64, kkt: f64) {
    app.begin_constrained();
    app.statistics.final_unscaled_kkt_error = n(kkt);
    app.statistics.final_unscaled_dual_inf = n(kkt);
    app.statistics.final_unscaled_constr_viol = n(1e-12);
    app.statistics.final_unscaled_compl = n(1e-12);
    app.statistics.iteration_count = app.statistics.iteration_count + 10;
    app.record_delivery(
        Delivery {
            status: SolverReturn::Success,
            x: ns(&[x]),
            z_l: vec![],
            z_u: vec![],
            lambda: vec![],
            g: vec![],
            objective: Some(n(x)),
            n: 1,
            m: 0,
        },
        true,
    );
}

#[test]
fn a_success_is_reported_at_once() {
    let mut app = IpoptApplication::new();
    let d = SolveDriver::start(&app, facts(1));
    assert_eq!(d.action(), Action::Run);
    attempt(&mut app, 1.0, 1e-9);
    let step = d.run_ended(&mut app, ApplicationReturnStatus::SolveSucceeded);
    assert_eq!(step.driver.action(), Action::Report(ApplicationReturnStatus::SolveSucceeded));
    assert!(step.replays.is_empty() && step.report.is_none());
    assert!(!app.answer_restored_from_floor());
}

#[test]
fn a_losing_flip_puts_the_first_answer_back() {
    let mut app = IpoptApplication::new();
    app.options_mut().set_string_value("dual_divergence_retry", "no");
    let d = SolveDriver::start(&app, facts(1));
    attempt(&mut app, 1.0, 1e-5);
    let step = d.run_ended(&mut app, ApplicationReturnStatus::MaximumIterationsExceeded);
    assert_eq!(step.driver.action(), Action::Run);
    assert_eq!(app.options().set_text("mu_strategy").as_deref(), Some("adaptive"));
    attempt(&mut app, 2.0, 1e-3);
    let step = step.driver.run_ended(&mut app, ApplicationReturnStatus::RestorationFailed);
    assert_eq!(
        step.driver.action(),
        Action::Report(ApplicationReturnStatus::MaximumIterationsExceeded)
    );
    assert_eq!(step.replays.len(), 1);
    assert_eq!(step.replays[0].solution.x, ns(&[1.0]));
    assert_eq!(f(app.statistics().final_objective), 1.0);
    assert_eq!(f(app.statistics().final_unscaled_kkt_error), 1e-5);
    assert_eq!(app.statistics().iteration_count, 20, "both attempts were paid for");
    assert!(app.answer_restored_from_floor());
    assert_eq!(app.options().set_text("mu_strategy").as_deref(), Some("monotone"));
    assert!(!app.effective_mu_strategy_is_adaptive());
}

#[test]
fn a_winning_flip_is_reported() {
    let mut app = IpoptApplication::new();
    let d = SolveDriver::start(&app, facts(1));
    attempt(&mut app, 1.0, 1e-5);
    let step = d.run_ended(&mut app, ApplicationReturnStatus::SolvedToAcceptableLevel);
    attempt(&mut app, 2.0, 1e-9);
    let step = step.driver.run_ended(&mut app, ApplicationReturnStatus::SolveSucceeded);
    assert_eq!(step.driver.action(), Action::Report(ApplicationReturnStatus::SolveSucceeded));
    assert!(step.replays.is_empty());
    assert_eq!(f(app.statistics().final_objective), 2.0);
    assert!(!app.answer_restored_from_floor());
}

#[test]
fn no_flip_is_spent_where_it_is_not_due() {
    // A termination policy of the caller's own.
    let mut app = IpoptApplication::new();
    app.options_mut().set_numeric_value("acceptable_tol", n(1e-5));
    let d = SolveDriver::start(&app, facts(1));
    let step = d.run_ended(&mut app, ApplicationReturnStatus::SolvedToAcceptableLevel);
    assert_eq!(
        step.driver.action(),
        Action::Report(ApplicationReturnStatus::SolvedToAcceptableLevel)
    );
    // The same, where the retry was asked for.
    app.options_mut().set_string_value("mu_strategy_fallback", "yes");
    let d = SolveDriver::start(&app, facts(1));
    let step = d.run_ended(&mut app, ApplicationReturnStatus::SolvedToAcceptableLevel);
    assert_eq!(step.driver.action(), Action::Run);

    // A factorization that escalated has a retry of its own.
    let mut app = IpoptApplication::new();
    app.count_quality_escalation();
    let d = SolveDriver::start(&app, facts(1));
    let step = d.run_ended(&mut app, ApplicationReturnStatus::MaximumIterationsExceeded);
    assert_eq!(
        step.driver.action(),
        Action::Report(ApplicationReturnStatus::MaximumIterationsExceeded)
    );
    app.options_mut().set_string_value("feral_increase_quality_retry", "no");
    let d = SolveDriver::start(&app, facts(1));
    let step = d.run_ended(&mut app, ApplicationReturnStatus::MaximumIterationsExceeded);
    assert_eq!(step.driver.action(), Action::Run);

    // Any other ending.
    let mut app = IpoptApplication::new();
    let d = SolveDriver::start(&app, facts(1));
    let step = d.run_ended(&mut app, ApplicationReturnStatus::DivergingIterates);
    assert_eq!(step.driver.action(), Action::Report(ApplicationReturnStatus::DivergingIterates));
}

fn guarded_app() -> IpoptApplication {
    let mut app = IpoptApplication::new();
    app.options_mut().set_string_value("mu_strategy_fallback", "no");
    app
}

#[test]
fn runaway_multipliers_call_for_another_solve() {
    let mut app = guarded_app();
    let d = SolveDriver::start(&app, facts(1));
    attempt(&mut app, 1.0, 7.9e4);
    app.dual_divergence_signature = true;
    let step = d.run_ended(&mut app, ApplicationReturnStatus::SolvedToAcceptableLevel);
    assert_eq!(step.driver.action(), Action::Run);
    assert_eq!(app.options().set_text("perturb_always_cd").as_deref(), Some("yes"));
    attempt(&mut app, 1.0, 1e-9);
    let step = step.driver.run_ended(&mut app, ApplicationReturnStatus::SolveSucceeded);
    assert_eq!(step.driver.action(), Action::Report(ApplicationReturnStatus::SolveSucceeded));
    let report = step.report.unwrap();
    assert_eq!(report.verdict, RetryVerdict::Promoted);
    assert_eq!((f(report.base_kkt_error), f(report.retry_kkt_error)), (7.9e4, 1e-9));
    assert!(app.dual_divergence_retry_promoted);
    assert!(app.statistics().dual_divergence_retry_promoted);
    assert_eq!(app.options().set_text("perturb_always_cd").as_deref(), Some("no"));
}

#[test]
fn a_worse_answer_is_refused_and_undone() {
    let mut app = guarded_app();
    app.options_mut().set_string_value("perturb_always_cd", "maybe");
    let d = SolveDriver::start(&app, facts(1));
    attempt(&mut app, 1.0, 7.9e4);
    app.dual_divergence_signature = true;
    let step = d.run_ended(&mut app, ApplicationReturnStatus::RestorationFailed);
    attempt(&mut app, 2.0, 1e-9);
    let step = step.driver.run_ended(&mut app, ApplicationReturnStatus::SolveSucceeded);
    assert_eq!(step.driver.action(), Action::Report(ApplicationReturnStatus::RestorationFailed));
    assert_eq!(step.report.unwrap().verdict, RetryVerdict::AnswerRefused);
    assert_eq!(step.replays[0].solution.x, ns(&[1.0]));
    assert_eq!(f(app.statistics().final_objective), 1.0);
    assert!(app.statistics().dual_divergence_signature);
    assert!(!app.statistics().dual_divergence_retry_promoted);
    assert_eq!(app.options().set_text("perturb_always_cd").as_deref(), Some("maybe"));
}

#[test]
fn a_poor_certificate_is_declined() {
    let mut app = guarded_app();
    let d = SolveDriver::start(&app, facts(1));
    attempt(&mut app, 1.0, 7.9e4);
    app.dual_divergence_signature = true;
    let step = d.run_ended(&mut app, ApplicationReturnStatus::SolvedToAcceptableLevel);
    attempt(&mut app, 1.0, 1e-3);
    let step = step.driver.run_ended(&mut app, ApplicationReturnStatus::SolveSucceeded);
    assert_eq!(
        step.driver.action(),
        Action::Report(ApplicationReturnStatus::SolvedToAcceptableLevel)
    );
    assert_eq!(step.report.unwrap().verdict, RetryVerdict::Declined);
    assert_eq!(f(app.statistics().final_unscaled_kkt_error), 7.9e4);
}

#[test]
fn both_retries_compose() {
    let mut app = IpoptApplication::new();
    let d = SolveDriver::start(&app, facts(1));
    attempt(&mut app, 1.0, 7.9e4);
    app.dual_divergence_signature = true;
    let step = d.run_ended(&mut app, ApplicationReturnStatus::SolvedToAcceptableLevel);
    attempt(&mut app, 5.0, 1.0);
    let step = step.driver.run_ended(&mut app, ApplicationReturnStatus::RestorationFailed);
    assert_eq!(step.replays.len(), 1, "the flip lost");
    assert_eq!(step.driver.action(), Action::Run, "the multipliers still ran away");
    attempt(&mut app, 1.0, 1e-7);
    let step = step.driver.run_ended(&mut app, ApplicationReturnStatus::DivergingIterates);
    assert_eq!(
        step.driver.action(),
        Action::Report(ApplicationReturnStatus::SolvedToAcceptableLevel)
    );
    assert_eq!(step.replays[0].solution.x, ns(&[1.0]));
    assert_eq!(step.report.unwrap().retry_status, ApplicationReturnStatus::DivergingIterates);
}

#[test]
fn the_penalty_is_tried_after_a_failure_and_then_switched_off() {
    let mut app = IpoptApplication::new();
    app.options_mut().set_string_value("l1_fallback_on_restoration_failure", "yes");
    for (retry, reported) in [
        (
            Some(ApplicationReturnStatus::SolveSucceeded),
            ApplicationReturnStatus::SolveSucceeded,
        ),
        (
            Some(ApplicationReturnStatus::SolvedToAcceptableLevel),
            ApplicationReturnStatus::RestorationFailed,
        ),
        (None, ApplicationReturnStatus::RestorationFailed),
    ] {
        assert_eq!(app.route(facts(1)), Route::L1Fallback);
        let d = SolveDriver::start(&app, facts(1));
        let step = d.run_ended(&mut app, ApplicationReturnStatus::RestorationFailed);
        assert_eq!(step.driver.action(), Action::RunPenalty);
        assert!(app.is_l1_penalty_enabled());
        let d = step.driver.penalty_ended(&mut app, retry);
        assert_eq!(d.action(), Action::Report(reported));
        assert!(!app.is_l1_penalty_enabled());
    }
    let d = SolveDriver::start(&app, facts(1));
    let step = d.run_ended(&mut app, ApplicationReturnStatus::SolveSucceeded);
    assert_eq!(step.driver.action(), Action::Report(ApplicationReturnStatus::SolveSucceeded));
}

#[test]
fn a_chosen_penalty_runs_first() {
    let mut app = IpoptApplication::new();
    app.options_mut().set_string_value("l1_exact_penalty_barrier", "yes");
    let d = SolveDriver::start(&app, facts(2));
    assert_eq!(d.action(), Action::RunPenalty);
    let d = d.penalty_ended(&mut app, Some(ApplicationReturnStatus::InfeasibleProblemDetected));
    assert_eq!(d.action(), Action::Report(ApplicationReturnStatus::InfeasibleProblemDetected));
    let d = SolveDriver::start(&app, facts(2)).penalty_ended(&mut app, None);
    assert_eq!(d.action(), Action::Run, "nothing to penalize");
    assert_eq!(SolveDriver::start(&app, facts(0)).action(), Action::Run);
}

#[test]
fn routes_follow_the_model_and_the_options() {
    let mut app = IpoptApplication::new();
    assert_eq!(app.route(None), Route::InvalidProblem);
    assert_eq!(
        app.route(None).immediate_status(),
        Some(ApplicationReturnStatus::InvalidProblemDefinition)
    );
    let proved = Some(ModelFacts { m: 3, proved_infeasible: true });
    assert_eq!(app.route(proved), Route::ProvedInfeasible);
    assert_eq!(
        SolveDriver::start(&app, proved).action(),
        Action::Report(ApplicationReturnStatus::InfeasibleProblemDetected)
    );
    assert_eq!(app.route(facts(3)), Route::DualDivergenceRetry);
    app.options_mut().set_string_value("dual_divergence_retry", "no");
    assert_eq!(app.route(facts(3)), Route::Standard);
    assert_eq!(Route::Standard.immediate_status(), None);
    app.options_mut().set_string_value("solver_selection", "QP-Active-Set");
    assert_eq!(app.route(None), Route::Sqp);
    let d = SolveDriver::start(&app, None);
    assert_eq!(d.action(), Action::RunSqp);
    let d = d.sqp_ended(ApplicationReturnStatus::SolveSucceeded);
    assert_eq!(d.action(), Action::Report(ApplicationReturnStatus::SolveSucceeded));
}

#[test]
fn every_refusal_has_its_reason() {
    let app = IpoptApplication::new();
    assert!(app.refusal(false, false, false, &defaults()).is_none());
    assert!(matches!(app.refusal(true, true, true, &defaults()), Some(Refusal::ScalingFactors)));
    assert!(matches!(app.refusal(false, true, true, &defaults()), Some(Refusal::UnimplementedOption)));
    let r = app.refusal(false, false, true, &defaults()).unwrap();
    assert!(matches!(r, Refusal::UnimplementedValue));
    assert_eq!(r.status(), ApplicationReturnStatus::InvalidOption);

    for (value, name) in [("LP-IPM", "lp-ipm"), ("qp-ipm", "qp-ipm"), ("SOCP", "socp")] {
        let mut app = IpoptApplication::new();
        app.options_mut().set_string_value("solver_selection", value);
        assert_eq!(app.unsupported_library_solver_selection(), Some(name));
        assert!(matches!(
            app.refusal(false, false, false, &defaults()),
            Some(Refusal::SolverSelection(got)) if got == name
        ));
    }
    assert_eq!(
        unsupported_selection_message("socp"),
        "pounce: solver_selection=socp routing is only available through the pounce CLI (.nl \
         input); library consumers can use qp-active-set, nlp, or auto.\n"
    );

    let mut app = IpoptApplication::new();
    app.options_mut().set_string_value("linear_solver", "mumps");
    assert_eq!(app.unimplemented_linear_solver().as_deref(), Some("mumps"));
    assert!(matches!(app.refusal(false, true, false, &defaults()), Some(Refusal::LinearSolver(_))));
    let msg = IpoptApplication::unimplemented_linear_solver_message("mumps");
    assert!(msg.starts_with("pounce: linear_solver=mumps is not implemented. pounce provides"));
    assert!(msg.ends_with("Use linear_solver=feral or linear_solver=ma57."));
    app.options_mut().set_string_value("linear_solver", "FERAL");
    assert_eq!(app.unimplemented_linear_solver(), None);
}

fn defaults() -> ConvexDefaults {
    let text = |t: &str| OptionValue::Text(t.to_string());
    ConvexDefaults {
        qp_presolve: text("yes"),
        qp_tau: OptionValue::Numeric(n(0.5)),
        qp_tau_max: OptionValue::Numeric(n(0.875)),
        qp_reg: OptionValue::Numeric(n(1e-8)),
        qp_gondzio_corr: OptionValue::Integer(2),
        qp_infeas_tol: OptionValue::Numeric(n(1e-8)),
        qp_hsde: text("no"),
        qp_equilibrate: text("yes"),
        qp_crossover: text("no"),
    }
}

#[test]
fn settings_that_configure_nothing_are_refused() {
    let mut app = IpoptApplication::new();
    app.options_mut().register_default("option_file_name", OptionValue::Text(String::new()));
    app.options_mut().set_string_value("option_file_name", "my.opt");
    let msg = app.unhonored_option_file_name().unwrap();
    assert!(msg.starts_with("pounce: `option_file_name` was set to `my.opt`, but"));
    assert!(matches!(app.refusal(false, false, false, &defaults()), Some(Refusal::OptionFileName(_))));
    app.choose_option_file(None, false, false, false).unwrap();
    assert_eq!(app.unhonored_option_file_name(), None);

    let mut app = IpoptApplication::new();
    app.options_mut().set_numeric_value("qp_tau", n(0.5));
    app.options_mut().set_string_value("qp_hsde", "no");
    app.options_mut().set_integer_value("qp_gondzio_corr", 2);
    assert_eq!(app.unhonored_convex_option(&defaults()), None, "its own default asks for nothing");
    app.options_mut().set_numeric_value("qp_tau", n(0.75));
    assert!(app.unhonored_convex_option(&defaults()).unwrap().starts_with("pounce: `qp_tau` tunes"));
    assert!(matches!(app.refusal(false, false, false, &defaults()), Some(Refusal::ConvexOption(_))));
    app.options_mut().set_string_value("qp_presolve", "no");
    let msg = app.unhonored_convex_option(&defaults()).unwrap();
    assert!(msg.starts_with("pounce: `qp_presolve` tunes"), "the first of them");
    app.set_convex_routing_available(true);
    assert_eq!(app.unhonored_convex_option(&defaults()), None);
}

#[test]
fn a_pivot_ceiling_below_its_start_is_refused() {
    let mut app = IpoptApplication::new();
    assert_eq!(app.ma57_pivtol_bracket_refusal(), None);
    app.options_mut().set_numeric_value("ma57_pivtolmax", n(1e-9));
    let b = app.ma57_pivtol_bracket_refusal().unwrap();
    assert_eq!((b.resto, f(b.pivtolmax), f(b.pivtol)), (false, 1e-9, 1e-8));
    assert!(matches!(app.refusal(false, false, false, &defaults()), Some(Refusal::Ma57Bracket(_))));
    app.options_mut().set_numeric_value("ma57_pivtol", n(1e-9));
    assert_eq!(app.ma57_pivtol_bracket_refusal(), None);
    app.options_mut().set_numeric_value("resto.ma57_pivtol", n(1e-3));
    let b = app.ma57_pivtol_bracket_refusal().unwrap();
    assert_eq!((b.resto, f(b.pivtolmax), f(b.pivtol)), (true, 1e-9, 1e-3));
}

#[test]
fn backend_warnings_come_once() {
    let mut app = IpoptApplication::new();
    let w = || vec!["one".to_string()];
    assert_eq!(app.take_unimplemented_backend_warnings(w()), w());
    assert!(app.take_unimplemented_backend_warnings(w()).is_empty());
}

#[test]
fn penalties_grow_geometrically_or_with_the_multipliers() {
    let mut app = IpoptApplication::new();
    app.options_mut().set_numeric_value("l1_penalty_max", n(1e3));
    let s = l1_settings(app.options());
    assert_eq!(
        (f(s.rho_init), f(s.rho_max), f(s.factor), f(s.tau), f(s.slack_tol), s.max_outer),
        (1.0, 1e3, 8.0, 10.0, 1e-6, 8)
    );
    let point = |feasible| InnerPoint { slack_sum: n(1.0), y_eq_inf: n(0.5), feasible };
    let ok = ApplicationReturnStatus::SolveSucceeded;
    let mut l = L1Loop::new(s);
    assert!(l.step(ok, Some(point(Some(false)))));
    assert_eq!(f(l.rho), 8.0);
    let steep = InnerPoint { y_eq_inf: n(50.0), ..point(None) };
    assert!(l.step(ok, Some(steep)));
    assert_eq!(f(l.rho), 500.0 + 1e-12);
    assert!(l.step(ok, Some(point(Some(false)))));
    assert_eq!(f(l.rho), 1e3);
    assert!(!l.step(ok, Some(point(Some(false)))), "at the cap");
    assert_eq!((l.solves, l.last_status), (4, ok));
}

#[test]
fn the_outer_loop_stops_where_it_must() {
    let app = IpoptApplication::new();
    let s = l1_settings(app.options());
    let ok = ApplicationReturnStatus::SolvedToAcceptableLevel;
    let point = InnerPoint { slack_sum: n(1.0), y_eq_inf: n(0.0), feasible: Some(false) };
    let ends = |status, p| !L1Loop::new(s).step(status, p);
    assert!(ends(ok, None), "no solution");
    assert!(ends(ApplicationReturnStatus::RestorationFailed, Some(point)));
    assert!(ends(ok, Some(InnerPoint { feasible: Some(true), ..point })));
    assert!(ends(ok, Some(InnerPoint { feasible: None, slack_sum: n(1e-6), ..point })));
    assert!(!ends(ok, Some(InnerPoint { feasible: None, slack_sum: n(f64::NAN), ..point })));
    assert!(!ends(ok, Some(point)));

    let mut app = IpoptApplication::new();
    app.options_mut().set_integer_value("l1_penalty_max_outer_iter", 0);
    app.options_mut().set_numeric_value("l1_penalty_increase_factor", n(0.5));
    app.options_mut().set_numeric_value("l1_penalty_init", n(1e7));
    let s = l1_settings(app.options());
    assert_eq!((s.max_outer, f(s.factor), f(s.rho_max)), (1, 1.0, 1e7));
    assert!(!L1Loop::new(s).step(ok, Some(point)));
}

#[test]
fn the_outer_loop_spends_no_more_than_its_budget() {
    let mut app = IpoptApplication::new();
    app.options_mut().set_integer_value("l1_penalty_max_outer_iter", 3);
    app.options_mut().set_numeric_value("l1_penalty_max", n(1e300));
    let mut l = L1Loop::new(l1_settings(app.options()));
    let point = InnerPoint { slack_sum: n(1.0), y_eq_inf: n(0.0), feasible: Some(false) };
    let ok = ApplicationReturnStatus::SolveSucceeded;
    assert!(l.step(ok, Some(point)));
    assert!(l.step(ok, Some(point)));
    assert!(!l.step(ok, Some(point)));
    assert_eq!(l.solves, 3);
}

fn ended(last_status: ApplicationReturnStatus) -> L1Loop {
    let app = IpoptApplication::new();
    L1Loop { last_status, ..L1Loop::new(l1_settings(app.options())) }
}

fn found(feas: Option<OriginalSpaceFeasibility>) -> L1Point {
    L1Point {
        solver_status: Some(SolverReturn::Success),
        feas,
        slack_sum: n(1.0),
        presolve_proof: false,
        start_is_feasible: false,
    }
}

fn judged(max_violation: f64, tol: bool, acceptable: bool) -> Option<OriginalSpaceFeasibility> {
    Some(OriginalSpaceFeasibility {
        max_violation: n(max_violation),
        negligible_at_tol: tol,
        negligible_at_acceptable: acceptable,
    })
}

#[test]
fn the_penalty_is_judged_on_the_model_itself() {
    let mut app = IpoptApplication::new();
    let l = ended(ApplicationReturnStatus::SolveSucceeded);
    let verdict = |status, deliver| L1Verdict { status, deliver: Some(deliver) };
    assert_eq!(
        app.conclude_l1_penalty(&l, &Some(found(judged(1e-12, true, true)))),
        verdict(ApplicationReturnStatus::SolveSucceeded, SolverReturn::Success)
    );
    assert_eq!(
        app.conclude_l1_penalty(&l, &Some(found(judged(1e-5, false, true)))),
        verdict(
            ApplicationReturnStatus::SolvedToAcceptableLevel,
            SolverReturn::StopAtAcceptablePoint
        )
    );
    let infeasible = verdict(
        ApplicationReturnStatus::InfeasibleProblemDetected,
        SolverReturn::LocalInfeasibility,
    );
    let violated = Some(found(judged(1.0, false, false)));
    assert!(claims_infeasible(&l, &violated));
    assert_eq!(app.conclude_l1_penalty(&l, &violated), infeasible);
    assert_eq!(app.conclude_l1_penalty(&l, &Some(found(None))), infeasible, "by its slacks");
    let broken = verdict(
        ApplicationReturnStatus::ErrorInStepComputation,
        SolverReturn::ErrorInStepComputation,
    );
    let refuted = L1Point { start_is_feasible: true, ..found(None) };
    assert_eq!(app.conclude_l1_penalty(&l, &Some(refuted)), broken);
    let proved = L1Point { presolve_proof: true, ..refuted };
    assert_eq!(app.conclude_l1_penalty(&l, &Some(proved)), infeasible);
    let failed = ended(ApplicationReturnStatus::RestorationFailed);
    let p = L1Point {
        solver_status: Some(SolverReturn::RestorationFailure),
        ..found(judged(1.0, false, false))
    };
    assert_eq!(
        app.conclude_l1_penalty(&failed, &Some(p)),
        verdict(ApplicationReturnStatus::RestorationFailed, SolverReturn::RestorationFailure)
    );
    let silent = L1Point { solver_status: None, ..p };
    assert_eq!(
        app.conclude_l1_penalty(&failed, &Some(silent)),
        verdict(ApplicationReturnStatus::RestorationFailed, SolverReturn::InternalError)
    );
}

#[test]
fn a_penalty_without_a_point_passes_its_last_status_on() {
    let mut app = IpoptApplication::new();
    let mut l = L1Loop::begin(l1_settings(app.options()), Some(1)).unwrap();
    assert!(!l.step(ApplicationReturnStatus::SolveSucceeded, None));
    assert!(!claims_infeasible(&l, &None));
    assert_eq!(
        app.conclude_l1_penalty(&l, &None),
        L1Verdict { status: ApplicationReturnStatus::SolveSucceeded, deliver: None }
    );
    assert!(app.statistics().final_unscaled_constr_viol.is_nan(), "nothing was measured");
}

#[test]
fn a_penalty_without_equality_rows_does_nothing() {
    let mut app = IpoptApplication::new();
    let s = l1_settings(app.options());
    assert_eq!(L1Loop::begin(s, None), None, "the model could not be relaxed");
    assert_eq!(L1Loop::begin(s, Some(0)), None);
    assert_eq!(L1Loop::begin(s, Some(2)), Some(L1Loop::new(s)));

    app.options_mut().set_string_value("l1_exact_penalty_barrier", "yes");
    let d = SolveDriver::start(&app, facts(3));
    assert_eq!(d.action(), Action::RunPenalty);
    assert_eq!(d.penalty_ended(&mut app, None).action(), Action::Run, "solved without it");
}

#[test]
fn the_point_of_a_penalty_is_delivered_as_it_stands() {
    let delivery = |objective| Delivery {
        status: SolverReturn::Success,
        x: ns(&[1.0, 2.0]),
        z_l: vec![],
        z_u: ns(&[3.0, 4.0]),
        lambda: ns(&[6.0]),
        g: ns(&[5.0]),
        objective,
        n: 2,
        m: 1,
    };
    let s = l1_delivery(delivery(Some(n(9.0))));
    assert_eq!((s.status, f(s.obj_value)), (SolverReturn::Success, 9.0));
    assert_eq!((s.x, s.z_l, s.z_u), (ns(&[1.0, 2.0]), vec![], ns(&[3.0, 4.0])));
    assert_eq!((s.g, s.lambda), (ns(&[5.0]), ns(&[6.0])));
    assert!(l1_delivery(delivery(None)).obj_value.is_nan());
}

#[test]
fn a_violation_is_mirrored_only_where_no_row_was_scaled() {
    for (active, scaled) in [(None, 1e-9), (Some(true), 1e-9), (Some(false), 0.5)] {
        let mut app = IpoptApplication::new();
        app.row_scaling_active = active;
        app.statistics.final_constr_viol = n(1e-9);
        app.statistics.final_kkt_error = n(1e-9);
        app.statistics.final_unscaled_kkt_error = n(1e-9);
        let l = ended(ApplicationReturnStatus::SolveSucceeded);
        app.conclude_l1_penalty(&l, &Some(found(judged(0.5, false, false))));
        let s = app.statistics();
        assert_eq!(f(s.final_unscaled_constr_viol), 0.5);
        assert_eq!(f(s.final_unscaled_kkt_error), 0.5);
        assert_eq!(f(s.final_constr_viol), scaled, "{active:?}");
        assert_eq!(f(s.final_kkt_error), scaled, "{active:?}");
    }
}

fn row_at(g: f64, target: f64) -> Option<OriginalSpaceFeasibility> {
    let bounds = ModelBounds {
        x_l: ns(&[-1e19]),
        x_u: ns(&[1e19]),
        g_l: ns(&[target]),
        g_u: ns(&[target]),
    };
    let app = IpoptApplication::new();
    original_space_feasibility(&bounds, &ns(&[3.0]), &ns(&[g]), &app.feasibility_standards())
}

#[test]
fn feasibility_is_absolute_and_relative() {
    let at = |g, target| {
        let r = row_at(g, target).unwrap();
        (f(r.max_violation), r.negligible_at_tol, r.negligible_at_acceptable)
    };
    assert_eq!(at(2.0, 2.0), (0.0, true, true));
    assert_eq!(at(1.0 + 5e-7, 1.0), ((1.0 + 5e-7) - 1.0, false, true));
    assert_eq!(at(2.0, 1.0), (1.0, false, false));
    assert_eq!(at(1e10 + 50.0, 1e10), (50.0, false, false), "small for its row, but not small");
    let noise = (1e10 + 1e-5) - 1e10;
    assert_eq!(at(1e10 + 1e-5, 1e10), (noise, true, true), "the rounding error of its row");
    assert_eq!(row_at(f64::NAN, 1.0), None);
    assert_eq!(row_at(f64::INFINITY, 1.0), None);
    let short = ModelBounds { x_l: ns(&[0.0; 2]), x_u: ns(&[1.0; 2]), g_l: vec![], g_u: vec![] };
    let s = IpoptApplication::new().feasibility_standards();
    assert_eq!(original_space_feasibility(&short, &ns(&[0.5]), &vec![], &s), None);
    let r = original_space_feasibility(&short, &ns(&[0.5, 1.5]), &vec![], &s).unwrap();
    assert_eq!(f(r.max_violation), 0.5);
}

#[test]
fn looser_standards_keep_the_verdict() {
    let bounds = ModelBounds { x_l: vec![], x_u: vec![], g_l: ns(&[1.0]), g_u: ns(&[1.0]) };
    let judged = |s: &FeasibilityStandards| {
        let r = original_space_feasibility(&bounds, &vec![], &ns(&[1.0 + 5e-7]), s).unwrap();
        (f(r.max_violation), r.negligible_at_tol, r.negligible_at_acceptable)
    };
    let viol = (1.0 + 5e-7) - 1.0;
    let s = IpoptApplication::new().feasibility_standards();
    assert_eq!(judged(&s), (viol, false, true));
    let met = FeasibilityStandards { tol: n(5e-7), ..s };
    assert_eq!(judged(&met), (viol, true, true));
    for looser in [
        FeasibilityStandards { tol: n(f64::INFINITY), ..met },
        FeasibilityStandards { constr_viol_tol: n(1e3), ..met },
        FeasibilityStandards { noise_floor_kappa: n(f64::INFINITY), ..met },
    ] {
        assert_eq!(judged(&looser), (viol, true, true));
    }
    let none = FeasibilityStandards { constr_viol_tol: n(0.0), ..met };
    assert_eq!(judged(&none), (viol, false, true));
    let nan = FeasibilityStandards { noise_floor_kappa: n(f64::NAN), ..met };
    assert_eq!(judged(&nan), (viol, true, true));
    let still = FeasibilityStandards { tol: n(1e-3), ..nan };
    assert_eq!(judged(&still), (viol, true, true), "the factor stays the same");
    let noisy = FeasibilityStandards { noise_floor_kappa: n(1e10), ..none };
    assert_eq!(judged(&noisy), (viol, true, true));
}

#[test]
fn statuses_map_one_to_one() {
    let table = [
        (SolverReturn::Success, ApplicationReturnStatus::SolveSucceeded),
        (SolverReturn::StopAtAcceptablePoint, ApplicationReturnStatus::SolvedToAcceptableLevel),
        (SolverReturn::FeasiblePointFound, ApplicationReturnStatus::FeasiblePointFound),
        (SolverReturn::MaxiterExceeded, ApplicationReturnStatus::MaximumIterationsExceeded),
        (SolverReturn::CpuTimeExceeded, ApplicationReturnStatus::MaximumCpuTimeExceeded),
        (SolverReturn::WallTimeExceeded, ApplicationReturnStatus::MaximumWallTimeExceeded),
        (SolverReturn::StopAtTinyStep, ApplicationReturnStatus::SearchDirectionBecomesTooSmall),
        (SolverReturn::LocalInfeasibility, ApplicationReturnStatus::InfeasibleProblemDetected),
        (SolverReturn::UserRequestedStop, ApplicationReturnStatus::UserRequestedStop),
        (SolverReturn::DivergingIterates, ApplicationReturnStatus::DivergingIterates),
        (SolverReturn::RestorationFailure, ApplicationReturnStatus::RestorationFailed),
        (SolverReturn::ErrorInStepComputation, ApplicationReturnStatus::ErrorInStepComputation),
        (SolverReturn::InvalidNumberDetected, ApplicationReturnStatus::InvalidNumberDetected),
        (SolverReturn::TooFewDegreesOfFreedom, ApplicationReturnStatus::NotEnoughDegreesOfFreedom),
        (SolverReturn::InvalidProblemDefinition, ApplicationReturnStatus::InvalidProblemDefinition),
        (SolverReturn::InvalidOption, ApplicationReturnStatus::InvalidOption),
        (SolverReturn::OutOfMemory, ApplicationReturnStatus::InsufficientMemory),
        (SolverReturn::InternalError, ApplicationReturnStatus::InternalError),
        (SolverReturn::Unassigned, ApplicationReturnStatus::InternalError),
    ];
    for (solver, app) in table {
        assert_eq!(solver_return_to_app_status(solver), app);
        let kept = withdraw_infeasibility_if_refuted(solver, false, true);
        if solver == SolverReturn::LocalInfeasibility {
            assert_eq!(kept, SolverReturn::ErrorInStepComputation);
        } else {
            assert_eq!(kept, solver);
        }
    }
    assert!(is_solution_status(ApplicationReturnStatus::SolvedToAcceptableLevel));
    assert!(!is_solution_status(ApplicationReturnStatus::FeasiblePointFound));
    assert!(is_l1_fallback_trigger(ApplicationReturnStatus::NotEnoughDegreesOfFreedom));
    assert!(!is_l1_fallback_trigger(ApplicationReturnStatus::DivergingIterates));
}

#[test]
fn journals_have_their_levels() {
    assert_eq!(journal_level_from_int(-4), JournalLevel::J_NONE);
    assert_eq!(journal_level_from_int(5), JournalLevel::J_ITERSUMMARY);
    assert_eq!(journal_level_from_int(99), JournalLevel::J_ALL);

    let mut app = IpoptApplication::new();
    assert!(app.output_file_journal().is_none());
    let j = app.open_output_file("out.txt", 7, true, true).unwrap();
    assert_eq!((j.name.as_str(), j.file.as_str()), ("OutputFile:out.txt", "out.txt"));
    assert_eq!((j.level, j.append), (JournalLevel::J_MOREDETAILED, false));
    assert!(app.open_output_file("no.txt", 99, false, false).is_none());
    assert!(app.open_output_file("no.txt", 3, false, true).is_none());
    assert_eq!(app.options().set_text("output_file").as_deref(), Some("out.txt"));
    assert_eq!(app.options().set_integer("file_print_level"), Some(7));
    assert!(app.open_output_file("out2.txt", 99, true, false).is_none());
    assert_eq!(app.options().set_text("output_file").as_deref(), Some("out2.txt"));
    assert_eq!(app.options().set_integer("file_print_level"), Some(7));
    app.options_mut().set_string_value("file_append", "yes");
    let j = app.output_file_journal().unwrap();
    assert_eq!((j.level, j.append), (JournalLevel::J_MOREDETAILED, true));
    app.options_mut().set_string_value("output_file", "");
    assert!(app.output_file_journal().is_none());
}

#[test]
fn options_files_are_chosen_in_order() {
    let mut app = IpoptApplication::new();
    let l = app.choose_option_file(None, false, false, false).unwrap();
    assert_eq!((l.path, l.explicit), (None, false));
    let l = app.choose_option_file(None, false, false, true).unwrap();
    assert_eq!(l.path.as_deref(), Some("ipopt.opt"));
    let l = app.choose_option_file(None, false, true, true).unwrap();
    assert_eq!(l.path.as_deref(), Some("pounce.opt"));
    assert_eq!(
        l.warnings,
        vec![
            "`pounce.opt` and `ipopt.opt` are both present; reading `pounce.opt` only (pounce's \
             own name wins). Pass `option_file_name=ipopt.opt` to read that one instead."
        ]
    );
    let mut l = app.choose_option_file(Some("a.opt"), true, true, true).unwrap();
    assert_eq!((l.path.as_deref(), l.explicit), (Some("a.opt"), true));
    let why = app.choose_option_file(Some("b.opt"), false, true, true).unwrap_err();
    assert!(why.starts_with("options file \"b.opt\" does not exist. It was named by"));

    app.note_chained_option_file(&mut l, false);
    assert!(l.warnings.is_empty());
    app.options_mut().set_string_value("option_file_name", "c.opt");
    app.note_chained_option_file(&mut l, true);
    assert!(l.warnings.is_empty());
    app.note_chained_option_file(&mut l, false);
    assert_eq!(
        l.warnings,
        vec![
            "`a.opt` sets option_file_name to `c.opt`, which has no effect: the options file is \
             chosen before it is read. Pass `option_file_name=c.opt` on the command line to read \
             that file."
        ]
    );
}

#[test]
fn a_displacement_wins_over_a_warm_up() {
    let mut app = IpoptApplication::new();
    assert_eq!(app.start_conditioner(), None);
    app.options_mut().set_string_value("start_point_conditioner", "adam");
    app.options_mut().set_integer_value("adam_warmup_iters", -1);
    app.options_mut().set_numeric_value("adam_warmup_penalty", n(2.0));
    assert_eq!(
        app.start_conditioner(),
        Some(StartConditioner::Adam { iters: Some(0), lr: None, rho: Some(n(2.0)) })
    );
    app.options_mut().set_numeric_value("start_point_perturbation", n(0.25));
    app.options_mut().set_integer_value("start_point_perturbation_seed", 11);
    assert_eq!(
        app.start_conditioner(),
        Some(StartConditioner::Jitter { seed: 11, scale: n(0.25) })
    );
}

#[test]
fn presolve_is_suspended_for_one_solve() {
    let mut app = IpoptApplication::new();
    let before = app.suspend_presolve();
    assert!(app.presolve_already_applied);
    app.resume_presolve(before);
    assert!(!app.presolve_already_applied);
    app.set_presolve_already_applied(true);
    let before = app.suspend_presolve();
    app.resume_presolve(before);
    assert!(app.presolve_already_applied);
}

#[test]
fn options_remember_who_set_them() {
    let mut app = IpoptApplication::new();
    let o = app.options_mut();
    assert_eq!(o.get_numeric_value("tol"), None);
    o.register_default("tol", OptionValue::Numeric(n(1e-8)));
    assert_eq!(o.get_numeric_value("tol"), Some((n(1e-8), false)));
    assert_eq!(o.set_numeric("tol"), None);
    assert!(!o.is_set("tol") && !o.set_to_a_non_default("tol"));
    o.set_numeric_value("tol", n(1e-8));
    assert!(o.is_set("tol") && !o.set_to_a_non_default("tol"));
    o.set_numeric_value("tol", n(1e-9));
    assert_eq!(o.get_numeric_value("tol"), Some((n(1e-9), true)));
    assert!(o.set_to_a_non_default("tol"));
    assert_eq!(o.get_integer_value("tol"), None, "of another kind");
    let copy = o.duplicate();
    o.set_numeric_value("tol", n(1.0));
    assert_eq!(copy.get_numeric_value("tol"), Some((n(1e-9), true)));
    let d = app.documentation_request();
    assert!(d.is_none());
    app.options_mut().set_string_value("print_options_documentation", "yes");
    app.options_mut().set_string_value("print_options_mode", "latex");
    let d = app.documentation_request().unwrap();
    assert_eq!((d.mode.as_deref(), d.advanced), (Some("latex"), false));
}
