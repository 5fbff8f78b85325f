use pounce_algorithm::conv_check::opt_error::OptErrorConvCheck;
use pounce_algorithm::conv_check::opt_error::VETO_MAX_EXTRA_ITERS;
use pounce_algorithm::conv_check::Clock;
use pounce_algorithm::conv_check::ConvCheck;
use pounce_algorithm::conv_check::ConvergenceStatus;
use pounce_algorithm::conv_check::DeadlineKind;
use pounce_algorithm::conv_check::IterateState;
use pounce_algorithm::number::Number;

fn n(x: f64) -> Number {
    Number::from_bits(x.to_bits())
}

/// An iterate on its way, with nothing to stop at.
fn underway() -> IterateState {
    IterateState {
        dual_inf: n(1.0),
        constr_viol: n(1e-3),
        compl_inf: n(1e-3),
        curr_f: n(5.0),
        unscaled_err: n(1.0),
        obj_scale: n(1.0),
        stationarity: n(1.0),
        descent_available: false,
        clock: Clock::Elapsed { cpu: n(1.0), wall: n(1.0) },
    }
}

/// An iterate that meets every strict tolerance.
fn converged() -> IterateState {
    IterateState {
        dual_inf: n(1e-9),
        constr_viol: n(1e-9),
        compl_inf: n(1e-9),
        unscaled_err: n(1e-9),
        ..underway()
    }
}

/// The same, masked by an extreme objective scale.
fn masked() -> IterateState {
    IterateState { obj_scale: n(1e-8), unscaled_err: n(0.84), ..converged() }
}

#[test]
fn a_strict_certificate_converges() {
    let mut c = OptErrorConvCheck::new();
    assert_eq!(
        c.check_convergence_with_state(n(1.0), 0, &underway()),
        ConvergenceStatus::Continue
    );
    assert_eq!(
        c.check_convergence_with_state(n(1e-9), 1, &converged()),
        ConvergenceStatus::Converged
    );
    assert!(c.current_passes_strict(n(1e-9), &converged()));
    assert!(!c.current_passes_strict(n(1e-9), &underway()));
    assert!(c.current_is_acceptable(n(1e-7)));
    assert!(!c.current_is_acceptable(n(f64::NAN)));
    assert!(c.current_is_acceptable_with_state(n(1e-7), &converged()));
}

#[test]
fn a_masked_certificate_is_refused_for_a_while() {
    let mut c = OptErrorConvCheck::new();
    for k in 0..=VETO_MAX_EXTRA_ITERS {
        assert_eq!(
            c.check_convergence_with_state(n(1e-9), k, &masked()),
            ConvergenceStatus::Continue,
            "check {k}"
        );
    }
    assert!(c.certificate_vetoed());
    assert!(c.acceptable_certificate_vetoed(), "the streak was complete long ago");
    assert_eq!(
        c.check_convergence_with_state(n(1e-9), 61, &masked()),
        ConvergenceStatus::Converged,
        "the budget is spent"
    );
}

#[test]
fn the_veto_can_be_switched_off_and_needs_an_objective() {
    let mut c = OptErrorConvCheck {
        obj_scale_certificate_threshold: n(0.0),
        ..OptErrorConvCheck::new()
    };
    assert_eq!(
        c.check_convergence_with_state(n(1e-9), 0, &masked()),
        ConvergenceStatus::Converged
    );
    assert!(!c.certificate_vetoed());

    let mut c = OptErrorConvCheck::new();
    let state = IterateState { curr_f: n(f64::NAN), ..masked() };
    assert_eq!(c.check_convergence_with_state(n(1e-9), 0, &state), ConvergenceStatus::Converged);
    assert!(!c.certificate_vetoed());
}

#[test]
fn an_acceptable_stop_needs_its_streak() {
    let mut c = OptErrorConvCheck { acceptable_iter: 2, ..OptErrorConvCheck::new() };
    let near = IterateState { unscaled_err: n(1e-9), ..converged() };
    assert_eq!(c.check_convergence_with_state(n(1e-7), 0, &near), ConvergenceStatus::Continue);
    assert_eq!(c.check_convergence_with_state(n(1.0), 1, &near), ConvergenceStatus::Continue);
    assert_eq!(c.check_convergence_with_state(n(1e-7), 2, &near), ConvergenceStatus::Continue);
    assert_eq!(
        c.check_convergence_with_state(n(1e-7), 3, &near),
        ConvergenceStatus::ConvergedToAcceptable
    );
    let mut c = OptErrorConvCheck { acceptable_iter: 0, ..OptErrorConvCheck::new() };
    for k in 0..40 {
        assert_eq!(
            c.check_convergence_with_state(n(1e-7), k, &near),
            ConvergenceStatus::Continue
        );
    }
}

#[test]
fn an_infeasible_stationary_point_stops_the_run() {
    let stuck = IterateState { constr_viol: n(0.5), stationarity: n(1e-9), ..underway() };
    let mut c = OptErrorConvCheck { infeas_max_streak: 2, ..OptErrorConvCheck::new() };
    assert_eq!(c.check_convergence_with_state(n(1.0), 0, &stuck), ConvergenceStatus::Continue);
    let movable = IterateState { descent_available: true, ..stuck };
    assert_eq!(c.check_convergence_with_state(n(1.0), 1, &movable), ConvergenceStatus::Continue);
    assert_eq!(c.infeas_streak, 0, "a way down starts the streak anew");
    assert_eq!(c.check_convergence_with_state(n(1.0), 2, &stuck), ConvergenceStatus::Continue);
    assert_eq!(
        c.check_convergence_with_state(n(1.0), 3, &stuck),
        ConvergenceStatus::LocallyInfeasible
    );
    let mut c = OptErrorConvCheck { infeas_max_streak: 0, ..OptErrorConvCheck::new() };
    for k in 0..10 {
        assert_eq!(
            c.check_convergence_with_state(n(1.0), k, &stuck),
            ConvergenceStatus::Continue
        );
    }
}

#[test]
fn budgets_stop_the_run() {
    let mut c = OptErrorConvCheck {
        max_iter: 7,
        max_cpu_time: n(10.0),
        max_wall_time: n(20.0),
        ..OptErrorConvCheck::new()
    };
    let mut at = |iter: i32, clock: Clock| {
        c.check_convergence_with_state(n(1.0), iter, &IterateState { clock, ..underway() })
    };
    let elapsed = |cpu: f64, wall: f64| Clock::Elapsed { cpu: n(cpu), wall: n(wall) };
    assert_eq!(at(6, elapsed(9.0, 19.0)), ConvergenceStatus::Continue);
    assert_eq!(at(7, elapsed(99.0, 99.0)), ConvergenceStatus::MaxIterExceeded);
    assert_eq!(at(6, elapsed(10.0, 20.0)), ConvergenceStatus::CpuTimeExceeded);
    assert_eq!(at(6, elapsed(9.0, 20.0)), ConvergenceStatus::WallTimeExceeded);
    assert_eq!(at(6, Clock::Deadline(None)), ConvergenceStatus::Continue);
    assert_eq!(
        at(6, Clock::Deadline(Some(DeadlineKind::Cpu))),
        ConvergenceStatus::CpuTimeExceeded
    );
    assert_eq!(
        at(6, Clock::Deadline(Some(DeadlineKind::Wall))),
        ConvergenceStatus::WallTimeExceeded
    );
}

#[test]
fn tolerances_are_set_by_name() {
    let mut c = OptErrorConvCheck::new();
    let names = [
        "tol",
        "dual_inf_tol",
        "constr_viol_tol",
        "compl_inf_tol",
        "acceptable_tol",
        "acceptable_dual_inf_tol",
        "acceptable_constr_viol_tol",
        "acceptable_compl_inf_tol",
        "acceptable_obj_change_tol",
    ];
    for (k, name) in names.iter().enumerate() {
        assert!(c.set_tolerance(name, n(k as f64)), "{name}");
    }
    assert_eq!(
        [
            c.tol,
            c.dual_inf_tol,
            c.constr_viol_tol,
            c.compl_inf_tol,
            c.acceptable_tol,
            c.acceptable_dual_inf_tol,
            c.acceptable_constr_viol_tol,
            c.acceptable_compl_inf_tol,
            c.acceptable_obj_change_tol,
        ],
        [0, 1, 2, 3, 4, 5, 6, 7, 8].map(|k: i32| n(k as f64))
    );
    let before = c;
    assert!(!c.set_tolerance("max_iter", n(1.0)));
    assert_eq!(c, before);
    assert_eq!(c.tol_or_default(), n(0.0));
    assert_eq!(c.acceptable_constr_viol_tol_or_default(), n(6.0));
}

#[test]
fn checks_keep_the_tolerances_and_what_was_refused() {
    let mut c = OptErrorConvCheck::new();
    c.check_convergence_with_state(n(1e-9), 0, &masked());
    assert!(c.certificate_vetoed());
    c.check_convergence_with_state(n(1.0), 1, &underway());
    c.check_convergence_with_state(n(1.0), 2, &underway());
    assert!(c.certificate_vetoed(), "a refusal stays on record");
    let fresh = OptErrorConvCheck::new();
    assert_eq!((c.tol, c.acceptable_tol, c.max_iter), (fresh.tol, fresh.acceptable_tol, 3000));
    assert_eq!(c.obj_scale_certificate_threshold, fresh.obj_scale_certificate_threshold);
}
