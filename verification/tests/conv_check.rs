use pounce_algorithm::conv_check::opt_error::certificate_masked;
use pounce_algorithm::conv_check::opt_error::OptErrorConvCheck;
use pounce_algorithm::conv_check::ConvCheck;
use pounce_algorithm::conv_check::ConvergenceStatus;
use pounce_algorithm::number::Number;

fn n(x: f64) -> Number {
    Number::from_bits(x.to_bits())
}

#[test]
fn converges_at_tol() {
    let mut c = OptErrorConvCheck::new();
    assert_eq!(c.check_convergence(n(1e-9), 0), ConvergenceStatus::Converged);
}

#[test]
fn acceptable_iter_count_threshold() {
    let mut c = OptErrorConvCheck {
        acceptable_iter: 3,
        ..OptErrorConvCheck::new()
    };
    assert_eq!(c.check_convergence(n(1e-7), 0), ConvergenceStatus::Continue);
    assert_eq!(c.check_convergence(n(1e-7), 1), ConvergenceStatus::Continue);
    assert_eq!(
        c.check_convergence(n(1e-7), 2),
        ConvergenceStatus::ConvergedToAcceptable
    );
}

#[test]
fn acceptable_iter_zero_disables_acceptable_termination() {
    let mut c = OptErrorConvCheck {
        acceptable_iter: 0,
        ..OptErrorConvCheck::new()
    };
    for k in 0..50 {
        assert_eq!(
            c.check_convergence(n(1e-7), k),
            ConvergenceStatus::Continue,
            "acceptable_iter=0 must not stop at the acceptable level (iter {k})"
        );
    }
    assert_eq!(c.check_convergence(n(1e-9), 51), ConvergenceStatus::Converged);
}

#[test]
fn streak_resets_when_above_acceptable() {
    let mut c = OptErrorConvCheck {
        acceptable_iter: 3,
        ..OptErrorConvCheck::new()
    };
    assert_eq!(c.check_convergence(n(1e-7), 0), ConvergenceStatus::Continue);
    assert_eq!(c.check_convergence(n(1e-3), 1), ConvergenceStatus::Continue);
    assert_eq!(c.check_convergence(n(1e-7), 2), ConvergenceStatus::Continue);
    assert_eq!(c.check_convergence(n(1e-7), 3), ConvergenceStatus::Continue);
    assert_eq!(
        c.check_convergence(n(1e-7), 4),
        ConvergenceStatus::ConvergedToAcceptable
    );
}

#[test]
fn passes_acceptable_tols_gates_on_per_component_triplet() {
    let c = OptErrorConvCheck {
        acceptable_tol: n(1e-6),
        acceptable_dual_inf_tol: n(1e-3),
        acceptable_constr_viol_tol: n(1e-3),
        acceptable_compl_inf_tol: n(1e-3),
        ..OptErrorConvCheck::new()
    };
    assert!(c.passes_acceptable_tols(n(1e-7), n(1e-4), n(1e-4), n(1e-4), n(0.0)));
    assert!(!c.passes_acceptable_tols(n(1e-7), n(1.0), n(1e-4), n(1e-4), n(0.0)));
    assert!(!c.passes_acceptable_tols(n(1e-5), n(1e-4), n(1e-4), n(1e-4), n(0.0)));
}

#[test]
fn passes_acceptable_tols_honors_obj_change_tol() {
    let mut c = OptErrorConvCheck {
        acceptable_tol: n(1e-6),
        acceptable_dual_inf_tol: n(1.0),
        acceptable_constr_viol_tol: n(1.0),
        acceptable_compl_inf_tol: n(1.0),
        acceptable_obj_change_tol: n(0.1),
        ..OptErrorConvCheck::new()
    };
    assert!(c.passes_acceptable_tols(n(1e-7), n(0.0), n(0.0), n(0.0), n(10.0)));
    c.set_curr_acceptable_obj(n(10.0));
    assert!(c.passes_acceptable_tols(n(1e-7), n(0.0), n(0.0), n(0.0), n(10.0)));
    assert!(c.passes_acceptable_tols(n(1e-7), n(0.0), n(0.0), n(0.0), n(11.0)));
    assert!(!c.passes_acceptable_tols(n(1e-7), n(0.0), n(0.0), n(0.0), n(15.0)));
}


#[test]
fn set_curr_acceptable_obj_records_for_cross_check() {
    let mut c = OptErrorConvCheck::new();
    assert!(c.last_acceptable_obj.is_none());
    ConvCheck::set_curr_acceptable_obj(&mut c, n(4.2));
    assert_eq!(c.last_acceptable_obj, Some(n(4.2)));
}

#[test]
fn a_non_finite_objective_disqualifies_the_veto() {
    let c = OptErrorConvCheck {
        tol: n(1e-8),
        dual_inf_tol: n(1.0),
        constr_viol_tol: n(1e-4),
        compl_inf_tol: n(1e-4),
        ..OptErrorConvCheck::new()
    };
    assert!(c.passes_component_tols(n(1e-12), n(1e-9), n(0.0), n(0.0)));
    assert!(certificate_masked(
        n(1e-8),
        n(8.4e-1),
        c.obj_scale_certificate_threshold,
        c.acceptable_tol
    ));
    for bad in [f64::NAN, f64::INFINITY, f64::NEG_INFINITY] {
        assert!(!n(bad).is_finite(), "{bad} should disqualify the veto");
    }
    assert!(n(1.0).is_finite());
}

#[test]
fn acceptable_streak_survives_a_masked_boundary_mid_streak() {
    let mut c = OptErrorConvCheck {
        acceptable_iter: 15,
        ..OptErrorConvCheck::new()
    };
    for i in 0..14 {
        assert!(!c.note_acceptable(true, false), "terminated early at {i}");
    }
    assert!(
        !c.note_acceptable(true, true),
        "a masked iterate must not terminate the run"
    );
    assert!(
        c.acceptable_veto_fired,
        "the streak crossed `acceptable_iter` while masked, so a termination was \
         refused here and must be recorded — otherwise the fallback has nothing to \
         restore and the run returns a bare failure"
    );

    let mut c = OptErrorConvCheck {
        acceptable_iter: 15,
        ..OptErrorConvCheck::new()
    };
    for _ in 0..14 {
        assert!(!c.note_acceptable(true, true));
    }
    assert!(
        c.note_acceptable(true, false),
        "the veto lifted with the streak already at 14; the 15th qualifying iterate \
         must terminate exactly as it would without the mechanism"
    );

    let mut c = OptErrorConvCheck {
        acceptable_iter: 3,
        ..OptErrorConvCheck::new()
    };
    assert!(!c.note_acceptable(true, false));
    assert!(!c.note_acceptable(false, true));
    assert_eq!(
        c.acceptable_count, 0,
        "a non-qualifying iterate resets the streak"
    );
    assert!(!c.note_acceptable(true, false));
    assert!(!c.note_acceptable(true, false));
    assert!(
        c.note_acceptable(true, false),
        "3 consecutive qualifying iterates terminate"
    );
}

#[test]
fn certificate_masked_needs_both_an_extreme_scale_and_a_non_stationary_point() {
    let (th, atol) = (n(1e-4), n(1e-6));

    assert!(certificate_masked(n(1e-8), n(8.4e-1), th, atol));

    assert!(!certificate_masked(n(4e-2), n(8.4e-1), th, atol));
    assert!(!certificate_masked(n(1.0), n(1e3), th, atol));

    assert!(!certificate_masked(n(1e-8), n(1e-9), th, atol));

    assert!(!certificate_masked(th, n(1.0), th, atol));
    assert!(!certificate_masked(n(1e-8), atol, th, atol));

    assert!(!certificate_masked(n(1e-30), n(1e30), n(0.0), atol));
    assert!(!certificate_masked(n(1e-30), n(1e30), n(-1.0), atol));
}

#[test]
fn veto_blocks_both_strict_and_acceptable_termination() {
    let c = OptErrorConvCheck {
        tol: n(1e-8),
        acceptable_tol: n(1e-6),
        dual_inf_tol: n(1.0),
        constr_viol_tol: n(1e-4),
        compl_inf_tol: n(1e-4),
        ..OptErrorConvCheck::new()
    };
    assert!(c.passes_component_tols(n(1e-9), n(8.4e-1), n(0.0), n(0.0)));
    assert!(certificate_masked(
        n(1e-8),
        n(8.4e-1),
        c.obj_scale_certificate_threshold,
        c.acceptable_tol
    ));
    assert_eq!(c.obj_scale_certificate_threshold, n(1e-4));
    assert!(!c.veto_fired);
    assert!(!ConvCheck::certificate_vetoed(&c));
}

#[test]
fn passes_component_tols_requires_all_under_threshold() {
    let c = OptErrorConvCheck {
        tol: n(1e-8),
        dual_inf_tol: n(1.0),
        constr_viol_tol: n(1e-4),
        compl_inf_tol: n(1e-4),
        ..OptErrorConvCheck::new()
    };
    assert!(c.passes_component_tols(n(1e-9), n(0.5), n(1e-5), n(1e-5)));
    assert!(!c.passes_component_tols(n(1e-12), n(2.0), n(1e-5), n(1e-5)));
    assert!(!c.passes_component_tols(n(1e-12), n(0.0), n(0.0), n(1e-2)));
    assert!(!c.passes_component_tols(n(1e-12), n(0.0), n(1e-2), n(0.0)));
}

#[test]
fn infeasible_stationary_requires_violation_and_flat_gradient() {
    let c = OptErrorConvCheck {
        constr_viol_tol: n(1e-4),
        infeas_viol_kappa: n(1e2),
        infeas_stationarity_tol: n(1e-8),
        infeas_max_streak: 5,
        ..OptErrorConvCheck::new()
    };
    assert!(c.is_infeasible_stationary(n(1e-1), n(1e-9)));
    assert!(!c.is_infeasible_stationary(n(1e-1), n(1e-3)));
    assert!(!c.is_infeasible_stationary(n(1e-3), n(1e-9)));
}

#[test]
fn infeasible_stationary_disabled_by_nonpositive_knobs() {
    let off_tol = OptErrorConvCheck {
        infeas_stationarity_tol: n(0.0),
        infeas_max_streak: 5,
        ..OptErrorConvCheck::new()
    };
    assert!(!off_tol.is_infeasible_stationary(n(1e9), n(0.0)));
    let off_streak = OptErrorConvCheck {
        infeas_stationarity_tol: n(1e-8),
        infeas_max_streak: 0,
        ..OptErrorConvCheck::new()
    };
    assert!(!off_streak.is_infeasible_stationary(n(1e9), n(0.0)));
}

#[test]
fn infeasible_stationary_streak_fires_only_after_max_streak() {
    let mut c = OptErrorConvCheck {
        constr_viol_tol: n(1e-4),
        infeas_viol_kappa: n(1e2),
        infeas_stationarity_tol: n(1e-8),
        infeas_max_streak: 3,
        ..OptErrorConvCheck::new()
    };
    assert!(!c.note_infeasible_stationary(n(1e-1), n(1e-9)));
    assert!(!c.note_infeasible_stationary(n(1e-1), n(1e-9)));
    assert!(c.note_infeasible_stationary(n(1e-1), n(1e-9)));
}

#[test]
fn infeasible_stationary_streak_resets_on_feasibility_progress() {
    let mut c = OptErrorConvCheck {
        constr_viol_tol: n(1e-4),
        infeas_viol_kappa: n(1e2),
        infeas_stationarity_tol: n(1e-8),
        infeas_max_streak: 3,
        ..OptErrorConvCheck::new()
    };
    assert!(!c.note_infeasible_stationary(n(1e-1), n(1e-9)));
    assert!(!c.note_infeasible_stationary(n(1e-1), n(1e-9)));
    assert!(!c.note_infeasible_stationary(n(1e-1), n(1e-3)));
    assert_eq!(c.infeas_streak, 0);
    assert!(!c.note_infeasible_stationary(n(1e-1), n(1e-9)));
    assert!(!c.note_infeasible_stationary(n(1e-1), n(1e-9)));
    assert!(c.note_infeasible_stationary(n(1e-1), n(1e-9)));
}

#[test]
fn infeasible_stationary_streak_never_fires_when_disabled() {
    let mut c = OptErrorConvCheck {
        infeas_stationarity_tol: n(0.0),
        infeas_max_streak: 5,
        ..OptErrorConvCheck::new()
    };
    for _ in 0..20 {
        assert!(!c.note_infeasible_stationary(n(1e9), n(0.0)));
    }
    assert_eq!(c.infeas_streak, 0);
}

#[test]
fn max_iter_exceeded() {
    let mut c = OptErrorConvCheck {
        max_iter: 5,
        ..OptErrorConvCheck::new()
    };
    assert_eq!(
        c.check_convergence(n(1.0), 5),
        ConvergenceStatus::MaxIterExceeded
    );
}
