use std::sync::mpsc::channel;

use pounce_algorithm::application::IpoptApplication;
use pounce_algorithm::batch::apply_warm_options;
use pounce_algorithm::batch::pair_with_warm_starts;
use pounce_algorithm::batch::row_of;
use pounce_algorithm::batch::solve_nlp_batch;
use pounce_algorithm::batch::solve_nlp_batch_warm;
use pounce_algorithm::batch::FeralBackendPool;
use pounce_algorithm::batch::NlpBatchResult;
use pounce_algorithm::batch::NlpBatchSolution;
use pounce_algorithm::batch::NlpWarmStart;
use pounce_algorithm::batch::StartingPoint;
use pounce_algorithm::batch::WARM_MU_FLOOR;
use pounce_algorithm::feral::FeralConfig;
use pounce_algorithm::number::Number;
use pounce_algorithm::statistics::FinalizeSnapshot;
use pounce_algorithm::statistics::SolveStatistics;
use pounce_algorithm::status::ApplicationReturnStatus;
use pounce_algorithm::status::SolverReturn;
use rayon::ThreadPoolBuilder;

fn n(x: f64) -> Number {
    Number::from_bits(x.to_bits())
}

fn f(x: Number) -> f64 {
    f64::from_bits(x.to_bits())
}

/// `min (x0 - a)^2 + (x1 - b)^2` subject to `x0 + x1 = s` and bounds.
struct ShiftedQuad {
    a: f64,
    b: f64,
    s: f64,
    x_l: [f64; 2],
    x_u: [f64; 2],
    boom: bool,
}

impl ShiftedQuad {
    fn new(a: f64, b: f64, s: f64) -> Self {
        Self { a, b, s, x_l: [-1e19; 2], x_u: [1e19; 2], boom: false }
    }
    fn expected(&self) -> [f64; 2] {
        let t = (self.s - self.a - self.b) / 2.0;
        [self.a + t, self.b + t]
    }
    fn feasible(&self) -> bool {
        self.x_l[0] + self.x_l[1] <= self.s && self.s <= self.x_u[0] + self.x_u[1]
    }
    /// The model's own starting point.
    fn cold_start(&self) -> StartingPoint {
        StartingPoint {
            init_x: true,
            x: vec![n(0.0); 2],
            init_z: true,
            z_l: vec![n(1.0); 2],
            z_u: vec![n(1.0); 2],
            init_lambda: true,
            lambda: vec![n(0.0)],
        }
    }
}

/// Solves in closed form; the iterations count how far the start lies.
fn solve_from(p: &ShiftedQuad, start: &StartingPoint) -> NlpBatchResult {
    if p.boom {
        panic!("boom: the model breaks off");
    }
    let mut stats = SolveStatistics::new();
    if !p.feasible() {
        return NlpBatchResult {
            status: ApplicationReturnStatus::InfeasibleProblemDetected,
            solution: None,
            stats,
        };
    }
    let x = p.expected();
    let distance = (f(start.x[0]) - x[0]).abs() + (f(start.x[1]) - x[1]).abs();
    stats.iteration_count = 1 + (10.0 * distance) as i32;
    stats.final_mu = n(1e-11);
    let delivered = FinalizeSnapshot {
        status: SolverReturn::Success,
        x: vec![n(x[0]), n(x[1])],
        z_l: vec![n(0.25), n(0.5)],
        z_u: vec![n(0.125), n(0.0625)],
        g: vec![n(x[0] + x[1])],
        lambda: vec![n(-2.0 * (x[0] - p.a))],
        obj_value: n((x[0] - p.a).powi(2) + (x[1] - p.b).powi(2)),
    };
    NlpBatchResult {
        status: ApplicationReturnStatus::SolveSucceeded,
        solution: Some(NlpBatchSolution::captured(&delivered)),
        stats,
    }
}

fn solve(_i: usize, p: ShiftedQuad) -> NlpBatchResult {
    row_of(Some(solve_from(&p, &p.cold_start())))
}

/// Solves on a worker of its own, which takes a panic with it.
fn solve_on_a_worker(_i: usize, p: ShiftedQuad) -> NlpBatchResult {
    let pool = ThreadPoolBuilder::new().num_threads(1).panic_handler(|_| {}).build().unwrap();
    let (give, take) = channel();
    pool.spawn(move || give.send(solve_from(&p, &p.cold_start())).unwrap());
    row_of(take.recv().ok())
}

fn solve_warm(_i: usize, (p, w): (ShiftedQuad, NlpWarmStart)) -> NlpBatchResult {
    let mut sp = p.cold_start();
    let _served = w.get_starting_point(&mut sp);
    row_of(Some(solve_from(&p, &sp)))
}

fn batch(k: usize) -> Vec<ShiftedQuad> {
    (0..k)
        .map(|i| ShiftedQuad::new(1.0 + i as f64, 2.0, 1.0 + (i % 3) as f64))
        .collect()
}

fn close(sol: &NlpBatchSolution, expected: [f64; 2], tol: f64) -> bool {
    (f(sol.x[0]) - expected[0]).abs() < tol && (f(sol.x[1]) - expected[1]).abs() < tol
}

#[test]
fn empty_batch_returns_empty() {
    let out = solve_nlp_batch(Vec::<ShiftedQuad>::new(), solve);
    assert!(out.is_empty());
}

#[test]
fn single_element_batch_solves() {
    let probs = batch(1);
    let expected = probs[0].expected();
    let out = solve_nlp_batch(probs, solve);
    assert_eq!(out.len(), 1);
    assert_eq!(out[0].status, ApplicationReturnStatus::SolveSucceeded);
    let sol = out[0].solution.as_ref().expect("solution captured");
    assert!((f(sol.x[0]) - expected[0]).abs() < 1e-6);
    assert!((f(sol.x[1]) - expected[1]).abs() < 1e-6);
}

#[test]
fn infeasible_instance_mixed_in_does_not_poison_batch() {
    let mut probs = batch(3);
    probs[1].s = 10.0;
    probs[1].x_u = [1.0; 2];
    let out = solve_nlp_batch(probs, solve);
    assert_eq!(out.len(), 3);
    assert_eq!(out[0].status, ApplicationReturnStatus::SolveSucceeded);
    assert_eq!(out[2].status, ApplicationReturnStatus::SolveSucceeded);
    assert_ne!(
        out[1].status,
        ApplicationReturnStatus::SolveSucceeded,
        "infeasible instance must not report success"
    );
}

#[test]
fn panicking_instance_does_not_poison_batch() {
    let mut probs = batch(3);
    let expected: Vec<[f64; 2]> = probs.iter().map(|p| p.expected()).collect();
    probs[1].boom = true;
    let out = solve_nlp_batch(probs, solve_on_a_worker);
    assert_eq!(out.len(), 3);
    assert_eq!(out[1].status, ApplicationReturnStatus::InternalError);
    assert!(
        out[1].solution.is_none(),
        "a panicked instance carries no captured solution"
    );
    for i in [0, 2] {
        assert_eq!(out[i].status, ApplicationReturnStatus::SolveSucceeded);
        let sol = out[i].solution.as_ref().expect("solution");
        assert!(
            close(sol, expected[i], 1e-6),
            "instance {i}: got {:?}, expected {:?}",
            sol.x,
            expected[i]
        );
    }
}

#[test]
fn warm_started_batch_chains() {
    let k = 4;
    let cold = solve_nlp_batch(batch(k), solve);
    let warms: Vec<NlpWarmStart> = cold.iter().map(NlpWarmStart::from_result).collect();
    let perturbed = || -> Vec<ShiftedQuad> {
        batch(k)
            .into_iter()
            .map(|mut p| {
                p.s += 0.01;
                p
            })
            .collect()
    };
    let warm = solve_nlp_batch_warm(perturbed(), warms, solve_warm);
    let cold2 = solve_nlp_batch(perturbed(), solve);
    for i in 0..k {
        assert_eq!(warm[i].status, ApplicationReturnStatus::SolveSucceeded);
        let expect = perturbed()[i].expected();
        let sol = warm[i].solution.as_ref().expect("warm solution");
        assert!(
            close(sol, expect, 1e-5),
            "instance {i}: warm solve must reach the perturbed optimum"
        );
        assert!(
            warm[i].stats.iteration_count <= cold2[i].stats.iteration_count,
            "instance {i}: warm start took {} iters vs cold {}",
            warm[i].stats.iteration_count,
            cold2[i].stats.iteration_count
        );
    }
}

#[test]
fn warm_start_dimension_mismatch_falls_back_cold() {
    let probs = batch(2);
    let expected: Vec<[f64; 2]> = probs.iter().map(|p| p.expected()).collect();
    let warms = vec![NlpWarmStart::default(), NlpWarmStart::default()];
    let out = solve_nlp_batch_warm(probs, warms, solve_warm);
    for (i, r) in out.iter().enumerate() {
        assert_eq!(r.status, ApplicationReturnStatus::SolveSucceeded);
        let sol = r.solution.as_ref().expect("solution");
        assert!(close(sol, expected[i], 1e-6));
    }
}

#[test]
fn ragged_iteration_counts_keep_order() {
    let probs: Vec<ShiftedQuad> = (0..6)
        .map(|i| ShiftedQuad::new(10f64.powi(i - 3), 2.0, 1.0))
        .collect();
    let expected: Vec<[f64; 2]> = probs.iter().map(|p| p.expected()).collect();
    let out = solve_nlp_batch(probs, solve);
    for (i, r) in out.iter().enumerate() {
        assert_eq!(r.status, ApplicationReturnStatus::SolveSucceeded);
        let sol = r.solution.as_ref().expect("solution");
        assert!(
            close(sol, expected[i], 1e-5),
            "instance {i}: got {:?}, expected {:?}",
            sol.x,
            expected[i]
        );
    }
}

fn assert_send_sync<T: Send + Sync>() {}

#[test]
fn backend_pool_is_send_sync() {
    assert_send_sync::<FeralBackendPool<Vec<u8>>>();
}

fn config() -> FeralConfig {
    FeralConfig {
        cascade_break: None,
        fma: true,
        parallel: None,
        refine: true,
        increase_quality: true,
        refine_max_steps: 10,
        refine_target: n(1e-10),
        static_pivoting: None,
        singular_pivot_floor: n(1e-20),
        inertia_pivot_floor: None,
        min_par_flops: None,
        pivtol: n(1e-8),
        ordering: 0,
        scaling: 0,
    }
}

#[test]
fn pooled_backends_come_back_to_their_thread() {
    let mut pool: FeralBackendPool<&str> = FeralBackendPool::serial(config());
    assert_eq!(pool.cfg, FeralConfig { parallel: Some(false), ..config() });
    assert_eq!(pool.acquire(7), None);
    pool.park(7, "first");
    pool.park(8, "other");
    assert_eq!(pool.parked(), 2);
    pool.park(7, "second");
    assert_eq!(pool.parked(), 2);
    assert_eq!(pool.acquire(7), Some("first"));
    assert_eq!(pool.acquire(7), None);
    assert_eq!(pool.acquire(8), Some("other"));
    assert_eq!(pool.parked(), 0);
}

#[test]
fn a_warm_start_resumes_from_the_solution() {
    let out = solve_nlp_batch(batch(1), solve);
    let sol = out[0].solution.as_ref().unwrap();
    let w = NlpWarmStart::from_result(&out[0]);
    assert_eq!(w.x, sol.x);
    assert_eq!(w.lambda, sol.lambda);
    assert_eq!(w.z_l, sol.z_l);
    assert_eq!(w.z_u, sol.z_u);
    assert_eq!(w.mu, Some(n(1e-11)));
    assert_eq!(NlpWarmStart::from_solution(sol).mu, None);
    let gone = NlpBatchResult {
        status: ApplicationReturnStatus::InternalError,
        solution: None,
        stats: SolveStatistics::new(),
    };
    let empty = NlpWarmStart::from_result(&gone);
    assert!(empty.x.is_empty() && empty.mu.is_none());
}

#[test]
fn a_starting_point_is_served_as_asked_or_not_at_all() {
    let w = NlpWarmStart {
        x: vec![n(1.0), n(2.0)],
        lambda: vec![n(3.0)],
        z_l: vec![n(4.0), n(5.0)],
        z_u: vec![n(6.0), n(7.0)],
        mu: None,
    };
    let blank = || StartingPoint {
        init_x: true,
        x: vec![n(0.0); 2],
        init_z: false,
        z_l: vec![n(0.0); 2],
        z_u: vec![n(0.0); 2],
        init_lambda: true,
        lambda: vec![n(0.0)],
    };
    let mut sp = blank();
    assert!(w.get_starting_point(&mut sp));
    assert_eq!(sp.x, w.x);
    assert_eq!(sp.lambda, w.lambda);
    assert_eq!(sp.z_l, vec![n(0.0); 2]);

    let mut sp = blank();
    sp.lambda.push(n(0.0));
    assert!(!w.get_starting_point(&mut sp));
    assert_eq!(sp.x, vec![n(0.0); 2]);

    let mut sp = blank();
    sp.z_u.push(n(0.0));
    assert!(w.get_starting_point(&mut sp), "bound multipliers were not asked for");
    sp.init_z = true;
    assert!(!w.get_starting_point(&mut sp));
}

#[test]
fn a_warm_barrier_is_floored_and_defers_to_the_caller() {
    assert_eq!(f64::from_bits(WARM_MU_FLOOR), 1e-9);
    let mut app = IpoptApplication::new();
    apply_warm_options(&mut app, Some(n(1e-11)));
    assert_eq!(
        app.options().get_string_value("warm_start_init_point"),
        Some(("yes".to_string(), true))
    );
    assert_eq!(app.options().get_numeric_value("mu_init"), Some((n(1e-9), true)));

    let mut app = IpoptApplication::new();
    apply_warm_options(&mut app, Some(n(1e-3)));
    assert_eq!(app.options().get_numeric_value("mu_init"), Some((n(1e-3), true)));

    let mut app = IpoptApplication::new();
    app.options_mut().set_numeric_value("mu_init", n(0.5));
    apply_warm_options(&mut app, Some(n(1e-3)));
    assert_eq!(app.options().get_numeric_value("mu_init"), Some((n(0.5), true)));

    let mut app = IpoptApplication::new();
    apply_warm_options(&mut app, None);
    assert_eq!(app.options().get_numeric_value("mu_init"), None);
}

#[test]
fn pairs_keep_their_order() {
    let warms: Vec<NlpWarmStart> = (0..3)
        .map(|i| NlpWarmStart { mu: Some(n(i as f64)), ..NlpWarmStart::default() })
        .collect();
    let pairs = pair_with_warm_starts(vec!["a", "b", "c"], warms);
    let got: Vec<(&str, f64)> = pairs.iter().map(|(t, w)| (*t, f(w.mu.unwrap()))).collect();
    assert_eq!(got, vec![("a", 0.0), ("b", 1.0), ("c", 2.0)]);
}

#[test]
fn the_solver_of_a_batch_may_keep_count() {
    let mut seen: Vec<usize> = vec![];
    let out = solve_nlp_batch(batch(3), |i, p| {
        seen.push(i);
        solve(i, p)
    });
    assert_eq!(out.len(), 3);
    assert_eq!(seen, vec![0, 1, 2]);
}
