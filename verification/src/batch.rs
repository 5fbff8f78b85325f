//! Batches of independent solves.
use crate::application::IpoptApplication;
use crate::decimal::D1EM9;
use crate::feral::FeralConfig;
use crate::number::Number;
use crate::options::numeric_set;
use crate::options::setting;
use crate::options::Held;
use crate::options::OptionsView;
use crate::options::Setting;
use crate::second_opinion::with_text;
use crate::statistics::copy_numbers;
use crate::statistics::FinalizeSnapshot;
use crate::statistics::SolveStatistics;
use crate::status::ApplicationReturnStatus;
use crate::status::SolverReturn;
use std::collections::HashMap;
use vstd::prelude::*;

verus! {

/// The least barrier parameter that a warm start resumes from: 1e-9.
pub const WARM_MU_FLOOR: u64 = D1EM9;

/// The final iterate of an instance.
#[derive(Debug)]
pub struct NlpBatchSolution {
    pub solver_status: SolverReturn,
    pub x: Vec<Number>,
    pub z_l: Vec<Number>,
    pub z_u: Vec<Number>,
    pub g: Vec<Number>,
    pub lambda: Vec<Number>,
    pub obj: Number,
}

/// The outcome of an instance.
#[derive(Debug)]
pub struct NlpBatchResult {
    pub status: ApplicationReturnStatus,
    /// None where the solve ended before a solution was delivered.
    pub solution: Option<NlpBatchSolution>,
    pub stats: SolveStatistics,
}

/// An iterate to start an instance from.
#[derive(Debug)]
pub struct NlpWarmStart {
    pub x: Vec<Number>,
    pub lambda: Vec<Number>,
    pub z_l: Vec<Number>,
    pub z_u: Vec<Number>,
    /// The barrier parameter to resume from.
    pub mu: Option<Number>,
}

/// The starting point that a solver asks a model for. The lengths are those of
/// the model.
#[derive(Debug)]
pub struct StartingPoint {
    pub init_x: bool,
    pub x: Vec<Number>,
    pub init_z: bool,
    pub z_l: Vec<Number>,
    pub z_u: Vec<Number>,
    pub init_lambda: bool,
    pub lambda: Vec<Number>,
}

/// The solution holds what was delivered.
pub open spec fn captures(s: NlpBatchSolution, d: FinalizeSnapshot) -> bool {
    &&& s.solver_status == d.status
    &&& s.x@ == d.x@
    &&& s.z_l@ == d.z_l@
    &&& s.z_u@ == d.z_u@
    &&& s.g@ == d.g@
    &&& s.lambda@ == d.lambda@
    &&& s.obj == d.obj_value
}

/// The warm start resumes from the solution.
pub open spec fn resumes(w: NlpWarmStart, s: NlpBatchSolution, mu: Option<Number>) -> bool {
    &&& w.x@ == s.x@
    &&& w.lambda@ == s.lambda@
    &&& w.z_l@ == s.z_l@
    &&& w.z_u@ == s.z_u@
    &&& w.mu == mu
}

/// There is nothing to start from.
pub open spec fn is_empty_start(w: NlpWarmStart) -> bool {
    &&& w.x@.len() == 0
    &&& w.lambda@.len() == 0
    &&& w.z_l@.len() == 0
    &&& w.z_u@.len() == 0
    &&& w.mu is None
}

/// The warm start fits what is asked for.
pub open spec fn fits_request(w: NlpWarmStart, sp: StartingPoint) -> bool {
    &&& w.x.len() == sp.x.len()
    &&& sp.init_lambda ==> w.lambda.len() == sp.lambda.len()
    &&& sp.init_z ==> w.z_l.len() == sp.z_l.len() && w.z_u.len() == sp.z_u.len()
}

/// What is asked for comes from the warm start, and the rest is left alone.
pub open spec fn served(w: NlpWarmStart, before: StartingPoint, after: StartingPoint) -> bool {
    &&& after.init_x == before.init_x
    &&& after.init_z == before.init_z
    &&& after.init_lambda == before.init_lambda
    &&& after.x@ == if before.init_x {
        w.x@
    } else {
        before.x@
    }
    &&& after.z_l@ == if before.init_z {
        w.z_l@
    } else {
        before.z_l@
    }
    &&& after.z_u@ == if before.init_z {
        w.z_u@
    } else {
        before.z_u@
    }
    &&& after.lambda@ == if before.init_lambda {
        w.lambda@
    } else {
        before.lambda@
    }
}

impl Default for NlpWarmStart {
    fn default() -> (r: NlpWarmStart)
        ensures
            is_empty_start(r),
    {
        NlpWarmStart {
            x: Vec::new(),
            lambda: Vec::new(),
            z_l: Vec::new(),
            z_u: Vec::new(),
            mu: None,
        }
    }
}

impl NlpBatchSolution {
    /// The solution that was delivered.
    pub fn captured(d: &FinalizeSnapshot) -> (r: NlpBatchSolution)
        ensures
            captures(r, *d),
    {
        NlpBatchSolution {
            solver_status: d.status,
            x: copy_numbers(&d.x),
            z_l: copy_numbers(&d.z_l),
            z_u: copy_numbers(&d.z_u),
            g: copy_numbers(&d.g),
            lambda: copy_numbers(&d.lambda),
            obj: d.obj_value,
        }
    }
}

impl NlpWarmStart {
    /// A warm start from a solution, with no barrier parameter.
    pub fn from_solution(sol: &NlpBatchSolution) -> (r: NlpWarmStart)
        ensures
            resumes(r, *sol, None),
    {
        NlpWarmStart {
            x: copy_numbers(&sol.x),
            lambda: copy_numbers(&sol.lambda),
            z_l: copy_numbers(&sol.z_l),
            z_u: copy_numbers(&sol.z_u),
            mu: None,
        }
    }

    /// A warm start from an outcome, with its last barrier parameter; nothing to
    /// start from where there is no solution.
    pub fn from_result(res: &NlpBatchResult) -> (r: NlpWarmStart)
        ensures
            match res.solution {
                Some(sol) => resumes(r, sol, Some(res.stats.final_mu)),
                None => is_empty_start(r),
            },
    {
        match &res.solution {
            Some(sol) => {
                let mut w = NlpWarmStart::from_solution(sol);
                w.mu = Some(res.stats.final_mu);
                w
            },
            None => NlpWarmStart::default(),
        }
    }

    /// Serves the starting point; false, with nothing written, where the
    /// lengths do not fit and the model's own starting point is to be used.
    pub fn get_starting_point(&self, sp: &mut StartingPoint) -> (r: bool)
        ensures
            r == fits_request(*self, *old(sp)),
            r ==> served(*self, *old(sp), *final(sp)),
            !r ==> *final(sp) == *old(sp),
    {
        let dims_ok = self.x.len() == sp.x.len() && (!sp.init_lambda || self.lambda.len()
            == sp.lambda.len()) && (!sp.init_z || (self.z_l.len() == sp.z_l.len()
            && self.z_u.len() == sp.z_u.len()));
        if !dims_ok {
            return false;
        }
        if sp.init_x {
            sp.x = copy_numbers(&self.x);
        }
        if sp.init_z {
            sp.z_l = copy_numbers(&self.z_l);
            sp.z_u = copy_numbers(&self.z_u);
        }
        if sp.init_lambda {
            sp.lambda = copy_numbers(&self.lambda);
        }
        true
    }
}

/// The options of a warm-started instance: a warm start is always asked for,
/// and the barrier parameter resumes unless the caller set one.
pub open spec fn warm_options(o: OptionsView, mu: Option<Number>) -> OptionsView {
    let w = with_text(o, "warm_start_init_point"@, "yes"@);
    match mu {
        Some(v) => if numeric_set(w, "mu_init"@) is None {
            w.insert(
                "mu_init"@,
                Setting {
                    set: Some(Held::Numeric(v.max_spec(Number { bits: WARM_MU_FLOOR }))),
                    ..setting(w, "mu_init"@)
                },
            )
        } else {
            w
        },
        None => w,
    }
}

/// Asks for a warm start, resuming from the barrier parameter.
pub fn apply_warm_options(app: &mut IpoptApplication, mu: Option<Number>)
    ensures
        *final(app) == (IpoptApplication { options: final(app).options, ..*old(app) }),
        final(app).options@ == warm_options(old(app).options@, mu),
{
    app.options.set_string_value("warm_start_init_point", "yes");
    if let Some(v) = mu {
        if app.options.set_numeric("mu_init").is_none() {
            app.options.set_numeric_value(
                "mu_init",
                v.larger(Number { bits: WARM_MU_FLOOR }),
            );
        }
    }
}

/// The outcome of an instance whose solve broke off: an internal error without
/// a solution. Any other outcome stands as it is.
pub fn row_of(outcome: Option<NlpBatchResult>) -> (r: NlpBatchResult)
    ensures
        match outcome {
            Some(res) => r == res,
            None => r.status == ApplicationReturnStatus::InternalError && r.solution is None
                && r.stats == SolveStatistics::blank(),
        },
{
    match outcome {
        Some(res) => res,
        None => NlpBatchResult {
            status: ApplicationReturnStatus::InternalError,
            solution: None,
            stats: SolveStatistics::new(),
        },
    }
}

/// Solves the instances one after the other. The results come in the order of
/// the instances, one for each.
pub fn solve_nlp_batch<T, F: FnMut(usize, T) -> NlpBatchResult>(problems: Vec<T>, mut solve: F) -> (r: Vec<
    NlpBatchResult,
>)
    requires
        forall|i: usize, t: T| #[trigger] call_requires(solve, (i, t)),
    ensures
        r.len() == problems.len(),
        forall|i: int|
            0 <= i < r.len() ==> call_ensures(solve, (i as usize, problems@[i]), #[trigger] r@[i]),
{
    let ghost all = problems@;
    let ghost given = solve;
    let mut todo = problems;
    let mut stack: Vec<T> = Vec::new();
    let n: usize = todo.len();
    while todo.len() > 0
        invariant
            n == all.len(),
            todo@ == all.take(todo.len() as int),
            stack.len() + todo.len() == n,
            forall|k: int| 0 <= k < stack.len() ==> #[trigger] stack@[k] == all[n - 1 - k],
        decreases todo.len(),
    {
        let ghost k = todo.len() - 1;
        if let Some(t) = todo.pop() {
            stack.push(t);
        }
        assert(todo@ =~= all.take(k));
    }
    let mut results: Vec<NlpBatchResult> = Vec::new();
    let mut i: usize = 0;
    while i < n
        invariant
            i <= n,
            n == all.len(),
            stack.len() == n - i,
            results.len() == i,
            solve == given,
            forall|k: int| 0 <= k < stack.len() ==> #[trigger] stack@[k] == all[n - 1 - k],
            forall|j: usize, t: T| #[trigger] call_requires(solve, (j, t)),
            forall|j: int|
                0 <= j < i ==> call_ensures(solve, (j as usize, all[j]), #[trigger] results@[j]),
        decreases n - i,
    {
        if let Some(t) = stack.pop() {
            assert(t == all[i as int]);
            let row = solve(i, t);
            results.push(row);
        }
        i = i + 1;
    }
    results
}

/// The instances with their warm starts, in order. There is one for each.
pub fn pair_with_warm_starts<T>(problems: Vec<T>, warms: Vec<NlpWarmStart>) -> (r: Vec<
    (T, NlpWarmStart),
>)
    requires
        problems.len() == warms.len(),
    ensures
        r.len() == problems.len(),
        forall|i: int|
            0 <= i < r.len() ==> (#[trigger] r@[i]).0 == problems@[i] && r@[i].1 == warms@[i],
{
    let ghost all = problems@;
    let ghost starts = warms@;
    let mut todo = problems;
    let mut seeds = warms;
    let mut stack: Vec<(T, NlpWarmStart)> = Vec::new();
    let n: usize = todo.len();
    while todo.len() > 0
        invariant
            n == all.len(),
            n == starts.len(),
            todo.len() == seeds.len(),
            todo@ == all.take(todo.len() as int),
            seeds@ == starts.take(todo.len() as int),
            stack.len() + todo.len() == n,
            forall|k: int|
                0 <= k < stack.len() ==> (#[trigger] stack@[k]).0 == all[n - 1 - k] && stack@[k].1
                    == starts[n - 1 - k],
        decreases todo.len(),
    {
        let ghost k = todo.len() - 1;
        if let (Some(t), Some(w)) = (todo.pop(), seeds.pop()) {
            stack.push((t, w));
        }
        assert(todo@ =~= all.take(k));
        assert(seeds@ =~= starts.take(k));
    }
    let mut paired: Vec<(T, NlpWarmStart)> = Vec::new();
    while stack.len() > 0
        invariant
            n == all.len(),
            stack.len() + paired.len() == n,
            forall|k: int|
                0 <= k < stack.len() ==> (#[trigger] stack@[k]).0 == all[n - 1 - k] && stack@[k].1
                    == starts[n - 1 - k],
            forall|k: int|
                0 <= k < paired.len() ==> (#[trigger] paired@[k]).0 == all[k] && paired@[k].1
                    == starts[k],
        decreases stack.len(),
    {
        if let Some(p) = stack.pop() {
            paired.push(p);
        }
    }
    paired
}

/// Solves the instances one after the other, each from its own warm start.
pub fn solve_nlp_batch_warm<T, F: FnMut(usize, (T, NlpWarmStart)) -> NlpBatchResult>(
    problems: Vec<T>,
    warms: Vec<NlpWarmStart>,
    solve: F,
) -> (r: Vec<NlpBatchResult>)
    requires
        problems.len() == warms.len(),
        forall|i: usize, t: (T, NlpWarmStart)| #[trigger] call_requires(solve, (i, t)),
    ensures
        r.len() == problems.len(),
        forall|i: int|
            0 <= i < r.len() ==> call_ensures(
                solve,
                (i as usize, (problems@[i], warms@[i])),
                #[trigger] r@[i],
            ),
{
    let pairs = pair_with_warm_starts(problems, warms);
    let ghost seeded = pairs@;
    let r = solve_nlp_batch(pairs, solve);
    proof {
        assert forall|i: int| 0 <= i < r.len() implies call_ensures(
            solve,
            (i as usize, (problems@[i], warms@[i])),
            #[trigger] r@[i],
        ) by {
            assert(seeded[i].0 == problems@[i] && seeded[i].1 == warms@[i]);
            assert(seeded[i] == (problems@[i], warms@[i]));
        }
    }
    r
}

/// Backends of one configuration that wait for the next instance of their
/// thread, at most one for each.
pub struct FeralBackendPool<B> {
    pub cfg: FeralConfig,
    pub slots: HashMap<u64, B>,
}

impl<B> FeralBackendPool<B> {
    /// The waiting backends, by thread.
    pub open spec fn view(&self) -> Map<u64, B> {
        self.slots@
    }

    /// A pool of backends that run in one thread each.
    pub fn serial(cfg: FeralConfig) -> (r: FeralBackendPool<B>)
        ensures
            r@ == Map::<u64, B>::empty(),
            r.cfg == (FeralConfig { parallel: Some(false), ..cfg }),
    {
        FeralBackendPool { cfg: cfg.serial(), slots: HashMap::new() }
    }

    /// Hands out the backend that waits for the thread, which is then gone; none
    /// where a fresh one is to be made.
    pub fn acquire(&mut self, thread: u64) -> (r: Option<B>)
        ensures
            match r {
                Some(b) => old(self)@.dom().contains(thread) && b == old(self)@[thread],
                None => !old(self)@.dom().contains(thread),
            },
            final(self)@ == old(self)@.remove(thread),
            final(self).cfg == old(self).cfg,
    {
        let r = self.slots.remove(&thread);
        proof {
            assert(!old(self)@.dom().contains(thread) ==> old(self)@.remove(thread) =~= old(self)@);
        }
        r
    }

    /// Lets a backend wait for the next instance of the thread. Where one waits
    /// already, that one stays and this one is dropped.
    pub fn park(&mut self, thread: u64, backend: B)
        ensures
            final(self)@ == if old(self)@.dom().contains(thread) {
                old(self)@
            } else {
                old(self)@.insert(thread, backend)
            },
            final(self).cfg == old(self).cfg,
    {
        if !self.slots.contains_key(&thread) {
            self.slots.insert(thread, backend);
        }
    }

    /// How many backends wait.
    pub fn parked(&self) -> (r: usize)
        ensures
            r == self@.dom().len(),
    {
        self.slots.len()
    }
}

/// A backend that is parked comes back to the same thread, and to no other.
pub proof fn law_parked_backend_comes_back<B>(slots: Map<u64, B>, thread: u64, other: u64, backend: B)
    requires
        !slots.dom().contains(thread),
    ensures
        slots.insert(thread, backend)[thread] == backend,
        other != thread ==> slots.insert(thread, backend).dom().contains(other)
            == slots.dom().contains(other),
        slots.insert(thread, backend).remove(thread) == slots,
{
    assert(slots.insert(thread, backend).remove(thread) =~= slots);
}

/// A warm start that has nothing to start from fits no model that has
/// variables, so such an instance starts cold.
pub proof fn law_empty_start_is_cold(w: NlpWarmStart, sp: StartingPoint)
    requires
        is_empty_start(w),
        sp.x.len() > 0,
    ensures
        !fits_request(w, sp),
{
}

/// A barrier parameter that the caller set is kept; one that is resumed is at
/// least the floor.
pub proof fn law_warm_barrier(o: OptionsView, mu: Number)
    ensures
        numeric_set(o, "mu_init"@) matches Some(v) ==> numeric_set(
            warm_options(o, Some(mu)),
            "mu_init"@,
        ) == Some(v),
        numeric_set(o, "mu_init"@) is None ==> numeric_set(
            warm_options(o, Some(mu)),
            "mu_init"@,
        ) == Some(mu.max_spec(Number { bits: WARM_MU_FLOOR })),
        (Number { bits: WARM_MU_FLOOR }).le_spec(
            mu.max_spec(Number { bits: WARM_MU_FLOOR }),
        ),
        crate::options::switch_set(warm_options(o, Some(mu)), "warm_start_init_point"@) == Some(
            true,
        ),
{
    reveal_strlit("warm_start_init_point");
    reveal_strlit("mu_init");
    assert("warm_start_init_point"@.len() != "mu_init"@.len());
}

} // verus!
