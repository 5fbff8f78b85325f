//! Batches: whose row is whose, and where a warm start resumes.
use crate::application::IpoptApplication;
use crate::batch::apply_warm_options;
use crate::batch::pair_with_warm_starts;
use crate::batch::row_of;
use crate::batch::solve_nlp_batch;
use crate::batch::solve_nlp_batch_warm;
use crate::batch::FeralBackendPool;
use crate::batch::NlpBatchResult;
use crate::batch::NlpBatchSolution;
use crate::batch::NlpWarmStart;
use crate::batch::StartingPoint;
use crate::decimal::D1EM9;
use crate::feral::FeralConfig;
use crate::laws::given::number_given;
use crate::laws::given::stands_at;
use crate::laws::given::text_given;
use crate::number::Number;
use crate::statistics::FinalizeSnapshot;
use crate::status::ApplicationReturnStatus;
use vstd::prelude::*;

verus! {

/// An instance whose solve broke off has an internal error, no solution and blank
/// numbers for its row; any other keeps its own.
pub proof fn law_rows(outcome: NlpBatchResult, kept: NlpBatchResult, lost: NlpBatchResult)
    requires
        call_ensures(row_of, (Some(outcome),), kept),
        call_ensures(row_of, (None::<NlpBatchResult>,), lost),
    ensures
        kept == outcome,
        lost.status == ApplicationReturnStatus::InternalError,
        lost.solution is None,
        lost.stats.iteration_count == 0,
        lost.stats.final_objective.nan(),
        lost.stats.final_kkt_error.nan(),
        lost.stats.final_unscaled_kkt_error.nan(),
        lost.stats.final_mu.nan(),
        lost.stats.iterations is None,
{
}

/// Each instance is paired with the warm start of its own place.
pub proof fn law_pairs(
    problems: Vec<u64>,
    warms: Vec<NlpWarmStart>,
    r: Vec<(u64, NlpWarmStart)>,
    i: int,
)
    requires
        call_ensures(pair_with_warm_starts::<u64>, (problems, warms), r),
        0 <= i < problems.len(),
    ensures
        r.len() == problems.len(),
        r@[i].0 == problems@[i],
        r@[i].1 == warms@[i],
{
}

/// A batch has one row for each instance, in order, and each is what the solve of
/// that instance gave under its own number.
pub proof fn law_batch<T, F: FnMut(usize, T) -> NlpBatchResult>(
    problems: Vec<T>,
    solve: F,
    r: Vec<NlpBatchResult>,
    i: int,
)
    requires
        call_ensures(solve_nlp_batch::<T, F>, (problems, solve), r),
        0 <= i < problems.len(),
    ensures
        r.len() == problems.len(),
        call_ensures(solve, (i as usize, problems@[i]), r@[i]),
{
}

/// In a warm batch each instance is solved from the warm start of its own place.
pub proof fn law_warm_batch<T, F: FnMut(usize, (T, NlpWarmStart)) -> NlpBatchResult>(
    problems: Vec<T>,
    warms: Vec<NlpWarmStart>,
    solve: F,
    r: Vec<NlpBatchResult>,
    i: int,
)
    requires
        call_ensures(solve_nlp_batch_warm::<T, F>, (problems, warms, solve), r),
        0 <= i < problems.len(),
    ensures
        r.len() == problems.len(),
        call_ensures(solve, (i as usize, (problems@[i], warms@[i])), r@[i]),
{
}

/// What is captured of a delivered solution is the solution.
pub proof fn law_captured(d: FinalizeSnapshot, r: NlpBatchSolution)
    requires
        call_ensures(NlpBatchSolution::captured, (&d,), r),
    ensures
        r.solver_status == d.status,
        r.x@ == d.x@,
        r.z_l@ == d.z_l@,
        r.z_u@ == d.z_u@,
        r.g@ == d.g@,
        r.lambda@ == d.lambda@,
        r.obj == d.obj_value,
{
}

/// A warm start resumes from the iterate of an outcome, with its last barrier
/// parameter; from a bare solution with none; from no solution with nothing.
pub proof fn law_resumed(
    s: NlpBatchSolution,
    w: NlpWarmStart,
    res: NlpBatchResult,
    r: NlpWarmStart,
)
    requires
        call_ensures(NlpWarmStart::from_solution, (&s,), w),
        call_ensures(NlpWarmStart::from_result, (&res,), r),
    ensures
        w.x@ == s.x@,
        w.lambda@ == s.lambda@,
        w.z_l@ == s.z_l@,
        w.z_u@ == s.z_u@,
        w.mu is None,
        res.solution matches Some(q) ==> r.x@ == q.x@ && r.lambda@ == q.lambda@ && r.z_l@ == q.z_l@
            && r.z_u@ == q.z_u@ && r.mu == Some(res.stats.final_mu),
        res.solution is None ==> r.x@.len() == 0 && r.lambda@.len() == 0 && r.z_l@.len() == 0
            && r.z_u@.len() == 0 && r.mu is None,
{
}

/// A starting point is served where every block that is asked for has the model's
/// length, and then each block that is asked for is the warm start's own; nothing
/// else is written.
pub proof fn law_served(w: NlpWarmStart, sp: &mut StartingPoint, r: bool)
    requires
        call_ensures(NlpWarmStart::get_starting_point, (&w, sp), r),
    ensures
        r <==> w.x.len() == old(sp).x.len() && (old(sp).init_lambda ==> w.lambda.len()
            == old(sp).lambda.len()) && (old(sp).init_z ==> w.z_l.len() == old(sp).z_l.len()
            && w.z_u.len() == old(sp).z_u.len()),
        !r ==> *final(sp) == *old(sp),
        r && old(sp).init_x ==> final(sp).x@ == w.x@,
        r && old(sp).init_z ==> final(sp).z_l@ == w.z_l@ && final(sp).z_u@ == w.z_u@,
        r && old(sp).init_lambda ==> final(sp).lambda@ == w.lambda@,
        !old(sp).init_x ==> final(sp).x@ == old(sp).x@,
        !old(sp).init_z ==> final(sp).z_l@ == old(sp).z_l@ && final(sp).z_u@ == old(sp).z_u@,
        !old(sp).init_lambda ==> final(sp).lambda@ == old(sp).lambda@,
{
}

/// A warm-started instance asks for a warm start, and resumes its barrier
/// parameter, at least 1e-9, unless the caller set one; no other option moves.
pub proof fn law_warm_options(a: &mut IpoptApplication, mu: Option<Number>, other: Seq<char>)
    requires
        call_ensures(apply_warm_options, (a, mu), ()),
        other != "warm_start_init_point"@,
        other != "mu_init"@,
    ensures
        text_given(final(a).options@, "warm_start_init_point"@) == Some("yes"@),
        number_given(old(a).options@, "mu_init"@) is Some ==> number_given(
            final(a).options@,
            "mu_init"@,
        ) == number_given(old(a).options@, "mu_init"@),
        number_given(old(a).options@, "mu_init"@) is None && mu is None ==> stands_at(
            final(a).options@,
            "mu_init"@,
        ) == stands_at(old(a).options@, "mu_init"@),
        mu matches Some(v) ==> number_given(old(a).options@, "mu_init"@) is None ==> (Number {
            bits: D1EM9,
        }).le_spec(v) ==> (number_given(final(a).options@, "mu_init"@) matches Some(w) && w.key()
            == v.key()),
        mu matches Some(v) ==> number_given(old(a).options@, "mu_init"@) is None ==> v.lt_spec(
            Number { bits: D1EM9 },
        ) ==> number_given(final(a).options@, "mu_init"@) == Some(Number { bits: D1EM9 }),
        stands_at(final(a).options@, other) == stands_at(old(a).options@, other),
        final(a).statistics == old(a).statistics,
{
    reveal_strlit("warm_start_init_point");
    reveal_strlit("mu_init");
    assert("warm_start_init_point"@.len() == 21);
    assert("mu_init"@.len() == 7);
}

/// A pool starts empty and serial. A backend that is parked comes back to its own
/// thread once, a second one for the same thread is dropped, and no other thread
/// sees either.
pub proof fn law_pool(
    cfg: FeralConfig,
    made: FeralBackendPool<u64>,
    p: &mut FeralBackendPool<u64>,
    thread: u64,
    backend: u64,
    q: &mut FeralBackendPool<u64>,
    r: Option<u64>,
    other: u64,
)
    requires
        call_ensures(FeralBackendPool::<u64>::serial, (cfg,), made),
        call_ensures(FeralBackendPool::<u64>::park, (p, thread, backend), ()),
        call_ensures(FeralBackendPool::<u64>::acquire, (q, thread), r),
        other != thread,
    ensures
        made@.dom().len() == 0,
        made.cfg == (FeralConfig { parallel: Some(false), ..cfg }),
        !old(p)@.dom().contains(thread) ==> final(p)@.dom().contains(thread) && final(p)@[thread]
            == backend,
        old(p)@.dom().contains(thread) ==> final(p)@ == old(p)@,
        final(p)@.dom().contains(other) == old(p)@.dom().contains(other),
        old(p)@.dom().contains(other) ==> final(p)@[other] == old(p)@[other],
        r is Some <==> old(q)@.dom().contains(thread),
        r matches Some(b) ==> b == old(q)@[thread],
        !final(q)@.dom().contains(thread),
        final(q)@.dom().contains(other) == old(q)@.dom().contains(other),
        old(q)@.dom().contains(other) ==> final(q)@[other] == old(q)@[other],
        final(p).cfg == old(p).cfg,
        final(q).cfg == old(q).cfg,
{
}

} // verus!
