//! The course of a solve: which runs it consists of, and what is reported at
//! its end.
//!
//! The driver says what to run next, takes in how it ended, and says so again,
//! until there is a status to report.
use crate::application::mu_fallback_enabled;
use crate::application::resolves_to_adaptive;
use crate::application::IpoptApplication;
use crate::dispatch::route_of;
use crate::dispatch::route_without_l1;
use crate::dispatch::status_without_solve;
use crate::dispatch::ModelFacts;
use crate::dispatch::Route;
use crate::options::setting;
use crate::options::text_set;
use crate::second_opinion::dual_begins;
use crate::second_opinion::dual_finishes;
use crate::second_opinion::dual_retry_worthy;
use crate::second_opinion::flips_mu;
use crate::second_opinion::l1_begins;
use crate::second_opinion::l1_finishes;
use crate::second_opinion::law_flip_changes_the_strategy;
use crate::second_opinion::mu_begins;
use crate::second_opinion::mu_finishes;
use crate::second_opinion::other_strategy;
use crate::second_opinion::same_solution;
use crate::second_opinion::strategy_to_restore;
use crate::second_opinion::with_text;
use crate::second_opinion::Floor;
use crate::second_opinion::Resolution;
use crate::second_opinion::RetryReport;
use crate::statistics::certificate_of;
use crate::statistics::FinalizeSnapshot;
use crate::statistics::IterStats;
use crate::status::l1_fallback_trigger;
use crate::status::ApplicationReturnStatus;
use vstd::prelude::*;

verus! {

/// What the course of a solve waits for.
#[derive(Debug)]
pub enum Stage {
    /// The first interior-point run. `guarded` where runaway multipliers call
    /// for another solve.
    First { guarded: bool },
    /// The run with the other barrier strategy.
    Flipped { guarded: bool, floor: Floor },
    /// The first run of the solve against runaway multipliers.
    Second { base: Floor },
    /// Its run with the other barrier strategy.
    SecondFlipped { base: Floor, floor: Floor },
    /// The interior-point run before the l1 penalty is tried.
    BeforePenalty,
    /// The l1 penalty, after a run that failed.
    PenaltyAfter { first_status: ApplicationReturnStatus, restore: String },
    /// The l1 penalty, on a model with `m` constraints.
    Penalty { m: i32 },
    /// The SQP driver.
    Sqp,
    /// Nothing: this is reported.
    Done(ApplicationReturnStatus),
}

/// What is to be done next.
#[derive(Clone, Copy, Debug, PartialEq, Eq, Structural)]
pub enum Action {
    /// One interior-point run.
    Run,
    /// The outer loop of the l1 penalty.
    RunPenalty,
    /// One SQP run.
    RunSqp,
    /// Report the status.
    Report(ApplicationReturnStatus),
}

/// A solution to deliver again, with the row that ends its trace.
#[derive(Debug)]
pub struct Replay {
    pub solution: FinalizeSnapshot,
    pub trace: Option<IterStats>,
}

/// The course of a solve.
#[derive(Debug)]
pub struct SolveDriver {
    pub stage: Stage,
}

/// Where the course of a solve stands after a run.
#[derive(Debug)]
pub struct Step {
    pub driver: SolveDriver,
    /// What is to be delivered again, in order.
    pub replays: Vec<Replay>,
    /// What a second attempt against runaway multipliers came to, where one has
    /// ended.
    pub report: Option<RetryReport>,
}

/// The action that a stage waits for.
pub open spec fn action_of(s: Stage) -> Action {
    match s {
        Stage::First { .. } => Action::Run,
        Stage::Flipped { .. } => Action::Run,
        Stage::Second { .. } => Action::Run,
        Stage::SecondFlipped { .. } => Action::Run,
        Stage::BeforePenalty => Action::Run,
        Stage::PenaltyAfter { .. } => Action::RunPenalty,
        Stage::Penalty { .. } => Action::RunPenalty,
        Stage::Sqp => Action::RunSqp,
        Stage::Done(status) => Action::Report(status),
    }
}

/// The stage in which a route begins.
pub open spec fn first_stage(route: Route, m: i32) -> Stage {
    match route {
        Route::Sqp => Stage::Sqp,
        Route::InvalidProblem => Stage::Done(ApplicationReturnStatus::InvalidProblemDefinition),
        Route::ProvedInfeasible => Stage::Done(ApplicationReturnStatus::InfeasibleProblemDetected),
        Route::L1Penalty => Stage::Penalty { m },
        Route::L1Fallback => Stage::BeforePenalty,
        Route::DualDivergenceRetry => Stage::First { guarded: true },
        Route::Standard => Stage::First { guarded: false },
    }
}

/// What a resolution delivers again.
pub open spec fn replays_of(r: Resolution) -> Seq<Replay> {
    match r.replay {
        Some(s) => seq![Replay { solution: s, trace: r.trace }],
        None => seq![],
    }
}

/// A run with the other barrier strategy follows.
pub open spec fn flips(a: IpoptApplication, status: ApplicationReturnStatus) -> bool {
    mu_fallback_enabled(a.options@) && flips_mu(a.options@, status, a.quality_escalations)
}

/// The base solve has ended: a solve against runaway multipliers follows, or
/// its status is reported.
pub open spec fn base_ends(
    guarded: bool,
    before: IpoptApplication,
    status: ApplicationReturnStatus,
    stage: Stage,
    after: IpoptApplication,
) -> bool {
    if guarded && dual_retry_worthy(before, status) {
        stage is Second && dual_begins(before, status, Some(stage->Second_base), after)
    } else {
        stage == Stage::Done(status) && after == before
    }
}

/// The solve against runaway multipliers has ended.
pub open spec fn second_ends(
    base: Floor,
    before: IpoptApplication,
    status: ApplicationReturnStatus,
    stage: Stage,
    after: IpoptApplication,
    replays: Seq<Replay>,
    report: Option<RetryReport>,
) -> bool {
    exists|r: Resolution| #[trigger]
        dual_finishes(before, base, status, r, after) && stage == Stage::Done(r.status) && replays
            == replays_of(r) && report == r.report
}

/// A stage that waits for an interior-point run takes in how it ended.
pub open spec fn run_ends(
    stage: Stage,
    before: IpoptApplication,
    status: ApplicationReturnStatus,
    next: Stage,
    after: IpoptApplication,
    replays: Seq<Replay>,
    report: Option<RetryReport>,
) -> bool {
    match stage {
        Stage::First { guarded } => {
            &&& replays.len() == 0
            &&& report is None
            &&& if flips(before, status) {
                &&& next is Flipped
                &&& next->Flipped_guarded == guarded
                &&& mu_begins(before, status, Some(next->Flipped_floor), after)
            } else {
                base_ends(guarded, before, status, next, after)
            }
        },
        Stage::Flipped { guarded, floor } => exists|r: Resolution, mid: IpoptApplication|
         #[trigger]
            mu_finishes(before, floor, status, r, mid) && base_ends(
                guarded,
                mid,
                r.status,
                next,
                after,
            ) && replays == replays_of(r) && report is None,
        Stage::Second { base } => if flips(before, status) {
            &&& replays.len() == 0
            &&& report is None
            &&& next is SecondFlipped
            &&& next->SecondFlipped_base == base
            &&& mu_begins(before, status, Some(next->SecondFlipped_floor), after)
        } else {
            second_ends(base, before, status, next, after, replays, report)
        },
        Stage::SecondFlipped { base, floor } => exists|
            r: Resolution,
            mid: IpoptApplication,
            rest: Seq<Replay>,
        |
            #![trigger mu_finishes(before, floor, status, r, mid), replays_of(r).add(rest)]
            mu_finishes(before, floor, status, r, mid) && second_ends(
                base,
                mid,
                r.status,
                next,
                after,
                rest,
                report,
            ) && replays == replays_of(r).add(rest),
        Stage::BeforePenalty => {
            &&& replays.len() == 0
            &&& report is None
            &&& if l1_fallback_trigger(status) {
                &&& next is PenaltyAfter
                &&& next->PenaltyAfter_first_status == status
                &&& l1_begins(before, status, Some(next->PenaltyAfter_restore), after)
            } else {
                next == Stage::Done(status) && after == before
            }
        },
        _ => true,
    }
}

/// A stage that waits for the l1 penalty takes in how it ended; no status means
/// that it had nothing to do.
pub open spec fn penalty_ends(
    stage: Stage,
    before: IpoptApplication,
    status: Option<ApplicationReturnStatus>,
    next: Stage,
    after: IpoptApplication,
) -> bool {
    match stage {
        Stage::PenaltyAfter { first_status, restore } => {
            &&& next is Done
            &&& l1_finishes(before, restore@, first_status, status, next->Done_0, after)
        },
        Stage::Penalty { m } => {
            &&& after == before
            &&& match status {
                Some(s) => next == Stage::Done(s),
                None => next == first_stage(route_without_l1(before.options@, m), m),
            }
        },
        _ => true,
    }
}

fn push_replay(replays: &mut Vec<Replay>, r: Resolution)
    ensures
        final(replays)@ == old(replays)@.add(replays_of(r)),
{
    let ghost before = replays@;
    if let Some(solution) = r.replay {
        replays.push(Replay { solution, trace: r.trace });
        assert(replays@ =~= before.add(replays_of(r)));
    } else {
        assert(before =~= before.add(replays_of(r)));
    }
}

impl SolveDriver {
    /// The course of a solve of a model, by its route.
    pub fn start(app: &IpoptApplication, facts: Option<ModelFacts>) -> (r: SolveDriver)
        ensures
            r.stage == first_stage(
                route_of(app.options@, facts),
                match facts {
                    Some(f) => f.m,
                    None => 0,
                },
            ),
    {
        let m: i32 = match facts {
            Some(f) => f.m,
            None => 0,
        };
        SolveDriver { stage: SolveDriver::stage_for(app.route(facts), m) }
    }

    fn stage_for(route: Route, m: i32) -> (r: Stage)
        ensures
            r == first_stage(route, m),
    {
        match route {
            Route::Sqp => Stage::Sqp,
            Route::InvalidProblem => {
                Stage::Done(ApplicationReturnStatus::InvalidProblemDefinition)
            },
            Route::ProvedInfeasible => {
                Stage::Done(ApplicationReturnStatus::InfeasibleProblemDetected)
            },
            Route::L1Penalty => Stage::Penalty { m },
            Route::L1Fallback => Stage::BeforePenalty,
            Route::DualDivergenceRetry => Stage::First { guarded: true },
            Route::Standard => Stage::First { guarded: false },
        }
    }

    /// What is to be done next.
    pub fn action(&self) -> (r: Action)
        ensures
            r == action_of(self.stage),
    {
        match &self.stage {
            Stage::PenaltyAfter { .. } => Action::RunPenalty,
            Stage::Penalty { .. } => Action::RunPenalty,
            Stage::Sqp => Action::RunSqp,
            Stage::Done(status) => Action::Report(*status),
            _ => Action::Run,
        }
    }

    fn end_base(app: &mut IpoptApplication, guarded: bool, status: ApplicationReturnStatus) -> (r:
        Stage)
        ensures
            base_ends(guarded, *old(app), status, r, *final(app)),
    {
        if guarded {
            if let Some(base) = app.begin_dual_divergence_retry(status) {
                return Stage::Second { base };
            }
        }
        Stage::Done(status)
    }

    fn flip(app: &mut IpoptApplication, status: ApplicationReturnStatus) -> (r: Option<Floor>)
        ensures
            r is Some <==> flips(*old(app), status),
            r is None ==> *final(app) == *old(app),
            r matches Some(f) ==> mu_begins(*old(app), status, Some(f), *final(app)),
    {
        if !app.is_mu_strategy_fallback_enabled() {
            return None;
        }
        app.begin_mu_strategy_fallback(status)
    }

    /// Takes in how an interior-point run ended.
    pub fn run_ended(self, app: &mut IpoptApplication, status: ApplicationReturnStatus) -> (r: Step)
        requires
            action_of(self.stage) == Action::Run,
        ensures
            run_ends(
                self.stage,
                *old(app),
                status,
                r.driver.stage,
                *final(app),
                r.replays@,
                r.report,
            ),
    {
        let mut replays: Vec<Replay> = Vec::new();
        let mut report: Option<RetryReport> = None;
        let stage = match self.stage {
            Stage::First { guarded } => match SolveDriver::flip(app, status) {
                Some(floor) => Stage::Flipped { guarded, floor },
                None => SolveDriver::end_base(app, guarded, status),
            },
            Stage::Flipped { guarded, floor } => {
                let res = app.finish_mu_strategy_fallback(floor, status);
                let kept = res.status;
                push_replay(&mut replays, res);
                assert(replays@ =~= replays_of(res));
                SolveDriver::end_base(app, guarded, kept)
            },
            Stage::Second { base } => match SolveDriver::flip(app, status) {
                Some(floor) => Stage::SecondFlipped { base, floor },
                None => {
                    let res = app.finish_dual_divergence_retry(base, status);
                    let kept = res.status;
                    report = res.report;
                    push_replay(&mut replays, res);
                    assert(replays@ =~= replays_of(res));
                    Stage::Done(kept)
                },
            },
            Stage::SecondFlipped { base, floor } => {
                let first = app.finish_mu_strategy_fallback(floor, status);
                let kept = first.status;
                push_replay(&mut replays, first);
                assert(replays@ =~= replays_of(first));
                let ghost mid = *app;
                let second = app.finish_dual_divergence_retry(base, kept);
                let last = second.status;
                report = second.report;
                push_replay(&mut replays, second);
                assert(second_ends(
                    base,
                    mid,
                    first.status,
                    Stage::Done(last),
                    *app,
                    replays_of(second),
                    report,
                ));
                assert(replays@ == replays_of(first).add(replays_of(second)));
                Stage::Done(last)
            },
            Stage::BeforePenalty => match app.begin_l1_fallback(status) {
                Some(restore) => Stage::PenaltyAfter { first_status: status, restore },
                None => Stage::Done(status),
            },
            other => other,
        };
        Step { driver: SolveDriver { stage }, replays, report }
    }

    /// Takes in how the l1 penalty ended; no status means that it had nothing
    /// to do.
    pub fn penalty_ended(
        self,
        app: &mut IpoptApplication,
        status: Option<ApplicationReturnStatus>,
    ) -> (r: SolveDriver)
        requires
            action_of(self.stage) == Action::RunPenalty,
        ensures
            penalty_ends(self.stage, *old(app), status, r.stage, *final(app)),
    {
        let stage = match self.stage {
            Stage::PenaltyAfter { first_status, restore } => {
                let kept = app.finish_l1_fallback(restore, first_status, status);
                Stage::Done(kept)
            },
            Stage::Penalty { m } => match status {
                Some(s) => Stage::Done(s),
                None => SolveDriver::stage_for(app.route_past_l1(m), m),
            },
            other => other,
        };
        SolveDriver { stage }
    }

    /// Takes in how the SQP run ended.
    pub fn sqp_ended(self, status: ApplicationReturnStatus) -> (r: SolveDriver)
        requires
            action_of(self.stage) == Action::RunSqp,
        ensures
            r.stage == Stage::Done(status),
    {
        SolveDriver { stage: Stage::Done(status) }
    }
}

/// How many more actions a stage can lead to before a status is reported.
pub open spec fn actions_left(s: Stage) -> nat {
    match s {
        Stage::First { guarded } => if guarded {
            4
        } else {
            2
        },
        Stage::Flipped { guarded, .. } => if guarded {
            3
        } else {
            1
        },
        Stage::Second { .. } => 2,
        Stage::SecondFlipped { .. } => 1,
        Stage::BeforePenalty => 2,
        Stage::PenaltyAfter { .. } => 1,
        Stage::Penalty { .. } => 5,
        Stage::Sqp => 1,
        Stage::Done(_) => 0,
    }
}

/// A solve ends: every run leaves fewer actions to come, and there are never
/// more than five.
pub proof fn law_solve_ends(
    stage: Stage,
    before: IpoptApplication,
    status: ApplicationReturnStatus,
    next: Stage,
    after: IpoptApplication,
    replays: Seq<Replay>,
    report: Option<RetryReport>,
)
    requires
        action_of(stage) == Action::Run,
        run_ends(stage, before, status, next, after, replays, report),
    ensures
        actions_left(next) < actions_left(stage) <= 5,
        actions_left(next) == 0 <==> next is Done,
{
}

/// So does every attempt with the l1 penalty.
pub proof fn law_penalty_ends(
    stage: Stage,
    before: IpoptApplication,
    status: Option<ApplicationReturnStatus>,
    next: Stage,
    after: IpoptApplication,
)
    requires
        action_of(stage) == Action::RunPenalty,
        penalty_ends(stage, before, status, next, after),
    ensures
        actions_left(next) < actions_left(stage) <= 5,
        actions_left(next) == 0 <==> next is Done,
{
}

/// Without a second attempt the status of the only run is reported, and the
/// application is left as the run left it.
pub proof fn law_single_run_is_reported(
    before: IpoptApplication,
    status: ApplicationReturnStatus,
    next: Stage,
    after: IpoptApplication,
    replays: Seq<Replay>,
    report: Option<RetryReport>,
    guarded: bool,
)
    requires
        run_ends(Stage::First { guarded }, before, status, next, after, replays, report),
        !flips(before, status),
        !guarded || !dual_retry_worthy(before, status),
    ensures
        next == Stage::Done(status),
        after == before,
        replays.len() == 0,
{
}

/// A success of the first run is final: no second attempt is spent on it.
pub proof fn law_success_is_final(
    before: IpoptApplication,
    next: Stage,
    after: IpoptApplication,
    replays: Seq<Replay>,
    report: Option<RetryReport>,
    guarded: bool,
)
    requires
        run_ends(
            Stage::First { guarded },
            before,
            ApplicationReturnStatus::SolveSucceeded,
            next,
            after,
            replays,
            report,
        ),
    ensures
        next == Stage::Done(ApplicationReturnStatus::SolveSucceeded),
        after == before,
{
}

/// A second attempt that does not replace the first answer leaves its status,
/// its point and its numbers: the status is the first one's, its solution is
/// delivered again, and the statistics hold its certificate.
pub proof fn law_losing_attempt_is_undone(
    before: IpoptApplication,
    floor: Floor,
    status: ApplicationReturnStatus,
    next: Stage,
    after: IpoptApplication,
    replays: Seq<Replay>,
    report: Option<RetryReport>,
)
    requires
        run_ends(
            Stage::Flipped { guarded: false, floor },
            before,
            status,
            next,
            after,
            replays,
            report,
        ),
        status != ApplicationReturnStatus::SolveSucceeded,
        floor.solution is Some,
    ensures
        next == Stage::Done(floor.first_status),
        replays.len() == 1,
        replays[0].solution == floor.solution->0,
        replays[0].trace == floor.trace,
        certificate_of(after.statistics) == floor.certificate,
        same_solution(after.last_finalize, floor.solution),
        after.answer_restored_from_floor,
{
}

/// Attempts that lose one after the other leave the first answer: what a solve
/// against runaway multipliers falls back on is the answer that the losing
/// attempt before it was undone to.
pub proof fn law_undone_attempts_nest(
    before: IpoptApplication,
    floor: Floor,
    status: ApplicationReturnStatus,
    base: Floor,
    after: IpoptApplication,
    replays: Seq<Replay>,
    report: Option<RetryReport>,
)
    requires
        run_ends(
            Stage::Flipped { guarded: true, floor },
            before,
            status,
            Stage::Second { base },
            after,
            replays,
            report,
        ),
        status != ApplicationReturnStatus::SolveSucceeded,
        floor.solution is Some,
    ensures
        base.first_status == floor.first_status,
        same_solution(base.solution, floor.solution),
        base.certificate == floor.certificate,
        floor.trace is Some ==> base.trace == floor.trace,
{
}

/// A run with the other barrier strategy leaves no trace in the options but
/// that the strategy is now named: the options resolve to the strategy that
/// they resolved to before.
pub proof fn law_flip_leaves_the_options(
    first: IpoptApplication,
    first_status: ApplicationReturnStatus,
    floor: Floor,
    flipped: IpoptApplication,
    ran: IpoptApplication,
    status: ApplicationReturnStatus,
    next: Stage,
    after: IpoptApplication,
    replays: Seq<Replay>,
    report: Option<RetryReport>,
)
    requires
        run_ends(
            Stage::First { guarded: false },
            first,
            first_status,
            Stage::Flipped { guarded: false, floor },
            flipped,
            seq![],
            None,
        ),
        ran.options@ == flipped.options@,
        run_ends(
            Stage::Flipped { guarded: false, floor },
            ran,
            status,
            next,
            after,
            replays,
            report,
        ),
    ensures
        resolves_to_adaptive(flipped.options@) != resolves_to_adaptive(first.options@),
        resolves_to_adaptive(after.options@) == resolves_to_adaptive(first.options@),
        forall|name: Seq<char>|
            name != "mu_strategy"@ ==> #[trigger] setting(after.options@, name) == setting(
                first.options@,
                name,
            ),
        text_set(first.options@, "mu_strategy"@) is Some ==> setting(
            after.options@,
            "mu_strategy"@,
        ) == setting(first.options@, "mu_strategy"@),
{
    law_flip_changes_the_strategy(first.options@);
    let o = first.options@;
    let end = with_text(
        with_text(o, "mu_strategy"@, other_strategy(o)),
        "mu_strategy"@,
        strategy_to_restore(o),
    );
    assert(after.options@ == end);
}

/// A model on which presolve or its own definition leaves nothing to run is
/// reported at once.
pub proof fn law_nothing_to_run(route: Route, m: i32)
    requires
        status_without_solve(route) is Some,
    ensures
        action_of(first_stage(route, m)) == Action::Report(status_without_solve(route)->0),
{
}

} // verus!
