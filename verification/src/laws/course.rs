//! What is refused, which runs a solve consists of, and which status it reports.
use crate::application::IpoptApplication;
use crate::decimal::D1EM8;
use crate::dispatch::ConvexDefaults;
use crate::dispatch::Ma57Bracket;
use crate::dispatch::ModelFacts;
use crate::dispatch::Refusal;
use crate::dispatch::Route;
use crate::driver::Action;
use crate::driver::SolveDriver;
use crate::driver::Stage;
use crate::driver::Step;
use crate::laws::given::answer_given;
use crate::laws::given::anything_given;
use crate::laws::given::lemma_yes_is_not_no;
use crate::laws::given::number_given;
use crate::laws::given::stands_at;
use crate::laws::given::text_given;
use crate::laws::second_opinion::comes_to_adaptive;
use crate::laws::second_opinion::reports;
use crate::laws::second_opinion::same_cost;
use crate::number::Number;
use crate::options::Held;
use crate::options::OptionValue;
use crate::options::OptionsView;
use crate::second_opinion::Floor;
use crate::second_opinion::RetryVerdict;
use crate::status::ApplicationReturnStatus;
use crate::text::alike;
use crate::text::same;
use crate::text::same_ignoring_case;
use vstd::prelude::*;

verus! {

/// Texts are compared character by character; ignoring case, a text is like
/// itself, like no text of another length, and likeness goes both ways.
pub proof fn law_texts(a: &str, b: &str, s: bool, i: bool, j: bool)
    requires
        call_ensures(same, (a, b), s),
        call_ensures(same_ignoring_case, (a, b), i),
        call_ensures(same_ignoring_case, (b, a), j),
    ensures
        s <==> a@ == b@,
        s ==> i,
        i ==> a@.len() == b@.len(),
        i == j,
        i && !s ==> exists|k: int| 0 <= k < a@.len() && a@[k] != b@[k],
{
    if i && !s {
        assert(!(a@ =~= b@));
    }
}

/// A capital letter is like its small letter, and any other two different characters
/// are unlike: two texts are alike exactly where each place holds the same character
/// or the two cases of one letter.
pub proof fn law_cases(a: &str, b: &str, i: bool)
    requires
        call_ensures(same_ignoring_case, (a, b), i),
    ensures
        i <==> a@.len() == b@.len() && forall|k: int|
            0 <= k < a@.len() ==> {
                ||| #[trigger] a@[k] == b@[k]
                ||| 'A' <= a@[k] <= 'Z' && b@[k] as int == a@[k] as int + 32
                ||| 'A' <= b@[k] <= 'Z' && a@[k] as int == b@[k] as int + 32
            },
{
}

/// The caller chose the SQP driver.
pub open spec fn chose_sqp(o: OptionsView) -> bool {
    (text_given(o, "algorithm"@) matches Some(t) && alike(t, "active-set-sqp"@)) || (text_given(
        o,
        "solver_selection"@,
    ) matches Some(t) && alike(t, "qp-active-set"@))
}

/// Which driver runs a model: the SQP driver where the caller chose it; none for
/// a model without dimensions or one proved infeasible; the l1 penalty where it is
/// switched on and there are rows; else the interior-point solve, with the l1
/// penalty or the solve against runaway multipliers behind it.
pub proof fn law_route(a: IpoptApplication, facts: Option<ModelFacts>, r: Route, sqp: bool)
    requires
        call_ensures(IpoptApplication::route, (&a, facts), r),
        call_ensures(IpoptApplication::is_sqp_algorithm_selected, (&a,), sqp),
    ensures
        sqp <==> chose_sqp(a.options@),
        r == Route::Sqp <==> sqp,
        r == Route::InvalidProblem <==> !sqp && facts is None,
        r == Route::ProvedInfeasible <==> !sqp && (facts matches Some(f) && f.proved_infeasible),
        r == Route::L1Penalty <==> !sqp && (facts matches Some(f) && !f.proved_infeasible && f.m
            > 0) && answer_given(a.options@, "l1_exact_penalty_barrier"@) == Some(true),
        r == Route::L1Fallback <==> !sqp && (facts matches Some(f) && !f.proved_infeasible && f.m
            > 0) && answer_given(a.options@, "l1_exact_penalty_barrier"@) != Some(true)
            && answer_given(a.options@, "l1_fallback_on_restoration_failure"@) == Some(true),
        r == Route::DualDivergenceRetry || r == Route::Standard ==> (r == Route::Standard <==> stands_at(
            a.options@,
            "dual_divergence_retry"@,
        ) == Some(Held::Text("no"@))),
{
    lemma_yes_is_not_no();
}

/// The status of a model on which nothing is run.
pub proof fn law_nothing_is_run(r: Route, s: Option<ApplicationReturnStatus>)
    requires
        call_ensures(Route::immediate_status, (r,), s),
    ensures
        s == Some(ApplicationReturnStatus::InvalidProblemDefinition) <==> r
            == Route::InvalidProblem,
        s == Some(ApplicationReturnStatus::InfeasibleProblemDetected) <==> r
            == Route::ProvedInfeasible,
        s is None <==> r != Route::InvalidProblem && r != Route::ProvedInfeasible,
{
}

/// Where a course begins, and what it does first: each route has its own action.
pub proof fn law_course_begins(
    a: IpoptApplication,
    facts: Option<ModelFacts>,
    route: Route,
    d: SolveDriver,
    action: Action,
)
    requires
        call_ensures(IpoptApplication::route, (&a, facts), route),
        call_ensures(SolveDriver::start, (&a, facts), d),
        call_ensures(SolveDriver::action, (&d,), action),
    ensures
        route == Route::Sqp <==> action == Action::RunSqp,
        route == Route::L1Penalty <==> action == Action::RunPenalty,
        route == Route::InvalidProblem ==> action == Action::Report(
            ApplicationReturnStatus::InvalidProblemDefinition,
        ),
        route == Route::ProvedInfeasible ==> action == Action::Report(
            ApplicationReturnStatus::InfeasibleProblemDetected,
        ),
        route == Route::L1Fallback || route == Route::DualDivergenceRetry || route
            == Route::Standard <==> action == Action::Run,
        route == Route::DualDivergenceRetry ==> d.stage == (Stage::First { guarded: true }),
        route == Route::Standard ==> d.stage == (Stage::First { guarded: false }),
        route == Route::L1Fallback ==> d.stage == Stage::BeforePenalty,
{
}

/// What a stage waits for.
pub proof fn law_actions(d: SolveDriver, r: Action)
    requires
        call_ensures(SolveDriver::action, (&d,), r),
    ensures
        d.stage matches Stage::Done(s) ==> r == Action::Report(s),
        r matches Action::Report(s) ==> d.stage == Stage::Done(s),
        r == Action::RunSqp <==> d.stage == Stage::Sqp,
        r == Action::RunPenalty <==> d.stage is Penalty || d.stage is PenaltyAfter,
        r == Action::Run <==> d.stage is First || d.stage is Flipped || d.stage is Second
            || d.stage is SecondFlipped || d.stage is BeforePenalty,
{
}

/// A first run that succeeds, is infeasible or breaks down is reported as it is;
/// one that is not, is reported or followed by another, and in no other way.
pub proof fn law_first_run(
    guarded: bool,
    d: SolveDriver,
    a: &mut IpoptApplication,
    status: ApplicationReturnStatus,
    r: Step,
)
    requires
        d.stage == (Stage::First { guarded }),
        call_ensures(SolveDriver::run_ended, (d, a, status), r),
    ensures
        r.replays@.len() == 0,
        r.report is None,
        r.driver.stage is Done || r.driver.stage is Flipped || r.driver.stage is Second,
        r.driver.stage matches Stage::Done(s) ==> s == status && *final(a) == *old(a),
        status != ApplicationReturnStatus::MaximumIterationsExceeded && status
            != ApplicationReturnStatus::SolvedToAcceptableLevel && status
            != ApplicationReturnStatus::RestorationFailed ==> r.driver.stage == Stage::Done(status),
        r.driver.stage is Flipped ==> (status == ApplicationReturnStatus::MaximumIterationsExceeded
            || status == ApplicationReturnStatus::SolvedToAcceptableLevel) && r.driver.stage->Flipped_guarded
            == guarded && r.driver.stage->Flipped_floor.first_status == status && reports(
            old(a).statistics,
            r.driver.stage->Flipped_floor.certificate,
        ) && comes_to_adaptive(final(a).options@) != comes_to_adaptive(old(a).options@),
        r.driver.stage is Second ==> guarded && (status
            == ApplicationReturnStatus::SolvedToAcceptableLevel || status
            == ApplicationReturnStatus::RestorationFailed) && r.driver.stage->Second_base.first_status
            == status && reports(old(a).statistics, r.driver.stage->Second_base.certificate)
            && old(a).dual_divergence_signature && text_given(
            final(a).options@,
            "perturb_always_cd"@,
        ) == Some("yes"@),
        answer_given(old(a).options@, "mu_strategy_fallback"@) == Some(false) ==> !(
        r.driver.stage is Flipped),
        status == ApplicationReturnStatus::MaximumIterationsExceeded && old(a).quality_escalations
            == 0 && answer_given(old(a).options@, "mu_strategy_fallback"@) == Some(true)
            ==> r.driver.stage is Flipped,
        !guarded ==> !(r.driver.stage is Second),
{
    lemma_yes_is_not_no();
    reveal_strlit("monotone");
    reveal_strlit("adaptive");
    assert("monotone"@[0] == 'm');
    assert("adaptive"@[0] == 'a');
}

/// A run with the other barrier strategy is reported where it succeeds, with its
/// own numbers; where it does not, the first answer is what the course goes on
/// with: reported, or kept by a solve against runaway multipliers.
pub proof fn law_flipped_run(
    guarded: bool,
    floor: Floor,
    d: SolveDriver,
    a: &mut IpoptApplication,
    status: ApplicationReturnStatus,
    r: Step,
)
    requires
        d.stage == (Stage::Flipped { guarded, floor }),
        call_ensures(SolveDriver::run_ended, (d, a, status), r),
    ensures
        r.report is None,
        r.driver.stage is Done || r.driver.stage is Second,
        !guarded ==> r.driver.stage is Done,
        status == ApplicationReturnStatus::SolveSucceeded ==> r.driver.stage == Stage::Done(status)
            && r.replays@.len() == 0 && final(a).statistics == old(a).statistics,
        status != ApplicationReturnStatus::SolveSucceeded ==> {
            &&& r.driver.stage matches Stage::Done(s) ==> s == floor.first_status
            &&& r.driver.stage is Second ==> r.driver.stage->Second_base.first_status
                == floor.first_status
            &&& floor.solution is Some ==> r.replays@.len() == 1 && r.replays@[0].solution
                == floor.solution->0 && r.replays@[0].trace == floor.trace && reports(
                final(a).statistics,
                floor.certificate,
            ) && same_cost(final(a).statistics, old(a).statistics)
            &&& floor.solution is Some && r.driver.stage is Second ==> reports(
                final(a).statistics,
                r.driver.stage->Second_base.certificate,
            )
            &&& floor.solution is None ==> r.replays@.len() == 0
        },
        text_given(final(a).options@, "mu_strategy"@) == Some(floor.restore@),
{
    reveal_strlit("mu_strategy");
    reveal_strlit("perturb_always_cd");
    assert("mu_strategy"@.len() == 11);
    assert("perturb_always_cd"@.len() == 17);
}

/// A solve against runaway multipliers reports its own success where it is
/// promoted and the first status where it is not; one that has not succeeded is
/// never promoted. Its option is set back.
pub proof fn law_second_run(
    base: Floor,
    d: SolveDriver,
    a: &mut IpoptApplication,
    status: ApplicationReturnStatus,
    r: Step,
)
    requires
        d.stage == (Stage::Second { base }),
        call_ensures(SolveDriver::run_ended, (d, a, status), r),
    ensures
        r.driver.stage is Done || r.driver.stage is SecondFlipped,
        r.driver.stage is SecondFlipped ==> r.driver.stage->SecondFlipped_base == base
            && r.driver.stage->SecondFlipped_floor.first_status == status && r.replays@.len() == 0
            && r.report is None,
        r.driver.stage is Done ==> {
            &&& r.report is Some
            &&& text_given(final(a).options@, "perturb_always_cd"@) == Some(base.restore@)
            &&& r.report->0.verdict == RetryVerdict::Promoted ==> status
                == ApplicationReturnStatus::SolveSucceeded && r.driver.stage == Stage::Done(
                ApplicationReturnStatus::SolveSucceeded,
            ) && r.replays@.len() == 0 && final(a).statistics.final_objective
                == old(a).statistics.final_objective
            &&& r.report->0.verdict != RetryVerdict::Promoted ==> r.driver.stage == Stage::Done(
                base.first_status,
            )
            &&& r.report->0.verdict != RetryVerdict::Promoted && base.solution is Some
                ==> r.replays@.len() == 1 && r.replays@[0].solution == base.solution->0
                && r.replays@[0].trace == base.trace && reports(
                final(a).statistics,
                base.certificate,
            )
        },
{
}

/// With both second attempts behind it a course is at its end: what it reports is
/// a success, or the status of its first answer.
pub proof fn law_last_run(
    base: Floor,
    floor: Floor,
    d: SolveDriver,
    a: &mut IpoptApplication,
    status: ApplicationReturnStatus,
    r: Step,
)
    requires
        d.stage == (Stage::SecondFlipped { base, floor }),
        call_ensures(SolveDriver::run_ended, (d, a, status), r),
    ensures
        r.driver.stage is Done,
        r.driver.stage->Done_0 == base.first_status || r.driver.stage->Done_0
            == ApplicationReturnStatus::SolveSucceeded,
        r.driver.stage->Done_0 == ApplicationReturnStatus::SolveSucceeded && base.first_status
            != ApplicationReturnStatus::SolveSucceeded ==> status
            == ApplicationReturnStatus::SolveSucceeded || floor.first_status
            == ApplicationReturnStatus::SolveSucceeded,
        status != ApplicationReturnStatus::SolveSucceeded && floor.first_status
            != ApplicationReturnStatus::SolveSucceeded ==> r.driver.stage == Stage::Done(
            base.first_status,
        ),
        r.report is Some && r.report->0.verdict != RetryVerdict::Promoted ==> r.driver.stage
            == Stage::Done(base.first_status),
        r.report is Some && r.report->0.verdict != RetryVerdict::Promoted && base.solution is Some
            ==> reports(final(a).statistics, base.certificate) && r.replays@.len() > 0
            && r.replays@.last().solution == base.solution->0,
{
}

/// The run before the l1 penalty: five endings lead to it, any other is reported.
pub proof fn law_run_before_the_penalty(
    d: SolveDriver,
    a: &mut IpoptApplication,
    status: ApplicationReturnStatus,
    r: Step,
)
    requires
        d.stage == Stage::BeforePenalty,
        call_ensures(SolveDriver::run_ended, (d, a, status), r),
    ensures
        r.replays@.len() == 0,
        r.report is None,
        r.driver.stage is PenaltyAfter <==> status == ApplicationReturnStatus::RestorationFailed
            || status == ApplicationReturnStatus::InfeasibleProblemDetected || status
            == ApplicationReturnStatus::SolvedToAcceptableLevel || status
            == ApplicationReturnStatus::MaximumIterationsExceeded || status
            == ApplicationReturnStatus::NotEnoughDegreesOfFreedom,
        !(r.driver.stage is PenaltyAfter) ==> r.driver.stage == Stage::Done(status) && *final(a)
            == *old(a),
        r.driver.stage is PenaltyAfter ==> r.driver.stage->PenaltyAfter_first_status == status
            && text_given(final(a).options@, "l1_exact_penalty_barrier"@) == Some("yes"@),
{
}

/// The end of the l1 penalty. Tried after a failure, only its success replaces
/// the first status, and the switch is set back; tried first, its status is
/// reported, and where it had nothing to do the model is solved without it.
pub proof fn law_penalty_run(
    d: SolveDriver,
    a: &mut IpoptApplication,
    status: Option<ApplicationReturnStatus>,
    r: SolveDriver,
)
    requires
        d.stage is Penalty || d.stage is PenaltyAfter,
        call_ensures(SolveDriver::penalty_ended, (d, a, status), r),
    ensures
        d.stage is PenaltyAfter ==> r.stage is Done,
        d.stage is PenaltyAfter && status == Some(ApplicationReturnStatus::SolveSucceeded)
            ==> r.stage == Stage::Done(ApplicationReturnStatus::SolveSucceeded),
        d.stage is PenaltyAfter && status != Some(ApplicationReturnStatus::SolveSucceeded)
            ==> r.stage == Stage::Done(d.stage->PenaltyAfter_first_status),
        d.stage is PenaltyAfter ==> text_given(final(a).options@, "l1_exact_penalty_barrier"@)
            == Some(d.stage->PenaltyAfter_restore@),
        d.stage is Penalty ==> *final(a) == *old(a),
        d.stage is Penalty ==> (status matches Some(s) ==> r.stage == Stage::Done(s)),
        d.stage is Penalty && status is None ==> r.stage is First || r.stage is BeforePenalty,
        d.stage is Penalty && status is None && answer_given(
            old(a).options@,
            "l1_exact_penalty_barrier"@,
        ) == Some(true) ==> r.stage is First,
        d.stage is Penalty && status is None ==> (r.stage is BeforePenalty <==> {
            &&& d.stage->Penalty_m > 0
            &&& answer_given(old(a).options@, "l1_fallback_on_restoration_failure"@) == Some(true)
            &&& answer_given(old(a).options@, "l1_exact_penalty_barrier"@) != Some(true)
        }),
        d.stage is Penalty && status is None && r.stage is First ==> r.stage->First_guarded
            == (stands_at(old(a).options@, "dual_divergence_retry"@) != Some(Held::Text("no"@))),
{
    lemma_yes_is_not_no();
}

/// The SQP run is reported as it is.
pub proof fn law_sqp_run(d: SolveDriver, status: ApplicationReturnStatus, r: SolveDriver)
    requires
        call_ensures(SolveDriver::sqp_ended, (d, status), r),
    ensures
        r.stage == Stage::Done(status),
{
}

/// The caller set the option to something else than the default.
pub open spec fn strays(o: OptionsView, name: Seq<char>, default: OptionValue) -> bool {
    anything_given(o, name) && o[name].set != Some(default@)
}

/// Some option of the convex engines strays from its default.
pub open spec fn some_convex_option_strays(o: OptionsView, d: ConvexDefaults) -> bool {
    ||| strays(o, "qp_presolve"@, d.qp_presolve)
    ||| strays(o, "qp_tau"@, d.qp_tau)
    ||| strays(o, "qp_tau_max"@, d.qp_tau_max)
    ||| strays(o, "qp_reg"@, d.qp_reg)
    ||| strays(o, "qp_gondzio_corr"@, d.qp_gondzio_corr)
    ||| strays(o, "qp_infeas_tol"@, d.qp_infeas_tol)
    ||| strays(o, "qp_hsde"@, d.qp_hsde)
    ||| strays(o, "qp_equilibrate"@, d.qp_equilibrate)
    ||| strays(o, "qp_crossover"@, d.qp_crossover)
}

/// An option of the convex engines that strays from its default is refused where
/// they cannot be reached, and only then.
pub proof fn law_convex_options(a: IpoptApplication, d: ConvexDefaults, r: Option<String>)
    requires
        call_ensures(IpoptApplication::unhonored_convex_option, (&a, &d), r),
    ensures
        r is Some <==> !a.convex_routing_available && some_convex_option_strays(a.options@, d),
{
}

/// An options file that is named is refused where nothing will read it, unless
/// the name is the registered one or empty.
pub proof fn law_option_file(a: IpoptApplication, r: Option<String>)
    requires
        call_ensures(IpoptApplication::unhonored_option_file_name, (&a,), r),
    ensures
        r is Some <==> !a.option_file_resolved && (text_given(
            a.options@,
            "option_file_name"@,
        ) matches Some(t) && t.len() > 0 && a.options@["option_file_name"@].default != Some(
            Held::Text(t),
        )),
{
}

/// A linear solver is refused that is neither FERAL nor MA57, in any case of
/// their letters; the name is handed back.
pub proof fn law_linear_solver(a: IpoptApplication, r: Option<String>)
    requires
        call_ensures(IpoptApplication::unimplemented_linear_solver, (&a,), r),
    ensures
        r matches Some(t) ==> stands_at(a.options@, "linear_solver"@) == Some(Held::Text(t@))
            && !alike(t@, "feral"@) && !alike(t@, "ma57"@),
        r is None ==> !(stands_at(a.options@, "linear_solver"@) matches Some(Held::Text(t)) && !alike(
            t,
            "feral"@,
        ) && !alike(t, "ma57"@)),
{
}

/// A convex solver that the caller chose by name is what is refused of it.
pub proof fn law_selection(a: IpoptApplication, r: Option<&'static str>)
    requires
        call_ensures(IpoptApplication::unsupported_library_solver_selection, (&a,), r),
    ensures
        r matches Some(n) ==> (text_given(a.options@, "solver_selection"@) matches Some(t) && alike(
            t,
            n@,
        )) && (n@ == "lp-ipm"@ || n@ == "qp-ipm"@ || n@ == "socp"@),
        r is None ==> !(text_given(a.options@, "solver_selection"@) matches Some(t) && (alike(
            t,
            "lp-ipm"@,
        ) || alike(t, "qp-ipm"@) || alike(t, "socp"@))),
{
}

/// An MA57 ceiling that the caller set below where the tolerance starts is
/// refused, for the main algorithm first; one that nobody set is not.
pub proof fn law_pivot_ceiling(a: IpoptApplication, r: Option<Ma57Bracket>)
    requires
        call_ensures(IpoptApplication::ma57_pivtol_bracket_refusal, (&a,), r),
    ensures
        number_given(a.options@, "ma57_pivtolmax"@) is None && number_given(
            a.options@,
            "resto.ma57_pivtolmax"@,
        ) is None ==> r is None,
        number_given(a.options@, "ma57_pivtolmax"@) matches Some(c) ==> (stands_at(
            a.options@,
            "ma57_pivtol"@,
        ) matches Some(Held::Numeric(s)) ==> c.lt_spec(s) ==> r == Some(
            Ma57Bracket { resto: false, pivtolmax: c, pivtol: s },
        )),
        number_given(a.options@, "ma57_pivtolmax"@) matches Some(c) ==> stands_at(
            a.options@,
            "ma57_pivtol"@,
        ) is None ==> c.lt_spec(Number { bits: D1EM8 }) ==> r == Some(
            Ma57Bracket { resto: false, pivtolmax: c, pivtol: Number { bits: D1EM8 } },
        ),
        r matches Some(b) ==> b.pivtolmax.lt_spec(b.pivtol),
        r matches Some(b) ==> b.resto ==> number_given(a.options@, "resto.ma57_pivtolmax"@) == Some(
            b.pivtolmax,
        ) || number_given(a.options@, "ma57_pivtolmax"@) == Some(b.pivtolmax),
        number_given(a.options@, "resto.ma57_pivtolmax"@) matches Some(c) ==> (number_given(
            a.options@,
            "resto.ma57_pivtol"@,
        ) matches Some(s) ==> c.lt_spec(s) ==> r is Some),
{
}

/// The pivot ceiling of one phase: its own where one is set, else the general one.
pub open spec fn ceiling_of(o: OptionsView, resto: bool) -> Option<Number> {
    if resto && number_given(o, "resto.ma57_pivtolmax"@) is Some {
        number_given(o, "resto.ma57_pivtolmax"@)
    } else {
        number_given(o, "ma57_pivtolmax"@)
    }
}

/// Where the pivot tolerance of one phase starts: at its own where one is set, else
/// at the general one, else at 1e-8.
pub open spec fn starting_tolerance(o: OptionsView, resto: bool) -> Number {
    if resto && number_given(o, "resto.ma57_pivtol"@) is Some {
        number_given(o, "resto.ma57_pivtol"@)->0
    } else {
        match stands_at(o, "ma57_pivtol"@) {
            Some(Held::Numeric(v)) => v,
            _ => Number { bits: D1EM8 },
        }
    }
}

/// The ceiling of the phase is below its start.
pub open spec fn contradicts(o: OptionsView, resto: bool) -> bool {
    ceiling_of(o, resto) matches Some(c) && c.lt_spec(starting_tolerance(o, resto))
}

/// A solve is refused where a phase contradicts itself. The main phase is named where it does, else the restoration phase where that one does, with the
/// two numbers that contradict each other.
pub proof fn law_contradicting_phase(a: IpoptApplication, r: Option<Ma57Bracket>)
    requires
        call_ensures(IpoptApplication::ma57_pivtol_bracket_refusal, (&a,), r),
    ensures
        r is Some <==> contradicts(a.options@, false) || contradicts(a.options@, true),
        r matches Some(b) ==> ceiling_of(a.options@, b.resto) == Some(b.pivtolmax),
        r matches Some(b) ==> starting_tolerance(a.options@, b.resto) == b.pivtol,
        r matches Some(b) ==> b.pivtolmax.lt_spec(b.pivtol),
        contradicts(a.options@, false) ==> (r matches Some(b) && !b.resto),
{
}

/// A solve is refused exactly where one of the reasons holds, the first in their
/// order is given, and every refusal is an invalid option.
pub proof fn law_refusal(
    a: IpoptApplication,
    scaling: bool,
    option: bool,
    value: bool,
    d: ConvexDefaults,
    r: Option<Refusal>,
    selection: Option<&'static str>,
    solver: Option<String>,
    file: Option<String>,
    convex: Option<String>,
    bracket: Option<Ma57Bracket>,
)
    requires
        call_ensures(IpoptApplication::refusal, (&a, scaling, option, value, &d), r),
        call_ensures(IpoptApplication::unsupported_library_solver_selection, (&a,), selection),
        call_ensures(IpoptApplication::unimplemented_linear_solver, (&a,), solver),
        call_ensures(IpoptApplication::unhonored_option_file_name, (&a,), file),
        call_ensures(IpoptApplication::unhonored_convex_option, (&a, &d), convex),
        call_ensures(IpoptApplication::ma57_pivtol_bracket_refusal, (&a,), bracket),
    ensures
        r is Some <==> scaling || selection is Some || solver is Some || option || value
            || file is Some || convex is Some || bracket is Some,
        scaling <==> r == Some(Refusal::ScalingFactors),
        !scaling && selection is Some ==> r is Some && r->0 is SolverSelection,
        !scaling && selection is None && solver is Some ==> r is Some && r->0 is LinearSolver,
        !scaling && selection is None && solver is None && option ==> r == Some(
            Refusal::UnimplementedOption,
        ),
        !scaling && selection is None && solver is None && !option && value ==> r == Some(
            Refusal::UnimplementedValue,
        ),
        !scaling && selection is None && solver is None && !option && !value && file is Some ==> r is Some
            && r->0 is OptionFileName,
        !scaling && selection is None && solver is None && !option && !value && file is None
            && convex is Some ==> r is Some && r->0 is ConvexOption,
        !scaling && selection is None && solver is None && !option && !value && file is None
            && convex is None && bracket is Some ==> r == Some(Refusal::Ma57Bracket(bracket->0)),
{
}

/// Every refusal is reported as an invalid option.
pub proof fn law_refusals_are_invalid_options(f: Refusal, s: ApplicationReturnStatus)
    requires
        call_ensures(Refusal::status, (&f,), s),
    ensures
        s == ApplicationReturnStatus::InvalidOption,
{
}

} // verus!
