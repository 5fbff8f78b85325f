//! The smaller operations, by themselves.
use crate::application::IpoptApplication;
use crate::assembly::copy_indices;
use crate::conv_check::opt_error::OptErrorConvCheck;
use crate::decimal::D0;
use crate::decimal::D1;
use crate::decimal::D1E20;
use crate::dispatch::unsupported_selection_message;
use crate::dispatch::Route;
use crate::iterates::iterates_dims;
use crate::iterates::slice_numbers;
use crate::iterates::IteratesVector;
use crate::laws::given::answer_given;
use crate::laws::given::lemma_yes_is_not_no;
use crate::laws::given::stands_at;
use crate::laws::given::text_given;
use crate::number::Number;
use crate::options::OptionValue;
use crate::options::OptionsList;
use crate::penalty::l1_final_statuses;
use crate::penalty::record_measured_violation;
use crate::penalty::L1Loop;
use crate::penalty::L1Point;
use crate::penalty::L1Verdict;
use crate::solve::RunEnding;
use crate::solve::RunRecord;
use crate::statistics::copy_numbers;
use crate::statistics::IterRecord;
use crate::statistics::SolveStatistics;
use crate::status::sqp_statuses;
use crate::status::ApplicationReturnStatus;
use crate::status::SolverReturn;
use crate::status::SqpStatus;
use vstd::prelude::*;

verus! {

/// The strict test passes exactly where each residual is within the tolerance of
/// its own name.
pub proof fn law_strict_test(
    p: OptErrorConvCheck,
    overall: Number,
    dual: Number,
    viol: Number,
    compl: Number,
    r: bool,
)
    requires
        call_ensures(
            OptErrorConvCheck::passes_component_tols,
            (&p, overall, dual, viol, compl),
            r,
        ),
    ensures
        r <==> overall.le_spec(p.tol) && dual.le_spec(p.dual_inf_tol) && viol.le_spec(
            p.constr_viol_tol,
        ) && compl.le_spec(p.compl_inf_tol),
{
}

/// The acceptable test passes exactly where the error and the objective are
/// finite, each residual is within the acceptable tolerance of its own name, and the
/// objective has moved by less than the allowed change, where one below 1e20 is
/// set and an objective was recorded.
pub proof fn law_acceptable_test(
    p: OptErrorConvCheck,
    overall: Number,
    dual: Number,
    viol: Number,
    compl: Number,
    f: Number,
    r: bool,
)
    requires
        call_ensures(
            OptErrorConvCheck::passes_acceptable_tols,
            (&p, overall, dual, viol, compl, f),
            r,
        ),
    ensures
        r ==> overall.finite() && f.finite() && overall.le_spec(p.acceptable_tol) && dual.le_spec(
            p.acceptable_dual_inf_tol,
        ) && viol.le_spec(p.acceptable_constr_viol_tol) && compl.le_spec(
            p.acceptable_compl_inf_tol,
        ),
        overall.finite() && f.finite() && overall.le_spec(p.acceptable_tol) && dual.le_spec(
            p.acceptable_dual_inf_tol,
        ) && viol.le_spec(p.acceptable_constr_viol_tol) && compl.le_spec(
            p.acceptable_compl_inf_tol,
        ) ==> (r <==> match p.last_acceptable_obj {
            Some(before) => p.acceptable_obj_change_tol.lt_spec(Number { bits: D1E20 }) ==> {
                let size = if (Number { bits: D1 }).le_spec(f.abs_spec()) {
                    f.abs_spec()
                } else {
                    Number { bits: D1 }
                };
                !p.acceptable_obj_change_tol.times_spec(size).le_spec(
                    before.minus_spec(f).abs_spec(),
                )
            },
            None => true,
        }),
{
}

/// A streak of acceptable iterates grows by one, or starts anew at one that is
/// not; the run stops at a full streak unless the certificate is masked, which is
/// then remembered. Nothing else changes.
pub proof fn law_acceptable_streak(
    p: &mut OptErrorConvCheck,
    acceptable: bool,
    masked: bool,
    r: bool,
)
    requires
        call_ensures(OptErrorConvCheck::note_acceptable, (p, acceptable, masked), r),
        0 <= old(p).acceptable_count < i32::MAX,
    ensures
        !acceptable ==> !r && final(p).acceptable_count == 0,
        acceptable ==> final(p).acceptable_count == old(p).acceptable_count + 1,
        r <==> acceptable && !masked && final(p).acceptable_count >= old(p).acceptable_iter,
        final(p).acceptable_veto_fired <==> old(p).acceptable_veto_fired || acceptable && masked
            && final(p).acceptable_count >= old(p).acceptable_iter,
        final(p).acceptable_iter == old(p).acceptable_iter,
        final(p).infeas_streak == old(p).infeas_streak,
        final(p).veto_fired == old(p).veto_fired,
        final(p).last_acceptable_obj == old(p).last_acceptable_obj,
        final(p).tol == old(p).tol,
{
}

/// A point is stationary without being feasible exactly where the test is switched
/// on, its violation is above the factor times the tolerance and the gradient of the
/// violation is flat. The streak of such points grows by one, or starts anew.
pub proof fn law_infeasible_points(
    p: &mut OptErrorConvCheck,
    viol: Number,
    stationarity: Number,
    now: bool,
    r: bool,
)
    requires
        call_ensures(
            OptErrorConvCheck::is_infeasible_stationary,
            (old(p), viol, stationarity),
            now,
        ),
        call_ensures(
            OptErrorConvCheck::note_infeasible_stationary,
            (p, viol, stationarity),
            r,
        ),
        0 <= old(p).infeas_streak < i32::MAX,
    ensures
        now <==> {
            &&& !old(p).infeas_stationarity_tol.le_spec(Number { bits: D0 })
            &&& old(p).infeas_max_streak > 0
            &&& old(p).infeas_viol_kappa.times_spec(old(p).constr_viol_tol).lt_spec(viol)
            &&& stationarity.le_spec(old(p).infeas_stationarity_tol)
        },
        now ==> final(p).infeas_streak == old(p).infeas_streak + 1,
        !now ==> final(p).infeas_streak == 0 && !r,
        r <==> now && final(p).infeas_streak >= old(p).infeas_max_streak,
        final(p).acceptable_count == old(p).acceptable_count,
        final(p).infeas_max_streak == old(p).infeas_max_streak,
{
}

/// Setting a value makes the option stand at it, and touches no other name.
pub proof fn law_set_value(o: &mut OptionsList, name: &str, v: OptionValue, other: Seq<char>)
    requires
        call_ensures(OptionsList::set_value, (o, name, v), ()),
    ensures
        stands_at(final(o)@, name@) == Some(v@),
        other != name@ ==> stands_at(final(o)@, other) == stands_at(old(o)@, other),
        final(o)@[name@].default == (if old(o)@.dom().contains(name@) {
            old(o)@[name@].default
        } else {
            None
        }),
{
}

/// A yes in any case is one: a text of three characters that are these letters,
/// and what is not said is as it was meant to be.
pub proof fn law_any_yes(o: OptionsList, name: &str, other: bool, r: bool)
    requires
        call_ensures(OptionsList::any_yes, (&o, name, other), r),
    ensures
        text_given(o@, name@) is None ==> r == other,
        text_given(o@, name@) matches Some(t) ==> (r <==> t.len() == 3 && (t[0] == 'y' || t[0]
            == 'Y') && (t[1] == 'e' || t[1] == 'E') && (t[2] == 's' || t[2] == 'S')),
{
    reveal_strlit("yes");
    assert("yes"@.len() == 3);
    assert("yes"@[0] == 'y');
    assert("yes"@[1] == 'e');
    assert("yes"@[2] == 's');
    if text_given(o@, name@) is Some {
        let t = text_given(o@, name@)->0;
        if t.len() == 3 {
            assert(t[0] == t[0] && t[1] == t[1] && t[2] == t[2]);
        }
    }
}

/// What the outer loop comes to is the same whether or not the numbers are
/// recorded with it.
pub proof fn law_verdict_of_the_loop(
    a: &mut IpoptApplication,
    l: L1Loop,
    point: Option<L1Point>,
    recorded: L1Verdict,
    r: L1Verdict,
)
    requires
        call_ensures(IpoptApplication::conclude_l1_penalty, (a, &l, &point), recorded),
        call_ensures(l1_final_statuses, (&l, &point), r),
    ensures
        r == recorded,
        point is None ==> r.deliver is None && r.status == l.last_status,
        r.status == ApplicationReturnStatus::SolveSucceeded ==> l.last_status
            == ApplicationReturnStatus::SolveSucceeded,
{
}

/// A measured violation is reported as it is, and no error is below it; the
/// scaled numbers follow only where no row was scaled.
pub proof fn law_recorded_violation(
    s: &mut SolveStatistics,
    violation: Number,
    scaled: Option<bool>,
)
    requires
        call_ensures(record_measured_violation, (s, violation, scaled), ()),
        !violation.nan(),
    ensures
        final(s).final_unscaled_constr_viol == violation,
        violation.le_spec(final(s).final_unscaled_kkt_error),
        !old(s).final_unscaled_kkt_error.nan() ==> old(s).final_unscaled_kkt_error.le_spec(
            final(s).final_unscaled_kkt_error,
        ),
        final(s).final_unscaled_kkt_error == old(s).final_unscaled_kkt_error
            || final(s).final_unscaled_kkt_error == violation,
        scaled == Some(false) ==> {
            &&& final(s).final_constr_viol == violation
            &&& violation.le_spec(final(s).final_kkt_error)
            &&& violation.le_spec(final(s).final_kkt_error_above_noise)
            &&& final(s).final_kkt_error == old(s).final_kkt_error || final(s).final_kkt_error
                == violation
            &&& final(s).final_kkt_error_above_noise == old(s).final_kkt_error_above_noise
                || final(s).final_kkt_error_above_noise == violation
        },
        scaled != Some(false) ==> {
            &&& final(s).final_constr_viol == old(s).final_constr_viol
            &&& final(s).final_kkt_error == old(s).final_kkt_error
            &&& final(s).final_kkt_error_above_noise == old(s).final_kkt_error_above_noise
        },
        final(s).final_objective == old(s).final_objective,
        final(s).final_dual_inf == old(s).final_dual_inf,
        final(s).iteration_count == old(s).iteration_count,
{
}

/// A message on a refused choice names the choice.
pub proof fn law_messages(value: &str, selection: String, linear: String)
    requires
        call_ensures(unsupported_selection_message, (value,), selection),
        call_ensures(IpoptApplication::unimplemented_linear_solver_message, (value,), linear),
    ensures
        exists|k: int|
            0 <= k && k + value@.len() <= selection@.len() && #[trigger] selection@.subrange(
                k,
                k + value@.len(),
            ) == value@,
        exists|k: int|
            0 <= k && k + value@.len() <= linear@.len() && #[trigger] linear@.subrange(
                k,
                k + value@.len(),
            ) == value@,
{
    let k = "pounce: solver_selection="@.len() as int;
    let j = "pounce: linear_solver="@.len() as int;
    assert(selection@.subrange(k, k + value@.len()) =~= value@);
    assert(linear@.subrange(j, j + value@.len()) =~= value@);
}

/// Past the l1 penalty a model with rows falls back on it where the caller asked
/// for that and did not switch it on; without rows it never does.
pub proof fn law_route_past_the_penalty(
    a: IpoptApplication,
    m: i32,
    penalty: bool,
    fallback: bool,
    retry: bool,
    r: Route,
)
    requires
        call_ensures(IpoptApplication::route_past_l1, (&a, m), r),
        call_ensures(IpoptApplication::is_l1_penalty_enabled, (&a,), penalty),
        call_ensures(IpoptApplication::is_l1_fallback_enabled, (&a,), fallback),
        call_ensures(IpoptApplication::is_dual_divergence_retry_enabled, (&a,), retry),
    ensures
        penalty <==> answer_given(a.options@, "l1_exact_penalty_barrier"@) == Some(true),
        fallback <==> answer_given(a.options@, "l1_fallback_on_restoration_failure"@) == Some(
            true,
        ),
        r == Route::L1Fallback <==> m > 0 && fallback && !penalty,
        r == Route::DualDivergenceRetry <==> retry && !(m > 0 && fallback && !penalty),
        r == Route::Standard <==> !retry && !(m > 0 && fallback && !penalty),
{
    lemma_yes_is_not_no();
}

/// Each block of an iterate has its own dimension, in the order of the blocks.
pub proof fn law_dimensions(c: IteratesVector, r: [i32; 8])
    requires
        call_ensures(iterates_dims, (&c,), r),
    ensures
        r@[0] == c.x.len(),
        r@[1] == c.s.len(),
        r@[2] == c.y_c.len(),
        r@[3] == c.y_d.len(),
        r@[4] == c.z_l.len(),
        r@[5] == c.z_u.len(),
        r@[6] == c.v_l.len(),
        r@[7] == c.v_u.len(),
{
    let d = c.dims();
    assert(r@[0] == d[0] && r@[1] == d[1] && r@[2] == d[2] && r@[3] == d[3] && r@[4] == d[4]
        && r@[5] == d[5] && r@[6] == d[6] && r@[7] == d[7]);
}

/// A slice holds the numbers of its range, and a copy all of them, each in place.
pub proof fn law_copies(
    v: Vec<Number>,
    w: Vec<usize>,
    from: usize,
    to: usize,
    part: Vec<Number>,
    whole: Vec<Number>,
    indices: Vec<usize>,
    i: int,
)
    requires
        from <= to <= v.len(),
        call_ensures(slice_numbers, (&v, from, to), part),
        call_ensures(copy_numbers, (&v,), whole),
        call_ensures(copy_indices, (&w,), indices),
    ensures
        part.len() == to - from,
        0 <= i < part.len() ==> part@[i] == v@[from + i],
        whole.len() == v.len(),
        0 <= i < v.len() ==> whole@[i] == v@[i],
        indices.len() == w.len(),
        0 <= i < w.len() ==> indices@[i] == w@[i],
{
}

/// Presolve is switched off for one solve and is afterwards as it was before.
pub proof fn law_presolve_is_resumed(a: &mut IpoptApplication, b: &mut IpoptApplication, kept: bool)
    requires
        call_ensures(IpoptApplication::suspend_presolve, (a,), kept),
        *old(b) == *final(a),
        call_ensures(IpoptApplication::resume_presolve, (b, kept), ()),
    ensures
        final(a).presolve_already_applied,
        *final(b) == *old(a),
{
}

/// Initializing succeeds and changes nothing, and an application holds the options
/// that it was made with.
pub proof fn law_beginnings(
    a: &mut IpoptApplication,
    r: Result<(), ()>,
    o: OptionsList,
    ma57: bool,
    b: IpoptApplication,
)
    requires
        call_ensures(IpoptApplication::initialize, (a,), r),
        call_ensures(IpoptApplication::with_options, (o, ma57), b),
    ensures
        r is Ok,
        *final(a) == *old(a),
        b.options == o,
        b.ma57_available == ma57,
        b.statistics.iteration_count == 0,
        b.statistics.final_objective.nan(),
        b.last_finalize is None,
        b.sqp_last_working_set is None,
        b.variable_scaling is None,
        b.row_scaling_active is None,
        !b.presolve_already_applied,
{
}

/// What the last solve left is what is told of it.
pub proof fn law_left_behind<'a>(
    a: IpoptApplication,
    scaling: Option<&'a Vec<Number>>,
)
    requires
        call_ensures(IpoptApplication::variable_scaling, (&a,), scaling),
    ensures
        scaling is None <==> a.variable_scaling is None,
        scaling matches Some(v) ==> a.variable_scaling == Some(*v),
{
}

/// How the SQP driver's endings are told: a success only of an optimum,
/// infeasibility only of an infeasible subproblem, the iteration limit of both
/// limits, and a failed step of both failures.
pub proof fn law_sqp_statuses(s: SqpStatus, r: (ApplicationReturnStatus, SolverReturn))
    requires
        call_ensures(sqp_statuses, (s,), r),
    ensures
        r.0 == ApplicationReturnStatus::SolveSucceeded <==> s == SqpStatus::Optimal,
        r.1 == SolverReturn::Success <==> s == SqpStatus::Optimal,
        r.0 == ApplicationReturnStatus::InfeasibleProblemDetected <==> s
            == SqpStatus::InfeasibleSubproblem,
        r.1 == SolverReturn::LocalInfeasibility <==> s == SqpStatus::InfeasibleSubproblem,
        r.0 == ApplicationReturnStatus::MaximumIterationsExceeded <==> s == SqpStatus::MaxIter || s
            == SqpStatus::QpIterationLimit,
        r.1 == SolverReturn::MaxiterExceeded <==> s == SqpStatus::MaxIter || s
            == SqpStatus::QpIterationLimit,
        r.0 == ApplicationReturnStatus::SearchDirectionBecomesTooSmall <==> s
            == SqpStatus::LineSearchFailed || s == SqpStatus::QpStepFailed,
        r.1 == SolverReturn::ErrorInStepComputation <==> s == SqpStatus::LineSearchFailed || s
            == SqpStatus::QpStepFailed,
        r.0 == ApplicationReturnStatus::DivergingIterates <==> s == SqpStatus::Unbounded,
        r.1 == SolverReturn::DivergingIterates <==> s == SqpStatus::Unbounded,
        r.0 == ApplicationReturnStatus::InvalidNumberDetected <==> s == SqpStatus::InvalidNumber,
        r.1 == SolverReturn::InvalidNumberDetected <==> s == SqpStatus::InvalidNumber,
{
}

/// A run is recorded and concluded with the same statuses and the same numbers.
pub proof fn law_recorded_run_is_the_concluded_one(
    a: &mut IpoptApplication,
    b: &mut IpoptApplication,
    r: RunRecord,
    iterations: Vec<IterRecord>,
    statuses: (ApplicationReturnStatus, SolverReturn),
    e: RunEnding,
)
    requires
        *old(a) == *old(b),
        call_ensures(IpoptApplication::record_run, (a, &r, iterations), statuses),
        call_ensures(IpoptApplication::conclude_run, (b, &r, iterations), e),
    ensures
        *final(a) == *final(b),
        statuses == (e.status, e.solver_status),
{
}

} // verus!
