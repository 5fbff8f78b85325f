//! Whose answer is reported after a second attempt, by the two answers and the
//! options.
use crate::application::IpoptApplication;
use crate::decimal::D0;
use crate::decimal::D1;
use crate::decimal::D1EM6;
use crate::laws::given::anything_given;
use crate::laws::given::answer_given;
use crate::laws::given::number_given;
use crate::laws::given::number_or;
use crate::laws::given::stands_at;
use crate::laws::given::text_given;
use crate::number::lemma_times_one;
use crate::number::Number;
use crate::options::Held;
use crate::options::OptionsView;
use crate::second_opinion::Floor;
use crate::second_opinion::Resolution;
use crate::second_opinion::RetryVerdict;
use crate::statistics::FinalizeSnapshot;
use crate::statistics::SolutionCertificate;
use crate::statistics::SolveStatistics;
use crate::status::ApplicationReturnStatus;
use vstd::prelude::*;

verus! {

/// The model is a maximization: the caller set a negative objective factor, or a
/// negative one is registered.
pub open spec fn maximizes(o: OptionsView) -> bool {
    stands_at(o, "obj_scaling_factor"@) matches Some(Held::Numeric(v)) && v.lt_spec(
        Number { bits: D0 },
    )
}

/// The tolerance that second answers are held to: the caller's `acceptable_tol`,
/// or 1e-6.
pub open spec fn answer_tol(o: OptionsView) -> Number {
    number_or(number_given(o, "acceptable_tol"@), Number { bits: D1EM6 })
}

/// By how much two objectives may differ and count as equal.
pub open spec fn slack_at(objective: Number, tol: Number) -> Number {
    tol.times_spec(
        if (Number { bits: D1 }).le_spec(objective.abs_spec()) {
            objective.abs_spec()
        } else {
            Number { bits: D1 }
        },
    )
}

/// The first answer is feasible and has an objective.
pub open spec fn first_is_sound(c: SolutionCertificate, tol: Number) -> bool {
    c.objective.finite() && c.unscaled_constr_viol.finite() && c.unscaled_constr_viol.le_spec(tol)
}

proof fn lemma_names()
    ensures
        "perturb_always_cd"@ != "obj_scaling_factor"@,
        "perturb_always_cd"@ != "acceptable_tol"@,
        "perturb_always_cd"@ != "mu_strategy"@,
{
    reveal_strlit("perturb_always_cd");
    reveal_strlit("obj_scaling_factor");
    reveal_strlit("acceptable_tol");
    reveal_strlit("mu_strategy");
    assert("perturb_always_cd"@.len() == 17);
    assert("obj_scaling_factor"@.len() == 18);
    assert("acceptable_tol"@.len() == 14);
    assert("mu_strategy"@.len() == 11);
}

/// Negating both terms of a sum negates it, up to the sign of a zero.
proof fn lemma_negated_sum(a: Number, b: Number)
    ensures
        a.neg_spec().plus_spec(b).key() == -a.minus_spec(b).key() || a.minus_spec(b).nan()
            && a.neg_spec().plus_spec(b).nan(),
        a.neg_spec().plus_spec(b).nan() == a.minus_spec(b).nan(),
        a.neg_spec().minus_spec(b).nan() == a.plus_spec(b).nan(),
        a.neg_spec().minus_spec(b).key() == -a.plus_spec(b).key() || a.plus_spec(b).nan(),
{
    if !a.nan() && !b.nan() {
        assert(a.neg_spec().units() == -a.units());
        assert(b.neg_spec().units() == -b.units());
    }
}

/// In a minimization a second answer against runaway multipliers that replaces a
/// feasible first one never has a higher objective, beyond the slack, and pays
/// for a lower one with no feasibility. It is a success whose error and violation
/// are within the tolerance, with an error strictly below the first one's.
pub proof fn law_promoted_minimum_is_no_higher(
    a: &mut IpoptApplication,
    floor: Floor,
    status: ApplicationReturnStatus,
    r: Resolution,
)
    requires
        call_ensures(IpoptApplication::finish_dual_divergence_retry, (a, floor, status), r),
        r.promoted,
        !maximizes(old(a).options@),
        first_is_sound(floor.certificate, answer_tol(old(a).options@)),
    ensures
        old(a).statistics.final_objective.finite(),
        !floor.certificate.objective.plus_spec(
            slack_at(floor.certificate.objective, answer_tol(old(a).options@)),
        ).lt_spec(old(a).statistics.final_objective),
        old(a).statistics.final_objective.lt_spec(
            floor.certificate.objective.minus_spec(
                slack_at(floor.certificate.objective, answer_tol(old(a).options@)),
            ),
        ) ==> old(a).statistics.final_unscaled_constr_viol.le_spec(
            floor.certificate.unscaled_constr_viol,
        ),
{
    lemma_names();
    lemma_times_one(floor.certificate.objective);
    if old(a).statistics.final_objective.finite() {
        lemma_times_one(old(a).statistics.final_objective);
    }
}

/// In a maximization such an answer never has a lower objective, beyond the
/// slack, and pays for a higher one with no feasibility.
pub proof fn law_promoted_maximum_is_no_lower(
    a: &mut IpoptApplication,
    floor: Floor,
    status: ApplicationReturnStatus,
    r: Resolution,
)
    requires
        call_ensures(IpoptApplication::finish_dual_divergence_retry, (a, floor, status), r),
        r.promoted,
        maximizes(old(a).options@),
        first_is_sound(floor.certificate, answer_tol(old(a).options@)),
    ensures
        old(a).statistics.final_objective.finite(),
        !old(a).statistics.final_objective.lt_spec(
            floor.certificate.objective.minus_spec(
                slack_at(floor.certificate.objective, answer_tol(old(a).options@)),
            ),
        ),
        floor.certificate.objective.plus_spec(
            slack_at(floor.certificate.objective, answer_tol(old(a).options@)),
        ).lt_spec(old(a).statistics.final_objective)
            ==> old(a).statistics.final_unscaled_constr_viol.le_spec(
            floor.certificate.unscaled_constr_viol,
        ),
{
    lemma_names();
    let b = floor.certificate.objective;
    let slack = slack_at(b, answer_tol(old(a).options@));
    lemma_times_one(b);
    if old(a).statistics.final_objective.finite() {
        lemma_times_one(old(a).statistics.final_objective);
    }
    lemma_negated_sum(b, slack);
}

/// What a promoted second answer must be, in either sense: a success within the
/// tolerance, with an error strictly below the first one's. It is then what is
/// reported, with its own numbers, and nothing is delivered again.
pub proof fn law_promoted_answer_is_a_better_success(
    a: &mut IpoptApplication,
    floor: Floor,
    status: ApplicationReturnStatus,
    r: Resolution,
)
    requires
        call_ensures(IpoptApplication::finish_dual_divergence_retry, (a, floor, status), r),
        r.promoted,
    ensures
        status == ApplicationReturnStatus::SolveSucceeded,
        r.status == ApplicationReturnStatus::SolveSucceeded,
        old(a).statistics.final_unscaled_kkt_error.le_spec(answer_tol(old(a).options@)),
        old(a).statistics.final_unscaled_constr_viol.le_spec(answer_tol(old(a).options@)),
        old(a).statistics.final_unscaled_kkt_error.lt_spec(floor.certificate.unscaled_kkt_error),
        r.replay is None,
        r.trace is None,
        r.report matches Some(q) && q.verdict == RetryVerdict::Promoted,
        final(a).statistics.final_objective == old(a).statistics.final_objective,
        final(a).statistics.final_unscaled_kkt_error
            == old(a).statistics.final_unscaled_kkt_error,
        final(a).statistics.final_unscaled_constr_viol
            == old(a).statistics.final_unscaled_constr_viol,
        final(a).statistics.iteration_count == old(a).statistics.iteration_count,
        final(a).statistics.dual_divergence_retry_promoted,
        final(a).dual_divergence_retry_promoted,
        final(a).answer_restored_from_floor == old(a).answer_restored_from_floor,
        text_given(final(a).options@, "perturb_always_cd"@) == Some(floor.restore@),
{
    lemma_names();
}

/// A second answer that earns it is promoted: a success within the tolerance,
/// with a smaller error, beside a first answer that is infeasible, or with an
/// objective that is neither worse nor better beyond the slack.
pub proof fn law_earned_promotion_is_given(
    a: &mut IpoptApplication,
    floor: Floor,
    r: Resolution,
)
    requires
        call_ensures(
            IpoptApplication::finish_dual_divergence_retry,
            (a, floor, ApplicationReturnStatus::SolveSucceeded),
            r,
        ),
        old(a).statistics.final_unscaled_kkt_error.le_spec(answer_tol(old(a).options@)),
        old(a).statistics.final_unscaled_constr_viol.le_spec(answer_tol(old(a).options@)),
        old(a).statistics.final_unscaled_kkt_error.lt_spec(floor.certificate.unscaled_kkt_error),
    ensures
        answer_tol(old(a).options@).lt_spec(floor.certificate.unscaled_constr_viol) ==> r.promoted,
        !floor.certificate.objective.finite() ==> r.promoted,
        old(a).statistics.final_objective.finite() && old(a).statistics.final_objective.le_spec(
            floor.certificate.objective.plus_spec(
                slack_at(floor.certificate.objective, answer_tol(old(a).options@)),
            ),
        ) && floor.certificate.objective.minus_spec(
            slack_at(floor.certificate.objective, answer_tol(old(a).options@)),
        ).le_spec(old(a).statistics.final_objective) ==> r.promoted,
        first_is_sound(floor.certificate, answer_tol(old(a).options@)) && !maximizes(
            old(a).options@,
        ) && old(a).statistics.final_objective.finite() && old(a).statistics.final_unscaled_constr_viol.finite() && old(a).statistics.final_objective.le_spec(
            floor.certificate.objective.plus_spec(
                slack_at(floor.certificate.objective, answer_tol(old(a).options@)),
            ),
        ) && old(a).statistics.final_unscaled_constr_viol.le_spec(
            floor.certificate.unscaled_constr_viol,
        ) ==> r.promoted,
{
    lemma_names();
    let b = floor.certificate.objective;
    let slack = slack_at(b, answer_tol(old(a).options@));
    if b.finite() {
        lemma_times_one(b);
    }
    if old(a).statistics.final_objective.finite() {
        lemma_times_one(old(a).statistics.final_objective);
    }
    lemma_negated_sum(b, slack);
}

/// In a maximization a better certificate with an objective that is not lower,
/// at no cost in feasibility, is promoted. In either sense a worse objective beside a sound first answer is
/// reported as a refused answer, and so is one that is not a number.
pub proof fn law_refused_answers_are_reported(
    a: &mut IpoptApplication,
    floor: Floor,
    status: ApplicationReturnStatus,
    r: Resolution,
)
    requires
        call_ensures(IpoptApplication::finish_dual_divergence_retry, (a, floor, status), r),
        first_is_sound(floor.certificate, answer_tol(old(a).options@)),
    ensures
        r.report is Some,
        !old(a).statistics.final_objective.finite() ==> r.report->0.verdict
            == RetryVerdict::AnswerRefused,
        !maximizes(old(a).options@) && floor.certificate.objective.plus_spec(
            slack_at(floor.certificate.objective, answer_tol(old(a).options@)),
        ).lt_spec(old(a).statistics.final_objective) ==> r.report->0.verdict
            == RetryVerdict::AnswerRefused,
        maximizes(old(a).options@) && old(a).statistics.final_objective.lt_spec(
            floor.certificate.objective.minus_spec(
                slack_at(floor.certificate.objective, answer_tol(old(a).options@)),
            ),
        ) ==> r.report->0.verdict == RetryVerdict::AnswerRefused,
        status == ApplicationReturnStatus::SolveSucceeded
            && old(a).statistics.final_unscaled_kkt_error.le_spec(answer_tol(old(a).options@))
            && old(a).statistics.final_unscaled_constr_viol.le_spec(answer_tol(old(a).options@))
            && old(a).statistics.final_unscaled_kkt_error.lt_spec(
            floor.certificate.unscaled_kkt_error,
        ) && maximizes(old(a).options@) && old(a).statistics.final_objective.finite()
            && old(a).statistics.final_unscaled_constr_viol.finite()
            && floor.certificate.objective.minus_spec(
            slack_at(floor.certificate.objective, answer_tol(old(a).options@)),
        ).le_spec(old(a).statistics.final_objective)
            && old(a).statistics.final_unscaled_constr_viol.le_spec(
            floor.certificate.unscaled_constr_viol,
        ) ==> r.promoted,
{
    lemma_names();
    let b = floor.certificate.objective;
    let slack = slack_at(b, answer_tol(old(a).options@));
    lemma_times_one(b);
    if old(a).statistics.final_objective.finite() {
        lemma_times_one(old(a).statistics.final_objective);
    }
    lemma_negated_sum(b, slack);
}

/// Every number of the statistics that describes an answer is that of the
/// certificate.
pub open spec fn reports(s: SolveStatistics, c: SolutionCertificate) -> bool {
    &&& s.final_objective == c.objective
    &&& s.final_scaled_objective == c.scaled_objective
    &&& s.final_dual_inf == c.dual_inf
    &&& s.final_constr_viol == c.constr_viol
    &&& s.final_compl == c.compl
    &&& s.final_kkt_error == c.kkt_error
    &&& s.final_unscaled_dual_inf == c.unscaled_dual_inf
    &&& s.final_unscaled_constr_viol == c.unscaled_constr_viol
    &&& s.final_unscaled_compl == c.unscaled_compl
    &&& s.final_unscaled_kkt_error == c.unscaled_kkt_error
    &&& s.final_kkt_error_above_noise == c.kkt_error_above_noise
    &&& s.final_mu == c.mu
    &&& s.final_declared_constr_viol == c.declared_constr_viol
    &&& s.final_declared_box_viol == c.declared_box_viol
}

/// Both solutions deliver the same.
pub open spec fn delivers_again(d: FinalizeSnapshot, s: FinalizeSnapshot) -> bool {
    &&& d.status == s.status
    &&& d.x@ == s.x@
    &&& d.z_l@ == s.z_l@
    &&& d.z_u@ == s.z_u@
    &&& d.g@ == s.g@
    &&& d.lambda@ == s.lambda@
    &&& d.obj_value == s.obj_value
}

/// What was spent is the same in both statistics.
pub open spec fn same_cost(s: SolveStatistics, t: SolveStatistics) -> bool {
    &&& s.iteration_count == t.iteration_count
    &&& s.sqp_qp_solves == t.sqp_qp_solves
    &&& s.sqp_qp_working_set_changes == t.sqp_qp_working_set_changes
    &&& s.total_wallclock_time_secs == t.total_wallclock_time_secs
    &&& s.restoration_calls == t.restoration_calls
    &&& s.restoration_inner_iters == t.restoration_inner_iters
    &&& s.restoration_outer_iters == t.restoration_outer_iters
    &&& s.restoration_wall_secs == t.restoration_wall_secs
    &&& s.quality_escalations == t.quality_escalations
    &&& s.num_obj_evals == t.num_obj_evals
    &&& s.num_obj_grad_evals == t.num_obj_grad_evals
    &&& s.num_constr_evals == t.num_constr_evals
    &&& s.num_constr_jac_evals == t.num_constr_jac_evals
    &&& s.num_hess_evals == t.num_hess_evals
    &&& s.iterations == t.iterations
}

/// A second answer that is not promoted leaves the first: its status is reported,
/// its solution and its last row are delivered again, and the statistics hold its
/// numbers with what both attempts spent.
pub proof fn law_lost_dual_retry_is_undone(
    a: &mut IpoptApplication,
    floor: Floor,
    status: ApplicationReturnStatus,
    r: Resolution,
)
    requires
        call_ensures(IpoptApplication::finish_dual_divergence_retry, (a, floor, status), r),
        !r.promoted,
    ensures
        r.status == floor.first_status,
        r.replay == floor.solution,
        r.report matches Some(q) && q.verdict != RetryVerdict::Promoted,
        floor.solution is Some ==> {
            &&& r.trace == floor.trace
            &&& reports(final(a).statistics, floor.certificate)
            &&& same_cost(final(a).statistics, old(a).statistics)
            &&& final(a).answer_restored_from_floor
            &&& final(a).statistics.dual_divergence_signature
            &&& final(a).last_iter_stats == (if floor.trace is Some {
                floor.trace
            } else {
                old(a).last_iter_stats
            })
            &&& final(a).last_finalize matches Some(d) && delivers_again(d, floor.solution->0)
        },
        final(a).dual_divergence_retry_promoted == old(a).dual_divergence_retry_promoted,
        text_given(final(a).options@, "perturb_always_cd"@) == Some(floor.restore@),
        status != ApplicationReturnStatus::SolveSucceeded ==> !r.promoted,
{
    lemma_names();
}

/// The comparison that is reported holds the two answers side by side, each
/// number under its own name.
pub proof fn law_comparison_is_of_the_two(
    a: &mut IpoptApplication,
    floor: Floor,
    status: ApplicationReturnStatus,
    r: Resolution,
)
    requires
        call_ensures(IpoptApplication::finish_dual_divergence_retry, (a, floor, status), r),
    ensures
        r.report matches Some(q) && {
            &&& q.retry_status == status
            &&& q.base_kkt_error == floor.certificate.unscaled_kkt_error
            &&& q.retry_kkt_error == old(a).statistics.final_unscaled_kkt_error
            &&& q.base_objective == floor.certificate.objective
            &&& q.retry_objective == old(a).statistics.final_objective
            &&& q.base_constr_viol == floor.certificate.unscaled_constr_viol
            &&& q.retry_constr_viol == old(a).statistics.final_unscaled_constr_viol
            &&& q.verdict == RetryVerdict::Promoted <==> r.promoted
        },
{
}

/// A second solve against runaway multipliers is begun only after an attempt that
/// saw them and ended at the acceptable level or in a failed restoration, with a
/// dual residual that is finite, at least the floor, and a million times the
/// other two. The first answer is kept in full, and one option is changed.
pub proof fn law_dual_retry_begins(
    a: &mut IpoptApplication,
    status: ApplicationReturnStatus,
    r: Option<Floor>,
    other: Seq<char>,
)
    requires
        call_ensures(IpoptApplication::begin_dual_divergence_retry, (a, status), r),
        other != "perturb_always_cd"@,
    ensures
        r is None ==> *final(a) == *old(a),
        r matches Some(f) ==> {
            &&& old(a).dual_divergence_signature
            &&& status == ApplicationReturnStatus::SolvedToAcceptableLevel || status
                == ApplicationReturnStatus::RestorationFailed
            &&& old(a).statistics.final_unscaled_dual_inf.finite()
            &&& (Number { bits: D0 }).lt_spec(old(a).statistics.final_unscaled_dual_inf)
            &&& old(a).statistics.final_unscaled_constr_viol.le_spec(
                (Number { bits: D1EM6 }).times_spec(old(a).statistics.final_unscaled_dual_inf),
            )
            &&& old(a).statistics.final_unscaled_compl.le_spec(
                (Number { bits: D1EM6 }).times_spec(old(a).statistics.final_unscaled_dual_inf),
            )
            &&& f.first_status == status
            &&& reports(old(a).statistics, f.certificate)
            &&& f.trace == old(a).last_iter_stats
            &&& f.solution is Some <==> old(a).last_finalize is Some
            &&& old(a).last_finalize matches Some(d) ==> d.x@ == f.solution->0.x@ && d.z_l@
                == f.solution->0.z_l@ && d.z_u@ == f.solution->0.z_u@ && d.g@
                == f.solution->0.g@ && d.lambda@ == f.solution->0.lambda@ && d.obj_value
                == f.solution->0.obj_value && d.status == f.solution->0.status
            &&& text_given(final(a).options@, "perturb_always_cd"@) == Some("yes"@)
            &&& text_given(old(a).options@, "perturb_always_cd"@) matches Some(t) ==> f.restore@
                == t
            &&& text_given(old(a).options@, "perturb_always_cd"@) is None ==> f.restore@ == "no"@
            &&& final(a).statistics == old(a).statistics
        },
        stands_at(final(a).options@, other) == stands_at(old(a).options@, other),
        stands_at(old(a).options@, "dual_divergence_retry_du_floor"@) matches Some(
            Held::Numeric(v),
        ) ==> r is Some ==> v.le_spec(old(a).statistics.final_unscaled_dual_inf),
{
}

/// Such a second solve is begun wherever those conditions hold, the floor being
/// the option's number, or 100.
pub proof fn law_runaway_is_retried(
    a: &mut IpoptApplication,
    status: ApplicationReturnStatus,
    r: Option<Floor>,
    floor: Number,
)
    requires
        call_ensures(IpoptApplication::begin_dual_divergence_retry, (a, status), r),
        old(a).dual_divergence_signature,
        status == ApplicationReturnStatus::SolvedToAcceptableLevel || status
            == ApplicationReturnStatus::RestorationFailed,
        stands_at(old(a).options@, "dual_divergence_retry_du_floor"@) == Some(Held::Numeric(floor))
            || stands_at(old(a).options@, "dual_divergence_retry_du_floor"@) is None && floor == (
        Number { bits: 0x4059_0000_0000_0000 }),
        floor.le_spec(old(a).statistics.final_unscaled_dual_inf),
        old(a).statistics.final_unscaled_dual_inf.finite(),
        (Number { bits: D0 }).lt_spec(old(a).statistics.final_unscaled_dual_inf),
        old(a).statistics.final_unscaled_constr_viol.finite(),
        old(a).statistics.final_unscaled_compl.finite(),
        old(a).statistics.final_unscaled_constr_viol.le_spec(
            (Number { bits: D1EM6 }).times_spec(old(a).statistics.final_unscaled_dual_inf),
        ),
        old(a).statistics.final_unscaled_compl.le_spec(
            (Number { bits: D1EM6 }).times_spec(old(a).statistics.final_unscaled_dual_inf),
        ),
    ensures
        r is Some,
{
}

/// The adaptive barrier strategy is what the options come to: the caller named
/// it, or named none and asked for a limited-memory Hessian.
pub open spec fn comes_to_adaptive(o: OptionsView) -> bool {
    text_given(o, "mu_strategy"@) == Some("adaptive"@) || (text_given(o, "mu_strategy"@) is None
        && text_given(o, "hessian_approximation"@) == Some("limited-memory"@))
}

/// A second solve with the other barrier strategy is begun after two endings
/// alone. It runs the strategy that the first one did not, changes no other
/// option, and keeps the first answer in full.
pub proof fn law_flip_begins(
    a: &mut IpoptApplication,
    status: ApplicationReturnStatus,
    r: Option<Floor>,
    other: Seq<char>,
)
    requires
        call_ensures(IpoptApplication::begin_mu_strategy_fallback, (a, status), r),
        other != "mu_strategy"@,
    ensures
        r is None ==> *final(a) == *old(a),
        r matches Some(f) ==> {
            &&& status == ApplicationReturnStatus::MaximumIterationsExceeded || status
                == ApplicationReturnStatus::SolvedToAcceptableLevel
            &&& f.first_status == status
            &&& reports(old(a).statistics, f.certificate)
            &&& f.trace == old(a).last_iter_stats
            &&& f.solution is Some <==> old(a).last_finalize is Some
            &&& old(a).last_finalize matches Some(d) ==> d.x@ == f.solution->0.x@ && d.z_l@
                == f.solution->0.z_l@ && d.z_u@ == f.solution->0.z_u@ && d.g@
                == f.solution->0.g@ && d.lambda@ == f.solution->0.lambda@ && d.obj_value
                == f.solution->0.obj_value && d.status == f.solution->0.status
            &&& comes_to_adaptive(old(a).options@) ==> text_given(
                final(a).options@,
                "mu_strategy"@,
            ) == Some("monotone"@) && (f.restore@ == "adaptive"@)
            &&& !comes_to_adaptive(old(a).options@) ==> text_given(
                final(a).options@,
                "mu_strategy"@,
            ) == Some("adaptive"@)
            &&& text_given(old(a).options@, "mu_strategy"@) matches Some(t) ==> f.restore@ == t
            &&& text_given(old(a).options@, "mu_strategy"@) is None && !comes_to_adaptive(
                old(a).options@,
            ) ==> f.restore@ == "monotone"@
            &&& final(a).statistics == old(a).statistics
        },
        stands_at(final(a).options@, other) == stands_at(old(a).options@, other),
{
}

/// When the flip is worth a solve: always after running out of iterations without
/// an escalated factorization; after one, only where the escalation's own second
/// solve is switched off; at the acceptable level where the caller asked for it.
pub proof fn law_flip_is_spent(
    a: &mut IpoptApplication,
    status: ApplicationReturnStatus,
    r: Option<Floor>,
)
    requires
        call_ensures(IpoptApplication::begin_mu_strategy_fallback, (a, status), r),
    ensures
        status == ApplicationReturnStatus::MaximumIterationsExceeded && old(a).quality_escalations
            == 0 ==> r is Some,
        status == ApplicationReturnStatus::MaximumIterationsExceeded && old(a).quality_escalations
            > 0 && stands_at(old(a).options@, "feral_increase_quality_retry"@) is None && stands_at(
            old(a).options@,
            "feral_increase_quality"@,
        ) is None ==> r is None,
        status == ApplicationReturnStatus::MaximumIterationsExceeded && stands_at(
            old(a).options@,
            "feral_increase_quality_retry"@,
        ) == Some(Held::Text("no"@)) ==> r is Some,
        status == ApplicationReturnStatus::MaximumIterationsExceeded && stands_at(
            old(a).options@,
            "feral_increase_quality"@,
        ) == Some(Held::Text("no"@)) ==> r is Some,
        status == ApplicationReturnStatus::SolvedToAcceptableLevel && answer_given(
            old(a).options@,
            "mu_strategy_fallback"@,
        ) is Some ==> r is Some,
{
    reveal_strlit("yes");
    reveal_strlit("no");
    assert("yes"@.len() != "no"@.len());
}

/// The names of the options by which a caller sets a termination policy.
pub open spec fn policy_names() -> Seq<Seq<char>> {
    seq![
        "tol"@,
        "dual_inf_tol"@,
        "constr_viol_tol"@,
        "compl_inf_tol"@,
        "acceptable_tol"@,
        "acceptable_iter"@,
        "acceptable_dual_inf_tol"@,
        "acceptable_constr_viol_tol"@,
        "acceptable_compl_inf_tol"@,
        "acceptable_obj_change_tol"@,
        "kkt_fidelity_tol"@,
        "obj_scale_certificate_threshold"@,
        "dual_inf_scale_kappa"@,
        "primal_noise_floor_kappa"@,
        "dual_diverging_streak"@,
        "infeas_max_streak"@,
        "resto_decline_deferrals"@,
        "resto_decline_progress_ratio"@,
        "neg_curv_escapes"@,
        "limited_memory_ls_failure_restarts"@,
    ]
}

/// A caller has a termination policy exactly where one of those options is set,
/// and an answer at the acceptable level is then left alone unless the caller
/// asked for the second solve; without one it is retried.
pub proof fn law_policy_is_respected(
    a: &mut IpoptApplication,
    r: Option<Floor>,
    policy: bool,
)
    requires
        call_ensures(
            IpoptApplication::begin_mu_strategy_fallback,
            (a, ApplicationReturnStatus::SolvedToAcceptableLevel),
            r,
        ),
        call_ensures(IpoptApplication::caller_set_termination_policy, (&*old(a),), policy),
    ensures
        policy <==> exists|i: int|
            0 <= i < 20 && anything_given(old(a).options@, #[trigger] policy_names()[i]),
        answer_given(old(a).options@, "mu_strategy_fallback"@) is None ==> (r is Some <==> !policy),
{
    reveal_strlit("yes");
    reveal_strlit("no");
    assert("yes"@.len() != "no"@.len());
    let n = policy_names();
    let o = old(a).options@;
    assert(n[0] == "tol"@ && n[1] == "dual_inf_tol"@ && n[2] == "constr_viol_tol"@ && n[3]
        == "compl_inf_tol"@ && n[4] == "acceptable_tol"@ && n[5] == "acceptable_iter"@ && n[6]
        == "acceptable_dual_inf_tol"@ && n[7] == "acceptable_constr_viol_tol"@ && n[8]
        == "acceptable_compl_inf_tol"@ && n[9] == "acceptable_obj_change_tol"@);
    assert(n[10] == "kkt_fidelity_tol"@ && n[11] == "obj_scale_certificate_threshold"@ && n[12]
        == "dual_inf_scale_kappa"@ && n[13] == "primal_noise_floor_kappa"@ && n[14]
        == "dual_diverging_streak"@ && n[15] == "infeas_max_streak"@ && n[16]
        == "resto_decline_deferrals"@ && n[17] == "resto_decline_progress_ratio"@ && n[18]
        == "neg_curv_escapes"@ && n[19] == "limited_memory_ls_failure_restarts"@);
}

/// Of a second solve with the other barrier strategy only a success is reported.
/// Otherwise the first status, solution, last row and numbers come back. The
/// strategy is set back either way.
pub proof fn law_flip_ends(
    a: &mut IpoptApplication,
    floor: Floor,
    status: ApplicationReturnStatus,
    r: Resolution,
    other: Seq<char>,
)
    requires
        call_ensures(IpoptApplication::finish_mu_strategy_fallback, (a, floor, status), r),
        other != "mu_strategy"@,
    ensures
        r.promoted <==> status == ApplicationReturnStatus::SolveSucceeded,
        r.promoted ==> {
            &&& r.status == ApplicationReturnStatus::SolveSucceeded
            &&& r.replay is None
            &&& r.trace is None
            &&& final(a).statistics == old(a).statistics
            &&& final(a).last_finalize == old(a).last_finalize
        },
        !r.promoted ==> r.status == floor.first_status && r.replay == floor.solution,
        !r.promoted && floor.solution is Some ==> {
            &&& r.trace == floor.trace
            &&& reports(final(a).statistics, floor.certificate)
            &&& same_cost(final(a).statistics, old(a).statistics)
            &&& final(a).answer_restored_from_floor
            &&& final(a).last_iter_stats == (if floor.trace is Some {
                floor.trace
            } else {
                old(a).last_iter_stats
            })
            &&& final(a).last_finalize matches Some(d) && delivers_again(d, floor.solution->0)
        },
        text_given(final(a).options@, "mu_strategy"@) == Some(floor.restore@),
        stands_at(final(a).options@, other) == stands_at(old(a).options@, other),
{
}

/// The l1 penalty is tried again after five endings alone; it is switched on for
/// the try, set back after it, and only its success is reported.
pub proof fn law_l1_fallback(
    a: &mut IpoptApplication,
    first: ApplicationReturnStatus,
    restore: Option<String>,
    z: &mut IpoptApplication,
    back: String,
    retried: Option<ApplicationReturnStatus>,
    r: ApplicationReturnStatus,
    other: Seq<char>,
)
    requires
        call_ensures(IpoptApplication::begin_l1_fallback, (a, first), restore),
        call_ensures(IpoptApplication::finish_l1_fallback, (z, back, first, retried), r),
        other != "l1_exact_penalty_barrier"@,
    ensures
        restore is Some <==> first == ApplicationReturnStatus::RestorationFailed || first
            == ApplicationReturnStatus::InfeasibleProblemDetected || first
            == ApplicationReturnStatus::SolvedToAcceptableLevel || first
            == ApplicationReturnStatus::MaximumIterationsExceeded || first
            == ApplicationReturnStatus::NotEnoughDegreesOfFreedom,
        restore is None ==> *final(a) == *old(a),
        restore is Some ==> text_given(final(a).options@, "l1_exact_penalty_barrier"@) == Some(
            "yes"@,
        ),
        restore matches Some(t) ==> stands_at(
            old(a).options@,
            "l1_exact_penalty_barrier"@,
        ) matches Some(Held::Text(was)) ==> t@ == was,
        restore matches Some(t) ==> stands_at(old(a).options@, "l1_exact_penalty_barrier"@) is None
            ==> t@ == "no"@,
        final(a).statistics == old(a).statistics,
        stands_at(final(a).options@, other) == stands_at(old(a).options@, other),
        r == ApplicationReturnStatus::SolveSucceeded <==> first
            == ApplicationReturnStatus::SolveSucceeded || retried == Some(
            ApplicationReturnStatus::SolveSucceeded,
        ),
        retried != Some(ApplicationReturnStatus::SolveSucceeded) ==> r == first,
        text_given(final(z).options@, "l1_exact_penalty_barrier"@) == Some(back@),
        final(z).statistics == old(z).statistics,
        stands_at(final(z).options@, other) == stands_at(old(z).options@, other),
{
}

/// The certificate of an answer carries every number that describes it, and
/// putting it back leaves what was spent.
pub proof fn law_certificate(
    s: SolveStatistics,
    c: SolutionCertificate,
    t: &mut SolveStatistics,
    d: SolutionCertificate,
)
    requires
        call_ensures(SolutionCertificate::of, (&s,), c),
        call_ensures(SolutionCertificate::restore_into, (&d, t), ()),
    ensures
        reports(s, c),
        reports(*final(t), d),
        same_cost(*final(t), *old(t)),
        final(t).dual_divergence_signature == old(t).dual_divergence_signature,
        final(t).dual_divergence_retry_promoted == old(t).dual_divergence_retry_promoted,
        final(t).fd_hessian_pattern_used == old(t).fd_hessian_pattern_used,
        final(t).fd_hessian_nnz == old(t).fd_hessian_nnz,
        final(t).fd_hessian_n == old(t).fd_hessian_n,
        final(t).fd_hessian_groups == old(t).fd_hessian_groups,
        final(t).fd_hessian_rho_max == old(t).fd_hessian_rho_max,
{
}

/// Which second solves the options allow, by what the caller said.
pub proof fn law_allowed_second_solves(
    a: IpoptApplication,
    flip: bool,
    named: bool,
    asked: bool,
    dual: bool,
    adaptive: bool,
)
    requires
        call_ensures(IpoptApplication::is_mu_strategy_fallback_enabled, (&a,), flip),
        call_ensures(IpoptApplication::mu_strategy_was_set, (&a,), named),
        call_ensures(IpoptApplication::mu_strategy_fallback_was_set, (&a,), asked),
        call_ensures(IpoptApplication::is_dual_divergence_retry_enabled, (&a,), dual),
        call_ensures(IpoptApplication::effective_mu_strategy_is_adaptive, (&a,), adaptive),
    ensures
        named <==> text_given(a.options@, "mu_strategy"@) is Some,
        asked <==> answer_given(a.options@, "mu_strategy_fallback"@) is Some,
        answer_given(a.options@, "mu_strategy_fallback"@) matches Some(v) ==> flip == v,
        answer_given(a.options@, "mu_strategy_fallback"@) is None ==> flip == !named,
        dual <==> stands_at(a.options@, "dual_divergence_retry"@) != Some(Held::Text("no"@)),
        adaptive <==> comes_to_adaptive(a.options@),
{
    reveal_strlit("yes");
    reveal_strlit("no");
    assert("yes"@.len() != "no"@.len());
}

} // verus!
