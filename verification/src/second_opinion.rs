//! Solving a second time: when, under what option, and whose answer is
//! reported.
use crate::application::has_termination_policy;
use crate::application::resolves_to_adaptive;
use crate::application::IpoptApplication;
use crate::decimal::D0;
use crate::decimal::D1;
use crate::decimal::D1EM6;
use crate::number::one;
use crate::number::Number;
use crate::options::numeric_of;
use crate::options::numeric_or;
use crate::options::setting;
use crate::options::switch_of;
use crate::options::switch_set;
use crate::options::text_of;
use crate::options::text_set;
use crate::options::Held;
use crate::options::OptionsView;
use crate::options::Setting;
use crate::retry::admissible;
use crate::retry::retry_answer_is_admissible;
use crate::retry::runaway_is_the_whole_residual;
use crate::retry::whole_residual_is_dual;
use crate::retry::DUAL_DIV_RETRY_DU_FLOOR;
use crate::statistics::certificate_of;
use crate::statistics::with_certificate;
use crate::statistics::FinalizeSnapshot;
use crate::statistics::IterStats;
use crate::statistics::SolutionCertificate;
use crate::statistics::SolveStatistics;
use crate::status::is_l1_fallback_trigger;
use crate::status::l1_fallback_trigger;
use crate::status::ApplicationReturnStatus;
use vstd::prelude::*;

verus! {

/// What is kept of a first attempt while a second one runs.
#[derive(Debug)]
pub struct Floor {
    pub first_status: ApplicationReturnStatus,
    /// The solution that the first attempt delivered.
    pub solution: Option<FinalizeSnapshot>,
    pub certificate: SolutionCertificate,
    /// The last row of the first attempt's trace.
    pub trace: Option<IterStats>,
    /// The text to which the changed option is set back.
    pub restore: String,
}

/// What became of a second attempt against runaway multipliers.
#[derive(Clone, Copy, Debug, PartialEq, Eq, Structural)]
pub enum RetryVerdict {
    /// Its answer stands.
    Promoted,
    /// Its answer is not admissible beside the first.
    AnswerRefused,
    /// Its certificate is not good enough.
    Declined,
}

/// The two attempts, side by side, in the model's own units.
#[derive(Clone, Copy, Debug, PartialEq, Eq, Structural)]
pub struct RetryReport {
    pub verdict: RetryVerdict,
    pub retry_status: ApplicationReturnStatus,
    pub base_kkt_error: Number,
    pub retry_kkt_error: Number,
    pub base_objective: Number,
    pub retry_objective: Number,
    pub base_constr_viol: Number,
    pub retry_constr_viol: Number,
}

/// What is reported after a second attempt.
#[derive(Debug)]
pub struct Resolution {
    pub status: ApplicationReturnStatus,
    /// The second attempt's answer stands.
    pub promoted: bool,
    /// A solution that has to be delivered again.
    pub replay: Option<FinalizeSnapshot>,
    /// A row that ends the trace again.
    pub trace: Option<IterStats>,
    /// The comparison that decided, for a second attempt against runaway
    /// multipliers.
    pub report: Option<RetryReport>,
}

/// The options with a text set.
pub open spec fn with_text(o: OptionsView, name: Seq<char>, text: Seq<char>) -> OptionsView {
    o.insert(name, Setting { set: Some(Held::Text(text)), ..setting(o, name) })
}

/// Two kept solutions deliver the same, or there is none.
pub open spec fn same_solution(a: Option<FinalizeSnapshot>, b: Option<FinalizeSnapshot>) -> bool {
    match (a, b) {
        (Some(x), Some(y)) => x.same_as(y),
        (None, None) => true,
        _ => false,
    }
}

fn copy_solution(s: &Option<FinalizeSnapshot>) -> (r: Option<FinalizeSnapshot>)
    ensures
        same_solution(r, *s),
{
    match s {
        Some(x) => Some(x.duplicate()),
        None => None,
    }
}

/// What the floor keeps is the application's present answer.
pub open spec fn floors(f: Floor, a: IpoptApplication, first_status: ApplicationReturnStatus) -> bool {
    &&& f.first_status == first_status
    &&& same_solution(f.solution, a.last_finalize)
    &&& f.certificate == certificate_of(a.statistics)
    &&& f.trace == a.last_iter_stats
}

/// The application with nothing but its options changed.
pub open spec fn only_options_changed(before: IpoptApplication, after: IpoptApplication) -> bool {
    after == (IpoptApplication { options: after.options, ..before })
}

/// The first attempt ended in a way that the other barrier strategy may mend.
/// A solution at the acceptable level counts where the caller asked for the
/// second solve, or has no termination policy of their own.
pub open spec fn mu_retry_worthy(o: OptionsView, status: ApplicationReturnStatus) -> bool {
    ||| status == ApplicationReturnStatus::MaximumIterationsExceeded
    ||| status == ApplicationReturnStatus::SolvedToAcceptableLevel && (switch_set(
        o,
        "mu_strategy_fallback"@,
    ) is Some || !has_termination_policy(o))
}

/// The first attempt escalated its factorization and ran out of iterations, and
/// a solve without the escalation is to be had elsewhere.
pub open spec fn leaves_it_to_escalation_retry(
    o: OptionsView,
    status: ApplicationReturnStatus,
    escalations: u64,
) -> bool {
    &&& status == ApplicationReturnStatus::MaximumIterationsExceeded
    &&& escalations >= 1
    &&& switch_of(o, "feral_increase_quality_retry"@) != Some(false)
    &&& switch_of(o, "feral_increase_quality"@) != Some(false)
}

/// A second solve with the other barrier strategy is run.
pub open spec fn flips_mu(
    o: OptionsView,
    status: ApplicationReturnStatus,
    escalations: u64,
) -> bool {
    mu_retry_worthy(o, status) && !leaves_it_to_escalation_retry(o, status, escalations)
}

/// The name of the barrier strategy that the options do not resolve to.
pub open spec fn other_strategy(o: OptionsView) -> Seq<char> {
    if resolves_to_adaptive(o) {
        "monotone"@
    } else {
        "adaptive"@
    }
}

/// The name to which the barrier strategy is set back: what the caller named,
/// else what the options resolve to.
pub open spec fn strategy_to_restore(o: OptionsView) -> Seq<char> {
    match text_set(o, "mu_strategy"@) {
        Some(t) => t,
        None => if resolves_to_adaptive(o) {
            "adaptive"@
        } else {
            "monotone"@
        },
    }
}

/// The first attempt's numbers, with what both attempts spent. The solution and
/// the row that are delivered again are the last ones delivered.
pub open spec fn answer_put_back(
    before: IpoptApplication,
    f: Floor,
    after: IpoptApplication,
) -> bool {
    &&& same_solution(after.last_finalize, f.solution)
    &&& after == (IpoptApplication {
        answer_restored_from_floor: true,
        statistics: with_certificate(before.statistics, f.certificate),
        last_finalize: after.last_finalize,
        last_iter_stats: if f.trace is Some {
            f.trace
        } else {
            before.last_iter_stats
        },
        options: after.options,
        ..before
    })
}

/// The first attempt showed a point with a runaway multiplier and ended in one
/// of the two ways that this leads to.
pub open spec fn dual_retry_worthy(
    a: IpoptApplication,
    status: ApplicationReturnStatus,
) -> bool {
    let floor = match numeric_of(a.options@, "dual_divergence_retry_du_floor"@) {
        Some(v) => v,
        None => Number { bits: DUAL_DIV_RETRY_DU_FLOOR },
    };
    &&& a.dual_divergence_signature
    &&& status == ApplicationReturnStatus::SolvedToAcceptableLevel || status
        == ApplicationReturnStatus::RestorationFailed
    &&& whole_residual_is_dual(
        a.statistics.final_unscaled_dual_inf,
        a.statistics.final_unscaled_constr_viol,
        a.statistics.final_unscaled_compl,
        floor,
    )
}

/// The tolerance on the unscaled residuals of a second answer.
pub open spec fn accept_tol_of(o: OptionsView) -> Number {
    numeric_or(o, "acceptable_tol"@, Number { bits: D1EM6 })
}

/// 1 for a minimization, -1 for a maximization.
pub open spec fn sense_of(o: OptionsView) -> Number {
    match numeric_of(o, "obj_scaling_factor"@) {
        Some(v) => if v.lt_spec(Number { bits: D0 }) {
            one().neg_spec()
        } else {
            one()
        },
        None => one(),
    }
}

/// The second answer may stand beside the first.
pub open spec fn answer_fits(
    o: OptionsView,
    base: SolutionCertificate,
    retry: SolveStatistics,
) -> bool {
    admissible(
        base.objective,
        base.unscaled_constr_viol,
        retry.final_objective,
        retry.final_unscaled_constr_viol,
        accept_tol_of(o),
        sense_of(o),
    )
}

/// The second answer replaces the first: it is a success, it is one on the
/// model's own residuals, it is strictly better there, and it is admissible
/// beside the first.
pub open spec fn dual_retry_promotes(
    o: OptionsView,
    base: SolutionCertificate,
    retry: SolveStatistics,
    retry_status: ApplicationReturnStatus,
) -> bool {
    let tol = accept_tol_of(o);
    &&& retry_status == ApplicationReturnStatus::SolveSucceeded
    &&& retry.final_unscaled_kkt_error.le_spec(tol)
    &&& retry.final_unscaled_constr_viol.le_spec(tol)
    &&& retry.final_unscaled_kkt_error.lt_spec(base.unscaled_kkt_error)
    &&& answer_fits(o, base, retry)
}

/// The two attempts, side by side.
pub open spec fn comparison(
    o: OptionsView,
    base: SolutionCertificate,
    retry: SolveStatistics,
    retry_status: ApplicationReturnStatus,
) -> RetryReport {
    RetryReport {
        verdict: if dual_retry_promotes(o, base, retry, retry_status) {
            RetryVerdict::Promoted
        } else if !answer_fits(o, base, retry) {
            RetryVerdict::AnswerRefused
        } else {
            RetryVerdict::Declined
        },
        retry_status,
        base_kkt_error: base.unscaled_kkt_error,
        retry_kkt_error: retry.final_unscaled_kkt_error,
        base_objective: base.objective,
        retry_objective: retry.final_objective,
        base_constr_viol: base.unscaled_constr_viol,
        retry_constr_viol: retry.final_unscaled_constr_viol,
    }
}

/// The text to which the penalty switch is set back.
pub open spec fn penalty_to_restore(o: OptionsView) -> Seq<char> {
    match text_of(o, "l1_exact_penalty_barrier"@) {
        Some(t) => t,
        None => "no"@,
    }
}

/// How a second solve with the other barrier strategy begins, if it does.
pub open spec fn mu_begins(
    before: IpoptApplication,
    first_status: ApplicationReturnStatus,
    floor: Option<Floor>,
    after: IpoptApplication,
) -> bool {
    &&& floor is Some <==> flips_mu(before.options@, first_status, before.quality_escalations)
    &&& floor is None ==> after == before
    &&& floor matches Some(f) ==> {
        &&& floors(f, before, first_status)
        &&& f.restore@ == strategy_to_restore(before.options@)
        &&& only_options_changed(before, after)
        &&& after.options@ == with_text(
            before.options@,
            "mu_strategy"@,
            other_strategy(before.options@),
        )
    }
}

/// The trace row that goes with a solution that is put back.
pub open spec fn trace_put_back(f: Floor) -> Option<IterStats> {
    if f.solution is Some {
        f.trace
    } else {
        None
    }
}

/// How a second solve with the other barrier strategy is resolved. Only a
/// success replaces the first answer; otherwise status, point and numbers are
/// all put back.
pub open spec fn mu_finishes(
    before: IpoptApplication,
    floor: Floor,
    retry_status: ApplicationReturnStatus,
    r: Resolution,
    after: IpoptApplication,
) -> bool {
    &&& after.options@ == with_text(before.options@, "mu_strategy"@, floor.restore@)
    &&& r.report is None
    &&& r.promoted <==> retry_status == ApplicationReturnStatus::SolveSucceeded
    &&& r.promoted ==> {
        &&& r.status == retry_status
        &&& r.replay is None
        &&& r.trace is None
        &&& only_options_changed(before, after)
    }
    &&& !r.promoted ==> {
        &&& r.status == floor.first_status
        &&& r.replay == floor.solution
        &&& r.trace == trace_put_back(floor)
        &&& if floor.solution is Some {
            answer_put_back(before, floor, after)
        } else {
            only_options_changed(before, after)
        }
    }
}

/// The text to which the perturbation switch is set back.
pub open spec fn perturbation_to_restore(o: OptionsView) -> Seq<char> {
    match text_set(o, "perturb_always_cd"@) {
        Some(t) => t,
        None => "no"@,
    }
}

/// How a second solve against runaway multipliers begins, if it does.
pub open spec fn dual_begins(
    before: IpoptApplication,
    first_status: ApplicationReturnStatus,
    floor: Option<Floor>,
    after: IpoptApplication,
) -> bool {
    &&& floor is Some <==> dual_retry_worthy(before, first_status)
    &&& floor is None ==> after == before
    &&& floor matches Some(f) ==> {
        &&& floors(f, before, first_status)
        &&& f.restore@ == perturbation_to_restore(before.options@)
        &&& only_options_changed(before, after)
        &&& after.options@ == with_text(before.options@, "perturb_always_cd"@, "yes"@)
    }
}

/// The application in which the second answer stands.
pub open spec fn second_answer_stands(a: IpoptApplication) -> IpoptApplication {
    IpoptApplication {
        dual_divergence_retry_promoted: true,
        statistics: SolveStatistics { dual_divergence_retry_promoted: true, ..a.statistics },
        ..a
    }
}

/// The first answer is put back, with what its attempt saw.
pub open spec fn first_answer_stands(
    before: IpoptApplication,
    f: Floor,
    after: IpoptApplication,
) -> bool {
    if f.solution is Some {
        &&& after.statistics.dual_divergence_signature
        &&& answer_put_back(
            before,
            f,
            IpoptApplication {
                statistics: SolveStatistics {
                    dual_divergence_signature: before.statistics.dual_divergence_signature,
                    ..after.statistics
                },
                ..after
            },
        )
    } else {
        only_options_changed(before, after)
    }
}

/// How a second solve against runaway multipliers is resolved. Its answer
/// replaces the first only where it is better both as a certificate and as an
/// answer; otherwise status, point and numbers are all put back.
pub open spec fn dual_finishes(
    before: IpoptApplication,
    floor: Floor,
    retry_status: ApplicationReturnStatus,
    r: Resolution,
    after: IpoptApplication,
) -> bool {
    &&& after.options@ == with_text(before.options@, "perturb_always_cd"@, floor.restore@)
    &&& r.report == Some(
        comparison(after.options@, floor.certificate, before.statistics, retry_status),
    )
    &&& r.promoted <==> dual_retry_promotes(
        after.options@,
        floor.certificate,
        before.statistics,
        retry_status,
    )
    &&& r.promoted ==> {
        &&& r.status == retry_status
        &&& r.replay is None
        &&& r.trace is None
        &&& only_options_changed(second_answer_stands(before), after)
    }
    &&& !r.promoted ==> {
        &&& r.status == floor.first_status
        &&& r.replay == floor.solution
        &&& r.trace == trace_put_back(floor)
        &&& first_answer_stands(before, floor, after)
    }
}

/// How a second solve with the l1 penalty begins, if it does: the text to which
/// to set the switch back is kept.
pub open spec fn l1_begins(
    before: IpoptApplication,
    first_status: ApplicationReturnStatus,
    restore: Option<String>,
    after: IpoptApplication,
) -> bool {
    &&& restore is Some <==> l1_fallback_trigger(first_status)
    &&& restore is None ==> after == before
    &&& restore matches Some(t) ==> {
        &&& t@ == penalty_to_restore(before.options@)
        &&& only_options_changed(before, after)
        &&& after.options@ == with_text(before.options@, "l1_exact_penalty_barrier"@, "yes"@)
    }
}

/// How a second solve with the l1 penalty is resolved: only a success replaces
/// the first status.
pub open spec fn l1_finishes(
    before: IpoptApplication,
    restore: Seq<char>,
    first_status: ApplicationReturnStatus,
    retry_status: Option<ApplicationReturnStatus>,
    r: ApplicationReturnStatus,
    after: IpoptApplication,
) -> bool {
    &&& r == (if retry_status == Some(ApplicationReturnStatus::SolveSucceeded) {
        ApplicationReturnStatus::SolveSucceeded
    } else {
        first_status
    })
    &&& only_options_changed(before, after)
    &&& after.options@ == with_text(before.options@, "l1_exact_penalty_barrier"@, restore)
}

impl IpoptApplication {
    fn floor(&self, first_status: ApplicationReturnStatus, restore: String) -> (r: Floor)
        ensures
            floors(r, *self, first_status),
            r.restore == restore,
    {
        Floor {
            first_status,
            solution: copy_solution(&self.last_finalize),
            certificate: SolutionCertificate::of(&self.statistics),
            trace: self.last_iter_stats,
            restore,
        }
    }

    fn is_on_unless_no(&self, name: &str) -> (r: bool)
        ensures
            r == (switch_of(self.options@, name@) != Some(false)),
    {
        match self.options.get_bool_value(name) {
            Some((v, _set)) => v,
            None => true,
        }
    }

    /// Decides on a second solve with the other barrier strategy, given how the
    /// first one ended. Where there is to be one, the option is changed for it
    /// and the first answer is kept.
    #[verifier::spinoff_prover]
    #[verifier::rlimit(60)]
    pub fn begin_mu_strategy_fallback(&mut self, first_status: ApplicationReturnStatus) -> (r: Option<
        Floor,
    >)
        ensures
            mu_begins(*old(self), first_status, r, *final(self)),
    {
        let worthy = match first_status {
            ApplicationReturnStatus::MaximumIterationsExceeded => true,
            ApplicationReturnStatus::SolvedToAcceptableLevel => {
                self.mu_strategy_fallback_was_set() || !self.caller_set_termination_policy()
            },
            _ => false,
        };
        if !worthy {
            return None;
        }
        if first_status == ApplicationReturnStatus::MaximumIterationsExceeded
            && self.quality_escalations >= 1 && self.is_on_unless_no("feral_increase_quality_retry")
            && self.is_on_unless_no("feral_increase_quality") {
            return None;
        }
        let was_adaptive = self.effective_mu_strategy_is_adaptive();
        let restore = match self.options.set_text("mu_strategy") {
            Some(t) => t,
            None => {
                if was_adaptive {
                    "adaptive".to_owned()
                } else {
                    "monotone".to_owned()
                }
            },
        };
        let floor = self.floor(first_status, restore);
        if was_adaptive {
            self.options.set_string_value("mu_strategy", "monotone");
        } else {
            self.options.set_string_value("mu_strategy", "adaptive");
        }
        Some(floor)
    }

    /// Takes in how the second solve ended. Only a success replaces the first
    /// answer; otherwise status, point and numbers are all put back.
    pub fn finish_mu_strategy_fallback(
        &mut self,
        floor: Floor,
        retry_status: ApplicationReturnStatus,
    ) -> (r: Resolution)
        ensures
            mu_finishes(*old(self), floor, retry_status, r, *final(self)),
    {
        self.options.set_string_value("mu_strategy", floor.restore.as_str());
        if retry_status == ApplicationReturnStatus::SolveSucceeded {
            return Resolution {
                status: retry_status,
                promoted: true,
                replay: None,
                trace: None,
                report: None,
            };
        }
        let mut trace: Option<IterStats> = None;
        if floor.solution.is_some() {
            self.put_answer_back(&floor);
            trace = floor.trace;
        }
        Resolution {
            status: floor.first_status,
            promoted: false,
            replay: floor.solution,
            trace,
            report: None,
        }
    }

    /// Decides on a second solve against runaway multipliers, given how the
    /// first one ended.
    pub fn begin_dual_divergence_retry(&mut self, first_status: ApplicationReturnStatus) -> (r: Option<
        Floor,
    >)
        ensures
            dual_begins(*old(self), first_status, r, *final(self)),
    {
        if !self.dual_divergence_signature {
            return None;
        }
        let worthy = match first_status {
            ApplicationReturnStatus::SolvedToAcceptableLevel
            | ApplicationReturnStatus::RestorationFailed => true,
            _ => false,
        };
        if !worthy {
            return None;
        }
        let du_floor = match self.options.get_numeric_value("dual_divergence_retry_du_floor") {
            Some((v, _set)) => v,
            None => Number { bits: DUAL_DIV_RETRY_DU_FLOOR },
        };
        if !runaway_is_the_whole_residual(
            self.statistics.final_unscaled_dual_inf,
            self.statistics.final_unscaled_constr_viol,
            self.statistics.final_unscaled_compl,
            du_floor,
        ) {
            return None;
        }
        let restore = match self.options.set_text("perturb_always_cd") {
            Some(t) => t,
            None => "no".to_owned(),
        };
        let floor = self.floor(first_status, restore);
        self.options.set_string_value("perturb_always_cd", "yes");
        Some(floor)
    }

    /// The tolerance on the unscaled residuals of a second answer.
    pub fn dual_divergence_retry_accept_tol(&self) -> (r: Number)
        ensures
            r == accept_tol_of(self.options@),
    {
        self.options.numeric("acceptable_tol", Number { bits: D1EM6 })
    }

    fn objective_sense(&self) -> (r: Number)
        ensures
            r == sense_of(self.options@),
    {
        let plus = Number { bits: D1 };
        match self.options.get_numeric_value("obj_scaling_factor") {
            Some((v, _set)) => {
                if v.less(Number { bits: D0 }) {
                    plus.negated()
                } else {
                    plus
                }
            },
            None => plus,
        }
    }

    fn put_answer_back(&mut self, floor: &Floor)
        ensures
            answer_put_back(*old(self), *floor, *final(self)),
            final(self).options == old(self).options,
    {
        self.answer_restored_from_floor = true;
        floor.certificate.restore_into(&mut self.statistics);
        self.last_finalize = copy_solution(&floor.solution);
        if floor.trace.is_some() {
            self.last_iter_stats = floor.trace;
        }
    }

    /// Holds the answer in the statistics against the first one.
    fn compare(&self, base: &SolutionCertificate, retry_status: ApplicationReturnStatus) -> (r:
        RetryReport)
        ensures
            r == comparison(self.options@, *base, self.statistics, retry_status),
    {
        let tol = self.dual_divergence_retry_accept_tol();
        let kkt = self.statistics.final_unscaled_kkt_error;
        let viol = self.statistics.final_unscaled_constr_viol;
        let objective = self.statistics.final_objective;
        let genuine = kkt.at_most(tol) && viol.at_most(tol);
        let fits = retry_answer_is_admissible(
            base.objective,
            base.unscaled_constr_viol,
            objective,
            viol,
            tol,
            self.objective_sense(),
        );
        let promote = retry_status == ApplicationReturnStatus::SolveSucceeded && genuine
            && kkt.less(base.unscaled_kkt_error) && fits;
        RetryReport {
            verdict: if promote {
                RetryVerdict::Promoted
            } else if !fits {
                RetryVerdict::AnswerRefused
            } else {
                RetryVerdict::Declined
            },
            retry_status,
            base_kkt_error: base.unscaled_kkt_error,
            retry_kkt_error: kkt,
            base_objective: base.objective,
            retry_objective: objective,
            base_constr_viol: base.unscaled_constr_viol,
            retry_constr_viol: viol,
        }
    }

    /// Takes in how the second solve against runaway multipliers ended. Its
    /// answer replaces the first only where it is better both as a certificate
    /// and as an answer; otherwise status, point and numbers are all put back.
    pub fn finish_dual_divergence_retry(
        &mut self,
        floor: Floor,
        retry_status: ApplicationReturnStatus,
    ) -> (r: Resolution)
        ensures
            dual_finishes(*old(self), floor, retry_status, r, *final(self)),
    {
        self.options.set_string_value("perturb_always_cd", floor.restore.as_str());
        let report = self.compare(&floor.certificate, retry_status);
        if report.verdict == RetryVerdict::Promoted {
            self.dual_divergence_retry_promoted = true;
            self.statistics.dual_divergence_retry_promoted = true;
            return Resolution {
                status: retry_status,
                promoted: true,
                replay: None,
                trace: None,
                report: Some(report),
            };
        }
        let mut trace: Option<IterStats> = None;
        if floor.solution.is_some() {
            self.put_answer_back(&floor);
            self.statistics.dual_divergence_signature = true;
            trace = floor.trace;
        }
        Resolution {
            status: floor.first_status,
            promoted: false,
            replay: floor.solution,
            trace,
            report: Some(report),
        }
    }

    /// Decides on a second solve with the l1 penalty, given how the first one
    /// ended. Where there is to be one, the penalty is switched on for it, and
    /// the text to which to set the switch back is returned.
    pub fn begin_l1_fallback(&mut self, first_status: ApplicationReturnStatus) -> (r: Option<
        String,
    >)
        ensures
            l1_begins(*old(self), first_status, r, *final(self)),
    {
        if !is_l1_fallback_trigger(first_status) {
            return None;
        }
        let restore = match self.options.get_string_value("l1_exact_penalty_barrier") {
            Some((t, _set)) => t,
            None => "no".to_owned(),
        };
        self.options.set_string_value("l1_exact_penalty_barrier", "yes");
        Some(restore)
    }

    /// Takes in how the second solve with the l1 penalty ended; none means that
    /// it could not be run. Only a success replaces the first status.
    pub fn finish_l1_fallback(
        &mut self,
        restore: String,
        first_status: ApplicationReturnStatus,
        retry_status: Option<ApplicationReturnStatus>,
    ) -> (r: ApplicationReturnStatus)
        ensures
            l1_finishes(
                *old(self),
                restore@,
                first_status,
                retry_status,
                r,
                *final(self),
            ),
    {
        self.options.set_string_value("l1_exact_penalty_barrier", restore.as_str());
        match retry_status {
            Some(ApplicationReturnStatus::SolveSucceeded) => {
                ApplicationReturnStatus::SolveSucceeded
            },
            _ => first_status,
        }
    }
}

/// Setting an option for a second solve and setting it back leaves every option
/// but that one alone, and that one at the text to restore.
pub proof fn law_options_come_back(
    o: OptionsView,
    name: Seq<char>,
    during: Seq<char>,
    restore: Seq<char>,
    other: Seq<char>,
)
    ensures
        text_set(with_text(with_text(o, name, during), name, restore), name) == Some(restore),
        other != name ==> setting(with_text(with_text(o, name, during), name, restore), other)
            == setting(o, other),
        text_set(o, name) == Some(restore) ==> setting(
            with_text(with_text(o, name, during), name, restore),
            name,
        ) == setting(o, name),
{
}

/// The strategy of the second solve is never the one that the first one ran.
pub proof fn law_flip_changes_the_strategy(o: OptionsView)
    ensures
        resolves_to_adaptive(with_text(o, "mu_strategy"@, other_strategy(o)))
            != resolves_to_adaptive(o),
        resolves_to_adaptive(
            with_text(
                with_text(o, "mu_strategy"@, other_strategy(o)),
                "mu_strategy"@,
                strategy_to_restore(o),
            ),
        ) == resolves_to_adaptive(o),
{
    reveal_strlit("monotone");
    reveal_strlit("adaptive");
    reveal_strlit("mu_strategy");
    reveal_strlit("hessian_approximation");
    assert("monotone"@[0] == 'm');
    assert("adaptive"@[0] == 'a');
}

/// A second solve is spent on nothing but the two endings that it may mend.
pub proof fn law_mu_retry_is_scoped(
    o: OptionsView,
    status: ApplicationReturnStatus,
    escalations: u64,
)
    requires
        flips_mu(o, status, escalations),
    ensures
        status == ApplicationReturnStatus::MaximumIterationsExceeded || status
            == ApplicationReturnStatus::SolvedToAcceptableLevel,
        status == ApplicationReturnStatus::SolvedToAcceptableLevel && has_termination_policy(o)
            ==> switch_set(o, "mu_strategy_fallback"@) is Some,
{
}

/// A promoted second answer is a success that the model's own residuals bear
/// out, strictly better there than the first.
pub proof fn law_promotion_is_earned(
    o: OptionsView,
    base: SolutionCertificate,
    retry: SolveStatistics,
    retry_status: ApplicationReturnStatus,
)
    requires
        dual_retry_promotes(o, base, retry, retry_status),
    ensures
        retry_status == ApplicationReturnStatus::SolveSucceeded,
        retry.final_unscaled_kkt_error.le_spec(accept_tol_of(o)),
        retry.final_unscaled_kkt_error.lt_spec(base.unscaled_kkt_error),
        !retry.final_unscaled_kkt_error.nan(),
{
}

} // verus!
