//! The convergence check on the optimality error.
use crate::conv_check::Clock;
use crate::conv_check::ConvCheck;
use crate::conv_check::ConvergenceStatus;
use crate::conv_check::DeadlineKind;
use crate::conv_check::IterateState;
use crate::decimal::D0;
use crate::decimal::D1;
use crate::decimal::D1E10;
use crate::decimal::D1E2;
use crate::decimal::D1E20;
use crate::decimal::D1E6;
use crate::decimal::D1EM2;
use crate::decimal::D1EM4;
use crate::decimal::D1EM6;
use crate::decimal::D1EM8;
use crate::number::Number;
use crate::text::same;
use vstd::prelude::*;

verus! {

/// How many iterations a veto may spend before its bet is called off.
pub const VETO_MAX_EXTRA_ITERS: i32 = 60;

/// The tolerances, and the streaks that run from check to check.
#[derive(Clone, Copy, Debug, PartialEq, Eq, Structural)]
pub struct OptErrorConvCheck {
    pub tol: Number,
    pub dual_inf_tol: Number,
    pub constr_viol_tol: Number,
    pub compl_inf_tol: Number,
    pub acceptable_tol: Number,
    pub acceptable_dual_inf_tol: Number,
    pub acceptable_constr_viol_tol: Number,
    pub acceptable_compl_inf_tol: Number,
    pub acceptable_obj_change_tol: Number,
    pub acceptable_iter: i32,
    pub max_iter: i32,
    pub max_cpu_time: Number,
    pub max_wall_time: Number,
    /// Consecutive iterates at the acceptable level.
    pub acceptable_count: i32,
    /// The objective at the latest acceptable point, once there is one.
    pub last_acceptable_obj: Option<Number>,
    /// Non-positive switches infeasibility detection off.
    pub infeas_stationarity_tol: Number,
    /// Multiple of `constr_viol_tol` that the violation must exceed.
    pub infeas_viol_kappa: Number,
    /// Non-positive switches infeasibility detection off.
    pub infeas_max_streak: i32,
    /// Consecutive infeasible-stationary iterates.
    pub infeas_streak: i32,
    /// Objective scale below which a certificate can be masked; a
    /// non-positive one switches the veto off.
    pub obj_scale_certificate_threshold: Number,
    /// Whether a masked strict certificate was refused.
    pub veto_fired: bool,
    /// Whether a masked acceptable-level termination was refused.
    pub acceptable_veto_fired: bool,
    /// Checks since a veto first refused a certificate.
    pub veto_extra_iters: i32,
}

/// A certificate is masked where the objective scale is extreme and the
/// unscaled error is still above the acceptable tolerance. A threshold that is
/// non-positive or NaN opts out.
pub open spec fn masked_certificate(
    obj_scale: Number,
    unscaled_err: Number,
    threshold: Number,
    acceptable_tol: Number,
) -> bool {
    &&& Number { bits: D0 }.lt_spec(threshold)
    &&& obj_scale.abs_spec().lt_spec(threshold)
    &&& acceptable_tol.lt_spec(unscaled_err)
}

/// Is a passing certificate masked by an extreme objective scale?
pub fn certificate_masked(
    obj_scale: Number,
    unscaled_err: Number,
    threshold: Number,
    acceptable_tol: Number,
) -> (r: bool)
    ensures
        r == masked_certificate(obj_scale, unscaled_err, threshold, acceptable_tol),
{
    if threshold.is_nan() || threshold.at_most(Number { bits: D0 }) {
        return false;
    }
    obj_scale.abs().less(threshold) && acceptable_tol.less(unscaled_err)
}

impl OptErrorConvCheck {
    /// The tolerances of a policy that nothing has configured; no streak runs.
    pub open spec fn initial() -> OptErrorConvCheck {
        OptErrorConvCheck {
            tol: Number { bits: D1EM8 },
            dual_inf_tol: Number { bits: D1 },
            constr_viol_tol: Number { bits: D1EM4 },
            compl_inf_tol: Number { bits: D1EM4 },
            acceptable_tol: Number { bits: D1EM6 },
            acceptable_dual_inf_tol: Number { bits: D1E10 },
            acceptable_constr_viol_tol: Number { bits: D1EM2 },
            acceptable_compl_inf_tol: Number { bits: D1EM2 },
            acceptable_obj_change_tol: Number { bits: D1E20 },
            acceptable_iter: 15,
            max_iter: 3000,
            max_cpu_time: Number { bits: D1E6 },
            max_wall_time: Number { bits: D1E6 },
            acceptable_count: 0,
            last_acceptable_obj: None,
            infeas_stationarity_tol: Number { bits: D1EM8 },
            infeas_viol_kappa: Number { bits: D1E2 },
            infeas_max_streak: 5,
            infeas_streak: 0,
            obj_scale_certificate_threshold: Number { bits: D1EM4 },
            veto_fired: false,
            acceptable_veto_fired: false,
            veto_extra_iters: 0,
        }
    }

    /// Every residual is within its strict tolerance.
    pub open spec fn strict(
        self,
        overall: Number,
        dual_inf: Number,
        constr_viol: Number,
        compl_inf: Number,
    ) -> bool {
        &&& overall.le_spec(self.tol)
        &&& dual_inf.le_spec(self.dual_inf_tol)
        &&& constr_viol.le_spec(self.constr_viol_tol)
        &&& compl_inf.le_spec(self.compl_inf_tol)
    }

    /// The objective has moved too far from the latest acceptable point. Never
    /// so before there is such a point, or with the tolerance at 1e20.
    pub open spec fn objective_moved(self, curr_f: Number) -> bool {
        &&& self.acceptable_obj_change_tol.lt_spec(Number { bits: D1E20 })
        &&& self.last_acceptable_obj matches Some(prev)
        &&& self.acceptable_obj_change_tol.times_spec(
            curr_f.abs_spec().max_spec(Number { bits: D1 }),
        ).le_spec(prev.minus_spec(curr_f).abs_spec())
    }

    /// The error and the objective are finite, every residual is within its
    /// acceptable tolerance, and the objective has settled.
    pub open spec fn acceptable(
        self,
        overall: Number,
        dual_inf: Number,
        constr_viol: Number,
        compl_inf: Number,
        curr_f: Number,
    ) -> bool {
        &&& overall.finite()
        &&& curr_f.finite()
        &&& overall.le_spec(self.acceptable_tol)
        &&& dual_inf.le_spec(self.acceptable_dual_inf_tol)
        &&& constr_viol.le_spec(self.acceptable_constr_viol_tol)
        &&& compl_inf.le_spec(self.acceptable_compl_inf_tol)
        &&& !self.objective_moved(curr_f)
    }

    /// Infeasibility detection is switched on.
    pub open spec fn detects_infeasibility(self) -> bool {
        (Number { bits: D0 }).lt_spec(self.infeas_stationarity_tol) && self.infeas_max_streak > 0
    }

    /// The violation is bounded away from zero and its gradient is flat.
    pub open spec fn infeasible_stationary(self, constr_viol: Number, stationarity: Number) -> bool {
        &&& self.detects_infeasibility()
        &&& self.infeas_viol_kappa.times_spec(self.constr_viol_tol).lt_spec(constr_viol)
        &&& stationarity.le_spec(self.infeas_stationarity_tol)
    }

    /// Some veto has refused a certificate.
    pub open spec fn vetoing(self) -> bool {
        self.veto_fired || self.acceptable_veto_fired
    }

    /// `veto_extra_iters` once the present check is counted.
    pub open spec fn extra_iters(self) -> int {
        if self.vetoing() {
            self.veto_extra_iters + 1
        } else {
            self.veto_extra_iters as int
        }
    }

    /// A certificate at this iterate is to be refused.
    pub open spec fn masks(self, state: IterateState) -> bool {
        &&& state.curr_f.finite()
        &&& self.extra_iters() <= VETO_MAX_EXTRA_ITERS
        &&& masked_certificate(
            state.obj_scale,
            state.unscaled_err,
            self.obj_scale_certificate_threshold,
            self.acceptable_tol,
        )
    }

    /// The strict tolerances hold at this iterate.
    pub open spec fn strict_at(self, nlp_err: Number, state: IterateState) -> bool {
        self.strict(nlp_err, state.dual_inf, state.constr_viol, state.compl_inf)
    }

    /// This iterate counts toward the acceptable streak.
    pub open spec fn counts_acceptable(self, nlp_err: Number, state: IterateState) -> bool {
        self.acceptable_iter > 0 && self.acceptable(
            nlp_err,
            state.dual_inf,
            state.constr_viol,
            state.compl_inf,
            state.curr_f,
        )
    }

    /// The acceptable streak with this iterate.
    pub open spec fn acceptable_streak(self, nlp_err: Number, state: IterateState) -> int {
        if self.counts_acceptable(nlp_err, state) {
            self.acceptable_count + 1
        } else {
            0
        }
    }

    /// The acceptable streak is complete with this iterate.
    pub open spec fn acceptable_complete(self, nlp_err: Number, state: IterateState) -> bool {
        self.counts_acceptable(nlp_err, state) && self.acceptable_streak(nlp_err, state)
            >= self.acceptable_iter
    }

    /// The infeasibility streak with this iterate.
    pub open spec fn infeasible_streak(self, state: IterateState) -> int {
        if self.infeasible_stationary(state.constr_viol, state.stationarity) {
            self.infeas_streak + 1
        } else {
            0
        }
    }

    /// The infeasibility streak is complete with this iterate.
    pub open spec fn infeasible_complete(self, state: IterateState) -> bool {
        self.infeasible_stationary(state.constr_viol, state.stationarity)
            && self.infeasible_streak(state) >= self.infeas_max_streak
    }

    /// What the clocks demand. An installed deadline is authoritative.
    pub open spec fn time_status(self, clock: Clock) -> ConvergenceStatus {
        match clock {
            Clock::Deadline(Some(DeadlineKind::Cpu)) => ConvergenceStatus::CpuTimeExceeded,
            Clock::Deadline(Some(DeadlineKind::Wall)) => ConvergenceStatus::WallTimeExceeded,
            Clock::Deadline(None) => ConvergenceStatus::Continue,
            Clock::Elapsed { cpu, wall } => if self.max_cpu_time.le_spec(cpu) {
                ConvergenceStatus::CpuTimeExceeded
            } else if self.max_wall_time.le_spec(wall) {
                ConvergenceStatus::WallTimeExceeded
            } else {
                ConvergenceStatus::Continue
            },
        }
    }

    /// The status of a check with the iterate at hand.
    pub open spec fn status(
        self,
        nlp_err: Number,
        iter_count: i32,
        state: IterateState,
    ) -> ConvergenceStatus {
        if self.strict_at(nlp_err, state) && !self.masks(state) {
            ConvergenceStatus::Converged
        } else if self.acceptable_complete(nlp_err, state) && !self.masks(state) {
            ConvergenceStatus::ConvergedToAcceptable
        } else if iter_count >= self.max_iter {
            ConvergenceStatus::MaxIterExceeded
        } else if self.infeasible_complete(state) && !state.descent_available {
            ConvergenceStatus::LocallyInfeasible
        } else {
            self.time_status(state.clock)
        }
    }

    /// The policy after a check with the iterate at hand. A check that ends at
    /// the strict tolerance leaves the streaks alone, and one that ends before
    /// the infeasibility test leaves that streak alone.
    pub open spec fn after(self, nlp_err: Number, iter_count: i32, state: IterateState) -> Self {
        let status = self.status(nlp_err, iter_count, state);
        let counted = OptErrorConvCheck {
            veto_extra_iters: self.extra_iters() as i32,
            veto_fired: self.veto_fired || self.masks(state) && self.strict_at(nlp_err, state),
            ..self
        };
        if status == ConvergenceStatus::Converged {
            counted
        } else {
            OptErrorConvCheck {
                acceptable_count: self.acceptable_streak(nlp_err, state) as i32,
                acceptable_veto_fired: self.acceptable_veto_fired || self.masks(state)
                    && self.acceptable_complete(nlp_err, state),
                infeas_streak: if status == ConvergenceStatus::ConvergedToAcceptable || status
                    == ConvergenceStatus::MaxIterExceeded || !self.detects_infeasibility() {
                    self.infeas_streak
                } else if self.infeasible_complete(state) && state.descent_available {
                    0
                } else {
                    self.infeasible_streak(state) as i32
                },
                ..counted
            }
        }
    }

    /// The status of a check on the scalars alone.
    pub open spec fn scalar_status(self, nlp_err: Number, iter_count: i32) -> ConvergenceStatus {
        if nlp_err.le_spec(self.tol) {
            ConvergenceStatus::Converged
        } else if self.acceptable_iter > 0 && nlp_err.le_spec(self.acceptable_tol)
            && self.acceptable_count + 1 >= self.acceptable_iter {
            ConvergenceStatus::ConvergedToAcceptable
        } else if iter_count >= self.max_iter {
            ConvergenceStatus::MaxIterExceeded
        } else {
            ConvergenceStatus::Continue
        }
    }

    /// The policy after a check on the scalars alone: only the acceptable
    /// streak moves.
    pub open spec fn scalar_after(self, nlp_err: Number) -> Self {
        OptErrorConvCheck {
            acceptable_count: if nlp_err.le_spec(self.tol) {
                self.acceptable_count
            } else if self.acceptable_iter > 0 && nlp_err.le_spec(self.acceptable_tol) {
                (self.acceptable_count + 1) as i32
            } else {
                0
            },
            ..self
        }
    }

    /// No counter is at its limit.
    pub open spec fn has_room(self) -> bool {
        &&& self.acceptable_count < i32::MAX
        &&& self.infeas_streak < i32::MAX
        &&& self.veto_extra_iters < i32::MAX
    }

    /// The policy with the named tolerance changed, if it has one of the name.
    pub open spec fn with_tolerance(self, name: Seq<char>, value: Number) -> Option<Self> {
        if name == "tol"@ {
            Some(OptErrorConvCheck { tol: value, ..self })
        } else if name == "dual_inf_tol"@ {
            Some(OptErrorConvCheck { dual_inf_tol: value, ..self })
        } else if name == "constr_viol_tol"@ {
            Some(OptErrorConvCheck { constr_viol_tol: value, ..self })
        } else if name == "compl_inf_tol"@ {
            Some(OptErrorConvCheck { compl_inf_tol: value, ..self })
        } else if name == "acceptable_tol"@ {
            Some(OptErrorConvCheck { acceptable_tol: value, ..self })
        } else if name == "acceptable_dual_inf_tol"@ {
            Some(OptErrorConvCheck { acceptable_dual_inf_tol: value, ..self })
        } else if name == "acceptable_constr_viol_tol"@ {
            Some(OptErrorConvCheck { acceptable_constr_viol_tol: value, ..self })
        } else if name == "acceptable_compl_inf_tol"@ {
            Some(OptErrorConvCheck { acceptable_compl_inf_tol: value, ..self })
        } else if name == "acceptable_obj_change_tol"@ {
            Some(OptErrorConvCheck { acceptable_obj_change_tol: value, ..self })
        } else {
            None
        }
    }

    /// The policy that nothing has configured.
    pub fn new() -> (r: Self)
        ensures
            r == OptErrorConvCheck::initial(),
    {
        OptErrorConvCheck {
            tol: Number { bits: D1EM8 },
            dual_inf_tol: Number { bits: D1 },
            constr_viol_tol: Number { bits: D1EM4 },
            compl_inf_tol: Number { bits: D1EM4 },
            acceptable_tol: Number { bits: D1EM6 },
            acceptable_dual_inf_tol: Number { bits: D1E10 },
            acceptable_constr_viol_tol: Number { bits: D1EM2 },
            acceptable_compl_inf_tol: Number { bits: D1EM2 },
            acceptable_obj_change_tol: Number { bits: D1E20 },
            acceptable_iter: 15,
            max_iter: 3000,
            max_cpu_time: Number { bits: D1E6 },
            max_wall_time: Number { bits: D1E6 },
            acceptable_count: 0,
            last_acceptable_obj: None,
            infeas_stationarity_tol: Number { bits: D1EM8 },
            infeas_viol_kappa: Number { bits: D1E2 },
            infeas_max_streak: 5,
            infeas_streak: 0,
            obj_scale_certificate_threshold: Number { bits: D1EM4 },
            veto_fired: false,
            acceptable_veto_fired: false,
            veto_extra_iters: 0,
        }
    }

    /// Whether every residual is within its strict tolerance.
    pub fn passes_component_tols(
        &self,
        overall: Number,
        dual_inf: Number,
        constr_viol: Number,
        compl_inf: Number,
    ) -> (r: bool)
        ensures
            r == self.strict(overall, dual_inf, constr_viol, compl_inf),
    {
        overall.at_most(self.tol) && dual_inf.at_most(self.dual_inf_tol) && constr_viol.at_most(
            self.constr_viol_tol,
        ) && compl_inf.at_most(self.compl_inf_tol)
    }

    /// Whether the iterate is at the acceptable level.
    pub fn passes_acceptable_tols(
        &self,
        overall: Number,
        dual_inf: Number,
        constr_viol: Number,
        compl_inf: Number,
        curr_f: Number,
    ) -> (r: bool)
        ensures
            r == self.acceptable(overall, dual_inf, constr_viol, compl_inf, curr_f),
    {
        if !overall.is_finite() || !curr_f.is_finite() {
            return false;
        }
        let component_ok = overall.at_most(self.acceptable_tol) && dual_inf.at_most(
            self.acceptable_dual_inf_tol,
        ) && constr_viol.at_most(self.acceptable_constr_viol_tol) && compl_inf.at_most(
            self.acceptable_compl_inf_tol,
        );
        if !component_ok {
            return false;
        }
        if self.acceptable_obj_change_tol.less(Number { bits: D1E20 }) {
            if let Some(prev) = self.last_acceptable_obj {
                let denom = curr_f.abs().larger(Number { bits: D1 });
                if self.acceptable_obj_change_tol.times(denom).at_most(prev.minus(curr_f).abs()) {
                    return false;
                }
            }
        }
        true
    }

    /// Advances the acceptable streak; true where the run is to stop. The
    /// streak runs whether or not the iterate is masked: a masked iterate that
    /// completes it records the refusal instead of stopping.
    pub fn note_acceptable(&mut self, acceptable_now: bool, masked: bool) -> (stop: bool)
        requires
            old(self).acceptable_count < i32::MAX,
        ensures
            stop == (acceptable_now && old(self).acceptable_count + 1 >= old(self).acceptable_iter
                && !masked),
            *final(self) == (OptErrorConvCheck {
                acceptable_count: if acceptable_now {
                    (old(self).acceptable_count + 1) as i32
                } else {
                    0
                },
                acceptable_veto_fired: old(self).acceptable_veto_fired || acceptable_now
                    && old(self).acceptable_count + 1 >= old(self).acceptable_iter && masked,
                ..*old(self)
            }),
    {
        if !acceptable_now {
            self.acceptable_count = 0;
            return false;
        }
        self.acceptable_count = self.acceptable_count + 1;
        if self.acceptable_count < self.acceptable_iter {
            return false;
        }
        if masked {
            self.acceptable_veto_fired = true;
            false
        } else {
            true
        }
    }

    /// Whether the violation is bounded away from zero and its gradient flat.
    pub fn is_infeasible_stationary(&self, constr_viol: Number, stationarity: Number) -> (r: bool)
        ensures
            r == self.infeasible_stationary(constr_viol, stationarity),
    {
        if self.infeas_stationarity_tol.at_most(Number { bits: D0 }) || self.infeas_max_streak
            <= 0 {
            return false;
        }
        self.infeas_viol_kappa.times(self.constr_viol_tol).less(constr_viol)
            && stationarity.at_most(self.infeas_stationarity_tol)
    }

    /// Advances the infeasibility streak; true where it is complete.
    pub fn note_infeasible_stationary(&mut self, constr_viol: Number, stationarity: Number) -> (r:
        bool)
        requires
            old(self).infeas_streak < i32::MAX,
        ensures
            r == (old(self).infeasible_stationary(constr_viol, stationarity)
                && old(self).infeas_streak + 1 >= old(self).infeas_max_streak),
            *final(self) == (OptErrorConvCheck {
                infeas_streak: if old(self).infeasible_stationary(constr_viol, stationarity) {
                    (old(self).infeas_streak + 1) as i32
                } else {
                    0
                },
                ..*old(self)
            }),
    {
        if self.is_infeasible_stationary(constr_viol, stationarity) {
            self.infeas_streak = self.infeas_streak + 1;
            self.infeas_streak >= self.infeas_max_streak
        } else {
            self.infeas_streak = 0;
            false
        }
    }

    /// Whether the strict tolerances hold at the iterate, masked or not.
    pub fn current_passes_strict(&self, nlp_err: Number, state: &IterateState) -> (r: bool)
        ensures
            r == self.strict_at(nlp_err, *state),
    {
        self.passes_component_tols(nlp_err, state.dual_inf, state.constr_viol, state.compl_inf)
    }

    fn clock_status(&self, clock: Clock) -> (r: ConvergenceStatus)
        ensures
            r == self.time_status(clock),
    {
        match clock {
            Clock::Deadline(spent) => match spent {
                Some(DeadlineKind::Cpu) => ConvergenceStatus::CpuTimeExceeded,
                Some(DeadlineKind::Wall) => ConvergenceStatus::WallTimeExceeded,
                None => ConvergenceStatus::Continue,
            },
            Clock::Elapsed { cpu, wall } => {
                if self.max_cpu_time.at_most(cpu) {
                    ConvergenceStatus::CpuTimeExceeded
                } else if self.max_wall_time.at_most(wall) {
                    ConvergenceStatus::WallTimeExceeded
                } else {
                    ConvergenceStatus::Continue
                }
            },
        }
    }
}

impl Default for OptErrorConvCheck {
    fn default() -> (r: Self)
        ensures
            r == OptErrorConvCheck::initial(),
    {
        OptErrorConvCheck::new()
    }
}

impl ConvCheck for OptErrorConvCheck {
    open spec fn can_check(&self) -> bool {
        self.has_room()
    }

    open spec fn scalar_step(
        pre: Self,
        nlp_err: Number,
        iter_count: i32,
        post: Self,
        status: ConvergenceStatus,
    ) -> bool {
        status == pre.scalar_status(nlp_err, iter_count) && post == pre.scalar_after(nlp_err)
    }

    fn check_convergence(&mut self, nlp_err: Number, iter_count: i32) -> (status:
        ConvergenceStatus) {
        if nlp_err.at_most(self.tol) {
            return ConvergenceStatus::Converged;
        }
        if self.acceptable_iter > 0 && nlp_err.at_most(self.acceptable_tol) {
            self.acceptable_count = self.acceptable_count + 1;
            if self.acceptable_count >= self.acceptable_iter {
                return ConvergenceStatus::ConvergedToAcceptable;
            }
        } else {
            self.acceptable_count = 0;
        }
        if iter_count >= self.max_iter {
            return ConvergenceStatus::MaxIterExceeded;
        }
        ConvergenceStatus::Continue
    }

    fn certificate_vetoed(&self) -> (r: bool)
        ensures
            r == self.veto_fired,
    {
        self.veto_fired
    }

    fn acceptable_certificate_vetoed(&self) -> (r: bool)
        ensures
            r == self.acceptable_veto_fired,
    {
        self.acceptable_veto_fired
    }

    fn check_convergence_with_state(
        &mut self,
        nlp_err: Number,
        iter_count: i32,
        state: &IterateState,
    ) -> (status: ConvergenceStatus)
        ensures
            status == old(self).status(nlp_err, iter_count, *state),
            *final(self) == old(self).after(nlp_err, iter_count, *state),
    {
        if self.veto_fired || self.acceptable_veto_fired {
            self.veto_extra_iters = self.veto_extra_iters + 1;
        }
        let budget_spent = self.veto_extra_iters > VETO_MAX_EXTRA_ITERS;
        let masked = state.curr_f.is_finite() && !budget_spent && certificate_masked(
            state.obj_scale,
            state.unscaled_err,
            self.obj_scale_certificate_threshold,
            self.acceptable_tol,
        );
        let strict = self.passes_component_tols(
            nlp_err,
            state.dual_inf,
            state.constr_viol,
            state.compl_inf,
        );
        if masked && strict && !self.veto_fired {
            self.veto_fired = true;
        }
        if !masked && strict {
            return ConvergenceStatus::Converged;
        }
        let acceptable_now = self.acceptable_iter > 0 && self.passes_acceptable_tols(
            nlp_err,
            state.dual_inf,
            state.constr_viol,
            state.compl_inf,
            state.curr_f,
        );
        if self.note_acceptable(acceptable_now, masked) {
            return ConvergenceStatus::ConvergedToAcceptable;
        }
        if iter_count >= self.max_iter {
            return ConvergenceStatus::MaxIterExceeded;
        }
        let zero = Number { bits: D0 };
        if zero.less(self.infeas_stationarity_tol) && self.infeas_max_streak > 0 {
            if self.note_infeasible_stationary(state.constr_viol, state.stationarity) {
                if state.descent_available {
                    self.infeas_streak = 0;
                } else {
                    return ConvergenceStatus::LocallyInfeasible;
                }
            }
        }
        self.clock_status(state.clock)
    }

    fn current_is_acceptable(&self, nlp_err: Number) -> (r: bool)
        ensures
            r == (nlp_err.finite() && nlp_err.le_spec(self.acceptable_tol)),
    {
        nlp_err.is_finite() && nlp_err.at_most(self.acceptable_tol)
    }

    fn current_is_acceptable_with_state(&self, nlp_err: Number, state: &IterateState) -> (r: bool)
        ensures
            r == self.acceptable(
                nlp_err,
                state.dual_inf,
                state.constr_viol,
                state.compl_inf,
                state.curr_f,
            ),
    {
        self.passes_acceptable_tols(
            nlp_err,
            state.dual_inf,
            state.constr_viol,
            state.compl_inf,
            state.curr_f,
        )
    }

    fn set_curr_acceptable_obj(&mut self, obj: Number)
        ensures
            *final(self) == (OptErrorConvCheck { last_acceptable_obj: Some(obj), ..*old(self) }),
    {
        self.last_acceptable_obj = Some(obj);
    }

    fn tol_or_default(&self) -> (r: Number)
        ensures
            r == self.tol,
    {
        self.tol
    }

    fn acceptable_constr_viol_tol_or_default(&self) -> (r: Number)
        ensures
            r == self.acceptable_constr_viol_tol,
    {
        self.acceptable_constr_viol_tol
    }

    fn set_tolerance(&mut self, name: &str, value: Number) -> (r: bool)
        ensures
            match old(self).with_tolerance(name@, value) {
                Some(changed) => r && *final(self) == changed,
                None => !r && *final(self) == *old(self),
            },
    {
        if same(name, "tol") {
            self.tol = value;
        } else if same(name, "dual_inf_tol") {
            self.dual_inf_tol = value;
        } else if same(name, "constr_viol_tol") {
            self.constr_viol_tol = value;
        } else if same(name, "compl_inf_tol") {
            self.compl_inf_tol = value;
        } else if same(name, "acceptable_tol") {
            self.acceptable_tol = value;
        } else if same(name, "acceptable_dual_inf_tol") {
            self.acceptable_dual_inf_tol = value;
        } else if same(name, "acceptable_constr_viol_tol") {
            self.acceptable_constr_viol_tol = value;
        } else if same(name, "acceptable_compl_inf_tol") {
            self.acceptable_compl_inf_tol = value;
        } else if same(name, "acceptable_obj_change_tol") {
            self.acceptable_obj_change_tol = value;
        } else {
            return false;
        }
        true
    }
}

} // verus!
