//! When the main loop stops.
use crate::decimal::D1EM2;
use crate::decimal::D1EM8;
use crate::number::Number;
use vstd::prelude::*;

pub mod laws;
pub mod opt_error;

verus! {

/// What a convergence check tells the main loop.
#[derive(Clone, Copy, Debug, PartialEq, Eq, Structural)]
pub enum ConvergenceStatus {
    Continue,
    Converged,
    /// Converged to the looser `acceptable_*` band rather than to `tol`.
    ConvergedToAcceptable,
    MaxIterExceeded,
    /// The `max_cpu_time` budget is spent.
    CpuTimeExceeded,
    /// The `max_wall_time` budget is spent.
    WallTimeExceeded,
    /// The iterates approach a stationary point of the constraint violation
    /// while the violation stays bounded away from zero.
    LocallyInfeasible,
    Failed,
}

/// Which of the two time budgets a deadline found spent.
#[derive(Clone, Copy, Debug, PartialEq, Eq, Structural)]
pub enum DeadlineKind {
    Cpu,
    Wall,
}

/// What the clocks say at an iterate.
#[derive(Clone, Copy, Debug, PartialEq, Eq, Structural)]
pub enum Clock {
    /// A shared deadline is installed; it says which budget is spent, if any.
    Deadline(Option<DeadlineKind>),
    /// No deadline is installed; the elapsed times of the algorithm's timer.
    Elapsed { cpu: Number, wall: Number },
}

/// What a check reads of the current iterate. Residuals are unscaled.
#[derive(Clone, Copy, Debug, PartialEq, Eq, Structural)]
pub struct IterateState {
    pub dual_inf: Number,
    pub constr_viol: Number,
    pub compl_inf: Number,
    pub curr_f: Number,
    /// The unscaled KKT error.
    pub unscaled_err: Number,
    /// The objective scale that automatic scaling computed.
    pub obj_scale: Number,
    /// `|J^T c| / max(1, |c|)`; read only where infeasibility detection is on.
    pub stationarity: Number,
    /// Whether some local move reduces the violation; read only where the
    /// infeasibility streak is complete.
    pub descent_available: bool,
    pub clock: Clock,
}

/// A policy that decides when the main loop stops.
pub trait ConvCheck: Sized {
    /// Whether the counters have room for one more check.
    spec fn can_check(&self) -> bool;

    /// What a check on the error and the iteration count alone does.
    spec fn scalar_step(
        pre: Self,
        nlp_err: Number,
        iter_count: i32,
        post: Self,
        status: ConvergenceStatus,
    ) -> bool;

    fn check_convergence(&mut self, nlp_err: Number, iter_count: i32) -> (status:
        ConvergenceStatus)
        requires
            old(self).can_check(),
        ensures
            Self::scalar_step(*old(self), nlp_err, iter_count, *final(self), status),
    ;

    /// Whether a masked strict certificate was ever refused.
    fn certificate_vetoed(&self) -> (r: bool)
        default_ensures
            !r,
    {
        false
    }

    /// Whether a masked acceptable-level termination was ever refused.
    fn acceptable_certificate_vetoed(&self) -> (r: bool)
        default_ensures
            !r,
    {
        false
    }

    /// The check that may also read the iterate. A policy that needs no more
    /// than the scalars inherits this one.
    fn check_convergence_with_state(
        &mut self,
        nlp_err: Number,
        iter_count: i32,
        state: &IterateState,
    ) -> (status: ConvergenceStatus)
        requires
            old(self).can_check(),
        default_ensures
            Self::scalar_step(*old(self), nlp_err, iter_count, *final(self), status),
    {
        self.check_convergence(nlp_err, iter_count)
    }

    /// Whether `nlp_err` is within the acceptable tolerance.
    fn current_is_acceptable(&self, nlp_err: Number) -> (r: bool)
        default_ensures
            !r,
    {
        false
    }

    /// The acceptance test that may also read the iterate.
    fn current_is_acceptable_with_state(&self, nlp_err: Number, state: &IterateState) -> (r: bool)
        default_ensures
            call_ensures(Self::current_is_acceptable, (self, nlp_err), r),
    {
        self.current_is_acceptable(nlp_err)
    }

    /// Records the objective at the latest acceptable point. A policy that
    /// tracks none ignores it.
    fn set_curr_acceptable_obj(&mut self, obj: Number)
        default_ensures
            *final(self) == *old(self),
    {
    }

    /// The convergence tolerance, 1e-8 where the policy has none of its own.
    fn tol_or_default(&self) -> (r: Number)
        default_ensures
            r.bits == D1EM8,
    {
        Number { bits: D1EM8 }
    }

    /// The acceptable constraint violation, 1e-2 where the policy has none of
    /// its own.
    fn acceptable_constr_viol_tol_or_default(&self) -> (r: Number)
        default_ensures
            r.bits == D1EM2,
    {
        Number { bits: D1EM2 }
    }

    /// Changes the named tolerance; false where the policy has none of that
    /// name.
    fn set_tolerance(&mut self, name: &str, value: Number) -> (r: bool)
        default_ensures
            !r,
            *final(self) == *old(self),
    {
        false
    }
}

} // verus!
