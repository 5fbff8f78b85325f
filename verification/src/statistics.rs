//! What a solve reports of itself.
use crate::decimal::D0;
use crate::number::Number;
use crate::number::QUIET_NAN;
use crate::status::SolverReturn;
use vstd::prelude::*;

verus! {

/// One accepted iterate of a run.
#[derive(Clone, Copy, Debug, PartialEq, Eq, Structural)]
pub struct IterRecord {
    pub iter: i32,
    pub objective: Number,
    pub inf_pr: Number,
    pub inf_du: Number,
    pub mu: Number,
    pub d_norm: Number,
    pub alpha_du: Number,
    pub alpha_pr: Number,
    pub ls_trials: i32,
}

/// The numbers that a solve reports. Those named `final_*` describe the answer;
/// the others what was spent on it. A number that a kind of run does not measure
/// keeps its last value.
#[derive(Debug, PartialEq)]
pub struct SolveStatistics {
    pub iteration_count: i32,
    pub sqp_qp_solves: i32,
    pub sqp_qp_working_set_changes: i32,
    pub final_objective: Number,
    pub final_scaled_objective: Number,
    pub final_dual_inf: Number,
    pub final_constr_viol: Number,
    pub final_compl: Number,
    pub final_kkt_error: Number,
    pub final_unscaled_dual_inf: Number,
    pub final_unscaled_constr_viol: Number,
    pub final_unscaled_compl: Number,
    pub final_unscaled_kkt_error: Number,
    pub final_kkt_error_above_noise: Number,
    pub final_mu: Number,
    /// How far outside the bounds as declared the point lies; NaN where they were not widened.
    pub final_declared_constr_viol: Number,
    pub final_declared_box_viol: Number,
    pub total_wallclock_time_secs: Number,
    /// -1 where no finite-difference Hessian ran, 0 for the declared pattern, 1 for the one of the Jacobian.
    pub fd_hessian_pattern_used: i32,
    pub fd_hessian_nnz: i32,
    pub fd_hessian_n: i32,
    pub fd_hessian_groups: i32,
    pub fd_hessian_rho_max: i32,
    pub fd_hessian_coloring_fell_back: bool,
    pub fd_hessian_objective_clique_widened: bool,
    pub restoration_calls: i32,
    pub restoration_inner_iters: i32,
    pub restoration_outer_iters: i32,
    pub restoration_wall_secs: Number,
    pub quality_escalations: i32,
    pub dual_divergence_signature: bool,
    pub dual_divergence_retry_promoted: bool,
    pub num_obj_evals: i32,
    pub num_obj_grad_evals: i32,
    pub num_constr_evals: i32,
    pub num_constr_jac_evals: i32,
    pub num_hess_evals: i32,
    /// The accepted iterates of the last interior-point run, in their order;
    /// none where they were not asked for.
    pub iterations: Option<Vec<IterRecord>>,
}

/// The two trajectories are the same: both absent, or equal record by record.
pub open spec fn same_trajectory(
    a: Option<Vec<IterRecord>>,
    b: Option<Vec<IterRecord>>,
) -> bool {
    match (a, b) {
        (Some(u), Some(v)) => u@ == v@,
        (None, None) => true,
        _ => false,
    }
}

impl SolveStatistics {
    /// Nothing has run: no number describes an answer.
    pub open spec fn blank() -> SolveStatistics {
        SolveStatistics {
            iteration_count: 0,
            sqp_qp_solves: 0,
            sqp_qp_working_set_changes: 0,
            final_objective: Number { bits: QUIET_NAN },
            final_scaled_objective: Number { bits: QUIET_NAN },
            final_dual_inf: Number { bits: QUIET_NAN },
            final_constr_viol: Number { bits: QUIET_NAN },
            final_compl: Number { bits: QUIET_NAN },
            final_kkt_error: Number { bits: QUIET_NAN },
            final_unscaled_dual_inf: Number { bits: QUIET_NAN },
            final_unscaled_constr_viol: Number { bits: QUIET_NAN },
            final_unscaled_compl: Number { bits: QUIET_NAN },
            final_unscaled_kkt_error: Number { bits: QUIET_NAN },
            final_kkt_error_above_noise: Number { bits: QUIET_NAN },
            final_mu: Number { bits: QUIET_NAN },
            final_declared_constr_viol: Number { bits: QUIET_NAN },
            final_declared_box_viol: Number { bits: QUIET_NAN },
            total_wallclock_time_secs: Number { bits: D0 },
            fd_hessian_pattern_used: -1i32,
            fd_hessian_nnz: -1i32,
            fd_hessian_n: -1i32,
            fd_hessian_groups: -1i32,
            fd_hessian_rho_max: -1i32,
            fd_hessian_coloring_fell_back: false,
            fd_hessian_objective_clique_widened: false,
            restoration_calls: 0,
            restoration_inner_iters: 0,
            restoration_outer_iters: 0,
            restoration_wall_secs: Number { bits: D0 },
            quality_escalations: 0,
            dual_divergence_signature: false,
            dual_divergence_retry_promoted: false,
            num_obj_evals: 0,
            num_obj_grad_evals: 0,
            num_constr_evals: 0,
            num_constr_jac_evals: 0,
            num_hess_evals: 0,
            iterations: None,
        }
    }

    /// The two report the same.
    pub open spec fn same_as(self, other: SolveStatistics) -> bool {
        &&& (SolveStatistics { iterations: None, ..self }) == (SolveStatistics {
            iterations: None,
            ..other
        })
        &&& same_trajectory(self.iterations, other.iterations)
    }

    /// A copy.
    pub fn duplicate(&self) -> (r: SolveStatistics)
        ensures
            r.same_as(*self),
    {
        let iterations = match &self.iterations {
            Some(v) => Some(copy_records(v)),
            None => None,
        };
        SolveStatistics { iterations, ..*self }
    }

    /// The statistics of a solve that has not run.
    pub fn new() -> (r: SolveStatistics)
        ensures
            r == SolveStatistics::blank(),
    {
        SolveStatistics {
            iteration_count: 0,
            sqp_qp_solves: 0,
            sqp_qp_working_set_changes: 0,
            final_objective: Number { bits: QUIET_NAN },
            final_scaled_objective: Number { bits: QUIET_NAN },
            final_dual_inf: Number { bits: QUIET_NAN },
            final_constr_viol: Number { bits: QUIET_NAN },
            final_compl: Number { bits: QUIET_NAN },
            final_kkt_error: Number { bits: QUIET_NAN },
            final_unscaled_dual_inf: Number { bits: QUIET_NAN },
            final_unscaled_constr_viol: Number { bits: QUIET_NAN },
            final_unscaled_compl: Number { bits: QUIET_NAN },
            final_unscaled_kkt_error: Number { bits: QUIET_NAN },
            final_kkt_error_above_noise: Number { bits: QUIET_NAN },
            final_mu: Number { bits: QUIET_NAN },
            final_declared_constr_viol: Number { bits: QUIET_NAN },
            final_declared_box_viol: Number { bits: QUIET_NAN },
            total_wallclock_time_secs: Number { bits: D0 },
            fd_hessian_pattern_used: -1i32,
            fd_hessian_nnz: -1i32,
            fd_hessian_n: -1i32,
            fd_hessian_groups: -1i32,
            fd_hessian_rho_max: -1i32,
            fd_hessian_coloring_fell_back: false,
            fd_hessian_objective_clique_widened: false,
            restoration_calls: 0,
            restoration_inner_iters: 0,
            restoration_outer_iters: 0,
            restoration_wall_secs: Number { bits: D0 },
            quality_escalations: 0,
            dual_divergence_signature: false,
            dual_divergence_retry_promoted: false,
            num_obj_evals: 0,
            num_obj_grad_evals: 0,
            num_constr_evals: 0,
            num_constr_jac_evals: 0,
            num_hess_evals: 0,
            iterations: None,
        }
    }
}

/// A copy of the records.
fn copy_records(v: &Vec<IterRecord>) -> (r: Vec<IterRecord>)
    ensures
        r@ == v@,
{
    let mut r: Vec<IterRecord> = Vec::new();
    let mut i: usize = 0;
    while i < v.len()
        invariant
            i <= v.len(),
            r@ == v@.take(i as int),
        decreases v.len() - i,
    {
        r.push(v[i]);
        i = i + 1;
        assert(v@.take(i as int) =~= v@.take(i - 1).push(v@[i - 1]));
    }
    assert(v@.take(v.len() as int) =~= v@);
    r
}

/// The numbers that describe an answer. They go with the status that is
/// reported beside them; what was spent does not.
#[derive(Clone, Copy, Debug, PartialEq, Eq, Structural)]
pub struct SolutionCertificate {
    pub objective: Number,
    pub scaled_objective: Number,
    pub dual_inf: Number,
    pub constr_viol: Number,
    pub compl: Number,
    pub kkt_error: Number,
    pub unscaled_dual_inf: Number,
    pub unscaled_constr_viol: Number,
    pub unscaled_compl: Number,
    pub unscaled_kkt_error: Number,
    pub kkt_error_above_noise: Number,
    pub mu: Number,
    pub declared_constr_viol: Number,
    pub declared_box_viol: Number,
}

/// The statistics with their answer replaced.
pub open spec fn with_certificate(s: SolveStatistics, c: SolutionCertificate) -> SolveStatistics {
    SolveStatistics {
        final_objective: c.objective,
        final_scaled_objective: c.scaled_objective,
        final_dual_inf: c.dual_inf,
        final_constr_viol: c.constr_viol,
        final_compl: c.compl,
        final_kkt_error: c.kkt_error,
        final_unscaled_dual_inf: c.unscaled_dual_inf,
        final_unscaled_constr_viol: c.unscaled_constr_viol,
        final_unscaled_compl: c.unscaled_compl,
        final_unscaled_kkt_error: c.unscaled_kkt_error,
        final_kkt_error_above_noise: c.kkt_error_above_noise,
        final_mu: c.mu,
        final_declared_constr_viol: c.declared_constr_viol,
        final_declared_box_viol: c.declared_box_viol,
        ..s
    }
}

/// The answer in the statistics.
pub open spec fn certificate_of(s: SolveStatistics) -> SolutionCertificate {
    SolutionCertificate {
        objective: s.final_objective,
        scaled_objective: s.final_scaled_objective,
        dual_inf: s.final_dual_inf,
        constr_viol: s.final_constr_viol,
        compl: s.final_compl,
        kkt_error: s.final_kkt_error,
        unscaled_dual_inf: s.final_unscaled_dual_inf,
        unscaled_constr_viol: s.final_unscaled_constr_viol,
        unscaled_compl: s.final_unscaled_compl,
        unscaled_kkt_error: s.final_unscaled_kkt_error,
        kkt_error_above_noise: s.final_kkt_error_above_noise,
        mu: s.final_mu,
        declared_constr_viol: s.final_declared_constr_viol,
        declared_box_viol: s.final_declared_box_viol,
    }
}

impl SolutionCertificate {
    /// The numbers that describe the answer.
    pub fn of(s: &SolveStatistics) -> (r: SolutionCertificate)
        ensures
            r == certificate_of(*s),
    {
        SolutionCertificate {
            objective: s.final_objective,
            scaled_objective: s.final_scaled_objective,
            dual_inf: s.final_dual_inf,
            constr_viol: s.final_constr_viol,
            compl: s.final_compl,
            kkt_error: s.final_kkt_error,
            unscaled_dual_inf: s.final_unscaled_dual_inf,
            unscaled_constr_viol: s.final_unscaled_constr_viol,
            unscaled_compl: s.final_unscaled_compl,
            unscaled_kkt_error: s.final_unscaled_kkt_error,
            kkt_error_above_noise: s.final_kkt_error_above_noise,
            mu: s.final_mu,
            declared_constr_viol: s.final_declared_constr_viol,
            declared_box_viol: s.final_declared_box_viol,
        }
    }

    /// Puts the numbers that describe the answer back; what was spent stays.
    pub fn restore_into(&self, s: &mut SolveStatistics)
        ensures
            *final(s) == with_certificate(*old(s), *self),
    {
        s.final_objective = self.objective;
        s.final_scaled_objective = self.scaled_objective;
        s.final_dual_inf = self.dual_inf;
        s.final_constr_viol = self.constr_viol;
        s.final_compl = self.compl;
        s.final_kkt_error = self.kkt_error;
        s.final_unscaled_dual_inf = self.unscaled_dual_inf;
        s.final_unscaled_constr_viol = self.unscaled_constr_viol;
        s.final_unscaled_compl = self.unscaled_compl;
        s.final_unscaled_kkt_error = self.unscaled_kkt_error;
        s.final_kkt_error_above_noise = self.kkt_error_above_noise;
        s.final_mu = self.mu;
        s.final_declared_constr_viol = self.declared_constr_viol;
        s.final_declared_box_viol = self.declared_box_viol;
    }
}

/// Restoring the answer of an earlier attempt brings back every number that
/// describes it, and leaves what the later attempt spent.
pub proof fn law_certificate_round_trip(before: SolveStatistics, after: SolveStatistics)
    ensures
        certificate_of(with_certificate(after, certificate_of(before))) == certificate_of(before),
        with_certificate(after, certificate_of(after)) == after,
        with_certificate(with_certificate(after, certificate_of(before)), certificate_of(after))
            == after,
        with_certificate(after, certificate_of(before)).iteration_count == after.iteration_count,
        with_certificate(after, certificate_of(before)).quality_escalations
            == after.quality_escalations,
        with_certificate(after, certificate_of(before)).num_obj_evals == after.num_obj_evals,
        with_certificate(after, certificate_of(before)).total_wallclock_time_secs
            == after.total_wallclock_time_secs,
        with_certificate(after, certificate_of(before)).iterations == after.iterations,
{
}

/// The last row that an iteration callback was given.
#[derive(Clone, Copy, Debug, PartialEq, Eq, Structural)]
pub struct IterStats {
    pub iter: i32,
    pub obj_value: Number,
    pub inf_pr: Number,
    pub inf_du: Number,
    pub mu: Number,
    pub d_norm: Number,
    pub regularization_size: Number,
    pub alpha_du: Number,
    pub alpha_pr: Number,
    pub ls_trials: i32,
}

/// A solution that was delivered to the model, kept so that it can be delivered
/// again.
#[derive(Debug)]
pub struct FinalizeSnapshot {
    pub status: SolverReturn,
    pub x: Vec<Number>,
    pub z_l: Vec<Number>,
    pub z_u: Vec<Number>,
    pub g: Vec<Number>,
    pub lambda: Vec<Number>,
    pub obj_value: Number,
}

/// A copy of the numbers.
pub fn copy_numbers(v: &Vec<Number>) -> (r: Vec<Number>)
    ensures
        r@ == v@,
{
    let mut r: Vec<Number> = Vec::new();
    let mut i: usize = 0;
    while i < v.len()
        invariant
            i <= v.len(),
            r@ == v@.take(i as int),
        decreases v.len() - i,
    {
        r.push(v[i]);
        i = i + 1;
        assert(v@.take(i as int) =~= v@.take(i - 1).push(v@[i - 1]));
    }
    assert(v@.take(v.len() as int) =~= v@);
    r
}

impl FinalizeSnapshot {
    /// The two deliver the same.
    pub open spec fn same_as(self, other: FinalizeSnapshot) -> bool {
        &&& self.status == other.status
        &&& self.x@ == other.x@
        &&& self.z_l@ == other.z_l@
        &&& self.z_u@ == other.z_u@
        &&& self.g@ == other.g@
        &&& self.lambda@ == other.lambda@
        &&& self.obj_value == other.obj_value
    }

    /// A copy.
    pub fn duplicate(&self) -> (r: FinalizeSnapshot)
        ensures
            r.same_as(*self),
    {
        FinalizeSnapshot {
            status: self.status,
            x: copy_numbers(&self.x),
            z_l: copy_numbers(&self.z_l),
            z_u: copy_numbers(&self.z_u),
            g: copy_numbers(&self.g),
            lambda: copy_numbers(&self.lambda),
            obj_value: self.obj_value,
        }
    }
}

} // verus!
