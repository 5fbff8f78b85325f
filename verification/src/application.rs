//! The application: the options, the numbers of the last solve, and what is
//! carried from one solve to the next.
use crate::alg_builder::AlgorithmBuilder;
use crate::decimal::D1EM2;
use crate::decimal::D1EM4;
use crate::decimal::D1EM6;
use crate::decimal::D1EM8;
use crate::decimal::D64;
use crate::decimal::D1E19;
use crate::decimal::DM1E19;
use crate::feasibility::FeasibilityStandards;
use crate::from_options::algorithm_builder_from_options;
use crate::from_options::configured;
use crate::iterates::IterateSnapshot;
use crate::number::Number;
use crate::options::explicit;
use crate::options::numeric_or;
use crate::options::switch_of;
use crate::options::switch_or;
use crate::options::switch_set;
use crate::options::text_set;
use crate::options::Held;
use crate::options::OptionValue;
use crate::options::OptionsList;
use crate::options::OptionsView;
use crate::options::Setting;
use crate::sqp_options::apply_qp_subproblem_options;
use crate::sqp_options::apply_sqp_options;
use crate::sqp_options::qp_over;
use crate::sqp_options::sqp_over;
use crate::sqp_options::QpOptions;
use crate::sqp_options::SqpOptions;
use crate::statistics::FinalizeSnapshot;
use crate::statistics::IterStats;
use crate::statistics::SolveStatistics;
use crate::text::alike;
use crate::text::same;
use crate::text::same_ignoring_case;
use vstd::prelude::*;

verus! {

/// The active bounds and constraints of a QP, by the QP solver's codes.
#[derive(Debug)]
pub struct WorkingSet {
    pub bounds: Vec<i32>,
    pub constraints: Vec<i32>,
}

/// An iterate to start the SQP driver from.
#[derive(Debug)]
pub struct SqpIterates {
    pub x: Vec<Number>,
    pub lambda_g: Vec<Number>,
    pub lambda_x: Vec<Number>,
    pub working: Option<WorkingSet>,
}

/// What a crossover did.
#[derive(Clone, Copy, Debug, PartialEq, Eq, Structural)]
pub struct CrossoverReport {
    /// The crossed-over point replaced the interior one.
    pub accepted: bool,
    /// Its complementarity, against the bounds as declared.
    pub compl_after: Number,
}

/// The application.
#[derive(Debug)]
pub struct IpoptApplication {
    pub options: OptionsList,
    /// The MA57 backend is part of this build.
    pub ma57_available: bool,
    /// The factors of the variables in the last solve, if they were scaled.
    pub variable_scaling: Option<Vec<Number>>,
    /// Whether the last solve scaled rows; not known before one has.
    pub row_scaling_active: Option<bool>,
    pub presolve_already_applied: bool,
    pub statistics: SolveStatistics,
    pub record_iter_history: bool,
    /// Something on this application consults `option_file_name`.
    pub option_file_resolved: bool,
    /// The caller can route a model to the convex engines.
    pub convex_routing_available: bool,
    pub backend_warnings_emitted: bool,
    /// Quality escalations of the linear solver in the last solve.
    pub quality_escalations: u64,
    /// Some attempt of this solve saw its multipliers run away.
    pub dual_divergence_signature: bool,
    pub dual_divergence_retry_promoted: bool,
    /// The answer reported is that of an earlier attempt.
    pub answer_restored_from_floor: bool,
    /// The last solution that was delivered.
    pub last_finalize: Option<FinalizeSnapshot>,
    /// The last row that the iteration callback was given.
    pub last_iter_stats: Option<IterStats>,
    pub sqp_warm_start: Option<SqpIterates>,
    pub sqp_last_working_set: Option<WorkingSet>,
    pub crossover_report: Option<CrossoverReport>,
    pub warm_start_iterate: Option<IterateSnapshot>,
    pub external_ordering: Option<Vec<usize>>,
    pub kkt_schur_block: Option<Vec<usize>>,
}

/// The registered defaults that the rules of this library read, but for those of
/// the convex engines, which are handed in where they are asked for.
pub open spec fn standard_options() -> OptionsView {
    Map::<Seq<char>, Setting>::empty().insert(
        "linear_solver"@,
        Setting { set: None, default: Some(Held::Text("feral"@)) },
    ).insert(
        "feral_refine"@,
        Setting { set: None, default: Some(Held::Text("yes"@)) },
    ).insert(
        "option_file_name"@,
        Setting { set: None, default: Some(Held::Text("ipopt.opt"@)) },
    )
}

/// The options whose setting says that the caller has a termination policy of
/// their own.
pub open spec fn has_termination_policy(o: OptionsView) -> bool {
    ||| explicit(o, "tol"@)
    ||| explicit(o, "dual_inf_tol"@)
    ||| explicit(o, "constr_viol_tol"@)
    ||| explicit(o, "compl_inf_tol"@)
    ||| explicit(o, "acceptable_tol"@)
    ||| explicit(o, "acceptable_iter"@)
    ||| explicit(o, "acceptable_dual_inf_tol"@)
    ||| explicit(o, "acceptable_constr_viol_tol"@)
    ||| explicit(o, "acceptable_compl_inf_tol"@)
    ||| explicit(o, "acceptable_obj_change_tol"@)
    ||| explicit(o, "kkt_fidelity_tol"@)
    ||| explicit(o, "obj_scale_certificate_threshold"@)
    ||| explicit(o, "dual_inf_scale_kappa"@)
    ||| explicit(o, "primal_noise_floor_kappa"@)
    ||| explicit(o, "dual_diverging_streak"@)
    ||| explicit(o, "infeas_max_streak"@)
    ||| explicit(o, "resto_decline_deferrals"@)
    ||| explicit(o, "resto_decline_progress_ratio"@)
    ||| explicit(o, "neg_curv_escapes"@)
    ||| explicit(o, "limited_memory_ls_failure_restarts"@)
}

/// The barrier strategy that the options resolve to is the adaptive one.
pub open spec fn resolves_to_adaptive(o: OptionsView) -> bool {
    match text_set(o, "mu_strategy"@) {
        Some(t) => t == "adaptive"@,
        None => text_set(o, "hessian_approximation"@) == Some("limited-memory"@),
    }
}

/// A second solve with the other barrier strategy is allowed: an explicit
/// setting decides; failing that, unless the caller named a strategy.
pub open spec fn mu_fallback_enabled(o: OptionsView) -> bool {
    match switch_set(o, "mu_strategy_fallback"@) {
        Some(v) => v,
        None => text_set(o, "mu_strategy"@) is None,
    }
}

/// The caller chose the active-set SQP driver, by either option.
pub open spec fn sqp_selected(o: OptionsView) -> bool {
    ||| (text_set(o, "algorithm"@) matches Some(t) && alike(t, "active-set-sqp"@))
    ||| (text_set(o, "solver_selection"@) matches Some(t) && alike(t, "qp-active-set"@))
}

/// The standards by which a point is judged on the model as given.
pub open spec fn standards_of(o: OptionsView) -> FeasibilityStandards {
    FeasibilityStandards {
        lower_bound_inf: numeric_or(o, "nlp_lower_bound_inf"@, Number { bits: DM1E19 }),
        upper_bound_inf: numeric_or(o, "nlp_upper_bound_inf"@, Number { bits: D1E19 }),
        tol: numeric_or(o, "tol"@, Number { bits: D1EM8 }),
        acceptable_tol: numeric_or(o, "acceptable_tol"@, Number { bits: D1EM6 }),
        constr_viol_tol: numeric_or(o, "constr_viol_tol"@, Number { bits: D1EM4 }),
        acceptable_constr_viol_tol: numeric_or(
            o,
            "acceptable_constr_viol_tol"@,
            Number { bits: D1EM2 },
        ),
        noise_floor_kappa: numeric_or(o, "primal_noise_floor_kappa"@, Number { bits: D64 }),
    }
}

impl IpoptApplication {
    /// Nothing has run and nothing is installed.
    pub open spec fn is_fresh(self) -> bool {
        &&& self.variable_scaling is None
        &&& self.row_scaling_active is None
        &&& !self.presolve_already_applied
        &&& self.statistics == SolveStatistics::blank()
        &&& !self.record_iter_history
        &&& !self.option_file_resolved
        &&& !self.convex_routing_available
        &&& !self.backend_warnings_emitted
        &&& self.quality_escalations == 0
        &&& !self.dual_divergence_signature
        &&& !self.dual_divergence_retry_promoted
        &&& !self.answer_restored_from_floor
        &&& self.last_finalize is None
        &&& self.last_iter_stats is None
        &&& self.sqp_warm_start is None
        &&& self.sqp_last_working_set is None
        &&& self.crossover_report is None
        &&& self.warm_start_iterate is None
        &&& self.external_ordering is None
        &&& self.kkt_schur_block is None
    }

    /// An application with the given options.
    pub fn with_options(options: OptionsList, ma57_available: bool) -> (r: IpoptApplication)
        ensures
            r.is_fresh(),
            r.options == options,
            r.ma57_available == ma57_available,
    {
        IpoptApplication {
            options,
            ma57_available,
            variable_scaling: None,
            row_scaling_active: None,
            presolve_already_applied: false,
            statistics: SolveStatistics::new(),
            record_iter_history: false,
            option_file_resolved: false,
            convex_routing_available: false,
            backend_warnings_emitted: false,
            quality_escalations: 0,
            dual_divergence_signature: false,
            dual_divergence_retry_promoted: false,
            answer_restored_from_floor: false,
            last_finalize: None,
            last_iter_stats: None,
            sqp_warm_start: None,
            sqp_last_working_set: None,
            crossover_report: None,
            warm_start_iterate: None,
            external_ordering: None,
            kkt_schur_block: None,
        }
    }

    /// An application in which nothing is set, without MA57.
    pub fn new() -> (r: IpoptApplication)
        ensures
            r.is_fresh(),
            r.options@ == standard_options(),
            !r.ma57_available,
    {
        let mut options = OptionsList::new();
        proof {
            reveal_strlit("linear_solver");
            reveal_strlit("feral_refine");
            reveal_strlit("option_file_name");
        }
        options.register_default("linear_solver", OptionValue::Text("feral".to_owned()));
        options.register_default("feral_refine", OptionValue::Text("yes".to_owned()));
        options.register_default("option_file_name", OptionValue::Text("ipopt.opt".to_owned()));
        IpoptApplication::with_options(options, false)
    }

    /// The options.
    pub fn options(&self) -> (r: &OptionsList)
        ensures
            *r == self.options,
    {
        &self.options
    }

    /// The options, to change.
    pub fn options_mut(&mut self) -> (r: &mut OptionsList)
        ensures
            *r == old(self).options,
            *final(self) == (IpoptApplication { options: *final(r), ..*old(self) }),
    {
        &mut self.options
    }

    /// Succeeds without doing anything.
    pub fn initialize(&mut self) -> (r: Result<(), ()>)
        ensures
            r is Ok,
            *final(self) == *old(self),
    {
        Ok(())
    }

    /// Declares whether the caller has wrapped its models by presolve already.
    pub fn set_presolve_already_applied(&mut self, applied: bool)
        ensures
            *final(self) == (IpoptApplication { presolve_already_applied: applied, ..*old(self) }),
    {
        self.presolve_already_applied = applied;
    }

    /// Declares whether the caller can route a model to the convex engines.
    pub fn set_convex_routing_available(&mut self, available: bool)
        ensures
            *final(self) == (IpoptApplication {
                convex_routing_available: available,
                ..*old(self)
            }),
    {
        self.convex_routing_available = available;
    }

    /// Whether the reported answer is that of an earlier attempt.
    pub fn answer_restored_from_floor(&self) -> (r: bool)
        ensures
            r == self.answer_restored_from_floor,
    {
        self.answer_restored_from_floor
    }

    /// Asks for the trajectory of each run to be kept in the statistics.
    pub fn enable_iter_history(&mut self)
        ensures
            *final(self) == (IpoptApplication { record_iter_history: true, ..*old(self) }),
    {
        self.record_iter_history = true;
    }

    /// The numbers of the last solve.
    pub fn statistics(&self) -> (r: SolveStatistics)
        ensures
            r.same_as(self.statistics),
    {
        self.statistics.duplicate()
    }

    /// The factors of the variables in the last solve, if they were scaled.
    pub fn variable_scaling(&self) -> (r: Option<&Vec<Number>>)
        ensures
            match r {
                Some(v) => self.variable_scaling == Some(*v),
                None => self.variable_scaling is None,
            },
    {
        self.variable_scaling.as_ref()
    }

    /// Keeps an iterate for the next SQP solve.
    pub fn set_sqp_warm_start(&mut self, warm: SqpIterates)
        ensures
            *final(self) == (IpoptApplication { sqp_warm_start: Some(warm), ..*old(self) }),
    {
        self.sqp_warm_start = Some(warm);
    }

    /// Drops the iterate kept for the next SQP solve.
    pub fn clear_sqp_warm_start(&mut self)
        ensures
            *final(self) == (IpoptApplication { sqp_warm_start: None, ..*old(self) }),
    {
        self.sqp_warm_start = None;
    }

    /// Hands out the iterate kept for the next SQP solve, which is then gone.
    pub fn take_sqp_warm_start(&mut self) -> (r: Option<SqpIterates>)
        ensures
            r == old(self).sqp_warm_start,
            *final(self) == (IpoptApplication { sqp_warm_start: None, ..*old(self) }),
    {
        self.sqp_warm_start.take()
    }

    /// The working set that the last solve left: none before any SQP solve, and
    /// none where the last solve was another one and no crossover was accepted.
    pub fn last_sqp_working_set(&self) -> (r: Option<&WorkingSet>)
        ensures
            match r {
                Some(w) => self.sqp_last_working_set == Some(*w),
                None => self.sqp_last_working_set is None,
            },
    {
        self.sqp_last_working_set.as_ref()
    }

    /// What the crossover of the last solve did; nothing where none ran.
    pub fn crossover_report(&self) -> (r: Option<CrossoverReport>)
        ensures
            r == self.crossover_report,
    {
        self.crossover_report
    }

    /// Keeps an iterate for the next interior-point solve.
    pub fn set_warm_start_iterate(&mut self, snap: IterateSnapshot)
        ensures
            *final(self) == (IpoptApplication { warm_start_iterate: Some(snap), ..*old(self) }),
    {
        self.warm_start_iterate = Some(snap);
    }

    /// Installs an elimination order for the KKT system. It stays until it is
    /// cleared.
    pub fn set_external_ordering(&mut self, perm: Vec<usize>)
        ensures
            *final(self) == (IpoptApplication { external_ordering: Some(perm), ..*old(self) }),
    {
        self.external_ordering = Some(perm);
    }

    /// Forgets the ordering.
    pub fn clear_external_ordering(&mut self)
        ensures
            *final(self) == (IpoptApplication { external_ordering: None, ..*old(self) }),
    {
        self.external_ordering = None;
    }

    /// The installed elimination order.
    pub fn external_ordering(&self) -> (r: Option<&Vec<usize>>)
        ensures
            match r {
                Some(v) => self.external_ordering == Some(*v),
                None => self.external_ordering is None,
            },
    {
        self.external_ordering.as_ref()
    }

    /// Installs a partition of the KKT system. It stays until it is cleared.
    pub fn set_kkt_schur_block(&mut self, indices: Vec<usize>)
        ensures
            *final(self) == (IpoptApplication { kkt_schur_block: Some(indices), ..*old(self) }),
    {
        self.kkt_schur_block = Some(indices);
    }

    /// Forgets the partition.
    pub fn clear_kkt_schur_block(&mut self)
        ensures
            *final(self) == (IpoptApplication { kkt_schur_block: None, ..*old(self) }),
    {
        self.kkt_schur_block = None;
    }

    /// The installed partition.
    pub fn kkt_schur_block(&self) -> (r: Option<&Vec<usize>>)
        ensures
            match r {
                Some(v) => self.kkt_schur_block == Some(*v),
                None => self.kkt_schur_block is None,
            },
    {
        self.kkt_schur_block.as_ref()
    }

    /// Takes models as they are for one solve; what to restore afterwards comes
    /// back.
    pub fn suspend_presolve(&mut self) -> (before: bool)
        ensures
            before == old(self).presolve_already_applied,
            *final(self) == (IpoptApplication { presolve_already_applied: true, ..*old(self) }),
    {
        let before = self.presolve_already_applied;
        self.presolve_already_applied = true;
        before
    }

    /// Restores what `suspend_presolve` gave back.
    pub fn resume_presolve(&mut self, before: bool)
        ensures
            *final(self) == (IpoptApplication { presolve_already_applied: before, ..*old(self) }),
    {
        self.presolve_already_applied = before;
    }

    /// Forgets what belongs to the solve before.
    pub fn reset_for_solve(&mut self)
        ensures
            *final(self) == (IpoptApplication {
                dual_divergence_signature: false,
                dual_divergence_retry_promoted: false,
                answer_restored_from_floor: false,
                sqp_last_working_set: None,
                crossover_report: None,
                ..*old(self)
            }),
    {
        self.dual_divergence_signature = false;
        self.dual_divergence_retry_promoted = false;
        self.answer_restored_from_floor = false;
        self.sqp_last_working_set = None;
        self.crossover_report = None;
    }

    /// The builder that the options describe.
    pub fn algorithm_builder_from_options(&self) -> (b: AlgorithmBuilder)
        ensures
            configured(self.options@, self.ma57_available, b),
    {
        algorithm_builder_from_options(&self.options, self.ma57_available)
    }

    /// The builder of an SQP solve: the defaults, with the SQP options read.
    /// `reader_accepts` says whether the QP solver's own reader takes the
    /// `sqp_qp_*` options.
    pub fn algorithm_builder_snapshot(&self, reader_accepts: bool) -> (b: AlgorithmBuilder)
        ensures
            b.is_standard_but_for_sqp(),
            b.sqp == sqp_over(self.options@, SqpOptions::standard()),
            qp_over(self.options@, reader_accepts, QpOptions::standard(), b.sqp_qp),
    {
        let mut builder = AlgorithmBuilder::new();
        apply_sqp_options(&self.options, &mut builder.sqp);
        apply_qp_subproblem_options(&self.options, reader_accepts, &mut builder.sqp_qp);
        builder
    }

    /// The l1 penalty is switched on.
    pub fn is_l1_penalty_enabled(&self) -> (r: bool)
        ensures
            r == switch_or(self.options@, "l1_exact_penalty_barrier"@, false),
    {
        self.options.switch("l1_exact_penalty_barrier", false)
    }

    /// The l1 penalty is to be tried where a solve fails.
    pub fn is_l1_fallback_enabled(&self) -> (r: bool)
        ensures
            r == switch_or(self.options@, "l1_fallback_on_restoration_failure"@, false),
    {
        self.options.switch("l1_fallback_on_restoration_failure", false)
    }

    /// The caller named a barrier strategy.
    pub fn mu_strategy_was_set(&self) -> (r: bool)
        ensures
            r == text_set(self.options@, "mu_strategy"@) is Some,
    {
        self.options.set_text("mu_strategy").is_some()
    }

    /// The caller decided on a second solve with the other barrier strategy.
    pub fn mu_strategy_fallback_was_set(&self) -> (r: bool)
        ensures
            r == switch_set(self.options@, "mu_strategy_fallback"@) is Some,
    {
        self.options.set_switch("mu_strategy_fallback").is_some()
    }

    /// The caller has a termination policy of their own.
    pub fn caller_set_termination_policy(&self) -> (r: bool)
        ensures
            r == has_termination_policy(self.options@),
    {
        let o = &self.options;
        o.is_set("tol") || o.is_set("dual_inf_tol") || o.is_set("constr_viol_tol") || o.is_set(
            "compl_inf_tol",
        ) || o.is_set("acceptable_tol") || o.is_set("acceptable_iter") || o.is_set(
            "acceptable_dual_inf_tol",
        ) || o.is_set("acceptable_constr_viol_tol") || o.is_set("acceptable_compl_inf_tol")
            || o.is_set("acceptable_obj_change_tol") || o.is_set("kkt_fidelity_tol") || o.is_set(
            "obj_scale_certificate_threshold",
        ) || o.is_set("dual_inf_scale_kappa") || o.is_set("primal_noise_floor_kappa") || o.is_set(
            "dual_diverging_streak",
        ) || o.is_set("infeas_max_streak") || o.is_set("resto_decline_deferrals") || o.is_set(
            "resto_decline_progress_ratio",
        ) || o.is_set("neg_curv_escapes") || o.is_set("limited_memory_ls_failure_restarts")
    }

    /// The barrier strategy that the options resolve to is the adaptive one.
    pub fn effective_mu_strategy_is_adaptive(&self) -> (r: bool)
        ensures
            r == resolves_to_adaptive(self.options@),
    {
        if let Some(v) = self.options.set_text("mu_strategy") {
            return same(v.as_str(), "adaptive");
        }
        match self.options.set_text("hessian_approximation") {
            Some(v) => same(v.as_str(), "limited-memory"),
            None => false,
        }
    }

    /// A second solve with the other barrier strategy is allowed.
    pub fn is_mu_strategy_fallback_enabled(&self) -> (r: bool)
        ensures
            r == mu_fallback_enabled(self.options@),
    {
        match self.options.set_switch("mu_strategy_fallback") {
            Some(v) => v,
            None => !self.mu_strategy_was_set(),
        }
    }

    /// A second solve against runaway multipliers is allowed; it is unless the
    /// option stands at `no`.
    pub fn is_dual_divergence_retry_enabled(&self) -> (r: bool)
        ensures
            r == (switch_of(self.options@, "dual_divergence_retry"@) != Some(false)),
    {
        match self.options.get_bool_value("dual_divergence_retry") {
            Some((v, _set)) => v,
            None => true,
        }
    }

    /// The caller chose the active-set SQP driver.
    pub fn is_sqp_algorithm_selected(&self) -> (r: bool)
        ensures
            r == sqp_selected(self.options@),
    {
        let by_algorithm = match self.options.set_text("algorithm") {
            Some(v) => same_ignoring_case(v.as_str(), "active-set-sqp"),
            None => false,
        };
        let by_selection = match self.options.set_text("solver_selection") {
            Some(v) => same_ignoring_case(v.as_str(), "qp-active-set"),
            None => false,
        };
        by_algorithm || by_selection
    }

    /// The standards by which a point is judged on the model as given.
    pub fn feasibility_standards(&self) -> (r: FeasibilityStandards)
        ensures
            r == standards_of(self.options@),
    {
        let o = &self.options;
        FeasibilityStandards {
            lower_bound_inf: o.numeric("nlp_lower_bound_inf", Number { bits: DM1E19 }),
            upper_bound_inf: o.numeric("nlp_upper_bound_inf", Number { bits: D1E19 }),
            tol: o.numeric("tol", Number { bits: D1EM8 }),
            acceptable_tol: o.numeric("acceptable_tol", Number { bits: D1EM6 }),
            constr_viol_tol: o.numeric("constr_viol_tol", Number { bits: D1EM4 }),
            acceptable_constr_viol_tol: o.numeric(
                "acceptable_constr_viol_tol",
                Number { bits: D1EM2 },
            ),
            noise_floor_kappa: o.numeric("primal_noise_floor_kappa", Number { bits: D64 }),
        }
    }

    /// Which of the four constant-derivative hints the caller gave: of the
    /// objective gradient, the Hessian, and the two constraint Jacobians.
    pub fn asserted_constant_derivative_hints(&self) -> (r: [bool; 4])
        ensures
            r@[0] == (switch_set(self.options@, "grad_f_constant"@) == Some(true)),
            r@[1] == (switch_set(self.options@, "hessian_constant"@) == Some(true)),
            r@[2] == (switch_set(self.options@, "jac_c_constant"@) == Some(true)),
            r@[3] == (switch_set(self.options@, "jac_d_constant"@) == Some(true)),
    {
        let o = &self.options;
        [
            o.switch("grad_f_constant", false),
            o.switch("hessian_constant", false),
            o.switch("jac_c_constant", false),
            o.switch("jac_d_constant", false),
        ]
    }

    /// The warnings, the first time they are asked for; none after that.
    pub fn take_unimplemented_backend_warnings(&mut self, warnings: Vec<String>) -> (r: Vec<String>)
        ensures
            old(self).backend_warnings_emitted ==> r@.len() == 0,
            !old(self).backend_warnings_emitted ==> r == warnings,
            *final(self) == (IpoptApplication { backend_warnings_emitted: true, ..*old(self) }),
    {
        if self.backend_warnings_emitted {
            return Vec::new();
        }
        self.backend_warnings_emitted = true;
        warnings
    }
}

/// The strategy that a second solve tries is the one that the first did not
/// run: what the options resolve to is what the builder gets, unless the
/// Mehrotra algorithm takes it over.
pub proof fn law_resolved_strategy_is_the_builders(o: OptionsView)
    requires
        !crate::from_options::mehrotra(o),
    ensures
        resolves_to_adaptive(o) <==> crate::from_options::mu_strategy_of(o)
            == crate::alg_builder::MuStrategyChoice::Adaptive,
{
    reveal_strlit("limited-memory");
    reveal_strlit("partitioned");
    reveal_strlit("finite-difference");
}

/// A caller who names a strategy gets no second solve unless asking for it, and
/// one who asks gets it.
pub proof fn law_explicit_strategy_suppresses_fallback(o: OptionsView)
    ensures
        switch_set(o, "mu_strategy_fallback"@) is None && text_set(o, "mu_strategy"@) is Some
            ==> !mu_fallback_enabled(o),
        switch_set(o, "mu_strategy_fallback"@) == Some(true) ==> mu_fallback_enabled(o),
        switch_set(o, "mu_strategy_fallback"@) == Some(false) ==> !mu_fallback_enabled(o),
        switch_set(o, "mu_strategy_fallback"@) is None && text_set(o, "mu_strategy"@) is None
            ==> mu_fallback_enabled(o),
{
}

} // verus!
