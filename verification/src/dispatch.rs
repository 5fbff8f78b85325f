//! What is refused before a solve, and which driver runs it.
use crate::application::sqp_selected;
use crate::application::IpoptApplication;
use crate::decimal::D1EM8;
use crate::number::Number;
use crate::options::numeric_of;
use crate::options::numeric_set;
use crate::options::set_to_other_than;
use crate::options::set_to_other_than_default;
use crate::options::setting;
use crate::options::switch_of;
use crate::options::switch_or;
use crate::options::text_of;
use crate::options::text_set;
use crate::options::OptionValue;
use crate::options::OptionsView;
use crate::status::ApplicationReturnStatus;
use crate::text::alike;
use crate::text::same_ignoring_case;
use vstd::prelude::*;
use vstd::string::StringExecFns;

verus! {

/// A ceiling for the MA57 pivot tolerance that lies below where it starts.
#[derive(Clone, Copy, Debug, PartialEq, Eq, Structural)]
pub struct Ma57Bracket {
    /// The pair is that of the restoration phase.
    pub resto: bool,
    pub pivtolmax: Number,
    pub pivtol: Number,
}

/// Why a solve is refused.
#[derive(Debug)]
pub enum Refusal {
    /// The factors of the variables cannot be applied.
    ScalingFactors,
    /// The chosen solver is not to be had from a library.
    SolverSelection(&'static str),
    /// The linear solver is not implemented.
    LinearSolver(String),
    /// An option names a feature that is not implemented.
    UnimplementedOption,
    /// An option has a value that is not implemented.
    UnimplementedValue,
    /// An options file is named that nothing will read.
    OptionFileName(String),
    /// An option configures an engine that cannot be reached.
    ConvexOption(String),
    Ma57Bracket(Ma57Bracket),
}

/// The registered defaults of the options of the convex engines. The registry of
/// the options has them.
#[derive(Debug)]
pub struct ConvexDefaults {
    pub qp_presolve: OptionValue,
    pub qp_tau: OptionValue,
    pub qp_tau_max: OptionValue,
    pub qp_reg: OptionValue,
    pub qp_gondzio_corr: OptionValue,
    pub qp_infeas_tol: OptionValue,
    pub qp_hsde: OptionValue,
    pub qp_equilibrate: OptionValue,
    pub qp_crossover: OptionValue,
}

/// The driver that runs a solve.
#[derive(Clone, Copy, Debug, PartialEq, Eq, Structural)]
pub enum Route {
    /// The active-set SQP driver.
    Sqp,
    /// None: the model gives no dimensions.
    InvalidProblem,
    /// None: presolve has proved the model infeasible.
    ProvedInfeasible,
    /// The l1 penalty; where it has nothing to do, the route without it.
    L1Penalty,
    /// The interior-point solve, with the l1 penalty to fall back on.
    L1Fallback,
    /// The interior-point solve, with a second one against runaway multipliers.
    DualDivergenceRetry,
    /// The interior-point solve.
    Standard,
}

/// What is known of the model that a solve is given.
#[derive(Clone, Copy, Debug, PartialEq, Eq, Structural)]
pub struct ModelFacts {
    /// The number of constraints.
    pub m: i32,
    pub proved_infeasible: bool,
}

/// The convex solver that the caller chose, by its name.
pub open spec fn convex_selection(o: OptionsView) -> Option<Seq<char>> {
    match text_set(o, "solver_selection"@) {
        Some(t) => if alike(t, "lp-ipm"@) {
            Some("lp-ipm"@)
        } else if alike(t, "qp-ipm"@) {
            Some("qp-ipm"@)
        } else if alike(t, "socp"@) {
            Some("socp"@)
        } else {
            None
        },
        None => None,
    }
}

/// The linear solver, where it is none of those there are.
pub open spec fn unknown_linear_solver(o: OptionsView) -> Option<Seq<char>> {
    match text_of(o, "linear_solver"@) {
        Some(t) => if alike(t, "feral"@) || alike(t, "ma57"@) {
            None
        } else {
            Some(t)
        },
        None => None,
    }
}

/// The message on a linear solver that is not implemented.
pub open spec fn linear_solver_message(value: Seq<char>) -> Seq<char> {
    "pounce: linear_solver="@ + value
        + " is not implemented. pounce provides `feral` (pure-Rust sparse symmetric, the default) and `ma57` (HSL, in a `--features ma57` build); the other names in the option's list come from the upstream Ipopt registry so an ipopt.opt written for Ipopt still parses. Selecting one used to run FERAL silently, which makes a backend comparison measure nothing — so it is refused instead. Use linear_solver=feral or linear_solver=ma57."@
}

/// The message on a convex solver that is not to be had from a library.
pub open spec fn selection_message(value: Seq<char>) -> Seq<char> {
    "pounce: solver_selection="@ + value
        + " routing is only available through the pounce CLI (.nl input); library consumers can use qp-active-set, nlp, or auto.\n"@
}

/// The message on an options file that nothing will read.
pub open spec fn option_file_message(name: Seq<char>) -> Seq<char> {
    "pounce: `option_file_name` was set to `"@ + name
        + "`, but this entry point does not read options files — it would configure nothing. The `pounce` CLI honors it (and `./pounce.opt` / `./ipopt.opt`); from a library, read the file yourself and pass its contents to `initialize_with_options_str`, or set the options directly. Tracking issue: https://github.com/jkitchin/pounce/issues/518"@
}

/// The message on an option of an engine that cannot be reached.
pub open spec fn convex_option_message(name: Seq<char>) -> Seq<char> {
    "pounce: `"@ + name
        + "` tunes the convex LP/QP interior-point engine, but this entry point cannot route a model to it — the option would configure nothing. The `pounce` CLI reaches that engine on `.nl` input (`solver_selection=lp-ipm` / `qp-ipm` / `socp`, or `auto` on a model that classifies as one); from Python, `pounce.solve_qp` / `pounce.solve_cone` drive it directly and take the same knobs as typed arguments. On this path, `solver_selection=qp-active-set` (or `algorithm=active-set-sqp`) is the nearest thing, tuned by the `sqp_qp_*` options. Tracking issue: https://github.com/jkitchin/pounce/issues/604"@
}

/// The options file that is named although nothing will read it. Naming the
/// default asks for nothing.
pub open spec fn unhonored_file(a: IpoptApplication) -> Option<Seq<char>> {
    let o = a.options@;
    if a.option_file_resolved || !set_to_other_than_default(o, "option_file_name"@) {
        None
    } else {
        match text_set(o, "option_file_name"@) {
            Some(t) => if t.len() > 0 {
                Some(t)
            } else {
                None
            },
            None => None,
        }
    }
}

/// The first option of the convex engines that the caller set to something else
/// than its default.
pub open spec fn convex_option_set(o: OptionsView, d: ConvexDefaults) -> Option<Seq<char>> {
    if set_to_other_than(o, "qp_presolve"@, d.qp_presolve@) {
        Some("qp_presolve"@)
    } else if set_to_other_than(o, "qp_tau"@, d.qp_tau@) {
        Some("qp_tau"@)
    } else if set_to_other_than(o, "qp_tau_max"@, d.qp_tau_max@) {
        Some("qp_tau_max"@)
    } else if set_to_other_than(o, "qp_reg"@, d.qp_reg@) {
        Some("qp_reg"@)
    } else if set_to_other_than(o, "qp_gondzio_corr"@, d.qp_gondzio_corr@) {
        Some("qp_gondzio_corr"@)
    } else if set_to_other_than(o, "qp_infeas_tol"@, d.qp_infeas_tol@) {
        Some("qp_infeas_tol"@)
    } else if set_to_other_than(o, "qp_hsde"@, d.qp_hsde@) {
        Some("qp_hsde"@)
    } else if set_to_other_than(o, "qp_equilibrate"@, d.qp_equilibrate@) {
        Some("qp_equilibrate"@)
    } else if set_to_other_than(o, "qp_crossover"@, d.qp_crossover@) {
        Some("qp_crossover"@)
    } else {
        None
    }
}

/// The option that is set although the engine cannot be reached.
pub open spec fn unhonored_convex(a: IpoptApplication, d: ConvexDefaults) -> Option<Seq<char>> {
    if a.convex_routing_available {
        None
    } else {
        convex_option_set(a.options@, d)
    }
}

/// A number scoped to the restoration phase: its own setting counts, else the
/// general one.
pub open spec fn scoped_set(o: OptionsView, own: Seq<char>, general: Seq<char>) -> Option<Number> {
    match numeric_set(o, own) {
        Some(v) => Some(v),
        None => numeric_set(o, general),
    }
}

/// The number that such an option stands at.
pub open spec fn scoped_of(o: OptionsView, own: Seq<char>, general: Seq<char>) -> Option<Number> {
    match numeric_set(o, own) {
        Some(v) => Some(v),
        None => numeric_of(o, general),
    }
}

/// The contradiction in a pair of MA57 pivot tolerances. Only a ceiling that
/// the caller set can contradict.
pub open spec fn bracket_of(
    resto: bool,
    pivtolmax: Option<Number>,
    pivtol: Option<Number>,
) -> Option<Ma57Bracket> {
    let start = match pivtol {
        Some(v) => v,
        None => Number { bits: D1EM8 },
    };
    match pivtolmax {
        Some(ceiling) => if ceiling.lt_spec(start) {
            Some(Ma57Bracket { resto, pivtolmax: ceiling, pivtol: start })
        } else {
            None
        },
        None => None,
    }
}

/// The contradiction in the MA57 pivot tolerances: first that of the main
/// algorithm, then that of the restoration phase.
pub open spec fn ma57_contradiction(o: OptionsView) -> Option<Ma57Bracket> {
    match bracket_of(false, numeric_set(o, "ma57_pivtolmax"@), numeric_of(o, "ma57_pivtol"@)) {
        Some(b) => Some(b),
        None => bracket_of(
            true,
            scoped_set(o, "resto.ma57_pivtolmax"@, "ma57_pivtolmax"@),
            scoped_of(o, "resto.ma57_pivtol"@, "ma57_pivtol"@),
        ),
    }
}

/// The refusal says what it must.
pub open spec fn refuses(
    a: IpoptApplication,
    scaling_refused: bool,
    option_refused: bool,
    value_refused: bool,
    d: ConvexDefaults,
    r: Option<Refusal>,
) -> bool {
    if scaling_refused {
        r == Some(Refusal::ScalingFactors)
    } else if convex_selection(a.options@) is Some {
        r matches Some(Refusal::SolverSelection(name)) && Some(name@) == convex_selection(
            a.options@,
        )
    } else if unknown_linear_solver(a.options@) is Some {
        r matches Some(Refusal::LinearSolver(name)) && Some(name@) == unknown_linear_solver(
            a.options@,
        )
    } else if option_refused {
        r == Some(Refusal::UnimplementedOption)
    } else if value_refused {
        r == Some(Refusal::UnimplementedValue)
    } else if unhonored_file(a) is Some {
        r matches Some(Refusal::OptionFileName(msg)) && msg@ == option_file_message(
            unhonored_file(a)->0,
        )
    } else if unhonored_convex(a, d) is Some {
        r matches Some(Refusal::ConvexOption(msg)) && msg@ == convex_option_message(
            unhonored_convex(a, d)->0,
        )
    } else {
        match ma57_contradiction(a.options@) {
            Some(b) => r == Some(Refusal::Ma57Bracket(b)),
            None => r is None,
        }
    }
}

/// The route of a model to the interior-point solver, the l1 penalty aside.
pub open spec fn route_without_l1(o: OptionsView, m: i32) -> Route {
    if m > 0 && switch_or(o, "l1_fallback_on_restoration_failure"@, false) && !switch_or(
        o,
        "l1_exact_penalty_barrier"@,
        false,
    ) {
        Route::L1Fallback
    } else if switch_of(o, "dual_divergence_retry"@) != Some(false) {
        Route::DualDivergenceRetry
    } else {
        Route::Standard
    }
}

/// The route of a model.
pub open spec fn route_of(o: OptionsView, facts: Option<ModelFacts>) -> Route {
    if sqp_selected(o) {
        Route::Sqp
    } else {
        match facts {
            None => Route::InvalidProblem,
            Some(f) => if f.proved_infeasible {
                Route::ProvedInfeasible
            } else if f.m > 0 && switch_or(o, "l1_exact_penalty_barrier"@, false) {
                Route::L1Penalty
            } else {
                route_without_l1(o, f.m)
            },
        }
    }
}

/// The status with which a route ends where it runs nothing.
pub open spec fn status_without_solve(r: Route) -> Option<ApplicationReturnStatus> {
    match r {
        Route::InvalidProblem => Some(ApplicationReturnStatus::InvalidProblemDefinition),
        Route::ProvedInfeasible => Some(ApplicationReturnStatus::InfeasibleProblemDetected),
        _ => None,
    }
}

impl Route {
    /// The status with which a route ends where it runs nothing.
    pub fn immediate_status(self) -> (r: Option<ApplicationReturnStatus>)
        ensures
            r == status_without_solve(self),
    {
        match self {
            Route::InvalidProblem => Some(ApplicationReturnStatus::InvalidProblemDefinition),
            Route::ProvedInfeasible => Some(ApplicationReturnStatus::InfeasibleProblemDetected),
            _ => None,
        }
    }
}

impl Refusal {
    /// The status with which a refused solve ends.
    pub fn status(&self) -> (r: ApplicationReturnStatus)
        ensures
            r == ApplicationReturnStatus::InvalidOption,
    {
        ApplicationReturnStatus::InvalidOption
    }
}

/// The message on a convex solver that is not to be had from a library.
pub fn unsupported_selection_message(value: &str) -> (r: String)
    ensures
        r@ == selection_message(value@),
{
    let mut msg = "pounce: solver_selection=".to_owned();
    msg.append(value);
    msg.append(
        " routing is only available through the pounce CLI (.nl input); library consumers can use qp-active-set, nlp, or auto.\n",
    );
    msg
}

fn report_option_file(name: &str) -> (r: String)
    ensures
        r@ == option_file_message(name@),
{
    let mut msg = "pounce: `option_file_name` was set to `".to_owned();
    msg.append(name);
    msg.append(
        "`, but this entry point does not read options files — it would configure nothing. The `pounce` CLI honors it (and `./pounce.opt` / `./ipopt.opt`); from a library, read the file yourself and pass its contents to `initialize_with_options_str`, or set the options directly. Tracking issue: https://github.com/jkitchin/pounce/issues/518",
    );
    msg
}

fn report_convex_option(name: &str) -> (r: String)
    ensures
        r@ == convex_option_message(name@),
{
    let mut msg = "pounce: `".to_owned();
    msg.append(name);
    msg.append(
        "` tunes the convex LP/QP interior-point engine, but this entry point cannot route a model to it — the option would configure nothing. The `pounce` CLI reaches that engine on `.nl` input (`solver_selection=lp-ipm` / `qp-ipm` / `socp`, or `auto` on a model that classifies as one); from Python, `pounce.solve_qp` / `pounce.solve_cone` drive it directly and take the same knobs as typed arguments. On this path, `solver_selection=qp-active-set` (or `algorithm=active-set-sqp`) is the nearest thing, tuned by the `sqp_qp_*` options. Tracking issue: https://github.com/jkitchin/pounce/issues/604",
    );
    msg
}

fn find_bracket(resto: bool, pivtolmax: Option<Number>, pivtol: Option<Number>) -> (r: Option<
    Ma57Bracket,
>)
    ensures
        r == bracket_of(resto, pivtolmax, pivtol),
{
    let start = match pivtol {
        Some(v) => v,
        None => Number { bits: D1EM8 },
    };
    match pivtolmax {
        Some(ceiling) => {
            if ceiling.less(start) {
                Some(Ma57Bracket { resto, pivtolmax: ceiling, pivtol: start })
            } else {
                None
            }
        },
        None => None,
    }
}

impl IpoptApplication {
    /// The convex solver that the caller chose, which no library caller can
    /// reach.
    pub fn unsupported_library_solver_selection(&self) -> (r: Option<&'static str>)
        ensures
            match r {
                Some(name) => convex_selection(self.options@) == Some(name@),
                None => convex_selection(self.options@) is None,
            },
    {
        match self.options.set_text("solver_selection") {
            Some(t) => {
                if same_ignoring_case(t.as_str(), "lp-ipm") {
                    Some("lp-ipm")
                } else if same_ignoring_case(t.as_str(), "qp-ipm") {
                    Some("qp-ipm")
                } else if same_ignoring_case(t.as_str(), "socp") {
                    Some("socp")
                } else {
                    None
                }
            },
            None => None,
        }
    }

    /// The linear solver, where it is none of those there are.
    pub fn unimplemented_linear_solver(&self) -> (r: Option<String>)
        ensures
            match r {
                Some(name) => unknown_linear_solver(self.options@) == Some(name@),
                None => unknown_linear_solver(self.options@) is None,
            },
    {
        match self.options.get_string_value("linear_solver") {
            Some((t, _set)) => {
                if same_ignoring_case(t.as_str(), "feral") || same_ignoring_case(
                    t.as_str(),
                    "ma57",
                ) {
                    None
                } else {
                    Some(t)
                }
            },
            None => None,
        }
    }

    /// The message on a linear solver that is not implemented.
    pub fn unimplemented_linear_solver_message(value: &str) -> (r: String)
        ensures
            r@ == linear_solver_message(value@),
    {
        let mut msg = "pounce: linear_solver=".to_owned();
        msg.append(value);
        msg.append(
            " is not implemented. pounce provides `feral` (pure-Rust sparse symmetric, the default) and `ma57` (HSL, in a `--features ma57` build); the other names in the option's list come from the upstream Ipopt registry so an ipopt.opt written for Ipopt still parses. Selecting one used to run FERAL silently, which makes a backend comparison measure nothing — so it is refused instead. Use linear_solver=feral or linear_solver=ma57.",
        );
        msg
    }

    /// The message on an options file that is named although nothing will read
    /// it.
    pub fn unhonored_option_file_name(&self) -> (r: Option<String>)
        ensures
            r is Some <==> unhonored_file(*self) is Some,
            r matches Some(msg) ==> msg@ == option_file_message(unhonored_file(*self)->0),
    {
        if self.option_file_resolved {
            return None;
        }
        if !self.options.set_to_a_non_default("option_file_name") {
            return None;
        }
        match self.options.set_text("option_file_name") {
            Some(t) => {
                if t.as_str().is_empty() {
                    None
                } else {
                    Some(report_option_file(t.as_str()))
                }
            },
            None => None,
        }
    }

    fn first_convex_option(&self, d: &ConvexDefaults) -> (r: Option<&'static str>)
        ensures
            match r {
                Some(name) => convex_option_set(self.options@, *d) == Some(name@),
                None => convex_option_set(self.options@, *d) is None,
            },
    {
        let o = &self.options;
        if o.is_set_to_other_than("qp_presolve", &d.qp_presolve) {
            Some("qp_presolve")
        } else if o.is_set_to_other_than("qp_tau", &d.qp_tau) {
            Some("qp_tau")
        } else if o.is_set_to_other_than("qp_tau_max", &d.qp_tau_max) {
            Some("qp_tau_max")
        } else if o.is_set_to_other_than("qp_reg", &d.qp_reg) {
            Some("qp_reg")
        } else if o.is_set_to_other_than("qp_gondzio_corr", &d.qp_gondzio_corr) {
            Some("qp_gondzio_corr")
        } else if o.is_set_to_other_than("qp_infeas_tol", &d.qp_infeas_tol) {
            Some("qp_infeas_tol")
        } else if o.is_set_to_other_than("qp_hsde", &d.qp_hsde) {
            Some("qp_hsde")
        } else if o.is_set_to_other_than("qp_equilibrate", &d.qp_equilibrate) {
            Some("qp_equilibrate")
        } else if o.is_set_to_other_than("qp_crossover", &d.qp_crossover) {
            Some("qp_crossover")
        } else {
            None
        }
    }

    /// The message on an option that is set although its engine cannot be
    /// reached. One that is set to its default asks for nothing.
    pub fn unhonored_convex_option(&self, d: &ConvexDefaults) -> (r: Option<String>)
        ensures
            r is Some <==> unhonored_convex(*self, *d) is Some,
            r matches Some(msg) ==> msg@ == convex_option_message(unhonored_convex(*self, *d)->0),
    {
        if self.convex_routing_available {
            return None;
        }
        match self.first_convex_option(d) {
            Some(name) => Some(report_convex_option(name)),
            None => None,
        }
    }

    fn scoped(&self, own: &str, general: &str) -> (r: (Option<Number>, Option<Number>))
        ensures
            r.0 == scoped_set(self.options@, own@, general@),
            r.1 == scoped_of(self.options@, own@, general@),
    {
        match self.options.set_numeric(own) {
            Some(v) => (Some(v), Some(v)),
            None => (
                self.options.set_numeric(general),
                match self.options.get_numeric_value(general) {
                    Some((v, _set)) => Some(v),
                    None => None,
                },
            ),
        }
    }

    /// The contradiction in the MA57 pivot tolerances, if there is one.
    pub fn ma57_pivtol_bracket_refusal(&self) -> (r: Option<Ma57Bracket>)
        ensures
            r == ma57_contradiction(self.options@),
    {
        let pivtol = match self.options.get_numeric_value("ma57_pivtol") {
            Some((v, _set)) => Some(v),
            None => None,
        };
        let main = find_bracket(false, self.options.set_numeric("ma57_pivtolmax"), pivtol);
        if main.is_some() {
            return main;
        }
        let ceiling = self.scoped("resto.ma57_pivtolmax", "ma57_pivtolmax");
        let start = self.scoped("resto.ma57_pivtol", "ma57_pivtol");
        find_bracket(true, ceiling.0, start.1)
    }

    /// The first reason to refuse the solve, in the order in which they are
    /// reported. What only the model or the registry can tell is handed in.
    pub fn refusal(
        &self,
        scaling_refused: bool,
        option_refused: bool,
        value_refused: bool,
        d: &ConvexDefaults,
    ) -> (r: Option<Refusal>)
        ensures
            refuses(*self, scaling_refused, option_refused, value_refused, *d, r),
    {
        if scaling_refused {
            return Some(Refusal::ScalingFactors);
        }
        if let Some(name) = self.unsupported_library_solver_selection() {
            return Some(Refusal::SolverSelection(name));
        }
        if let Some(name) = self.unimplemented_linear_solver() {
            return Some(Refusal::LinearSolver(name));
        }
        if option_refused {
            return Some(Refusal::UnimplementedOption);
        }
        if value_refused {
            return Some(Refusal::UnimplementedValue);
        }
        if let Some(msg) = self.unhonored_option_file_name() {
            return Some(Refusal::OptionFileName(msg));
        }
        if let Some(msg) = self.unhonored_convex_option(d) {
            return Some(Refusal::ConvexOption(msg));
        }
        match self.ma57_pivtol_bracket_refusal() {
            Some(b) => Some(Refusal::Ma57Bracket(b)),
            None => None,
        }
    }

    /// The route of a model that the l1 penalty has left alone.
    pub fn route_past_l1(&self, m: i32) -> (r: Route)
        ensures
            r == route_without_l1(self.options@, m),
    {
        if m > 0 && self.is_l1_fallback_enabled() && !self.is_l1_penalty_enabled() {
            Route::L1Fallback
        } else if self.is_dual_divergence_retry_enabled() {
            Route::DualDivergenceRetry
        } else {
            Route::Standard
        }
    }

    /// The route of a model.
    pub fn route(&self, facts: Option<ModelFacts>) -> (r: Route)
        ensures
            r == route_of(self.options@, facts),
    {
        if self.is_sqp_algorithm_selected() {
            return Route::Sqp;
        }
        match facts {
            None => Route::InvalidProblem,
            Some(f) => {
                if f.proved_infeasible {
                    Route::ProvedInfeasible
                } else if f.m > 0 && self.is_l1_penalty_enabled() {
                    Route::L1Penalty
                } else {
                    self.route_past_l1(f.m)
                }
            },
        }
    }
}

/// An option that the caller set to its default is never refused.
pub proof fn law_defaults_are_not_refused(a: IpoptApplication, d: ConvexDefaults)
    requires
        !set_to_other_than_default(a.options@, "option_file_name"@),
        setting(a.options@, "qp_presolve"@).set is Some ==> setting(a.options@, "qp_presolve"@).set == Some(
            d.qp_presolve@,
        ),
        setting(a.options@, "qp_tau"@).set is Some ==> setting(a.options@, "qp_tau"@).set == Some(
            d.qp_tau@,
        ),
        setting(a.options@, "qp_tau_max"@).set is Some ==> setting(a.options@, "qp_tau_max"@).set == Some(
            d.qp_tau_max@,
        ),
        setting(a.options@, "qp_reg"@).set is Some ==> setting(a.options@, "qp_reg"@).set == Some(
            d.qp_reg@,
        ),
        setting(a.options@, "qp_gondzio_corr"@).set is Some ==> setting(a.options@, "qp_gondzio_corr"@).set == Some(
            d.qp_gondzio_corr@,
        ),
        setting(a.options@, "qp_infeas_tol"@).set is Some ==> setting(a.options@, "qp_infeas_tol"@).set == Some(
            d.qp_infeas_tol@,
        ),
        setting(a.options@, "qp_hsde"@).set is Some ==> setting(a.options@, "qp_hsde"@).set == Some(
            d.qp_hsde@,
        ),
        setting(a.options@, "qp_equilibrate"@).set is Some ==> setting(a.options@, "qp_equilibrate"@).set == Some(
            d.qp_equilibrate@,
        ),
        setting(a.options@, "qp_crossover"@).set is Some ==> setting(a.options@, "qp_crossover"@).set == Some(
            d.qp_crossover@,
        ),
    ensures
        unhonored_file(a) is None,
        unhonored_convex(a, d) is None,
{
}

/// An option of the convex engines that is set to anything but its default is
/// refused wherever those engines cannot be reached.
pub proof fn law_unreachable_settings_are_refused(a: IpoptApplication, d: ConvexDefaults)
    requires
        !a.convex_routing_available,
        set_to_other_than(a.options@, "qp_presolve"@, d.qp_presolve@)
            || set_to_other_than(a.options@, "qp_tau"@, d.qp_tau@)
            || set_to_other_than(a.options@, "qp_tau_max"@, d.qp_tau_max@)
            || set_to_other_than(a.options@, "qp_reg"@, d.qp_reg@)
            || set_to_other_than(a.options@, "qp_gondzio_corr"@, d.qp_gondzio_corr@)
            || set_to_other_than(a.options@, "qp_infeas_tol"@, d.qp_infeas_tol@)
            || set_to_other_than(a.options@, "qp_hsde"@, d.qp_hsde@)
            || set_to_other_than(a.options@, "qp_equilibrate"@, d.qp_equilibrate@)
            || set_to_other_than(a.options@, "qp_crossover"@, d.qp_crossover@),
    ensures
        unhonored_convex(a, d) is Some,
{
}

/// A model that presolve has proved infeasible is never solved, and in
/// particular never handed to the l1 penalty, unless the SQP driver was chosen.
pub proof fn law_proved_infeasible_is_not_solved(o: OptionsView, m: i32)
    requires
        !sqp_selected(o),
    ensures
        status_without_solve(
            route_of(o, Some(ModelFacts { m, proved_infeasible: true })),
        ) == Some(ApplicationReturnStatus::InfeasibleProblemDetected),
{
}

/// A model without constraints never goes through the l1 penalty.
pub proof fn law_unconstrained_skips_l1(o: OptionsView, f: ModelFacts)
    requires
        f.m <= 0,
    ensures
        route_of(o, Some(f)) != Route::L1Penalty,
        route_of(o, Some(f)) != Route::L1Fallback,
{
}

} // verus!
