//! Options of the active-set SQP driver and of its QP subproblem solver.
use crate::number::Number;
use crate::options::integer_set;
use crate::options::numeric_set;
use crate::options::switch_set;
use crate::options::text_set;
use crate::options::OptionsList;
use crate::options::OptionsView;
use crate::text::same;
use vstd::prelude::*;

verus! {

/// How the SQP driver globalizes its steps.
#[derive(Clone, Copy, Debug, PartialEq, Eq, Structural)]
pub enum SqpGlobalization {
    Filter,
    L1Elastic,
}

/// Where the SQP driver has its Hessian from.
#[derive(Clone, Copy, Debug, PartialEq, Eq, Structural)]
pub enum SqpHessianSource {
    Exact,
    DampedBfgs,
    Lbfgs,
}

/// Knobs of the SQP driver. The driver keeps its own value of one that is
/// unset.
#[derive(Clone, Copy, Debug, PartialEq, Eq, Structural)]
pub struct SqpOptions {
    pub globalization: Option<SqpGlobalization>,
    pub hessian: Option<SqpHessianSource>,
    pub max_iter: Option<u32>,
    pub tol: Option<Number>,
    pub constr_viol_tol: Option<Number>,
    pub dual_inf_tol: Option<Number>,
    pub l1_penalty: Option<Number>,
    pub l1_penalty_safety: Option<Number>,
    pub l1_penalty_max: Option<Number>,
    pub bt_reduction: Option<Number>,
    pub bt_min_alpha: Option<Number>,
    pub print_level: Option<u8>,
    pub lbfgs_max_history: Option<u32>,
}

impl SqpOptions {
    /// The knobs that nobody has set.
    pub open spec fn standard() -> SqpOptions {
        SqpOptions {
            globalization: None,
            hessian: None,
            max_iter: None,
            tol: None,
            constr_viol_tol: None,
            dual_inf_tol: None,
            l1_penalty: None,
            l1_penalty_safety: None,
            l1_penalty_max: None,
            bt_reduction: None,
            bt_min_alpha: None,
            print_level: None,
            lbfgs_max_history: None,
        }
    }
}

impl Default for SqpOptions {
    fn default() -> (r: SqpOptions)
        ensures
            r == SqpOptions::standard(),
    {
        SqpOptions {
            globalization: None,
            hessian: None,
            max_iter: None,
            tol: None,
            constr_viol_tol: None,
            dual_inf_tol: None,
            l1_penalty: None,
            l1_penalty_safety: None,
            l1_penalty_max: None,
            bt_reduction: None,
            bt_min_alpha: None,
            print_level: None,
            lbfgs_max_history: None,
        }
    }
}

/// The number that the caller set, or what was there.
pub open spec fn number_over(o: OptionsView, name: Seq<char>, was: Option<Number>) -> Option<
    Number,
> {
    match numeric_set(o, name) {
        Some(v) => Some(v),
        None => was,
    }
}

/// The globalization that the caller named, or what was there.
pub open spec fn globalization_over(o: OptionsView, was: Option<SqpGlobalization>) -> Option<
    SqpGlobalization,
> {
    match text_set(o, "sqp_globalization"@) {
        Some(t) => if t == "filter"@ {
            Some(SqpGlobalization::Filter)
        } else if t == "l1-elastic"@ {
            Some(SqpGlobalization::L1Elastic)
        } else {
            was
        },
        None => was,
    }
}

/// The Hessian source: an explicit `sqp_hessian` wins; failing that, a
/// limited-memory `hessian_approximation` asks for the dense damped update.
pub open spec fn hessian_over(o: OptionsView, was: Option<SqpHessianSource>) -> Option<
    SqpHessianSource,
> {
    let base = if text_set(o, "hessian_approximation"@) == Some("limited-memory"@) {
        Some(SqpHessianSource::DampedBfgs)
    } else {
        was
    };
    match text_set(o, "sqp_hessian"@) {
        Some(t) => if t == "exact"@ {
            Some(SqpHessianSource::Exact)
        } else if t == "damped-bfgs"@ {
            Some(SqpHessianSource::DampedBfgs)
        } else if t == "lbfgs"@ {
            Some(SqpHessianSource::Lbfgs)
        } else {
            base
        },
        None => base,
    }
}

/// The options that the caller set, over what was there.
pub open spec fn sqp_over(o: OptionsView, was: SqpOptions) -> SqpOptions {
    SqpOptions {
        globalization: globalization_over(o, was.globalization),
        hessian: hessian_over(o, was.hessian),
        max_iter: at_least_over(o, "sqp_max_iter"@, 0, was.max_iter),
        tol: number_over(o, "sqp_tol"@, was.tol),
        constr_viol_tol: number_over(o, "sqp_constr_viol_tol"@, was.constr_viol_tol),
        dual_inf_tol: number_over(o, "sqp_dual_inf_tol"@, was.dual_inf_tol),
        l1_penalty: number_over(o, "sqp_l1_penalty"@, was.l1_penalty),
        l1_penalty_safety: number_over(o, "sqp_l1_penalty_safety"@, was.l1_penalty_safety),
        l1_penalty_max: number_over(o, "sqp_l1_penalty_max"@, was.l1_penalty_max),
        bt_reduction: number_over(o, "sqp_bt_reduction"@, was.bt_reduction),
        bt_min_alpha: number_over(o, "sqp_bt_min_alpha"@, was.bt_min_alpha),
        print_level: byte_over(o, "sqp_print_level"@, was.print_level),
        lbfgs_max_history: at_least_over(o, "sqp_lbfgs_max_history"@, 1, was.lbfgs_max_history),
    }
}

/// The iteration limit that the caller set, or what was there.
pub open spec fn at_least_over(o: OptionsView, name: Seq<char>, least: i32, was: Option<
    u32,
>) -> Option<u32> {
    match integer_set(o, name) {
        Some(v) => if v >= least {
            Some(v as u32)
        } else {
            was
        },
        None => was,
    }
}

/// The print level that the caller set, held to a byte, or what was there.
pub open spec fn byte_over(o: OptionsView, name: Seq<char>, was: Option<u8>) -> Option<u8> {
    match integer_set(o, name) {
        Some(v) => Some(
            if v < 0 {
                0u8
            } else if v > 255 {
                255u8
            } else {
                v as u8
            },
        ),
        None => was,
    }
}

fn read_number(o: &OptionsList, name: &str, was: Option<Number>) -> (r: Option<Number>)
    ensures
        r == number_over(o@, name@, was),
{
    match o.set_numeric(name) {
        Some(v) => Some(v),
        None => was,
    }
}

fn read_at_least(o: &OptionsList, name: &str, least: i32, was: Option<u32>) -> (r: Option<u32>)
    requires
        least >= 0,
    ensures
        r == at_least_over(o@, name@, least, was),
{
    match o.set_integer(name) {
        Some(v) => {
            if v >= least {
                Some(v as u32)
            } else {
                was
            }
        },
        None => was,
    }
}

fn read_byte(o: &OptionsList, name: &str, was: Option<u8>) -> (r: Option<u8>)
    ensures
        r == byte_over(o@, name@, was),
{
    match o.set_integer(name) {
        Some(v) => Some(
            if v < 0 {
                0
            } else if v > 255 {
                255
            } else {
                v as u8
            },
        ),
        None => was,
    }
}

fn read_globalization(o: &OptionsList, was: Option<SqpGlobalization>) -> (r: Option<
    SqpGlobalization,
>)
    ensures
        r == globalization_over(o@, was),
{
    match o.set_text("sqp_globalization") {
        Some(s) => {
            if same(s.as_str(), "filter") {
                Some(SqpGlobalization::Filter)
            } else if same(s.as_str(), "l1-elastic") {
                Some(SqpGlobalization::L1Elastic)
            } else {
                was
            }
        },
        None => was,
    }
}

fn read_hessian(o: &OptionsList, was: Option<SqpHessianSource>) -> (r: Option<SqpHessianSource>)
    ensures
        r == hessian_over(o@, was),
{
    let mut base = was;
    if let Some(s) = o.set_text("hessian_approximation") {
        if same(s.as_str(), "limited-memory") {
            base = Some(SqpHessianSource::DampedBfgs);
        }
    }
    match o.set_text("sqp_hessian") {
        Some(s) => {
            if same(s.as_str(), "exact") {
                Some(SqpHessianSource::Exact)
            } else if same(s.as_str(), "damped-bfgs") {
                Some(SqpHessianSource::DampedBfgs)
            } else if same(s.as_str(), "lbfgs") {
                Some(SqpHessianSource::Lbfgs)
            } else {
                base
            }
        },
        None => base,
    }
}

/// Reads the `sqp_*` options that the caller set.
pub fn apply_sqp_options(options: &OptionsList, opts: &mut SqpOptions)
    ensures
        *final(opts) == sqp_over(options@, *old(opts)),
{
    let was = *opts;
    *opts = SqpOptions {
        globalization: read_globalization(options, was.globalization),
        hessian: read_hessian(options, was.hessian),
        max_iter: read_at_least(options, "sqp_max_iter", 0, was.max_iter),
        tol: read_number(options, "sqp_tol", was.tol),
        constr_viol_tol: read_number(options, "sqp_constr_viol_tol", was.constr_viol_tol),
        dual_inf_tol: read_number(options, "sqp_dual_inf_tol", was.dual_inf_tol),
        l1_penalty: read_number(options, "sqp_l1_penalty", was.l1_penalty),
        l1_penalty_safety: read_number(options, "sqp_l1_penalty_safety", was.l1_penalty_safety),
        l1_penalty_max: read_number(options, "sqp_l1_penalty_max", was.l1_penalty_max),
        bt_reduction: read_number(options, "sqp_bt_reduction", was.bt_reduction),
        bt_min_alpha: read_number(options, "sqp_bt_min_alpha", was.bt_min_alpha),
        print_level: read_byte(options, "sqp_print_level", was.print_level),
        lbfgs_max_history: read_at_least(
            options,
            "sqp_lbfgs_max_history",
            1,
            was.lbfgs_max_history,
        ),
    };
}

/// An explicit `sqp_hessian` wins over `hessian_approximation`.
pub proof fn law_explicit_sqp_hessian_wins(o: OptionsView, was: SqpOptions)
    ensures
        text_set(o, "sqp_hessian"@) == Some("exact"@) ==> sqp_over(o, was).hessian == Some(
            SqpHessianSource::Exact,
        ),
        text_set(o, "sqp_hessian"@) == Some("damped-bfgs"@) ==> sqp_over(o, was).hessian == Some(
            SqpHessianSource::DampedBfgs,
        ),
        text_set(o, "sqp_hessian"@) == Some("lbfgs"@) ==> sqp_over(o, was).hessian == Some(
            SqpHessianSource::Lbfgs,
        ),
        text_set(o, "sqp_hessian"@) is None && text_set(o, "hessian_approximation"@) == Some(
            "limited-memory"@,
        ) ==> sqp_over(o, was).hessian == Some(SqpHessianSource::DampedBfgs),
{
    reveal_strlit("exact");
    reveal_strlit("damped-bfgs");
    reveal_strlit("lbfgs");
    assert("exact"@[0] == 'e');
    assert("damped-bfgs"@[0] == 'd');
    assert("lbfgs"@[0] == 'l');
}

/// Knobs of the QP subproblem solver. The solver keeps its own value of one
/// that is unset.
#[derive(Debug, PartialEq)]
pub struct QpOptions {
    pub max_iter: Option<i32>,
    pub feas_tol: Option<Number>,
    pub opt_tol: Option<Number>,
    pub elastic_gamma: Option<Number>,
    pub anti_cycling: Option<String>,
    pub use_schur_updates: Option<bool>,
    pub max_schur_updates_before_refactor: Option<i32>,
    pub use_homotopy: Option<bool>,
    /// Off on this path unless the caller asks for it.
    pub certify_second_order: bool,
}

impl QpOptions {
    /// The knobs that nobody has set.
    pub open spec fn standard() -> QpOptions {
        QpOptions {
            max_iter: None,
            feas_tol: None,
            opt_tol: None,
            elastic_gamma: None,
            anti_cycling: None,
            use_schur_updates: None,
            max_schur_updates_before_refactor: None,
            use_homotopy: None,
            certify_second_order: false,
        }
    }

    /// The two hold the same.
    pub open spec fn same_as(self, other: QpOptions) -> bool {
        &&& self.max_iter == other.max_iter
        &&& self.feas_tol == other.feas_tol
        &&& self.opt_tol == other.opt_tol
        &&& self.elastic_gamma == other.elastic_gamma
        &&& self.anti_cycling is Some == other.anti_cycling is Some
        &&& self.anti_cycling is Some ==> self.anti_cycling->0@ == other.anti_cycling->0@
        &&& self.use_schur_updates == other.use_schur_updates
        &&& self.max_schur_updates_before_refactor == other.max_schur_updates_before_refactor
        &&& self.use_homotopy == other.use_homotopy
        &&& self.certify_second_order == other.certify_second_order
    }

    /// A copy.
    pub fn duplicate(&self) -> (r: QpOptions)
        ensures
            r.same_as(*self),
    {
        QpOptions {
            max_iter: self.max_iter,
            feas_tol: self.feas_tol,
            opt_tol: self.opt_tol,
            elastic_gamma: self.elastic_gamma,
            anti_cycling: match &self.anti_cycling {
                Some(s) => Some(s.clone()),
                None => None,
            },
            use_schur_updates: self.use_schur_updates,
            max_schur_updates_before_refactor: self.max_schur_updates_before_refactor,
            use_homotopy: self.use_homotopy,
            certify_second_order: self.certify_second_order,
        }
    }
}

impl Default for QpOptions {
    fn default() -> (r: QpOptions)
        ensures
            r == QpOptions::standard(),
    {
        QpOptions {
            max_iter: None,
            feas_tol: None,
            opt_tol: None,
            elastic_gamma: None,
            anti_cycling: None,
            use_schur_updates: None,
            max_schur_updates_before_refactor: None,
            use_homotopy: None,
            certify_second_order: false,
        }
    }
}

/// The caller's value where there is one, else what was there.
pub open spec fn over<T>(set: Option<T>, was: Option<T>) -> Option<T> {
    match set {
        Some(v) => Some(v),
        None => was,
    }
}

/// The `sqp_qp_*` options are in order: the QP solver's own reader takes every
/// value of them, and an iteration limit, where one is set, is at least 1.
pub open spec fn qp_options_in_order(o: OptionsView, reader_accepts: bool) -> bool {
    reader_accepts && match integer_set(o, "sqp_qp_max_iter"@) {
        Some(v) => v >= 1,
        None => true,
    }
}

/// The options that the caller set, over what was there. A family that is not
/// in order is left out whole.
pub open spec fn qp_over(
    o: OptionsView,
    reader_accepts: bool,
    was: QpOptions,
    now: QpOptions,
) -> bool {
    if !qp_options_in_order(o, reader_accepts) {
        now == was
    } else {
        &&& now.max_iter == over(integer_set(o, "sqp_qp_max_iter"@), was.max_iter)
        &&& now.feas_tol == over(numeric_set(o, "sqp_qp_feas_tol"@), was.feas_tol)
        &&& now.opt_tol == over(numeric_set(o, "sqp_qp_opt_tol"@), was.opt_tol)
        &&& now.elastic_gamma == over(numeric_set(o, "sqp_qp_elastic_gamma"@), was.elastic_gamma)
        &&& match text_set(o, "sqp_qp_anti_cycling"@) {
            Some(t) => now.anti_cycling is Some && now.anti_cycling->0@ == t,
            None => now.anti_cycling == was.anti_cycling,
        }
        &&& now.use_schur_updates == over(
            switch_set(o, "sqp_qp_use_schur_updates"@),
            was.use_schur_updates,
        )
        &&& now.max_schur_updates_before_refactor == over(
            integer_set(o, "sqp_qp_max_schur_updates_before_refactor"@),
            was.max_schur_updates_before_refactor,
        )
        &&& now.use_homotopy == over(switch_set(o, "sqp_qp_use_homotopy"@), was.use_homotopy)
        &&& now.certify_second_order == match switch_set(o, "sqp_qp_certify_second_order"@) {
            Some(v) => v,
            None => was.certify_second_order,
        }
    }
}

/// Reads the `sqp_qp_*` options that the caller set. `reader_accepts` says
/// whether the QP solver's own reader takes every value of them, the name of an
/// anti-cycling rule among them.
pub fn apply_qp_subproblem_options(
    options: &OptionsList,
    reader_accepts: bool,
    opts: &mut QpOptions,
)
    ensures
        qp_over(options@, reader_accepts, *old(opts), *final(opts)),
{
    if !reader_accepts {
        return;
    }
    let max_iter = options.set_integer("sqp_qp_max_iter");
    if let Some(v) = max_iter {
        if v < 1 {
            return;
        }
        opts.max_iter = Some(v);
    }
    if let Some(v) = options.set_numeric("sqp_qp_feas_tol") {
        opts.feas_tol = Some(v);
    }
    if let Some(v) = options.set_numeric("sqp_qp_opt_tol") {
        opts.opt_tol = Some(v);
    }
    if let Some(v) = options.set_numeric("sqp_qp_elastic_gamma") {
        opts.elastic_gamma = Some(v);
    }
    if let Some(v) = options.set_text("sqp_qp_anti_cycling") {
        opts.anti_cycling = Some(v);
    }
    if let Some(v) = options.set_switch("sqp_qp_use_schur_updates") {
        opts.use_schur_updates = Some(v);
    }
    if let Some(v) = options.set_integer("sqp_qp_max_schur_updates_before_refactor") {
        opts.max_schur_updates_before_refactor = Some(v);
    }
    if let Some(v) = options.set_switch("sqp_qp_use_homotopy") {
        opts.use_homotopy = Some(v);
    }
    if let Some(v) = options.set_switch("sqp_qp_certify_second_order") {
        opts.certify_second_order = v;
    }
}

} // verus!
