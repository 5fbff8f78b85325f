//! Reading the builder off the options.
use crate::alg_builder::AdaptiveMuGlobalization;
use crate::alg_builder::AdaptiveMuKktNorm;
use crate::alg_builder::AlgorithmBuilder;
use crate::alg_builder::AlgorithmChoice;
use crate::alg_builder::AlphaForY;
use crate::alg_builder::BalancingTermType;
use crate::alg_builder::CentralityType;
use crate::alg_builder::ConvCheckOptions;
use crate::alg_builder::ElementMode;
use crate::alg_builder::FdColoring;
use crate::alg_builder::FdPatternSource;
use crate::alg_builder::HessianApproxChoice;
use crate::alg_builder::InitOptions;
use crate::alg_builder::InitialApprox;
use crate::alg_builder::LineSearchChoice;
use crate::alg_builder::LineSearchOptions;
use crate::alg_builder::LinearSolverChoice;
use crate::alg_builder::LinearSystemScalingChoice;
use crate::alg_builder::MuOptions;
use crate::alg_builder::MuOracleKind;
use crate::alg_builder::MuStrategyChoice;
use crate::alg_builder::NormType;
use crate::alg_builder::OutputOptions;
use crate::alg_builder::PerturbationOptions;
use crate::alg_builder::RefinementOptions;
use crate::alg_builder::RestoOptions;
use crate::alg_builder::UpdateType;
use crate::alg_builder::WarmStartOptions;
use crate::alg_builder::WarmStartRecentering;
use crate::decimal::D0;
use crate::decimal::D1;
use crate::decimal::D1E1;
use crate::decimal::D1E10;
use crate::decimal::D1E2;
use crate::decimal::D1E20;
use crate::decimal::D1E3;
use crate::decimal::D1EM2;
use crate::decimal::D1EM5;
use crate::decimal::D1EM6;
use crate::decimal::D2EM1;
use crate::decimal::TEN_EPSILON;
use crate::number::Number;
use crate::options::any_yes_or;
use crate::options::integer_or;
use crate::options::integer_set;
use crate::options::numeric_or;
use crate::options::numeric_set;
use crate::options::switch_or;
use crate::options::switch_set;
use crate::options::text_of;
use crate::options::text_set;
use crate::options::yes_or;
use crate::options::OptionsList;
use crate::options::OptionsView;
use crate::sqp_options::QpOptions;
use crate::sqp_options::SqpOptions;
use crate::text::alike;
use crate::text::same;
use crate::text::same_ignoring_case;
use vstd::prelude::*;

verus! {

/// The oracle of the name; any other name is the quality function.
pub open spec fn mu_oracle_named(t: Seq<char>) -> MuOracleKind {
    if t == "loqo"@ {
        MuOracleKind::Loqo
    } else if t == "probing"@ {
        MuOracleKind::Probing
    } else {
        MuOracleKind::QualityFunction
    }
}

fn parse_mu_oracle(t: &str) -> (r: MuOracleKind)
    ensures
        r == mu_oracle_named(t@),
{
    if same(t, "loqo") {
        MuOracleKind::Loqo
    } else if same(t, "probing") {
        MuOracleKind::Probing
    } else {
        MuOracleKind::QualityFunction
    }
}

/// The globalization of the name; any other name is the filter.
pub open spec fn globalization_named(t: Seq<char>) -> AdaptiveMuGlobalization {
    if t == "kkt-error"@ {
        AdaptiveMuGlobalization::KktError
    } else if t == "never-monotone-mode"@ {
        AdaptiveMuGlobalization::NeverMonotoneMode
    } else {
        AdaptiveMuGlobalization::ObjConstrFilter
    }
}

fn parse_globalization(t: &str) -> (r: AdaptiveMuGlobalization)
    ensures
        r == globalization_named(t@),
{
    if same(t, "kkt-error") {
        AdaptiveMuGlobalization::KktError
    } else if same(t, "never-monotone-mode") {
        AdaptiveMuGlobalization::NeverMonotoneMode
    } else {
        AdaptiveMuGlobalization::ObjConstrFilter
    }
}

/// The Hessian approximation of the name; any other name is exact.
pub open spec fn hessian_named(t: Seq<char>) -> HessianApproxChoice {
    if t == "limited-memory"@ {
        HessianApproxChoice::LimitedMemory
    } else if t == "partitioned"@ {
        HessianApproxChoice::Partitioned
    } else if t == "finite-difference"@ {
        HessianApproxChoice::FiniteDifference
    } else {
        HessianApproxChoice::Exact
    }
}

fn parse_hessian(t: &str) -> (r: HessianApproxChoice)
    ensures
        r == hessian_named(t@),
{
    if same(t, "limited-memory") {
        HessianApproxChoice::LimitedMemory
    } else if same(t, "partitioned") {
        HessianApproxChoice::Partitioned
    } else if same(t, "finite-difference") {
        HessianApproxChoice::FiniteDifference
    } else {
        HessianApproxChoice::Exact
    }
}

/// The line search of the name; any other name is the filter.
pub open spec fn line_search_named(t: Seq<char>) -> LineSearchChoice {
    if t == "cg-penalty"@ {
        LineSearchChoice::CgPenalty
    } else if t == "penalty"@ {
        LineSearchChoice::Penalty
    } else {
        LineSearchChoice::Filter
    }
}

fn parse_line_search(t: &str) -> (r: LineSearchChoice)
    ensures
        r == line_search_named(t@),
{
    if same(t, "cg-penalty") {
        LineSearchChoice::CgPenalty
    } else if same(t, "penalty") {
        LineSearchChoice::Penalty
    } else {
        LineSearchChoice::Filter
    }
}

/// The scaling of the name; any other name is none.
pub open spec fn scaling_named(t: Seq<char>) -> LinearSystemScalingChoice {
    if t == "ruiz"@ {
        LinearSystemScalingChoice::Ruiz
    } else if t == "mc19"@ {
        LinearSystemScalingChoice::Mc19
    } else if t == "slack-based"@ {
        LinearSystemScalingChoice::SlackBased
    } else {
        LinearSystemScalingChoice::Unscaled
    }
}

fn parse_scaling(t: &str) -> (r: LinearSystemScalingChoice)
    ensures
        r == scaling_named(t@),
{
    if same(t, "ruiz") {
        LinearSystemScalingChoice::Ruiz
    } else if same(t, "mc19") {
        LinearSystemScalingChoice::Mc19
    } else if same(t, "slack-based") {
        LinearSystemScalingChoice::SlackBased
    } else {
        LinearSystemScalingChoice::Unscaled
    }
}

/// The initial scalar of the name.
pub open spec fn initial_approx_named(t: Seq<char>) -> InitialApprox {
    if t == "scalar1"@ {
        InitialApprox::Scalar1
    } else if t == "scalar2"@ {
        InitialApprox::Scalar2
    } else if t == "scalar3"@ {
        InitialApprox::Scalar3
    } else if t == "scalar4"@ {
        InitialApprox::Scalar4
    } else if t == "constant"@ {
        InitialApprox::Constant
    } else if t == "history-max"@ {
        InitialApprox::HistoryMax
    } else {
        InitialApprox::Scalar2
    }
}

fn parse_initial_approx(t: &str) -> (r: InitialApprox)
    ensures
        r == initial_approx_named(t@),
{
    if same(t, "scalar1") {
        InitialApprox::Scalar1
    } else if same(t, "scalar2") {
        InitialApprox::Scalar2
    } else if same(t, "scalar3") {
        InitialApprox::Scalar3
    } else if same(t, "scalar4") {
        InitialApprox::Scalar4
    } else if same(t, "constant") {
        InitialApprox::Constant
    } else if same(t, "history-max") {
        InitialApprox::HistoryMax
    } else {
        InitialApprox::Scalar2
    }
}

/// The norm of the name; any other name is the squared 2-norm.
pub open spec fn norm_type_named(t: Seq<char>) -> NormType {
    if t == "1-norm"@ {
        NormType::OneNorm
    } else if t == "2-norm"@ {
        NormType::TwoNorm
    } else if t == "max-norm"@ {
        NormType::MaxNorm
    } else {
        NormType::TwoNormSquared
    }
}

fn parse_norm_type(t: &str) -> (r: NormType)
    ensures
        r == norm_type_named(t@),
{
    if same(t, "1-norm") {
        NormType::OneNorm
    } else if same(t, "2-norm") {
        NormType::TwoNorm
    } else if same(t, "max-norm") {
        NormType::MaxNorm
    } else {
        NormType::TwoNormSquared
    }
}

/// The norm of the name; any other name is the squared 2-norm.
pub open spec fn kkt_norm_named(t: Seq<char>) -> AdaptiveMuKktNorm {
    if t == "1-norm"@ {
        AdaptiveMuKktNorm::OneNorm
    } else if t == "2-norm"@ {
        AdaptiveMuKktNorm::TwoNorm
    } else if t == "max-norm"@ {
        AdaptiveMuKktNorm::MaxNorm
    } else {
        AdaptiveMuKktNorm::TwoNormSquared
    }
}

fn parse_kkt_norm(t: &str) -> (r: AdaptiveMuKktNorm)
    ensures
        r == kkt_norm_named(t@),
{
    if same(t, "1-norm") {
        AdaptiveMuKktNorm::OneNorm
    } else if same(t, "2-norm") {
        AdaptiveMuKktNorm::TwoNorm
    } else if same(t, "max-norm") {
        AdaptiveMuKktNorm::MaxNorm
    } else {
        AdaptiveMuKktNorm::TwoNormSquared
    }
}

/// The centrality term of the name; any other name is none.
pub open spec fn centrality_named(t: Seq<char>) -> CentralityType {
    if t == "log"@ {
        CentralityType::LogCenter
    } else if t == "reciprocal"@ {
        CentralityType::ReciprocalCenter
    } else if t == "cubed-reciprocal"@ {
        CentralityType::CubedReciprocalCenter
    } else {
        CentralityType::Off
    }
}

fn parse_centrality(t: &str) -> (r: CentralityType)
    ensures
        r == centrality_named(t@),
{
    if same(t, "log") {
        CentralityType::LogCenter
    } else if same(t, "reciprocal") {
        CentralityType::ReciprocalCenter
    } else if same(t, "cubed-reciprocal") {
        CentralityType::CubedReciprocalCenter
    } else {
        CentralityType::Off
    }
}

/// The balancing term of the name; any other name is none.
pub open spec fn balancing_named(t: Seq<char>) -> BalancingTermType {
    if t == "cubic"@ {
        BalancingTermType::CubicTerm
    } else {
        BalancingTermType::Off
    }
}

fn parse_balancing(t: &str) -> (r: BalancingTermType)
    ensures
        r == balancing_named(t@),
{
    if same(t, "cubic") {
        BalancingTermType::CubicTerm
    } else {
        BalancingTermType::Off
    }
}

/// The step-length policy of the name; any other name is the primal step.
pub open spec fn alpha_for_y_named(t: Seq<char>) -> AlphaForY {
    if t == "bound-mult"@ || t == "bound_mult"@ {
        AlphaForY::BoundMult
    } else if t == "full"@ {
        AlphaForY::Full
    } else if t == "min"@ {
        AlphaForY::Min
    } else if t == "max"@ {
        AlphaForY::Max
    } else {
        AlphaForY::Primal
    }
}

fn parse_alpha_for_y(t: &str) -> (r: AlphaForY)
    ensures
        r == alpha_for_y_named(t@),
{
    if same(t, "bound-mult") || same(t, "bound_mult") {
        AlphaForY::BoundMult
    } else if same(t, "full") {
        AlphaForY::Full
    } else if same(t, "min") {
        AlphaForY::Min
    } else if same(t, "max") {
        AlphaForY::Max
    } else {
        AlphaForY::Primal
    }
}

/// The pattern source of the name; any other name is the declared pattern.
pub open spec fn fd_pattern_named(t: Seq<char>) -> FdPatternSource {
    if t == "jacobian"@ {
        FdPatternSource::Jacobian
    } else {
        FdPatternSource::Declared
    }
}

fn parse_fd_pattern(t: &str) -> (r: FdPatternSource)
    ensures
        r == fd_pattern_named(t@),
{
    if same(t, "jacobian") {
        FdPatternSource::Jacobian
    } else {
        FdPatternSource::Declared
    }
}

/// The coloring of the name; any other name is the star coloring.
pub open spec fn fd_coloring_named(t: Seq<char>) -> FdColoring {
    if t == "cpr"@ {
        FdColoring::Cpr
    } else {
        FdColoring::Star
    }
}

fn parse_fd_coloring(t: &str) -> (r: FdColoring)
    ensures
        r == fd_coloring_named(t@),
{
    if same(t, "cpr") {
        FdColoring::Cpr
    } else {
        FdColoring::Star
    }
}

/// The elements of the name; any other name is one element per constraint.
pub open spec fn elements_named(t: Seq<char>) -> ElementMode {
    if t == "blocks"@ {
        ElementMode::PrimalBlock
    } else {
        ElementMode::PerConstraint
    }
}

fn parse_elements(t: &str) -> (r: ElementMode)
    ensures
        r == elements_named(t@),
{
    if same(t, "blocks") {
        ElementMode::PrimalBlock
    } else {
        ElementMode::PerConstraint
    }
}

/// The update formula of the name; any other name is BFGS.
pub open spec fn limited_memory_update_named(t: Seq<char>) -> UpdateType {
    if t == "sr1"@ {
        UpdateType::Sr1
    } else {
        UpdateType::Bfgs
    }
}

/// The update formula of the name; any other name is SR1.
pub open spec fn partitioned_update_named(t: Seq<char>) -> UpdateType {
    if t == "bfgs"@ {
        UpdateType::Bfgs
    } else {
        UpdateType::Sr1
    }
}

/// `none` in any case switches recentering off.
pub open spec fn recentering_named(t: Seq<char>) -> WarmStartRecentering {
    if alike(t, "none"@) {
        WarmStartRecentering::Off
    } else {
        WarmStartRecentering::Residual
    }
}

fn parse_recentering(t: &str) -> (r: WarmStartRecentering)
    ensures
        r == recentering_named(t@),
{
    if same_ignoring_case(t, "none") {
        WarmStartRecentering::Off
    } else {
        WarmStartRecentering::Residual
    }
}

/// Whether the caller's text is `yes` in any case, where the caller set one.
pub open spec fn any_yes_set(o: OptionsView, name: Seq<char>) -> Option<bool> {
    match text_set(o, name) {
        Some(t) => Some(alike(t, "yes"@)),
        None => None,
    }
}

fn set_any_yes(o: &OptionsList, name: &str) -> (r: Option<bool>)
    ensures
        r == any_yes_set(o@, name@),
{
    match o.set_text(name) {
        Some(t) => Some(same_ignoring_case(t.as_str(), "yes")),
        None => None,
    }
}

/// The integer that the caller set, a negative one as 0.
pub open spec fn non_negative_set(o: OptionsView, name: Seq<char>) -> Option<u32> {
    match integer_set(o, name) {
        Some(v) => Some(
            if v > 0 {
                v as u32
            } else {
                0
            },
        ),
        None => None,
    }
}

fn set_non_negative(o: &OptionsList, name: &str) -> (r: Option<u32>)
    ensures
        r == non_negative_set(o@, name@),
{
    match o.set_integer(name) {
        Some(v) => Some(
            if v > 0 {
                v as u32
            } else {
                0
            },
        ),
        None => None,
    }
}

/// The integer that the caller set, where it is positive.
pub open spec fn positive_size_set(o: OptionsView, name: Seq<char>) -> Option<usize> {
    match integer_set(o, name) {
        Some(v) => if v > 0 {
            Some(v as usize)
        } else {
            None
        },
        None => None,
    }
}

fn set_positive_size(o: &OptionsList, name: &str) -> (r: Option<usize>)
    ensures
        r == positive_size_set(o@, name@),
{
    match o.set_integer(name) {
        Some(v) => {
            if v > 0 {
                Some(v as usize)
            } else {
                None
            }
        },
        None => None,
    }
}

/// The number that the caller set, where it is above the bound, or at it if
/// that is allowed.
pub open spec fn bounded_set(o: OptionsView, name: Seq<char>, at_zero: bool) -> Option<Number> {
    match numeric_set(o, name) {
        Some(v) => if (Number { bits: D0 }).lt_spec(v) || at_zero && (Number { bits: D0 }).le_spec(v) {
            Some(v)
        } else {
            None
        },
        None => None,
    }
}

fn set_bounded(o: &OptionsList, name: &str, at_zero: bool) -> (r: Option<Number>)
    ensures
        r == bounded_set(o@, name@, at_zero),
{
    let zero = Number { bits: D0 };
    match o.set_numeric(name) {
        Some(v) => {
            if zero.less(v) || at_zero && zero.at_most(v) {
                Some(v)
            } else {
                None
            }
        },
        None => None,
    }
}

/// The caller asked for the Mehrotra algorithm.
pub open spec fn mehrotra(o: OptionsView) -> bool {
    text_set(o, "mehrotra_algorithm"@) == Some("yes"@)
}

fn is_mehrotra(o: &OptionsList) -> (r: bool)
    ensures
        r == mehrotra(o@),
{
    match o.set_text("mehrotra_algorithm") {
        Some(t) => same(t.as_str(), "yes"),
        None => false,
    }
}

/// The Hessian approximation that the caller asked for, exact where none.
pub open spec fn hessian_of(o: OptionsView) -> HessianApproxChoice {
    match text_set(o, "hessian_approximation"@) {
        Some(t) => hessian_named(t),
        None => HessianApproxChoice::Exact,
    }
}

fn read_hessian(o: &OptionsList) -> (r: HessianApproxChoice)
    ensures
        r == hessian_of(o@),
{
    match o.set_text("hessian_approximation") {
        Some(t) => parse_hessian(t.as_str()),
        None => HessianApproxChoice::Exact,
    }
}

/// The barrier strategy. The Mehrotra algorithm needs the adaptive one; else
/// what the caller named counts; else a limited-memory Hessian takes the
/// adaptive one and any other the monotone one.
pub open spec fn mu_strategy_of(o: OptionsView) -> MuStrategyChoice {
    if mehrotra(o) {
        MuStrategyChoice::Adaptive
    } else {
        match text_set(o, "mu_strategy"@) {
            Some(t) => if t == "adaptive"@ {
                MuStrategyChoice::Adaptive
            } else {
                MuStrategyChoice::Monotone
            },
            None => if hessian_of(o) == HessianApproxChoice::LimitedMemory {
                MuStrategyChoice::Adaptive
            } else {
                MuStrategyChoice::Monotone
            },
        }
    }
}

fn read_mu_strategy(o: &OptionsList) -> (r: MuStrategyChoice)
    ensures
        r == mu_strategy_of(o@),
{
    let mehrotra_on = is_mehrotra(o);
    let mut strategy = if mehrotra_on {
        MuStrategyChoice::Adaptive
    } else {
        MuStrategyChoice::Monotone
    };
    match o.set_text("mu_strategy") {
        Some(t) => {
            if same(t.as_str(), "adaptive") {
                strategy = MuStrategyChoice::Adaptive;
            } else if !mehrotra_on {
                strategy = MuStrategyChoice::Monotone;
            }
        },
        None => {
            if read_hessian(o) == HessianApproxChoice::LimitedMemory {
                strategy = MuStrategyChoice::Adaptive;
            }
        },
    }
    strategy
}

/// The oracle of the adaptive strategy.
pub open spec fn mu_oracle_of(o: OptionsView) -> MuOracleKind {
    match text_set(o, "mu_oracle"@) {
        Some(t) => mu_oracle_named(t),
        None => if mehrotra(o) {
            MuOracleKind::Probing
        } else {
            MuOracleKind::QualityFunction
        },
    }
}

fn read_mu_oracle(o: &OptionsList) -> (r: MuOracleKind)
    ensures
        r == mu_oracle_of(o@),
{
    match o.set_text("mu_oracle") {
        Some(t) => parse_mu_oracle(t.as_str()),
        None => {
            if is_mehrotra(o) {
                MuOracleKind::Probing
            } else {
                MuOracleKind::QualityFunction
            }
        },
    }
}

/// The backend that will in fact run: MA57 where it is asked for and
/// available. What the option stands at counts, set or default.
pub open spec fn linear_solver_of(o: OptionsView, ma57_available: bool) -> LinearSolverChoice {
    match text_of(o, "linear_solver"@) {
        Some(t) => if alike(t, "ma57"@) && ma57_available {
            LinearSolverChoice::Ma57
        } else {
            LinearSolverChoice::Feral
        },
        None => LinearSolverChoice::Feral,
    }
}

fn read_linear_solver(o: &OptionsList, ma57_available: bool) -> (r: LinearSolverChoice)
    ensures
        r == linear_solver_of(o@, ma57_available),
{
    match o.get_string_value("linear_solver") {
        Some((t, _set)) => {
            if same_ignoring_case(t.as_str(), "ma57") && ma57_available {
                LinearSolverChoice::Ma57
            } else {
                LinearSolverChoice::Feral
            }
        },
        None => LinearSolverChoice::Feral,
    }
}

fn parse_limited_memory_update(t: &str) -> (r: UpdateType)
    ensures
        r == limited_memory_update_named(t@),
{
    if same(t, "sr1") {
        UpdateType::Sr1
    } else {
        UpdateType::Bfgs
    }
}

fn parse_partitioned_update(t: &str) -> (r: UpdateType)
    ensures
        r == partitioned_update_named(t@),
{
    if same(t, "bfgs") {
        UpdateType::Bfgs
    } else {
        UpdateType::Sr1
    }
}

/// The memory length that the caller set, where it is not negative.
pub open spec fn history_of(o: OptionsView) -> i32 {
    match integer_set(o, "limited_memory_max_history"@) {
        Some(v) => if v >= 0 {
            v
        } else {
            6
        },
        None => 6,
    }
}

/// The integer that the caller set, where it is not negative.
pub open spec fn non_negative_integer_set(o: OptionsView, name: Seq<char>) -> Option<i32> {
    match integer_set(o, name) {
        Some(v) => if v >= 0 {
            Some(v)
        } else {
            None
        },
        None => None,
    }
}

fn set_non_negative_integer(o: &OptionsList, name: &str) -> (r: Option<i32>)
    ensures
        r == non_negative_integer_set(o@, name@),
{
    match o.set_integer(name) {
        Some(v) => {
            if v >= 0 {
                Some(v)
            } else {
                None
            }
        },
        None => None,
    }
}

/// The options that the caller set, over the defaults.
pub open spec fn conv_check_from(o: OptionsView) -> ConvCheckOptions {
    let d = ConvCheckOptions::standard();
    ConvCheckOptions {
        tol: numeric_or(o, "tol"@, d.tol),
        dual_inf_tol: numeric_or(o, "dual_inf_tol"@, d.dual_inf_tol),
        constr_viol_tol: numeric_or(o, "constr_viol_tol"@, d.constr_viol_tol),
        compl_inf_tol: numeric_or(o, "compl_inf_tol"@, d.compl_inf_tol),
        acceptable_tol: numeric_or(o, "acceptable_tol"@, d.acceptable_tol),
        acceptable_dual_inf_tol: numeric_or(o, "acceptable_dual_inf_tol"@, d.acceptable_dual_inf_tol),
        acceptable_constr_viol_tol: numeric_or(o, "acceptable_constr_viol_tol"@, d.acceptable_constr_viol_tol),
        acceptable_compl_inf_tol: numeric_or(o, "acceptable_compl_inf_tol"@, d.acceptable_compl_inf_tol),
        acceptable_obj_change_tol: numeric_or(o, "acceptable_obj_change_tol"@, d.acceptable_obj_change_tol),
        acceptable_iter: integer_or(o, "acceptable_iter"@, d.acceptable_iter),
        max_iter: integer_or(o, "max_iter"@, d.max_iter),
        max_cpu_time: numeric_or(o, "max_cpu_time"@, d.max_cpu_time),
        max_wall_time: numeric_or(o, "max_wall_time"@, d.max_wall_time),
        infeas_stationarity_tol: numeric_or(o, "infeas_stationarity_tol"@, d.infeas_stationarity_tol),
        infeas_viol_kappa: numeric_or(o, "infeas_viol_kappa"@, d.infeas_viol_kappa),
        infeas_max_streak: integer_or(o, "infeas_max_streak"@, d.infeas_max_streak),
        obj_scale_certificate_threshold: numeric_or(o, "obj_scale_certificate_threshold"@, d.obj_scale_certificate_threshold),
        primal_noise_floor_kappa: numeric_or(o, "primal_noise_floor_kappa"@, d.primal_noise_floor_kappa),
        acceptable_progress_kappa: numeric_set(o, "acceptable_progress_kappa"@),
        dual_inf_scale_kappa: numeric_set(o, "dual_inf_scale_kappa"@),
    }
}

fn read_conv_check(o: &OptionsList) -> (r: ConvCheckOptions)
    ensures
        r == conv_check_from(o@),
{
    let d = ConvCheckOptions::default();
    ConvCheckOptions {
        tol: o.numeric("tol", d.tol),
        dual_inf_tol: o.numeric("dual_inf_tol", d.dual_inf_tol),
        constr_viol_tol: o.numeric("constr_viol_tol", d.constr_viol_tol),
        compl_inf_tol: o.numeric("compl_inf_tol", d.compl_inf_tol),
        acceptable_tol: o.numeric("acceptable_tol", d.acceptable_tol),
        acceptable_dual_inf_tol: o.numeric("acceptable_dual_inf_tol", d.acceptable_dual_inf_tol),
        acceptable_constr_viol_tol: o.numeric("acceptable_constr_viol_tol", d.acceptable_constr_viol_tol),
        acceptable_compl_inf_tol: o.numeric("acceptable_compl_inf_tol", d.acceptable_compl_inf_tol),
        acceptable_obj_change_tol: o.numeric("acceptable_obj_change_tol", d.acceptable_obj_change_tol),
        acceptable_iter: o.integer("acceptable_iter", d.acceptable_iter),
        max_iter: o.integer("max_iter", d.max_iter),
        max_cpu_time: o.numeric("max_cpu_time", d.max_cpu_time),
        max_wall_time: o.numeric("max_wall_time", d.max_wall_time),
        infeas_stationarity_tol: o.numeric("infeas_stationarity_tol", d.infeas_stationarity_tol),
        infeas_viol_kappa: o.numeric("infeas_viol_kappa", d.infeas_viol_kappa),
        infeas_max_streak: o.integer("infeas_max_streak", d.infeas_max_streak),
        obj_scale_certificate_threshold: o.numeric("obj_scale_certificate_threshold", d.obj_scale_certificate_threshold),
        primal_noise_floor_kappa: o.numeric("primal_noise_floor_kappa", d.primal_noise_floor_kappa),
        acceptable_progress_kappa: o.set_numeric("acceptable_progress_kappa"),
        dual_inf_scale_kappa: o.set_numeric("dual_inf_scale_kappa"),
    }
}

/// The options that the caller set, over the defaults.
pub open spec fn warm_from(o: OptionsView) -> WarmStartOptions {
    let d = WarmStartOptions::standard();
    WarmStartOptions {
        bound_push: numeric_or(o, "warm_start_bound_push"@, d.bound_push),
        bound_frac: numeric_or(o, "warm_start_bound_frac"@, d.bound_frac),
        slack_bound_push: numeric_or(o, "warm_start_slack_bound_push"@, d.slack_bound_push),
        slack_bound_frac: numeric_or(o, "warm_start_slack_bound_frac"@, d.slack_bound_frac),
        mult_bound_push: numeric_or(o, "warm_start_mult_bound_push"@, d.mult_bound_push),
        mult_init_max: numeric_or(o, "warm_start_mult_init_max"@, d.mult_init_max),
        target_mu: numeric_or(o, "warm_start_target_mu"@, d.target_mu),
        entire_iterate: d.entire_iterate,
        same_structure: d.same_structure,
        recentering: match text_set(o, "warm_start_recentering"@) {
            Some(t) => Some(recentering_named(t)),
            None => None,
        },
    }
}

fn read_warm(o: &OptionsList) -> (r: WarmStartOptions)
    ensures
        r == warm_from(o@),
{
    let d = WarmStartOptions::default();
    WarmStartOptions {
        bound_push: o.numeric("warm_start_bound_push", d.bound_push),
        bound_frac: o.numeric("warm_start_bound_frac", d.bound_frac),
        slack_bound_push: o.numeric("warm_start_slack_bound_push", d.slack_bound_push),
        slack_bound_frac: o.numeric("warm_start_slack_bound_frac", d.slack_bound_frac),
        mult_bound_push: o.numeric("warm_start_mult_bound_push", d.mult_bound_push),
        mult_init_max: o.numeric("warm_start_mult_init_max", d.mult_init_max),
        target_mu: o.numeric("warm_start_target_mu", d.target_mu),
        entire_iterate: d.entire_iterate,
        same_structure: d.same_structure,
        recentering: match o.set_text("warm_start_recentering") {
            Some(t) => Some(parse_recentering(t.as_str())),
            None => None,
        },
    }
}

/// The options that the caller set, over the defaults.
pub open spec fn mu_from(o: OptionsView) -> MuOptions {
    let d = MuOptions::standard();
    MuOptions {
        mu_init: numeric_or(o, "mu_init"@, d.mu_init),
        mu_max: numeric_or(o, "mu_max"@, d.mu_max),
        mu_max_fact: numeric_or(o, "mu_max_fact"@, d.mu_max_fact),
        mu_min: numeric_or(o, "mu_min"@, d.mu_min),
        mu_target: numeric_or(o, "mu_target"@, d.mu_target),
        mu_linear_decrease_factor: numeric_or(o, "mu_linear_decrease_factor"@, d.mu_linear_decrease_factor),
        mu_superlinear_decrease_power: numeric_or(o, "mu_superlinear_decrease_power"@, d.mu_superlinear_decrease_power),
        mu_allow_fast_monotone_decrease: yes_or(o, "mu_allow_fast_monotone_decrease"@, d.mu_allow_fast_monotone_decrease),
        barrier_tol_factor: numeric_or(o, "barrier_tol_factor"@, d.barrier_tol_factor),
        tau_min: numeric_or(o, "tau_min"@, d.tau_min),
        sigma_max: numeric_or(o, "sigma_max"@, d.sigma_max),
        sigma_min: numeric_or(o, "sigma_min"@, d.sigma_min),
        adaptive_mu_globalization: match text_set(o, "adaptive_mu_globalization"@) {
            Some(t) => globalization_named(t),
            None => if mehrotra(o) {
                AdaptiveMuGlobalization::NeverMonotoneMode
            } else {
                d.adaptive_mu_globalization
            },
        },
        quality_function_norm_type: match text_set(o, "quality_function_norm_type"@) {
            Some(t) => norm_type_named(t),
            None => d.quality_function_norm_type,
        },
        quality_function_centrality: match text_set(o, "quality_function_centrality"@) {
            Some(t) => centrality_named(t),
            None => d.quality_function_centrality,
        },
        quality_function_balancing_term: match text_set(o, "quality_function_balancing_term"@) {
            Some(t) => balancing_named(t),
            None => d.quality_function_balancing_term,
        },
        quality_function_max_section_steps: integer_or(o, "quality_function_max_section_steps"@, d.quality_function_max_section_steps),
        quality_function_section_sigma_tol: numeric_or(o, "quality_function_section_sigma_tol"@, d.quality_function_section_sigma_tol),
        quality_function_section_qf_tol: numeric_or(o, "quality_function_section_qf_tol"@, d.quality_function_section_qf_tol),
        adaptive_mu_safeguard_factor: numeric_or(o, "adaptive_mu_safeguard_factor"@, d.adaptive_mu_safeguard_factor),
        adaptive_mu_monotone_init_factor: numeric_or(o, "adaptive_mu_monotone_init_factor"@, d.adaptive_mu_monotone_init_factor),
        adaptive_mu_restore_previous_iterate: switch_or(o, "adaptive_mu_restore_previous_iterate"@, d.adaptive_mu_restore_previous_iterate),
        adaptive_mu_max_free_returns: integer_set(o, "adaptive_mu_max_free_returns"@),
        adaptive_mu_budget_pin_fraction: numeric_set(o, "adaptive_mu_budget_pin_fraction"@),
        adaptive_mu_kkterror_red_iters: match integer_set(o, "adaptive_mu_kkterror_red_iters"@) {
            Some(v) => if v >= 0 {
                v as usize
            } else {
                d.adaptive_mu_kkterror_red_iters
            },
            None => d.adaptive_mu_kkterror_red_iters,
        },
        adaptive_mu_kkterror_red_fact: numeric_or(o, "adaptive_mu_kkterror_red_fact"@, d.adaptive_mu_kkterror_red_fact),
        filter_margin_fact: numeric_or(o, "filter_margin_fact"@, d.filter_margin_fact),
        filter_max_margin: numeric_or(o, "filter_max_margin"@, d.filter_max_margin),
        adaptive_mu_kkt_norm_type: match text_set(o, "adaptive_mu_kkt_norm_type"@) {
            Some(t) => kkt_norm_named(t),
            None => d.adaptive_mu_kkt_norm_type,
        },
        probing_iterate_quality_factor: numeric_or(o, "probing_iterate_quality_factor"@, d.probing_iterate_quality_factor),
    }
}

fn read_mu(o: &OptionsList) -> (r: MuOptions)
    ensures
        r == mu_from(o@),
{
    let d = MuOptions::default();
    MuOptions {
        mu_init: o.numeric("mu_init", d.mu_init),
        mu_max: o.numeric("mu_max", d.mu_max),
        mu_max_fact: o.numeric("mu_max_fact", d.mu_max_fact),
        mu_min: o.numeric("mu_min", d.mu_min),
        mu_target: o.numeric("mu_target", d.mu_target),
        mu_linear_decrease_factor: o.numeric("mu_linear_decrease_factor", d.mu_linear_decrease_factor),
        mu_superlinear_decrease_power: o.numeric("mu_superlinear_decrease_power", d.mu_superlinear_decrease_power),
        mu_allow_fast_monotone_decrease: o.yes("mu_allow_fast_monotone_decrease", d.mu_allow_fast_monotone_decrease),
        barrier_tol_factor: o.numeric("barrier_tol_factor", d.barrier_tol_factor),
        tau_min: o.numeric("tau_min", d.tau_min),
        sigma_max: o.numeric("sigma_max", d.sigma_max),
        sigma_min: o.numeric("sigma_min", d.sigma_min),
        adaptive_mu_globalization: match o.set_text("adaptive_mu_globalization") {
            Some(t) => parse_globalization(t.as_str()),
            None => {
                if is_mehrotra(o) {
                    AdaptiveMuGlobalization::NeverMonotoneMode
                } else {
                    d.adaptive_mu_globalization
                }
            },
        },
        quality_function_norm_type: match o.set_text("quality_function_norm_type") {
            Some(t) => parse_norm_type(t.as_str()),
            None => d.quality_function_norm_type,
        },
        quality_function_centrality: match o.set_text("quality_function_centrality") {
            Some(t) => parse_centrality(t.as_str()),
            None => d.quality_function_centrality,
        },
        quality_function_balancing_term: match o.set_text("quality_function_balancing_term") {
            Some(t) => parse_balancing(t.as_str()),
            None => d.quality_function_balancing_term,
        },
        quality_function_max_section_steps: o.integer("quality_function_max_section_steps", d.quality_function_max_section_steps),
        quality_function_section_sigma_tol: o.numeric("quality_function_section_sigma_tol", d.quality_function_section_sigma_tol),
        quality_function_section_qf_tol: o.numeric("quality_function_section_qf_tol", d.quality_function_section_qf_tol),
        adaptive_mu_safeguard_factor: o.numeric("adaptive_mu_safeguard_factor", d.adaptive_mu_safeguard_factor),
        adaptive_mu_monotone_init_factor: o.numeric("adaptive_mu_monotone_init_factor", d.adaptive_mu_monotone_init_factor),
        adaptive_mu_restore_previous_iterate: o.switch("adaptive_mu_restore_previous_iterate", d.adaptive_mu_restore_previous_iterate),
        adaptive_mu_max_free_returns: o.set_integer("adaptive_mu_max_free_returns"),
        adaptive_mu_budget_pin_fraction: o.set_numeric("adaptive_mu_budget_pin_fraction"),
        adaptive_mu_kkterror_red_iters: match o.set_integer("adaptive_mu_kkterror_red_iters") {
            Some(v) => {
                if v >= 0 {
                    v as usize
                } else {
                    d.adaptive_mu_kkterror_red_iters
                }
            },
            None => d.adaptive_mu_kkterror_red_iters,
        },
        adaptive_mu_kkterror_red_fact: o.numeric("adaptive_mu_kkterror_red_fact", d.adaptive_mu_kkterror_red_fact),
        filter_margin_fact: o.numeric("filter_margin_fact", d.filter_margin_fact),
        filter_max_margin: o.numeric("filter_max_margin", d.filter_max_margin),
        adaptive_mu_kkt_norm_type: match o.set_text("adaptive_mu_kkt_norm_type") {
            Some(t) => parse_kkt_norm(t.as_str()),
            None => d.adaptive_mu_kkt_norm_type,
        },
        probing_iterate_quality_factor: o.numeric("probing_iterate_quality_factor", d.probing_iterate_quality_factor),
    }
}

/// The options that the caller set, over the defaults.
pub open spec fn line_search_from(o: OptionsView) -> LineSearchOptions {
    let d = LineSearchOptions::standard();
    LineSearchOptions {
        watchdog_shortened_iter_trigger: integer_or(o, "watchdog_shortened_iter_trigger"@, d.watchdog_shortened_iter_trigger),
        watchdog_trial_iter_max: integer_or(o, "watchdog_trial_iter_max"@, d.watchdog_trial_iter_max),
        soft_resto_pderror_reduction_factor: numeric_or(o, "soft_resto_pderror_reduction_factor"@, d.soft_resto_pderror_reduction_factor),
        max_soft_resto_iters: integer_or(o, "max_soft_resto_iters"@, d.max_soft_resto_iters),
        accept_every_trial_step: yes_or(o, "accept_every_trial_step"@, mehrotra(o)),
        alpha_for_y: match text_set(o, "alpha_for_y"@) {
            Some(t) => alpha_for_y_named(t),
            None => if mehrotra(o) {
                AlphaForY::BoundMult
            } else {
                d.alpha_for_y
            },
        },
        alpha_red_factor: numeric_or(o, "alpha_red_factor"@, d.alpha_red_factor),
        alpha_red_factor_min: numeric_set(o, "alpha_red_factor_min"@),
        accept_after_max_steps: integer_or(o, "accept_after_max_steps"@, d.accept_after_max_steps),
        eta_phi: numeric_or(o, "eta_phi"@, d.eta_phi),
        delta: numeric_or(o, "delta"@, d.delta),
        theta_min_fact: numeric_or(o, "theta_min_fact"@, d.theta_min_fact),
        theta_max_fact: numeric_or(o, "theta_max_fact"@, d.theta_max_fact),
        theta_max_row_scale_kappa: numeric_set(o, "theta_max_row_scale_kappa"@),
        theta_max_adaptive_trigger: non_negative_set(o, "theta_max_adaptive_trigger"@),
        theta_max_adaptive_factor: numeric_set(o, "theta_max_adaptive_factor"@),
        theta_max_adaptive_max_raises: non_negative_set(o, "theta_max_adaptive_max_raises"@),
        gamma_phi: numeric_or(o, "gamma_phi"@, d.gamma_phi),
        gamma_theta: numeric_or(o, "gamma_theta"@, d.gamma_theta),
        s_phi: numeric_or(o, "s_phi"@, d.s_phi),
        s_theta: numeric_or(o, "s_theta"@, d.s_theta),
        alpha_min_frac: numeric_or(o, "alpha_min_frac"@, d.alpha_min_frac),
        obj_max_inc: numeric_or(o, "obj_max_inc"@, d.obj_max_inc),
        max_filter_resets: integer_or(o, "max_filter_resets"@, d.max_filter_resets),
        filter_reset_trigger: integer_or(o, "filter_reset_trigger"@, d.filter_reset_trigger),
        nu_init: numeric_set(o, "nu_init"@),
        nu_inc: numeric_set(o, "nu_inc"@),
        rho: numeric_set(o, "rho"@),
        eta_penalty: numeric_set(o, "eta_penalty"@),
        max_soc: integer_or(o, "max_soc"@, d.max_soc),
        kappa_soc: numeric_or(o, "kappa_soc"@, d.kappa_soc),
        soc_method: integer_or(o, "soc_method"@, d.soc_method),
    }
}

fn read_line_search(o: &OptionsList) -> (r: LineSearchOptions)
    ensures
        r == line_search_from(o@),
{
    let d = LineSearchOptions::default();
    LineSearchOptions {
        watchdog_shortened_iter_trigger: o.integer("watchdog_shortened_iter_trigger", d.watchdog_shortened_iter_trigger),
        watchdog_trial_iter_max: o.integer("watchdog_trial_iter_max", d.watchdog_trial_iter_max),
        soft_resto_pderror_reduction_factor: o.numeric("soft_resto_pderror_reduction_factor", d.soft_resto_pderror_reduction_factor),
        max_soft_resto_iters: o.integer("max_soft_resto_iters", d.max_soft_resto_iters),
        accept_every_trial_step: o.yes("accept_every_trial_step", is_mehrotra(o)),
        alpha_for_y: match o.set_text("alpha_for_y") {
            Some(t) => parse_alpha_for_y(t.as_str()),
            None => {
                if is_mehrotra(o) {
                    AlphaForY::BoundMult
                } else {
                    d.alpha_for_y
                }
            },
        },
        alpha_red_factor: o.numeric("alpha_red_factor", d.alpha_red_factor),
        alpha_red_factor_min: o.set_numeric("alpha_red_factor_min"),
        accept_after_max_steps: o.integer("accept_after_max_steps", d.accept_after_max_steps),
        eta_phi: o.numeric("eta_phi", d.eta_phi),
        delta: o.numeric("delta", d.delta),
        theta_min_fact: o.numeric("theta_min_fact", d.theta_min_fact),
        theta_max_fact: o.numeric("theta_max_fact", d.theta_max_fact),
        theta_max_row_scale_kappa: o.set_numeric("theta_max_row_scale_kappa"),
        theta_max_adaptive_trigger: set_non_negative(o, "theta_max_adaptive_trigger"),
        theta_max_adaptive_factor: o.set_numeric("theta_max_adaptive_factor"),
        theta_max_adaptive_max_raises: set_non_negative(o, "theta_max_adaptive_max_raises"),
        gamma_phi: o.numeric("gamma_phi", d.gamma_phi),
        gamma_theta: o.numeric("gamma_theta", d.gamma_theta),
        s_phi: o.numeric("s_phi", d.s_phi),
        s_theta: o.numeric("s_theta", d.s_theta),
        alpha_min_frac: o.numeric("alpha_min_frac", d.alpha_min_frac),
        obj_max_inc: o.numeric("obj_max_inc", d.obj_max_inc),
        max_filter_resets: o.integer("max_filter_resets", d.max_filter_resets),
        filter_reset_trigger: o.integer("filter_reset_trigger", d.filter_reset_trigger),
        nu_init: o.set_numeric("nu_init"),
        nu_inc: o.set_numeric("nu_inc"),
        rho: o.set_numeric("rho"),
        eta_penalty: o.set_numeric("eta_penalty"),
        max_soc: o.integer("max_soc", d.max_soc),
        kappa_soc: o.numeric("kappa_soc", d.kappa_soc),
        soc_method: o.integer("soc_method", d.soc_method),
    }
}

/// The options that the caller set, over the defaults.
pub open spec fn perturbation_from(o: OptionsView) -> PerturbationOptions {
    let d = PerturbationOptions::standard();
    PerturbationOptions {
        max_hessian_perturbation: numeric_or(o, "max_hessian_perturbation"@, d.max_hessian_perturbation),
        min_hessian_perturbation: numeric_or(o, "min_hessian_perturbation"@, d.min_hessian_perturbation),
        perturb_inc_fact_first: numeric_or(o, "perturb_inc_fact_first"@, d.perturb_inc_fact_first),
        perturb_inc_fact: numeric_or(o, "perturb_inc_fact"@, d.perturb_inc_fact),
        perturb_dec_fact: numeric_or(o, "perturb_dec_fact"@, d.perturb_dec_fact),
        first_hessian_perturbation: numeric_or(o, "first_hessian_perturbation"@, d.first_hessian_perturbation),
        jacobian_regularization_value: numeric_or(o, "jacobian_regularization_value"@, d.jacobian_regularization_value),
        jacobian_regularization_exponent: numeric_or(o, "jacobian_regularization_exponent"@, d.jacobian_regularization_exponent),
        perturb_always_cd: switch_or(o, "perturb_always_cd"@, d.perturb_always_cd),
        perturb_delta_c_max_rungs: integer_set(o, "perturb_delta_c_max_rungs"@),
    }
}

fn read_perturbation(o: &OptionsList) -> (r: PerturbationOptions)
    ensures
        r == perturbation_from(o@),
{
    let d = PerturbationOptions::default();
    PerturbationOptions {
        max_hessian_perturbation: o.numeric("max_hessian_perturbation", d.max_hessian_perturbation),
        min_hessian_perturbation: o.numeric("min_hessian_perturbation", d.min_hessian_perturbation),
        perturb_inc_fact_first: o.numeric("perturb_inc_fact_first", d.perturb_inc_fact_first),
        perturb_inc_fact: o.numeric("perturb_inc_fact", d.perturb_inc_fact),
        perturb_dec_fact: o.numeric("perturb_dec_fact", d.perturb_dec_fact),
        first_hessian_perturbation: o.numeric("first_hessian_perturbation", d.first_hessian_perturbation),
        jacobian_regularization_value: o.numeric("jacobian_regularization_value", d.jacobian_regularization_value),
        jacobian_regularization_exponent: o.numeric("jacobian_regularization_exponent", d.jacobian_regularization_exponent),
        perturb_always_cd: o.switch("perturb_always_cd", d.perturb_always_cd),
        perturb_delta_c_max_rungs: o.set_integer("perturb_delta_c_max_rungs"),
    }
}

/// The options that the caller set, over the defaults.
pub open spec fn resto_from(o: OptionsView) -> RestoOptions {
    let d = RestoOptions::standard();
    RestoOptions {
        bound_mult_reset_threshold: numeric_or(o, "bound_mult_reset_threshold"@, d.bound_mult_reset_threshold),
        constr_mult_reset_threshold: numeric_or(o, "constr_mult_reset_threshold"@, d.constr_mult_reset_threshold),
        resto_penalty_parameter: numeric_or(o, "resto_penalty_parameter"@, d.resto_penalty_parameter),
        resto_proximity_weight: numeric_or(o, "resto_proximity_weight"@, d.resto_proximity_weight),
        required_infeasibility_reduction: numeric_set(o, "required_infeasibility_reduction"@),
        evaluate_orig_obj_at_resto_trial: any_yes_set(o, "evaluate_orig_obj_at_resto_trial"@),
        expect_infeasible_problem: any_yes_set(o, "expect_infeasible_problem"@),
        start_with_resto: any_yes_set(o, "start_with_resto"@),
        max_resto_iter: integer_or(o, "max_resto_iter"@, d.max_resto_iter),
    }
}

fn read_resto(o: &OptionsList) -> (r: RestoOptions)
    ensures
        r == resto_from(o@),
{
    let d = RestoOptions::default();
    RestoOptions {
        bound_mult_reset_threshold: o.numeric("bound_mult_reset_threshold", d.bound_mult_reset_threshold),
        constr_mult_reset_threshold: o.numeric("constr_mult_reset_threshold", d.constr_mult_reset_threshold),
        resto_penalty_parameter: o.numeric("resto_penalty_parameter", d.resto_penalty_parameter),
        resto_proximity_weight: o.numeric("resto_proximity_weight", d.resto_proximity_weight),
        required_infeasibility_reduction: o.set_numeric("required_infeasibility_reduction"),
        evaluate_orig_obj_at_resto_trial: set_any_yes(o, "evaluate_orig_obj_at_resto_trial"),
        expect_infeasible_problem: set_any_yes(o, "expect_infeasible_problem"),
        start_with_resto: set_any_yes(o, "start_with_resto"),
        max_resto_iter: o.integer("max_resto_iter", d.max_resto_iter),
    }
}

/// The options that the caller set, over the defaults.
pub open spec fn refinement_from(o: OptionsView) -> RefinementOptions {
    let d = RefinementOptions::standard();
    RefinementOptions {
        min_refinement_steps: integer_or(o, "min_refinement_steps"@, d.min_refinement_steps),
        max_refinement_steps: integer_or(o, "max_refinement_steps"@, d.max_refinement_steps),
        residual_ratio_max: numeric_or(o, "residual_ratio_max"@, d.residual_ratio_max),
        residual_ratio_singular: numeric_or(o, "residual_ratio_singular"@, d.residual_ratio_singular),
        residual_improvement_factor: numeric_or(o, "residual_improvement_factor"@, d.residual_improvement_factor),
        neg_curv_test_tol: numeric_or(o, "neg_curv_test_tol"@, d.neg_curv_test_tol),
        neg_curv_test_reg: switch_set(o, "neg_curv_test_reg"@),
    }
}

fn read_refinement(o: &OptionsList) -> (r: RefinementOptions)
    ensures
        r == refinement_from(o@),
{
    let d = RefinementOptions::default();
    RefinementOptions {
        min_refinement_steps: o.integer("min_refinement_steps", d.min_refinement_steps),
        max_refinement_steps: o.integer("max_refinement_steps", d.max_refinement_steps),
        residual_ratio_max: o.numeric("residual_ratio_max", d.residual_ratio_max),
        residual_ratio_singular: o.numeric("residual_ratio_singular", d.residual_ratio_singular),
        residual_improvement_factor: o.numeric("residual_improvement_factor", d.residual_improvement_factor),
        neg_curv_test_tol: o.numeric("neg_curv_test_tol", d.neg_curv_test_tol),
        neg_curv_test_reg: o.set_switch("neg_curv_test_reg"),
    }
}

/// The options that the caller set, over the defaults.
pub open spec fn output_from(o: OptionsView) -> OutputOptions {
    let d = OutputOptions::standard();
    OutputOptions {
        print_frequency_iter: integer_or(o, "print_frequency_iter"@, d.print_frequency_iter),
        print_frequency_time: numeric_or(o, "print_frequency_time"@, d.print_frequency_time),
        print_info_string: switch_or(o, "print_info_string"@, d.print_info_string),
        inf_pr_output_internal: match text_set(o, "inf_pr_output"@) {
            Some(t) => t == "internal"@,
            None => d.inf_pr_output_internal,
        },
    }
}

fn read_output(o: &OptionsList) -> (r: OutputOptions)
    ensures
        r == output_from(o@),
{
    let d = OutputOptions::default();
    OutputOptions {
        print_frequency_iter: o.integer("print_frequency_iter", d.print_frequency_iter),
        print_frequency_time: o.numeric("print_frequency_time", d.print_frequency_time),
        print_info_string: o.switch("print_info_string", d.print_info_string),
        inf_pr_output_internal: match o.set_text("inf_pr_output") {
            Some(t) => same(t.as_str(), "internal"),
            None => d.inf_pr_output_internal,
        },
    }
}

/// The number that the caller set; failing that, what the Mehrotra algorithm
/// wants, or the default.
pub open spec fn mehrotra_or(o: OptionsView, name: Seq<char>, eager: Number, default: Number) -> Number {
    numeric_or(
        o,
        name,
        if mehrotra(o) {
            eager
        } else {
            default
        },
    )
}

/// The knobs of the default initializer. The Mehrotra algorithm pushes the
/// start further inside; what the caller set wins.
pub open spec fn init_from(o: OptionsView, init: InitOptions) -> bool {
    &&& init.bound_push == mehrotra_or(o, "bound_push"@, Number { bits: D1E1 }, Number { bits: D1EM2 })
    &&& init.bound_frac == mehrotra_or(o, "bound_frac"@, Number { bits: D2EM1 }, Number { bits: D1EM2 })
    &&& init.slack_bound_push == mehrotra_or(o, "slack_bound_push"@, Number { bits: D1E1 }, Number { bits: D1EM2 })
    &&& init.slack_bound_frac == mehrotra_or(o, "slack_bound_frac"@, Number { bits: D2EM1 }, Number { bits: D1EM2 })
    &&& init.constr_mult_init_max == mehrotra_or(o, "constr_mult_init_max"@, Number { bits: D0 }, Number { bits: D1E3 })
    &&& init.bound_mult_init_val == mehrotra_or(o, "bound_mult_init_val"@, Number { bits: D1 }, Number { bits: D1 })
    &&& init.bound_mult_init_method@ == match text_set(o, "bound_mult_init_method"@) {
        Some(t) => t,
        None => "constant"@,
    }
    &&& init.least_square_init_primal == yes_or(o, "least_square_init_primal"@, mehrotra(o))
}

fn read_mehrotra_or(o: &OptionsList, name: &str, eager: u64, default: u64) -> (r: Number)
    ensures
        r == mehrotra_or(o@, name@, Number { bits: eager }, Number { bits: default }),
{
    let base = if is_mehrotra(o) {
        Number { bits: eager }
    } else {
        Number { bits: default }
    };
    o.numeric(name, base)
}

fn read_init(o: &OptionsList) -> (r: InitOptions)
    ensures
        init_from(o@, r),
{
    InitOptions {
        bound_push: read_mehrotra_or(o, "bound_push", D1E1, D1EM2),
        bound_frac: read_mehrotra_or(o, "bound_frac", D2EM1, D1EM2),
        slack_bound_push: read_mehrotra_or(o, "slack_bound_push", D1E1, D1EM2),
        slack_bound_frac: read_mehrotra_or(o, "slack_bound_frac", D2EM1, D1EM2),
        constr_mult_init_max: read_mehrotra_or(o, "constr_mult_init_max", D0, D1E3),
        bound_mult_init_val: read_mehrotra_or(o, "bound_mult_init_val", D1, D1),
        bound_mult_init_method: match o.set_text("bound_mult_init_method") {
            Some(t) => t,
            None => "constant".to_owned(),
        },
        least_square_init_primal: o.yes("least_square_init_primal", is_mehrotra(o)),
    }
}

/// Every choice and knob follows the options that the caller set; what the
/// caller did not set stands at its default.
pub open spec fn configured(o: OptionsView, ma57_available: bool, b: AlgorithmBuilder) -> bool {
    &&& b.algorithm == AlgorithmChoice::InteriorPoint
    &&& b.linear_solver == linear_solver_of(o, ma57_available)
    &&& b.linear_system_scaling == match text_set(o, "linear_system_scaling"@) {
            Some(t) => scaling_named(t),
            None => LinearSystemScalingChoice::Unscaled,
        }
    &&& b.linear_scaling_on_demand == switch_or(o, "linear_scaling_on_demand"@, true)
    &&& b.mu_strategy == mu_strategy_of(o)
    &&& b.mu_oracle == mu_oracle_of(o)
    &&& b.hessian_approximation == hessian_of(o)
    &&& b.limited_memory_update_type == match text_set(o, "limited_memory_update_type"@) {
            Some(t) => limited_memory_update_named(t),
            None => UpdateType::Bfgs,
        }
    &&& b.limited_memory_max_history == history_of(o)
    &&& b.limited_memory_initialization == match text_set(o, "limited_memory_initialization"@) {
            Some(t) => initial_approx_named(t),
            None => InitialApprox::Scalar1,
        }
    &&& b.limited_memory_init_val == numeric_or(o, "limited_memory_init_val"@, Number { bits: D1 })
    &&& b.limited_memory_init_val_max == numeric_set(o, "limited_memory_init_val_max"@)
    &&& b.limited_memory_init_val_min == numeric_set(o, "limited_memory_init_val_min"@)
    &&& b.limited_memory_max_skipping == non_negative_integer_set(o, "limited_memory_max_skipping"@)
    &&& b.limited_memory_ls_failure_restarts == integer_set(o, "limited_memory_ls_failure_restarts"@)
    &&& b.partitioned_update_type == match text_set(o, "partitioned_update_type"@) {
            Some(t) => partitioned_update_named(t),
            None => UpdateType::Sr1,
        }
    &&& b.partitioned_update_type_was_set == (text_set(o, "partitioned_update_type"@) is Some)
    &&& b.partitioned_max_element == positive_size_set(o, "partitioned_max_element"@)
    &&& b.partitioned_elements == match text_set(o, "partitioned_elements"@) {
            Some(t) => Some(elements_named(t)),
            None => None,
        }
    &&& b.partitioned_block_size == positive_size_set(o, "partitioned_block_size"@)
    &&& b.partitioned_curvature_cap == bounded_set(o, "partitioned_curvature_cap"@, false)
    &&& b.fd_hessian_pattern == match text_set(o, "fd_hessian_pattern"@) {
            Some(t) => Some(fd_pattern_named(t)),
            None => None,
        }
    &&& b.fd_hessian_coloring == match text_set(o, "fd_hessian_coloring"@) {
            Some(t) => Some(fd_coloring_named(t)),
            None => None,
        }
    &&& b.fd_hessian_reuse_tol == bounded_set(o, "fd_hessian_reuse_tol"@, true)
    &&& b.line_search_method == match text_set(o, "line_search_method"@) {
            Some(t) => line_search_named(t),
            None => LineSearchChoice::Filter,
        }
    &&& b.warm_start_init_point == switch_or(o, "warm_start_init_point"@, false)
    &&& b.mehrotra_algorithm == mehrotra(o)
    &&& b.fast_step_computation == any_yes_or(o, "fast_step_computation"@, false)
    &&& b.recalc_y == yes_or(o, "recalc_y"@, false)
    &&& b.recalc_y_feas_tol == numeric_or(o, "recalc_y_feas_tol"@, Number { bits: D1EM6 })
    &&& b.kappa_sigma == numeric_or(o, "kappa_sigma"@, Number { bits: D1E10 })
    &&& b.kappa_d == numeric_or(o, "kappa_d"@, Number { bits: D1EM5 })
    &&& b.s_max == numeric_or(o, "s_max"@, Number { bits: D1E2 })
    &&& b.tiny_step_tol == numeric_or(o, "tiny_step_tol"@, Number { bits: TEN_EPSILON })
    &&& b.tiny_step_y_tol == numeric_or(o, "tiny_step_y_tol"@, Number { bits: D1EM2 })
    &&& b.diverging_iterates_tol == numeric_or(o, "diverging_iterates_tol"@, Number { bits: D1E20 })
    &&& b.dual_diverging_streak == integer_or(o, "dual_diverging_streak"@, 0)
    &&& b.dual_divergence_retry_step_tol == numeric_set(o, "dual_divergence_retry_step_tol"@)
    &&& b.dual_divergence_retry_du_floor == numeric_or(o, "dual_divergence_retry_du_floor"@, Number { bits: D1E2 })
    &&& b.resto_decline_deferrals == integer_set(o, "resto_decline_deferrals"@)
    &&& b.resto_decline_progress_ratio == numeric_set(o, "resto_decline_progress_ratio"@)
    &&& b.neg_curv_escapes == integer_set(o, "neg_curv_escapes"@)
    &&& b.kkt_fidelity_tol == numeric_or(o, "kkt_fidelity_tol"@, Number { bits: D0 })
    &&& b.conv_check == conv_check_from(o)
    &&& b.mu == mu_from(o)
    &&& b.line_search == line_search_from(o)
    &&& b.refinement == refinement_from(o)
    &&& b.perturbation == perturbation_from(o)
    &&& b.resto == resto_from(o)
    &&& b.output == output_from(o)
    &&& b.warm == warm_from(o)
    &&& b.sqp == SqpOptions::standard()
    &&& b.sqp_qp == QpOptions::standard()
    &&& init_from(o, b.init)
    &&& b.kkt_schur is None
}

/// The builder that the options describe.
pub fn algorithm_builder_from_options(o: &OptionsList, ma57_available: bool) -> (b:
    AlgorithmBuilder)
    ensures
        configured(o@, ma57_available, b),
{
    AlgorithmBuilder {
        algorithm: AlgorithmChoice::InteriorPoint,
        linear_solver: read_linear_solver(o, ma57_available),
        linear_system_scaling: match o.set_text("linear_system_scaling") {
            Some(t) => parse_scaling(t.as_str()),
            None => LinearSystemScalingChoice::Unscaled,
        },
        linear_scaling_on_demand: o.switch("linear_scaling_on_demand", true),
        mu_strategy: read_mu_strategy(o),
        mu_oracle: read_mu_oracle(o),
        hessian_approximation: read_hessian(o),
        limited_memory_update_type: match o.set_text("limited_memory_update_type") {
            Some(t) => parse_limited_memory_update(t.as_str()),
            None => UpdateType::Bfgs,
        },
        limited_memory_max_history: match set_non_negative_integer(o, "limited_memory_max_history") {
            Some(v) => v,
            None => 6,
        },
        limited_memory_initialization: match o.set_text("limited_memory_initialization") {
            Some(t) => parse_initial_approx(t.as_str()),
            None => InitialApprox::Scalar1,
        },
        limited_memory_init_val: o.numeric("limited_memory_init_val", Number { bits: D1 }),
        limited_memory_init_val_max: o.set_numeric("limited_memory_init_val_max"),
        limited_memory_init_val_min: o.set_numeric("limited_memory_init_val_min"),
        limited_memory_max_skipping: set_non_negative_integer(o, "limited_memory_max_skipping"),
        limited_memory_ls_failure_restarts: o.set_integer("limited_memory_ls_failure_restarts"),
        partitioned_update_type: match o.set_text("partitioned_update_type") {
            Some(t) => parse_partitioned_update(t.as_str()),
            None => UpdateType::Sr1,
        },
        partitioned_update_type_was_set: o.set_text("partitioned_update_type").is_some(),
        partitioned_max_element: set_positive_size(o, "partitioned_max_element"),
        partitioned_elements: match o.set_text("partitioned_elements") {
            Some(t) => Some(parse_elements(t.as_str())),
            None => None,
        },
        partitioned_block_size: set_positive_size(o, "partitioned_block_size"),
        partitioned_curvature_cap: set_bounded(o, "partitioned_curvature_cap", false),
        fd_hessian_pattern: match o.set_text("fd_hessian_pattern") {
            Some(t) => Some(parse_fd_pattern(t.as_str())),
            None => None,
        },
        fd_hessian_coloring: match o.set_text("fd_hessian_coloring") {
            Some(t) => Some(parse_fd_coloring(t.as_str())),
            None => None,
        },
        fd_hessian_reuse_tol: set_bounded(o, "fd_hessian_reuse_tol", true),
        line_search_method: match o.set_text("line_search_method") {
            Some(t) => parse_line_search(t.as_str()),
            None => LineSearchChoice::Filter,
        },
        warm_start_init_point: o.switch("warm_start_init_point", false),
        mehrotra_algorithm: is_mehrotra(o),
        fast_step_computation: o.any_yes("fast_step_computation", false),
        recalc_y: o.yes("recalc_y", false),
        recalc_y_feas_tol: o.numeric("recalc_y_feas_tol", Number { bits: D1EM6 }),
        kappa_sigma: o.numeric("kappa_sigma", Number { bits: D1E10 }),
        kappa_d: o.numeric("kappa_d", Number { bits: D1EM5 }),
        s_max: o.numeric("s_max", Number { bits: D1E2 }),
        tiny_step_tol: o.numeric("tiny_step_tol", Number { bits: TEN_EPSILON }),
        tiny_step_y_tol: o.numeric("tiny_step_y_tol", Number { bits: D1EM2 }),
        diverging_iterates_tol: o.numeric("diverging_iterates_tol", Number { bits: D1E20 }),
        dual_diverging_streak: o.integer("dual_diverging_streak", 0),
        dual_divergence_retry_step_tol: o.set_numeric("dual_divergence_retry_step_tol"),
        dual_divergence_retry_du_floor: o.numeric("dual_divergence_retry_du_floor", Number { bits: D1E2 }),
        resto_decline_deferrals: o.set_integer("resto_decline_deferrals"),
        resto_decline_progress_ratio: o.set_numeric("resto_decline_progress_ratio"),
        neg_curv_escapes: o.set_integer("neg_curv_escapes"),
        kkt_fidelity_tol: o.numeric("kkt_fidelity_tol", Number { bits: D0 }),
        conv_check: read_conv_check(o),
        mu: read_mu(o),
        line_search: read_line_search(o),
        refinement: read_refinement(o),
        perturbation: read_perturbation(o),
        resto: read_resto(o),
        output: read_output(o),
        warm: read_warm(o),
        sqp: SqpOptions::default(),
        sqp_qp: QpOptions::default(),
        init: read_init(o),
        kkt_schur: None,
    }
}

} // verus!
