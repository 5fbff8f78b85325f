//! How a solve ends, as the algorithm sees it and as the caller is told.
use vstd::prelude::*;

verus! {

/// How the algorithm ended.
#[derive(Clone, Copy, Debug, PartialEq, Eq, Structural)]
pub enum SolverReturn {
    Success,
    MaxiterExceeded,
    CpuTimeExceeded,
    WallTimeExceeded,
    StopAtTinyStep,
    StopAtAcceptablePoint,
    LocalInfeasibility,
    UserRequestedStop,
    FeasiblePointFound,
    DivergingIterates,
    RestorationFailure,
    ErrorInStepComputation,
    InvalidNumberDetected,
    TooFewDegreesOfFreedom,
    InvalidProblemDefinition,
    InvalidOption,
    OutOfMemory,
    InternalError,
    Unassigned,
}

/// What the caller is told.
#[derive(Clone, Copy, Debug, PartialEq, Eq, Structural)]
pub enum ApplicationReturnStatus {
    SolveSucceeded,
    SolvedToAcceptableLevel,
    InfeasibleProblemDetected,
    SearchDirectionBecomesTooSmall,
    DivergingIterates,
    UserRequestedStop,
    FeasiblePointFound,
    MaximumIterationsExceeded,
    RestorationFailed,
    ErrorInStepComputation,
    MaximumCpuTimeExceeded,
    MaximumWallTimeExceeded,
    NotEnoughDegreesOfFreedom,
    InvalidProblemDefinition,
    InvalidOption,
    InvalidNumberDetected,
    InsufficientMemory,
    InternalError,
}

/// How the SQP driver ended.
#[derive(Clone, Copy, Debug, PartialEq, Eq, Structural)]
pub enum SqpStatus {
    Optimal,
    MaxIter,
    InfeasibleSubproblem,
    LineSearchFailed,
    /// The QP solver gave no step, and no proof of infeasibility either.
    QpStepFailed,
    /// The QP solver ran out of its own iterations.
    QpIterationLimit,
    Unbounded,
    InvalidNumber,
}

/// How much a journal prints.
#[derive(Clone, Copy, Debug, PartialEq, Eq, Structural)]
#[allow(non_camel_case_types)]
pub enum JournalLevel {
    J_NONE,
    J_ERROR,
    J_STRONGWARNING,
    J_SUMMARY,
    J_WARNING,
    J_ITERSUMMARY,
    J_DETAILED,
    J_MOREDETAILED,
    J_VECTOR,
    J_MOREVECTOR,
    J_MATRIX,
    J_MOREMATRIX,
    J_ALL,
}

/// The caller's status for an ending of the algorithm.
pub open spec fn app_status_of(s: SolverReturn) -> ApplicationReturnStatus {
    match s {
        SolverReturn::Success => ApplicationReturnStatus::SolveSucceeded,
        SolverReturn::StopAtAcceptablePoint => ApplicationReturnStatus::SolvedToAcceptableLevel,
        SolverReturn::FeasiblePointFound => ApplicationReturnStatus::FeasiblePointFound,
        SolverReturn::MaxiterExceeded => ApplicationReturnStatus::MaximumIterationsExceeded,
        SolverReturn::CpuTimeExceeded => ApplicationReturnStatus::MaximumCpuTimeExceeded,
        SolverReturn::WallTimeExceeded => ApplicationReturnStatus::MaximumWallTimeExceeded,
        SolverReturn::StopAtTinyStep => ApplicationReturnStatus::SearchDirectionBecomesTooSmall,
        SolverReturn::LocalInfeasibility => ApplicationReturnStatus::InfeasibleProblemDetected,
        SolverReturn::UserRequestedStop => ApplicationReturnStatus::UserRequestedStop,
        SolverReturn::DivergingIterates => ApplicationReturnStatus::DivergingIterates,
        SolverReturn::RestorationFailure => ApplicationReturnStatus::RestorationFailed,
        SolverReturn::ErrorInStepComputation => ApplicationReturnStatus::ErrorInStepComputation,
        SolverReturn::InvalidNumberDetected => ApplicationReturnStatus::InvalidNumberDetected,
        SolverReturn::TooFewDegreesOfFreedom => ApplicationReturnStatus::NotEnoughDegreesOfFreedom,
        SolverReturn::InvalidProblemDefinition => ApplicationReturnStatus::InvalidProblemDefinition,
        SolverReturn::InvalidOption => ApplicationReturnStatus::InvalidOption,
        SolverReturn::OutOfMemory => ApplicationReturnStatus::InsufficientMemory,
        SolverReturn::InternalError => ApplicationReturnStatus::InternalError,
        SolverReturn::Unassigned => ApplicationReturnStatus::InternalError,
    }
}

/// The caller's status for an ending of the algorithm.
pub fn solver_return_to_app_status(s: SolverReturn) -> (r: ApplicationReturnStatus)
    ensures
        r == app_status_of(s),
{
    match s {
        SolverReturn::Success => ApplicationReturnStatus::SolveSucceeded,
        SolverReturn::StopAtAcceptablePoint => ApplicationReturnStatus::SolvedToAcceptableLevel,
        SolverReturn::FeasiblePointFound => ApplicationReturnStatus::FeasiblePointFound,
        SolverReturn::MaxiterExceeded => ApplicationReturnStatus::MaximumIterationsExceeded,
        SolverReturn::CpuTimeExceeded => ApplicationReturnStatus::MaximumCpuTimeExceeded,
        SolverReturn::WallTimeExceeded => ApplicationReturnStatus::MaximumWallTimeExceeded,
        SolverReturn::StopAtTinyStep => ApplicationReturnStatus::SearchDirectionBecomesTooSmall,
        SolverReturn::LocalInfeasibility => ApplicationReturnStatus::InfeasibleProblemDetected,
        SolverReturn::UserRequestedStop => ApplicationReturnStatus::UserRequestedStop,
        SolverReturn::DivergingIterates => ApplicationReturnStatus::DivergingIterates,
        SolverReturn::RestorationFailure => ApplicationReturnStatus::RestorationFailed,
        SolverReturn::ErrorInStepComputation => ApplicationReturnStatus::ErrorInStepComputation,
        SolverReturn::InvalidNumberDetected => ApplicationReturnStatus::InvalidNumberDetected,
        SolverReturn::TooFewDegreesOfFreedom => ApplicationReturnStatus::NotEnoughDegreesOfFreedom,
        SolverReturn::InvalidProblemDefinition => ApplicationReturnStatus::InvalidProblemDefinition,
        SolverReturn::InvalidOption => ApplicationReturnStatus::InvalidOption,
        SolverReturn::OutOfMemory => ApplicationReturnStatus::InsufficientMemory,
        SolverReturn::InternalError | SolverReturn::Unassigned => {
            ApplicationReturnStatus::InternalError
        },
    }
}

/// The pair of statuses for an ending of the SQP driver.
pub open spec fn sqp_statuses_of(s: SqpStatus) -> (ApplicationReturnStatus, SolverReturn) {
    match s {
        SqpStatus::Optimal => (ApplicationReturnStatus::SolveSucceeded, SolverReturn::Success),
        SqpStatus::MaxIter => (
            ApplicationReturnStatus::MaximumIterationsExceeded,
            SolverReturn::MaxiterExceeded,
        ),
        SqpStatus::InfeasibleSubproblem => (
            ApplicationReturnStatus::InfeasibleProblemDetected,
            SolverReturn::LocalInfeasibility,
        ),
        SqpStatus::LineSearchFailed => (
            ApplicationReturnStatus::SearchDirectionBecomesTooSmall,
            SolverReturn::ErrorInStepComputation,
        ),
        SqpStatus::QpStepFailed => (
            ApplicationReturnStatus::SearchDirectionBecomesTooSmall,
            SolverReturn::ErrorInStepComputation,
        ),
        SqpStatus::QpIterationLimit => (
            ApplicationReturnStatus::MaximumIterationsExceeded,
            SolverReturn::MaxiterExceeded,
        ),
        SqpStatus::Unbounded => (
            ApplicationReturnStatus::DivergingIterates,
            SolverReturn::DivergingIterates,
        ),
        SqpStatus::InvalidNumber => (
            ApplicationReturnStatus::InvalidNumberDetected,
            SolverReturn::InvalidNumberDetected,
        ),
    }
}

/// The pair of statuses for an ending of the SQP driver.
pub fn sqp_statuses(s: SqpStatus) -> (r: (ApplicationReturnStatus, SolverReturn))
    ensures
        r == sqp_statuses_of(s),
{
    match s {
        SqpStatus::Optimal => (ApplicationReturnStatus::SolveSucceeded, SolverReturn::Success),
        SqpStatus::MaxIter | SqpStatus::QpIterationLimit => (
            ApplicationReturnStatus::MaximumIterationsExceeded,
            SolverReturn::MaxiterExceeded,
        ),
        SqpStatus::InfeasibleSubproblem => (
            ApplicationReturnStatus::InfeasibleProblemDetected,
            SolverReturn::LocalInfeasibility,
        ),
        SqpStatus::LineSearchFailed | SqpStatus::QpStepFailed => (
            ApplicationReturnStatus::SearchDirectionBecomesTooSmall,
            SolverReturn::ErrorInStepComputation,
        ),
        SqpStatus::Unbounded => (
            ApplicationReturnStatus::DivergingIterates,
            SolverReturn::DivergingIterates,
        ),
        SqpStatus::InvalidNumber => (
            ApplicationReturnStatus::InvalidNumberDetected,
            SolverReturn::InvalidNumberDetected,
        ),
    }
}

/// Only an infeasible subproblem, which the QP solver certified, makes the SQP
/// driver claim infeasibility.
pub proof fn law_sqp_claims_infeasibility_only_when_certified(s: SqpStatus)
    ensures
        sqp_statuses_of(s).0 == ApplicationReturnStatus::InfeasibleProblemDetected <==> s
            == SqpStatus::InfeasibleSubproblem,
        sqp_statuses_of(s).1 == SolverReturn::LocalInfeasibility <==> s
            == SqpStatus::InfeasibleSubproblem,
{
}

/// The statuses that call for another try with the l1 penalty.
pub open spec fn l1_fallback_trigger(status: ApplicationReturnStatus) -> bool {
    ||| status == ApplicationReturnStatus::RestorationFailed
    ||| status == ApplicationReturnStatus::InfeasibleProblemDetected
    ||| status == ApplicationReturnStatus::SolvedToAcceptableLevel
    ||| status == ApplicationReturnStatus::MaximumIterationsExceeded
    ||| status == ApplicationReturnStatus::NotEnoughDegreesOfFreedom
}

/// Whether the status calls for another try with the l1 penalty.
pub fn is_l1_fallback_trigger(status: ApplicationReturnStatus) -> (r: bool)
    ensures
        r == l1_fallback_trigger(status),
{
    match status {
        ApplicationReturnStatus::RestorationFailed
        | ApplicationReturnStatus::InfeasibleProblemDetected
        | ApplicationReturnStatus::SolvedToAcceptableLevel
        | ApplicationReturnStatus::MaximumIterationsExceeded
        | ApplicationReturnStatus::NotEnoughDegreesOfFreedom => true,
        _ => false,
    }
}

/// The status without a claim of infeasibility that a feasible starting point
/// disproves. A proof of infeasibility by presolve stands on its own.
pub open spec fn unrefuted(
    status: SolverReturn,
    presolve_proof: bool,
    start_is_feasible: bool,
) -> SolverReturn {
    if status == SolverReturn::LocalInfeasibility && !presolve_proof && start_is_feasible {
        SolverReturn::ErrorInStepComputation
    } else {
        status
    }
}

/// Withdraws a claim of infeasibility that the model's own starting point
/// disproves.
pub fn withdraw_infeasibility_if_refuted(
    status: SolverReturn,
    presolve_proof: bool,
    start_is_feasible: bool,
) -> (r: SolverReturn)
    ensures
        r == unrefuted(status, presolve_proof, start_is_feasible),
{
    if status != SolverReturn::LocalInfeasibility {
        return status;
    }
    if presolve_proof {
        return status;
    }
    if start_is_feasible {
        SolverReturn::ErrorInStepComputation
    } else {
        status
    }
}

/// Infeasibility is never claimed of a model whose starting point is feasible,
/// short of a proof; no other status is changed.
pub proof fn law_no_refuted_infeasibility(
    status: SolverReturn,
    presolve_proof: bool,
    start_is_feasible: bool,
)
    ensures
        start_is_feasible && !presolve_proof ==> unrefuted(
            status,
            presolve_proof,
            start_is_feasible,
        ) != SolverReturn::LocalInfeasibility,
        status != SolverReturn::LocalInfeasibility ==> unrefuted(
            status,
            presolve_proof,
            start_is_feasible,
        ) == status,
        !start_is_feasible || presolve_proof ==> unrefuted(
            status,
            presolve_proof,
            start_is_feasible,
        ) == status,
{
}

/// The status claims a solution, strict or acceptable.
pub open spec fn claims_solution(status: ApplicationReturnStatus) -> bool {
    status == ApplicationReturnStatus::SolveSucceeded || status
        == ApplicationReturnStatus::SolvedToAcceptableLevel
}

/// Whether the status claims a solution, strict or acceptable.
pub fn is_solution_status(status: ApplicationReturnStatus) -> (r: bool)
    ensures
        r == claims_solution(status),
{
    status == ApplicationReturnStatus::SolveSucceeded || status
        == ApplicationReturnStatus::SolvedToAcceptableLevel
}

/// The journal level of an integer, which is held to the known range.
pub open spec fn journal_level(v: int) -> JournalLevel {
    if v <= 0 {
        JournalLevel::J_NONE
    } else if v == 1 {
        JournalLevel::J_ERROR
    } else if v == 2 {
        JournalLevel::J_STRONGWARNING
    } else if v == 3 {
        JournalLevel::J_SUMMARY
    } else if v == 4 {
        JournalLevel::J_WARNING
    } else if v == 5 {
        JournalLevel::J_ITERSUMMARY
    } else if v == 6 {
        JournalLevel::J_DETAILED
    } else if v == 7 {
        JournalLevel::J_MOREDETAILED
    } else if v == 8 {
        JournalLevel::J_VECTOR
    } else if v == 9 {
        JournalLevel::J_MOREVECTOR
    } else if v == 10 {
        JournalLevel::J_MATRIX
    } else if v == 11 {
        JournalLevel::J_MOREMATRIX
    } else {
        JournalLevel::J_ALL
    }
}

/// The journal level of an integer, which is held to the known range.
pub fn journal_level_from_int(v: i32) -> (r: JournalLevel)
    ensures
        r == journal_level(v as int),
{
    let c: i32 = if v < 0 {
        0
    } else if v > 12 {
        12
    } else {
        v
    };
    match c {
        0 => JournalLevel::J_NONE,
        1 => JournalLevel::J_ERROR,
        2 => JournalLevel::J_STRONGWARNING,
        3 => JournalLevel::J_SUMMARY,
        4 => JournalLevel::J_WARNING,
        5 => JournalLevel::J_ITERSUMMARY,
        6 => JournalLevel::J_DETAILED,
        7 => JournalLevel::J_MOREDETAILED,
        8 => JournalLevel::J_VECTOR,
        9 => JournalLevel::J_MOREVECTOR,
        10 => JournalLevel::J_MATRIX,
        11 => JournalLevel::J_MOREMATRIX,
        _ => JournalLevel::J_ALL,
    }
}

} // verus!
