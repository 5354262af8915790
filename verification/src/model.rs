//! The vocabulary of the orchestrator: targets, operations and outcomes.

use vstd::prelude::*;

verus! {

/// The two backend families; an id belongs to one of them at a time.
#[derive(Debug, Clone, Copy, PartialEq, Eq, Structural)]
pub enum ResourceKind {
    VirtualMachine,
    Container,
}

/// How a clone relates to its source.
#[derive(Debug, Clone, Copy, PartialEq, Eq, Structural)]
pub enum CloneMode {
    /// The clone shares storage blocks with its source.
    Linked,
    /// The clone is an independent copy.
    Full,
}

/// One compute resource: an id on a node.
#[derive(Debug, PartialEq, Eq)]
pub struct Target {
    pub node: String,
    pub id: i32,
}

/// A [`Target`] as a mathematical value.
pub struct TargetView {
    pub node: Seq<char>,
    pub id: int,
}

impl View for Target {
    type V = TargetView;

    open spec fn view(&self) -> TargetView {
        TargetView { node: self.node@, id: self.id as int }
    }
}

impl Clone for Target {
    fn clone(&self) -> (copy: Self)
        ensures
            copy == *self,
    {
        Target { node: self.node.clone(), id: self.id }
    }
}

/// What is asked of one target.
#[derive(Debug, PartialEq, Eq)]
pub enum Operation {
    /// Clone `source` into the target's id, under `name` where one is given.
    Clone { source: i32, mode: CloneMode, name: Option<String> },
    Destroy,
    Start,
    Stop,
}

/// An [`Operation`] as a mathematical value.
pub enum OperationView {
    Clone { source: int, mode: CloneMode, name: Option<Seq<char>> },
    Destroy,
    Start,
    Stop,
}

impl OperationView {
    /// Whether the kind of the target is found by trying the virtual-machine
    /// endpoint first and the container endpoint after a rejection.
    pub open spec fn by_trial(self) -> bool {
        self is Clone || self is Destroy
    }
}

impl View for Operation {
    type V = OperationView;

    open spec fn view(&self) -> OperationView {
        match *self {
            Operation::Clone { source, mode, name } => OperationView::Clone {
                source: source as int,
                mode,
                name: match name {
                    Some(n) => Some(n@),
                    None => None,
                },
            },
            Operation::Destroy => OperationView::Destroy,
            Operation::Start => OperationView::Start,
            Operation::Stop => OperationView::Stop,
        }
    }
}

impl Clone for Operation {
    fn clone(&self) -> (copy: Self)
        ensures
            copy == *self,
    {
        match self {
            Operation::Clone { source, mode, name } => Operation::Clone {
                source: *source,
                mode: *mode,
                name: match name {
                    Some(n) => Some(n.clone()),
                    None => None,
                },
            },
            Operation::Destroy => Operation::Destroy,
            Operation::Start => Operation::Start,
            Operation::Stop => Operation::Stop,
        }
    }
}

impl Operation {
    /// Whether the kind of the target is found by trial: true of clone and
    /// destroy, false of start and stop, which probe first.
    pub fn by_trial(&self) -> (trial: bool)
        ensures
            trial == self@.by_trial(),
    {
        match self {
            Operation::Clone { .. } => true,
            Operation::Destroy => true,
            _ => false,
        }
    }
}

/// Why a request for an operation came to nothing.
#[derive(Debug, Clone, Copy, PartialEq, Eq, Structural)]
pub enum ExecutionError {
    /// The last endpoint tried answered with this status, which is not success.
    Rejected(u16),
    /// The endpoint accepted the request and its answer holds no job handle.
    Malformed,
}

/// Why a target failed.
#[derive(Debug, PartialEq, Eq)]
pub enum Failure {
    /// The probe's answer has neither of the two shapes that tell the kind.
    Resolution,
    Execution(ExecutionError),
    /// The job ended with this status, which is not the success sentinel.
    Poll(String),
    /// A call did not get an answer; the text says what the transport reported.
    Transport(String),
}

/// A [`Failure`] as a mathematical value.
pub enum FailureView {
    Resolution,
    Execution(ExecutionError),
    Poll(Seq<char>),
    Transport(Seq<char>),
}

impl View for Failure {
    type V = FailureView;

    open spec fn view(&self) -> FailureView {
        match *self {
            Failure::Resolution => FailureView::Resolution,
            Failure::Execution(e) => FailureView::Execution(e),
            Failure::Poll(detail) => FailureView::Poll(detail@),
            Failure::Transport(detail) => FailureView::Transport(detail@),
        }
    }
}

impl Clone for Failure {
    fn clone(&self) -> (copy: Self)
        ensures
            copy == *self,
    {
        match self {
            Failure::Resolution => Failure::Resolution,
            Failure::Execution(e) => Failure::Execution(*e),
            Failure::Poll(detail) => Failure::Poll(detail.clone()),
            Failure::Transport(detail) => Failure::Transport(detail.clone()),
        }
    }
}

/// How one target ended.
#[derive(Debug, PartialEq, Eq)]
pub enum Outcome {
    Succeeded,
    Failed(Failure),
    /// Nothing was attempted for the target; the text says why.
    Skipped(String),
}

/// An [`Outcome`] as a mathematical value.
pub enum OutcomeView {
    Succeeded,
    Failed(FailureView),
    Skipped(Seq<char>),
}

impl View for Outcome {
    type V = OutcomeView;

    open spec fn view(&self) -> OutcomeView {
        match *self {
            Outcome::Succeeded => OutcomeView::Succeeded,
            Outcome::Failed(f) => OutcomeView::Failed(f@),
            Outcome::Skipped(reason) => OutcomeView::Skipped(reason@),
        }
    }
}

impl Clone for Outcome {
    fn clone(&self) -> (copy: Self)
        ensures
            copy == *self,
    {
        match self {
            Outcome::Succeeded => Outcome::Succeeded,
            Outcome::Failed(f) => Outcome::Failed(f.clone()),
            Outcome::Skipped(reason) => Outcome::Skipped(reason.clone()),
        }
    }
}

impl Outcome {
    /// Whether the target succeeded.
    pub fn is_success(&self) -> (yes: bool)
        ensures
            yes == (self@ is Succeeded),
    {
        match self {
            Outcome::Succeeded => true,
            _ => false,
        }
    }
}

/// Where a job stands. A job runs until it succeeds or fails and then stays so.
#[derive(Debug, PartialEq, Eq)]
pub enum JobStatus {
    Running,
    Succeeded,
    /// The job ended with this status text.
    Failed(String),
}

/// A [`JobStatus`] as a mathematical value.
pub enum JobStatusView {
    Running,
    Succeeded,
    Failed(Seq<char>),
}

impl View for JobStatus {
    type V = JobStatusView;

    open spec fn view(&self) -> JobStatusView {
        match *self {
            JobStatus::Running => JobStatusView::Running,
            JobStatus::Succeeded => JobStatusView::Succeeded,
            JobStatus::Failed(detail) => JobStatusView::Failed(detail@),
        }
    }
}

/// Why a batch is refused before anything is sent.
#[derive(Debug, Clone, Copy, PartialEq, Eq, Structural)]
pub enum ConfigError {
    /// The first id of the range is above the last.
    InvalidRange,
    /// A clone or a single operation was asked for without the id it works on.
    MissingSource,
    /// A single clone was asked for without the id of the clone.
    MissingDestination,
    /// No worker was allowed, so no target could ever start.
    NoWorkers,
}

} // verus!
