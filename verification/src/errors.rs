//! The failures a run can report, and their mathematical views.

use vstd::prelude::*;
use vstd::string::StringExecFns;

verus! {

/// What the API server said when it refused a call, as plain values.
#[derive(Debug, PartialEq, Eq)]
pub struct ApiFailure {
    pub status: String,
    pub message: String,
    pub reason: String,
    pub code: u16,
}

pub struct ApiFailureView {
    pub status: Seq<char>,
    pub message: Seq<char>,
    pub reason: Seq<char>,
    pub code: u16,
}

impl DeepView for ApiFailure {
    type V = ApiFailureView;

    open spec fn deep_view(&self) -> ApiFailureView {
        ApiFailureView {
            status: self.status@,
            message: self.message@,
            reason: self.reason@,
            code: self.code,
        }
    }
}

impl View for ApiFailure {
    type V = ApiFailureView;

    open spec fn view(&self) -> ApiFailureView {
        self.deep_view()
    }
}

impl Clone for ApiFailure {
    fn clone(&self) -> (r: Self)
        ensures
            r@ == self@,
    {
        ApiFailure {
            status: self.status.clone(),
            message: self.message.clone(),
            reason: self.reason.clone(),
            code: self.code,
        }
    }
}

/// A pod reached the phase `Failed`. The view is the pod's name.
#[derive(Debug, PartialEq, Eq)]
pub struct PodFailure {
    pub name: String,
}

impl View for PodFailure {
    type V = Seq<char>;

    open spec fn view(&self) -> Seq<char> {
        self.name@
    }
}

/// No terminal phase arrived before the deadline. The view is the operation
/// that was waited for.
#[derive(Debug, PartialEq, Eq)]
pub struct Timeout {
    pub operation: String,
}

impl View for Timeout {
    type V = Seq<char>;

    open spec fn view(&self) -> Seq<char> {
        self.operation@
    }
}

/// A field that a resource of the cluster must carry and did not.
#[derive(Debug, Clone, Copy, PartialEq, Eq, Structural)]
pub enum Field {
    NodeName,
    NodeAnnotations,
    PodStatus,
    PodPhase,
}

/// Why the marker of a finished task could not be recorded on its node.
#[derive(Debug, PartialEq, Eq)]
pub enum PersistFailure {
    /// The patch document could not be encoded; the text says why.
    Encoding(String),
    /// The API server refused the patch.
    Rejected(ApiFailure),
}

pub enum PersistFailureView {
    Encoding(Seq<char>),
    Rejected(ApiFailureView),
}

impl View for PersistFailure {
    type V = PersistFailureView;

    open spec fn view(&self) -> PersistFailureView {
        match self {
            PersistFailure::Encoding(why) => PersistFailureView::Encoding(why@),
            PersistFailure::Rejected(f) => PersistFailureView::Rejected(f@),
        }
    }
}

/// The failure of one step of one node's task.
#[derive(Debug, PartialEq, Eq)]
pub enum TaskError {
    /// A call to the API server failed before any task was started.
    Transport(ApiFailure),
    /// The pod could not be created, or its notification stream broke.
    Submission(ApiFailure),
    /// The pod ran and failed.
    ExecutionFailure(PodFailure),
    /// The pod did not finish before the deadline.
    Timeout(Timeout),
    /// The pod succeeded, but the marker was not written.
    MarkerPersist(PersistFailure),
    /// A resource lacked a field that the task must read.
    MissingField(Field),
    /// The worker that ran the task ended without a result.
    WorkerAborted(String),
    /// The manager's key pair could not be generated.
    KeyGeneration(String),
    /// The driver answered with an event that the task had not asked for.
    UnexpectedEvent,
}

pub enum TaskErrorView {
    Transport(ApiFailureView),
    Submission(ApiFailureView),
    ExecutionFailure(Seq<char>),
    Timeout(Seq<char>),
    MarkerPersist(PersistFailureView),
    MissingField(Field),
    WorkerAborted(Seq<char>),
    KeyGeneration(Seq<char>),
    UnexpectedEvent,
}

impl DeepView for TaskError {
    type V = TaskErrorView;

    open spec fn deep_view(&self) -> TaskErrorView {
        match self {
            TaskError::Transport(f) => TaskErrorView::Transport(f@),
            TaskError::Submission(f) => TaskErrorView::Submission(f@),
            TaskError::ExecutionFailure(p) => TaskErrorView::ExecutionFailure(p@),
            TaskError::Timeout(t) => TaskErrorView::Timeout(t@),
            TaskError::MarkerPersist(p) => TaskErrorView::MarkerPersist(p@),
            TaskError::MissingField(f) => TaskErrorView::MissingField(*f),
            TaskError::WorkerAborted(m) => TaskErrorView::WorkerAborted(m@),
            TaskError::KeyGeneration(m) => TaskErrorView::KeyGeneration(m@),
            TaskError::UnexpectedEvent => TaskErrorView::UnexpectedEvent,
        }
    }
}

impl View for TaskError {
    type V = TaskErrorView;

    open spec fn view(&self) -> TaskErrorView {
        self.deep_view()
    }
}

impl Clone for TaskError {
    fn clone(&self) -> (r: Self)
        ensures
            r@ == self@,
    {
        match self {
            TaskError::Transport(f) => TaskError::Transport(f.clone()),
            TaskError::Submission(f) => TaskError::Submission(f.clone()),
            TaskError::ExecutionFailure(p) => TaskError::ExecutionFailure(
                PodFailure { name: p.name.clone() },
            ),
            TaskError::Timeout(t) => TaskError::Timeout(Timeout { operation: t.operation.clone() }),
            TaskError::MarkerPersist(p) => match p {
                PersistFailure::Encoding(why) => TaskError::MarkerPersist(
                    PersistFailure::Encoding(why.clone()),
                ),
                PersistFailure::Rejected(f) => TaskError::MarkerPersist(
                    PersistFailure::Rejected(f.clone()),
                ),
            },
            TaskError::MissingField(f) => TaskError::MissingField(*f),
            TaskError::WorkerAborted(m) => TaskError::WorkerAborted(m.clone()),
            TaskError::KeyGeneration(m) => TaskError::KeyGeneration(m.clone()),
            TaskError::UnexpectedEvent => TaskError::UnexpectedEvent,
        }
    }
}

/// The name of an error's kind, as a run's report prints it.
pub open spec fn kind_name(e: TaskErrorView) -> Seq<char> {
    match e {
        TaskErrorView::Transport(_) => "TransportError"@,
        TaskErrorView::Submission(_) => "SubmissionError"@,
        TaskErrorView::ExecutionFailure(_) => "ExecutionFailure"@,
        TaskErrorView::Timeout(_) => "Timeout"@,
        TaskErrorView::MarkerPersist(_) => "MarkerPersistError"@,
        TaskErrorView::MissingField(_) => "MissingField"@,
        TaskErrorView::WorkerAborted(_) => "WorkerAborted"@,
        TaskErrorView::KeyGeneration(_) => "KeyGenerationError"@,
        TaskErrorView::UnexpectedEvent => "UnexpectedEvent"@,
    }
}

impl TaskError {
    /// The name of this error's kind.
    pub fn kind(&self) -> (r: String)
        ensures
            r@ == kind_name(self@),
    {
        match self {
            TaskError::Transport(_) => String::from_str("TransportError"),
            TaskError::Submission(_) => String::from_str("SubmissionError"),
            TaskError::ExecutionFailure(_) => String::from_str("ExecutionFailure"),
            TaskError::Timeout(_) => String::from_str("Timeout"),
            TaskError::MarkerPersist(_) => String::from_str("MarkerPersistError"),
            TaskError::MissingField(_) => String::from_str("MissingField"),
            TaskError::WorkerAborted(_) => String::from_str("WorkerAborted"),
            TaskError::KeyGeneration(_) => String::from_str("KeyGenerationError"),
            TaskError::UnexpectedEvent => String::from_str("UnexpectedEvent"),
        }
    }
}

/// The view of an API call's answer: nothing on success, the refusal
/// otherwise.
pub open spec fn refusal(r: Result<(), ApiFailure>) -> Option<ApiFailureView> {
    match r {
        Ok(_) => None,
        Err(f) => Some(f@),
    }
}

/// What a step ended with: nothing on success, the error's view otherwise.
pub open spec fn error_of(r: Result<(), TaskError>) -> Option<TaskErrorView> {
    match r {
        Ok(_) => None,
        Err(e) => Some(e@),
    }
}

/// One node's failure: the node's name, where it has one, and what went wrong.
#[derive(Debug, PartialEq, Eq)]
pub struct NodeFailure {
    pub node: Option<String>,
    pub error: TaskError,
}

pub struct NodeFailureView {
    pub node: Option<Seq<char>>,
    pub error: TaskErrorView,
}

impl DeepView for NodeFailure {
    type V = NodeFailureView;

    open spec fn deep_view(&self) -> NodeFailureView {
        NodeFailureView { node: self.node.deep_view(), error: self.error@ }
    }
}

impl View for NodeFailure {
    type V = NodeFailureView;

    open spec fn view(&self) -> NodeFailureView {
        self.deep_view()
    }
}

impl Clone for NodeFailure {
    fn clone(&self) -> (r: Self)
        ensures
            r@ == self@,
    {
        let node = match &self.node {
            Some(n) => Some(n.clone()),
            None => None,
        };
        NodeFailure { node, error: self.error.clone() }
    }
}

/// The words under which a failure is reported when its node has no name.
pub const UNNAMED_NODE: &'static str = "<unnamed node>";

/// The line of a run's report for one failure: the node, a colon, and the
/// kind of the error.
pub open spec fn report_line(failure: NodeFailureView) -> Seq<char> {
    let node = match failure.node {
        Some(name) => name,
        None => UNNAMED_NODE@,
    };
    node + ": "@ + kind_name(failure.error)
}

impl NodeFailure {
    /// The line of a run's report for this failure.
    pub fn describe(&self) -> (line: String)
        ensures
            line@ == report_line(self@),
    {
        let mut line = match &self.node {
            Some(name) => name.clone(),
            None => String::from_str(UNNAMED_NODE),
        };
        line.append(": ");
        let kind = self.error.kind();
        line.append(kind.as_str());
        line
    }
}

/// What one node's task ended with.
pub type TaskResult = Result<(), NodeFailure>;

/// The view of a task's result: nothing on success, the failure otherwise.
pub open spec fn outcome(r: TaskResult) -> Option<NodeFailureView> {
    match r {
        Ok(_) => None,
        Err(f) => Some(f@),
    }
}

} // verus!
