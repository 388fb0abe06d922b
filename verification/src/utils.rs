//! The lifecycle monitor: how a stream of notifications about one pod ends.
//!
//! The monitor reads notifications in the order of their arrival and stops at
//! the first one that decides: the pod succeeded, the pod failed, the stream
//! reported an error, or a notification lacked the pod's status or phase. A
//! stream that ends with nothing decided has run into its deadline.

use crate::errors::{
    error_of, ApiFailure, ApiFailureView, Field, PodFailure, TaskError, TaskErrorView, Timeout,
};
use vstd::prelude::*;
use vstd::string::StringExecFns;

verus! {

/// The phases of a pod's life. `Succeeded` and `Failed` are terminal.
#[derive(Debug, Clone, Copy, PartialEq, Eq, Structural)]
pub enum Phase {
    Pending,
    Running,
    Succeeded,
    Failed,
    Unknown,
}

/// The phase that a word of the API stands for. A word that names no phase
/// stands for `Unknown`.
pub open spec fn phase_of(word: Seq<char>) -> Phase {
    if word == "Pending"@ {
        Phase::Pending
    } else if word == "Running"@ {
        Phase::Running
    } else if word == "Succeeded"@ {
        Phase::Succeeded
    } else if word == "Failed"@ {
        Phase::Failed
    } else {
        Phase::Unknown
    }
}

/// Reads a phase from the word the API uses for it.
pub fn parse_phase(word: &String) -> (phase: Phase)
    ensures
        phase == phase_of(word@),
{
    if *word == String::from_str("Pending") {
        Phase::Pending
    } else if *word == String::from_str("Running") {
        Phase::Running
    } else if *word == String::from_str("Succeeded") {
        Phase::Succeeded
    } else if *word == String::from_str("Failed") {
        Phase::Failed
    } else {
        Phase::Unknown
    }
}

/// The status of a pod as a notification carries it.
#[derive(Debug, PartialEq, Eq)]
pub struct PodStatus {
    pub phase: Option<String>,
}

pub struct PodStatusView {
    pub phase: Option<Seq<char>>,
}

impl DeepView for PodStatus {
    type V = PodStatusView;

    open spec fn deep_view(&self) -> PodStatusView {
        PodStatusView { phase: self.phase.deep_view() }
    }
}

impl View for PodStatus {
    type V = PodStatusView;

    open spec fn view(&self) -> PodStatusView {
        self.deep_view()
    }
}

/// One notification of a watch on a pod.
#[derive(Debug, PartialEq, Eq)]
pub enum WatchEvent {
    /// The pod appeared.
    Added,
    /// The pod changed; the status is the one the changed pod carries.
    Modified(Option<PodStatus>),
    /// The pod was removed.
    Deleted,
    /// The server marked a position in the stream.
    Bookmark,
    /// The server reported an error in place of a change.
    Error(ApiFailure),
}

pub enum WatchEventView {
    Added,
    Modified(Option<PodStatusView>),
    Deleted,
    Bookmark,
    Error(ApiFailureView),
}

impl DeepView for WatchEvent {
    type V = WatchEventView;

    open spec fn deep_view(&self) -> WatchEventView {
        match self {
            WatchEvent::Added => WatchEventView::Added,
            WatchEvent::Modified(status) => WatchEventView::Modified(status.deep_view()),
            WatchEvent::Deleted => WatchEventView::Deleted,
            WatchEvent::Bookmark => WatchEventView::Bookmark,
            WatchEvent::Error(f) => WatchEventView::Error(f@),
        }
    }
}

impl View for WatchEvent {
    type V = WatchEventView;

    open spec fn view(&self) -> WatchEventView {
        self.deep_view()
    }
}

/// What one notification means for the monitor.
pub enum Verdict {
    /// Nothing is decided; the monitor reads on.
    Waiting,
    /// The pod succeeded.
    Succeeded,
    /// The wait is over with an error.
    Failed(TaskErrorView),
}

/// The same, with an error that can be handed on.
#[derive(Debug, PartialEq, Eq)]
pub enum Observation {
    Waiting,
    Succeeded,
    Failed(TaskError),
}

impl View for Observation {
    type V = Verdict;

    open spec fn view(&self) -> Verdict {
        match self {
            Observation::Waiting => Verdict::Waiting,
            Observation::Succeeded => Verdict::Succeeded,
            Observation::Failed(e) => Verdict::Failed(e@),
        }
    }
}

/// The meaning of one notification about the pod `pod`: only a change of the
/// pod or an error of the stream can decide. A change decides when it lacks
/// the status or the phase, or when its phase is terminal.
pub open spec fn classify(pod: Seq<char>, event: WatchEventView) -> Verdict {
    match event {
        WatchEventView::Modified(None) => Verdict::Failed(
            TaskErrorView::MissingField(Field::PodStatus),
        ),
        WatchEventView::Modified(Some(status)) => match status.phase {
            None => Verdict::Failed(TaskErrorView::MissingField(Field::PodPhase)),
            Some(word) => match phase_of(word) {
                Phase::Succeeded => Verdict::Succeeded,
                Phase::Failed => Verdict::Failed(TaskErrorView::ExecutionFailure(pod)),
                _ => Verdict::Waiting,
            },
        },
        WatchEventView::Error(f) => Verdict::Failed(TaskErrorView::Submission(f)),
        _ => Verdict::Waiting,
    }
}

/// Whether a notification says that the pod `pod` has failed.
pub open spec fn reports_failure(pod: Seq<char>, event: WatchEventView) -> bool {
    classify(pod, event) == Verdict::Failed(TaskErrorView::ExecutionFailure(pod))
}

/// The operation that a timeout of the monitor names.
pub open spec fn wait_operation(pod: Seq<char>) -> Seq<char> {
    "Waiting for pod "@ + pod
}

/// The number of notifications at the head of `events` that decide nothing.
pub open spec fn undecided_prefix(pod: Seq<char>, events: Seq<WatchEventView>) -> nat
    decreases events.len(),
{
    if events.len() == 0 || !(classify(pod, events[0]) is Waiting) {
        0
    } else {
        1 + undecided_prefix(pod, events.drop_first())
    }
}

/// How the monitor ends on the whole stream `events`: with the verdict of the
/// first notification that decides, or with a timeout if none does.
pub open spec fn monitor_result(
    pod: Seq<char>,
    events: Seq<WatchEventView>,
) -> Option<TaskErrorView> {
    let k = undecided_prefix(pod, events) as int;
    if k < events.len() {
        match classify(pod, events[k]) {
            Verdict::Failed(e) => Some(e),
            _ => None,
        }
    } else {
        Some(TaskErrorView::Timeout(wait_operation(pod)))
    }
}

/// How many notifications the monitor reads of the stream `events`: up to
/// and including the first that decides.
pub open spec fn monitor_consumed(pod: Seq<char>, events: Seq<WatchEventView>) -> nat {
    let k = undecided_prefix(pod, events);
    if k < events.len() {
        k + 1
    } else {
        events.len()
    }
}

/// The undecided prefix is a prefix, nothing in it decides, and the
/// notification that follows it, if there is one, decides.
pub proof fn lemma_undecided_prefix(pod: Seq<char>, events: Seq<WatchEventView>)
    ensures
        undecided_prefix(pod, events) <= events.len(),
        forall|i: int|
            0 <= i < undecided_prefix(pod, events) ==> classify(pod, #[trigger] events[i])
                is Waiting,
        undecided_prefix(pod, events) < events.len() ==> !(classify(
            pod,
            events[undecided_prefix(pod, events) as int],
        ) is Waiting),
    decreases events.len(),
{
    if events.len() == 0 || !(classify(pod, events[0]) is Waiting) {
    } else {
        let rest = events.drop_first();
        lemma_undecided_prefix(pod, rest);
        assert forall|i: int| 0 <= i < undecided_prefix(pod, events) implies classify(
            pod,
            #[trigger] events[i],
        ) is Waiting by {
            if i > 0 {
                assert(events[i] == rest[i - 1]);
            }
        }
        let k = undecided_prefix(pod, rest) as int;
        if k < rest.len() {
            assert(events[k + 1] == rest[k]);
        }
    }
}

/// A prefix in which nothing decides, followed by the end of the stream or
/// by a notification that decides, is the undecided prefix.
pub proof fn lemma_undecided_prefix_is(pod: Seq<char>, events: Seq<WatchEventView>, k: int)
    requires
        0 <= k <= events.len(),
        forall|i: int| 0 <= i < k ==> classify(pod, #[trigger] events[i]) is Waiting,
        k < events.len() ==> !(classify(pod, events[k]) is Waiting),
    ensures
        undecided_prefix(pod, events) == k,
{
    lemma_undecided_prefix(pod, events);
    let p = undecided_prefix(pod, events) as int;
    if p < k {
        assert(classify(pod, events[p]) is Waiting);
    } else if k < p {
        assert(classify(pod, events[k]) is Waiting);
    }
}

/// A stream whose last notification reports the pod's failure never ends in
/// a timeout.
pub proof fn lemma_failure_never_times_out(pod: Seq<char>, events: Seq<WatchEventView>)
    requires
        events.len() > 0,
        reports_failure(pod, events.last()),
    ensures
        !(monitor_result(pod, events) matches Some(TaskErrorView::Timeout(_))),
{
    lemma_undecided_prefix(pod, events);
    let k = undecided_prefix(pod, events) as int;
    if k >= events.len() {
        assert(classify(pod, events[events.len() - 1]) is Waiting);
    }
}

/// Whether one of the first `n` notifications reports the pod's failure.
pub open spec fn failure_among(pod: Seq<char>, events: Seq<WatchEventView>, n: int) -> bool {
    exists|j: int| 0 <= j < n && j < events.len() && reports_failure(pod, #[trigger] events[j])
}

/// A stream whose last notification reports the pod's failure ends in that
/// failure, provided that every notification that decides is, or comes
/// after, a report of the failure.
pub proof fn lemma_failure_is_execution_failure(pod: Seq<char>, events: Seq<WatchEventView>)
    requires
        events.len() > 0,
        reports_failure(pod, events.last()),
        forall|i: int|
            0 <= i < events.len() ==> {
                ||| classify(pod, events[i]) is Waiting
                ||| #[trigger] failure_among(pod, events, i + 1)
            },
    ensures
        monitor_result(pod, events) == Some(TaskErrorView::ExecutionFailure(pod)),
{
    lemma_undecided_prefix(pod, events);
    let k = undecided_prefix(pod, events) as int;
    if k >= events.len() {
        assert(classify(pod, events[events.len() - 1]) is Waiting);
    }
    assert(failure_among(pod, events, k + 1));
    let j = choose|j: int|
        0 <= j < k + 1 && j < events.len() && reports_failure(pod, #[trigger] events[j]);
    if j < k {
        assert(classify(pod, events[j]) is Waiting);
    }
}

/// A stream in which no notification reports the pod's failure never ends in
/// an execution failure.
pub proof fn lemma_no_failure_no_execution_failure(pod: Seq<char>, events: Seq<WatchEventView>)
    requires
        forall|i: int| 0 <= i < events.len() ==> !reports_failure(pod, #[trigger] events[i]),
    ensures
        !(monitor_result(pod, events) matches Some(TaskErrorView::ExecutionFailure(_))),
{
    lemma_undecided_prefix(pod, events);
    let k = undecided_prefix(pod, events) as int;
    if k < events.len() {
        assert(!reports_failure(pod, events[k]));
    }
}

/// A stream in which nothing decides before the deadline ends in a timeout,
/// and every notification of it is read.
pub proof fn lemma_undecided_times_out(pod: Seq<char>, events: Seq<WatchEventView>)
    requires
        forall|i: int| 0 <= i < events.len() ==> classify(pod, #[trigger] events[i]) is Waiting,
    ensures
        monitor_result(pod, events) == Some(TaskErrorView::Timeout(wait_operation(pod))),
        monitor_consumed(pod, events) == events.len(),
{
    lemma_undecided_prefix_is(pod, events, events.len() as int);
}

/// The monitor never reads past the notification that decides: what follows
/// the part it has read changes neither the result nor the number read.
pub proof fn lemma_rest_is_not_read(
    pod: Seq<char>,
    events: Seq<WatchEventView>,
    rest: Seq<WatchEventView>,
)
    requires
        undecided_prefix(pod, events) < events.len(),
    ensures
        monitor_result(pod, events + rest) == monitor_result(pod, events),
        monitor_consumed(pod, events + rest) == monitor_consumed(pod, events),
        monitor_consumed(pod, events + rest) <= events.len(),
{
    lemma_undecided_prefix(pod, events);
    let k = undecided_prefix(pod, events) as int;
    let all = events + rest;
    assert forall|i: int| 0 <= i < k implies classify(pod, #[trigger] all[i]) is Waiting by {
        assert(all[i] == events[i]);
    }
    assert(all[k] == events[k]);
    lemma_undecided_prefix_is(pod, all, k);
}

/// The text `metadata.name=` and the pod's name: the selector of a watch
/// that sees this pod only.
pub open spec fn name_selector(pod: Seq<char>) -> Seq<char> {
    "metadata.name="@ + pod
}

/// What a driver must ask the API server for to watch one pod.
#[derive(Debug, PartialEq, Eq)]
pub struct WatchRequest {
    /// Restricts the stream to the pod of this name.
    pub field_selector: String,
    /// The deadline: the server ends the stream after this many seconds.
    pub timeout: u32,
    /// The version from which changes are reported.
    pub resource_version: String,
}

pub struct WatchRequestView {
    pub field_selector: Seq<char>,
    pub timeout: u32,
    pub resource_version: Seq<char>,
}

impl View for WatchRequest {
    type V = WatchRequestView;

    open spec fn view(&self) -> WatchRequestView {
        WatchRequestView {
            field_selector: self.field_selector@,
            timeout: self.timeout,
            resource_version: self.resource_version@,
        }
    }
}

/// The watch on the pod `pod` with the deadline `deadline`.
pub open spec fn watch_of(pod: Seq<char>, deadline: u32) -> WatchRequestView {
    WatchRequestView {
        field_selector: name_selector(pod),
        timeout: deadline,
        resource_version: "0"@,
    }
}

/// Describes the watch that observes the pod `pod_name` and nothing else,
/// for at most `deadline` seconds.
pub fn watch_request(pod_name: &String, deadline: u32) -> (request: WatchRequest)
    ensures
        request@ == watch_of(pod_name@, deadline),
{
    let mut field_selector = String::from_str("metadata.name=");
    field_selector.append(pod_name.as_str());
    WatchRequest { field_selector, timeout: deadline, resource_version: String::from_str("0") }
}

/// Says what one notification about the pod `pod_name` means.
pub fn observe(pod_name: &String, event: &WatchEvent) -> (observation: Observation)
    ensures
        observation@ == classify(pod_name@, event@),
{
    match event {
        WatchEvent::Modified(None) => Observation::Failed(
            TaskError::MissingField(Field::PodStatus),
        ),
        WatchEvent::Modified(Some(status)) => match &status.phase {
            None => Observation::Failed(TaskError::MissingField(Field::PodPhase)),
            Some(word) => match parse_phase(word) {
                Phase::Succeeded => Observation::Succeeded,
                Phase::Failed => Observation::Failed(
                    TaskError::ExecutionFailure(PodFailure { name: pod_name.clone() }),
                ),
                _ => Observation::Waiting,
            },
        },
        WatchEvent::Error(f) => Observation::Failed(TaskError::Submission(f.clone())),
        _ => Observation::Waiting,
    }
}

/// The error of a monitor whose stream ended with nothing decided.
pub fn deadline_expired(pod_name: &String) -> (error: TaskError)
    ensures
        error@ == TaskErrorView::Timeout(wait_operation(pod_name@)),
{
    let mut operation = String::from_str("Waiting for pod ");
    operation.append(pod_name.as_str());
    TaskError::Timeout(Timeout { operation })
}

/// The end of a wait: its result, and how many notifications were read.
#[derive(Debug, PartialEq, Eq)]
pub struct Observed {
    pub result: Result<(), TaskError>,
    pub consumed: usize,
}

/// Waits for the pod `pod_name` on a stream that delivered `events` and then
/// ended at its deadline.
///
/// The result is that of the first notification that decides, and no
/// notification after it is read; with none, the wait timed out.
pub fn wait_for_pod(pod_name: &String, events: &Vec<WatchEvent>) -> (observed: Observed)
    ensures
        error_of(observed.result) == monitor_result(pod_name@, events.deep_view()),
        observed.consumed == monitor_consumed(pod_name@, events.deep_view()),
{
    let ghost stream = events.deep_view();
    let mut i: usize = 0;
    while i < events.len()
        invariant
            0 <= i <= events.len(),
            stream == events.deep_view(),
            stream.len() == events.len(),
            forall|j: int| 0 <= j < i ==> classify(pod_name@, #[trigger] stream[j]) is Waiting,
        decreases events.len() - i,
    {
        assert(stream[i as int] == events[i as int]@);
        match observe(pod_name, &events[i]) {
            Observation::Waiting => {},
            Observation::Succeeded => {
                proof {
                    lemma_undecided_prefix_is(pod_name@, stream, i as int);
                }
                return Observed { result: Ok(()), consumed: i + 1 };
            },
            Observation::Failed(error) => {
                proof {
                    lemma_undecided_prefix_is(pod_name@, stream, i as int);
                }
                return Observed { result: Err(error), consumed: i + 1 };
            },
        }
        i = i + 1;
    }
    proof {
        lemma_undecided_prefix_is(pod_name@, stream, i as int);
    }
    Observed { result: Err(deadline_expired(pod_name)), consumed: i }
}

} // verus!
