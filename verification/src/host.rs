//! The task of one host, and the run over all hosts.
//!
//! A task is carried out by a driver that talks to the cluster. The driver
//! holds a [`NodeTask`], performs the [`Action`] it is given, and reports the
//! cluster's answer as an [`Event`] to [`NodeTask::step`], which names the
//! next action. The task itself never waits and never calls out.

pub mod laws;

use crate::errors::{
    outcome, refusal, report_line, ApiFailure, ApiFailureView, Field, NodeFailure,
    NodeFailureView, PersistFailure, PersistFailureView, TaskError, TaskErrorView, TaskResult,
};
use crate::host::laws::lemma_no_failures_iff_all_ok;
use crate::node::{marker_satisfied, Node, NodeView};
use crate::patch::{marker_patch, marker_patch_of};
use crate::pod::{Pod, PodView};
use crate::task::{pod_of, TaskDefinition, TaskDefinitionView};
use crate::utils::{
    classify, deadline_expired, observe, wait_operation, watch_of, watch_request, Observation,
    Verdict, WatchEvent, WatchEventView, WatchRequest, WatchRequestView,
};
use vstd::prelude::*;

verus! {

/// The merge patch that records a task on a node.
#[derive(Debug, PartialEq, Eq)]
pub struct MarkerPatch {
    /// The name of the node to patch.
    pub node: String,
    /// The patch document.
    pub body: Vec<u8>,
}

pub struct MarkerPatchView {
    pub node: Seq<char>,
    pub body: Seq<u8>,
}

impl View for MarkerPatch {
    type V = MarkerPatchView;

    open spec fn view(&self) -> MarkerPatchView {
        MarkerPatchView { node: self.node@, body: self.body@ }
    }
}

/// What the driver must do next for a task.
#[derive(Debug, PartialEq, Eq)]
pub enum Action {
    /// Create this pod, and report `Created`.
    Create(Pod),
    /// Open this watch, and report its first notification, its end or its
    /// failure.
    Watch(WatchRequest),
    /// Report the next notification of the open watch, its end or its
    /// failure.
    Next,
    /// Apply this patch to the node, and report `Patched`.
    Patch(MarkerPatch),
    /// Nothing: the task has ended with this result.
    Done(TaskResult),
}

pub enum ActionView {
    Create(PodView),
    Watch(WatchRequestView),
    Next,
    Patch(MarkerPatchView),
    Done(Option<NodeFailureView>),
}

impl View for Action {
    type V = ActionView;

    open spec fn view(&self) -> ActionView {
        match self {
            Action::Create(pod) => ActionView::Create(pod@),
            Action::Watch(request) => ActionView::Watch(request@),
            Action::Next => ActionView::Next,
            Action::Patch(patch) => ActionView::Patch(patch@),
            Action::Done(result) => ActionView::Done(outcome(*result)),
        }
    }
}

/// What the cluster answered to an action.
#[derive(Debug, PartialEq, Eq)]
pub enum Event {
    /// The pod was created, or the API server refused it.
    Created(Result<(), ApiFailure>),
    /// The watch delivered a notification.
    Notification(WatchEvent),
    /// The watch ended: its deadline has passed.
    StreamEnded,
    /// The watch could not be opened, or broke.
    StreamFailed(ApiFailure),
    /// The node was patched, or the API server refused the patch.
    Patched(Result<(), ApiFailure>),
}

pub enum EventView {
    Created(Option<ApiFailureView>),
    Notification(WatchEventView),
    StreamEnded,
    StreamFailed(ApiFailureView),
    Patched(Option<ApiFailureView>),
}

impl View for Event {
    type V = EventView;

    open spec fn view(&self) -> EventView {
        match self {
            Event::Created(r) => EventView::Created(refusal(*r)),
            Event::Notification(e) => EventView::Notification(e@),
            Event::StreamEnded => EventView::StreamEnded,
            Event::StreamFailed(f) => EventView::StreamFailed(f@),
            Event::Patched(r) => EventView::Patched(refusal(*r)),
        }
    }
}

/// How far a task has come.
#[derive(Debug, PartialEq, Eq)]
pub enum Stage {
    /// The pod is being created.
    Submitting,
    /// The pod exists and is being watched.
    Watching,
    /// The pod succeeded and the marker is being written.
    Persisting,
    /// The task has ended.
    Done(TaskResult),
}

pub enum StageView {
    Submitting,
    Watching,
    Persisting,
    Done(Option<NodeFailureView>),
}

impl View for Stage {
    type V = StageView;

    open spec fn view(&self) -> StageView {
        match self {
            Stage::Submitting => StageView::Submitting,
            Stage::Watching => StageView::Watching,
            Stage::Persisting => StageView::Persisting,
            Stage::Done(result) => StageView::Done(outcome(*result)),
        }
    }
}

/// One node's task: the node's name, the task's definition, and the stage
/// reached. A node without a name has a task that is done from the start,
/// under the empty name.
#[derive(Debug, PartialEq, Eq)]
pub struct NodeTask {
    pub node: String,
    pub task: TaskDefinition,
    pub stage: Stage,
}

pub struct NodeTaskView {
    pub node: Seq<char>,
    pub task: TaskDefinitionView,
    pub stage: StageView,
}

impl View for NodeTask {
    type V = NodeTaskView;

    open spec fn view(&self) -> NodeTaskView {
        NodeTaskView { node: self.node@, task: self.task@, stage: self.stage@ }
    }
}

/// A task together with the action its driver must perform next.
#[derive(Debug, PartialEq, Eq)]
pub struct Step {
    pub task: NodeTask,
    pub action: Action,
}

pub struct StepView {
    pub task: NodeTaskView,
    pub action: ActionView,
}

impl DeepView for Step {
    type V = StepView;

    open spec fn deep_view(&self) -> StepView {
        StepView { task: self.task@, action: self.action@ }
    }
}

impl View for Step {
    type V = StepView;

    open spec fn view(&self) -> StepView {
        self.deep_view()
    }
}

/// A task that has ended with `result`, and the action that says so.
pub open spec fn finished(
    node: Seq<char>,
    task: TaskDefinitionView,
    result: Option<NodeFailureView>,
) -> StepView {
    StepView {
        task: NodeTaskView { node, task, stage: StageView::Done(result) },
        action: ActionView::Done(result),
    }
}

/// A task that has ended with the error `error`, reported under the node's
/// name.
pub open spec fn failed(
    node: Seq<char>,
    task: TaskDefinitionView,
    error: TaskErrorView,
) -> StepView {
    finished(node, task, Some(NodeFailureView { node: Some(node), error }))
}

/// The first step of the task `task` on the node `node`, without regard to
/// the node's markers: the task's pod is to be created.
pub open spec fn submission(node: Seq<char>, task: TaskDefinitionView) -> StepView {
    StepView {
        task: NodeTaskView { node, task, stage: StageView::Submitting },
        action: ActionView::Create(pod_of(task.recipe, node)),
    }
}

/// The first step of the task `task` on a listed node.
///
/// A node that lacks its name fails at once. For a task that has a marker,
/// a node that lacks its annotations fails at once too, and a node that
/// carries the marker with the expected value is done at once, with success
/// and without any call to the cluster. Every other node, whether the marker
/// is absent or has another value, gets the task's pod. A task without a
/// marker reads no annotation and gives every named node its pod.
pub open spec fn first_step(node: NodeView, task: TaskDefinitionView) -> StepView {
    match node.name {
        None => finished(
            Seq::empty(),
            task,
            Some(
                NodeFailureView {
                    node: None,
                    error: TaskErrorView::MissingField(Field::NodeName),
                },
            ),
        ),
        Some(name) => match task.marker {
            None => submission(name, task),
            Some(marker) => match node.annotations {
                None => failed(name, task, TaskErrorView::MissingField(Field::NodeAnnotations)),
                Some(annotations) => if marker_satisfied(annotations, marker.key, marker.value) {
                    finished(name, task, None)
                } else {
                    submission(name, task)
                },
            },
        },
    }
}

/// The step of a watching task whose pod has succeeded: the patch that
/// writes the task's marker, or, for a task without a marker, the end of the
/// task with success.
pub open spec fn after_success(node: Seq<char>, task: TaskDefinitionView) -> StepView {
    match task.marker {
        None => finished(node, task, None),
        Some(marker) => StepView {
            task: NodeTaskView { node, task, stage: StageView::Persisting },
            action: ActionView::Patch(
                MarkerPatchView { node, body: marker_patch_of(marker.key, marker.value) },
            ),
        },
    }
}

/// The step that follows when the task `from` is told of the event `event`.
///
/// A task that is done stays done. Otherwise the event must answer the
/// action that the stage stands for; any other event ends the task with an
/// error.
pub open spec fn next_step(from: NodeTaskView, event: EventView) -> StepView {
    let node = from.node;
    let task = from.task;
    let pod = pod_of(task.recipe, node).name;
    match (from.stage, event) {
        (StageView::Done(result), _) => finished(node, task, result),
        (StageView::Submitting, EventView::Created(None)) => StepView {
            task: NodeTaskView { node, task, stage: StageView::Watching },
            action: ActionView::Watch(watch_of(pod, task.deadline)),
        },
        (StageView::Submitting, EventView::Created(Some(f))) => failed(
            node,
            task,
            TaskErrorView::Submission(f),
        ),
        (StageView::Watching, EventView::Notification(e)) => match classify(pod, e) {
            Verdict::Waiting => StepView {
                task: NodeTaskView { node, task, stage: StageView::Watching },
                action: ActionView::Next,
            },
            Verdict::Succeeded => after_success(node, task),
            Verdict::Failed(error) => failed(node, task, error),
        },
        (StageView::Watching, EventView::StreamEnded) => failed(
            node,
            task,
            TaskErrorView::Timeout(wait_operation(pod)),
        ),
        (StageView::Watching, EventView::StreamFailed(f)) => failed(
            node,
            task,
            TaskErrorView::Submission(f),
        ),
        (StageView::Persisting, EventView::Patched(None)) => finished(node, task, None),
        (StageView::Persisting, EventView::Patched(Some(f))) => failed(
            node,
            task,
            TaskErrorView::MarkerPersist(PersistFailureView::Rejected(f)),
        ),
        _ => failed(node, task, TaskErrorView::UnexpectedEvent),
    }
}

/// The result of a task whose worker ended without handing one back: one
/// more failure of the run, under the name of the worker's node, with the
/// words in which the end was reported.
pub fn worker_aborted(node: String, why: String) -> (result: TaskResult)
    ensures
        outcome(result) == Some(
            NodeFailureView { node: Some(node@), error: TaskErrorView::WorkerAborted(why@) },
        ),
{
    Err(NodeFailure { node: Some(node), error: TaskError::WorkerAborted(why) })
}

/// What a run begins with once the listing of the nodes was answered: the
/// nodes as listed, or, where the listing was refused, a transport error,
/// with which the run ends before any task has begun.
pub fn listed(answer: Result<Vec<Node>, ApiFailure>) -> (nodes: Result<Vec<Node>, TaskError>)
    ensures
        answer matches Ok(listing) ==> nodes == Ok::<Vec<Node>, TaskError>(listing),
        answer matches Err(refusal) ==> (nodes matches Err(error) && error@
            == TaskErrorView::Transport(refusal@)),
{
    match answer {
        Ok(listing) => Ok(listing),
        Err(refusal) => Err(TaskError::Transport(refusal)),
    }
}

/// A copy of a task's result.
pub fn copy_result(result: &TaskResult) -> (r: TaskResult)
    ensures
        outcome(r) == outcome(*result),
{
    match result {
        Ok(_) => Ok(()),
        Err(failure) => Err(failure.clone()),
    }
}

impl NodeTask {
    /// Starts the task `task` on the node `node_name` without looking at the
    /// node's markers: the task's pod is to be created.
    pub fn start(node_name: String, task: TaskDefinition) -> (step: Step)
        ensures
            step@ == submission(node_name@, task@),
    {
        let pod = task.recipe.make_pod(&node_name);
        Step {
            task: NodeTask { node: node_name, task, stage: Stage::Submitting },
            action: Action::Create(pod),
        }
    }

    /// Whether the task has ended.
    pub fn is_done(&self) -> (done: bool)
        ensures
            done == (self@.stage is Done),
    {
        match self.stage {
            Stage::Done(_) => true,
            _ => false,
        }
    }

    /// Ends the task with `result`.
    fn finish(&mut self, result: TaskResult) -> (action: Action)
        ensures
            (StepView { task: final(self)@, action: action@ }) == finished(
                old(self)@.node,
                old(self)@.task,
                outcome(result),
            ),
    {
        let action = Action::Done(copy_result(&result));
        self.stage = Stage::Done(result);
        action
    }

    /// Ends the task with the error `error`, reported under the node's name.
    fn fail(&mut self, error: TaskError) -> (action: Action)
        ensures
            (StepView { task: final(self)@, action: action@ }) == failed(
                old(self)@.node,
                old(self)@.task,
                error@,
            ),
    {
        let failure = NodeFailure { node: Some(self.node.clone()), error };
        self.finish(Err(failure))
    }

    /// Takes the cluster's answer to the last action and names the next
    /// action.
    pub fn step(&mut self, event: Event) -> (action: Action)
        ensures
            (StepView { task: final(self)@, action: action@ }) == next_step(old(self)@, event@),
    {
        let pod_name = self.task.recipe.pod_name(&self.node);
        match &self.stage {
            Stage::Done(result) => {
                let action = Action::Done(copy_result(result));
                return action;
            },
            Stage::Submitting => match event {
                Event::Created(Ok(_)) => {
                    self.stage = Stage::Watching;
                    Action::Watch(watch_request(&pod_name, self.task.deadline))
                },
                Event::Created(Err(f)) => self.fail(TaskError::Submission(f)),
                _ => self.fail(TaskError::UnexpectedEvent),
            },
            Stage::Watching => match event {
                Event::Notification(e) => match observe(&pod_name, &e) {
                    Observation::Waiting => Action::Next,
                    Observation::Succeeded => {
                        let patch = match &self.task.marker {
                            None => None,
                            Some(marker) => Some(marker_patch(&marker.key, &marker.value)),
                        };
                        match patch {
                            None => self.finish(Ok(())),
                            Some(Ok(body)) => {
                                self.stage = Stage::Persisting;
                                Action::Patch(MarkerPatch { node: self.node.clone(), body })
                            },
                            Some(Err(error)) => self.fail(error),
                        }
                    },
                    Observation::Failed(error) => self.fail(error),
                },
                Event::StreamEnded => self.fail(deadline_expired(&pod_name)),
                Event::StreamFailed(f) => self.fail(TaskError::Submission(f)),
                _ => self.fail(TaskError::UnexpectedEvent),
            },
            Stage::Persisting => match event {
                Event::Patched(Ok(_)) => self.finish(Ok(())),
                Event::Patched(Err(f)) => self.fail(
                    TaskError::MarkerPersist(PersistFailure::Rejected(f)),
                ),
                _ => self.fail(TaskError::UnexpectedEvent),
            },
        }
    }
}

/// The failures among the results of a run, in the order of the results.
pub open spec fn failures_of(results: Seq<TaskResult>) -> Seq<NodeFailureView>
    decreases results.len(),
{
    if results.len() == 0 {
        Seq::empty()
    } else {
        match results.last() {
            Ok(_) => failures_of(results.drop_last()),
            Err(failure) => failures_of(results.drop_last()).push(failure@),
        }
    }
}

/// What a run over all nodes amounts to: every failure, each under its
/// node's name, in the order in which the tasks ended.
#[derive(Debug, PartialEq, Eq)]
pub struct AggregateResult {
    pub failures: Vec<NodeFailure>,
}

impl View for AggregateResult {
    type V = Seq<NodeFailureView>;

    open spec fn view(&self) -> Seq<NodeFailureView> {
        self.failures.deep_view()
    }
}

impl AggregateResult {
    /// Whether the run succeeded on every node.
    pub fn is_ok(&self) -> (ok: bool)
        ensures
            ok == (self@.len() == 0),
    {
        self.failures.len() == 0
    }

    /// The report of the run: one line for every failure, in the order of
    /// the failures, each with the node and the kind of its error.
    pub fn report(&self) -> (lines: Vec<String>)
        ensures
            lines.len() == self@.len(),
            forall|i: int| 0 <= i < lines.len() ==> (#[trigger] lines[i])@ == report_line(self@[i]),
    {
        let mut lines: Vec<String> = Vec::new();
        let mut i: usize = 0;
        while i < self.failures.len()
            invariant
                0 <= i <= self.failures.len(),
                self@.len() == self.failures.len(),
                lines.len() == i,
                forall|j: int| 0 <= j < i ==> (#[trigger] lines[j])@ == report_line(self@[j]),
            decreases self.failures.len() - i,
        {
            assert(self@[i as int] == self.failures[i as int]@);
            lines.push(self.failures[i].describe());
            i = i + 1;
        }
        lines
    }
}

/// The preparation of every node of a cluster by one task.
#[derive(Debug, PartialEq, Eq)]
pub struct Preparation {
    pub task: TaskDefinition,
}

impl Preparation {
    /// A preparation by the task `task`.
    pub fn new(task: TaskDefinition) -> (preparation: Preparation)
        ensures
            preparation.task@ == task@,
    {
        Preparation { task }
    }

    /// Begins the task on one node: checks the node's marker, and where the
    /// task is still due, asks for its pod.
    pub fn prepare_host(&self, node: &Node) -> (step: Step)
        ensures
            step@ == first_step(node@, self.task@),
    {
        let name = match &node.name {
            Some(name) => name.clone(),
            None => {
                let failure = NodeFailure {
                    node: None,
                    error: TaskError::MissingField(Field::NodeName),
                };
                let mut task = NodeTask {
                    node: String::new(),
                    task: self.task.clone(),
                    stage: Stage::Submitting,
                };
                let action = task.finish(Err(failure));
                return Step { task, action };
            },
        };
        let marker = match &self.task.marker {
            Some(marker) => marker,
            None => {
                return NodeTask::start(name, self.task.clone());
            },
        };
        let mut task = NodeTask { node: name, task: self.task.clone(), stage: Stage::Submitting };
        match &node.annotations {
            None => {
                let action = task.fail(TaskError::MissingField(Field::NodeAnnotations));
                Step { task, action }
            },
            Some(annotations) => {
                if annotations.satisfies(&marker.key, &marker.value) {
                    let action = task.finish(Ok(()));
                    Step { task, action }
                } else {
                    NodeTask::start(task.node, task.task)
                }
            },
        }
    }

    /// Begins the task on every listed node: one step per node, in the order
    /// of the listing, none depending on another.
    pub fn run(&self, nodes: &Vec<Node>) -> (steps: Vec<Step>)
        ensures
            steps.len() == nodes.len(),
            forall|i: int|
                0 <= i < nodes.len() ==> (#[trigger] steps[i])@ == first_step(
                    nodes[i]@,
                    self.task@,
                ),
    {
        let mut steps: Vec<Step> = Vec::new();
        let mut i: usize = 0;
        while i < nodes.len()
            invariant
                0 <= i <= nodes.len(),
                steps.len() == i,
                forall|j: int|
                    0 <= j < i ==> (#[trigger] steps[j])@ == first_step(nodes[j]@, self.task@),
            decreases nodes.len() - i,
        {
            steps.push(self.prepare_host(&nodes[i]));
            i = i + 1;
        }
        steps
    }

    /// Gathers the results of all tasks of a run, given in the order in
    /// which the tasks ended, into the result of the run.
    ///
    /// The run has succeeded if and only if every task has; it reports every
    /// failure, and only failures, in the order given.
    pub fn collect(results: Vec<TaskResult>) -> (aggregate: AggregateResult)
        ensures
            aggregate@ == failures_of(results@),
            aggregate@.len() == 0 <==> forall|i: int|
                0 <= i < results.len() ==> (#[trigger] results[i]) is Ok,
    {
        let mut failures: Vec<NodeFailure> = Vec::new();
        let mut i: usize = 0;
        while i < results.len()
            invariant
                0 <= i <= results.len(),
                failures.deep_view() == failures_of(results@.take(i as int)),
            decreases results.len() - i,
        {
            proof {
                let upto = results@.take(i + 1);
                assert(upto.drop_last() =~= results@.take(i as int));
                assert(upto.last() == results[i as int]);
            }
            let ghost before = failures.deep_view();
            match &results[i] {
                Ok(_) => {},
                Err(failure) => {
                    failures.push(failure.clone());
                    assert(failures.deep_view() =~= before.push(failure@));
                },
            }
            i = i + 1;
        }
        proof {
            assert(results@.take(i as int) =~= results@);
            lemma_no_failures_iff_all_ok(results@);
        }
        AggregateResult { failures }
    }
}

} // verus!
