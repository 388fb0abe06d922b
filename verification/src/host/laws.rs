//! What holds of every task and of every run.

use crate::errors::{
    outcome, ApiFailureView, Field, NodeFailureView, PersistFailureView, TaskErrorView,
    TaskResult,
};
use crate::host::{
    after_success, failed, failures_of, finished, first_step, next_step, submission, ActionView,
    EventView, NodeTaskView, StageView, StepView,
};
use crate::node::{marker_satisfied, NodeView};
use crate::patch::marker_patch_of;
use crate::task::{pod_of, TaskDefinitionView};
use crate::utils::{classify, monitor_result, undecided_prefix, WatchEventView};
use vstd::prelude::*;

verus! {

/// A node that carries the task's marker with the expected value is done at
/// once and with success: the first action is no call to the cluster, and no
/// event whatever makes the task ask for one later.
pub proof fn lemma_marked_node_is_left_alone(
    node: NodeView,
    task: TaskDefinitionView,
    event: EventView,
)
    requires
        node.name is Some,
        node.annotations is Some,
        task.marker is Some,
        marker_satisfied(node.annotations->0, task.marker->0.key, task.marker->0.value),
    ensures
        first_step(node, task).action == ActionView::Done(None),
        first_step(node, task).task.stage == StageView::Done(None),
        next_step(first_step(node, task).task, event) == first_step(node, task),
{
}

/// A marker with another value than the expected one counts like no marker:
/// a node that carries the key with a stale value and a node that lacks the
/// key get the same first step, the submission of the task's pod.
pub proof fn lemma_stale_marker_is_no_marker(
    name: Seq<char>,
    stale: Map<Seq<char>, Seq<char>>,
    blank: Map<Seq<char>, Seq<char>>,
    task: TaskDefinitionView,
)
    requires
        task.marker is Some,
        stale.dom().contains(task.marker->0.key),
        stale[task.marker->0.key] != task.marker->0.value,
        !blank.dom().contains(task.marker->0.key),
    ensures
        first_step(NodeView { name: Some(name), annotations: Some(stale) }, task) == first_step(
            NodeView { name: Some(name), annotations: Some(blank) },
            task,
        ),
        first_step(NodeView { name: Some(name), annotations: Some(stale) }, task) == submission(
            name,
            task,
        ),
{
}

/// A task that has ended stays as it is, whatever its driver reports.
pub proof fn lemma_done_stays_done(from: NodeTaskView, event: EventView)
    requires
        from.stage is Done,
    ensures
        next_step(from, event).task == from,
        next_step(from, event).action == ActionView::Done(from.stage->Done_0),
{
}

/// A failure is reported under the name of the node whose task failed, and
/// the marker is asked to be written only for a pod that succeeded.
pub proof fn lemma_steps_keep_to_their_node(from: NodeTaskView, event: EventView)
    requires
        !(from.stage is Done),
    ensures
        next_step(from, event).task.node == from.node,
        next_step(from, event).task.task == from.task,
        next_step(from, event).action matches ActionView::Done(Some(failure))
            ==> failure.node == Some(from.node),
        next_step(from, event).action matches ActionView::Patch(patch) ==> {
            &&& patch.node == from.node
            &&& from.task.marker matches Some(marker)
            &&& patch.body == marker_patch_of(marker.key, marker.value)
            &&& from.stage is Watching
            &&& event matches EventView::Notification(e)
            &&& classify(pod_of(from.task.recipe, from.node).name, e) is Succeeded
        },
{
}

/// A task without a marker never asks for a patch: when its pod succeeds,
/// the task ends with success.
pub proof fn lemma_unrecorded_task_never_patches(from: NodeTaskView, event: EventView)
    requires
        from.task.marker is None,
    ensures
        !(next_step(from, event).action is Patch),
        !(next_step(from, event).task.stage is Persisting),
        from.stage is Watching ==> (event matches EventView::Notification(e) ==> (classify(
            pod_of(from.task.recipe, from.node).name,
            e,
        ) is Succeeded ==> next_step(from, event) == finished(from.node, from.task, None))),
{
}

/// The place of a stage in the order of a task's steps: the pod is created
/// before it is watched, watched before the marker is written, and the
/// marker is written before the task is done.
pub open spec fn stage_rank(stage: StageView) -> nat {
    match stage {
        StageView::Submitting => 0,
        StageView::Watching => 1,
        StageView::Persisting => 2,
        StageView::Done(_) => 3,
    }
}

/// A task never goes back: every answer takes it to a later stage, except
/// that a watching task which asks for the next notification keeps watching,
/// and that a finished task stays finished. The next action fits the stage
/// that was reached.
pub proof fn lemma_steps_go_forward(from: NodeTaskView, event: EventView)
    ensures
        stage_rank(next_step(from, event).task.stage) >= stage_rank(from.stage),
        stage_rank(next_step(from, event).task.stage) == stage_rank(from.stage) ==> {
            ||| from.stage is Done
            ||| from.stage is Watching && next_step(from, event).action is Next
        },
        match next_step(from, event).task.stage {
            StageView::Submitting => false,
            StageView::Watching => {
                ||| next_step(from, event).action is Watch
                ||| next_step(from, event).action is Next
            },
            StageView::Persisting => next_step(from, event).action is Patch,
            StageView::Done(result) => next_step(from, event).action == ActionView::Done(result),
        },
{
}

/// Where a watching task arrives when its driver reports the notifications
/// of `stream` one by one, for as long as the task asks for the next one, and
/// then the end of the stream.
pub open spec fn watch_through(from: NodeTaskView, stream: Seq<WatchEventView>) -> StepView
    decreases stream.len(),
{
    if stream.len() == 0 {
        next_step(from, EventView::StreamEnded)
    } else {
        let step = next_step(from, EventView::Notification(stream[0]));
        if step.action is Next {
            watch_through(step.task, stream.drop_first())
        } else {
            step
        }
    }
}

/// The step of a watching task whose wait has ended with `result`: after an
/// error the end of the task, after a success the marker's patch or, for a
/// task without a marker, the end of the task.
pub open spec fn after_wait(from: NodeTaskView, result: Option<TaskErrorView>) -> StepView {
    match result {
        Some(error) => failed(from.node, from.task, error),
        None => after_success(from.node, from.task),
    }
}

/// A watching task ends its wait exactly as the lifecycle monitor does on
/// the same stream: with the verdict of the first notification that decides,
/// or with a timeout.
pub proof fn lemma_task_waits_like_the_monitor(from: NodeTaskView, stream: Seq<WatchEventView>)
    requires
        from.stage is Watching,
    ensures
        watch_through(from, stream) == after_wait(
            from,
            monitor_result(pod_of(from.task.recipe, from.node).name, stream),
        ),
    decreases stream.len(),
{
    let pod = pod_of(from.task.recipe, from.node).name;
    if stream.len() > 0 {
        let step = next_step(from, EventView::Notification(stream[0]));
        if classify(pod, stream[0]) is Waiting {
            assert(step.task == from);
            lemma_task_waits_like_the_monitor(from, stream.drop_first());
            let rest = stream.drop_first();
            let k = undecided_prefix(pod, rest) as int;
            if k < rest.len() {
                assert(rest[k] == stream[k + 1]);
            }
        }
    }
}

/// What a cluster answers to one task, from the creation of the pod to the
/// patch of the node. An answer that the task never asks for is not read.
pub struct Answers {
    /// The answer to the creation of the pod: the refusal, if it was refused.
    pub created: Option<ApiFailureView>,
    /// The notifications that the watch delivers before it ends.
    pub stream: Seq<WatchEventView>,
    /// The answer to the patch of the node: the refusal, if it was refused.
    pub patched: Option<ApiFailureView>,
}

/// The result of a step whose task has ended.
pub open spec fn result_of(step: StepView) -> Option<NodeFailureView>
    recommends
        step.action is Done,
{
    step.action->Done_0
}

/// The result of the task `task` on the node `node` when a driver performs
/// every action the task asks for and the cluster answers with `answers`.
pub open spec fn performed(
    node: NodeView,
    task: TaskDefinitionView,
    answers: Answers,
) -> Option<NodeFailureView> {
    let begun = first_step(node, task);
    if begun.action is Done {
        result_of(begun)
    } else {
        let submitted = next_step(begun.task, EventView::Created(answers.created));
        if submitted.action is Done {
            result_of(submitted)
        } else {
            let waited = watch_through(submitted.task, answers.stream);
            if waited.action is Done {
                result_of(waited)
            } else {
                result_of(next_step(waited.task, EventView::Patched(answers.patched)))
            }
        }
    }
}

/// The failure of a node under its name.
pub open spec fn failure_of(name: Seq<char>, error: TaskErrorView) -> Option<NodeFailureView> {
    Some(NodeFailureView { node: Some(name), error })
}

/// Whether a node carries the marker of a task with the expected value.
pub open spec fn is_marked(node: NodeView, task: TaskDefinitionView) -> bool {
    &&& task.marker matches Some(marker)
    &&& node.annotations matches Some(annotations)
    &&& marker_satisfied(annotations, marker.key, marker.value)
}

/// The result that a task owes, step by step: the guard first, then the
/// submission of the pod, then the wait for it, then the marker. The first
/// step that fails gives the task its result, under the node's name. A task
/// without a marker owes the guard and the marker nothing: its result is
/// that of the submission and of the wait.
pub open spec fn owed(
    node: NodeView,
    task: TaskDefinitionView,
    answers: Answers,
) -> Option<NodeFailureView> {
    if node.name is None {
        Some(NodeFailureView { node: None, error: TaskErrorView::MissingField(Field::NodeName) })
    } else if task.marker is Some && node.annotations is None {
        failure_of(node.name->0, TaskErrorView::MissingField(Field::NodeAnnotations))
    } else if is_marked(node, task) {
        None
    } else if answers.created is Some {
        failure_of(node.name->0, TaskErrorView::Submission(answers.created->0))
    } else if monitor_result(
        pod_of(task.recipe, node.name->0).name,
        answers.stream,
    ) is Some {
        failure_of(
            node.name->0,
            monitor_result(pod_of(task.recipe, node.name->0).name, answers.stream)->0,
        )
    } else if task.marker is Some && answers.patched is Some {
        failure_of(
            node.name->0,
            TaskErrorView::MarkerPersist(PersistFailureView::Rejected(answers.patched->0)),
        )
    } else {
        None
    }
}

/// Every task that is performed ends, with exactly the result it owes.
pub proof fn lemma_performed_is_owed(node: NodeView, task: TaskDefinitionView, answers: Answers)
    ensures
        performed(node, task, answers) == owed(node, task, answers),
{
    let begun = first_step(node, task);
    if !(begun.action is Done) {
        let submitted = next_step(begun.task, EventView::Created(answers.created));
        if !(submitted.action is Done) {
            lemma_task_waits_like_the_monitor(submitted.task, answers.stream);
        }
    }
}

/// There are no failures if and only if every result is a success. A run
/// over no nodes at all has no failures.
pub proof fn lemma_no_failures_iff_all_ok(results: Seq<TaskResult>)
    ensures
        failures_of(results).len() == 0 <==> forall|i: int|
            0 <= i < results.len() ==> (#[trigger] results[i]) is Ok,
        failures_of(results).len() <= results.len(),
    decreases results.len(),
{
    if results.len() > 0 {
        let init = results.drop_last();
        lemma_no_failures_iff_all_ok(init);
        assert(results.last() == results[results.len() - 1]);
        if failures_of(results).len() == 0 {
            assert forall|i: int| 0 <= i < results.len() implies (#[trigger] results[i]) is Ok by {
                if i < init.len() {
                    assert(init[i] == results[i]);
                }
            }
        }
        if forall|i: int| 0 <= i < results.len() ==> (#[trigger] results[i]) is Ok {
            assert forall|i: int| 0 <= i < init.len() implies (#[trigger] init[i]) is Ok by {
                assert(init[i] == results[i]);
            }
        }
    }
}

/// Every failure of a run is the failure of one of its results, and every
/// failed result is among the failures.
pub proof fn lemma_failures_are_the_failed_results(results: Seq<TaskResult>)
    ensures
        forall|k: int|
            0 <= k < failures_of(results).len() ==> exists|i: int|
                0 <= i < results.len() && outcome(#[trigger] results[i]) == Some(
                    #[trigger] failures_of(results)[k],
                ),
        forall|i: int|
            0 <= i < results.len() && (#[trigger] results[i]) is Err ==> failures_of(
                results,
            ).contains(results[i]->Err_0@),
    decreases results.len(),
{
    if results.len() > 0 {
        let init = results.drop_last();
        let last = results.last();
        lemma_failures_are_the_failed_results(init);
        assert(last == results[results.len() - 1]);
        assert forall|k: int| 0 <= k < failures_of(results).len() implies exists|i: int|
            0 <= i < results.len() && outcome(#[trigger] results[i]) == Some(
                #[trigger] failures_of(results)[k],
            ) by {
            if k < failures_of(init).len() {
                let i = choose|i: int|
                    0 <= i < init.len() && outcome(#[trigger] init[i]) == Some(
                        #[trigger] failures_of(init)[k],
                    );
                assert(init[i] == results[i]);
                assert(failures_of(results)[k] == failures_of(init)[k]);
            } else {
                assert(outcome(results[results.len() - 1]) == Some(failures_of(results)[k]));
            }
        }
        assert forall|i: int|
            0 <= i < results.len() && (#[trigger] results[i]) is Err implies failures_of(
            results,
        ).contains(results[i]->Err_0@) by {
            if i < init.len() {
                assert(init[i] == results[i]);
                let k = choose|k: int|
                    0 <= k < failures_of(init).len() && failures_of(init)[k] == init[i]->Err_0@;
                assert(failures_of(results)[k] == failures_of(init)[k]);
            } else {
                let k = failures_of(results).len() - 1;
                assert(failures_of(results)[k] == results[i]->Err_0@);
            }
        }
    }
}

} // verus!
