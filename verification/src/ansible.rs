//! Tasks that apply a playbook to a node.
//!
//! A playbook comes as an image that is addressed by its digest. The digest
//! is also the value of the task's marker, so that a node is visited again
//! whenever the image changes.

pub mod podspec;

use crate::ansible::podspec::{playbook_pod, pod_name};
use crate::errors::{NodeFailureView, TaskErrorView};
use crate::host::laws::{failure_of, lemma_performed_is_owed, performed, Answers};
use crate::host::{first_step, submission, ActionView, Preparation, Step};
use crate::node::NodeView;
use crate::utils::monitor_result;
use crate::node::Node;
use crate::task::{
    Marker, MarkerView, PodRecipe, PodRecipeView, TaskDefinition, TaskDefinitionView,
};
use vstd::prelude::*;
use vstd::string::StringExecFns;

verus! {

/// The seconds a playbook pod is waited for.
pub const PLAYBOOK_DEADLINE: u32 = 120;

/// The reference to the image `image` at the digest `tag`.
pub open spec fn image_reference(image: Seq<char>, tag: Seq<char>) -> Seq<char> {
    image + "@"@ + tag
}

/// The definition of the task that runs the playbook of `image` at `tag`
/// under the job name `job`, and is recorded under `marker_key`.
pub open spec fn playbook_task_of(
    image: Seq<char>,
    tag: Seq<char>,
    job: Seq<char>,
    marker_key: Seq<char>,
) -> TaskDefinitionView {
    TaskDefinitionView {
        recipe: PodRecipeView::Playbook { image: image_reference(image, tag), job },
        marker: Some(MarkerView { key: marker_key, value: tag }),
        deadline: PLAYBOOK_DEADLINE,
    }
}

/// Defines the task that runs the playbook of `image` at `tag` under the job
/// name `job`. The task is recorded under `marker_key` by the value `tag`.
pub fn playbook_task(image: &str, tag: &str, job: &str, marker_key: &str) -> (task: TaskDefinition)
    ensures
        task@ == playbook_task_of(image@, tag@, job@, marker_key@),
{
    let mut reference = String::from_str(image);
    reference.append("@");
    reference.append(tag);
    TaskDefinition {
        recipe: PodRecipe::Playbook { image: reference, job: String::from_str(job) },
        marker: Some(Marker { key: String::from_str(marker_key), value: String::from_str(tag) }),
        deadline: PLAYBOOK_DEADLINE,
    }
}

/// The definition of one application of the playbook in `image` under the
/// job name `job`: the pod is created and waited for, and nothing is
/// recorded.
pub open spec fn playbook_of(image: Seq<char>, job: Seq<char>) -> TaskDefinitionView {
    TaskDefinitionView {
        recipe: PodRecipeView::Playbook { image, job },
        marker: None,
        deadline: PLAYBOOK_DEADLINE,
    }
}

/// Begins one application of the playbook in `image`, a full reference to
/// the image, to the node `node` under the job name `job`.
///
/// The node's markers are neither read nor written: the playbook's pod is to
/// be created on every node that has a name, the task ends with the result
/// of the wait for that pod, and the node is never patched. Recording the
/// application is left to the caller.
pub fn apply_playbook(node: &Node, image: &String, job: &String) -> (step: Step)
    ensures
        step@ == first_step(node@, playbook_of(image@, job@)),
{
    let task = TaskDefinition {
        recipe: PodRecipe::Playbook { image: image.clone(), job: job.clone() },
        marker: None,
        deadline: PLAYBOOK_DEADLINE,
    };
    Preparation::new(task).prepare_host(node)
}

/// What one application of a playbook to a named node amounts to: the
/// playbook's pod is the first thing asked for, whatever annotations the
/// node has; a refused pod is a submission error; otherwise the result is
/// that of the wait for the pod named after node and job.
pub proof fn lemma_playbook_is_submitted_and_waited_for(
    node: NodeView,
    image: Seq<char>,
    job: Seq<char>,
    answers: Answers,
)
    requires
        node.name is Some,
    ensures
        first_step(node, playbook_of(image, job)) == submission(
            node.name->0,
            playbook_of(image, job),
        ),
        first_step(node, playbook_of(image, job)).action == ActionView::Create(
            playbook_pod(node.name->0, image, job),
        ),
        performed(node, playbook_of(image, job), answers) == match answers.created {
            Some(refusal) => failure_of(node.name->0, TaskErrorView::Submission(refusal)),
            None => match monitor_result(pod_name(node.name->0, job), answers.stream) {
                Some(error) => failure_of(node.name->0, error),
                None => None::<NodeFailureView>,
            },
        },
{
    lemma_performed_is_owed(node, playbook_of(image, job), answers);
}

} // verus!
