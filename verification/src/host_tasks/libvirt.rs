//! Installation of libvirt on a node.

use crate::ansible::{playbook_task, playbook_task_of};
use crate::host::{first_step, Preparation, Step};
use crate::node::Node;
use crate::task::{TaskDefinition, TaskDefinitionView};
use vstd::prelude::*;

verus! {

/// The image that holds the playbook.
pub const RUNNER_IMAGE: &'static str = "registry.acl.fi/public/libvirt-install";

/// The digest of the image. A node is up to date when its marker has this
/// value.
pub const RUNNER_TAG: &'static str =
    "sha256:3018d6b716e843b9599aad1f446642252a9b7a2cbe717da91b54045205cd9d8f";

/// The name of the job.
pub const JOB: &'static str = "libvirt-install";

/// The annotation that records the task on a node.
pub const LIBVIRT_ANNOTATION: &'static str = "cluster-manager/libvirt";

/// The definition of the task.
pub open spec fn definition() -> TaskDefinitionView {
    playbook_task_of(RUNNER_IMAGE@, RUNNER_TAG@, JOB@, LIBVIRT_ANNOTATION@)
}

/// Defines the task.
pub fn task() -> (task: TaskDefinition)
    ensures
        task@ == definition(),
{
    playbook_task(RUNNER_IMAGE, RUNNER_TAG, JOB, LIBVIRT_ANNOTATION)
}

/// Begins the installation on every listed node: a node whose marker has the
/// digest of the image is left alone, any other gets the playbook's pod.
pub fn run(nodes: &Vec<Node>) -> (steps: Vec<Step>)
    ensures
        steps.len() == nodes.len(),
        forall|i: int|
            0 <= i < nodes.len() ==> (#[trigger] steps[i])@ == first_step(nodes[i]@, definition()),
{
    Preparation::new(task()).run(nodes)
}

} // verus!
