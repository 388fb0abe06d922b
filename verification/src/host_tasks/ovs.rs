//! Conversion of a node's network to Open vSwitch.

use crate::ansible::{playbook_task, playbook_task_of};
use crate::host::{first_step, Preparation, Step};
use crate::node::Node;
use crate::task::{TaskDefinition, TaskDefinitionView};
use vstd::prelude::*;

verus! {

/// The image that holds the playbook.
pub const RUNNER_IMAGE: &'static str = "registry.acl.fi/public/ovs-convert";

/// The digest of the image. A node is up to date when its marker has this
/// value.
pub const RUNNER_TAG: &'static str =
    "sha256:4a39bf25427f70425e128a7f9eb210d7cabb3740f704ef49d955302fcaced858";

/// The name of the job.
pub const JOB: &'static str = "ovs-convert";

/// The annotation that records the task on a node.
pub const OVS_ANNOTATION: &'static str = "cluster-manager/ovs";

/// The definition of the task.
pub open spec fn definition() -> TaskDefinitionView {
    playbook_task_of(RUNNER_IMAGE@, RUNNER_TAG@, JOB@, OVS_ANNOTATION@)
}

/// Defines the task.
pub fn task() -> (task: TaskDefinition)
    ensures
        task@ == definition(),
{
    playbook_task(RUNNER_IMAGE, RUNNER_TAG, JOB, OVS_ANNOTATION)
}

/// Begins the conversion on every listed node: a node whose marker has the
/// digest of the image is left alone, any other gets the playbook's pod.
pub fn run(nodes: &Vec<Node>) -> (steps: Vec<Step>)
    ensures
        steps.len() == nodes.len(),
        forall|i: int|
            0 <= i < nodes.len() ==> (#[trigger] steps[i])@ == first_step(nodes[i]@, definition()),
{
    Preparation::new(task()).run(nodes)
}

} // verus!
