//! Distribution of the manager's SSH key to every node.
//!
//! The task is recorded by a fixed marker: once a node carries it, the key
//! is never copied again.

pub mod podspec;

use crate::host::{first_step, submission, NodeTask, Step};
use crate::node::Node;
use crate::task::{
    Marker, MarkerView, PodRecipe, PodRecipeView, TaskDefinition, TaskDefinitionView,
};
use vstd::prelude::*;
use vstd::string::StringExecFns;

verus! {

/// The annotation that records the key on a node.
pub const ANNOTATION_SSH: &'static str = "cluster-manager/ssh";

/// The value of the annotation on a node that has the key.
pub const KEY_COPIED: &'static str = "true";

/// The seconds a key-copy pod is waited for.
pub const COPY_DEADLINE: u32 = 30;

/// The definition of the key-copy task.
pub open spec fn key_copy_task() -> TaskDefinitionView {
    TaskDefinitionView {
        recipe: PodRecipeView::CopySshKey,
        marker: Some(MarkerView { key: ANNOTATION_SSH@, value: KEY_COPIED@ }),
        deadline: COPY_DEADLINE,
    }
}

/// Defines the key-copy task.
pub fn task() -> (task: TaskDefinition)
    ensures
        task@ == key_copy_task(),
{
    TaskDefinition {
        recipe: PodRecipe::CopySshKey,
        marker: Some(
            Marker { key: String::from_str(ANNOTATION_SSH), value: String::from_str(KEY_COPIED) },
        ),
        deadline: COPY_DEADLINE,
    }
}

/// Begins the copy of the key onto the node `node_name`, whether or not the
/// node has the key already.
pub fn add_ssh_key(node_name: String) -> (step: Step)
    ensures
        step@ == submission(node_name@, key_copy_task()),
{
    NodeTask::start(node_name, task())
}

/// Begins the preparation of one node: a node that is marked as having the
/// key is left alone, any other gets the key-copy pod.
pub fn prepare_host(node: &Node) -> (step: Step)
    ensures
        step@ == first_step(node@, key_copy_task()),
{
    crate::host::Preparation::new(task()).prepare_host(node)
}

/// The preparation of all nodes for access by SSH.
pub struct Preparation {}

impl Preparation {
    /// Begins the preparation of every listed node.
    pub fn run(nodes: &Vec<Node>) -> (steps: Vec<Step>)
        ensures
            steps.len() == nodes.len(),
            forall|i: int|
                0 <= i < nodes.len() ==> (#[trigger] steps[i])@ == first_step(
                    nodes[i]@,
                    key_copy_task(),
                ),
    {
        crate::host::Preparation::new(task()).run(nodes)
    }
}

} // verus!
