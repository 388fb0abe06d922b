//! What defines a task: the pod it runs, the marker that records it, and the
//! time it may take.

use crate::ansible::podspec::playbook_pod;
use crate::pod::{standard_labels, Pod, PodView};
use crate::ssh_copy_id::podspec::copy_key_pod;
use vstd::prelude::*;

verus! {

/// The kind of pod a task runs on a node.
#[derive(Debug, PartialEq, Eq)]
pub enum PodRecipe {
    /// The pod that copies the manager's public key.
    CopySshKey,
    /// The pod that runs the playbook of an image under a job's name.
    Playbook { image: String, job: String },
}

pub enum PodRecipeView {
    CopySshKey,
    Playbook { image: Seq<char>, job: Seq<char> },
}

impl View for PodRecipe {
    type V = PodRecipeView;

    open spec fn view(&self) -> PodRecipeView {
        match self {
            PodRecipe::CopySshKey => PodRecipeView::CopySshKey,
            PodRecipe::Playbook { image, job } => PodRecipeView::Playbook {
                image: image@,
                job: job@,
            },
        }
    }
}

impl Clone for PodRecipe {
    fn clone(&self) -> (r: Self)
        ensures
            r@ == self@,
    {
        match self {
            PodRecipe::CopySshKey => PodRecipe::CopySshKey,
            PodRecipe::Playbook { image, job } => PodRecipe::Playbook {
                image: image.clone(),
                job: job.clone(),
            },
        }
    }
}

/// The pod of a recipe for the node `node`.
pub open spec fn pod_of(recipe: PodRecipeView, node: Seq<char>) -> PodView {
    match recipe {
        PodRecipeView::CopySshKey => copy_key_pod(node),
        PodRecipeView::Playbook { image, job } => playbook_pod(node, image, job),
    }
}

/// The name of the task that a recipe carries out, as the pod's labels give
/// it.
pub open spec fn task_name(recipe: PodRecipeView) -> Seq<char> {
    match recipe {
        PodRecipeView::CopySshKey => "copy-ssh-key"@,
        PodRecipeView::Playbook { image, job } => job,
    }
}

/// Every pod of every recipe is pinned to the node it is built for, carries
/// the application's label and the task's, and runs one container.
pub proof fn lemma_every_pod_is_pinned_and_labelled(recipe: PodRecipeView, node: Seq<char>)
    ensures
        pod_of(recipe, node).node_name == node,
        pod_of(recipe, node).labels == standard_labels(task_name(recipe)),
        pod_of(recipe, node).containers.len() == 1,
{
}

impl PodRecipe {
    /// Builds the pod of this recipe for the node `node_name`.
    pub fn make_pod(&self, node_name: &String) -> (pod: Pod)
        ensures
            pod@ == pod_of(self@, node_name@),
    {
        match self {
            PodRecipe::CopySshKey => crate::ssh_copy_id::podspec::make_pod(node_name),
            PodRecipe::Playbook { image, job } => crate::ansible::podspec::make_pod(
                node_name,
                image,
                job,
            ),
        }
    }

    /// The name of the pod of this recipe for the node `node_name`.
    pub fn pod_name(&self, node_name: &String) -> (name: String)
        ensures
            name@ == pod_of(self@, node_name@).name,
    {
        match self {
            PodRecipe::CopySshKey => crate::ssh_copy_id::podspec::name_pod(node_name),
            PodRecipe::Playbook { image: _, job } => crate::ansible::podspec::name_pod(
                node_name,
                job,
            ),
        }
    }
}

/// The annotation that records a task on a node.
#[derive(Debug, PartialEq, Eq)]
pub struct Marker {
    /// The key of the annotation.
    pub key: String,
    /// The value of the annotation which stands for "applied".
    pub value: String,
}

pub struct MarkerView {
    pub key: Seq<char>,
    pub value: Seq<char>,
}

impl DeepView for Marker {
    type V = MarkerView;

    open spec fn deep_view(&self) -> MarkerView {
        MarkerView { key: self.key@, value: self.value@ }
    }
}

impl View for Marker {
    type V = MarkerView;

    open spec fn view(&self) -> MarkerView {
        self.deep_view()
    }
}

impl Clone for Marker {
    fn clone(&self) -> (r: Self)
        ensures
            r@ == self@,
    {
        Marker { key: self.key.clone(), value: self.value.clone() }
    }
}

/// A task: what to run, how success is recorded, and how long to wait.
#[derive(Debug, PartialEq, Eq)]
pub struct TaskDefinition {
    /// The pod that carries the task out.
    pub recipe: PodRecipe,
    /// The marker that records the task on a node. A task without a marker
    /// is recorded nowhere: it is due on every node, and it ends when its
    /// pod does.
    pub marker: Option<Marker>,
    /// The seconds after which the wait for the pod is given up.
    pub deadline: u32,
}

pub struct TaskDefinitionView {
    pub recipe: PodRecipeView,
    pub marker: Option<MarkerView>,
    pub deadline: u32,
}

impl View for TaskDefinition {
    type V = TaskDefinitionView;

    open spec fn view(&self) -> TaskDefinitionView {
        TaskDefinitionView {
            recipe: self.recipe@,
            marker: self.marker.deep_view(),
            deadline: self.deadline,
        }
    }
}

impl Clone for TaskDefinition {
    fn clone(&self) -> (r: Self)
        ensures
            r@ == self@,
    {
        let marker = match &self.marker {
            Some(marker) => Some(marker.clone()),
            None => None,
        };
        TaskDefinition { recipe: self.recipe.clone(), marker, deadline: self.deadline }
    }
}

} // verus!
