//! The namespace in which the tasks' pods run.

use crate::errors::{error_of, refusal, ApiFailure, ApiFailureView, TaskError, TaskErrorView};
use vstd::prelude::*;
use vstd::string::StringExecFns;

verus! {

/// The reason of a refusal under which a missing namespace is recognised.
pub const REASON_MISSING: &'static str = "NoFound";

/// What to do about the namespace once it has been looked up.
#[derive(Debug, PartialEq, Eq)]
pub enum NamespaceAction {
    /// Nothing: the namespace exists.
    Keep,
    /// Create the namespace of this name.
    Create(String),
    /// Give up with this error.
    Fail(TaskError),
}

pub enum NamespaceActionView {
    Keep,
    Create(Seq<char>),
    Fail(TaskErrorView),
}

impl View for NamespaceAction {
    type V = NamespaceActionView;

    open spec fn view(&self) -> NamespaceActionView {
        match self {
            NamespaceAction::Keep => NamespaceActionView::Keep,
            NamespaceAction::Create(name) => NamespaceActionView::Create(name@),
            NamespaceAction::Fail(e) => NamespaceActionView::Fail(e@),
        }
    }
}

/// The action that a lookup of the namespace `name` calls for: none if the
/// namespace was found, its creation if the lookup was refused for the
/// reason [`REASON_MISSING`], and failure on any other refusal.
pub open spec fn namespace_action(
    name: Seq<char>,
    lookup: Option<ApiFailureView>,
) -> NamespaceActionView {
    match lookup {
        None => NamespaceActionView::Keep,
        Some(refusal) => if refusal.reason == REASON_MISSING@ {
            NamespaceActionView::Create(name)
        } else {
            NamespaceActionView::Fail(TaskErrorView::Transport(refusal))
        },
    }
}

/// Decides what to do about the namespace `name`, given how its lookup
/// ended.
pub fn ensure_namespace(name: &str, lookup: Result<(), ApiFailure>) -> (action: NamespaceAction)
    ensures
        action@ == namespace_action(name@, refusal(lookup)),
{
    match lookup {
        Ok(_) => NamespaceAction::Keep,
        Err(refusal) => {
            if refusal.reason == String::from_str(REASON_MISSING) {
                NamespaceAction::Create(String::from_str(name))
            } else {
                NamespaceAction::Fail(TaskError::Transport(refusal))
            }
        },
    }
}

/// The result of the bootstrap step once the namespace's creation was
/// answered: a refusal is a transport error.
pub fn namespace_created(answer: Result<(), ApiFailure>) -> (r: Result<(), TaskError>)
    ensures
        error_of(r) == match answer {
            Ok(_) => None,
            Err(f) => Some(TaskErrorView::Transport(f@)),
        },
{
    match answer {
        Ok(_) => Ok(()),
        Err(refusal) => Err(TaskError::Transport(refusal)),
    }
}

} // verus!
