//! Preparation of cluster hosts by short-lived pods, as a library without I/O.
//!
//! Every decision of the per-node workflow is a function from plain values to
//! plain values: whether a node still needs a task, which pod to submit, how a
//! stream of pod notifications ends, which annotation records success, and how
//! the results of all nodes make up the result of a run. A driver performs the
//! calls against the cluster and feeds back what the cluster answered.
//!
//! - [`node`]: nodes, their annotations, and the idempotency guard.
//! - [`pod`], [`task`]: the description of a pod, and what defines a task.
//! - [`ssh_copy_id`], [`ansible`], [`host_tasks`]: the tasks themselves.
//! - [`utils`]: the lifecycle monitor.
//! - [`patch`], [`json`]: the marker updater.
//! - [`host`]: one node's task as a state machine, and the run over all nodes.
//! - [`namespace`], [`ssh`]: what a run needs in place before it starts.
//! - [`errors`]: what can go wrong.

pub mod ansible;
pub mod errors;
pub mod host;
pub mod host_tasks;
pub mod json;
pub mod namespace;
pub mod node;
pub mod patch;
pub mod pod;
pub mod ssh;
pub mod ssh_copy_id;
pub mod task;
pub mod utils;
