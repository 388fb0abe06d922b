use cluster_manager::errors::{
    ApiFailure, Field, NodeFailure, PersistFailure, PodFailure, TaskError, TaskResult, Timeout,
};
use cluster_manager::host::{
    listed, worker_aborted, Action, AggregateResult, Event, MarkerPatch, NodeTask, Preparation,
    Stage, Step,
};
use cluster_manager::host_tasks::{libvirt, ovs};
use cluster_manager::node::{Annotations, Node};
use cluster_manager::task::{Marker, PodRecipe, TaskDefinition};
use cluster_manager::utils::{PodStatus, WatchEvent, WatchRequest};

fn text(s: &str) -> String {
    s.to_string()
}

fn node(name: &str, annotations: &[(&str, &str)]) -> Node {
    let mut ledger = Annotations::new();
    for (key, value) in annotations {
        ledger.insert(text(key), text(value));
    }
    Node { name: Some(text(name)), annotations: Some(ledger) }
}

fn changed(phase: &str) -> Event {
    Event::Notification(WatchEvent::Modified(Some(PodStatus { phase: Some(text(phase)) })))
}

fn refusal(reason: &str, code: u16) -> ApiFailure {
    ApiFailure { status: text("Failure"), message: text("no"), reason: text(reason), code }
}

fn failure(node: &str, error: TaskError) -> NodeFailure {
    NodeFailure { node: Some(text(node)), error }
}

/// Performs a task against a cluster that answers with `events`, and hands
/// back every action the task asked for.
fn drive(step: Step, events: Vec<Event>) -> (Vec<Action>, NodeTask) {
    let Step { mut task, action } = step;
    let mut actions = vec![action];
    for event in events {
        if task.is_done() {
            break;
        }
        actions.push(task.step(event));
    }
    (actions, task)
}

fn result_of(actions: &[Action]) -> Option<TaskResult> {
    match actions.last() {
        Some(Action::Done(result)) => Some(result.clone()),
        _ => None,
    }
}

const SSH_PATCH: &str = "{\"metadata\":{\"annotations\":{\"cluster-manager/ssh\":\"true\"}}}";

#[test]
fn the_key_copy_task_is_defined() {
    let task = cluster_manager::ssh_copy_id::task();
    assert_eq!(
        task,
        TaskDefinition {
            recipe: PodRecipe::CopySshKey,
            marker: Some(Marker { key: text("cluster-manager/ssh"), value: text("true") }),
            deadline: 30,
        }
    );
}

#[test]
fn the_playbook_tasks_are_defined() {
    assert_eq!(
        ovs::task(),
        TaskDefinition {
            recipe: PodRecipe::Playbook {
                image: text(
                    "registry.acl.fi/public/ovs-convert@sha256:4a39bf25427f70425e128a7f9eb210d7cabb3740f704ef49d955302fcaced858"
                ),
                job: text("ovs-convert"),
            },
            marker: Some(Marker {
                key: text("cluster-manager/ovs"),
                value: text(
                    "sha256:4a39bf25427f70425e128a7f9eb210d7cabb3740f704ef49d955302fcaced858"
                ),
            }),
            deadline: 120,
        }
    );
    assert_eq!(
        libvirt::task(),
        TaskDefinition {
            recipe: PodRecipe::Playbook {
                image: text(
                    "registry.acl.fi/public/libvirt-install@sha256:3018d6b716e843b9599aad1f446642252a9b7a2cbe717da91b54045205cd9d8f"
                ),
                job: text("libvirt-install"),
            },
            marker: Some(Marker {
                key: text("cluster-manager/libvirt"),
                value: text(
                    "sha256:3018d6b716e843b9599aad1f446642252a9b7a2cbe717da91b54045205cd9d8f"
                ),
            }),
            deadline: 120,
        }
    );
}

#[test]
fn a_playbook_task_is_marked_by_its_digest() {
    let task = cluster_manager::ansible::playbook_task("img", "sha256:7", "job", "key");
    assert_eq!(
        task,
        TaskDefinition {
            recipe: PodRecipe::Playbook { image: text("img@sha256:7"), job: text("job") },
            marker: Some(Marker { key: text("key"), value: text("sha256:7") }),
            deadline: 120,
        }
    );
}

#[test]
fn a_marked_node_is_left_alone() {
    let marked = node("alpha", &[("other", "x"), ("cluster-manager/ssh", "true")]);
    let step = cluster_manager::ssh_copy_id::prepare_host(&marked);
    assert_eq!(step.action, Action::Done(Ok(())));
    assert_eq!(step.task.stage, Stage::Done(Ok(())));
    let (actions, task) = drive(step, vec![Event::Created(Ok(())), changed("Succeeded")]);
    assert_eq!(actions, vec![Action::Done(Ok(()))]);
    assert!(task.is_done());
}

#[test]
fn a_finished_task_ignores_every_event() {
    let marked = node("alpha", &[("cluster-manager/ssh", "true")]);
    let Step { mut task, action } = cluster_manager::ssh_copy_id::prepare_host(&marked);
    assert_eq!(action, Action::Done(Ok(())));
    assert_eq!(task.step(Event::Created(Ok(()))), Action::Done(Ok(())));
    assert_eq!(task.step(changed("Failed")), Action::Done(Ok(())));
    assert_eq!(task.step(Event::StreamEnded), Action::Done(Ok(())));
    assert_eq!(task.step(Event::Patched(Err(refusal("Conflict", 409)))), Action::Done(Ok(())));
    assert_eq!(task.stage, Stage::Done(Ok(())));
}

#[test]
fn a_stale_marker_counts_like_no_marker() {
    let stale = node("beta", &[("cluster-manager/ovs", "sha256:old")]);
    let blank = node("beta", &[]);
    let from_stale = Preparation::new(ovs::task()).prepare_host(&stale);
    let from_blank = Preparation::new(ovs::task()).prepare_host(&blank);
    assert_eq!(from_stale, from_blank);
    assert_eq!(from_stale.task.stage, Stage::Submitting);
    match &from_stale.action {
        Action::Create(pod) => {
            assert_eq!(pod.name, "ansible-beta-ovs-convert");
            assert_eq!(pod.node_name, "beta");
        }
        other => panic!("expected a pod, got {:?}", other),
    }
}

#[test]
fn a_sentinel_with_another_value_is_stale_too() {
    let odd = node("alpha", &[("cluster-manager/ssh", "false")]);
    let step = cluster_manager::ssh_copy_id::prepare_host(&odd);
    assert_eq!(step, cluster_manager::ssh_copy_id::add_ssh_key(text("alpha")));
}

#[test]
fn the_last_value_of_an_annotation_counts() {
    let mut ledger = Annotations::new();
    assert_eq!(ledger.get(&text("k")), None);
    ledger.insert(text("k"), text("old"));
    ledger.insert(text("other"), text("x"));
    ledger.insert(text("k"), text("new"));
    assert_eq!(ledger.get(&text("k")), Some(&text("new")));
    assert_eq!(ledger.get(&text("other")), Some(&text("x")));
    assert_eq!(ledger.get(&text("absent")), None);
    assert!(ledger.satisfies(&text("k"), &text("new")));
    assert!(!ledger.satisfies(&text("k"), &text("old")));
    assert!(!ledger.satisfies(&text("absent"), &text("")));
}

#[test]
fn a_current_digest_skips_the_playbook() {
    let current = node(
        "beta",
        &[(
            "cluster-manager/libvirt",
            "sha256:3018d6b716e843b9599aad1f446642252a9b7a2cbe717da91b54045205cd9d8f",
        )],
    );
    let steps = libvirt::run(&vec![current]);
    assert_eq!(steps.len(), 1);
    assert_eq!(steps[0].action, Action::Done(Ok(())));
    let for_other_task = ovs::run(&vec![node(
        "beta",
        &[(
            "cluster-manager/libvirt",
            "sha256:3018d6b716e843b9599aad1f446642252a9b7a2cbe717da91b54045205cd9d8f",
        )],
    )]);
    assert_eq!(for_other_task[0].task.stage, Stage::Submitting);
}

#[test]
fn a_task_runs_from_pod_to_marker() {
    let step = cluster_manager::ssh_copy_id::prepare_host(&node("alpha", &[]));
    let (actions, task) = drive(
        step,
        vec![
            Event::Created(Ok(())),
            Event::Notification(WatchEvent::Added),
            changed("Pending"),
            changed("Running"),
            changed("Succeeded"),
            Event::Patched(Ok(())),
        ],
    );
    assert_eq!(actions.len(), 7);
    assert_eq!(
        actions[0],
        Action::Create(cluster_manager::ssh_copy_id::podspec::make_pod(&text("alpha")))
    );
    assert_eq!(
        actions[1],
        Action::Watch(WatchRequest {
            field_selector: text("metadata.name=add-ssh-key-alpha"),
            timeout: 30,
            resource_version: text("0"),
        })
    );
    assert_eq!(actions[2], Action::Next);
    assert_eq!(actions[3], Action::Next);
    assert_eq!(actions[4], Action::Next);
    assert_eq!(
        actions[5],
        Action::Patch(MarkerPatch { node: text("alpha"), body: SSH_PATCH.as_bytes().to_vec() })
    );
    assert_eq!(actions[6], Action::Done(Ok(())));
    assert_eq!(task.stage, Stage::Done(Ok(())));
}

#[test]
fn a_playbook_is_watched_for_two_minutes() {
    let step = Preparation::new(ovs::task()).prepare_host(&node("n", &[]));
    let (actions, _) = drive(step, vec![Event::Created(Ok(()))]);
    assert_eq!(
        actions[1],
        Action::Watch(WatchRequest {
            field_selector: text("metadata.name=ansible-n-ovs-convert"),
            timeout: 120,
            resource_version: text("0"),
        })
    );
}

#[test]
fn a_playbook_is_recorded_by_its_digest() {
    let task = cluster_manager::ansible::playbook_task("img", "sha256:7", "job", "key");
    let step = Preparation::new(task).prepare_host(&node("n", &[]));
    let (actions, _) = drive(step, vec![Event::Created(Ok(())), changed("Succeeded")]);
    assert_eq!(
        actions[2],
        Action::Patch(MarkerPatch {
            node: text("n"),
            body: "{\"metadata\":{\"annotations\":{\"key\":\"sha256:7\"}}}".as_bytes().to_vec(),
        })
    );
}

#[test]
fn applying_a_playbook_creates_the_pod_and_waits() {
    let step = cluster_manager::ansible::apply_playbook(
        &node("n", &[("key", "sha256:7")]),
        &text("img@sha256:7"),
        &text("job"),
    );
    assert_eq!(
        step.task.task,
        TaskDefinition {
            recipe: PodRecipe::Playbook { image: text("img@sha256:7"), job: text("job") },
            marker: None,
            deadline: 120,
        }
    );
    let (actions, task) = drive(
        step,
        vec![
            Event::Created(Ok(())),
            changed("Pending"),
            changed("Running"),
            changed("Succeeded"),
            Event::Patched(Ok(())),
        ],
    );
    assert_eq!(
        actions,
        vec![
            Action::Create(cluster_manager::ansible::podspec::make_pod(
                &text("n"),
                &text("img@sha256:7"),
                &text("job")
            )),
            Action::Watch(WatchRequest {
                field_selector: text("metadata.name=ansible-n-job"),
                timeout: 120,
                resource_version: text("0"),
            }),
            Action::Next,
            Action::Next,
            Action::Done(Ok(())),
        ]
    );
    assert_eq!(task.stage, Stage::Done(Ok(())));
}

#[test]
fn applying_a_playbook_never_patches_the_node() {
    let scripts = vec![
        vec![Event::Created(Ok(())), changed("Succeeded")],
        vec![Event::Created(Ok(())), changed("Running"), changed("Failed")],
        vec![Event::Created(Ok(())), Event::StreamEnded],
        vec![Event::Created(Err(refusal("AlreadyExists", 409)))],
    ];
    let expected: Vec<TaskResult> = vec![
        Ok(()),
        Err(failure(
            "n",
            TaskError::ExecutionFailure(PodFailure { name: text("ansible-n-job") }),
        )),
        Err(failure(
            "n",
            TaskError::Timeout(Timeout { operation: text("Waiting for pod ansible-n-job") }),
        )),
        Err(failure("n", TaskError::Submission(refusal("AlreadyExists", 409)))),
    ];
    for (script, result) in scripts.into_iter().zip(expected) {
        let bare = Node { name: Some(text("n")), annotations: None };
        let step = cluster_manager::ansible::apply_playbook(&bare, &text("img"), &text("job"));
        assert!(matches!(step.action, Action::Create(_)));
        let (actions, _) = drive(step, script);
        assert!(!actions.iter().any(|a| matches!(a, Action::Patch(_))));
        assert_eq!(result_of(&actions), Some(result));
    }
}

#[test]
fn a_refused_pod_opens_no_watch() {
    let step = cluster_manager::ansible::apply_playbook(
        &node("n", &[]),
        &text("img"),
        &text("job"),
    );
    let (actions, _) = drive(step, vec![Event::Created(Err(refusal("Forbidden", 403)))]);
    assert_eq!(actions.len(), 2);
    assert!(!actions.iter().any(|a| matches!(a, Action::Watch(_) | Action::Next)));
}

#[test]
fn applying_a_playbook_to_a_nameless_node_fails() {
    let nameless = Node { name: None, annotations: None };
    let step = cluster_manager::ansible::apply_playbook(&nameless, &text("img"), &text("job"));
    assert_eq!(
        step.action,
        Action::Done(Err(NodeFailure {
            node: None,
            error: TaskError::MissingField(Field::NodeName)
        }))
    );
}

#[test]
fn an_aborted_worker_is_one_more_failure() {
    assert_eq!(
        worker_aborted(text("beta"), text("task 7 panicked")),
        Err(failure("beta", TaskError::WorkerAborted(text("task 7 panicked"))))
    );
    let aggregate = Preparation::collect(vec![
        Ok(()),
        worker_aborted(text("beta"), text("task 7 panicked")),
        Err(failure("alpha", TaskError::UnexpectedEvent)),
    ]);
    assert_eq!(aggregate.report(), vec!["beta: WorkerAborted", "alpha: UnexpectedEvent"]);
}

#[test]
fn a_refused_listing_is_a_transport_error() {
    assert_eq!(
        listed(Err(refusal("Unauthorized", 401))).err(),
        Some(TaskError::Transport(refusal("Unauthorized", 401)))
    );
    let nodes = listed(Ok(vec![node("a", &[]), node("b", &[])])).unwrap();
    assert_eq!(nodes.len(), 2);
    assert_eq!(nodes[0].name, Some(text("a")));
    assert_eq!(nodes[1].name, Some(text("b")));
    assert_eq!(listed(Ok(Vec::new())).unwrap().len(), 0);
}

#[test]
fn success_is_followed_by_the_marker_and_by_nothing_else() {
    let step = cluster_manager::ssh_copy_id::add_ssh_key(text("alpha"));
    let (actions, task) = drive(
        step,
        vec![Event::Created(Ok(())), changed("Pending"), changed("Running"), changed("Succeeded")],
    );
    assert!(matches!(actions.last(), Some(Action::Patch(_))));
    assert_eq!(task.stage, Stage::Persisting);
    let mut task = task;
    assert_eq!(
        task.step(changed("Running")),
        Action::Done(Err(failure("alpha", TaskError::UnexpectedEvent)))
    );
}

#[test]
fn a_refused_pod_is_a_submission_error() {
    let step = cluster_manager::ssh_copy_id::add_ssh_key(text("alpha"));
    let (actions, _) = drive(step, vec![Event::Created(Err(refusal("AlreadyExists", 409)))]);
    assert_eq!(
        result_of(&actions),
        Some(Err(failure("alpha", TaskError::Submission(refusal("AlreadyExists", 409)))))
    );
    assert_eq!(actions.len(), 2);
}

#[test]
fn a_failed_pod_is_an_execution_failure() {
    let step = Preparation::new(ovs::task()).prepare_host(&node("beta", &[]));
    let (actions, _) =
        drive(step, vec![Event::Created(Ok(())), changed("Running"), changed("Failed")]);
    assert_eq!(
        result_of(&actions),
        Some(Err(failure(
            "beta",
            TaskError::ExecutionFailure(PodFailure { name: text("ansible-beta-ovs-convert") })
        )))
    );
    assert!(!actions.iter().any(|a| matches!(a, Action::Patch(_))));
}

#[test]
fn a_passed_deadline_is_a_timeout() {
    let step = Preparation::new(libvirt::task()).prepare_host(&node("gamma", &[]));
    let (actions, _) =
        drive(step, vec![Event::Created(Ok(())), changed("Running"), Event::StreamEnded]);
    assert_eq!(
        result_of(&actions),
        Some(Err(failure(
            "gamma",
            TaskError::Timeout(Timeout {
                operation: text("Waiting for pod ansible-gamma-libvirt-install")
            })
        )))
    );
}

#[test]
fn a_broken_stream_is_a_submission_error() {
    let step = cluster_manager::ssh_copy_id::add_ssh_key(text("alpha"));
    let (actions, _) =
        drive(step, vec![Event::Created(Ok(())), Event::StreamFailed(refusal("Gone", 410))]);
    assert_eq!(
        result_of(&actions),
        Some(Err(failure("alpha", TaskError::Submission(refusal("Gone", 410)))))
    );
    let step = cluster_manager::ssh_copy_id::add_ssh_key(text("alpha"));
    let (actions, _) = drive(
        step,
        vec![
            Event::Created(Ok(())),
            Event::Notification(WatchEvent::Error(refusal("Expired", 410))),
        ],
    );
    assert_eq!(
        result_of(&actions),
        Some(Err(failure("alpha", TaskError::Submission(refusal("Expired", 410)))))
    );
}

#[test]
fn a_notification_without_phase_ends_the_task() {
    let step = cluster_manager::ssh_copy_id::add_ssh_key(text("alpha"));
    let (actions, _) = drive(
        step,
        vec![
            Event::Created(Ok(())),
            Event::Notification(WatchEvent::Modified(Some(PodStatus { phase: None }))),
        ],
    );
    assert_eq!(
        result_of(&actions),
        Some(Err(failure("alpha", TaskError::MissingField(Field::PodPhase))))
    );
    let step = cluster_manager::ssh_copy_id::add_ssh_key(text("alpha"));
    let (actions, _) =
        drive(step, vec![Event::Created(Ok(())), Event::Notification(WatchEvent::Modified(None))]);
    assert_eq!(
        result_of(&actions),
        Some(Err(failure("alpha", TaskError::MissingField(Field::PodStatus))))
    );
}

#[test]
fn a_refused_marker_is_a_failure_of_the_task() {
    let step = cluster_manager::ssh_copy_id::add_ssh_key(text("alpha"));
    let (actions, _) = drive(
        step,
        vec![
            Event::Created(Ok(())),
            changed("Succeeded"),
            Event::Patched(Err(refusal("Conflict", 409))),
        ],
    );
    assert_eq!(
        result_of(&actions),
        Some(Err(failure(
            "alpha",
            TaskError::MarkerPersist(PersistFailure::Rejected(refusal("Conflict", 409)))
        )))
    );
}

#[test]
fn an_answer_that_was_not_asked_for_ends_the_task() {
    let step = cluster_manager::ssh_copy_id::add_ssh_key(text("alpha"));
    let (actions, _) = drive(step, vec![Event::Patched(Ok(()))]);
    assert_eq!(result_of(&actions), Some(Err(failure("alpha", TaskError::UnexpectedEvent))));
    let step = cluster_manager::ssh_copy_id::add_ssh_key(text("alpha"));
    let (actions, _) = drive(step, vec![Event::Created(Ok(())), Event::Created(Ok(()))]);
    assert_eq!(result_of(&actions), Some(Err(failure("alpha", TaskError::UnexpectedEvent))));
}

#[test]
fn a_node_without_name_fails_alone() {
    let nameless = Node { name: None, annotations: Some(Annotations::new()) };
    let bare = Node { name: Some(text("bare")), annotations: None };
    let steps = cluster_manager::ssh_copy_id::Preparation::run(&vec![
        nameless,
        node("alpha", &[]),
        bare,
    ]);
    assert_eq!(steps.len(), 3);
    assert_eq!(
        steps[0].action,
        Action::Done(Err(NodeFailure {
            node: None,
            error: TaskError::MissingField(Field::NodeName)
        }))
    );
    assert_eq!(steps[0].task.node, "");
    assert!(matches!(steps[1].action, Action::Create(_)));
    assert_eq!(
        steps[2].action,
        Action::Done(Err(failure("bare", TaskError::MissingField(Field::NodeAnnotations))))
    );
}

#[test]
fn one_failure_does_not_stop_the_others() {
    let nodes = vec![
        node("a", &[("cluster-manager/ssh", "true")]),
        node("b", &[]),
        node("c", &[("cluster-manager/ssh", "stale")]),
    ];
    let mut steps = cluster_manager::ssh_copy_id::Preparation::run(&nodes);
    assert_eq!(steps.len(), 3);
    let step_c = steps.pop().unwrap();
    let step_b = steps.pop().unwrap();
    let step_a = steps.pop().unwrap();

    let (actions_a, _) = drive(step_a, vec![]);
    // Node c runs into its deadline before node b has finished.
    let (actions_c, _) =
        drive(step_c, vec![Event::Created(Ok(())), changed("Running"), Event::StreamEnded]);
    let (actions_b, _) = drive(
        step_b,
        vec![
            Event::Created(Ok(())),
            changed("Running"),
            changed("Succeeded"),
            Event::Patched(Ok(())),
        ],
    );

    assert_eq!(actions_a, vec![Action::Done(Ok(()))]);
    assert!(actions_b.contains(&Action::Patch(MarkerPatch {
        node: text("b"),
        body: SSH_PATCH.as_bytes().to_vec()
    })));
    assert!(!actions_c.iter().any(|a| matches!(a, Action::Patch(_))));

    let results = vec![
        result_of(&actions_a).unwrap(),
        result_of(&actions_c).unwrap(),
        result_of(&actions_b).unwrap(),
    ];
    let aggregate = Preparation::collect(results);
    assert_eq!(
        aggregate,
        AggregateResult {
            failures: vec![failure(
                "c",
                TaskError::Timeout(Timeout { operation: text("Waiting for pod add-ssh-key-c") })
            )]
        }
    );
    assert!(!aggregate.is_ok());
}

#[test]
fn a_run_succeeds_iff_every_task_does() {
    let none: Vec<TaskResult> = Vec::new();
    assert!(Preparation::collect(none).is_ok());
    assert!(Preparation::collect(vec![Ok(()), Ok(()), Ok(())]).is_ok());
    assert!(Preparation::collect(vec![Ok(()), Ok(())]).failures.is_empty());
    let one_bad = Preparation::collect(vec![
        Ok(()),
        Err(failure("x", TaskError::UnexpectedEvent)),
        Ok(()),
    ]);
    assert!(!one_bad.is_ok());
    assert_eq!(one_bad.failures.len(), 1);
    let all_bad = Preparation::collect(vec![
        Err(failure("y", TaskError::WorkerAborted(text("panicked")))),
        Err(failure("x", TaskError::UnexpectedEvent)),
    ]);
    assert_eq!(
        all_bad.failures,
        vec![
            failure("y", TaskError::WorkerAborted(text("panicked"))),
            failure("x", TaskError::UnexpectedEvent)
        ]
    );
}

#[test]
fn no_nodes_no_steps() {
    assert_eq!(cluster_manager::ssh_copy_id::Preparation::run(&Vec::new()).len(), 0);
    assert_eq!(ovs::run(&Vec::new()).len(), 0);
}

#[test]
fn errors_name_their_kind() {
    let f = refusal("r", 500);
    assert_eq!(TaskError::Transport(f.clone()).kind(), "TransportError");
    assert_eq!(TaskError::Submission(f.clone()).kind(), "SubmissionError");
    assert_eq!(
        TaskError::ExecutionFailure(PodFailure { name: text("p") }).kind(),
        "ExecutionFailure"
    );
    assert_eq!(TaskError::Timeout(Timeout { operation: text("o") }).kind(), "Timeout");
    assert_eq!(
        TaskError::MarkerPersist(PersistFailure::Rejected(f.clone())).kind(),
        "MarkerPersistError"
    );
    assert_eq!(
        TaskError::MarkerPersist(PersistFailure::Encoding(text("e"))).kind(),
        "MarkerPersistError"
    );
    assert_eq!(TaskError::MissingField(Field::NodeName).kind(), "MissingField");
    assert_eq!(TaskError::WorkerAborted(text("w")).kind(), "WorkerAborted");
    assert_eq!(TaskError::KeyGeneration(text("k")).kind(), "KeyGenerationError");
    assert_eq!(TaskError::UnexpectedEvent.kind(), "UnexpectedEvent");
}

#[test]
fn copies_of_errors_are_equal_to_them() {
    let original = failure(
        "n",
        TaskError::MarkerPersist(PersistFailure::Rejected(refusal("Conflict", 409))),
    );
    assert_eq!(original.clone(), original);
    let nameless = NodeFailure { node: None, error: TaskError::MissingField(Field::NodeName) };
    assert_eq!(nameless.clone(), nameless);
}

#[test]
fn a_failure_is_reported_with_node_and_kind() {
    assert_eq!(failure("alpha", TaskError::UnexpectedEvent).describe(), "alpha: UnexpectedEvent");
    assert_eq!(
        failure("beta", TaskError::Timeout(Timeout { operation: text("Waiting for pod p") }))
            .describe(),
        "beta: Timeout"
    );
    let nameless = NodeFailure { node: None, error: TaskError::MissingField(Field::NodeName) };
    assert_eq!(nameless.describe(), "<unnamed node>: MissingField");
}

#[test]
fn the_report_lists_every_failing_node() {
    let aggregate = Preparation::collect(vec![
        Err(failure("c", TaskError::Submission(refusal("Forbidden", 403)))),
        Ok(()),
        Err(failure(
            "a",
            TaskError::ExecutionFailure(PodFailure { name: text("add-ssh-key-a") }),
        )),
    ]);
    assert_eq!(aggregate.report(), vec!["c: SubmissionError", "a: ExecutionFailure"]);
    assert!(Preparation::collect(vec![Ok(())]).report().is_empty());
}
