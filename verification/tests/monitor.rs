use cluster_manager::errors::{ApiFailure, Field, PodFailure, TaskError, Timeout};
use cluster_manager::utils::{
    observe, parse_phase, wait_for_pod, watch_request, Observation, Observed, Phase, PodStatus,
    WatchEvent,
};

fn changed(phase: &str) -> WatchEvent {
    WatchEvent::Modified(Some(PodStatus { phase: Some(phase.to_string()) }))
}

fn refusal(reason: &str, code: u16) -> ApiFailure {
    ApiFailure {
        status: "Failure".to_string(),
        message: format!("{} happened", reason),
        reason: reason.to_string(),
        code,
    }
}

#[test]
fn phases_are_read_from_their_words() {
    assert_eq!(parse_phase(&"Pending".to_string()), Phase::Pending);
    assert_eq!(parse_phase(&"Running".to_string()), Phase::Running);
    assert_eq!(parse_phase(&"Succeeded".to_string()), Phase::Succeeded);
    assert_eq!(parse_phase(&"Failed".to_string()), Phase::Failed);
    assert_eq!(parse_phase(&"Unknown".to_string()), Phase::Unknown);
    assert_eq!(parse_phase(&"succeeded".to_string()), Phase::Unknown);
    assert_eq!(parse_phase(&"".to_string()), Phase::Unknown);
}

#[test]
fn success_ends_the_wait_at_once() {
    let pod = "add-ssh-key-alpha".to_string();
    let events =
        vec![changed("Pending"), changed("Running"), changed("Succeeded"), changed("Running")];
    let observed = wait_for_pod(&pod, &events);
    assert_eq!(observed, Observed { result: Ok(()), consumed: 3 });
}

#[test]
fn nothing_after_a_success_matters() {
    let pod = "p".to_string();
    let short = vec![changed("Running"), changed("Succeeded")];
    let long = vec![
        changed("Running"),
        changed("Succeeded"),
        changed("Failed"),
        WatchEvent::Error(refusal("Expired", 410)),
        WatchEvent::Modified(None),
    ];
    assert_eq!(wait_for_pod(&pod, &short), wait_for_pod(&pod, &long));
    assert_eq!(wait_for_pod(&pod, &long).consumed, 2);
}

#[test]
fn failure_is_an_execution_failure_not_a_timeout() {
    let pod = "ansible-beta-ovs-convert".to_string();
    let events = vec![changed("Pending"), changed("Running"), changed("Failed")];
    let observed = wait_for_pod(&pod, &events);
    assert_eq!(
        observed.result,
        Err(TaskError::ExecutionFailure(PodFailure {
            name: "ansible-beta-ovs-convert".to_string()
        }))
    );
    assert_eq!(observed.consumed, 3);
}

#[test]
fn a_failure_after_a_success_is_not_read() {
    let pod = "p".to_string();
    let events = vec![changed("Succeeded"), changed("Failed")];
    assert_eq!(wait_for_pod(&pod, &events), Observed { result: Ok(()), consumed: 1 });
}

#[test]
fn no_terminal_phase_is_a_timeout_not_a_failure() {
    let pod = "ansible-gamma-libvirt-install".to_string();
    let events = vec![
        WatchEvent::Added,
        changed("Pending"),
        changed("Running"),
        WatchEvent::Bookmark,
        changed("Unknown"),
        WatchEvent::Deleted,
    ];
    let observed = wait_for_pod(&pod, &events);
    assert_eq!(
        observed.result,
        Err(TaskError::Timeout(Timeout {
            operation: "Waiting for pod ansible-gamma-libvirt-install".to_string()
        }))
    );
    assert_eq!(observed.consumed, 6);
}

#[test]
fn an_empty_stream_is_a_timeout() {
    let observed = wait_for_pod(&"p".to_string(), &Vec::new());
    assert_eq!(
        observed,
        Observed {
            result: Err(TaskError::Timeout(Timeout { operation: "Waiting for pod p".to_string() })),
            consumed: 0
        }
    );
}

#[test]
fn an_error_of_the_stream_is_a_submission_error() {
    let events = vec![
        changed("Running"),
        WatchEvent::Error(refusal("Expired", 410)),
        changed("Succeeded"),
    ];
    let observed = wait_for_pod(&"p".to_string(), &events);
    assert_eq!(observed.result, Err(TaskError::Submission(refusal("Expired", 410))));
    assert_eq!(observed.consumed, 2);
}

#[test]
fn a_change_without_status_is_an_error() {
    let events = vec![changed("Running"), WatchEvent::Modified(None), changed("Succeeded")];
    let observed = wait_for_pod(&"p".to_string(), &events);
    assert_eq!(observed.result, Err(TaskError::MissingField(Field::PodStatus)));
    assert_eq!(observed.consumed, 2);
}

#[test]
fn a_change_without_phase_is_an_error() {
    let events = vec![WatchEvent::Modified(Some(PodStatus { phase: None }))];
    let observed = wait_for_pod(&"p".to_string(), &events);
    assert_eq!(observed.result, Err(TaskError::MissingField(Field::PodPhase)));
    assert_eq!(observed.consumed, 1);
}

#[test]
fn only_changes_and_errors_decide() {
    let pod = "p".to_string();
    assert_eq!(observe(&pod, &WatchEvent::Added), Observation::Waiting);
    assert_eq!(observe(&pod, &WatchEvent::Deleted), Observation::Waiting);
    assert_eq!(observe(&pod, &WatchEvent::Bookmark), Observation::Waiting);
    assert_eq!(observe(&pod, &changed("Pending")), Observation::Waiting);
    assert_eq!(observe(&pod, &changed("Running")), Observation::Waiting);
    assert_eq!(observe(&pod, &changed("Unknown")), Observation::Waiting);
    assert_eq!(observe(&pod, &changed("Evicted")), Observation::Waiting);
    assert_eq!(observe(&pod, &changed("Succeeded")), Observation::Succeeded);
    assert_eq!(
        observe(&pod, &changed("Failed")),
        Observation::Failed(TaskError::ExecutionFailure(PodFailure { name: "p".to_string() }))
    );
}

#[test]
fn a_watch_sees_one_pod_until_the_deadline() {
    let request = watch_request(&"add-ssh-key-alpha".to_string(), 30);
    assert_eq!(request.field_selector, "metadata.name=add-ssh-key-alpha");
    assert_eq!(request.timeout, 30);
    assert_eq!(request.resource_version, "0");
}
