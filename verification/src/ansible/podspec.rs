//! The pod that applies a playbook to a node.

use crate::pod::{
    make_labels, standard_labels, Container, ContainerView, EnvVar, EnvVarView, Pod, PodView,
    RestartPolicy, Volume, VolumeMount, VolumeMountView, VolumeSource, VolumeSourceView,
    VolumeView,
};
use vstd::prelude::*;
use vstd::string::StringExecFns;

verus! {

/// The name of the pod that runs the job `job` against the node `node`.
pub open spec fn pod_name(node: Seq<char>, job: Seq<char>) -> Seq<char> {
    "ansible-"@ + node + "-"@ + job
}

/// The environment of the runner: host keys are not checked.
pub open spec fn runner_env() -> Seq<EnvVarView> {
    seq![EnvVarView { name: "ANSIBLE_HOST_KEY_CHECKING"@, value: "False"@ }]
}

/// The one mount of the runner: the manager's private key, read only.
pub open spec fn runner_mounts() -> Seq<VolumeMountView> {
    seq![
        VolumeMountView {
            name: "ssh-key"@,
            mount_path: "/root/.ssh/id_rsa"@,
            read_only: true,
            sub_path: Some("private_key"@),
        },
    ]
}

/// The container that runs the playbook of the image `image`.
pub open spec fn runner_container(image: Seq<char>) -> ContainerView {
    ContainerView {
        name: "ansible"@,
        image: image,
        command: seq!["/usr/bin/ansible-playbook"@],
        args: seq!["-i"@, "inventory"@, "playbook.yaml"@],
        env: Some(runner_env()),
        working_dir: Some("/work"@),
        volume_mounts: runner_mounts(),
    }
}

/// The volume behind the mount: the key secret, readable by its owner only.
pub open spec fn runner_volumes() -> Seq<VolumeView> {
    seq![
        VolumeView {
            name: "ssh-key"@,
            source: VolumeSourceView::Secret {
                secret_name: "admin-key"@,
                default_mode: Some(0o400i32),
            },
        },
    ]
}

/// The playbook pod of a node, in full.
pub open spec fn playbook_pod(node: Seq<char>, image: Seq<char>, job: Seq<char>) -> PodView {
    PodView {
        name: pod_name(node, job),
        labels: standard_labels(job),
        node_name: node,
        containers: seq![runner_container(image)],
        volumes: runner_volumes(),
        restart_policy: RestartPolicy::Never,
        host_network: Some(true),
    }
}

fn make_container(image: &String) -> (r: Container)
    ensures
        r@ == runner_container(image@),
{
    let env = vec![
        EnvVar {
            name: String::from_str("ANSIBLE_HOST_KEY_CHECKING"),
            value: String::from_str("False"),
        },
    ];
    let command = vec![String::from_str("/usr/bin/ansible-playbook")];
    let args = vec![
        String::from_str("-i"),
        String::from_str("inventory"),
        String::from_str("playbook.yaml"),
    ];
    let volume_mounts = vec![
        VolumeMount {
            name: String::from_str("ssh-key"),
            mount_path: String::from_str("/root/.ssh/id_rsa"),
            read_only: true,
            sub_path: Some(String::from_str("private_key")),
        },
    ];
    assert(env.deep_view() =~= runner_env());
    assert(command.deep_view() =~= seq!["/usr/bin/ansible-playbook"@]);
    assert(args.deep_view() =~= seq!["-i"@, "inventory"@, "playbook.yaml"@]);
    assert(volume_mounts.deep_view() =~= runner_mounts());
    Container {
        name: String::from_str("ansible"),
        image: image.clone(),
        command,
        args,
        env: Some(env),
        working_dir: Some(String::from_str("/work")),
        volume_mounts,
    }
}

fn make_volumes() -> (r: Vec<Volume>)
    ensures
        r.deep_view() == runner_volumes(),
{
    let volumes = vec![
        Volume {
            name: String::from_str("ssh-key"),
            source: VolumeSource::Secret {
                secret_name: String::from_str("admin-key"),
                default_mode: Some(0o400i32),
            },
        },
    ];
    assert(volumes.deep_view() =~= runner_volumes());
    volumes
}

/// Names the pod that runs the job `job_name` against the node `node_name`.
pub fn name_pod(node_name: &String, job_name: &String) -> (name: String)
    ensures
        name@ == pod_name(node_name@, job_name@),
{
    let mut name = String::from_str("ansible-");
    name.append(node_name.as_str());
    name.append("-");
    name.append(job_name.as_str());
    name
}

/// Builds the pod that runs the playbook of `image` against the node
/// `node_name`: on the host's network, pinned to the node, named after node
/// and job, never restarted.
pub fn make_pod(node_name: &String, image: &String, job_name: &String) -> (pod: Pod)
    ensures
        pod@ == playbook_pod(node_name@, image@, job_name@),
{
    let name = name_pod(node_name, job_name);
    let containers = vec![make_container(image)];
    assert(containers.deep_view() =~= seq![runner_container(image@)]);
    Pod {
        name,
        labels: make_labels(job_name.as_str()),
        node_name: node_name.clone(),
        containers,
        volumes: make_volumes(),
        restart_policy: RestartPolicy::Never,
        host_network: Some(true),
    }
}

/// Naming is deterministic: two pods built for the same node and job carry
/// the same name and the same labels, whatever image each was built with.
pub proof fn lemma_naming_is_deterministic(
    a: Pod,
    b: Pod,
    node: Seq<char>,
    job: Seq<char>,
    image_a: Seq<char>,
    image_b: Seq<char>,
)
    requires
        a@ == playbook_pod(node, image_a, job),
        b@ == playbook_pod(node, image_b, job),
    ensures
        a@.name == b@.name,
        a@.labels == b@.labels,
        image_a == image_b ==> a@ == b@,
{
}

/// For one job, pods of different nodes have different names.
pub proof fn lemma_names_tell_nodes_apart(node_a: Seq<char>, node_b: Seq<char>, job: Seq<char>)
    requires
        pod_name(node_a, job) == pod_name(node_b, job),
    ensures
        node_a == node_b,
{
    let prefix = "ansible-"@;
    let tail = "-"@ + job;
    let a = pod_name(node_a, job);
    let b = pod_name(node_b, job);
    assert(a =~= prefix + node_a + tail);
    assert(b =~= prefix + node_b + tail);
    assert(a.len() == prefix.len() + node_a.len() + tail.len());
    assert(b.len() == prefix.len() + node_b.len() + tail.len());
    assert(node_a =~= a.subrange(prefix.len() as int, (prefix.len() + node_a.len()) as int));
    assert(node_b =~= b.subrange(prefix.len() as int, (prefix.len() + node_b.len()) as int));
}

} // verus!
