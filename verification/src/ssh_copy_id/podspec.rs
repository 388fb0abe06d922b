//! The pod that copies the manager's public key onto a node.

use crate::pod::{
    make_labels, standard_labels, Container, ContainerView, Pod, PodView, RestartPolicy, Volume,
    VolumeMount, VolumeMountView, VolumeSource, VolumeSourceView, VolumeView,
};
use vstd::prelude::*;
use vstd::string::StringExecFns;

verus! {

/// The name of the key-copy pod of a node.
pub open spec fn pod_name(node: Seq<char>) -> Seq<char> {
    "add-ssh-key-"@ + node
}

/// The mounts of the copy container: the public key from the secret, read
/// only, and the node's file of authorized keys.
pub open spec fn copy_mounts() -> Seq<VolumeMountView> {
    seq![
        VolumeMountView {
            name: "public-key"@,
            mount_path: "/mnt/manager-public-key"@,
            read_only: true,
            sub_path: Some("public_key"@),
        },
        VolumeMountView {
            name: "authorized-keys"@,
            mount_path: "/mnt/authorized_keys"@,
            read_only: false,
            sub_path: None,
        },
    ]
}

/// The container that prints the key.
pub open spec fn copy_container() -> ContainerView {
    ContainerView {
        name: "copy"@,
        image: "busybox"@,
        command: seq!["/bin/sh"@],
        args: seq!["-c"@, "cat /mnt/manager-public-key #>> /mnt/authorized_keys"@],
        env: None,
        working_dir: None,
        volume_mounts: copy_mounts(),
    }
}

/// The volumes behind the two mounts.
pub open spec fn copy_volumes() -> Seq<VolumeView> {
    seq![
        VolumeView {
            name: "public-key"@,
            source: VolumeSourceView::Secret { secret_name: "admin-key"@, default_mode: None },
        },
        VolumeView {
            name: "authorized-keys"@,
            source: VolumeSourceView::HostPath {
                path: "/root/.ssh/authorized_keys"@,
                kind: "File"@,
            },
        },
    ]
}

/// The key-copy pod of a node, in full.
pub open spec fn copy_key_pod(node: Seq<char>) -> PodView {
    PodView {
        name: pod_name(node),
        labels: standard_labels("copy-ssh-key"@),
        node_name: node,
        containers: seq![copy_container()],
        volumes: copy_volumes(),
        restart_policy: RestartPolicy::OnFailure,
        host_network: None,
    }
}

fn make_mounts() -> (r: Vec<VolumeMount>)
    ensures
        r.deep_view() == copy_mounts(),
{
    let mounts = vec![
        VolumeMount {
            name: String::from_str("public-key"),
            mount_path: String::from_str("/mnt/manager-public-key"),
            read_only: true,
            sub_path: Some(String::from_str("public_key")),
        },
        VolumeMount {
            name: String::from_str("authorized-keys"),
            mount_path: String::from_str("/mnt/authorized_keys"),
            read_only: false,
            sub_path: None,
        },
    ];
    assert(mounts.deep_view() =~= copy_mounts());
    mounts
}

fn make_container() -> (r: Container)
    ensures
        r@ == copy_container(),
{
    let command = vec![String::from_str("/bin/sh")];
    let args = vec![
        String::from_str("-c"),
        String::from_str("cat /mnt/manager-public-key #>> /mnt/authorized_keys"),
    ];
    assert(command.deep_view() =~= seq!["/bin/sh"@]);
    assert(args.deep_view() =~= seq![
        "-c"@,
        "cat /mnt/manager-public-key #>> /mnt/authorized_keys"@,
    ]);
    Container {
        name: String::from_str("copy"),
        image: String::from_str("busybox"),
        command,
        args,
        env: None,
        working_dir: None,
        volume_mounts: make_mounts(),
    }
}

fn make_volumes() -> (r: Vec<Volume>)
    ensures
        r.deep_view() == copy_volumes(),
{
    let volumes = vec![
        Volume {
            name: String::from_str("public-key"),
            source: VolumeSource::Secret {
                secret_name: String::from_str("admin-key"),
                default_mode: None,
            },
        },
        Volume {
            name: String::from_str("authorized-keys"),
            source: VolumeSource::HostPath {
                path: String::from_str("/root/.ssh/authorized_keys"),
                kind: String::from_str("File"),
            },
        },
    ];
    assert(volumes.deep_view() =~= copy_volumes());
    volumes
}

/// Names the key-copy pod of the node `node_name`.
pub fn name_pod(node_name: &String) -> (name: String)
    ensures
        name@ == pod_name(node_name@),
{
    let mut name = String::from_str("add-ssh-key-");
    name.append(node_name.as_str());
    name
}

/// Builds the pod that copies the manager's public key onto the node
/// `node_name`: pinned to that node, named after it, restarted on failure.
pub fn make_pod(node_name: &String) -> (pod: Pod)
    ensures
        pod@ == copy_key_pod(node_name@),
{
    let name = name_pod(node_name);
    let containers = vec![make_container()];
    assert(containers.deep_view() =~= seq![copy_container()]);
    Pod {
        name,
        labels: make_labels("copy-ssh-key"),
        node_name: node_name.clone(),
        containers,
        volumes: make_volumes(),
        restart_policy: RestartPolicy::OnFailure,
        host_network: None,
    }
}

/// Naming is deterministic: two pods built for the same node carry the same
/// name and the same labels, and agree in every other field too.
pub proof fn lemma_naming_is_deterministic(a: Pod, b: Pod, node: Seq<char>)
    requires
        a@ == copy_key_pod(node),
        b@ == copy_key_pod(node),
    ensures
        a@.name == b@.name,
        a@.labels == b@.labels,
        a@ == b@,
{
}

/// Pods of different nodes have different names.
pub proof fn lemma_names_tell_nodes_apart(node_a: Seq<char>, node_b: Seq<char>)
    requires
        pod_name(node_a) == pod_name(node_b),
    ensures
        node_a == node_b,
{
    let prefix = "add-ssh-key-"@;
    let a = pod_name(node_a);
    let b = pod_name(node_b);
    assert(a.len() == prefix.len() + node_a.len());
    assert(b.len() == prefix.len() + node_b.len());
    assert(node_a =~= a.subrange(prefix.len() as int, a.len() as int));
    assert(node_b =~= b.subrange(prefix.len() as int, b.len() as int));
}

} // verus!
