use cluster_manager::pod::{
    Container, EnvVar, Label, Pod, RestartPolicy, Volume, VolumeMount, VolumeSource,
};
use cluster_manager::task::PodRecipe;

fn text(s: &str) -> String {
    s.to_string()
}

fn labels(task: &str) -> Vec<Label> {
    vec![
        Label { key: text("app"), value: text("cluster-manager") },
        Label { key: text("task"), value: text(task) },
    ]
}

#[test]
fn key_copy_pod_in_full() {
    let pod = cluster_manager::ssh_copy_id::podspec::make_pod(&text("alpha"));
    let expected = Pod {
        name: text("add-ssh-key-alpha"),
        labels: labels("copy-ssh-key"),
        node_name: text("alpha"),
        containers: vec![Container {
            name: text("copy"),
            image: text("busybox"),
            command: vec![text("/bin/sh")],
            args: vec![text("-c"), text("cat /mnt/manager-public-key #>> /mnt/authorized_keys")],
            env: None,
            working_dir: None,
            volume_mounts: vec![
                VolumeMount {
                    name: text("public-key"),
                    mount_path: text("/mnt/manager-public-key"),
                    read_only: true,
                    sub_path: Some(text("public_key")),
                },
                VolumeMount {
                    name: text("authorized-keys"),
                    mount_path: text("/mnt/authorized_keys"),
                    read_only: false,
                    sub_path: None,
                },
            ],
        }],
        volumes: vec![
            Volume {
                name: text("public-key"),
                source: VolumeSource::Secret { secret_name: text("admin-key"), default_mode: None },
            },
            Volume {
                name: text("authorized-keys"),
                source: VolumeSource::HostPath {
                    path: text("/root/.ssh/authorized_keys"),
                    kind: text("File"),
                },
            },
        ],
        restart_policy: RestartPolicy::OnFailure,
        host_network: None,
    };
    assert_eq!(pod, expected);
}

#[test]
fn playbook_pod_in_full() {
    let pod = cluster_manager::ansible::podspec::make_pod(
        &text("beta"),
        &text("registry.example/runner@sha256:00ff"),
        &text("ovs-convert"),
    );
    let expected = Pod {
        name: text("ansible-beta-ovs-convert"),
        labels: labels("ovs-convert"),
        node_name: text("beta"),
        containers: vec![Container {
            name: text("ansible"),
            image: text("registry.example/runner@sha256:00ff"),
            command: vec![text("/usr/bin/ansible-playbook")],
            args: vec![text("-i"), text("inventory"), text("playbook.yaml")],
            env: Some(vec![EnvVar {
                name: text("ANSIBLE_HOST_KEY_CHECKING"),
                value: text("False"),
            }]),
            working_dir: Some(text("/work")),
            volume_mounts: vec![VolumeMount {
                name: text("ssh-key"),
                mount_path: text("/root/.ssh/id_rsa"),
                read_only: true,
                sub_path: Some(text("private_key")),
            }],
        }],
        volumes: vec![Volume {
            name: text("ssh-key"),
            source: VolumeSource::Secret {
                secret_name: text("admin-key"),
                default_mode: Some(0o400),
            },
        }],
        restart_policy: RestartPolicy::Never,
        host_network: Some(true),
    };
    assert_eq!(pod, expected);
}

#[test]
fn building_twice_gives_the_same_name_and_labels() {
    let once = cluster_manager::ansible::podspec::make_pod(
        &text("beta"),
        &text("image@sha256:1"),
        &text("libvirt-install"),
    );
    let again = cluster_manager::ansible::podspec::make_pod(
        &text("beta"),
        &text("image@sha256:1"),
        &text("libvirt-install"),
    );
    assert_eq!(once.name.as_bytes(), again.name.as_bytes());
    assert_eq!(once.name, "ansible-beta-libvirt-install");
    assert_eq!(once.labels, again.labels);
    assert_eq!(once, again);

    let copy = cluster_manager::ssh_copy_id::podspec::make_pod(&text("beta"));
    let copy_again = cluster_manager::ssh_copy_id::podspec::make_pod(&text("beta"));
    assert_eq!(copy.name.as_bytes(), copy_again.name.as_bytes());
    assert_eq!(copy.labels, copy_again.labels);
}

#[test]
fn the_image_does_not_enter_the_name() {
    let old = cluster_manager::ansible::podspec::make_pod(
        &text("beta"),
        &text("image@sha256:1"),
        &text("ovs-convert"),
    );
    let new = cluster_manager::ansible::podspec::make_pod(
        &text("beta"),
        &text("image@sha256:2"),
        &text("ovs-convert"),
    );
    assert_eq!(old.name, new.name);
    assert_eq!(old.labels, new.labels);
    assert_ne!(old, new);
}

#[test]
fn pods_of_different_nodes_differ_in_name() {
    let a = cluster_manager::ssh_copy_id::podspec::make_pod(&text("alpha"));
    let b = cluster_manager::ssh_copy_id::podspec::make_pod(&text("beta"));
    assert_ne!(a.name, b.name);
    assert_eq!(a.labels, b.labels);
}

#[test]
fn an_empty_node_name_still_gives_a_pod() {
    let pod = cluster_manager::ssh_copy_id::podspec::make_pod(&text(""));
    assert_eq!(pod.name, "add-ssh-key-");
    assert_eq!(pod.node_name, "");
}

#[test]
fn a_recipe_names_its_pod_as_it_builds_it() {
    let copy = PodRecipe::CopySshKey;
    assert_eq!(copy.pod_name(&text("n1")), copy.make_pod(&text("n1")).name);
    assert_eq!(copy.pod_name(&text("n1")), "add-ssh-key-n1");
    let playbook = PodRecipe::Playbook { image: text("img@sha256:9"), job: text("ovs-convert") };
    assert_eq!(playbook.pod_name(&text("n1")), playbook.make_pod(&text("n1")).name);
    assert_eq!(playbook.pod_name(&text("n1")), "ansible-n1-ovs-convert");
    assert_eq!(playbook.make_pod(&text("n1")).containers[0].image, "img@sha256:9");
}

#[test]
fn restart_policies_have_the_words_of_the_api() {
    assert_eq!(RestartPolicy::Never.name(), "Never");
    assert_eq!(RestartPolicy::OnFailure.name(), "OnFailure");
}
