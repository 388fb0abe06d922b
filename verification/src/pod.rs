//! The description of a pod, as far as the tasks fill it in.
//!
//! These types hold plain values only. A driver turns a [`Pod`] into the
//! resource that the API server expects; nothing here is read back from the
//! cluster.

use vstd::prelude::*;
use vstd::string::StringExecFns;

verus! {

/// What the kubelet does when the pod's container exits.
#[derive(Debug, Clone, Copy, PartialEq, Eq, Structural)]
pub enum RestartPolicy {
    Never,
    OnFailure,
}

/// The word the API uses for a restart policy.
pub open spec fn restart_policy_name(p: RestartPolicy) -> Seq<char> {
    match p {
        RestartPolicy::Never => "Never"@,
        RestartPolicy::OnFailure => "OnFailure"@,
    }
}

impl RestartPolicy {
    /// The word the API uses for this policy.
    pub fn name(&self) -> (r: String)
        ensures
            r@ == restart_policy_name(*self),
    {
        match self {
            RestartPolicy::Never => String::from_str("Never"),
            RestartPolicy::OnFailure => String::from_str("OnFailure"),
        }
    }
}

/// An environment variable with a literal value.
#[derive(Debug, PartialEq, Eq)]
pub struct EnvVar {
    pub name: String,
    pub value: String,
}

pub struct EnvVarView {
    pub name: Seq<char>,
    pub value: Seq<char>,
}

impl DeepView for EnvVar {
    type V = EnvVarView;

    open spec fn deep_view(&self) -> EnvVarView {
        EnvVarView { name: self.name@, value: self.value@ }
    }
}

impl View for EnvVar {
    type V = EnvVarView;

    open spec fn view(&self) -> EnvVarView {
        self.deep_view()
    }
}

/// Where a container sees one of the pod's volumes.
#[derive(Debug, PartialEq, Eq)]
pub struct VolumeMount {
    pub name: String,
    pub mount_path: String,
    pub read_only: bool,
    pub sub_path: Option<String>,
}

pub struct VolumeMountView {
    pub name: Seq<char>,
    pub mount_path: Seq<char>,
    pub read_only: bool,
    pub sub_path: Option<Seq<char>>,
}

impl DeepView for VolumeMount {
    type V = VolumeMountView;

    open spec fn deep_view(&self) -> VolumeMountView {
        VolumeMountView {
            name: self.name@,
            mount_path: self.mount_path@,
            read_only: self.read_only,
            sub_path: self.sub_path.deep_view(),
        }
    }
}

impl View for VolumeMount {
    type V = VolumeMountView;

    open spec fn view(&self) -> VolumeMountView {
        self.deep_view()
    }
}

/// What backs a volume.
#[derive(Debug, PartialEq, Eq)]
pub enum VolumeSource {
    /// A secret of the pod's namespace, with the mode of its files if given.
    Secret { secret_name: String, default_mode: Option<i32> },
    /// A path on the node, with the kind of entry expected there.
    HostPath { path: String, kind: String },
}

pub enum VolumeSourceView {
    Secret { secret_name: Seq<char>, default_mode: Option<i32> },
    HostPath { path: Seq<char>, kind: Seq<char> },
}

impl DeepView for VolumeSource {
    type V = VolumeSourceView;

    open spec fn deep_view(&self) -> VolumeSourceView {
        match self {
            VolumeSource::Secret { secret_name, default_mode } => VolumeSourceView::Secret {
                secret_name: secret_name@,
                default_mode: *default_mode,
            },
            VolumeSource::HostPath { path, kind } => VolumeSourceView::HostPath {
                path: path@,
                kind: kind@,
            },
        }
    }
}

impl View for VolumeSource {
    type V = VolumeSourceView;

    open spec fn view(&self) -> VolumeSourceView {
        self.deep_view()
    }
}

/// A named volume of the pod.
#[derive(Debug, PartialEq, Eq)]
pub struct Volume {
    pub name: String,
    pub source: VolumeSource,
}

pub struct VolumeView {
    pub name: Seq<char>,
    pub source: VolumeSourceView,
}

impl DeepView for Volume {
    type V = VolumeView;

    open spec fn deep_view(&self) -> VolumeView {
        VolumeView { name: self.name@, source: self.source@ }
    }
}

impl View for Volume {
    type V = VolumeView;

    open spec fn view(&self) -> VolumeView {
        self.deep_view()
    }
}

/// The one container a task's pod runs.
#[derive(Debug, PartialEq, Eq)]
pub struct Container {
    pub name: String,
    pub image: String,
    pub command: Vec<String>,
    pub args: Vec<String>,
    pub env: Option<Vec<EnvVar>>,
    pub working_dir: Option<String>,
    pub volume_mounts: Vec<VolumeMount>,
}

pub struct ContainerView {
    pub name: Seq<char>,
    pub image: Seq<char>,
    pub command: Seq<Seq<char>>,
    pub args: Seq<Seq<char>>,
    pub env: Option<Seq<EnvVarView>>,
    pub working_dir: Option<Seq<char>>,
    pub volume_mounts: Seq<VolumeMountView>,
}

impl DeepView for Container {
    type V = ContainerView;

    open spec fn deep_view(&self) -> ContainerView {
        ContainerView {
            name: self.name@,
            image: self.image@,
            command: self.command.deep_view(),
            args: self.args.deep_view(),
            env: self.env.deep_view(),
            working_dir: self.working_dir.deep_view(),
            volume_mounts: self.volume_mounts.deep_view(),
        }
    }
}

impl View for Container {
    type V = ContainerView;

    open spec fn view(&self) -> ContainerView {
        self.deep_view()
    }
}

/// A label of a pod.
#[derive(Debug, PartialEq, Eq)]
pub struct Label {
    pub key: String,
    pub value: String,
}

pub struct LabelView {
    pub key: Seq<char>,
    pub value: Seq<char>,
}

impl DeepView for Label {
    type V = LabelView;

    open spec fn deep_view(&self) -> LabelView {
        LabelView { key: self.key@, value: self.value@ }
    }
}

impl View for Label {
    type V = LabelView;

    open spec fn view(&self) -> LabelView {
        self.deep_view()
    }
}

/// A pod pinned to one node: the unit in which a task runs.
#[derive(Debug, PartialEq, Eq)]
pub struct Pod {
    pub name: String,
    pub labels: Vec<Label>,
    pub node_name: String,
    pub containers: Vec<Container>,
    pub volumes: Vec<Volume>,
    pub restart_policy: RestartPolicy,
    pub host_network: Option<bool>,
}

pub struct PodView {
    pub name: Seq<char>,
    pub labels: Seq<LabelView>,
    pub node_name: Seq<char>,
    pub containers: Seq<ContainerView>,
    pub volumes: Seq<VolumeView>,
    pub restart_policy: RestartPolicy,
    pub host_network: Option<bool>,
}

impl DeepView for Pod {
    type V = PodView;

    open spec fn deep_view(&self) -> PodView {
        PodView {
            name: self.name@,
            labels: self.labels.deep_view(),
            node_name: self.node_name@,
            containers: self.containers.deep_view(),
            volumes: self.volumes.deep_view(),
            restart_policy: self.restart_policy,
            host_network: self.host_network,
        }
    }
}

impl View for Pod {
    type V = PodView;

    open spec fn view(&self) -> PodView {
        self.deep_view()
    }
}

/// The labels that every pod of a task carries: the application, then the task.
pub open spec fn standard_labels(task: Seq<char>) -> Seq<LabelView> {
    seq![
        LabelView { key: "app"@, value: "cluster-manager"@ },
        LabelView { key: "task"@, value: task },
    ]
}

/// Builds the labels of a task's pod.
pub fn make_labels(task: &str) -> (r: Vec<Label>)
    ensures
        r.deep_view() == standard_labels(task@),
{
    let labels = vec![
        Label { key: String::from_str("app"), value: String::from_str("cluster-manager") },
        Label { key: String::from_str("task"), value: String::from_str(task) },
    ];
    assert(labels.deep_view() =~= standard_labels(task@));
    labels
}

} // verus!
