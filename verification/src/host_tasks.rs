//! The playbook tasks that turn a node into a hypervisor host.

pub mod libvirt;
pub mod ovs;
