//! Orchestration engine for provisioning multi-node Kubernetes clusters on a
//! Proxmox hypervisor: the event queue and operator API, the cluster/node
//! lifecycle state machine, and the step-by-step provisioning and teardown
//! workflows with their retry and partial-failure semantics.
//!
//! Remote side effects (hypervisor REST calls, SSH into guests, sleeping
//! between poll attempts) are described by [`workflow::Action`] values; a thin
//! driver outside this crate performs each action and feeds the result back as
//! a [`workflow::Outcome`].
mod error;
pub mod api;
pub mod dispatcher;
pub mod event;
pub mod flow_add_node;
pub mod flow_change_resources;
pub mod flow_create;
pub mod flow_delete_cluster;
pub mod flow_delete_node;
pub mod flow_vm;
pub mod generator;
pub mod helm;
pub mod model;
pub mod operator;
pub mod outside;
pub mod plans;
pub mod proxmox;
pub mod scheduler;
pub mod store;
pub mod supported;
pub mod text;
pub mod workflow;

pub use error::Error;
