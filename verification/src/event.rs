//! The unit of work the operator enqueues: one intent with the credentials
//! and identifiers its workflow needs. An event is owned exclusively by the
//! queue from enqueue to dequeue.
use crate::proxmox::AccessData;
use vstd::prelude::*;

verus! {

/// One enqueued intent.
#[derive(Debug)]
pub enum Event {
    CreateCluster { access: AccessData, cluster_name: String },
    AddNodeToCluster { access: AccessData, cluster_name: String, node_name: String },
    DeleteNodeFromCluster { access: AccessData, cluster_name: String, node_name: String },
    DeleteCluster { access: AccessData, cluster_name: String },
    ChangeNodeResources {
        access: AccessData,
        cluster_name: String,
        node_name: String,
        cores: u16,
        memory: u32,
    },
}

/// The mathematical value of an [`Event`]: its kind and identifiers (the
/// credentials are carried opaquely and not part of any contract).
#[verifier::ext_equal]
pub ghost enum EventView {
    CreateCluster { cluster_name: Seq<char> },
    AddNodeToCluster { cluster_name: Seq<char>, node_name: Seq<char> },
    DeleteNodeFromCluster { cluster_name: Seq<char>, node_name: Seq<char> },
    DeleteCluster { cluster_name: Seq<char> },
    ChangeNodeResources {
        cluster_name: Seq<char>,
        node_name: Seq<char>,
        cores: u16,
        memory: u32,
    },
}

impl View for Event {
    type V = EventView;

    open spec fn view(&self) -> EventView {
        match self {
            Event::CreateCluster { access, cluster_name } => EventView::CreateCluster {
                cluster_name: cluster_name@,
            },
            Event::AddNodeToCluster { access, cluster_name, node_name } => {
                EventView::AddNodeToCluster {
                    cluster_name: cluster_name@,
                    node_name: node_name@,
                }
            },
            Event::DeleteNodeFromCluster { access, cluster_name, node_name } => {
                EventView::DeleteNodeFromCluster {
                    cluster_name: cluster_name@,
                    node_name: node_name@,
                }
            },
            Event::DeleteCluster { access, cluster_name } => EventView::DeleteCluster {
                cluster_name: cluster_name@,
            },
            Event::ChangeNodeResources { access, cluster_name, node_name, cores, memory } => {
                EventView::ChangeNodeResources {
                    cluster_name: cluster_name@,
                    node_name: node_name@,
                    cores: *cores,
                    memory: *memory,
                }
            },
        }
    }
}

impl DeepView for Event {
    type V = EventView;

    open spec fn deep_view(&self) -> EventView {
        self.view()
    }
}

} // verus!
