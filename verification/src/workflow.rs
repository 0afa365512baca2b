//! The common vocabulary of the workflow machines: the remote actions a
//! workflow asks for, the outcomes handed back, the bounded poll budget, and
//! verified helpers over the hypervisor's inventory listings.
//!
//! A workflow never performs a side effect itself: it hands out one
//! [`Action`] at a time, and the driver reports how the action went as an
//! [`Outcome`]. Every retry and abort decision is taken here, verified.
use crate::model::{Cluster, ClusterNode, ClusterNodeType, ClusterNodeView};
use crate::plans::{spec_hostname, GuestStep};
use crate::proxmox::{
    CreateVirtualMachine, DownloadImage, LxcContainer, ResizeDisk, StorageContent, VirtualMachine,
    VmConfig, VmStatus,
};
use crate::text;
use vstd::prelude::*;

verus! {

/// The fixed delay between poll attempts, in seconds.
pub const RETRY_DELAY_SECS: u64 = 10;

/// The fixed number of poll attempts granted to each wait.
pub const RETRY_ATTEMPTS: u64 = 30;

/// Where and as whom to open an SSH session on a guest.
#[derive(Debug)]
pub struct SshTarget {
    pub ip: String,
    pub username: String,
    pub private_key: String,
    pub public_key: String,
}

/// The SSH target of one node of a cluster: the node's address with the
/// cluster's guest credentials.
pub fn guest_target(cluster: &Cluster, node: &ClusterNode) -> (r: SshTarget)
    ensures
        r.ip@ == node@.ip_address,
        r.username@ == cluster@.node_username,
        r.private_key@ == cluster@.ssh_key.private_key,
        r.public_key@ == cluster@.ssh_key.public_key,
{
    SshTarget {
        ip: node.ip_address.clone(),
        username: cluster.node_username.clone(),
        private_key: cluster.ssh_key.private_key.clone(),
        public_key: cluster.ssh_key.public_key.clone(),
    }
}

/// How the driver should hand back the output of a guest command.
#[derive(Clone, Copy, PartialEq, Eq, Structural, Debug)]
pub enum ParseAs {
    /// Raw stdout as [`Outcome::Output`].
    Text,
    /// The JSON join reply of `microk8s add-node`, as [`Outcome::JoinInfo`]
    /// carrying the reply's `urls` list.
    JoinJson,
}

/// One remote operation a workflow asks the driver to perform.
#[derive(Debug)]
pub enum Action {
    /// List the VMs of a hypervisor node (`full` includes the config lock).
    ListVms { node: String, full: bool },
    /// List the LXC containers of a hypervisor node.
    ListContainers { node: String },
    /// Create a VM.
    CreateVm { spec: CreateVirtualMachine },
    /// Start a VM.
    StartVm { node: String, vm_id: u32 },
    /// Ask a VM to shut down gracefully.
    ShutdownVm { node: String, vm_id: u32 },
    /// Stop a VM forcibly.
    StopVm { node: String, vm_id: u32 },
    /// Delete a VM.
    DeleteVm { node: String, vm_id: u32 },
    /// Change a VM's cores and memory.
    UpdateVmConfig { spec: VmConfig },
    /// Grow a VM disk.
    ResizeDisk { spec: ResizeDisk },
    /// Read a VM's power state.
    VmPowerState { node: String, vm_id: u32 },
    /// List the volumes of a storage.
    ListStorageContent { node: String, storage: String },
    /// Ask the hypervisor to download an image by URL.
    DownloadImage { spec: DownloadImage },
    /// Read a volume's details (its filesystem path).
    StoragePath { node: String, storage: String, volid: String },
    /// Run a shell line or upload a file on a guest.
    Guest { target: SshTarget, step: GuestStep, parse: ParseAs },
    /// Test whether a file exists on a guest.
    GuestFileExists { target: SshTarget, path: String },
    /// Generate a fresh 4096-bit SSH key pair.
    GenerateSshKeys,
    /// Wait the given number of seconds.
    Sleep { seconds: u64 },
}

/// What came of the last action.
#[derive(Debug)]
pub enum Outcome {
    /// The action succeeded and carries no payload.
    Succeeded,
    /// Stdout of a guest command, or a volume's path.
    Output { text: String },
    /// Whether the tested file exists.
    Exists { yes: bool },
    /// The listed VMs.
    Vms { vms: Vec<VirtualMachine> },
    /// The listed containers.
    Containers { items: Vec<LxcContainer> },
    /// The listed volumes.
    StorageItems { items: Vec<StorageContent> },
    /// The read power state.
    Power { status: VmStatus },
    /// The generated key pair.
    Keys { keys: crate::model::KeyPair },
    /// The join URLs a master handed out.
    JoinInfo { urls: Vec<String> },
    /// The action failed, with the driver's description.
    Failed { error: String },
}

/// What a workflow answers per step: the next action to perform, or the
/// workflow's final result.
#[derive(Debug)]
pub enum Step {
    Do(Action),
    Done(Result<(), String>),
}

/// A bounded poll budget: a fixed number of attempts remain.
#[derive(Clone, Copy, PartialEq, Eq, Structural, Debug)]
pub struct Poll {
    pub attempts_left: u64,
}

impl Poll {
    /// A fresh budget of the standard thirty attempts.
    pub fn new() -> (r: Poll)
        ensures
            r.attempts_left == RETRY_ATTEMPTS,
    {
        Poll { attempts_left: RETRY_ATTEMPTS }
    }

    /// Spends one attempt. Returns whether another try is allowed; the
    /// budget never goes below zero.
    pub fn consume(&mut self) -> (retry: bool)
        ensures
            retry == (old(self).attempts_left > 0),
            final (self).attempts_left == if old(self).attempts_left > 0 {
                (old(self).attempts_left - 1) as u64
            } else {
                0
            },
    {
        if self.attempts_left > 0 {
            self.attempts_left = self.attempts_left - 1;
            true
        } else {
            false
        }
    }
}

/// Whether the VM record carrying `vm_id` (the first such record) holds a
/// config lock; false when no record carries it.
pub open spec fn spec_vm_locked(vms: Seq<VirtualMachine>, vm_id: u32) -> bool
    decreases vms.len(),
{
    if vms.len() == 0 {
        false
    } else if vms[0].vm_id == vm_id {
        vms[0].lock is Some
    } else {
        spec_vm_locked(vms.drop_first(), vm_id)
    }
}

/// Whether the first listed record of `vm_id` holds a config lock.
pub fn vm_locked(vms: &Vec<VirtualMachine>, vm_id: u32) -> (r: bool)
    ensures
        r == spec_vm_locked(vms@, vm_id),
{
    let mut i: usize = 0;
    proof {
        assert(vms@.skip(0) =~= vms@);
    }
    while i < vms.len()
        invariant
            i <= vms@.len(),
            spec_vm_locked(vms@, vm_id) == spec_vm_locked(vms@.skip(i as int), vm_id),
        decreases vms@.len() - i,
    {
        proof {
            assert(vms@.skip(i as int)[0] == vms@[i as int]);
            assert(vms@.skip(i as int).drop_first() =~= vms@.skip(i + 1));
        }
        if vms[i].vm_id == vm_id {
            return match &vms[i].lock {
                Some(_) => true,
                None => false,
            };
        }
        i = i + 1;
    }
    proof {
        assert(vms@.skip(vms@.len() as int) =~= Seq::<VirtualMachine>::empty());
    }
    false
}

/// The ids of the listed VMs, in listing order.
pub fn vm_ids(vms: &Vec<VirtualMachine>) -> (r: Vec<u32>)
    ensures
        r@.len() == vms@.len(),
        forall|k: int| 0 <= k < vms@.len() ==> r@[k] == vms@[k].vm_id,
{
    let mut out: Vec<u32> = Vec::new();
    let mut i: usize = 0;
    while i < vms.len()
        invariant
            i <= vms@.len(),
            out@.len() == i,
            forall|k: int| 0 <= k < i ==> out@[k] == vms@[k].vm_id,
        decreases vms@.len() - i,
    {
        out.push(vms[i].vm_id);
        i = i + 1;
    }
    out
}

/// The numeric ids of the listed containers, in listing order; a container
/// id that does not parse as a number counts as zero.
/// The numeric id of each listed container, in listing order; an id that
/// does not parse reads as zero.
pub open spec fn spec_container_ids(items: Seq<LxcContainer>) -> Seq<u32> {
    items.map_values(
        |c: LxcContainer|
            match text::spec_parse_u32(c.vm_id@) {
                Some(v) => v,
                None => 0u32,
            },
    )
}

pub fn container_ids(items: &Vec<LxcContainer>) -> (r: Vec<u32>)
    ensures
        r@ == spec_container_ids(items@),
        r@.len() == items@.len(),
        forall|k: int|
            0 <= k < items@.len() ==> r@[k] == (match text::spec_parse_u32(items@[k].vm_id@) {
                Some(v) => v,
                None => 0u32,
            }),
{
    let mut out: Vec<u32> = Vec::new();
    let mut i: usize = 0;
    while i < items.len()
        invariant
            i <= items@.len(),
            out@.len() == i,
            forall|k: int|
                0 <= k < i ==> out@[k] == (match text::spec_parse_u32(items@[k].vm_id@) {
                    Some(v) => v,
                    None => 0u32,
                }),
        decreases items@.len() - i,
    {
        let id = match text::parse_u32(items[i].vm_id.as_str()) {
            Some(v) => v,
            None => 0,
        };
        out.push(id);
        i = i + 1;
    }
    proof {
        assert(out@ =~= spec_container_ids(items@));
    }
    out
}

/// Whether `ids` holds `id`.
pub fn contains_id(ids: &Vec<u32>, id: u32) -> (r: bool)
    ensures
        r == ids@.contains(id),
{
    let mut i: usize = 0;
    while i < ids.len()
        invariant
            i <= ids@.len(),
            forall|k: int| 0 <= k < i ==> ids@[k] != id,
        decreases ids@.len() - i,
    {
        if ids[i] == id {
            return true;
        }
        i = i + 1;
    }
    false
}

/// Whether one listed VM record matches node `n` of cluster `c`: same id,
/// and the listed name (empty when absent) equals the node's guest hostname.
pub open spec fn spec_vm_record_matches(
    c: crate::model::ClusterView,
    n: ClusterNodeView,
    vm: VirtualMachine,
) -> bool {
    vm.vm_id == n.vm_id && (match vm.name {
        Some(nm) => nm@ == spec_hostname(c.cluster_name, n.name),
        None => "".view() == spec_hostname(c.cluster_name, n.name),
    })
}

/// Whether the hypervisor listing shows a record matching node `n` of the
/// cluster.
pub open spec fn spec_node_vm_listed(c: crate::model::ClusterView, n: ClusterNodeView, vms: Seq<
    VirtualMachine,
>) -> bool {
    exists|k: int| 0 <= k < vms.len() && #[trigger] spec_vm_record_matches(c, n, vms[k])
}

/// Whether a listed VM record matches node `n`.
fn vm_matches_node(cluster: &Cluster, node: &ClusterNode, vm: &VirtualMachine) -> (r: bool)
    ensures
        r == spec_vm_record_matches(cluster@, node@, *vm),
{
    if vm.vm_id != node.vm_id {
        return false;
    }
    let host = crate::plans::hostname(cluster.cluster_name.as_str(), node.name.as_str());
    match &vm.name {
        Some(nm) => text::str_eq(nm.as_str(), host.as_str()),
        None => text::str_eq("", host.as_str()),
    }
}

/// The membership test [`spec_node_vm_listed`] as a filter predicate.
pub open spec fn listed_filter(c: crate::model::ClusterView, vms: Seq<VirtualMachine>) -> spec_fn(
    ClusterNodeView,
) -> bool {
    |n: ClusterNodeView| spec_node_vm_listed(c, n, vms)
}

/// The cluster nodes whose VM still exists on the hypervisor: those with a
/// listed record of the same id named `{cluster}-{node}`.
pub fn existing_nodes(cluster: &Cluster, vms: &Vec<VirtualMachine>) -> (r: Vec<ClusterNode>)
    ensures
        r.deep_view() =~= cluster.nodes.deep_view().filter(listed_filter(cluster@, vms@)),
{
    let ghost nodes_v = cluster.nodes.deep_view();
    let mut out: Vec<ClusterNode> = Vec::new();
    let mut i: usize = 0;
    while i < cluster.nodes.len()
        invariant
            i <= nodes_v.len(),
            cluster.nodes.deep_view() == nodes_v,
            nodes_v.len() == cluster.nodes@.len(),
            out.deep_view() =~= nodes_v.subrange(0, i as int).filter(listed_filter(cluster@, vms@)),
        decreases cluster.nodes@.len() - i,
    {
        let ghost prefix = nodes_v.subrange(0, i as int);
        proof {
            assert(nodes_v[i as int] == cluster.nodes@[i as int]@);
        }
        let mut k: usize = 0;
        let mut found: bool = false;
        while k < vms.len()
            invariant
                k <= vms@.len(),
                i < cluster.nodes@.len(),
                nodes_v[i as int] == cluster.nodes@[i as int]@,
                !found ==> forall|j: int|
                    0 <= j < k ==> !#[trigger] spec_vm_record_matches(
                        cluster@,
                        nodes_v[i as int],
                        vms@[j],
                    ),
                found ==> spec_node_vm_listed(cluster@, nodes_v[i as int], vms@),
            decreases vms@.len() - k,
        {
            if !found && vm_matches_node(cluster, &cluster.nodes[i], &vms[k]) {
                proof {
                    assert(spec_vm_record_matches(cluster@, nodes_v[i as int], vms@[k as int]));
                }
                found = true;
            }
            k = k + 1;
        }
        if found {
            out.push(cluster.nodes[i].clone());
        }
        proof {
            assert(listed_filter(cluster@, vms@)(nodes_v[i as int]) == spec_node_vm_listed(
                cluster@,
                nodes_v[i as int],
                vms@,
            ));
            if !found {
                assert(!spec_node_vm_listed(cluster@, nodes_v[i as int], vms@));
            }
            reveal(Seq::filter);
            assert(nodes_v.subrange(0, i + 1).drop_last() =~= prefix);
        }
        i = i + 1;
    }
    proof {
        assert(nodes_v.subrange(0, nodes_v.len() as int) =~= nodes_v);
    }
    out
}


/// Whether the listing shows a record matching `node`.
pub fn node_listed(cluster: &Cluster, node: &ClusterNode, vms: &Vec<VirtualMachine>) -> (r: bool)
    ensures
        r == spec_node_vm_listed(cluster@, node@, vms@),
{
    let mut k: usize = 0;
    while k < vms.len()
        invariant
            k <= vms@.len(),
            forall|j: int|
                0 <= j < k ==> !#[trigger] spec_vm_record_matches(cluster@, node@, vms@[j]),
        decreases vms@.len() - k,
    {
        if vm_matches_node(cluster, node, &vms[k]) {
            proof {
                assert(spec_vm_record_matches(cluster@, node@, vms@[k as int]));
            }
            return true;
        }
        k = k + 1;
    }
    false
}

/// The index of the first node carrying `name`, if any.
pub fn find_node_index(nodes: &Vec<ClusterNode>, name: &str) -> (r: Option<usize>)
    ensures
        match r {
            Some(i) => i < nodes@.len() && nodes@[i as int]@.name == name@ && (forall|j: int|
                0 <= j < i ==> #[trigger] nodes@[j]@.name != name@),
            None => forall|j: int| 0 <= j < nodes@.len() ==> #[trigger] nodes@[j]@.name != name@,
        },
{
    let mut i: usize = 0;
    while i < nodes.len()
        invariant
            i <= nodes@.len(),
            forall|j: int| 0 <= j < i ==> #[trigger] nodes@[j]@.name != name@,
        decreases nodes@.len() - i,
    {
        if text::str_eq(nodes[i].name.as_str(), name) {
            return Some(i);
        }
        i = i + 1;
    }
    None
}

/// The index of the first master node, optionally skipping one name.
pub fn find_master(nodes: &Vec<ClusterNode>, exclude_name: Option<&str>) -> (r: Option<usize>)
    ensures
        match r {
            Some(i) => i < nodes@.len() && nodes@[i as int]@.node_type == ClusterNodeType::Master
                && (match exclude_name {
                Some(x) => nodes@[i as int]@.name != x@,
                None => true,
            }),
            None => forall|j: int|
                0 <= j < nodes@.len() ==> !(#[trigger] nodes@[j]@.node_type
                    == ClusterNodeType::Master && (match exclude_name {
                    Some(x) => nodes@[j]@.name != x@,
                    None => true,
                })),
        },
{
    let mut i: usize = 0;
    while i < nodes.len()
        invariant
            i <= nodes@.len(),
            forall|j: int|
                0 <= j < i ==> !(#[trigger] nodes@[j]@.node_type == ClusterNodeType::Master && (
                match exclude_name {
                    Some(x) => nodes@[j]@.name != x@,
                    None => true,
                })),
        decreases nodes@.len() - i,
    {
        if nodes[i].node_type == ClusterNodeType::Master {
            let keep = match exclude_name {
                Some(x) => !text::str_eq(nodes[i].name.as_str(), x),
                None => true,
            };
            if keep {
                return Some(i);
            }
        }
        i = i + 1;
    }
    None
}

/// The index of the master with the smallest VM id; `None` when the cluster
/// has no master.
pub fn first_master_by_vm_id(nodes: &Vec<ClusterNode>) -> (r: Option<usize>)
    ensures
        match r {
            Some(i) => i < nodes@.len() && nodes@[i as int]@.node_type == ClusterNodeType::Master
                && (forall|j: int|
                0 <= j < nodes@.len() && #[trigger] nodes@[j]@.node_type == ClusterNodeType::Master
                    ==> nodes@[i as int]@.vm_id <= nodes@[j]@.vm_id),
            None => forall|j: int|
                0 <= j < nodes@.len() ==> #[trigger] nodes@[j]@.node_type
                    != ClusterNodeType::Master,
        },
{
    let mut best: Option<usize> = None;
    let mut i: usize = 0;
    while i < nodes.len()
        invariant
            i <= nodes@.len(),
            match best {
                Some(b) => b < i && nodes@[b as int]@.node_type == ClusterNodeType::Master && (
                forall|j: int|
                    0 <= j < i && #[trigger] nodes@[j]@.node_type == ClusterNodeType::Master
                        ==> nodes@[b as int]@.vm_id <= nodes@[j]@.vm_id),
                None => forall|j: int|
                    0 <= j < i ==> #[trigger] nodes@[j]@.node_type != ClusterNodeType::Master,
            },
        decreases nodes@.len() - i,
    {
        if nodes[i].node_type == ClusterNodeType::Master {
            let better = match best {
                Some(b) => nodes[i].vm_id < nodes[b].vm_id,
                None => true,
            };
            if better {
                best = Some(i);
            }
        }
        i = i + 1;
    }
    best
}

} // verus!
