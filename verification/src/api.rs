//! Plain request/response types of the operator's public surface, and the
//! mapping of engine errors onto transport-level error categories.
use crate::error::Error;
use crate::model::{Cluster, ClusterNodeView};
use crate::proxmox;
use crate::text::spec_dec;
use vstd::prelude::*;

verus! {

/// How a failure is reported to a caller of the public surface.
#[derive(Debug)]
pub enum HandlerError {
    BadRequest(String),
    NotFound(String),
    UnAuthorized,
    InternalServerError(String),
}

impl HandlerError {
    /// Maps an engine error onto its caller-facing category.
    ///
    /// `ResourceAlreadyExists` is the caller's fault (bad request),
    /// `ResourceNotFound` a missing resource, and everything else an internal
    /// failure carrying the original text.
    pub fn from_error(e: &Error) -> (r: HandlerError)
        ensures
            e is ResourceAlreadyExists ==> (r matches HandlerError::BadRequest(m) && m@
                == "Cluster already exists"@),
            e is ResourceNotFound ==> (r matches HandlerError::NotFound(m) && m@
                == "Cluster not found"@),
            e matches Error::Generic(t) ==> (r matches HandlerError::InternalServerError(m) && m@
                == t@),
    {
        match e {
            Error::ResourceAlreadyExists => HandlerError::BadRequest(
                String::from_str("Cluster already exists"),
            ),
            Error::ResourceNotFound => HandlerError::NotFound(
                String::from_str("Cluster not found"),
            ),
            Error::Generic(t) => HandlerError::InternalServerError(t.clone()),
        }
    }

    /// Maps a hypervisor client error onto its caller-facing category.
    ///
    /// Connectivity and credential failures read as unauthorized; an HTTP
    /// error is reported as `status-reason: response`; the rest carry their
    /// text as internal failures.
    pub fn from_remote(e: &proxmox::Error) -> (r: HandlerError)
        ensures
            e matches proxmox::Error::Generic(t) ==> (r
                matches HandlerError::InternalServerError(m) && m@ == t@),
            e is CannotConnectToProxmox ==> r is UnAuthorized,
            e is CredentialsInvalid ==> r is UnAuthorized,
            e matches proxmox::Error::HttpError { status, reason, response } ==> (r
                matches HandlerError::InternalServerError(m) && m@ == spec_dec(status as nat)
                + "-"@ + reason@ + ": "@ + response@),
            e matches proxmox::Error::BodyMalformed(t) ==> (r
                matches HandlerError::InternalServerError(m) && m@ == t@),
    {
        match e {
            proxmox::Error::Generic(t) => HandlerError::InternalServerError(t.clone()),
            proxmox::Error::CannotConnectToProxmox(_) => HandlerError::UnAuthorized,
            proxmox::Error::CredentialsInvalid => HandlerError::UnAuthorized,
            proxmox::Error::HttpError { status, reason, response } => {
                let mut m = crate::text::dec_u64(*status as u64);
                m.append("-");
                m.append(reason.as_str());
                m.append(": ");
                m.append(response.as_str());
                HandlerError::InternalServerError(m)
            },
            proxmox::Error::BodyMalformed(t) => HandlerError::InternalServerError(t.clone()),
        }
    }
}

/// Which piece of a cluster an export request asks for.
#[derive(Clone, Copy, PartialEq, Eq, Structural, Debug)]
pub enum ExportType {
    PrivateKey,
    PublicKey,
    KubeConfig,
}

/// The status of one Helm app, rendered for the caller.
#[derive(Debug)]
pub struct HelmAppStatus {
    pub id: String,
    pub status: String,
}

/// The combined VM and Kubernetes status of one node, rendered for the
/// caller.
#[derive(Debug)]
pub struct NodeStatus {
    pub vm_id: i32,
    pub vm_status: String,
    pub k8s_status: String,
}

/// Credentials a caller logs in with.
#[derive(Debug)]
pub struct LoginRequest {
    pub host: String,
    pub port: u16,
    pub username: String,
    pub password: String,
}

/// The power state of one cluster VM.
#[derive(Debug)]
pub struct ClusterNodeVmStatus {
    pub vm_id: u32,
    pub status: proxmox::VmStatus,
}

/// One storage offered for cluster disks, with capacity counters.
#[derive(Debug)]
pub struct AvailableStorage {
    pub storage: String,
    pub avail: Option<u64>,
    pub used: Option<u64>,
    pub total: Option<u64>,
}

/// One host bridge offered for cluster networking.
#[derive(Debug)]
pub struct AvailableNetwork {
    pub iface: String,
    pub address: Option<String>,
}

/// A request to change a node's cores and memory.
#[derive(Debug)]
pub struct ChangeNodeResourcesRequest {
    pub cores: u16,
    /// Unit: MiB
    pub memory: u32,
}

/// One guest OS image the engine can install from.
#[derive(Debug)]
pub struct AvailableOsImage {
    pub name: String,
    pub url: String,
}

impl AvailableOsImage {
    /// An image record with the given display name and download URL.
    pub fn new(name: &str, url: &str) -> (r: Self)
        ensures
            r.name@ == name@,
            r.url@ == url@,
    {
        AvailableOsImage { name: name.to_owned(), url: url.to_owned() }
    }
}

/// One Kubernetes release channel the engine can install.
#[derive(Debug)]
pub struct AvailableKubeVersion {
    pub version: String,
}

impl AvailableKubeVersion {
    /// A version record for the given channel.
    pub fn new(version: &str) -> (r: Self)
        ensures
            r.version@ == version@,
    {
        AvailableKubeVersion { version: version.to_owned() }
    }
}

/// What a logged-in caller's session stores.
#[derive(Debug)]
pub struct WebSession {
    pub access: proxmox::AccessData,
}

/// Projections of the hypervisor's storage records onto what a caller picks
/// from: name and capacity counters, carried over one for one.
pub fn storages_to_available(storages: &Vec<proxmox::Storage>) -> (r: Vec<AvailableStorage>)
    ensures
        r@.len() == storages@.len(),
        forall|i: int|
            0 <= i < r@.len() ==> #[trigger] r@[i].storage@ == storages@[i].storage@ && r@[i].avail
                == storages@[i].avail && r@[i].used == storages@[i].used && r@[i].total
                == storages@[i].total,
{
    let mut out: Vec<AvailableStorage> = Vec::new();
    let mut i: usize = 0;
    while i < storages.len()
        invariant
            i <= storages@.len(),
            out@.len() == i,
            forall|k: int|
                0 <= k < i ==> #[trigger] out@[k].storage@ == storages@[k].storage@
                    && out@[k].avail == storages@[k].avail && out@[k].used == storages@[k].used
                    && out@[k].total == storages@[k].total,
        decreases storages@.len() - i,
    {
        let s = &storages[i];
        out.push(
            AvailableStorage {
                storage: s.storage.clone(),
                avail: s.avail,
                used: s.used,
                total: s.total,
            },
        );
        i = i + 1;
    }
    out
}

/// Projections of the hypervisor's bridge records onto what a caller picks
/// from: interface name and address.
pub fn networks_to_available(bridges: &Vec<proxmox::Network>) -> (r: Vec<AvailableNetwork>)
    ensures
        r@.len() == bridges@.len(),
        forall|i: int|
            0 <= i < r@.len() ==> #[trigger] r@[i].iface@ == bridges@[i].iface@
                && crate::model::opt_str_view(r@[i].address) == crate::model::opt_str_view(
                bridges@[i].address,
            ),
{
    let mut out: Vec<AvailableNetwork> = Vec::new();
    let mut i: usize = 0;
    while i < bridges.len()
        invariant
            i <= bridges@.len(),
            out@.len() == i,
            forall|k: int|
                0 <= k < i ==> #[trigger] out@[k].iface@ == bridges@[k].iface@
                    && crate::model::opt_str_view(out@[k].address) == crate::model::opt_str_view(
                    bridges@[k].address,
                ),
        decreases bridges@.len() - i,
    {
        let b = &bridges[i];
        let address = match &b.address {
            Some(a) => Some(a.clone()),
            None => None,
        };
        proof {
            assert(crate::model::opt_str_view(address) == crate::model::opt_str_view(
                bridges@[i as int].address,
            ));
        }
        out.push(AvailableNetwork { iface: b.iface.clone(), address });
        proof {
            assert(out@[i as int].iface@ == bridges@[i as int].iface@);
        }
        i = i + 1;
    }
    out
}

/// Whether some cluster node carries the VM id.
pub open spec fn cluster_has_vm_id(nodes: Seq<ClusterNodeView>, vm_id: u32) -> bool {
    exists|k: int| 0 <= k < nodes.len() && (#[trigger] nodes[k]).vm_id == vm_id
}

/// The membership test [`cluster_has_vm_id`] as a filter predicate.
pub open spec fn vm_of_cluster(nodes: Seq<ClusterNodeView>) -> spec_fn(
    proxmox::VirtualMachine,
) -> bool {
    |v: proxmox::VirtualMachine| cluster_has_vm_id(nodes, v.vm_id)
}

/// The listed VM records that belong to the cluster.
pub open spec fn kept_vms(
    vms: Seq<proxmox::VirtualMachine>,
    nodes: Seq<ClusterNodeView>,
) -> Seq<proxmox::VirtualMachine> {
    vms.filter(vm_of_cluster(nodes))
}

/// The power state of every listed VM that belongs to the cluster, in
/// listing order: the listing filtered to the cluster's VM ids and projected
/// onto id and state.
#[verifier::rlimit(30)]
pub fn cluster_vm_status_merge(cluster: &Cluster, vms: &Vec<proxmox::VirtualMachine>) -> (r: Vec<
    ClusterNodeVmStatus,
>)
    ensures
        r@.len() == kept_vms(vms@, cluster.nodes.deep_view()).len(),
        forall|i: int|
            0 <= i < r@.len() ==> #[trigger] r@[i].vm_id == kept_vms(
                vms@,
                cluster.nodes.deep_view(),
            )[i].vm_id,
        forall|i: int|
            0 <= i < r@.len() ==> #[trigger] r@[i].status == kept_vms(
                vms@,
                cluster.nodes.deep_view(),
            )[i].status,
{
    let ghost nodes_v = cluster.nodes.deep_view();
    let mut ids: Vec<u32> = Vec::new();
    let mut k: usize = 0;
    while k < cluster.nodes.len()
        invariant
            k <= nodes_v.len(),
            cluster.nodes.deep_view() == nodes_v,
            nodes_v.len() == cluster.nodes@.len(),
            ids@.len() == k,
            forall|j: int| 0 <= j < k ==> #[trigger] ids@[j] == nodes_v[j].vm_id,
        decreases cluster.nodes@.len() - k,
    {
        proof {
            assert(nodes_v[k as int] == cluster.nodes@[k as int]@);
        }
        ids.push(cluster.nodes[k].vm_id);
        k = k + 1;
    }
    let mut out: Vec<ClusterNodeVmStatus> = Vec::new();
    let mut i: usize = 0;
    while i < vms.len()
        invariant
            i <= vms@.len(),
            nodes_v.len() == ids@.len(),
            forall|j: int| 0 <= j < ids@.len() ==> #[trigger] ids@[j] == nodes_v[j].vm_id,
            out@.len() == kept_vms(vms@.subrange(0, i as int), nodes_v).len(),
            forall|x: int|
                0 <= x < out@.len() ==> #[trigger] out@[x].vm_id == kept_vms(
                    vms@.subrange(0, i as int),
                    nodes_v,
                )[x].vm_id,
            forall|x: int|
                0 <= x < out@.len() ==> #[trigger] out@[x].status == kept_vms(
                    vms@.subrange(0, i as int),
                    nodes_v,
                )[x].status,
        decreases vms@.len() - i,
    {
        let ghost prefix = vms@.subrange(0, i as int);
        let member = crate::workflow::contains_id(&ids, vms[i].vm_id);
        proof {
            if ids@.contains(vms@[i as int].vm_id) {
                let j = choose|j: int| 0 <= j < ids@.len() && ids@[j] == vms@[i as int].vm_id;
                assert((nodes_v[j]).vm_id == vms@[i as int].vm_id);
                assert(cluster_has_vm_id(nodes_v, vms@[i as int].vm_id));
            } else {
                if cluster_has_vm_id(nodes_v, vms@[i as int].vm_id) {
                    let j = choose|j: int|
                        0 <= j < nodes_v.len() && (#[trigger] nodes_v[j]).vm_id == vms@[i
                            as int].vm_id;
                    assert(ids@[j] == vms@[i as int].vm_id);
                }
            }
            assert(member == vm_of_cluster(nodes_v)(vms@[i as int]));
        }
        let ghost old_out = out@;
        if member {
            out.push(ClusterNodeVmStatus { vm_id: vms[i].vm_id, status: vms[i].status });
        }
        proof {
            reveal(Seq::filter);
            assert(vms@.subrange(0, i + 1).drop_last() =~= prefix);
            assert(vms@.subrange(0, i + 1).last() == vms@[i as int]);
            let kept = kept_vms(vms@.subrange(0, i + 1), nodes_v);
            if member {
                assert(vm_of_cluster(nodes_v)(vms@[i as int]));
                assert(kept =~= kept_vms(prefix, nodes_v).push(vms@[i as int]));
                assert(out@[out@.len() - 1].vm_id == vms@[i as int].vm_id);
                assert forall|x: int|
                    0 <= x < out@.len() implies #[trigger] out@[x].vm_id == kept[x].vm_id by {
                    if x < out@.len() - 1 {
                        assert(out@[x] == old_out[x]);
                        assert(kept[x] == kept_vms(prefix, nodes_v)[x]);
                    } else {
                        assert(kept[x] == vms@[i as int]);
                    }
                }
                assert forall|x: int|
                    0 <= x < out@.len() implies #[trigger] out@[x].status == kept[x].status by {
                    if x < out@.len() - 1 {
                        assert(out@[x] == old_out[x]);
                        assert(kept[x] == kept_vms(prefix, nodes_v)[x]);
                    } else {
                        assert(kept[x] == vms@[i as int]);
                    }
                }
            } else {
                assert(!vm_of_cluster(nodes_v)(vms@[i as int]));
                assert(kept =~= kept_vms(prefix, nodes_v));
            }
        }
        i = i + 1;
    }
    proof {
        assert(vms@.subrange(0, vms@.len() as int) =~= vms@);
    }
    out
}

/// The exported text and download file name of one export request: the
/// private key under the cluster's name, the public key under
/// `{name}.pub`, the kubeconfig under `config`.
pub fn export_data(cluster: &Cluster, export_type: ExportType) -> (r: (String, String))
    ensures
        export_type is PrivateKey ==> r.0@ == cluster@.ssh_key.private_key && r.1@
            == cluster@.cluster_name,
        export_type is PublicKey ==> r.0@ == cluster@.ssh_key.public_key && r.1@
            == cluster@.cluster_name + ".pub"@,
        export_type is KubeConfig ==> r.0@ == cluster@.cluster_config && r.1@ == "config"@,
{
    match export_type {
        ExportType::PrivateKey => (cluster.ssh_key.private_key.clone(), cluster.cluster_name.clone()),
        ExportType::PublicKey => (
            cluster.ssh_key.public_key.clone(),
            crate::text::concat2(cluster.cluster_name.as_str(), ".pub"),
        ),
        ExportType::KubeConfig => (cluster.cluster_config.clone(), String::from_str("config")),
    }
}

} // verus!
