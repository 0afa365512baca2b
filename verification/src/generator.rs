//! Default cluster configuration: VM-id slot allocation and the initial
//! cluster request derived from the hypervisor's inventory.
use crate::error::Error;
use crate::model::{ClusterNode, ClusterNodeType, ClusterRequest, KeyPair, Network};
use crate::proxmox;
use crate::supported;
use crate::text;
use vstd::prelude::*;

verus! {

/// Whether the ten-wide id slot starting at `base` is clear of every used id
/// (both bounds of `[base, base + 10]` included, as the allocator checks).
pub open spec fn slot_free(used: Seq<u32>, base: int) -> bool {
    forall|k: int| 0 <= k < used.len() ==> !(base <= #[trigger] used[k] <= base + 10)
}

/// Whether any used id falls in the slot `[base, base + 10]`.
fn range_used(used_vm_ids: &[u32], base: u32) -> (r: bool)
    requires
        base + 10 <= u32::MAX,
    ensures
        r == !slot_free(used_vm_ids@, base as int),
{
    let mut k: usize = 0;
    while k < used_vm_ids.len()
        invariant
            k <= used_vm_ids@.len(),
            base + 10 <= u32::MAX,
            forall|j: int| 0 <= j < k ==> !(base <= #[trigger] used_vm_ids@[j] <= base + 10),
        decreases used_vm_ids@.len() - k,
    {
        let id = used_vm_ids[k];
        if base <= id && id <= base + 10 {
            return true;
        }
        k = k + 1;
    }
    false
}

/// Returns the first multiple-of-ten base `>= 100` such that no used id falls
/// in `[base, base + 10]`, or an error when every such slot below
/// `999 999 999` is taken.
pub fn find_empty_slot_for_vm_ids(used_vm_ids: &[u32]) -> (r: Result<u32, Error>)
    ensures
        match r {
            Ok(v) => 100 <= v < 999_999_999 && v % 10 == 0 && slot_free(used_vm_ids@, v as int)
                && (forall|b: int|
                100 <= b < v && b % 10 == 0 ==> !slot_free(used_vm_ids@, b)),
            Err(e) => e is Generic && (forall|b: int|
                100 <= b < 999_999_999 && b % 10 == 0 ==> !slot_free(used_vm_ids@, b)),
        },
{
    let mut x: u32 = 100;
    while x < 999_999_999
        invariant
            100 <= x <= 999_999_999 + 9,
            x % 10 == 0,
            forall|b: int| 100 <= b < x && b % 10 == 0 ==> !slot_free(used_vm_ids@, b),
        decreases 1_000_000_000 - x,
    {
        if !range_used(used_vm_ids, x) {
            return Ok(x);
        }
        x = x + 10;
    }
    Err(Error::Generic(String::from_str("Cannot find free slot")))
}

/// The download URL of the first supported OS image.
pub fn get_default_os_image() -> (r: String)
    ensures
        r@ == "https://cloud-images.ubuntu.com/jammy/current/jammy-server-cloudimg-amd64.img"@,
{
    let images = supported::os_images();
    let first = &images[0];
    first.url.clone()
}

/// The newest supported Kubernetes channel.
pub fn get_default_kube_version() -> (r: String)
    ensures
        r@ == "1.28/stable"@,
{
    let versions = supported::kube_versions();
    proof {
        assert(versions.deep_view().len() == versions@.len());
        assert(versions.deep_view()[0] == versions@[0]@);
    }
    versions[0].clone()
}

/// The first free VM-id slot given the ids of the node's VMs and containers.
pub fn get_default_start_vm_id(vm_ids: &Vec<u32>, container_ids: &Vec<u32>) -> (r: Result<
    u32,
    Error,
>)
    ensures
        match r {
            Ok(v) => 100 <= v < 999_999_999 && v % 10 == 0 && slot_free(
                vm_ids@ + container_ids@,
                v as int,
            ),
            Err(e) => e is Generic,
        },
{
    let mut used: Vec<u32> = Vec::new();
    let mut i: usize = 0;
    while i < vm_ids.len()
        invariant
            i <= vm_ids@.len(),
            used@ =~= vm_ids@.subrange(0, i as int),
        decreases vm_ids@.len() - i,
    {
        used.push(vm_ids[i]);
        i = i + 1;
    }
    let mut j: usize = 0;
    while j < container_ids.len()
        invariant
            j <= container_ids@.len(),
            used@ =~= vm_ids@ + container_ids@.subrange(0, j as int),
        decreases container_ids@.len() - j,
    {
        used.push(container_ids[j]);
        j = j + 1;
    }
    proof {
        assert(used@ =~= vm_ids@ + container_ids@);
    }
    find_empty_slot_for_vm_ids(used.as_slice())
}

/// Whether a bridge record's address equals the hypervisor host address.
pub open spec fn bridge_matches(b: proxmox::Network, host: Seq<char>) -> bool {
    match b.address {
        Some(a) => a@ == host,
        None => false,
    }
}

/// Whether `r` carries the observable network settings of `b`.
pub open spec fn same_network_settings(r: proxmox::Network, b: proxmox::Network) -> bool {
    r.network_type == b.network_type && r.iface@ == b.iface@ && crate::model::opt_str_view(
        r.address,
    ) == crate::model::opt_str_view(b.address) && crate::model::opt_str_view(r.gateway)
        == crate::model::opt_str_view(b.gateway) && crate::model::opt_str_view(r.netmask)
        == crate::model::opt_str_view(b.netmask)
}

/// The first bridge whose address equals `host`, or an empty default record
/// when none matches.
pub fn get_default_network(bridges: &Vec<proxmox::Network>, host: &str) -> (r: proxmox::Network)
    ensures
        (exists|i: int| 0 <= i < bridges@.len() && #[trigger] bridge_matches(bridges@[i], host@))
            ==> exists|i: int|
            0 <= i < bridges@.len() && #[trigger] bridge_matches(bridges@[i], host@)
                && same_network_settings(r, bridges@[i]) && (forall|j: int|
                0 <= j < i ==> !bridge_matches(bridges@[j], host@)),
        (forall|i: int| 0 <= i < bridges@.len() ==> !bridge_matches(bridges@[i], host@)) ==> (
        r.network_type == proxmox::NetworkType::AnyBridge && r.iface@ == Seq::<char>::empty()
            && r.address is None && r.gateway is None && r.netmask is None),
{
    let mut i: usize = 0;
    while i < bridges.len()
        invariant
            i <= bridges@.len(),
            forall|j: int| 0 <= j < i ==> !bridge_matches(bridges@[j], host@),
        decreases bridges@.len() - i,
    {
        let found = match &bridges[i].address {
            Some(a) => text::str_eq(a.as_str(), host),
            None => false,
        };
        if found {
            let b = bridges[i].clone();
            proof {
                assert(bridge_matches(bridges@[i as int], host@));
                assert(same_network_settings(b, bridges@[i as int]));
            }
            return b;
        }
        i = i + 1;
    }
    proxmox::Network::default()
}

/// The name of the first listed storage, or `ResourceNotFound` when the list
/// is empty.
pub fn get_default_iso_storage(storages: &Vec<proxmox::Storage>) -> (r: Result<String, Error>)
    ensures
        storages@.len() > 0 ==> (r matches Ok(s) && s@ == storages@[0].storage@),
        storages@.len() == 0 ==> (r matches Err(e) && e is ResourceNotFound),
{
    if storages.len() > 0 {
        Ok(storages[0].storage.clone())
    } else {
        Err(Error::ResourceNotFound)
    }
}

/// The name of the first listed image storage, or `ResourceNotFound` when
/// the list is empty.
pub fn get_default_disk_storage(storages: &Vec<proxmox::Storage>) -> (r: Result<String, Error>)
    ensures
        storages@.len() > 0 ==> (r matches Ok(s) && s@ == storages@[0].storage@),
        storages@.len() == 0 ==> (r matches Err(e) && e is ResourceNotFound),
{
    if storages.len() > 0 {
        Ok(storages[0].storage.clone())
    } else {
        Err(Error::ResourceNotFound)
    }
}

/// The name of the first listed hypervisor node, or `ResourceNotFound` when
/// the list is empty.
pub fn get_default_proxmox_node(nodes: &Vec<proxmox::Node>) -> (r: Result<String, Error>)
    ensures
        nodes@.len() > 0 ==> (r matches Ok(s) && s@ == nodes@[0].node@),
        nodes@.len() == 0 ==> (r matches Err(e) && e is ResourceNotFound),
{
    if nodes.len() > 0 {
        Ok(nodes[0].node.clone())
    } else {
        Err(Error::ResourceNotFound)
    }
}

/// The subnet mask a bridge record implies: its netmask text parsed as a
/// number up to 255, and 24 wherever that fails.
pub open spec fn spec_mask_of(netmask: Option<Seq<char>>) -> u8 {
    match netmask {
        Some(s) => match crate::text::spec_parse_u32(s) {
            Some(v) => if v <= 255 {
                v as u8
            } else {
                24
            },
            None => 24,
        },
        None => 24,
    }
}

/// The initial cluster request derived from the hypervisor's inventory: one
/// two-core master on the default storage, the default image and channel,
/// and network settings copied from the matching bridge.
pub fn generate_default_request(
    proxmox_node: String,
    iso_storage: String,
    disk_storage: String,
    network: proxmox::Network,
    start_vm_id: u32,
) -> (r: ClusterRequest)
    ensures
        r.os_image@ == "https://cloud-images.ubuntu.com/jammy/current/jammy-server-cloudimg-amd64.img"@,
        r.os_image_storage@ == iso_storage@,
        r.kube_version@ == "1.28/stable"@,
        r.node@ == proxmox_node@,
        r.cluster_name@ == Seq::<char>::empty(),
        r.ssh_key@.private_key == Seq::<char>::empty(),
        r.ssh_key@.public_key == Seq::<char>::empty(),
        r.node_username@ == "makoon"@,
        r.node_password@ == "makoon"@,
        r.helm_apps@.len() == 0,
        r.cluster_resources@.len() == 0,
        r.disk_size == 32,
        r.nodes.deep_view() =~= seq![
            crate::model::ClusterNodeView {
                vm_id: start_vm_id,
                name: "master-1"@,
                cores: 2,
                memory: 2048,
                ip_address: Seq::<char>::empty(),
                storage_pool: disk_storage@,
                node_type: ClusterNodeType::Master,
                lock: None,
            },
        ],
        r.network@.gateway == match network.gateway {
            Some(g) => g@,
            None => Seq::<char>::empty(),
        },
        r.network@.subnet_mask == spec_mask_of(
            match network.netmask {
                Some(m) => Some(m@),
                None => None,
            },
        ),
        r.network@.dns == match network.gateway {
            Some(g) => g@,
            None => Seq::<char>::empty(),
        },
        r.network@.bridge == network.iface@,
{
    let gateway = match &network.gateway {
        Some(g) => g.clone(),
        None => String::new(),
    };
    let dns = gateway.clone();
    let subnet_mask: u8 = match &network.netmask {
        Some(m) => match text::parse_u32(m.as_str()) {
            Some(v) => if v <= 255 {
                v as u8
            } else {
                24
            },
            None => 24,
        },
        None => 24,
    };
    let node = ClusterNode {
        vm_id: start_vm_id,
        name: String::from_str("master-1"),
        cores: 2,
        memory: 2048,
        ip_address: String::new(),
        storage_pool: disk_storage,
        node_type: ClusterNodeType::Master,
        lock: None,
    };
    let mut nodes: Vec<ClusterNode> = Vec::new();
    nodes.push(node);
    ClusterRequest {
        os_image: get_default_os_image(),
        os_image_storage: iso_storage,
        kube_version: get_default_kube_version(),
        node: proxmox_node,
        cluster_name: String::new(),
        ssh_key: KeyPair { private_key: String::new(), public_key: String::new() },
        node_username: String::from_str("makoon"),
        node_password: String::from_str("makoon"),
        helm_apps: Vec::new(),
        cluster_resources: Vec::new(),
        disk_size: 32,
        nodes,
        network: Network { gateway, subnet_mask, dns, bridge: network.iface },
    }
}

} // verus!
