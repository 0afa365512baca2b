//! Plain data model of the hypervisor REST interface: credentials, inventory
//! records, VM creation parameters, and the parameter-string builder.
//!
//! Values of these types are computed and inspected by the verified
//! workflows; the wire-level client that ships them over HTTP lives outside
//! the library.
use crate::text::{concat3, join_with, spec_join};
use vstd::prelude::*;

verus! {

/// Credentials for opening a hypervisor session.
#[derive(Debug)]
pub struct LoginRequest {
    pub host: String,
    pub base_path: String,
    pub port: u16,
    pub username: String,
    pub password: String,
}

/// An authenticated ticket for the hypervisor API.
#[derive(Debug)]
pub struct Token {
    pub csrf_prevention_token: String,
    pub ticket: String,
    pub username: String,
}

impl Clone for Token {
    fn clone(&self) -> (r: Self)
        ensures
            r.csrf_prevention_token@ == self.csrf_prevention_token@,
            r.ticket@ == self.ticket@,
            r.username@ == self.username@,
    {
        Token {
            csrf_prevention_token: self.csrf_prevention_token.clone(),
            ticket: self.ticket.clone(),
            username: self.username.clone(),
        }
    }
}

/// Where and how to reach the hypervisor, with the session token.
#[derive(Debug)]
pub struct AccessData {
    pub host: String,
    pub base_path: String,
    pub port: u16,
    pub token: Token,
}

impl Clone for AccessData {
    fn clone(&self) -> (r: Self)
        ensures
            r.host@ == self.host@,
            r.base_path@ == self.base_path@,
            r.port == self.port,
            r.token.csrf_prevention_token@ == self.token.csrf_prevention_token@,
            r.token.ticket@ == self.token.ticket@,
            r.token.username@ == self.token.username@,
    {
        AccessData {
            host: self.host.clone(),
            base_path: self.base_path.clone(),
            port: self.port,
            token: self.token.clone(),
        }
    }
}

/// A response envelope of the hypervisor API.
#[derive(Debug)]
pub struct Data<T> {
    pub data: T,
}

/// The granted permission set of a session (opaque to the engine).
#[derive(Debug)]
pub struct Permissions {}

/// The kind of a storage backend.
#[derive(Clone, Copy, PartialEq, Eq, Structural, Debug)]
pub enum StorageType {
    BtrFS,
    CephFS,
    Cifs,
    Dir,
    Glusterfs,
    Iscsi,
    IscsiDirect,
    Lvm,
    LvmThin,
    Nfs,
    Pbs,
    Rbd,
    Zfs,
    ZfsPool,
}

/// The kind of content a storage may hold.
#[derive(Clone, Copy, PartialEq, Eq, Structural, Debug)]
pub enum StorageContentType {
    Iso,
    Images,
    Rootdir,
    Vztmpl,
    Backup,
    Snippets,
}

/// One storage backend of a hypervisor node, with its capacity counters.
#[derive(Debug)]
pub struct Storage {
    pub storage: String,
    pub content: String,
    pub storage_type: StorageType,
    pub active: Option<u8>,
    pub avail: Option<u64>,
    pub enabled: Option<u8>,
    pub shared: Option<u8>,
    pub total: Option<u64>,
    pub used: Option<u64>,
}

/// The reported liveness of a hypervisor node.
#[derive(Clone, Copy, PartialEq, Eq, Structural, Debug)]
pub enum NodeStatus {
    Unknown,
    Online,
    Offline,
}

/// One node of the hypervisor cluster.
#[derive(Debug)]
pub struct Node {
    pub node: String,
    pub status: NodeStatus,
    pub level: Option<String>,
    pub max_cpu: Option<u16>,
    pub max_mem: Option<u64>,
    pub mem: Option<u64>,
    pub ssl_fingerprint: Option<String>,
    pub uptime: Option<u64>,
}

/// The power state of a VM or container.
#[derive(Clone, Copy, PartialEq, Eq, Structural, Debug)]
pub enum VmStatus {
    Running,
    Stopped,
}

/// One virtual machine as listed by the hypervisor.
#[derive(Debug)]
pub struct VirtualMachine {
    pub status: VmStatus,
    pub vm_id: u32,
    pub cpus: Option<u16>,
    /// The current config lock, if any.
    pub lock: Option<String>,
    pub max_disk: Option<u64>,
    pub max_mem: Option<u64>,
    pub name: Option<String>,
    pub pid: Option<u32>,
    pub qmp_status: Option<String>,
    pub running_machine: Option<String>,
    pub running_qemu: Option<String>,
    pub tags: Option<String>,
    pub uptime: Option<u64>,
}

/// One LXC container as listed by the hypervisor.
#[derive(Debug)]
pub struct LxcContainer {
    pub name: Option<String>,
    pub status: VmStatus,
    /// The hypervisor reports container ids as text.
    pub vm_id: String,
    pub cpus: Option<u16>,
    pub lock: Option<String>,
    pub max_disk: Option<u64>,
    pub max_mem: Option<u64>,
    pub max_swap: Option<u64>,
    pub tags: Option<String>,
    pub uptime: Option<u64>,
}

/// The kind of a host network interface.
#[derive(Clone, Copy, PartialEq, Eq, Structural, Debug)]
pub enum NetworkType {
    Bridge,
    Bond,
    Eth,
    Alias,
    Vlan,
    OVSBridge,
    OVSBond,
    OVSPort,
    OVSIntPort,
    AnyBridge,
}

/// One host network interface of a hypervisor node.
#[derive(Debug)]
pub struct Network {
    pub network_type: NetworkType,
    pub iface: String,
    pub bridge_ports: Option<String>,
    pub address: Option<String>,
    pub gateway: Option<String>,
    pub netmask: Option<String>,
    pub cidr: Option<String>,
    pub method: Option<String>,
    pub families: Vec<String>,
    pub active: Option<i8>,
    pub bridge_fd: Option<String>,
    pub bridge_stp: Option<String>,
    pub priority: Option<i16>,
    pub autostart: Option<i8>,
    pub method6: Option<String>,
    pub comments: Option<String>,
}

impl Clone for Network {
    fn clone(&self) -> (r: Self)
        ensures
            r.network_type == self.network_type,
            r.iface@ == self.iface@,
            crate::model::opt_str_view(r.address) == crate::model::opt_str_view(self.address),
            crate::model::opt_str_view(r.gateway) == crate::model::opt_str_view(self.gateway),
            crate::model::opt_str_view(r.netmask) == crate::model::opt_str_view(self.netmask),
    {
        Network {
            network_type: self.network_type,
            iface: self.iface.clone(),
            bridge_ports: clone_opt(&self.bridge_ports),
            address: clone_opt(&self.address),
            gateway: clone_opt(&self.gateway),
            netmask: clone_opt(&self.netmask),
            cidr: clone_opt(&self.cidr),
            method: clone_opt(&self.method),
            families: self.families.clone(),
            active: self.active,
            bridge_fd: clone_opt(&self.bridge_fd),
            bridge_stp: clone_opt(&self.bridge_stp),
            priority: self.priority,
            autostart: self.autostart,
            method6: clone_opt(&self.method6),
            comments: clone_opt(&self.comments),
        }
    }
}

/// Clones an optional string, keeping its value.
fn clone_opt(o: &Option<String>) -> (r: Option<String>)
    ensures
        crate::model::opt_str_view(r) == crate::model::opt_str_view(*o),
{
    match o {
        Some(s) => Some(s.clone()),
        None => None,
    }
}

impl Default for Network {
    /// An empty interface record: the `AnyBridge` kind and no addresses.
    fn default() -> (r: Self)
        ensures
            r.network_type == NetworkType::AnyBridge,
            r.iface@ == Seq::<char>::empty(),
            r.address is None,
            r.gateway is None,
            r.netmask is None,
    {
        Network {
            network_type: NetworkType::AnyBridge,
            iface: String::new(),
            bridge_ports: None,
            address: None,
            gateway: None,
            netmask: None,
            cidr: None,
            method: None,
            families: Vec::new(),
            active: None,
            bridge_fd: None,
            bridge_stp: None,
            priority: None,
            autostart: None,
            method6: None,
            comments: None,
        }
    }
}

/// The guest OS family passed at VM creation.
#[derive(Clone, Copy, PartialEq, Eq, Structural, Debug)]
pub enum OsType {
    Other,
    Wxp,
    W2k,
    W2k3,
    W2k8,
    Wvista,
    Win7,
    Win8,
    Win10,
    Win11,
    L24,
    L26,
    Solaris,
}

/// The SCSI controller model passed at VM creation.
#[derive(Clone, Copy, PartialEq, Eq, Structural, Debug)]
pub enum ScsiHw {
    Lsi,
    Lsi53c810,
    VirtioScsiPci,
    VirtioScsiSingle,
    Megasas,
    Pvscsi,
}

/// One named parameter of a VM creation request (`net0`, `scsi0`, ...).
#[derive(Debug)]
pub struct Param {
    pub name: String,
    pub value: String,
}

/// The mathematical value of a [`Param`].
#[verifier::ext_equal]
pub ghost struct ParamView {
    pub name: Seq<char>,
    pub value: Seq<char>,
}

impl View for Param {
    type V = ParamView;

    open spec fn view(&self) -> ParamView {
        ParamView { name: self.name@, value: self.value@ }
    }
}

impl DeepView for Param {
    type V = ParamView;

    open spec fn deep_view(&self) -> ParamView {
        self.view()
    }
}

/// The parameters of a VM creation request. Keyed sub-parameters (network,
/// disks, cloud-init) are held as named parameter lists.
#[derive(Debug)]
pub struct CreateVirtualMachine {
    pub node: String,
    pub vm_id: u32,
    pub name: String,
    pub cores: u16,
    /// Unit: MiB
    pub memory: u64,
    pub os_type: OsType,
    pub net: Vec<Param>,
    pub scsihw: Option<ScsiHw>,
    pub scsi: Vec<Param>,
    pub ide: Vec<Param>,
    pub boot: Option<String>,
    pub serial: Vec<Param>,
    pub vga: Option<String>,
    pub ipconfig: Vec<Param>,
    pub nameserver: Option<String>,
    pub ci_user: Option<String>,
    pub ci_password: Option<String>,
    pub ssh_keys: Option<String>,
}

/// A request to change a VM's cores and memory.
#[derive(Debug)]
pub struct VmConfig {
    pub vm_id: u32,
    pub node: String,
    pub cores: u16,
    /// Unit: MiB
    pub memory: u64,
}

/// A request to grow a VM disk to a new size.
#[derive(Debug)]
pub struct ResizeDisk {
    pub vm_id: u32,
    pub node: String,
    pub disk: String,
    /// The new absolute size, e.g. `32G`.
    pub size: String,
}

/// The kind of image a download request fetches.
#[derive(Clone, Copy, PartialEq, Eq, Structural, Debug)]
pub enum DownloadImageContentType {
    Iso,
    VzTmpl,
}

/// A request to download an image onto a storage by URL.
#[derive(Debug)]
pub struct DownloadImage {
    pub content: DownloadImageContentType,
    pub filename: String,
    pub node: String,
    pub storage: String,
    pub url: String,
    pub checksum: Option<String>,
    pub checksum_algorithm: Option<String>,
    pub verify_certificates: Option<u8>,
}

/// One volume present on a storage.
#[derive(Debug)]
pub struct StorageContent {
    pub format: String,
    pub size: u64,
    /// Volume identifier.
    pub volid: String,
    pub vm_id: Option<u32>,
    pub ctime: Option<u64>,
    pub encrypted: Option<String>,
    pub notes: Option<String>,
    pub parent: Option<String>,
    pub protected: Option<u8>,
    pub used: Option<u64>,
    pub verification: Option<String>,
}

impl Clone for StorageContent {
    fn clone(&self) -> (r: Self)
        ensures
            r.volid@ == self.volid@,
            r.format@ == self.format@,
            r.size == self.size,
    {
        StorageContent {
            format: self.format.clone(),
            size: self.size,
            volid: self.volid.clone(),
            vm_id: self.vm_id,
            ctime: self.ctime,
            encrypted: match &self.encrypted {
                Some(s) => Some(s.clone()),
                None => None,
            },
            notes: match &self.notes {
                Some(s) => Some(s.clone()),
                None => None,
            },
            parent: match &self.parent {
                Some(s) => Some(s.clone()),
                None => None,
            },
            protected: self.protected,
            used: self.used,
            verification: match &self.verification {
                Some(s) => Some(s.clone()),
                None => None,
            },
        }
    }
}

/// The details of one volume, including its filesystem path.
#[derive(Debug)]
pub struct StorageContentDetails {
    pub format: String,
    pub path: String,
    pub size: u64,
    pub used: u64,
    pub notes: Option<String>,
    pub protected: Option<u8>,
}

/// Errors of the hypervisor client: connectivity, authentication, HTTP
/// status, or a malformed body.
#[derive(Debug)]
pub enum Error {
    Generic(String),
    CannotConnectToProxmox(String),
    CredentialsInvalid,
    HttpError { status: u16, reason: String, response: String },
    BodyMalformed(String),
}

/// Builds comma-separated `key<sep>value` parameter strings.
#[derive(Debug)]
pub struct ParamBuilder {
    params: Vec<String>,
    sep: String,
}

impl ParamBuilder {
    /// The parameter fragments collected so far.
    pub closed spec fn params_view(&self) -> Seq<Seq<char>> {
        self.params.deep_view()
    }

    /// The default key-value separator of this builder.
    pub closed spec fn sep_view(&self) -> Seq<char> {
        self.sep@
    }

    /// An empty builder whose `add_param` joins key and value with
    /// `separator`.
    pub fn new(separator: String) -> (r: Self)
        ensures
            r.params_view() =~= Seq::<Seq<char>>::empty(),
            r.sep_view() == separator@,
    {
        ParamBuilder { params: Vec::new(), sep: separator }
    }

    /// Appends `key<sep>value` using the builder's own separator.
    pub fn add_param(&mut self, key: &str, val: &str) -> (r: &mut Self)
        ensures
            (*r).params_view() =~= old(self).params_view().push(
                key@ + old(self).sep_view() + val@,
            ),
            (*r).sep_view() == old(self).sep_view(),
            *final(self) == *final(r),
    {
        let part = concat3(key, self.sep.as_str(), val);
        self.params.push(part);
        self
    }

    /// Appends `key<sep>value` with an explicit separator.
    pub fn add_param_with_separator(&mut self, key: &str, val: &str, sep: &str) -> (r: &mut Self)
        ensures
            (*r).params_view() =~= old(self).params_view().push(key@ + sep@ + val@),
            (*r).sep_view() == old(self).sep_view(),
            *final(self) == *final(r),
    {
        let part = concat3(key, sep, val);
        self.params.push(part);
        self
    }

    /// Renders the parameters joined by commas.
    pub fn build(&self) -> (r: String)
        ensures
            r@ == spec_join(self.params_view(), ","@),
    {
        join_with(&self.params, ",")
    }
}

impl Default for ParamBuilder {
    /// A builder that joins keys and values with `=`.
    fn default() -> (r: Self)
        ensures
            r.params_view() =~= Seq::<Seq<char>>::empty(),
            r.sep_view() == "="@,
    {
        ParamBuilder::new(String::from_str("="))
    }
}

impl StorageType {
    /// The wire name of the storage kind.
    pub fn as_str(&self) -> (r: &'static str)
        ensures
            self is BtrFS ==> r@ == "btrfs"@,
            self is CephFS ==> r@ == "cephfs"@,
            self is Cifs ==> r@ == "cifs"@,
            self is Dir ==> r@ == "dir"@,
            self is Glusterfs ==> r@ == "glusterfs"@,
            self is Iscsi ==> r@ == "iscsi"@,
            self is IscsiDirect ==> r@ == "iscsidirect"@,
            self is Lvm ==> r@ == "lvm"@,
            self is LvmThin ==> r@ == "lvmthin"@,
            self is Nfs ==> r@ == "nfs"@,
            self is Pbs ==> r@ == "pbs"@,
            self is Rbd ==> r@ == "rbd"@,
            self is Zfs ==> r@ == "zfs"@,
            self is ZfsPool ==> r@ == "zfspool"@,
    {
        match self {
            StorageType::BtrFS => "btrfs",
            StorageType::CephFS => "cephfs",
            StorageType::Cifs => "cifs",
            StorageType::Dir => "dir",
            StorageType::Glusterfs => "glusterfs",
            StorageType::Iscsi => "iscsi",
            StorageType::IscsiDirect => "iscsidirect",
            StorageType::Lvm => "lvm",
            StorageType::LvmThin => "lvmthin",
            StorageType::Nfs => "nfs",
            StorageType::Pbs => "pbs",
            StorageType::Rbd => "rbd",
            StorageType::Zfs => "zfs",
            StorageType::ZfsPool => "zfspool",
        }
    }
}

impl StorageContentType {
    /// The wire name of the content kind.
    pub fn as_str(&self) -> (r: &'static str)
        ensures
            self is Iso ==> r@ == "iso"@,
            self is Images ==> r@ == "images"@,
            self is Rootdir ==> r@ == "rootdir"@,
            self is Vztmpl ==> r@ == "vztmpl"@,
            self is Backup ==> r@ == "backup"@,
            self is Snippets ==> r@ == "snippets"@,
    {
        match self {
            StorageContentType::Iso => "iso",
            StorageContentType::Images => "images",
            StorageContentType::Rootdir => "rootdir",
            StorageContentType::Vztmpl => "vztmpl",
            StorageContentType::Backup => "backup",
            StorageContentType::Snippets => "snippets",
        }
    }
}

impl NetworkType {
    /// The wire name of the interface kind.
    pub fn as_str(&self) -> (r: &'static str)
        ensures
            self is Bridge ==> r@ == "bridge"@,
            self is Bond ==> r@ == "bond"@,
            self is Eth ==> r@ == "eth"@,
            self is Alias ==> r@ == "alias"@,
            self is Vlan ==> r@ == "vlan"@,
            self is OVSBridge ==> r@ == "OVSBridge"@,
            self is OVSBond ==> r@ == "OVSBond"@,
            self is OVSPort ==> r@ == "OVSPort"@,
            self is OVSIntPort ==> r@ == "OVSIntPort"@,
            self is AnyBridge ==> r@ == "any_bridge"@,
    {
        match self {
            NetworkType::Bridge => "bridge",
            NetworkType::Bond => "bond",
            NetworkType::Eth => "eth",
            NetworkType::Alias => "alias",
            NetworkType::Vlan => "vlan",
            NetworkType::OVSBridge => "OVSBridge",
            NetworkType::OVSBond => "OVSBond",
            NetworkType::OVSPort => "OVSPort",
            NetworkType::OVSIntPort => "OVSIntPort",
            NetworkType::AnyBridge => "any_bridge",
        }
    }
}

} // verus!
