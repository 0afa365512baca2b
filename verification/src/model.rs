//! The persisted data model: the `Cluster` aggregate, its nodes, the embedded
//! Helm apps and raw resources, and the audit log entries.
//!
//! Each compound type carries a mathematical view (`@`) over which all
//! contracts in the crate are stated.
use crate::outside;
use vstd::prelude::*;

verus! {

/// The role of a node inside its Kubernetes cluster.
#[derive(Clone, Copy, PartialEq, Eq, Structural, Debug)]
pub enum ClusterNodeType {
    Master,
    Worker,
}

impl ClusterNodeType {
    /// The lowercase name of the role.
    pub fn as_str(&self) -> (r: &'static str)
        ensures
            self is Master ==> r@ == "master"@,
            self is Worker ==> r@ == "worker"@,
    {
        match self {
            ClusterNodeType::Master => "master",
            ClusterNodeType::Worker => "worker",
        }
    }
}

/// The in-flight mutating operation currently pending against a node, if any.
#[derive(Clone, Copy, PartialEq, Eq, Structural, Debug)]
pub enum ClusterNodeLock {
    Create,
    Delete,
    ChangeResources,
}

/// The top-level lifecycle state of a cluster.
#[derive(Clone, Copy, PartialEq, Eq, Structural, Debug)]
pub enum ClusterState {
    Pending,
    Creating,
    Sync,
    OutOfSync,
    Destroying,
    Error,
}

impl ClusterState {
    /// Whether a workflow is currently in flight for a cluster in state `s`.
    ///
    /// True exactly for `Pending`, `Creating` and `Destroying`.
    pub fn in_progress_state(s: &ClusterState) -> (r: bool)
        ensures
            r <==> (s is Pending || s is Creating || s is Destroying),
    {
        *s == ClusterState::Pending || *s == ClusterState::Creating || *s
            == ClusterState::Destroying
    }
}

/// A cluster's state together with when it last changed (epoch seconds).
#[derive(Clone, Copy, PartialEq, Eq, Structural, Debug)]
pub struct ClusterStatus {
    pub state: ClusterState,
    pub last_update: i64,
}

impl ClusterStatus {
    /// A status in the given state, stamped with the current clock reading.
    pub fn from_state(state: ClusterState) -> (r: ClusterStatus)
        ensures
            r.state == state,
    {
        ClusterStatus { state, last_update: outside::now_timestamp() }
    }
}

/// The severity of an audit log entry.
#[derive(Clone, Copy, PartialEq, Eq, Structural, Debug)]
pub enum ActionLogLevel {
    Info,
    Error,
}

/// The readiness a Kubernetes node reports, or `Unknown` when unreachable.
#[derive(Clone, Copy, PartialEq, Eq, Structural, Debug)]
pub enum KubeStatus {
    Ready,
    NotReady,
    Unknown,
}

/// What `KubeStatus` a raw readiness-condition string denotes.
pub open spec fn spec_kube_status(s: Seq<char>) -> KubeStatus {
    if s == "true"@ {
        KubeStatus::Ready
    } else if s == "false"@ || s == "unknown"@ {
        KubeStatus::NotReady
    } else {
        KubeStatus::Unknown
    }
}

impl KubeStatus {
    /// Classifies a raw readiness-condition value, ignoring case and
    /// surrounding whitespace.
    pub fn from_str(s: &str) -> (r: KubeStatus)
        ensures
            r == spec_kube_status(outside::lower_of(outside::trimmed_of(s@))),
    {
        let trimmed = outside::trim(s);
        let lowered = outside::lowercase(trimmed.as_str());
        if crate::text::str_eq(lowered.as_str(), "true") {
            KubeStatus::Ready
        } else if crate::text::str_eq(lowered.as_str(), "false") || crate::text::str_eq(
            lowered.as_str(),
            "unknown",
        ) {
            KubeStatus::NotReady
        } else {
            KubeStatus::Unknown
        }
    }
}

/// The deployment status Helm reports for a release.
#[derive(Clone, Copy, PartialEq, Eq, Structural, Debug)]
pub enum AppStatusType {
    Unknown,
    Deployed,
    Uninstalled,
    Superseded,
    Failed,
    Uninstalling,
    PendingInstall,
    PendingUpgrade,
    PendingRollback,
    NotInstalled,
}

/// An SSH key pair, both halves in their textual form.
#[derive(Debug)]
pub struct KeyPair {
    pub private_key: String,
    pub public_key: String,
}

/// The mathematical value of a [`KeyPair`].
#[verifier::ext_equal]
pub ghost struct KeyPairView {
    pub private_key: Seq<char>,
    pub public_key: Seq<char>,
}

impl View for KeyPair {
    type V = KeyPairView;

    open spec fn view(&self) -> KeyPairView {
        KeyPairView { private_key: self.private_key@, public_key: self.public_key@ }
    }
}

impl DeepView for KeyPair {
    type V = KeyPairView;

    open spec fn deep_view(&self) -> KeyPairView {
        self.view()
    }
}

impl Clone for KeyPair {
    fn clone(&self) -> (r: Self)
        ensures
            r@ == self@,
    {
        let r = KeyPair {
            private_key: self.private_key.clone(),
            public_key: self.public_key.clone(),
        };
        proof {
            assert(r@ =~= self@);
        }
        r
    }
}

/// The guest network configuration shared by all nodes of a cluster.
#[derive(Debug)]
pub struct Network {
    pub gateway: String,
    pub subnet_mask: u8,
    pub dns: String,
    pub bridge: String,
}

/// The mathematical value of a [`Network`].
#[verifier::ext_equal]
pub ghost struct NetworkView {
    pub gateway: Seq<char>,
    pub subnet_mask: u8,
    pub dns: Seq<char>,
    pub bridge: Seq<char>,
}

impl View for Network {
    type V = NetworkView;

    open spec fn view(&self) -> NetworkView {
        NetworkView {
            gateway: self.gateway@,
            subnet_mask: self.subnet_mask,
            dns: self.dns@,
            bridge: self.bridge@,
        }
    }
}

impl DeepView for Network {
    type V = NetworkView;

    open spec fn deep_view(&self) -> NetworkView {
        self.view()
    }
}

impl Clone for Network {
    fn clone(&self) -> (r: Self)
        ensures
            r@ == self@,
    {
        let r = Network {
            gateway: self.gateway.clone(),
            subnet_mask: self.subnet_mask,
            dns: self.dns.clone(),
            bridge: self.bridge.clone(),
        };
        proof {
            assert(r@ =~= self@);
        }
        r
    }
}

/// A Helm chart the cluster should run, with its installation options.
#[derive(Debug)]
pub struct HelmApp {
    pub id: String,
    pub chart_name: String,
    pub chart_version: String,
    pub repository: String,
    pub release_name: String,
    pub namespace: String,
    pub values: String,
    pub wait: bool,
}

/// The mathematical value of a [`HelmApp`].
#[verifier::ext_equal]
pub ghost struct HelmAppView {
    pub id: Seq<char>,
    pub chart_name: Seq<char>,
    pub chart_version: Seq<char>,
    pub repository: Seq<char>,
    pub release_name: Seq<char>,
    pub namespace: Seq<char>,
    pub values: Seq<char>,
    pub wait: bool,
}

impl View for HelmApp {
    type V = HelmAppView;

    open spec fn view(&self) -> HelmAppView {
        HelmAppView {
            id: self.id@,
            chart_name: self.chart_name@,
            chart_version: self.chart_version@,
            repository: self.repository@,
            release_name: self.release_name@,
            namespace: self.namespace@,
            values: self.values@,
            wait: self.wait,
        }
    }
}

impl DeepView for HelmApp {
    type V = HelmAppView;

    open spec fn deep_view(&self) -> HelmAppView {
        self.view()
    }
}

impl Clone for HelmApp {
    fn clone(&self) -> (r: Self)
        ensures
            r@ == self@,
    {
        let r = HelmApp {
            id: self.id.clone(),
            chart_name: self.chart_name.clone(),
            chart_version: self.chart_version.clone(),
            repository: self.repository.clone(),
            release_name: self.release_name.clone(),
            namespace: self.namespace.clone(),
            values: self.values.clone(),
            wait: self.wait,
        };
        proof {
            assert(r@ =~= self@);
        }
        r
    }
}

/// A raw Kubernetes manifest the cluster should apply.
#[derive(Debug)]
pub struct ClusterResource {
    pub id: String,
    pub name: String,
    pub content: String,
}

/// The mathematical value of a [`ClusterResource`].
#[verifier::ext_equal]
pub ghost struct ClusterResourceView {
    pub id: Seq<char>,
    pub name: Seq<char>,
    pub content: Seq<char>,
}

impl View for ClusterResource {
    type V = ClusterResourceView;

    open spec fn view(&self) -> ClusterResourceView {
        ClusterResourceView { id: self.id@, name: self.name@, content: self.content@ }
    }
}

impl DeepView for ClusterResource {
    type V = ClusterResourceView;

    open spec fn deep_view(&self) -> ClusterResourceView {
        self.view()
    }
}

impl Clone for ClusterResource {
    fn clone(&self) -> (r: Self)
        ensures
            r@ == self@,
    {
        let r = ClusterResource {
            id: self.id.clone(),
            name: self.name.clone(),
            content: self.content.clone(),
        };
        proof {
            assert(r@ =~= self@);
        }
        r
    }
}

/// One guest VM belonging to a cluster.
#[derive(Debug)]
pub struct ClusterNode {
    pub vm_id: u32,
    pub name: String,
    pub cores: u16,
    /// Unit: MiB
    pub memory: u32,
    pub ip_address: String,
    pub storage_pool: String,
    pub node_type: ClusterNodeType,
    pub lock: Option<ClusterNodeLock>,
}

/// The mathematical value of a [`ClusterNode`].
#[verifier::ext_equal]
pub ghost struct ClusterNodeView {
    pub vm_id: u32,
    pub name: Seq<char>,
    pub cores: u16,
    pub memory: u32,
    pub ip_address: Seq<char>,
    pub storage_pool: Seq<char>,
    pub node_type: ClusterNodeType,
    pub lock: Option<ClusterNodeLock>,
}

impl View for ClusterNode {
    type V = ClusterNodeView;

    open spec fn view(&self) -> ClusterNodeView {
        ClusterNodeView {
            vm_id: self.vm_id,
            name: self.name@,
            cores: self.cores,
            memory: self.memory,
            ip_address: self.ip_address@,
            storage_pool: self.storage_pool@,
            node_type: self.node_type,
            lock: self.lock,
        }
    }
}

impl DeepView for ClusterNode {
    type V = ClusterNodeView;

    open spec fn deep_view(&self) -> ClusterNodeView {
        self.view()
    }
}

impl Clone for ClusterNode {
    fn clone(&self) -> (r: Self)
        ensures
            r@ == self@,
    {
        let r = ClusterNode {
            vm_id: self.vm_id,
            name: self.name.clone(),
            cores: self.cores,
            memory: self.memory,
            ip_address: self.ip_address.clone(),
            storage_pool: self.storage_pool.clone(),
            node_type: self.node_type,
            lock: self.lock,
        };
        proof {
            assert(r@ =~= self@);
        }
        r
    }
}

/// An audit record: when, for which cluster, what happened, how severe.
#[derive(Debug)]
pub struct LogEntry {
    /// Epoch seconds.
    pub date: i64,
    pub cluster_name: String,
    pub message: String,
    pub level: ActionLogLevel,
}

/// The mathematical value of a [`LogEntry`].
#[verifier::ext_equal]
pub ghost struct LogEntryView {
    pub date: i64,
    pub cluster_name: Seq<char>,
    pub message: Seq<char>,
    pub level: ActionLogLevel,
}

impl View for LogEntry {
    type V = LogEntryView;

    open spec fn view(&self) -> LogEntryView {
        LogEntryView {
            date: self.date,
            cluster_name: self.cluster_name@,
            message: self.message@,
            level: self.level,
        }
    }
}

impl DeepView for LogEntry {
    type V = LogEntryView;

    open spec fn deep_view(&self) -> LogEntryView {
        self.view()
    }
}

impl Clone for LogEntry {
    fn clone(&self) -> (r: Self)
        ensures
            r@ == self@,
    {
        let r = LogEntry {
            date: self.date,
            cluster_name: self.cluster_name.clone(),
            message: self.message.clone(),
            level: self.level,
        };
        proof {
            assert(r@ =~= self@);
        }
        r
    }
}

impl LogEntry {
    /// An informational entry for `cluster_name`, stamped with the clock.
    pub fn info(cluster_name: &str, message: String) -> (r: LogEntry)
        ensures
            r@.cluster_name == cluster_name@,
            r@.message == message@,
            r@.level == ActionLogLevel::Info,
    {
        LogEntry {
            date: outside::now_timestamp(),
            cluster_name: cluster_name.to_owned(),
            message,
            level: ActionLogLevel::Info,
        }
    }

    /// An error entry for `cluster_name`, stamped with the clock.
    pub fn error(cluster_name: &str, message: String) -> (r: LogEntry)
        ensures
            r@.cluster_name == cluster_name@,
            r@.message == message@,
            r@.level == ActionLogLevel::Error,
    {
        LogEntry {
            date: outside::now_timestamp(),
            cluster_name: cluster_name.to_owned(),
            message,
            level: ActionLogLevel::Error,
        }
    }
}

/// An audit entry, as a mathematical value.
pub open spec fn log_entry_of(
    name: Seq<char>,
    message: Seq<char>,
    level: ActionLogLevel,
    ts: i64,
) -> LogEntryView {
    LogEntryView { date: ts, cluster_name: name, message, level }
}

/// An Info audit entry, as a mathematical value.
pub open spec fn info_entry(name: Seq<char>, message: Seq<char>, ts: i64) -> LogEntryView {
    LogEntryView { date: ts, cluster_name: name, message, level: ActionLogLevel::Info }
}

/// An Error audit entry, as a mathematical value.
pub open spec fn error_entry(name: Seq<char>, message: Seq<char>, ts: i64) -> LogEntryView {
    LogEntryView { date: ts, cluster_name: name, message, level: ActionLogLevel::Error }
}

/// The aggregate root: one user-requested Kubernetes deployment.
#[derive(Debug)]
pub struct Cluster {
    /// The hypervisor node that hosts the cluster's VMs.
    pub node: String,
    pub cluster_name: String,
    pub os_image: Option<String>,
    pub os_image_storage: Option<String>,
    pub kube_version: Option<String>,
    /// Cached kubeconfig text, captured from the first master.
    pub cluster_config: String,
    pub ssh_key: KeyPair,
    pub node_username: String,
    pub node_password: String,
    pub helm_apps: Vec<HelmApp>,
    pub cluster_resources: Vec<ClusterResource>,
    /// Unit: GiB
    pub disk_size: u32,
    pub nodes: Vec<ClusterNode>,
    pub network: Network,
    pub status: ClusterStatus,
}

/// The mathematical value of a [`Cluster`].
#[verifier::ext_equal]
pub ghost struct ClusterView {
    pub node: Seq<char>,
    pub cluster_name: Seq<char>,
    pub os_image: Option<Seq<char>>,
    pub os_image_storage: Option<Seq<char>>,
    pub kube_version: Option<Seq<char>>,
    pub cluster_config: Seq<char>,
    pub ssh_key: KeyPairView,
    pub node_username: Seq<char>,
    pub node_password: Seq<char>,
    pub helm_apps: Seq<HelmAppView>,
    pub cluster_resources: Seq<ClusterResourceView>,
    pub disk_size: u32,
    pub nodes: Seq<ClusterNodeView>,
    pub network: NetworkView,
    pub status: ClusterStatus,
}

/// The view of an optional string.
pub open spec fn opt_str_view(o: Option<String>) -> Option<Seq<char>> {
    match o {
        Some(s) => Some(s@),
        None => None,
    }
}

impl View for Cluster {
    type V = ClusterView;

    open spec fn view(&self) -> ClusterView {
        ClusterView {
            node: self.node@,
            cluster_name: self.cluster_name@,
            os_image: opt_str_view(self.os_image),
            os_image_storage: opt_str_view(self.os_image_storage),
            kube_version: opt_str_view(self.kube_version),
            cluster_config: self.cluster_config@,
            ssh_key: self.ssh_key@,
            node_username: self.node_username@,
            node_password: self.node_password@,
            helm_apps: self.helm_apps.deep_view(),
            cluster_resources: self.cluster_resources.deep_view(),
            disk_size: self.disk_size,
            nodes: self.nodes.deep_view(),
            network: self.network@,
            status: self.status,
        }
    }
}

impl DeepView for Cluster {
    type V = ClusterView;

    open spec fn deep_view(&self) -> ClusterView {
        self.view()
    }
}

impl Clone for Cluster {
    fn clone(&self) -> (r: Self)
        ensures
            r@ == self@,
    {
        let r = Cluster {
            node: self.node.clone(),
            cluster_name: self.cluster_name.clone(),
            os_image: clone_opt_string(&self.os_image),
            os_image_storage: clone_opt_string(&self.os_image_storage),
            kube_version: clone_opt_string(&self.kube_version),
            cluster_config: self.cluster_config.clone(),
            ssh_key: self.ssh_key.clone(),
            node_username: self.node_username.clone(),
            node_password: self.node_password.clone(),
            helm_apps: self.helm_apps.clone(),
            cluster_resources: self.cluster_resources.clone(),
            disk_size: self.disk_size,
            nodes: self.nodes.clone(),
            network: self.network.clone(),
            status: self.status,
        };
        proof {
            assert(r.helm_apps.deep_view() =~= self.helm_apps.deep_view());
            assert(r.cluster_resources.deep_view() =~= self.cluster_resources.deep_view());
            assert(r.nodes.deep_view() =~= self.nodes.deep_view());
            assert(r@ =~= self@);
        }
        r
    }
}

/// Clones an optional string, keeping its value.
fn clone_opt_string(o: &Option<String>) -> (r: Option<String>)
    ensures
        opt_str_view(r) == opt_str_view(*o),
{
    match o {
        Some(s) => Some(s.clone()),
        None => None,
    }
}

/// What a request to create a cluster carries: the aggregate minus the parts
/// the engine computes (key pair, kubeconfig, status).
#[derive(Debug)]
pub struct ClusterRequest {
    pub os_image: String,
    pub os_image_storage: String,
    pub kube_version: String,
    pub node: String,
    pub cluster_name: String,
    pub ssh_key: KeyPair,
    pub node_username: String,
    pub node_password: String,
    pub helm_apps: Vec<HelmApp>,
    pub cluster_resources: Vec<ClusterResource>,
    /// Unit: GiB
    pub disk_size: u32,
    pub nodes: Vec<ClusterNode>,
    pub network: Network,
}

/// A one-line summary of a cluster with aggregated resource totals.
#[derive(Debug)]
pub struct ClusterHeader {
    pub name: String,
    pub nodes_count: u16,
    pub cores_sum: u16,
    /// Unit: MiB
    pub memory_sum: u32,
    /// Unit: GiB
    pub disk_size_sum: u32,
    pub status: ClusterStatus,
}

/// The readiness of one named node, as reported by Kubernetes.
#[derive(Debug)]
pub struct ClusterNodeStatus {
    pub name: String,
    pub status: KubeStatus,
}

/// The deployment status of one configured Helm app.
#[derive(Debug)]
pub struct AppStatus {
    pub id: String,
    pub status: AppStatusType,
}

/// One Helm release reported installed on the cluster.
#[derive(Debug)]
pub struct InstalledRelease {
    pub name: String,
    pub namespace: String,
    pub revision: String,
    pub updated: String,
    pub status: AppStatusType,
    pub chart: String,
    pub app_version: String,
}

/// One reported condition of a Kubernetes node (`type` plus raw status text).
#[derive(Debug)]
pub struct StatusCondition {
    pub status: String,
    pub condition_type: String,
}

impl Clone for StatusCondition {
    fn clone(&self) -> (r: Self)
        ensures
            r.status@ == self.status@,
            r.condition_type@ == self.condition_type@,
    {
        StatusCondition { status: self.status.clone(), condition_type: self.condition_type.clone() }
    }
}

/// The condition list of one Kubernetes node.
#[derive(Debug)]
pub struct Status {
    pub conditions: Vec<StatusCondition>,
}

/// The name record of one Kubernetes node.
#[derive(Debug)]
pub struct Metadata {
    pub name: String,
}

/// One entry of a Kubernetes node listing.
#[derive(Debug)]
pub struct Item {
    pub status: Status,
    pub metadata: Metadata,
}

/// A Kubernetes node listing.
#[derive(Debug)]
pub struct Nodes {
    pub items: Vec<Item>,
}

/// `n` with its lock cleared.
pub open spec fn unlocked(n: ClusterNodeView) -> ClusterNodeView {
    ClusterNodeView { lock: None, ..n }
}

/// The node list with the first node carrying `name` unlocked; unchanged
/// when no node carries it.
pub open spec fn spec_clear_lock(nodes: Seq<ClusterNodeView>, name: Seq<char>) -> Seq<
    ClusterNodeView,
>
    decreases nodes.len(),
{
    if nodes.len() == 0 {
        nodes
    } else if nodes[0].name == name {
        nodes.update(0, unlocked(nodes[0]))
    } else {
        seq![nodes[0]] + spec_clear_lock(nodes.drop_first(), name)
    }
}

/// Whether some node in `nodes` carries `name`.
pub open spec fn has_node(nodes: Seq<ClusterNodeView>, name: Seq<char>) -> bool {
    exists|i: int| 0 <= i < nodes.len() && #[trigger] nodes[i].name == name
}

/// Clears the lock of the first node carrying `node_name`; fails with
/// `ResourceNotFound` exactly when the cluster has no node of that name
/// (and then changes nothing). Clearing an already-unlocked node succeeds
/// and is a no-op.
pub fn clear_node_lock(cluster: &mut Cluster, node_name: &str) -> (r: Result<(), crate::Error>)
    ensures
        final (cluster).nodes.deep_view() =~= spec_clear_lock(
            old(cluster).nodes.deep_view(),
            node_name@,
        ),
        r is Ok <==> has_node(old(cluster).nodes.deep_view(), node_name@),
        r matches Err(e) ==> e is ResourceNotFound,
        final (cluster).cluster_name@ == old(cluster).cluster_name@,
        final (cluster).status == old(cluster).status,
        final (cluster).node@ == old(cluster).node@,
        final (cluster).cluster_config@ == old(cluster).cluster_config@,
        final (cluster).ssh_key@ == old(cluster).ssh_key@,
        final (cluster).helm_apps.deep_view() == old(cluster).helm_apps.deep_view(),
        final (cluster).cluster_resources.deep_view() == old(cluster).cluster_resources.deep_view(),
        final (cluster).network@ == old(cluster).network@,
        final (cluster).disk_size == old(cluster).disk_size,
        final (cluster).node_username@ == old(cluster).node_username@,
        final (cluster).node_password@ == old(cluster).node_password@,
        crate::model::opt_str_view(final (cluster).os_image) == crate::model::opt_str_view(
            old(cluster).os_image,
        ),
        crate::model::opt_str_view(final (cluster).os_image_storage) == crate::model::opt_str_view(
            old(cluster).os_image_storage,
        ),
        crate::model::opt_str_view(final (cluster).kube_version) == crate::model::opt_str_view(
            old(cluster).kube_version,
        ),
{
    let ghost orig = cluster.nodes.deep_view();
    let ghost mut pos: int = 0;
    let mut out: Vec<ClusterNode> = Vec::new();
    let mut cleared: bool = false;
    let mut i: usize = 0;
    while i < cluster.nodes.len()
        invariant
            i <= orig.len(),
            cluster.nodes.deep_view() == orig,
            orig.len() == cluster.nodes@.len(),
            !cleared ==> (out.deep_view() =~= orig.subrange(0, i as int) && (forall|j: int|
                0 <= j < i ==> #[trigger] orig[j].name != node_name@)),
            cleared ==> 0 <= pos < i && orig[pos].name == node_name@ && spec_clear_lock(
                orig,
                node_name@,
            ) =~= orig.update(pos, unlocked(orig[pos])) && out.deep_view() =~= orig.update(
                pos,
                unlocked(orig[pos]),
            ).subrange(0, i as int),
        decreases cluster.nodes@.len() - i,
    {
        proof {
            assert(orig[i as int] == cluster.nodes@[i as int]@);
        }
        let mut n = cluster.nodes[i].clone();
        if !cleared && crate::text::str_eq(n.name.as_str(), node_name) {
            n.lock = None;
            cleared = true;
            proof {
                pos = i as int;
                lemma_clear_lock_at(orig, node_name@, i as int);
                assert(n@ =~= unlocked(orig[i as int]));
            }
        }
        let ghost old_out = out;
        let ghost old_outdv = out.deep_view();
        out.push(n);
        i = i + 1;
        proof {
            if cleared {
                let expect = orig.update(pos, unlocked(orig[pos])).subrange(0, i as int);
                assert(out.deep_view().len() == i);
                assert(expect.len() == i);
                assert forall|j: int| 0 <= j < i implies out.deep_view()[j] == expect[j] by {
                    assert(out.deep_view()[j] == out@[j].deep_view());
                    if j < i - 1 {
                        assert(out@[j] == old_out@[j]);
                        assert(out.deep_view()[j] == old_outdv[j]);
                    } else {
                        assert(out@[j] == n);
                        assert(out.deep_view()[j] == n@);
                    }
                }
                assert(out.deep_view() =~= expect);
            }
        }
    }
    proof {
        if !cleared {
            lemma_clear_lock_absent(orig, node_name@);
            assert(orig.subrange(0, orig.len() as int) =~= orig);
            assert(!has_node(orig, node_name@));
        } else {
            assert(out.deep_view() =~= spec_clear_lock(orig, node_name@));
            assert(has_node(orig, node_name@));
        }
    }
    cluster.nodes = out;
    if cleared {
        Ok(())
    } else {
        Err(crate::Error::ResourceNotFound)
    }
}

/// `spec_clear_lock` keeps the list length.
proof fn lemma_clear_lock_len(nodes: Seq<ClusterNodeView>, name: Seq<char>)
    ensures
        spec_clear_lock(nodes, name).len() == nodes.len(),
    decreases nodes.len(),
{
    if nodes.len() > 0 && nodes[0].name != name {
        lemma_clear_lock_len(nodes.drop_first(), name);
    }
}

/// At the first index carrying the name, `spec_clear_lock` unlocks that node
/// and keeps everything after it.
proof fn lemma_clear_lock_at(nodes: Seq<ClusterNodeView>, name: Seq<char>, i: int)
    requires
        0 <= i < nodes.len(),
        nodes[i].name == name,
        forall|j: int| 0 <= j < i ==> #[trigger] nodes[j].name != name,
    ensures
        spec_clear_lock(nodes, name) =~= nodes.update(i, unlocked(nodes[i])),
    decreases i,
{
    if i == 0 {
    } else {
        assert(forall|j: int| 0 <= j < i - 1 ==> #[trigger] nodes.drop_first()[j].name != name);
        lemma_clear_lock_at(nodes.drop_first(), name, i - 1);
        assert(spec_clear_lock(nodes, name) =~= seq![nodes[0]] + nodes.drop_first().update(
            i - 1,
            unlocked(nodes[i]),
        ));
    }
}

/// When no node carries the name, `spec_clear_lock` changes nothing.
proof fn lemma_clear_lock_absent(nodes: Seq<ClusterNodeView>, name: Seq<char>)
    requires
        forall|j: int| 0 <= j < nodes.len() ==> #[trigger] nodes[j].name != name,
    ensures
        spec_clear_lock(nodes, name) =~= nodes,
    decreases nodes.len(),
{
    if nodes.len() > 0 {
        assert(forall|j: int|
            0 <= j < nodes.drop_first().len() ==> #[trigger] nodes.drop_first()[j].name != name);
        lemma_clear_lock_absent(nodes.drop_first(), name);
    }
}

/// The lock of the first node carrying `name`: `None` when no node does,
/// `Some(lock)` otherwise.
pub open spec fn first_node_lock(nodes: Seq<ClusterNodeView>, name: Seq<char>) -> Option<
    Option<ClusterNodeLock>,
>
    decreases nodes.len(),
{
    if nodes.len() == 0 {
        None
    } else if nodes[0].name == name {
        Some(nodes[0].lock)
    } else {
        first_node_lock(nodes.drop_first(), name)
    }
}

/// After a clear, the first node carrying the name is unlocked.
pub proof fn lemma_clear_leaves_unlocked(nodes: Seq<ClusterNodeView>, name: Seq<char>)
    requires
        has_node(nodes, name),
    ensures
        first_node_lock(spec_clear_lock(nodes, name), name) == Some(Option::<ClusterNodeLock>::None),
    decreases nodes.len(),
{
    if nodes.len() > 0 {
        if nodes[0].name == name {
            let cleared = nodes.update(0, unlocked(nodes[0]));
            assert(spec_clear_lock(nodes, name) == cleared);
            assert(cleared[0].name == name && cleared[0].lock is None);
        } else {
            let i = choose|i: int| 0 <= i < nodes.len() && #[trigger] nodes[i].name == name;
            assert(nodes.drop_first()[i - 1].name == name);
            assert(has_node(nodes.drop_first(), name));
            lemma_clear_leaves_unlocked(nodes.drop_first(), name);
            let rest = spec_clear_lock(nodes.drop_first(), name);
            assert(spec_clear_lock(nodes, name) == seq![nodes[0]] + rest);
            assert((seq![nodes[0]] + rest)[0] == nodes[0]);
            assert((seq![nodes[0]] + rest).drop_first() =~= rest);
        }
    }
}

/// Law: clearing a node lock is idempotent. Clearing the same name twice
/// gives the same node list as clearing it once; in particular a clear on an
/// already-unlocked node is a no-op.
pub proof fn lemma_clear_lock_idempotent(nodes: Seq<ClusterNodeView>, name: Seq<char>)
    ensures
        spec_clear_lock(spec_clear_lock(nodes, name), name) =~= spec_clear_lock(nodes, name),
    decreases nodes.len(),
{
    if nodes.len() == 0 {
    } else if nodes[0].name == name {
        let once = nodes.update(0, unlocked(nodes[0]));
        assert(once[0].name == name);
        assert(spec_clear_lock(once, name) =~= once.update(0, unlocked(once[0])));
        assert(unlocked(once[0]) =~= once[0]);
        assert(once.update(0, once[0]) =~= once);
    } else {
        lemma_clear_lock_idempotent(nodes.drop_first(), name);
        let once = seq![nodes[0]] + spec_clear_lock(nodes.drop_first(), name);
        assert(once[0] == nodes[0]);
        assert(once.drop_first() =~= spec_clear_lock(nodes.drop_first(), name));
        assert(spec_clear_lock(once, name) =~= seq![nodes[0]] + spec_clear_lock(
            spec_clear_lock(nodes.drop_first(), name),
            name,
        ));
    }
}

/// Law: clearing the lock of a node that is already unlocked leaves the node
/// list exactly as it was.
pub proof fn lemma_clear_unlocked_noop(nodes: Seq<ClusterNodeView>, name: Seq<char>, i: int)
    requires
        0 <= i < nodes.len(),
        nodes[i].name == name,
        nodes[i].lock is None,
        forall|j: int| 0 <= j < i ==> #[trigger] nodes[j].name != name,
    ensures
        spec_clear_lock(nodes, name) =~= nodes,
{
    lemma_clear_lock_at(nodes, name, i);
    assert(unlocked(nodes[i]) =~= nodes[i]);
    assert(nodes.update(i, nodes[i]) =~= nodes);
}

/// Removal of every node record carrying `name`.
pub open spec fn without_node(nodes: Seq<ClusterNodeView>, name: Seq<char>) -> Seq<
    ClusterNodeView,
> {
    nodes.filter(|n: ClusterNodeView| n.name != name)
}

/// Drops every node record carrying `node_name` from the cluster.
pub fn remove_node_record(cluster: &mut Cluster, node_name: &str)
    ensures
        final (cluster).nodes.deep_view() =~= without_node(
            old(cluster).nodes.deep_view(),
            node_name@,
        ),
        final (cluster).cluster_name@ == old(cluster).cluster_name@,
        final (cluster).status == old(cluster).status,
        final (cluster).node@ == old(cluster).node@,
        final (cluster).cluster_config@ == old(cluster).cluster_config@,
        final (cluster).ssh_key@ == old(cluster).ssh_key@,
        final (cluster).helm_apps.deep_view() == old(cluster).helm_apps.deep_view(),
        final (cluster).cluster_resources.deep_view() == old(cluster).cluster_resources.deep_view(),
        final (cluster).network@ == old(cluster).network@,
        final (cluster).disk_size == old(cluster).disk_size,
        final (cluster).node_username@ == old(cluster).node_username@,
        final (cluster).node_password@ == old(cluster).node_password@,
        crate::model::opt_str_view(final (cluster).os_image) == crate::model::opt_str_view(
            old(cluster).os_image,
        ),
        crate::model::opt_str_view(final (cluster).os_image_storage) == crate::model::opt_str_view(
            old(cluster).os_image_storage,
        ),
        crate::model::opt_str_view(final (cluster).kube_version) == crate::model::opt_str_view(
            old(cluster).kube_version,
        ),
{
    let ghost orig = cluster.nodes.deep_view();
    let mut kept: Vec<ClusterNode> = Vec::new();
    let mut i: usize = 0;
    while i < cluster.nodes.len()
        invariant
            i <= orig.len(),
            cluster.nodes.deep_view() == orig,
            orig.len() == cluster.nodes@.len(),
            kept.deep_view() =~= orig.subrange(0, i as int).filter(
                |n: ClusterNodeView| n.name != node_name@,
            ),
        decreases cluster.nodes@.len() - i,
    {
        let ghost prefix = orig.subrange(0, i as int);
        proof {
            assert(orig[i as int] == cluster.nodes@[i as int]@);
        }
        if !crate::text::str_eq(cluster.nodes[i].name.as_str(), node_name) {
            kept.push(cluster.nodes[i].clone());
        }
        proof {
            reveal(Seq::filter);
            assert(orig.subrange(0, i + 1).drop_last() =~= prefix);
        }
        i = i + 1;
    }
    proof {
        assert(orig.subrange(0, orig.len() as int) =~= orig);
    }
    cluster.nodes = kept;
}

/// After a removal, no node record carries the removed name.
pub proof fn lemma_without_node_absent(nodes: Seq<ClusterNodeView>, name: Seq<char>)
    ensures
        !has_node(without_node(nodes, name), name),
{
    let kept = without_node(nodes, name);
    assert forall|i: int| 0 <= i < kept.len() implies #[trigger] kept[i].name != name by {
        kept_node_satisfies(nodes, name, i);
    }
}

/// Every kept node record satisfies the removal filter.
proof fn kept_node_satisfies(nodes: Seq<ClusterNodeView>, name: Seq<char>, i: int)
    requires
        0 <= i < without_node(nodes, name).len(),
    ensures
        without_node(nodes, name)[i].name != name,
    decreases nodes.len(),
{
    reveal(Seq::filter);
    if nodes.len() > 0 {
        let prefix = nodes.drop_last().filter(|n: ClusterNodeView| n.name != name);
        if i < prefix.len() {
            kept_node_satisfies(nodes.drop_last(), name, i);
        }
    }
}

/// The node list with every node carrying `name` resized to the given
/// cores and memory.
pub open spec fn resize_fn(name: Seq<char>, cores: u16, memory: u32) -> spec_fn(ClusterNodeView) -> ClusterNodeView {
    |n: ClusterNodeView|
        if n.name == name {
            ClusterNodeView { cores, memory, ..n }
        } else {
            n
        }
}

/// Sets the cores and memory of every node carrying `node_name`.
pub fn set_node_resources(cluster: &mut Cluster, node_name: &str, cores: u16, memory: u32)
    ensures
        final (cluster).nodes.deep_view() =~= old(cluster).nodes.deep_view().map_values(
            resize_fn(node_name@, cores, memory),
        ),
        final (cluster).cluster_name@ == old(cluster).cluster_name@,
        final (cluster).status == old(cluster).status,
        final (cluster).node@ == old(cluster).node@,
        final (cluster).cluster_config@ == old(cluster).cluster_config@,
        final (cluster).ssh_key@ == old(cluster).ssh_key@,
        final (cluster).helm_apps.deep_view() == old(cluster).helm_apps.deep_view(),
        final (cluster).cluster_resources.deep_view() == old(cluster).cluster_resources.deep_view(),
        final (cluster).network@ == old(cluster).network@,
        final (cluster).disk_size == old(cluster).disk_size,
        final (cluster).node_username@ == old(cluster).node_username@,
        final (cluster).node_password@ == old(cluster).node_password@,
        crate::model::opt_str_view(final (cluster).os_image) == crate::model::opt_str_view(
            old(cluster).os_image,
        ),
        crate::model::opt_str_view(final (cluster).os_image_storage) == crate::model::opt_str_view(
            old(cluster).os_image_storage,
        ),
        crate::model::opt_str_view(final (cluster).kube_version) == crate::model::opt_str_view(
            old(cluster).kube_version,
        ),
{
    let ghost orig = cluster.nodes.deep_view();
    let ghost f = resize_fn(node_name@, cores, memory);
    let mut out: Vec<ClusterNode> = Vec::new();
    let mut i: usize = 0;
    while i < cluster.nodes.len()
        invariant
            i <= orig.len(),
            cluster.nodes.deep_view() == orig,
            orig.len() == cluster.nodes@.len(),
            out.deep_view() =~= orig.subrange(0, i as int).map_values(
                resize_fn(node_name@, cores, memory),
            ),
        decreases cluster.nodes@.len() - i,
    {
        proof {
            assert(orig[i as int] == cluster.nodes@[i as int]@);
            assert(orig.subrange(0, i + 1) =~= orig.subrange(0, i as int).push(orig[i as int]));
            assert(orig.subrange(0, i + 1).map_values(resize_fn(node_name@, cores, memory))
                =~= orig.subrange(0, i as int).map_values(resize_fn(node_name@, cores, memory)).push(
                resize_fn(node_name@, cores, memory)(orig[i as int]),
            ));
        }
        let mut n = cluster.nodes[i].clone();
        if crate::text::str_eq(n.name.as_str(), node_name) {
            n.cores = cores;
            n.memory = memory;
            proof {
                assert(n@ =~= resize_fn(node_name@, cores, memory)(orig[i as int]));
            }
        }
        let ghost old_dv = out.deep_view();
        out.push(n);
        proof {
            assert forall|k: int|
                0 <= k < i + 1 implies out.deep_view()[k] == orig.subrange(0, i + 1).map_values(
                resize_fn(node_name@, cores, memory),
            )[k] by {
                if k < i {
                    assert(out.deep_view()[k] == old_dv[k]);
                } else {
                    assert(out.deep_view()[k] == n@);
                }
            }
            assert(out.deep_view() =~= orig.subrange(0, i + 1).map_values(
                resize_fn(node_name@, cores, memory),
            ));
        }
        i = i + 1;
    }
    proof {
        assert(orig.subrange(0, orig.len() as int) =~= orig);
    }
    cluster.nodes = out;
}

/// `n` with its lock set to `l`.
pub open spec fn locked_as(n: ClusterNodeView, l: ClusterNodeLock) -> ClusterNodeView {
    ClusterNodeView { lock: Some(l), ..n }
}

/// The node list with the first node carrying `name` locked as `l`;
/// unchanged when no node carries it.
pub open spec fn spec_lock_first(
    nodes: Seq<ClusterNodeView>,
    name: Seq<char>,
    l: ClusterNodeLock,
) -> Seq<ClusterNodeView>
    decreases nodes.len(),
{
    if nodes.len() == 0 {
        nodes
    } else if nodes[0].name == name {
        nodes.update(0, locked_as(nodes[0], l))
    } else {
        seq![nodes[0]] + spec_lock_first(nodes.drop_first(), name, l)
    }
}

/// At the first index carrying the name, `spec_lock_first` locks that node
/// and keeps everything else.
proof fn lemma_lock_first_at(nodes: Seq<ClusterNodeView>, name: Seq<char>, l: ClusterNodeLock, i: int)
    requires
        0 <= i < nodes.len(),
        nodes[i].name == name,
        forall|j: int| 0 <= j < i ==> #[trigger] nodes[j].name != name,
    ensures
        spec_lock_first(nodes, name, l) =~= nodes.update(i, locked_as(nodes[i], l)),
    decreases i,
{
    if i == 0 {
    } else {
        assert(forall|j: int| 0 <= j < i - 1 ==> #[trigger] nodes.drop_first()[j].name != name);
        lemma_lock_first_at(nodes.drop_first(), name, l, i - 1);
        assert(spec_lock_first(nodes, name, l) =~= seq![nodes[0]] + nodes.drop_first().update(
            i - 1,
            locked_as(nodes[i], l),
        ));
    }
}

/// When no node carries the name, `spec_lock_first` changes nothing.
proof fn lemma_lock_first_absent(nodes: Seq<ClusterNodeView>, name: Seq<char>, l: ClusterNodeLock)
    requires
        forall|j: int| 0 <= j < nodes.len() ==> #[trigger] nodes[j].name != name,
    ensures
        spec_lock_first(nodes, name, l) =~= nodes,
    decreases nodes.len(),
{
    if nodes.len() > 0 {
        assert(forall|j: int|
            0 <= j < nodes.drop_first().len() ==> #[trigger] nodes.drop_first()[j].name != name);
        lemma_lock_first_absent(nodes.drop_first(), name, l);
    }
}

/// Sets the lock of the first node carrying `node_name` to `l`, returning a
/// copy of the locked node; fails with `ResourceNotFound` (changing nothing)
/// exactly when no node carries the name.
pub fn set_node_lock_first(cluster: &mut Cluster, node_name: &str, l: ClusterNodeLock) -> (r:
    Result<ClusterNode, crate::Error>)
    ensures
        final (cluster).nodes.deep_view() =~= spec_lock_first(
            old(cluster).nodes.deep_view(),
            node_name@,
            l,
        ),
        r is Ok <==> has_node(old(cluster).nodes.deep_view(), node_name@),
        r matches Ok(n) ==> exists|i: int|
            0 <= i < old(cluster).nodes.deep_view().len() && #[trigger] old(
                cluster,
            ).nodes.deep_view()[i].name == node_name@ && n@ == locked_as(
                old(cluster).nodes.deep_view()[i],
                l,
            ) && (forall|j: int|
                0 <= j < i ==> (#[trigger] old(cluster).nodes.deep_view()[j]).name != node_name@),
        r matches Err(e) ==> e is ResourceNotFound,
        final (cluster).cluster_name@ == old(cluster).cluster_name@,
        final (cluster).status == old(cluster).status,
        final (cluster).node@ == old(cluster).node@,
        final (cluster).cluster_config@ == old(cluster).cluster_config@,
        final (cluster).ssh_key@ == old(cluster).ssh_key@,
        final (cluster).helm_apps.deep_view() == old(cluster).helm_apps.deep_view(),
        final (cluster).cluster_resources.deep_view() == old(cluster).cluster_resources.deep_view(),
        final (cluster).network@ == old(cluster).network@,
        final (cluster).disk_size == old(cluster).disk_size,
        final (cluster).node_username@ == old(cluster).node_username@,
        final (cluster).node_password@ == old(cluster).node_password@,
        crate::model::opt_str_view(final (cluster).os_image) == crate::model::opt_str_view(
            old(cluster).os_image,
        ),
        crate::model::opt_str_view(final (cluster).os_image_storage) == crate::model::opt_str_view(
            old(cluster).os_image_storage,
        ),
        crate::model::opt_str_view(final (cluster).kube_version) == crate::model::opt_str_view(
            old(cluster).kube_version,
        ),
{
    let ghost orig = cluster.nodes.deep_view();
    let ghost mut pos: int = 0;
    let mut out: Vec<ClusterNode> = Vec::new();
    let mut taken: Option<ClusterNode> = None;
    let mut i: usize = 0;
    while i < cluster.nodes.len()
        invariant
            i <= orig.len(),
            cluster.nodes.deep_view() == orig,
            orig.len() == cluster.nodes@.len(),
            taken is None ==> (out.deep_view() =~= orig.subrange(0, i as int) && (forall|j: int|
                0 <= j < i ==> #[trigger] orig[j].name != node_name@)),
            taken matches Some(n) ==> 0 <= pos < i && orig[pos].name == node_name@ && n@
                == locked_as(orig[pos], l) && (forall|j: int|
                0 <= j < pos ==> (#[trigger] orig[j]).name != node_name@) && spec_lock_first(
                orig,
                node_name@,
                l,
            ) =~= orig.update(pos, locked_as(orig[pos], l)) && out.deep_view() =~= orig.update(
                pos,
                locked_as(orig[pos], l),
            ).subrange(0, i as int),
        decreases cluster.nodes@.len() - i,
    {
        proof {
            assert(orig[i as int] == cluster.nodes@[i as int]@);
        }
        let mut n = cluster.nodes[i].clone();
        let take_here = match &taken {
            None => crate::text::str_eq(n.name.as_str(), node_name),
            Some(_) => false,
        };
        if take_here {
            n.lock = Some(l);
            proof {
                pos = i as int;
                lemma_lock_first_at(orig, node_name@, l, i as int);
                assert(n@ =~= locked_as(orig[i as int], l));
            }
            taken = Some(n.clone());
            proof {
                assert(n@ =~= locked_as(orig[pos], l));
            }
        }
        let ghost old_dv = out.deep_view();
        out.push(n);
        proof {
            if taken is Some {
                let expect = orig.update(pos, locked_as(orig[pos], l)).subrange(0, i + 1);
                assert(out.deep_view().len() == i + 1);
                assert(expect.len() == i + 1);
                assert forall|k: int| 0 <= k < i + 1 implies out.deep_view()[k] == expect[k] by {
                    assert(out.deep_view()[k] == out@[k].deep_view());
                    if k < i {
                        assert(out.deep_view()[k] == old_dv[k]);
                    } else {
                        assert(out.deep_view()[k] == out@[k].deep_view());
                    }
                }
                assert(out.deep_view() =~= expect);
            }
        }
        i = i + 1;
    }
    proof {
        if taken is None {
            lemma_lock_first_absent(orig, node_name@, l);
            assert(orig.subrange(0, orig.len() as int) =~= orig);
            assert(!has_node(orig, node_name@));
        } else {
            assert(out.deep_view() =~= spec_lock_first(orig, node_name@, l));
            assert(has_node(orig, node_name@));
        }
    }
    cluster.nodes = out;
    match taken {
        Some(n) => Ok(n),
        None => Err(crate::Error::ResourceNotFound),
    }
}

/// Every node carrying `name` locked as `l`.
pub open spec fn lock_all_fn(name: Seq<char>, l: ClusterNodeLock) -> spec_fn(ClusterNodeView) -> ClusterNodeView {
    |n: ClusterNodeView|
        if n.name == name {
            ClusterNodeView { lock: Some(l), ..n }
        } else {
            n
        }
}

/// Sets the lock of every node carrying `node_name` to `l` (a no-op when no
/// node carries it).
pub fn set_node_lock_all(cluster: &mut Cluster, node_name: &str, l: ClusterNodeLock)
    ensures
        final (cluster).nodes.deep_view() =~= old(cluster).nodes.deep_view().map_values(
            lock_all_fn(node_name@, l),
        ),
        final (cluster).cluster_name@ == old(cluster).cluster_name@,
        final (cluster).status == old(cluster).status,
        final (cluster).node@ == old(cluster).node@,
        final (cluster).cluster_config@ == old(cluster).cluster_config@,
        final (cluster).ssh_key@ == old(cluster).ssh_key@,
        final (cluster).helm_apps.deep_view() == old(cluster).helm_apps.deep_view(),
        final (cluster).cluster_resources.deep_view() == old(cluster).cluster_resources.deep_view(),
        final (cluster).network@ == old(cluster).network@,
        final (cluster).disk_size == old(cluster).disk_size,
        final (cluster).node_username@ == old(cluster).node_username@,
        final (cluster).node_password@ == old(cluster).node_password@,
        crate::model::opt_str_view(final (cluster).os_image) == crate::model::opt_str_view(
            old(cluster).os_image,
        ),
        crate::model::opt_str_view(final (cluster).os_image_storage) == crate::model::opt_str_view(
            old(cluster).os_image_storage,
        ),
        crate::model::opt_str_view(final (cluster).kube_version) == crate::model::opt_str_view(
            old(cluster).kube_version,
        ),
{
    let ghost orig = cluster.nodes.deep_view();
    let mut out: Vec<ClusterNode> = Vec::new();
    let mut i: usize = 0;
    while i < cluster.nodes.len()
        invariant
            i <= orig.len(),
            cluster.nodes.deep_view() == orig,
            orig.len() == cluster.nodes@.len(),
            out.deep_view() =~= orig.subrange(0, i as int).map_values(lock_all_fn(node_name@, l)),
        decreases cluster.nodes@.len() - i,
    {
        proof {
            assert(orig[i as int] == cluster.nodes@[i as int]@);
            assert(orig.subrange(0, i + 1) =~= orig.subrange(0, i as int).push(orig[i as int]));
            assert(orig.subrange(0, i + 1).map_values(lock_all_fn(node_name@, l)) =~= orig.subrange(
                0,
                i as int,
            ).map_values(lock_all_fn(node_name@, l)).push(
                lock_all_fn(node_name@, l)(orig[i as int]),
            ));
        }
        let mut n = cluster.nodes[i].clone();
        if crate::text::str_eq(n.name.as_str(), node_name) {
            n.lock = Some(l);
            proof {
                assert(n@ =~= lock_all_fn(node_name@, l)(orig[i as int]));
            }
        }
        let ghost old_dv = out.deep_view();
        out.push(n);
        proof {
            assert forall|k: int|
                0 <= k < i + 1 implies out.deep_view()[k] == orig.subrange(0, i + 1).map_values(
                lock_all_fn(node_name@, l),
            )[k] by {
                if k < i {
                    assert(out.deep_view()[k] == old_dv[k]);
                } else {
                    assert(out.deep_view()[k] == n@);
                }
            }
            assert(out.deep_view() =~= orig.subrange(0, i + 1).map_values(
                lock_all_fn(node_name@, l),
            ));
        }
        i = i + 1;
    }
    proof {
        assert(orig.subrange(0, orig.len() as int) =~= orig);
    }
    cluster.nodes = out;
}

/// The mathematical value of an [`InstalledRelease`]: the fields the status
/// merge reads.
#[verifier::ext_equal]
pub ghost struct InstalledReleaseView {
    pub name: Seq<char>,
    pub namespace: Seq<char>,
    pub status: AppStatusType,
}

impl View for InstalledRelease {
    type V = InstalledReleaseView;

    open spec fn view(&self) -> InstalledReleaseView {
        InstalledReleaseView { name: self.name@, namespace: self.namespace@, status: self.status }
    }
}

impl DeepView for InstalledRelease {
    type V = InstalledReleaseView;

    open spec fn deep_view(&self) -> InstalledReleaseView {
        self.view()
    }
}

/// The mathematical value of a [`StatusCondition`].
#[verifier::ext_equal]
pub ghost struct StatusConditionView {
    pub status: Seq<char>,
    pub condition_type: Seq<char>,
}

impl View for StatusCondition {
    type V = StatusConditionView;

    open spec fn view(&self) -> StatusConditionView {
        StatusConditionView { status: self.status@, condition_type: self.condition_type@ }
    }
}

impl DeepView for StatusCondition {
    type V = StatusConditionView;

    open spec fn deep_view(&self) -> StatusConditionView {
        self.view()
    }
}

/// The mathematical value of an [`Item`]: its name and condition list.
#[verifier::ext_equal]
pub ghost struct ItemView {
    pub name: Seq<char>,
    pub conditions: Seq<StatusConditionView>,
}

impl View for Item {
    type V = ItemView;

    open spec fn view(&self) -> ItemView {
        ItemView { name: self.metadata.name@, conditions: self.status.conditions.deep_view() }
    }
}

impl DeepView for Item {
    type V = ItemView;

    open spec fn deep_view(&self) -> ItemView {
        self.view()
    }
}

} // verus!
