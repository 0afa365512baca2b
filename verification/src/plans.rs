//! Pure construction of everything the workflows say to the outside world:
//! VM creation parameters, guest shell command lines, and the host-file and
//! Helm installation plans. Every function's contract pins the produced text
//! exactly, so the workflow machines inherit exact knowledge of what they
//! instruct the infrastructure to do.
use crate::helm;
use crate::model::{Cluster, ClusterNode, ClusterNodeType, HelmApp, HelmAppView};
use crate::outside;
use crate::proxmox::{
    CreateVirtualMachine, DownloadImage, DownloadImageContentType, OsType, Param, ResizeDisk,
    ScsiHw,
};
use crate::text::{concat2, concat3, dec_u64, spec_dec, spec_join};
use vstd::prelude::*;

verus! {

/// The Helm binary the guests provide.
pub const HELM_CMD: &'static str = "microk8s.helm3";

/// The Helm binary's name, for contracts.
pub open spec fn helm_cmd() -> Seq<char> {
    "microk8s.helm3"@
}

/// The guest hostname of a node: `{cluster}-{node}`.
pub open spec fn spec_hostname(cluster_name: Seq<char>, node_name: Seq<char>) -> Seq<char> {
    cluster_name + "-"@ + node_name
}

/// The guest hostname of a node: `{cluster}-{node}`.
pub fn hostname(cluster_name: &str, node_name: &str) -> (r: String)
    ensures
        r@ == spec_hostname(cluster_name@, node_name@),
{
    concat3(cluster_name, "-", node_name)
}

/// One `/etc/hosts` line to distribute: a hostname and its address.
#[derive(Debug)]
pub struct HostEntry {
    pub host: String,
    pub ip: String,
}

/// The mathematical value of a [`HostEntry`].
#[verifier::ext_equal]
pub ghost struct HostEntryView {
    pub host: Seq<char>,
    pub ip: Seq<char>,
}

impl View for HostEntry {
    type V = HostEntryView;

    open spec fn view(&self) -> HostEntryView {
        HostEntryView { host: self.host@, ip: self.ip@ }
    }
}

impl DeepView for HostEntry {
    type V = HostEntryView;

    open spec fn deep_view(&self) -> HostEntryView {
        self.view()
    }
}

/// The host entry of node `n` of `cluster`.
pub open spec fn spec_host_entry(c: crate::model::ClusterView, n: int) -> HostEntryView {
    HostEntryView {
        host: spec_hostname(c.cluster_name, c.nodes[n].name),
        ip: c.nodes[n].ip_address,
    }
}

/// The host entries of every node of the cluster, in node order.
pub fn hosts_entries(cluster: &Cluster) -> (r: Vec<HostEntry>)
    ensures
        r.deep_view().len() == cluster@.nodes.len(),
        forall|k: int|
            0 <= k < cluster@.nodes.len() ==> #[trigger] r.deep_view()[k] == spec_host_entry(
                cluster@,
                k,
            ),
{
    let mut out: Vec<HostEntry> = Vec::new();
    let mut i: usize = 0;
    while i < cluster.nodes.len()
        invariant
            i <= cluster@.nodes.len(),
            cluster@.nodes.len() == cluster.nodes@.len(),
            out.deep_view().len() == i,
            forall|k: int| 0 <= k < i ==> #[trigger] out.deep_view()[k] == spec_host_entry(cluster@, k),
        decreases cluster.nodes@.len() - i,
    {
        proof {
            assert(cluster@.nodes[i as int] == cluster.nodes@[i as int]@);
        }
        let e = HostEntry {
            host: hostname(cluster.cluster_name.as_str(), cluster.nodes[i].name.as_str()),
            ip: cluster.nodes[i].ip_address.clone(),
        };
        proof {
            assert(e@ =~= spec_host_entry(cluster@, i as int));
        }
        let ghost old_dv = out.deep_view();
        out.push(e);
        proof {
            assert forall|k: int| 0 <= k < i + 1 implies out.deep_view()[k] == spec_host_entry(
                cluster@,
                k,
            ) by {
                if k < i {
                    assert(out.deep_view()[k] == old_dv[k]);
                } else {
                    assert(out.deep_view()[k] == e@);
                }
            }
        }
        i = i + 1;
    }
    out
}

/// The shell line appending `ip host` to `file` on a guest.
pub open spec fn spec_tee_cmd(ip: Seq<char>, host: Seq<char>, file: Seq<char>) -> Seq<char> {
    "echo '"@ + ip + " "@ + host + "' | sudo tee -a "@ + file
}

/// The shell line appending `ip host` to `file` on a guest.
fn tee_cmd(ip: &str, host: &str, file: &str) -> (r: String)
    ensures
        r@ == spec_tee_cmd(ip@, host@, file@),
{
    let mut s = String::from_str("echo '");
    s.append(ip);
    s.append(" ");
    s.append(host);
    s.append("' | sudo tee -a ");
    s.append(file);
    s
}

/// The guest setup commands for one node: enable the iSCSI daemon, then
/// append every entry to the cloud-init hosts template and to `/etc/hosts`.
pub open spec fn spec_setup_commands(entries: Seq<HostEntryView>) -> Seq<Seq<char>>
    decreases entries.len(),
{
    if entries.len() == 0 {
        seq!["sudo systemctl enable iscsid"@]
    } else {
        let e = entries.last();
        spec_setup_commands(entries.drop_last()) + seq![
            spec_tee_cmd(e.ip, e.host, "/etc/cloud/templates/hosts.debian.tmpl"@),
            spec_tee_cmd(e.ip, e.host, "/etc/hosts"@),
        ]
    }
}

/// The guest setup commands for one node, from the cluster's host entries.
pub fn setup_vm_commands(entries: &Vec<HostEntry>) -> (r: Vec<String>)
    ensures
        r.deep_view() =~= spec_setup_commands(entries.deep_view()),
{
    let mut out: Vec<String> = Vec::new();
    out.push(String::from_str("sudo systemctl enable iscsid"));
    let mut i: usize = 0;
    while i < entries.len()
        invariant
            i <= entries@.len(),
            entries@.len() == entries.deep_view().len(),
            out.deep_view() =~= spec_setup_commands(entries.deep_view().subrange(0, i as int)),
        decreases entries@.len() - i,
    {
        proof {
            assert(entries.deep_view()[i as int] == entries@[i as int]@);
            assert(entries.deep_view().subrange(0, i + 1).drop_last() =~= entries.deep_view(
            ).subrange(0, i as int));
        }
        let e = &entries[i];
        out.push(tee_cmd(e.ip.as_str(), e.host.as_str(), "/etc/cloud/templates/hosts.debian.tmpl"));
        out.push(tee_cmd(e.ip.as_str(), e.host.as_str(), "/etc/hosts"));
        i = i + 1;
    }
    proof {
        assert(entries.deep_view().subrange(0, entries.deep_view().len() as int)
            =~= entries.deep_view());
    }
    out
}

/// The host entries of every node of `c`, in node order, as one value.
pub open spec fn spec_cluster_entries(c: crate::model::ClusterView) -> Seq<HostEntryView> {
    Seq::new(c.nodes.len(), |k: int| spec_host_entry(c, k))
}

/// The guest setup commands derived from a cluster's full host-entry list.
pub open spec fn spec_cluster_setup_cmds(c: crate::model::ClusterView) -> Seq<Seq<char>> {
    spec_setup_commands(spec_cluster_entries(c))
}

/// Law (hosts completeness): the setup command list derived from a cluster's
/// full host-entry list carries, for every node of the cluster, both shell
/// lines that append that node's `{cluster}-{name} ip` mapping. Since the
/// add-node workflow runs this same list on the new node and on every
/// pre-existing node, each of them is told every node's mapping — the new
/// node's included — and the new node is told every pre-existing mapping.
pub proof fn lemma_setup_covers_all_nodes(entries: Seq<HostEntryView>, k: int)
    requires
        0 <= k < entries.len(),
    ensures
        spec_setup_commands(entries).contains(
            spec_tee_cmd(entries[k].ip, entries[k].host, "/etc/cloud/templates/hosts.debian.tmpl"@),
        ),
        spec_setup_commands(entries).contains(
            spec_tee_cmd(entries[k].ip, entries[k].host, "/etc/hosts"@),
        ),
    decreases entries.len(),
{
    let cmds = spec_setup_commands(entries);
    if k == entries.len() - 1 {
        let e = entries.last();
        assert(cmds[cmds.len() - 2] == spec_tee_cmd(
            e.ip,
            e.host,
            "/etc/cloud/templates/hosts.debian.tmpl"@,
        ));
        assert(cmds[cmds.len() - 1] == spec_tee_cmd(e.ip, e.host, "/etc/hosts"@));
    } else {
        lemma_setup_covers_all_nodes(entries.drop_last(), k);
        let prev = spec_setup_commands(entries.drop_last());
        let i1 = choose|i: int|
            0 <= i < prev.len() && prev[i] == spec_tee_cmd(
                entries[k].ip,
                entries[k].host,
                "/etc/cloud/templates/hosts.debian.tmpl"@,
            );
        assert(cmds[i1] == prev[i1]);
        let i2 = choose|i: int|
            0 <= i < prev.len() && prev[i] == spec_tee_cmd(
                entries[k].ip,
                entries[k].host,
                "/etc/hosts"@,
            );
        assert(cmds[i2] == prev[i2]);
    }
}

/// The snap command installing the configured Kubernetes channel (or the
/// fallback channel when none is recorded).
pub open spec fn spec_install_kubernetes_cmd(kube_version: Option<Seq<char>>) -> Seq<char> {
    let channel = match kube_version {
        Some(v) => v,
        None => "1.24/stable"@,
    };
    "sudo snap install microk8s --channel="@ + channel + " --classic"@
}

/// The snap command installing the configured Kubernetes channel.
pub fn install_kubernetes_cmd(kube_version: &Option<String>) -> (r: String)
    ensures
        r@ == spec_install_kubernetes_cmd(crate::model::opt_str_view(*kube_version)),
{
    let channel: &str = match kube_version {
        Some(v) => v.as_str(),
        None => "1.24/stable",
    };
    concat3("sudo snap install microk8s --channel=", channel, " --classic")
}

/// The join command a node runs: `sudo microk8s join <url>`, workers with a
/// trailing `--worker`.
pub open spec fn spec_join_cmd(url: Seq<char>, node_type: ClusterNodeType) -> Seq<char> {
    let base = "sudo microk8s join "@ + url;
    match node_type {
        ClusterNodeType::Master => base,
        ClusterNodeType::Worker => base + " --worker"@,
    }
}

/// The join command for a node, from the join URLs a master handed out.
/// Fails exactly when the master's reply held no URL.
pub fn join_cmd(urls: &Vec<String>, node_type: ClusterNodeType) -> (r: Result<String, String>)
    ensures
        urls@.len() == 0 ==> (r matches Err(e) && e@
            == "Join token doesn't have urls to join node"@),
        urls@.len() > 0 ==> (r matches Ok(c) && c@ == spec_join_cmd(urls@[0]@, node_type)),
{
    if urls.len() == 0 {
        return Err(String::from_str("Join token doesn't have urls to join node"));
    }
    let base = concat2("sudo microk8s join ", urls[0].as_str());
    match node_type {
        ClusterNodeType::Master => Ok(base),
        ClusterNodeType::Worker => Ok(concat2(base.as_str(), " --worker")),
    }
}

/// The drain command run on a master before a node is removed.
pub open spec fn spec_drain_cmd(cluster_name: Seq<char>, node_name: Seq<char>) -> Seq<char> {
    "sudo microk8s.kubectl drain "@ + spec_hostname(cluster_name, node_name)
        + " --ignore-daemonsets --grace-period=30 --timeout=60s"@
}

/// The drain command run on a master before a node is removed.
pub fn drain_cmd(cluster_name: &str, node_name: &str) -> (r: String)
    ensures
        r@ == spec_drain_cmd(cluster_name@, node_name@),
{
    let host = hostname(cluster_name, node_name);
    concat3(
        "sudo microk8s.kubectl drain ",
        host.as_str(),
        " --ignore-daemonsets --grace-period=30 --timeout=60s",
    )
}

/// The command a master runs to drop a departed node from membership.
pub open spec fn spec_remove_node_cmd(cluster_name: Seq<char>, node_name: Seq<char>) -> Seq<char> {
    "sudo microk8s remove-node "@ + spec_hostname(cluster_name, node_name)
}

/// The command a master runs to drop a departed node from membership.
pub fn remove_node_cmd(cluster_name: &str, node_name: &str) -> (r: String)
    ensures
        r@ == spec_remove_node_cmd(cluster_name@, node_name@),
{
    let host = hostname(cluster_name, node_name);
    concat2("sudo microk8s remove-node ", host.as_str())
}

/// The two sed lines stripping a departed node's hostname from a guest's
/// hosts files.
pub open spec fn spec_hosts_cleanup_cmds(cluster_name: Seq<char>, node_name: Seq<char>) -> Seq<
    Seq<char>,
> {
    seq![
        "sudo sed -i '/"@ + spec_hostname(cluster_name, node_name)
            + "/d' /etc/cloud/templates/hosts.debian.tmpl"@,
        "sudo sed -i '/"@ + spec_hostname(cluster_name, node_name) + "/d' /etc/hosts"@,
    ]
}

/// The two sed lines stripping a departed node's hostname from a guest's
/// hosts files.
pub fn hosts_cleanup_cmds(cluster_name: &str, node_name: &str) -> (r: Vec<String>)
    ensures
        r.deep_view() =~= spec_hosts_cleanup_cmds(cluster_name@, node_name@),
{
    let host = hostname(cluster_name, node_name);
    let mut out: Vec<String> = Vec::new();
    out.push(
        concat3("sudo sed -i '/", host.as_str(), "/d' /etc/cloud/templates/hosts.debian.tmpl"),
    );
    out.push(concat3("sudo sed -i '/", host.as_str(), "/d' /etc/hosts"));
    out
}

/// One step of a guest-side plan: run a shell line or upload a file.
#[derive(Debug)]
pub enum GuestStep {
    Exec { command: String },
    Upload { path: String, content: String },
}

/// The mathematical value of a [`GuestStep`].
#[verifier::ext_equal]
pub ghost enum GuestStepView {
    Exec { command: Seq<char> },
    Upload { path: Seq<char>, content: Seq<char> },
}

impl View for GuestStep {
    type V = GuestStepView;

    open spec fn view(&self) -> GuestStepView {
        match self {
            GuestStep::Exec { command } => GuestStepView::Exec { command: command@ },
            GuestStep::Upload { path, content } => GuestStepView::Upload {
                path: path@,
                content: content@,
            },
        }
    }
}

impl DeepView for GuestStep {
    type V = GuestStepView;

    open spec fn deep_view(&self) -> GuestStepView {
        self.view()
    }
}

/// The values-file path of a release: `/tmp/{name}.yaml`, spaces in the
/// trimmed release name replaced by underscores.
pub open spec fn spec_values_file(release_name: Seq<char>) -> Seq<char> {
    "/tmp/"@ + outside::trimmed_of(release_name).map_values(
        |c: char|
            if c == ' ' {
                '_'
            } else {
                c
            },
    ) + ".yaml"@
}

/// The exact Helm installation plan of one app: add and refresh its chart
/// repository, upload its values file when it has values, run
/// `upgrade --install` with exactly the options the app configures, and
/// remove the uploaded values file again.
pub open spec fn spec_helm_install_steps(app: HelmAppView) -> Seq<GuestStepView> {
    let repo_add = GuestStepView::Exec {
        command: spec_join(
            seq!["sudo"@, helm_cmd(), "repo"@, "add"@, app.chart_name, app.repository],
            " "@,
        ),
    };
    let repo_update = GuestStepView::Exec {
        command: spec_join(seq!["sudo"@, helm_cmd(), "repo"@, "update"@], " "@),
    };
    let base = seq!["sudo"@, helm_cmd(), "upgrade"@, "--install"@, "--create-namespace"@,
        "--namespace"@, app.namespace, app.release_name, app.chart_name + "/"@ + app.chart_name];
    let with_values = if app.values.len() > 0 {
        base + seq!["-f"@, spec_values_file(app.release_name)]
    } else {
        base
    };
    let with_version = if app.chart_version.len() > 0 {
        with_values + seq!["--version"@, app.chart_version]
    } else {
        with_values
    };
    let with_wait = if app.wait {
        with_version.push("--wait"@)
    } else {
        with_version
    };
    let install = GuestStepView::Exec { command: spec_join(with_wait, " "@) };
    let head = seq![repo_add, repo_update];
    let head = if app.values.len() > 0 {
        head.push(
            GuestStepView::Upload { path: spec_values_file(app.release_name), content: app.values },
        )
    } else {
        head
    };
    let tail = if app.values.len() > 0 {
        seq![
            GuestStepView::Exec {
                command: "sudo rm "@ + spec_values_file(app.release_name),
            },
        ]
    } else {
        Seq::empty()
    };
    head.push(install) + tail
}

/// The values-file path of a release.
fn values_file(release_name: &str) -> (r: String)
    ensures
        r@ == spec_values_file(release_name@),
{
    let trimmed = outside::trim(release_name);
    let flat = outside::replace_spaces(trimmed.as_str());
    concat3("/tmp/", flat.as_str(), ".yaml")
}

/// Builds the Helm installation plan of one app; see
/// [`spec_helm_install_steps`] for the exact steps.
pub fn helm_install_plan(app: &HelmApp) -> (r: Vec<GuestStep>)
    ensures
        r.deep_view() =~= spec_helm_install_steps(app@),
{
    let mut out: Vec<GuestStep> = Vec::new();
    let b = helm::CommandBuilder::new(HELM_CMD).sudo();
    let ra = b.repo().add(app.chart_name.as_str(), app.repository.as_str());
    proof {
        assert(ra@ =~= seq!["sudo"@, helm_cmd(), "repo"@, "add"@, app@.chart_name, app@.repository]);
    }
    out.push(GuestStep::Exec { command: ra.build() });
    let b2 = helm::CommandBuilder::new(HELM_CMD).sudo();
    let ru = b2.repo().update();
    proof {
        assert(ru@ =~= seq!["sudo"@, helm_cmd(), "repo"@, "update"@]);
    }
    out.push(GuestStep::Exec { command: ru.build() });
    let vfile = values_file(app.release_name.as_str());
    if !app.values.as_str().is_empty() {
        out.push(GuestStep::Upload { path: vfile.clone(), content: app.values.clone() });
    }
    let b3 = helm::CommandBuilder::new(HELM_CMD).sudo();
    let mut cmd = b3.upgrade_or_install().create_namespace().namespace(
        app.namespace.as_str(),
    ).name(app.release_name.as_str()).chart(app.chart_name.as_str(), app.chart_name.as_str());
    proof {
        assert(cmd@ =~= seq!["sudo"@, helm_cmd(), "upgrade"@, "--install"@, "--create-namespace"@,
            "--namespace"@, app@.namespace, app@.release_name, app@.chart_name + "/"@
            + app@.chart_name]);
    }
    let ghost base = seq!["sudo"@, helm_cmd(), "upgrade"@, "--install"@, "--create-namespace"@,
        "--namespace"@, app@.namespace, app@.release_name, app@.chart_name + "/"@
        + app@.chart_name];
    let ghost with_values = if app@.values.len() > 0 {
        base + seq!["-f"@, spec_values_file(app@.release_name)]
    } else {
        base
    };
    if !app.values.as_str().is_empty() {
        cmd = cmd.with_values_file(vfile.as_str());
    }
    proof {
        assert(cmd@ =~= with_values);
    }
    let ghost with_version = if app@.chart_version.len() > 0 {
        with_values + seq!["--version"@, app@.chart_version]
    } else {
        with_values
    };
    if !app.chart_version.as_str().is_empty() {
        cmd = cmd.version(app.chart_version.as_str());
    }
    proof {
        assert(cmd@ =~= with_version);
    }
    let ghost with_wait = if app@.wait {
        with_version.push("--wait"@)
    } else {
        with_version
    };
    if app.wait {
        cmd = cmd.wait();
    }
    proof {
        assert(cmd@ =~= with_wait);
    }
    out.push(GuestStep::Exec { command: cmd.build() });
    if !app.values.as_str().is_empty() {
        out.push(GuestStep::Exec { command: concat2("sudo rm ", vfile.as_str()) });
    }
    proof {
        assert(out.deep_view() =~~= spec_helm_install_steps(app@));
    }
    out
}

/// The plan applying one raw manifest resource: upload it, `kubectl apply`
/// it, delete the uploaded file.
pub open spec fn spec_workload_steps(name: Seq<char>, content: Seq<char>) -> Seq<GuestStepView> {
    let f = spec_resource_file(name);
    seq![
        GuestStepView::Upload { path: f, content },
        GuestStepView::Exec { command: "sudo microk8s.kubectl apply -f "@ + f },
        GuestStepView::Exec { command: "sudo rm "@ + f },
    ]
}

/// The uploaded path of a manifest resource:
/// `/tmp/{name}_cluster_resource.yaml`, spaces replaced by underscores.
pub open spec fn spec_resource_file(name: Seq<char>) -> Seq<char> {
    "/tmp/"@ + outside::trimmed_of(name).map_values(
        |c: char|
            if c == ' ' {
                '_'
            } else {
                c
            },
    ) + "_cluster_resource.yaml"@
}

/// The uploaded path of a manifest resource.
fn resource_file(name: &str) -> (r: String)
    ensures
        r@ == spec_resource_file(name@),
{
    let trimmed = outside::trim(name);
    let flat = outside::replace_spaces(trimmed.as_str());
    concat3("/tmp/", flat.as_str(), "_cluster_resource.yaml")
}

/// Builds the apply plan of one manifest resource; see
/// [`spec_workload_steps`].
pub fn install_resource_plan(resource: &crate::model::ClusterResource) -> (r: Vec<GuestStep>)
    ensures
        r.deep_view() =~= spec_workload_steps(resource@.name, resource@.content),
{
    let f = resource_file(resource.name.as_str());
    let mut out: Vec<GuestStep> = Vec::new();
    out.push(GuestStep::Upload { path: f.clone(), content: resource.content.clone() });
    out.push(GuestStep::Exec { command: concat2("sudo microk8s.kubectl apply -f ", f.as_str()) });
    out.push(GuestStep::Exec { command: concat2("sudo rm ", f.as_str()) });
    out
}

/// The plan deleting one raw manifest resource: upload it, `kubectl delete`
/// it, delete the uploaded file.
pub open spec fn spec_uninstall_workload_steps(name: Seq<char>, content: Seq<char>) -> Seq<
    GuestStepView,
> {
    let f = spec_resource_file(name);
    seq![
        GuestStepView::Upload { path: f, content },
        GuestStepView::Exec { command: "sudo microk8s.kubectl delete -f "@ + f },
        GuestStepView::Exec { command: "sudo rm "@ + f },
    ]
}

/// Builds the delete plan of one manifest resource; see
/// [`spec_uninstall_workload_steps`].
pub fn uninstall_resource_plan(resource: &crate::model::ClusterResource) -> (r: Vec<GuestStep>)
    ensures
        r.deep_view() =~= spec_uninstall_workload_steps(resource@.name, resource@.content),
{
    let f = resource_file(resource.name.as_str());
    let mut out: Vec<GuestStep> = Vec::new();
    out.push(GuestStep::Upload { path: f.clone(), content: resource.content.clone() });
    out.push(GuestStep::Exec { command: concat2("sudo microk8s.kubectl delete -f ", f.as_str()) });
    out.push(GuestStep::Exec { command: concat2("sudo rm ", f.as_str()) });
    out
}

/// The command uninstalling one Helm release from its namespace.
pub open spec fn spec_helm_uninstall_cmd(app: HelmAppView) -> Seq<char> {
    spec_join(
        seq!["sudo"@, helm_cmd(), "uninstall"@, app.release_name, "--namespace"@, app.namespace],
        " "@,
    )
}

/// The command uninstalling one Helm release from its namespace.
pub fn helm_uninstall_cmd(app: &HelmApp) -> (r: String)
    ensures
        r@ == spec_helm_uninstall_cmd(app@),
{
    let b = helm::CommandBuilder::new(HELM_CMD).sudo();
    let u = b.uninstall(app.release_name.as_str()).namespace(app.namespace.as_str());
    proof {
        assert(u@ =~= seq!["sudo"@, helm_cmd(), "uninstall"@, app@.release_name, "--namespace"@,
            app@.namespace]);
    }
    u.build()
}

/// The command listing all installed releases as JSON.
pub open spec fn spec_helm_list_cmd() -> Seq<char> {
    spec_join(seq!["sudo"@, helm_cmd(), "list"@, "-A"@, "-o json"@], " "@)
}

/// The command listing all installed releases as JSON.
pub fn helm_list_cmd() -> (r: String)
    ensures
        r@ == spec_helm_list_cmd(),
{
    let b = helm::CommandBuilder::new(HELM_CMD).sudo();
    let l = b.list().all().json();
    proof {
        assert(l@ =~= seq!["sudo"@, helm_cmd(), "list"@, "-A"@, "-o json"@]);
    }
    l.build()
}

/// The file name at the end of a URL or path: what follows the last slash.
/// Fails exactly when nothing follows the last slash.
pub fn file_name_of(path: &str) -> (r: Result<String, String>)
    ensures
        match r {
            Ok(f) => exists|i: int|
                0 <= i < path@.len() && path@[i] == '/' && f@ =~= path@.subrange(
                    i + 1,
                    path@.len() as int,
                ) && f@.len() > 0 && (forall|j: int| i < j < path@.len() ==> path@[j] != '/'),
            Err(e) => e@ == "Cannot extract file name for path"@,
        },
{
    let n = path.unicode_len();
    let mut i: usize = n;
    while i > 0
        invariant
            i <= n,
            n == path@.len(),
            forall|j: int| i <= j < n ==> path@[j] != '/',
        decreases i,
    {
        if path.get_char(i - 1) == '/' {
            if i == n {
                return Err(String::from_str("Cannot extract file name for path"));
            }
            let f = path.substring_char(i, n);
            let owned = f.to_owned();
            proof {
                assert(path@[i - 1] == '/');
            }
            return Ok(owned);
        }
        i = i - 1;
    }
    Err(String::from_str("Cannot extract file name for path"))
}

/// The VM creation request for one node of a cluster: name
/// `{cluster}-{node}`, virtio networking on the cluster bridge, the system
/// disk imported from `os_image_path`, a cloud-init drive, serial console,
/// and the cluster's static address, credentials and URL-encoded public key.
/// Every field of a VM creation request for node `n` of cluster `c`, whose
/// system disk is imported from the image at `path`.
pub open spec fn spec_vm_spec(
    r: CreateVirtualMachine,
    c: crate::model::ClusterView,
    n: crate::model::ClusterNodeView,
    path: Seq<char>,
) -> bool {
    &&& r.node@ == c.node
    &&& r.vm_id == n.vm_id
    &&& r.name@ == spec_hostname(c.cluster_name, n.name)
    &&& r.cores == n.cores
    &&& r.memory == n.memory
    &&& r.os_type == OsType::L26
    &&& r.net.deep_view() =~= seq![
        crate::proxmox::ParamView { name: "net0"@, value: "model=virtio,bridge="@ + c.network.bridge },
    ]
    &&& r.scsihw == Some(ScsiHw::VirtioScsiPci)
    &&& r.scsi.deep_view() =~= seq![
        crate::proxmox::ParamView {
            name: "scsi0"@,
            value: n.storage_pool + ":0,import-from="@ + path,
        },
    ]
    &&& r.ide.deep_view() =~= seq![
        crate::proxmox::ParamView { name: "ide2"@, value: n.storage_pool + ":cloudinit"@ },
    ]
    &&& r.boot matches Some(b) && b@ == "order=scsi0"@
    &&& r.vga matches Some(v) && v@ == "serial0"@
    &&& r.serial.deep_view() =~= seq![
        crate::proxmox::ParamView { name: "serial0"@, value: "socket"@ },
    ]
    &&& r.ipconfig.deep_view() =~= seq![
        crate::proxmox::ParamView {
            name: "ipconfig0"@,
            value: "ip="@ + n.ip_address + "/"@ + spec_dec(c.network.subnet_mask as nat) + ",gw="@
                + c.network.gateway,
        },
    ]
    &&& r.nameserver matches Some(d) && d@ == c.network.dns
    &&& r.ci_user matches Some(u) && u@ == c.node_username
    &&& r.ci_password matches Some(p) && p@ == c.node_password
    &&& r.ssh_keys matches Some(k) && k@ == outside::url_encoded_of(c.ssh_key.public_key)
}

pub fn build_vm_spec(cluster: &Cluster, node: &ClusterNode, os_image_path: &str) -> (r:
    CreateVirtualMachine)
    ensures
        r.node@ == cluster@.node,
        r.vm_id == node@.vm_id,
        r.name@ == spec_hostname(cluster@.cluster_name, node@.name),
        r.cores == node@.cores,
        r.memory == node@.memory,
        r.os_type == OsType::L26,
        r.net.deep_view() =~= seq![
            crate::proxmox::ParamView {
                name: "net0"@,
                value: "model=virtio,bridge="@ + cluster@.network.bridge,
            },
        ],
        r.scsihw == Some(ScsiHw::VirtioScsiPci),
        r.scsi.deep_view() =~= seq![
            crate::proxmox::ParamView {
                name: "scsi0"@,
                value: node@.storage_pool + ":0,import-from="@ + os_image_path@,
            },
        ],
        r.ide.deep_view() =~= seq![
            crate::proxmox::ParamView { name: "ide2"@, value: node@.storage_pool + ":cloudinit"@ },
        ],
        r.boot matches Some(b) && b@ == "order=scsi0"@,
        r.vga matches Some(v) && v@ == "serial0"@,
        r.serial.deep_view() =~= seq![
            crate::proxmox::ParamView { name: "serial0"@, value: "socket"@ },
        ],
        r.ipconfig.deep_view() =~= seq![
            crate::proxmox::ParamView {
                name: "ipconfig0"@,
                value: "ip="@ + node@.ip_address + "/"@ + spec_dec(
                    cluster@.network.subnet_mask as nat,
                ) + ",gw="@ + cluster@.network.gateway,
            },
        ],
        r.nameserver matches Some(d) && d@ == cluster@.network.dns,
        r.ci_user matches Some(u) && u@ == cluster@.node_username,
        r.ci_password matches Some(p) && p@ == cluster@.node_password,
        r.ssh_keys matches Some(k) && k@ == outside::url_encoded_of(cluster@.ssh_key.public_key),
        spec_vm_spec(r, cluster@, node@, os_image_path@),
{
    let mut net: Vec<Param> = Vec::new();
    net.push(
        Param {
            name: String::from_str("net0"),
            value: concat2("model=virtio,bridge=", cluster.network.bridge.as_str()),
        },
    );
    let mut scsi: Vec<Param> = Vec::new();
    scsi.push(
        Param {
            name: String::from_str("scsi0"),
            value: concat3(node.storage_pool.as_str(), ":0,import-from=", os_image_path),
        },
    );
    let mut ide: Vec<Param> = Vec::new();
    ide.push(
        Param {
            name: String::from_str("ide2"),
            value: concat2(node.storage_pool.as_str(), ":cloudinit"),
        },
    );
    let mut serial: Vec<Param> = Vec::new();
    serial.push(Param { name: String::from_str("serial0"), value: String::from_str("socket") });
    let mut ipvalue = String::from_str("ip=");
    ipvalue.append(node.ip_address.as_str());
    ipvalue.append("/");
    let mask = dec_u64(cluster.network.subnet_mask as u64);
    ipvalue.append(mask.as_str());
    ipvalue.append(",gw=");
    ipvalue.append(cluster.network.gateway.as_str());
    let mut ipconfig: Vec<Param> = Vec::new();
    ipconfig.push(Param { name: String::from_str("ipconfig0"), value: ipvalue });
    CreateVirtualMachine {
        node: cluster.node.clone(),
        vm_id: node.vm_id,
        name: hostname(cluster.cluster_name.as_str(), node.name.as_str()),
        cores: node.cores,
        memory: node.memory as u64,
        os_type: OsType::L26,
        net,
        scsihw: Some(ScsiHw::VirtioScsiPci),
        scsi,
        ide,
        boot: Some(String::from_str("order=scsi0")),
        serial,
        vga: Some(String::from_str("serial0")),
        ipconfig,
        nameserver: Some(cluster.network.dns.clone()),
        ci_user: Some(cluster.node_username.clone()),
        ci_password: Some(cluster.node_password.clone()),
        ssh_keys: Some(outside::url_encode(cluster.ssh_key.public_key.as_str())),
    }
}

/// The image-download request for a cluster's configured OS image.
pub fn build_download_spec(
    node: &str,
    storage: &str,
    url: &str,
    file_name: &str,
) -> (r: DownloadImage)
    ensures
        r.content == DownloadImageContentType::Iso,
        r.filename@ == file_name@,
        r.node@ == node@,
        r.storage@ == storage@,
        r.url@ == url@,
        r.checksum is None,
        r.checksum_algorithm is None,
        r.verify_certificates is None,
{
    DownloadImage {
        content: DownloadImageContentType::Iso,
        filename: file_name.to_owned(),
        node: node.to_owned(),
        storage: storage.to_owned(),
        url: url.to_owned(),
        checksum: None,
        checksum_algorithm: None,
        verify_certificates: None,
    }
}

/// The disk-resize request growing a node's system disk to the cluster's
/// configured size: disk `scsi0`, absolute size `{disk_size}G`.
pub fn build_resize_spec(node: &str, vm_id: u32, disk_size: u32) -> (r: ResizeDisk)
    ensures
        r.vm_id == vm_id,
        r.node@ == node@,
        r.disk@ == "scsi0"@,
        r.size@ == spec_dec(disk_size as nat) + "G"@,
{
    let num = dec_u64(disk_size as u64);
    ResizeDisk {
        vm_id,
        node: node.to_owned(),
        disk: String::from_str("scsi0"),
        size: concat2(num.as_str(), "G"),
    }
}

} // verus!
