//! The CreateCluster workflow: generate the cluster's key pair, refuse
//! colliding VM ids before creating anything, create and start every VM,
//! wait out power-up, cloud-init and pending reboots, configure hosts files,
//! install and join Kubernetes, capture the kubeconfig, enable the add-ons,
//! and install the configured Helm apps and raw manifests.
//!
//! A failing step aborts the whole workflow; VMs created before the failure
//! are left standing (the machine never asks for a VM deletion), and the
//! failure is surfaced as the workflow's result.
use crate::flow_vm::{StopStep, StopVmFlow, SubStep, VmCreateFlow};
use crate::model::{Cluster, LogEntry};
use crate::plans::{self, GuestStep};
use crate::store::Repository;
use crate::text::{msg_num, msg_text};
use crate::workflow::{
    container_ids, contains_id, find_master, first_master_by_vm_id, guest_target, vm_ids, Action,
    Outcome, ParseAs, Poll, Step, RETRY_DELAY_SECS,
};
use vstd::prelude::*;

verus! {

/// The error prefix naming the VM whose creation failed.
pub open spec fn create_fail_prefix(vm_id: u32) -> Seq<char> {
    "Cannot create VM ["@ + crate::text::spec_dec(vm_id as nat) + "]: "@
}

/// Phases of the CreateCluster workflow.
#[derive(Debug)]
enum CreatePhase {
    /// Nothing happened yet.
    Init,
    /// Waiting for the generated key pair.
    AwaitKeys,
    /// Waiting for the VM listing (used-id collection).
    QueryVms,
    /// Waiting for the container listing (used-id collection).
    QueryContainers { used: Vec<u32> },
    /// Creating the VM of node `i`.
    CreateVms { i: usize, sub: VmCreateFlow },
    /// Waiting for the start call of node `i`.
    StartVms { i: usize },
    /// Polling the power state of node `i`.
    WaitPower { i: usize, poll: Poll },
    /// Polling cloud-init completion inside node `i`.
    WaitCloudInit { i: usize, poll: Poll },
    /// Waiting for the reboot-required probe of node `i`.
    CheckReboot { i: usize },
    /// Stopping node `i` for its pending reboot.
    RebootStop { i: usize, sub: StopVmFlow },
    /// Waiting for the restart call of node `i`.
    RebootStart { i: usize },
    /// Polling the power state of node `i` after its reboot.
    RebootWaitPower { i: usize, poll: Poll },
    /// Polling cloud-init inside node `i` after its reboot.
    RebootWaitCloudInit { i: usize, poll: Poll },
    /// Running setup command `j` on node `i`.
    Setup { i: usize, cmds: Vec<String>, j: usize },
    /// Waiting for the Kubernetes install on node `i`.
    InstallK8s { i: usize },
    /// Waiting for Kubernetes readiness on node `i`.
    WaitReady { i: usize },
    /// Joining node `i` through master `master`; `awaiting_token` while the
    /// master generates the join token.
    Join { i: usize, master: usize, awaiting_token: bool },
    /// Waiting for the kubeconfig text from master `master`.
    Kubeconfig { master: usize },
    /// Waiting for the DNS add-on on master `master`.
    AddonDns { master: usize },
    /// Waiting for the Helm add-on on master `master`.
    AddonHelm { master: usize },
    /// Running step `k` of Helm app `j`'s plan on master `master`.
    HelmApps { j: usize, steps: Vec<GuestStep>, k: usize, master: usize },
    /// Running step `k` of manifest resource `j`'s plan on `master`.
    Workloads { j: usize, steps: Vec<GuestStep>, k: usize, master: usize },
    /// The workflow ended (in success or failure).
    Finished,
}

/// The CreateCluster workflow machine.
#[derive(Debug)]
pub struct CreateClusterFlow {
    cluster: Cluster,
    /// How many nodes' VMs have been fully created (in node order).
    created: usize,
    phase: CreatePhase,
}

/// Some id in `used` collides with a configured node of `nodes`, and `e`
/// reports the first colliding node's id.
pub open spec fn spec_id_collision(
    nodes: Seq<crate::model::ClusterNodeView>,
    used: Seq<u32>,
    e: Seq<char>,
) -> bool {
    exists|k: int|
        #![trigger nodes[k]]
        0 <= k < nodes.len() && used.contains(nodes[k].vm_id) && (forall|j: int|
            0 <= j < k ==> !used.contains((#[trigger] nodes[j]).vm_id)) && e == "VM with id ["@
            + crate::text::spec_dec(nodes[k].vm_id as nat) + "] already exists"@
}

impl CreateClusterFlow {
    /// How many of the cluster's VMs this workflow has created so far.
    pub closed spec fn created_count(&self) -> int {
        self.created as int
    }

    /// How many nodes the workflow's cluster record holds.
    pub closed spec fn node_count(&self) -> int {
        self.cluster.nodes@.len() as int
    }

    /// The name of the cluster being created.
    pub closed spec fn cluster_name_view(&self) -> Seq<char> {
        self.cluster.cluster_name@
    }

    /// Whether the machine has not acted yet.
    pub closed spec fn fresh(&self) -> bool {
        self.phase is Init
    }

    /// The index of the node whose VM is being created, while one is.
    pub closed spec fn creating(&self) -> Option<int> {
        match self.phase {
            CreatePhase::CreateVms { i, .. } => Some(i as int),
            _ => None,
        }
    }

    /// The record this workflow works on.
    pub closed spec fn cluster_view(&self) -> crate::model::ClusterView {
        self.cluster@
    }

    /// The cluster's node records (never changed by this workflow).
    pub closed spec fn nodes_view(&self) -> Seq<crate::model::ClusterNodeView> {
        self.cluster.nodes.deep_view()
    }

    /// Whether the machine awaits a join token from the master.
    pub closed spec fn joining_token(&self) -> bool {
        match self.phase {
            CreatePhase::Join { awaiting_token, .. } => awaiting_token,
            _ => false,
        }
    }

    /// Whether the machine awaits a node's join command.
    pub closed spec fn joining_run(&self) -> bool {
        match self.phase {
            CreatePhase::Join { awaiting_token, .. } => !awaiting_token,
            _ => false,
        }
    }

    /// The node being joined, while one is.
    pub closed spec fn join_node(&self) -> int {
        match self.phase {
            CreatePhase::Join { i, .. } => i as int,
            _ => 0,
        }
    }

    /// The master that hands out join tokens, while one does.
    pub closed spec fn join_master(&self) -> int {
        match self.phase {
            CreatePhase::Join { master, .. } => master as int,
            _ => 0,
        }
    }

    /// Whether the machine awaits the kubeconfig text.
    pub closed spec fn awaiting_kubeconfig(&self) -> bool {
        self.phase is Kubeconfig
    }

    /// The master the kubeconfig is read from, while one is.
    pub closed spec fn kubeconfig_master(&self) -> int {
        match self.phase {
            CreatePhase::Kubeconfig { master } => master as int,
            _ => 0,
        }
    }

    /// Whether the machine awaits the duplicate-id container listing.
    pub closed spec fn awaiting_containers(&self) -> bool {
        self.phase is QueryContainers
    }

    /// The VM ids collected so far for the duplicate-id check.
    pub closed spec fn pending_used(&self) -> Seq<u32> {
        match self.phase {
            CreatePhase::QueryContainers { used } => used@,
            _ => Seq::empty(),
        }
    }

    /// Whether the machine polls a started VM's power state.
    pub closed spec fn power_wait(&self) -> bool {
        self.phase is WaitPower || self.phase is RebootWaitPower
    }

    /// Whether the machine awaits a node's cloud-init completion.
    pub closed spec fn cloud_wait(&self) -> bool {
        self.phase is WaitCloudInit || self.phase is RebootWaitCloudInit
    }

    /// Whether the machine awaits a reboot-required probe.
    pub closed spec fn checking_reboot(&self) -> bool {
        self.phase is CheckReboot
    }

    /// Whether the current stage belongs to the post-reboot pass.
    pub closed spec fn reboot_pass(&self) -> bool {
        match self.phase {
            CreatePhase::CheckReboot { .. } => true,
            CreatePhase::RebootStop { .. } => true,
            CreatePhase::RebootStart { .. } => true,
            CreatePhase::RebootWaitPower { .. } => true,
            CreatePhase::RebootWaitCloudInit { .. } => true,
            _ => false,
        }
    }

    /// The node a wait or reboot probe concerns.
    pub closed spec fn wait_node(&self) -> int {
        match self.phase {
            CreatePhase::WaitPower { i, .. } => i as int,
            CreatePhase::WaitCloudInit { i, .. } => i as int,
            CreatePhase::CheckReboot { i } => i as int,
            CreatePhase::RebootWaitPower { i, .. } => i as int,
            CreatePhase::RebootWaitCloudInit { i, .. } => i as int,
            _ => 0,
        }
    }

    /// The poll attempts left in the current wait.
    pub closed spec fn wait_attempts(&self) -> u64 {
        match self.phase {
            CreatePhase::WaitPower { poll, .. } => poll.attempts_left,
            CreatePhase::WaitCloudInit { poll, .. } => poll.attempts_left,
            CreatePhase::RebootWaitPower { poll, .. } => poll.attempts_left,
            CreatePhase::RebootWaitCloudInit { poll, .. } => poll.attempts_left,
            _ => 0,
        }
    }

    /// Whether the workflow has not yet begun creating any VM: it is still
    /// validating ids or collecting inventory.
    pub closed spec fn pre_create(&self) -> bool {
        match self.phase {
            CreatePhase::Init => true,
            CreatePhase::AwaitKeys => true,
            CreatePhase::QueryVms => true,
            CreatePhase::QueryContainers { .. } => true,
            _ => false,
        }
    }

    /// The machine's internal consistency: every index a phase carries is in
    /// range, and the created count matches the phase (`i` VMs stand created
    /// while node `i` is being created; all of them afterwards).
    pub closed spec fn inv(&self) -> bool {
        let n = self.cluster.nodes@.len();
        &&& self.created <= n
        &&& match self.phase {
            CreatePhase::Init => self.created == 0,
            CreatePhase::AwaitKeys => self.created == 0,
            CreatePhase::QueryVms => self.created == 0,
            CreatePhase::QueryContainers { .. } => self.created == 0,
            CreatePhase::CreateVms { i, .. } => i < n && self.created == i,
            CreatePhase::StartVms { i } => i < n && self.created == n,
            CreatePhase::WaitPower { i, .. } => i < n && self.created == n,
            CreatePhase::WaitCloudInit { i, .. } => i < n && self.created == n,
            CreatePhase::CheckReboot { i } => i < n && self.created == n,
            CreatePhase::RebootStop { i, .. } => i < n && self.created == n,
            CreatePhase::RebootStart { i } => i < n && self.created == n,
            CreatePhase::RebootWaitPower { i, .. } => i < n && self.created == n,
            CreatePhase::RebootWaitCloudInit { i, .. } => i < n && self.created == n,
            CreatePhase::Setup { i, cmds, j } => i < n && (j as int) < cmds@.len() && self.created
                == n,
            CreatePhase::InstallK8s { i } => i < n && self.created == n,
            CreatePhase::WaitReady { i } => i < n && self.created == n,
            CreatePhase::Join { i, master, .. } => i < n && master < n && self.created == n,
            CreatePhase::Kubeconfig { master } => master < n && self.created == n,
            CreatePhase::AddonDns { master } => master < n && self.created == n,
            CreatePhase::AddonHelm { master } => master < n && self.created == n,
            CreatePhase::HelmApps { j, steps, k, master } => (j as int)
                < self.cluster.helm_apps@.len() && (k as int) < steps@.len() && master < n
                && self.created == n,
            CreatePhase::Workloads { j, steps, k, master } => (j as int)
                < self.cluster.cluster_resources@.len() && (k as int) < steps@.len() && master < n
                && self.created == n,
            CreatePhase::Finished => true,
        }
    }

    /// A workflow over the given cluster record; the first `step` call (with
    /// `Outcome::Succeeded`) starts it.
    pub fn new(cluster: Cluster) -> (r: Self)
        ensures
            r.inv(),
            r.created_count() == 0,
            r.fresh(),
            r.cluster_name_view() == cluster.cluster_name@,
            r.node_count() == cluster.nodes@.len(),
    {
        CreateClusterFlow { cluster, created: 0, phase: CreatePhase::Init }
    }

    /// The guest action running `step` on node `i`.
    fn guest(&self, i: usize, step: GuestStep, parse: ParseAs) -> (r: Action)
        requires
            i < self.cluster.nodes@.len(),
        ensures
            !(r is DeleteVm),
            r matches Action::Guest { target, step: gs, parse: p } && target.ip@
                == self.cluster.nodes@[i as int]@.ip_address && gs@ == step@ && p == parse,
    {
        Action::Guest {
            target: guest_target(&self.cluster, &self.cluster.nodes[i]),
            step,
            parse,
        }
    }

    /// The guest action running the shell line `cmd` on node `i`.
    fn exec_on(&self, i: usize, cmd: String) -> (r: Action)
        requires
            i < self.cluster.nodes@.len(),
        ensures
            !(r is DeleteVm),
            r matches Action::Guest { target, step: gs, parse: p } && target.ip@
                == self.cluster.nodes@[i as int]@.ip_address && (gs matches GuestStep::Exec {
                command,
            } && command@ == cmd@) && p == ParseAs::Text,
    {
        self.guest(i, GuestStep::Exec { command: cmd }, ParseAs::Text)
    }

    /// Enters the creation of node `i`, or moves on to starting the VMs.
    fn enter_create(&mut self, repo: &mut Repository, i: usize) -> (r: Step)
        requires
            i <= old(self).cluster.nodes@.len(),
            old(self).created == i,
        ensures
            final (self).inv(),
            r matches Step::Do(a) ==> !(a is DeleteVm),
            final (self).created == old(self).created,
            r matches Step::Done(res) ==> res is Err,
            final (self).joining_token() ==> (r matches Step::Do(a) && (a
                matches Action::Guest { target, step: gs, parse } && target.ip@ == final (
            self).nodes_view()[final (self).join_master()].ip_address && (gs
                matches GuestStep::Exec { command } && command@
                == "sudo microk8s add-node --format json"@) && parse is JoinJson)),
            final (self).awaiting_kubeconfig() ==> (r matches Step::Do(a) && (a
                matches Action::Guest { target, step: gs, parse } && target.ip@ == final (
            self).nodes_view()[final (self).kubeconfig_master()].ip_address && (gs
                matches GuestStep::Exec { command } && command@ == "sudo microk8s config"@))
                && final (self).nodes_view()[final (self).kubeconfig_master()].node_type
                is Master && (forall|j: int|
                0 <= j < final (self).nodes_view().len() && (#[trigger] final (
                self).nodes_view()[j]).node_type is Master ==> final (self).nodes_view()[final (
                self).kubeconfig_master()].vm_id <= final (self).nodes_view()[j].vm_id)),
    {
        if i < self.cluster.nodes.len() {
            let mut sub = VmCreateFlow::new();
            let s = sub.step(repo, &self.cluster, i, Outcome::Succeeded);
            match s {
                SubStep::Do(a) => {
                    self.phase = CreatePhase::CreateVms { i, sub };
                    Step::Do(a)
                },
                SubStep::Fail(e) => self.fail_create(i, e),
                SubStep::Done => {
                    self.phase = CreatePhase::Finished;
                    Step::Done(Err(String::from_str("VM creation ended before it began")))
                },
            }
        } else {
            self.enter_start(repo, 0)
        }
    }

    /// Fails the workflow at the creation of node `i`.
    fn fail_create(&mut self, i: usize, e: String) -> (r: Step)
        requires
            i < old(self).cluster.nodes@.len(),
            old(self).created <= old(self).cluster.nodes@.len(),
        ensures
            !final (self).joining_token(),
            !final (self).awaiting_kubeconfig(),
            final (self).inv(),
            r matches Step::Done(res) && res is Err,
            final (self).created == old(self).created,
            r matches Step::Done(Err(m)) ==> m@ == create_fail_prefix(
                old(self).cluster.nodes@[i as int]@.vm_id,
            ) + e@,
    {
        let id = self.cluster.nodes[i].vm_id;
        proof {
            assert(self.cluster.nodes@[i as int]@.vm_id == id);
        }
        let mut m = msg_num("Cannot create VM [", id as u64, "]: ");
        m.append(e.as_str());
        self.phase = CreatePhase::Finished;
        Step::Done(Err(m))
    }

    /// Enters the start of node `i`'s VM, or moves on to the power waits.
    fn enter_start(&mut self, repo: &mut Repository, i: usize) -> (r: Step)
        requires
            i <= old(self).cluster.nodes@.len(),
            old(self).created == old(self).cluster.nodes@.len(),
        ensures
            final (self).inv(),
            r matches Step::Do(a) ==> !(a is DeleteVm),
            final (self).created == old(self).created,
            r matches Step::Done(res) ==> res is Err,
            final (self).joining_token() ==> (r matches Step::Do(a) && (a
                matches Action::Guest { target, step: gs, parse } && target.ip@ == final (
            self).nodes_view()[final (self).join_master()].ip_address && (gs
                matches GuestStep::Exec { command } && command@
                == "sudo microk8s add-node --format json"@) && parse is JoinJson)),
            final (self).awaiting_kubeconfig() ==> (r matches Step::Do(a) && (a
                matches Action::Guest { target, step: gs, parse } && target.ip@ == final (
            self).nodes_view()[final (self).kubeconfig_master()].ip_address && (gs
                matches GuestStep::Exec { command } && command@ == "sudo microk8s config"@))
                && final (self).nodes_view()[final (self).kubeconfig_master()].node_type
                is Master && (forall|j: int|
                0 <= j < final (self).nodes_view().len() && (#[trigger] final (
                self).nodes_view()[j]).node_type is Master ==> final (self).nodes_view()[final (
                self).kubeconfig_master()].vm_id <= final (self).nodes_view()[j].vm_id)),
    {
        if i < self.cluster.nodes.len() {
            let id = self.cluster.nodes[i].vm_id;
            repo.save_log(
                LogEntry::info(
                    self.cluster.cluster_name.as_str(),
                    msg_num("Starting VM [", id as u64, "]"),
                ),
            );
            self.phase = CreatePhase::StartVms { i };
            Step::Do(Action::StartVm { node: self.cluster.node.clone(), vm_id: id })
        } else {
            self.enter_wait_power(repo, 0)
        }
    }

    /// Enters the power poll of node `i`, or moves on to the reboot checks.
    fn enter_wait_power(&mut self, repo: &mut Repository, i: usize) -> (r: Step)
        requires
            i <= old(self).cluster.nodes@.len(),
            old(self).created == old(self).cluster.nodes@.len(),
        ensures
            final (self).inv(),
            r matches Step::Do(a) ==> !(a is DeleteVm),
            final (self).created == old(self).created,
            r matches Step::Done(res) ==> res is Err,
            final (self).joining_token() ==> (r matches Step::Do(a) && (a
                matches Action::Guest { target, step: gs, parse } && target.ip@ == final (
            self).nodes_view()[final (self).join_master()].ip_address && (gs
                matches GuestStep::Exec { command } && command@
                == "sudo microk8s add-node --format json"@) && parse is JoinJson)),
            final (self).awaiting_kubeconfig() ==> (r matches Step::Do(a) && (a
                matches Action::Guest { target, step: gs, parse } && target.ip@ == final (
            self).nodes_view()[final (self).kubeconfig_master()].ip_address && (gs
                matches GuestStep::Exec { command } && command@ == "sudo microk8s config"@))
                && final (self).nodes_view()[final (self).kubeconfig_master()].node_type
                is Master && (forall|j: int|
                0 <= j < final (self).nodes_view().len() && (#[trigger] final (
                self).nodes_view()[j]).node_type is Master ==> final (self).nodes_view()[final (
                self).kubeconfig_master()].vm_id <= final (self).nodes_view()[j].vm_id)),
            i < old(self).nodes_view().len() ==> (r matches Step::Do(a) && (a
                matches Action::VmPowerState { node, vm_id } && vm_id == old(
                self,
            ).nodes_view()[i as int].vm_id) && final (self).power_wait() && !final (
            self).reboot_pass() && final (self).wait_node() == i as int && final (
            self).wait_attempts() == crate::workflow::RETRY_ATTEMPTS),
            i == old(self).nodes_view().len() && old(self).nodes_view().len() > 0 ==> (r
                matches Step::Do(a) && (a matches Action::GuestFileExists { target, path }
                && path@ == "/var/run/reboot-required"@ && target.ip@ == old(
                self,
            ).nodes_view()[0].ip_address) && final (self).checking_reboot() && final (
            self).wait_node() == 0),
    {
        if i < self.cluster.nodes.len() {
            let id = self.cluster.nodes[i].vm_id;
            self.phase = CreatePhase::WaitPower { i, poll: Poll::new() };
            Step::Do(Action::VmPowerState { node: self.cluster.node.clone(), vm_id: id })
        } else {
            self.enter_reboot_check(repo, 0)
        }
    }

    /// Enters the reboot-required probe of node `i`, or moves on to setup.
    fn enter_reboot_check(&mut self, repo: &mut Repository, i: usize) -> (r: Step)
        requires
            i <= old(self).cluster.nodes@.len(),
            old(self).created == old(self).cluster.nodes@.len(),
        ensures
            final (self).inv(),
            r matches Step::Do(a) ==> !(a is DeleteVm),
            final (self).created == old(self).created,
            r matches Step::Done(res) ==> res is Err,
            final (self).joining_token() ==> (r matches Step::Do(a) && (a
                matches Action::Guest { target, step: gs, parse } && target.ip@ == final (
            self).nodes_view()[final (self).join_master()].ip_address && (gs
                matches GuestStep::Exec { command } && command@
                == "sudo microk8s add-node --format json"@) && parse is JoinJson)),
            final (self).awaiting_kubeconfig() ==> (r matches Step::Do(a) && (a
                matches Action::Guest { target, step: gs, parse } && target.ip@ == final (
            self).nodes_view()[final (self).kubeconfig_master()].ip_address && (gs
                matches GuestStep::Exec { command } && command@ == "sudo microk8s config"@))
                && final (self).nodes_view()[final (self).kubeconfig_master()].node_type
                is Master && (forall|j: int|
                0 <= j < final (self).nodes_view().len() && (#[trigger] final (
                self).nodes_view()[j]).node_type is Master ==> final (self).nodes_view()[final (
                self).kubeconfig_master()].vm_id <= final (self).nodes_view()[j].vm_id)),
            i < old(self).nodes_view().len() ==> (r matches Step::Do(a) && (a
                matches Action::GuestFileExists { target, path } && path@
                == "/var/run/reboot-required"@ && target.ip@ == old(
                self,
            ).nodes_view()[i as int].ip_address) && final (self).checking_reboot() && final (
            self).wait_node() == i as int),
    {
        if i < self.cluster.nodes.len() {
            let target = guest_target(&self.cluster, &self.cluster.nodes[i]);
            self.phase = CreatePhase::CheckReboot { i };
            Step::Do(
                Action::GuestFileExists {
                    target,
                    path: String::from_str("/var/run/reboot-required"),
                },
            )
        } else {
            self.enter_setup(repo, 0)
        }
    }

    /// Enters the guest setup of node `i`, or moves on to the installs.
    fn enter_setup(&mut self, repo: &mut Repository, i: usize) -> (r: Step)
        requires
            i <= old(self).cluster.nodes@.len(),
            old(self).created == old(self).cluster.nodes@.len(),
        ensures
            final (self).inv(),
            r matches Step::Do(a) ==> !(a is DeleteVm),
            final (self).created == old(self).created,
            r matches Step::Done(res) ==> res is Err,
            final (self).joining_token() ==> (r matches Step::Do(a) && (a
                matches Action::Guest { target, step: gs, parse } && target.ip@ == final (
            self).nodes_view()[final (self).join_master()].ip_address && (gs
                matches GuestStep::Exec { command } && command@
                == "sudo microk8s add-node --format json"@) && parse is JoinJson)),
            final (self).awaiting_kubeconfig() ==> (r matches Step::Do(a) && (a
                matches Action::Guest { target, step: gs, parse } && target.ip@ == final (
            self).nodes_view()[final (self).kubeconfig_master()].ip_address && (gs
                matches GuestStep::Exec { command } && command@ == "sudo microk8s config"@))
                && final (self).nodes_view()[final (self).kubeconfig_master()].node_type
                is Master && (forall|j: int|
                0 <= j < final (self).nodes_view().len() && (#[trigger] final (
                self).nodes_view()[j]).node_type is Master ==> final (self).nodes_view()[final (
                self).kubeconfig_master()].vm_id <= final (self).nodes_view()[j].vm_id)),
    {
        if i < self.cluster.nodes.len() {
            let id = self.cluster.nodes[i].vm_id;
            repo.save_log(
                LogEntry::info(
                    self.cluster.cluster_name.as_str(),
                    msg_num("Configure VM [", id as u64, "]"),
                ),
            );
            let entries = plans::hosts_entries(&self.cluster);
            let cmds = plans::setup_vm_commands(&entries);
            let first = cmds[0].clone();
            let a = self.exec_on(i, first);
            self.phase = CreatePhase::Setup { i, cmds, j: 0 };
            Step::Do(a)
        } else {
            self.enter_install(repo, 0)
        }
    }

    /// Enters the Kubernetes install on node `i`, or moves on to readiness.
    fn enter_install(&mut self, repo: &mut Repository, i: usize) -> (r: Step)
        requires
            i <= old(self).cluster.nodes@.len(),
            old(self).created == old(self).cluster.nodes@.len(),
        ensures
            final (self).inv(),
            r matches Step::Do(a) ==> !(a is DeleteVm),
            final (self).created == old(self).created,
            r matches Step::Done(res) ==> res is Err,
            final (self).joining_token() ==> (r matches Step::Do(a) && (a
                matches Action::Guest { target, step: gs, parse } && target.ip@ == final (
            self).nodes_view()[final (self).join_master()].ip_address && (gs
                matches GuestStep::Exec { command } && command@
                == "sudo microk8s add-node --format json"@) && parse is JoinJson)),
            final (self).awaiting_kubeconfig() ==> (r matches Step::Do(a) && (a
                matches Action::Guest { target, step: gs, parse } && target.ip@ == final (
            self).nodes_view()[final (self).kubeconfig_master()].ip_address && (gs
                matches GuestStep::Exec { command } && command@ == "sudo microk8s config"@))
                && final (self).nodes_view()[final (self).kubeconfig_master()].node_type
                is Master && (forall|j: int|
                0 <= j < final (self).nodes_view().len() && (#[trigger] final (
                self).nodes_view()[j]).node_type is Master ==> final (self).nodes_view()[final (
                self).kubeconfig_master()].vm_id <= final (self).nodes_view()[j].vm_id)),
    {
        if i < self.cluster.nodes.len() {
            let id = self.cluster.nodes[i].vm_id;
            repo.save_log(
                LogEntry::info(
                    self.cluster.cluster_name.as_str(),
                    msg_num("Install Kubernetes on VM [", id as u64, "]"),
                ),
            );
            let cmd = plans::install_kubernetes_cmd(&self.cluster.kube_version);
            let a = self.exec_on(i, cmd);
            self.phase = CreatePhase::InstallK8s { i };
            Step::Do(a)
        } else {
            self.enter_wait_ready(repo, 0)
        }
    }

    /// Enters the readiness wait on node `i`, or moves on to the joins.
    fn enter_wait_ready(&mut self, repo: &mut Repository, i: usize) -> (r: Step)
        requires
            i <= old(self).cluster.nodes@.len(),
            old(self).created == old(self).cluster.nodes@.len(),
        ensures
            final (self).inv(),
            r matches Step::Do(a) ==> !(a is DeleteVm),
            final (self).created == old(self).created,
            r matches Step::Done(res) ==> res is Err,
            final (self).joining_token() ==> (r matches Step::Do(a) && (a
                matches Action::Guest { target, step: gs, parse } && target.ip@ == final (
            self).nodes_view()[final (self).join_master()].ip_address && (gs
                matches GuestStep::Exec { command } && command@
                == "sudo microk8s add-node --format json"@) && parse is JoinJson)),
            final (self).awaiting_kubeconfig() ==> (r matches Step::Do(a) && (a
                matches Action::Guest { target, step: gs, parse } && target.ip@ == final (
            self).nodes_view()[final (self).kubeconfig_master()].ip_address && (gs
                matches GuestStep::Exec { command } && command@ == "sudo microk8s config"@))
                && final (self).nodes_view()[final (self).kubeconfig_master()].node_type
                is Master && (forall|j: int|
                0 <= j < final (self).nodes_view().len() && (#[trigger] final (
                self).nodes_view()[j]).node_type is Master ==> final (self).nodes_view()[final (
                self).kubeconfig_master()].vm_id <= final (self).nodes_view()[j].vm_id)),
    {
        if i < self.cluster.nodes.len() {
            let id = self.cluster.nodes[i].vm_id;
            repo.save_log(
                LogEntry::info(
                    self.cluster.cluster_name.as_str(),
                    msg_num("Wait for Kubernetes on VM [", id as u64, "]"),
                ),
            );
            let a = self.exec_on(i, String::from_str("sudo microk8s status --wait-ready"));
            self.phase = CreatePhase::WaitReady { i };
            Step::Do(a)
        } else {
            self.enter_join_stage(repo)
        }
    }

    /// Enters the join stage: single-node clusters skip it entirely.
    fn enter_join_stage(&mut self, repo: &mut Repository) -> (r: Step)
        requires
            old(self).created == old(self).cluster.nodes@.len(),
        ensures
            final (self).inv(),
            r matches Step::Do(a) ==> !(a is DeleteVm),
            final (self).created == old(self).created,
            r matches Step::Done(res) ==> res is Err,
            final (self).joining_token() ==> (r matches Step::Do(a) && (a
                matches Action::Guest { target, step: gs, parse } && target.ip@ == final (
            self).nodes_view()[final (self).join_master()].ip_address && (gs
                matches GuestStep::Exec { command } && command@
                == "sudo microk8s add-node --format json"@) && parse is JoinJson)),
            final (self).awaiting_kubeconfig() ==> (r matches Step::Do(a) && (a
                matches Action::Guest { target, step: gs, parse } && target.ip@ == final (
            self).nodes_view()[final (self).kubeconfig_master()].ip_address && (gs
                matches GuestStep::Exec { command } && command@ == "sudo microk8s config"@))
                && final (self).nodes_view()[final (self).kubeconfig_master()].node_type
                is Master && (forall|j: int|
                0 <= j < final (self).nodes_view().len() && (#[trigger] final (
                self).nodes_view()[j]).node_type is Master ==> final (self).nodes_view()[final (
                self).kubeconfig_master()].vm_id <= final (self).nodes_view()[j].vm_id)),
    {
        if self.cluster.nodes.len() == 1 {
            return self.enter_kubeconfig(repo);
        }
        match find_master(&self.cluster.nodes, None) {
            Some(m) => self.enter_join(repo, m, 0),
            None => {
                self.phase = CreatePhase::Finished;
                Step::Done(Err(String::from_str("Cannot find any master node")))
            },
        }
    }

    /// Enters the join of the next non-master node at or after `i`, or moves
    /// on to the kubeconfig capture.
    fn enter_join(&mut self, repo: &mut Repository, master: usize, i: usize) -> (r: Step)
        requires
            i <= old(self).cluster.nodes@.len(),
            master < old(self).cluster.nodes@.len(),
            old(self).created == old(self).cluster.nodes@.len(),
        ensures
            final (self).inv(),
            r matches Step::Do(a) ==> !(a is DeleteVm),
            final (self).created == old(self).created,
            r matches Step::Done(res) ==> res is Err,
            final (self).joining_token() ==> (r matches Step::Do(a) && (a
                matches Action::Guest { target, step: gs, parse } && target.ip@ == final (
            self).nodes_view()[final (self).join_master()].ip_address && (gs
                matches GuestStep::Exec { command } && command@
                == "sudo microk8s add-node --format json"@) && parse is JoinJson)),
            final (self).awaiting_kubeconfig() ==> (r matches Step::Do(a) && (a
                matches Action::Guest { target, step: gs, parse } && target.ip@ == final (
            self).nodes_view()[final (self).kubeconfig_master()].ip_address && (gs
                matches GuestStep::Exec { command } && command@ == "sudo microk8s config"@))
                && final (self).nodes_view()[final (self).kubeconfig_master()].node_type
                is Master && (forall|j: int|
                0 <= j < final (self).nodes_view().len() && (#[trigger] final (
                self).nodes_view()[j]).node_type is Master ==> final (self).nodes_view()[final (
                self).kubeconfig_master()].vm_id <= final (self).nodes_view()[j].vm_id)),
    {
        let master_id = self.cluster.nodes[master].vm_id;
        let mut i = i;
        while i < self.cluster.nodes.len() && self.cluster.nodes[i].vm_id == master_id
            invariant
                i <= self.cluster.nodes@.len(),
            decreases self.cluster.nodes@.len() - i,
        {
            i = i + 1;
        }
        if i < self.cluster.nodes.len() {
            repo.save_log(
                LogEntry::info(
                    self.cluster.cluster_name.as_str(),
                    msg_num("Generate join token on VM [", master_id as u64, "] "),
                ),
            );
            let a = self.guest(
                master,
                GuestStep::Exec {
                    command: String::from_str("sudo microk8s add-node --format json"),
                },
                ParseAs::JoinJson,
            );
            self.phase = CreatePhase::Join { i, master, awaiting_token: true };
            Step::Do(a)
        } else {
            self.enter_kubeconfig(repo)
        }
    }

    /// Enters the kubeconfig capture from the first master (by VM id).
    fn enter_kubeconfig(&mut self, repo: &mut Repository) -> (r: Step)
        requires
            old(self).created == old(self).cluster.nodes@.len(),
        ensures
            final (self).inv(),
            r matches Step::Do(a) ==> !(a is DeleteVm),
            final (self).created == old(self).created,
            r matches Step::Done(res) ==> res is Err,
            final (self).joining_token() ==> (r matches Step::Do(a) && (a
                matches Action::Guest { target, step: gs, parse } && target.ip@ == final (
            self).nodes_view()[final (self).join_master()].ip_address && (gs
                matches GuestStep::Exec { command } && command@
                == "sudo microk8s add-node --format json"@) && parse is JoinJson)),
            final (self).awaiting_kubeconfig() ==> (r matches Step::Do(a) && (a
                matches Action::Guest { target, step: gs, parse } && target.ip@ == final (
            self).nodes_view()[final (self).kubeconfig_master()].ip_address && (gs
                matches GuestStep::Exec { command } && command@ == "sudo microk8s config"@))
                && final (self).nodes_view()[final (self).kubeconfig_master()].node_type
                is Master && (forall|j: int|
                0 <= j < final (self).nodes_view().len() && (#[trigger] final (
                self).nodes_view()[j]).node_type is Master ==> final (self).nodes_view()[final (
                self).kubeconfig_master()].vm_id <= final (self).nodes_view()[j].vm_id)),
    {
        repo.save_log(
            LogEntry::info(
                self.cluster.cluster_name.as_str(),
                String::from_str("Add kube config to project"),
            ),
        );
        match first_master_by_vm_id(&self.cluster.nodes) {
            Some(m) => {
                let a = self.exec_on(m, String::from_str("sudo microk8s config"));
                self.phase = CreatePhase::Kubeconfig { master: m };
                Step::Do(a)
            },
            None => {
                self.phase = CreatePhase::Finished;
                Step::Done(Err(String::from_str("Cannot get first master node")))
            },
        }
    }

    /// Enters the add-on stage on the first master.
    fn enter_addons(&mut self, repo: &mut Repository) -> (r: Step)
        requires
            old(self).created == old(self).cluster.nodes@.len(),
        ensures
            !final (self).joining_token(),
            final (repo).clusters_view() == old(repo).clusters_view(),
            !final (self).awaiting_kubeconfig(),
            final (self).inv(),
            r matches Step::Do(a) ==> !(a is DeleteVm),
            final (self).created == old(self).created,
            r matches Step::Done(res) ==> res is Err,
    {
        repo.save_log(
            LogEntry::info(
                self.cluster.cluster_name.as_str(),
                String::from_str("Enable MicroK8s addons: [dns, helm3]"),
            ),
        );
        match find_master(&self.cluster.nodes, None) {
            Some(m) => {
                let a = self.exec_on(m, String::from_str("sudo microk8s enable dns"));
                self.phase = CreatePhase::AddonDns { master: m };
                Step::Do(a)
            },
            None => {
                self.phase = CreatePhase::Finished;
                Step::Done(Err(String::from_str("Cannot find any master node")))
            },
        }
    }

    /// Enters the Helm stage on the first master.
    fn enter_helm_stage(&mut self, repo: &mut Repository) -> (r: Step)
        requires
            old(self).created == old(self).cluster.nodes@.len(),
        ensures
            !final (self).joining_token(),
            !final (self).awaiting_kubeconfig(),
            final (self).inv(),
            r matches Step::Do(a) ==> !(a is DeleteVm),
            final (self).created == old(self).created,
            r matches Step::Done(res) && res is Ok ==> final (self).created == old(
                self,
            ).cluster.nodes@.len(),
    {
        repo.save_log(
            LogEntry::info(
                self.cluster.cluster_name.as_str(),
                String::from_str("Install Helm apps"),
            ),
        );
        match find_master(&self.cluster.nodes, None) {
            Some(m) => self.enter_helm(repo, m, 0),
            None => {
                self.phase = CreatePhase::Finished;
                Step::Done(Err(String::from_str("Cannot find any master node")))
            },
        }
    }

    /// Enters the installation of Helm app `j`, or moves on to workloads.
    fn enter_helm(&mut self, repo: &mut Repository, master: usize, j: usize) -> (r: Step)
        requires
            j <= old(self).cluster.helm_apps@.len(),
            master < old(self).cluster.nodes@.len(),
            old(self).created == old(self).cluster.nodes@.len(),
        ensures
            !final (self).joining_token(),
            !final (self).awaiting_kubeconfig(),
            final (self).inv(),
            r matches Step::Do(a) ==> !(a is DeleteVm),
            final (self).created == old(self).created,
            r matches Step::Done(res) && res is Ok ==> final (self).created == old(
                self,
            ).cluster.nodes@.len(),
    {
        if j < self.cluster.helm_apps.len() {
            repo.save_log(
                LogEntry::info(
                    self.cluster.cluster_name.as_str(),
                    msg_text(
                        "Install Helm app: [",
                        self.cluster.helm_apps[j].release_name.as_str(),
                        "]",
                    ),
                ),
            );
            let steps = plans::helm_install_plan(&self.cluster.helm_apps[j]);
            proof {
                assert(steps.deep_view().len() >= 3);
            }
            let first = clone_guest_step(&steps[0]);
            let a = self.guest(master, first, ParseAs::Text);
            self.phase = CreatePhase::HelmApps { j, steps, k: 0, master };
            Step::Do(a)
        } else {
            self.enter_workload_stage(repo, master)
        }
    }

    /// Enters the workload stage.
    fn enter_workload_stage(&mut self, repo: &mut Repository, master: usize) -> (r: Step)
        requires
            master < old(self).cluster.nodes@.len(),
            old(self).created == old(self).cluster.nodes@.len(),
        ensures
            !final (self).joining_token(),
            !final (self).awaiting_kubeconfig(),
            final (self).inv(),
            r matches Step::Do(a) ==> !(a is DeleteVm),
            final (self).created == old(self).created,
            r matches Step::Done(res) && res is Ok ==> final (self).created == old(
                self,
            ).cluster.nodes@.len(),
    {
        repo.save_log(
            LogEntry::info(
                self.cluster.cluster_name.as_str(),
                String::from_str("Install Workloads"),
            ),
        );
        match find_master(&self.cluster.nodes, None) {
            Some(m) => self.enter_workload(repo, m, 0),
            None => {
                self.phase = CreatePhase::Finished;
                Step::Done(Err(String::from_str("Cannot find any master node")))
            },
        }
    }

    /// Enters the application of manifest resource `j`, or finishes.
    fn enter_workload(&mut self, repo: &mut Repository, master: usize, j: usize) -> (r: Step)
        requires
            j <= old(self).cluster.cluster_resources@.len(),
            master < old(self).cluster.nodes@.len(),
            old(self).created == old(self).cluster.nodes@.len(),
        ensures
            !final (self).joining_token(),
            !final (self).awaiting_kubeconfig(),
            final (self).inv(),
            r matches Step::Do(a) ==> !(a is DeleteVm),
            final (self).created == old(self).created,
            r matches Step::Done(res) && res is Ok ==> final (self).created == old(
                self,
            ).cluster.nodes@.len(),
    {
        if j < self.cluster.cluster_resources.len() {
            repo.save_log(
                LogEntry::info(
                    self.cluster.cluster_name.as_str(),
                    msg_text(
                        "Install workload: [",
                        self.cluster.cluster_resources[j].name.as_str(),
                        "]",
                    ),
                ),
            );
            let steps = plans::install_resource_plan(&self.cluster.cluster_resources[j]);
            proof {
                assert(steps.deep_view().len() == 3);
            }
            let first = clone_guest_step(&steps[0]);
            let a = self.guest(master, first, ParseAs::Text);
            self.phase = CreatePhase::Workloads { j, steps, k: 0, master };
            Step::Do(a)
        } else {
            self.phase = CreatePhase::Finished;
            Step::Done(Ok(()))
        }
    }

    /// Fails the workflow with "Cannot start VM [id]: inner".
    fn fail_start(&mut self, i: usize, inner: String) -> (r: Step)
        requires
            i < old(self).cluster.nodes@.len(),
            old(self).created <= old(self).cluster.nodes@.len(),
        ensures
            !final (self).joining_token(),
            !final (self).awaiting_kubeconfig(),
            final (self).inv(),
            r matches Step::Done(res) && res is Err,
            final (self).created == old(self).created,
    {
        let id = self.cluster.nodes[i].vm_id;
        let mut m = msg_num("Cannot start VM [", id as u64, "]: ");
        m.append(inner.as_str());
        self.phase = CreatePhase::Finished;
        Step::Done(Err(m))
    }

    /// Fails the workflow with the given error text.
    fn fail(&mut self, e: String) -> (r: Step)
        requires
            old(self).created <= old(self).cluster.nodes@.len(),
        ensures
            !final (self).joining_token(),
            !final (self).awaiting_kubeconfig(),
            final (self).inv(),
            r matches Step::Done(res) && res is Err,
            r matches Step::Done(res) ==> (res matches Err(m) && m@ == e@),
            final (self).created == old(self).created,
    {
        self.phase = CreatePhase::Finished;
        Step::Done(Err(e))
    }

    /// Advances the workflow by one outcome.
    ///
    /// The machine never asks for a VM deletion, the created count never
    /// decreases, and a failing workflow leaves the count where it was: VMs
    /// created before the failure stand, with no rollback.
    #[verifier::rlimit(100)]
    pub fn step(&mut self, repo: &mut Repository, outcome: Outcome) -> (r: Step)
        requires
            old(self).inv(),
        ensures
            final (self).inv(),
            r matches Step::Do(a) ==> !(a is DeleteVm),
            final (self).created_count() >= old(self).created_count(),
            r matches Step::Done(res) && res is Err && old(self).pre_create() ==> final (
            self).created_count() == 0,
            old(self).fresh() && outcome is Succeeded ==> (r matches Step::Do(a) && a
                is GenerateSshKeys && final (repo).clusters_view() == old(repo).clusters_view()
                && (exists|ts: i64|
                final (repo).log_view() =~~= old(repo).log_view().push(
                    #[trigger] crate::model::info_entry(
                        old(self).cluster_name_view(),
                        "Start creating cluster"@,
                        ts,
                    ),
                ))),
            r matches Step::Done(res) && res is Ok ==> final (self).created_count() == old(
                self,
            ).node_count(),
            old(self).joining_token() ==> (outcome matches Outcome::JoinInfo { urls } ==> ((
            urls@.len() > 0 ==> (r matches Step::Do(a) && (a matches Action::Guest {
                target,
                step: gs,
                parse,
            } && target.ip@ == final (self).nodes_view()[old(self).join_node()].ip_address && (gs
                matches GuestStep::Exec { command } && command@ == plans::spec_join_cmd(
                urls@[0]@,
                final (self).nodes_view()[old(self).join_node()].node_type,
            ))) && final (self).joining_run() && final (self).join_node() == old(
                self,
            ).join_node())) && (urls@.len() == 0 ==> (r matches Step::Done(res) && res is Err)))),
            old(self).awaiting_kubeconfig() ==> (outcome matches Outcome::Output { text } ==> (r
                matches Step::Do(_) ==> (crate::store::spec_get(
                final (repo).clusters_view(),
                old(self).cluster_name_view(),
            ) matches Some(cv) && cv.cluster_config == text@))),
            old(self).creating() matches Some(i) ==> (outcome is Failed ==> (r
                matches Step::Done(res) ==> (res matches Err(m) && m@.len()
                >= create_fail_prefix(old(self).cluster_view().nodes[i].vm_id).len()
                && m@.subrange(
                0,
                create_fail_prefix(old(self).cluster_view().nodes[i].vm_id).len() as int,
            ) == create_fail_prefix(old(self).cluster_view().nodes[i].vm_id)))),
            old(self).awaiting_containers() ==> (outcome matches Outcome::Containers { items }
                ==> ((exists|k: int|
                0 <= k < old(self).nodes_view().len() && (old(self).pending_used()
                    + crate::workflow::spec_container_ids(items@)).contains(
                    (#[trigger] old(self).nodes_view()[k]).vm_id,
                )) ==> (r matches Step::Done(res) && (res matches Err(e) && spec_id_collision(
                old(self).nodes_view(),
                old(self).pending_used() + crate::workflow::spec_container_ids(items@),
                e@,
            ))))),
            old(self).power_wait() ==> (outcome matches Outcome::Power { status } ==> ((status
                is Running ==> (r matches Step::Do(a) && (a matches Action::Guest {
                target,
                step: gs,
                parse,
            } && target.ip@ == old(self).nodes_view()[old(self).wait_node()].ip_address && (gs
                matches GuestStep::Exec { command } && command@ == "cloud-init status --wait"@))
                && final (self).cloud_wait() && final (self).wait_node() == old(self).wait_node()
                && final (self).reboot_pass() == old(self).reboot_pass() && final (
            self).wait_attempts() == crate::workflow::RETRY_ATTEMPTS)) && (status is Stopped
                ==> ((old(self).wait_attempts() > 0 ==> (r matches Step::Do(a) && a is Sleep
                && final (self).power_wait() && final (self).wait_node() == old(self).wait_node()
                && final (self).reboot_pass() == old(self).reboot_pass() && final (
            self).wait_attempts() == old(self).wait_attempts() - 1)) && (old(
                self,
            ).wait_attempts() == 0 ==> (r matches Step::Done(res) && res is Err)))))),
            old(self).power_wait() ==> (outcome is Succeeded ==> (r matches Step::Do(a) && (a
                matches Action::VmPowerState { node, vm_id } && vm_id == old(
                self,
            ).nodes_view()[old(self).wait_node()].vm_id) && final (self).power_wait() && final (
            self).wait_node() == old(self).wait_node() && final (self).reboot_pass() == old(
                self,
            ).reboot_pass() && final (self).wait_attempts() == old(self).wait_attempts())),
            old(self).power_wait() ==> (outcome is Failed ==> ((old(self).wait_attempts() > 0
                ==> (r matches Step::Do(a) && a is Sleep && final (self).power_wait() && final (
            self).wait_node() == old(self).wait_node() && final (self).reboot_pass() == old(
                self,
            ).reboot_pass() && final (self).wait_attempts() == old(self).wait_attempts() - 1))
                && (old(self).wait_attempts() == 0 ==> (r matches Step::Done(res) && res
                is Err)))),
            old(self).cloud_wait() ==> (outcome matches Outcome::Output { text } ==> ((!old(
                self,
            ).reboot_pass() && old(self).wait_node() + 1 < old(self).node_count() ==> (r
                matches Step::Do(a) && (a matches Action::VmPowerState { node, vm_id } && vm_id
                == old(self).nodes_view()[old(self).wait_node() + 1].vm_id) && final (
            self).power_wait() && !final (self).reboot_pass() && final (self).wait_node() == old(
                self,
            ).wait_node() + 1 && final (self).wait_attempts()
                == crate::workflow::RETRY_ATTEMPTS)) && (!old(self).reboot_pass() && old(
                self,
            ).wait_node() + 1 == old(self).node_count() ==> (r matches Step::Do(a) && (a
                matches Action::GuestFileExists { target, path } && path@
                == "/var/run/reboot-required"@ && target.ip@ == old(
                self,
            ).nodes_view()[0].ip_address) && final (self).checking_reboot() && final (
            self).wait_node() == 0)) && (old(self).reboot_pass() && old(self).wait_node() + 1
                < old(self).node_count() ==> (r matches Step::Do(a) && (a
                matches Action::GuestFileExists { target, path } && path@
                == "/var/run/reboot-required"@ && target.ip@ == old(self).nodes_view()[old(
                self,
            ).wait_node() + 1].ip_address) && final (self).checking_reboot() && final (
            self).wait_node() == old(self).wait_node() + 1)))),
            old(self).cloud_wait() ==> (outcome is Succeeded ==> (r matches Step::Do(a) && (a
                matches Action::Guest { target, step: gs, parse } && target.ip@ == old(
                self,
            ).nodes_view()[old(self).wait_node()].ip_address && (gs matches GuestStep::Exec {
                command,
            } && command@ == "cloud-init status --wait"@)) && final (self).cloud_wait() && final (
            self).wait_node() == old(self).wait_node() && final (self).reboot_pass() == old(
                self,
            ).reboot_pass() && final (self).wait_attempts() == old(self).wait_attempts())),
            old(self).cloud_wait() ==> (outcome is Failed ==> ((old(self).wait_attempts() > 0
                ==> (r matches Step::Do(a) && a is Sleep && final (self).cloud_wait() && final (
            self).wait_node() == old(self).wait_node() && final (self).reboot_pass() == old(
                self,
            ).reboot_pass() && final (self).wait_attempts() == old(self).wait_attempts() - 1))
                && (old(self).wait_attempts() == 0 ==> (r matches Step::Done(res) && res
                is Err)))),
    {
        let mut phase = CreatePhase::Init;
        core::mem::swap(&mut phase, &mut self.phase);
        match phase {
            CreatePhase::Init => {
                match outcome {
                    Outcome::Succeeded => {
                        let entry = LogEntry::info(
                            self.cluster.cluster_name.as_str(),
                            String::from_str("Start creating cluster"),
                        );
                        let ghost ts = entry@.date;
                        repo.save_log(entry);
                        proof {
                            assert(repo.log_view() =~~= old(repo).log_view().push(
                                crate::model::info_entry(
                                    old(self).cluster_name_view(),
                                    "Start creating cluster"@,
                                    ts,
                                ),
                            ));
                        }
                        self.phase = CreatePhase::AwaitKeys;
                        Step::Do(Action::GenerateSshKeys)
                    },
                    Outcome::Failed { error } => self.fail(error),
                    _ => self.fail(String::from_str("Unexpected reply")),
                }
            },
            CreatePhase::AwaitKeys => {
                match outcome {
                    Outcome::Keys { keys } => {
                        self.cluster.ssh_key = keys;
                        repo.save_cluster(self.cluster.clone());
                        self.phase = CreatePhase::QueryVms;
                        Step::Do(Action::ListVms { node: self.cluster.node.clone(), full: false })
                    },
                    Outcome::Failed { error } => self.fail(error),
                    _ => self.fail(String::from_str("Unexpected reply")),
                }
            },
            CreatePhase::QueryVms => {
                match outcome {
                    Outcome::Vms { vms } => {
                        let used = vm_ids(&vms);
                        self.phase = CreatePhase::QueryContainers { used };
                        Step::Do(Action::ListContainers { node: self.cluster.node.clone() })
                    },
                    Outcome::Failed { error } => self.fail(error),
                    _ => self.fail(String::from_str("Unexpected reply")),
                }
            },
            CreatePhase::QueryContainers { used } => {
                proof {
                    assert(self.created == 0);
                }
                match outcome {
                    Outcome::Containers { items } => {
                        let ghost all_used = old(self).pending_used()
                            + crate::workflow::spec_container_ids(items@);
                        let mut used = used;
                        let mut more = container_ids(&items);
                        proof {
                            assert(used@ == old(self).pending_used());
                        }
                        used.append(&mut more);
                        proof {
                            assert(used@ == all_used);
                        }
                        // Refuse colliding ids before creating anything.
                        let mut collide: Option<usize> = None;
                        let mut i: usize = 0;
                        while i < self.cluster.nodes.len()
                            invariant
                                i <= self.cluster.nodes@.len(),
                                self.created == 0,
                                old(self).created == 0,
                                used@ == all_used,
                                self.cluster == old(self).cluster,
                                old(self).nodes_view().len() == self.cluster.nodes@.len(),
                                match collide {
                                    Some(c) => c < i && i <= self.cluster.nodes@.len()
                                        && all_used.contains(
                                        old(self).nodes_view()[c as int].vm_id,
                                    ) && (forall|j: int|
                                        0 <= j < c ==> !all_used.contains(
                                            (#[trigger] old(self).nodes_view()[j]).vm_id,
                                        )),
                                    None => forall|j: int|
                                        0 <= j < i ==> !all_used.contains(
                                            (#[trigger] old(self).nodes_view()[j]).vm_id,
                                        ),
                                },
                            decreases self.cluster.nodes@.len() - i,
                        {
                            proof {
                                assert(old(self).nodes_view()[i as int] == self.cluster.nodes@[i
                                    as int]@);
                            }
                            if collide.is_none() && contains_id(
                                &used,
                                self.cluster.nodes[i].vm_id,
                            ) {
                                collide = Some(i);
                            }
                            i = i + 1;
                        }
                        match collide {
                            Some(c) => {
                                let id = self.cluster.nodes[c].vm_id;
                                proof {
                                    assert(old(self).nodes_view()[c as int] == self.cluster.nodes@[c
                                        as int]@);
                                }
                                let r = self.fail(
                                    msg_num("VM with id [", id as u64, "] already exists"),
                                );
                                proof {
                                    assert(r matches Step::Done(res) ==> (res matches Err(e)
                                        && spec_id_collision(
                                        old(self).nodes_view(),
                                        all_used,
                                        e@,
                                    )));
                                }
                                r
                            },
                            None => self.enter_create(repo, 0),
                        }
                    },
                    Outcome::Failed { error } => self.fail(error),
                    _ => self.fail(String::from_str("Unexpected reply")),
                }
            },
            CreatePhase::CreateVms { i, mut sub } => {
                proof {
                    assert(i < self.cluster.nodes@.len() && self.created == i);
                }
                let s = sub.step(repo, &self.cluster, i, outcome);
                match s {
                    SubStep::Do(a) => {
                        self.phase = CreatePhase::CreateVms { i, sub };
                        Step::Do(a)
                    },
                    SubStep::Fail(e) => {
                        let ghost ev = e@;
                        let r = self.fail_create(i, e);
                        proof {
                            let p = create_fail_prefix(
                                old(self).cluster_view().nodes[i as int].vm_id,
                            );
                            assert((p + ev).subrange(0, p.len() as int) =~= p);
                        }
                        r
                    },
                    SubStep::Done => {
                        let id = self.cluster.nodes[i].vm_id;
                        repo.save_log(
                            LogEntry::info(
                                self.cluster.cluster_name.as_str(),
                                msg_num("VM [", id as u64, "] has been created"),
                            ),
                        );
                        let n = self.cluster.nodes.len();
                        proof {
                            assert(self.created < n);
                        }
                        self.created = self.created + 1;
                        self.enter_create(repo, i + 1)
                    },
                }
            },
            CreatePhase::StartVms { i } => {
                match outcome {
                    Outcome::Succeeded => self.enter_start(repo, i + 1),
                    Outcome::Failed { error } => self.fail_start(i, error),
                    _ => self.fail(String::from_str("Unexpected reply")),
                }
            },
            CreatePhase::WaitPower { i, mut poll } => {
                match outcome {
                    Outcome::Power { status } => {
                        match status {
                            crate::proxmox::VmStatus::Running => {
                                let a = self.exec_on(
                                    i,
                                    String::from_str("cloud-init status --wait"),
                                );
                                self.phase = CreatePhase::WaitCloudInit { i, poll: Poll::new() };
                                Step::Do(a)
                            },
                            crate::proxmox::VmStatus::Stopped => {
                                if poll.consume() {
                                    self.phase = CreatePhase::WaitPower { i, poll };
                                    Step::Do(Action::Sleep { seconds: RETRY_DELAY_SECS })
                                } else {
                                    let id = self.cluster.nodes[i].vm_id;
                                    self.fail_start(
                                        i,
                                        msg_num("VM [", id as u64, "] is stopped"),
                                    )
                                }
                            },
                        }
                    },
                    Outcome::Succeeded => {
                        let id = self.cluster.nodes[i].vm_id;
                        self.phase = CreatePhase::WaitPower { i, poll };
                        Step::Do(
                            Action::VmPowerState { node: self.cluster.node.clone(), vm_id: id },
                        )
                    },
                    Outcome::Failed { error } => {
                        if poll.consume() {
                            self.phase = CreatePhase::WaitPower { i, poll };
                            Step::Do(Action::Sleep { seconds: RETRY_DELAY_SECS })
                        } else {
                            self.fail_start(i, error)
                        }
                    },
                    _ => self.fail(String::from_str("Unexpected reply")),
                }
            },
            CreatePhase::WaitCloudInit { i, mut poll } => {
                match outcome {
                    Outcome::Output { text: _ } => {
                        let id = self.cluster.nodes[i].vm_id;
                        repo.save_log(
                            LogEntry::info(
                                self.cluster.cluster_name.as_str(),
                                msg_num("VM [", id as u64, "] has been started"),
                            ),
                        );
                        self.enter_wait_power(repo, i + 1)
                    },
                    Outcome::Succeeded => {
                        let a = self.exec_on(i, String::from_str("cloud-init status --wait"));
                        self.phase = CreatePhase::WaitCloudInit { i, poll };
                        Step::Do(a)
                    },
                    Outcome::Failed { error } => {
                        if poll.consume() {
                            self.phase = CreatePhase::WaitCloudInit { i, poll };
                            Step::Do(Action::Sleep { seconds: RETRY_DELAY_SECS })
                        } else {
                            self.fail_start(i, error)
                        }
                    },
                    _ => self.fail(String::from_str("Unexpected reply")),
                }
            },
            CreatePhase::CheckReboot { i } => {
                match outcome {
                    Outcome::Exists { yes } => {
                        if yes {
                            let id = self.cluster.nodes[i].vm_id;
                            repo.save_log(
                                LogEntry::info(
                                    self.cluster.cluster_name.as_str(),
                                    msg_num("Reboot is required, shutdown VM [", id as u64, "]"),
                                ),
                            );
                            let mut sub = StopVmFlow::new(self.cluster.node.clone(), id, false);
                            match sub.step(Outcome::Succeeded) {
                                StopStep::Do(a) => {
                                    self.phase = CreatePhase::RebootStop { i, sub };
                                    Step::Do(a)
                                },
                                StopStep::Fail(e) => self.fail(e),
                                StopStep::Done { .. } => self.fail(
                                    String::from_str("Stop ended before it began"),
                                ),
                            }
                        } else {
                            self.enter_reboot_check(repo, i + 1)
                        }
                    },
                    Outcome::Failed { error } => self.fail(error),
                    _ => self.fail(String::from_str("Unexpected reply")),
                }
            },
            CreatePhase::RebootStop { i, mut sub } => {
                match sub.step(outcome) {
                    StopStep::Do(a) => {
                        self.phase = CreatePhase::RebootStop { i, sub };
                        Step::Do(a)
                    },
                    StopStep::Fail(e) => self.fail(e),
                    StopStep::Done { .. } => {
                        let id = self.cluster.nodes[i].vm_id;
                        repo.save_log(
                            LogEntry::info(
                                self.cluster.cluster_name.as_str(),
                                msg_num("Starting VM [", id as u64, "]"),
                            ),
                        );
                        self.phase = CreatePhase::RebootStart { i };
                        Step::Do(
                            Action::StartVm { node: self.cluster.node.clone(), vm_id: id },
                        )
                    },
                }
            },
            CreatePhase::RebootStart { i } => {
                match outcome {
                    Outcome::Succeeded => {
                        let id = self.cluster.nodes[i].vm_id;
                        self.phase = CreatePhase::RebootWaitPower { i, poll: Poll::new() };
                        Step::Do(
                            Action::VmPowerState { node: self.cluster.node.clone(), vm_id: id },
                        )
                    },
                    Outcome::Failed { error } => self.fail_start(i, error),
                    _ => self.fail(String::from_str("Unexpected reply")),
                }
            },
            CreatePhase::RebootWaitPower { i, mut poll } => {
                match outcome {
                    Outcome::Power { status } => {
                        match status {
                            crate::proxmox::VmStatus::Running => {
                                let a = self.exec_on(
                                    i,
                                    String::from_str("cloud-init status --wait"),
                                );
                                self.phase = CreatePhase::RebootWaitCloudInit {
                                    i,
                                    poll: Poll::new(),
                                };
                                Step::Do(a)
                            },
                            crate::proxmox::VmStatus::Stopped => {
                                if poll.consume() {
                                    self.phase = CreatePhase::RebootWaitPower { i, poll };
                                    Step::Do(Action::Sleep { seconds: RETRY_DELAY_SECS })
                                } else {
                                    let id = self.cluster.nodes[i].vm_id;
                                    self.fail_start(
                                        i,
                                        msg_num("VM [", id as u64, "] is stopped"),
                                    )
                                }
                            },
                        }
                    },
                    Outcome::Succeeded => {
                        let id = self.cluster.nodes[i].vm_id;
                        self.phase = CreatePhase::RebootWaitPower { i, poll };
                        Step::Do(
                            Action::VmPowerState { node: self.cluster.node.clone(), vm_id: id },
                        )
                    },
                    Outcome::Failed { error } => {
                        if poll.consume() {
                            self.phase = CreatePhase::RebootWaitPower { i, poll };
                            Step::Do(Action::Sleep { seconds: RETRY_DELAY_SECS })
                        } else {
                            self.fail_start(i, error)
                        }
                    },
                    _ => self.fail(String::from_str("Unexpected reply")),
                }
            },
            CreatePhase::RebootWaitCloudInit { i, mut poll } => {
                match outcome {
                    Outcome::Output { text: _ } => {
                        let id = self.cluster.nodes[i].vm_id;
                        repo.save_log(
                            LogEntry::info(
                                self.cluster.cluster_name.as_str(),
                                msg_num("VM [", id as u64, "] has been started"),
                            ),
                        );
                        self.enter_reboot_check(repo, i + 1)
                    },
                    Outcome::Succeeded => {
                        let a = self.exec_on(i, String::from_str("cloud-init status --wait"));
                        self.phase = CreatePhase::RebootWaitCloudInit { i, poll };
                        Step::Do(a)
                    },
                    Outcome::Failed { error } => {
                        if poll.consume() {
                            self.phase = CreatePhase::RebootWaitCloudInit { i, poll };
                            Step::Do(Action::Sleep { seconds: RETRY_DELAY_SECS })
                        } else {
                            self.fail_start(i, error)
                        }
                    },
                    _ => self.fail(String::from_str("Unexpected reply")),
                }
            },
            CreatePhase::Setup { i, cmds, j } => {
                proof {
                    assert(i < self.cluster.nodes@.len() && (j as int) < cmds@.len());
                }
                match outcome {
                    Outcome::Output { text: _ } => {
                        let m = cmds.len();
                        proof {
                            assert(j < m);
                        }
                        if j + 1 < m {
                            let next = cmds[j + 1].clone();
                            let a = self.exec_on(i, next);
                            self.phase = CreatePhase::Setup { i, cmds, j: j + 1 };
                            Step::Do(a)
                        } else {
                            self.enter_setup(repo, i + 1)
                        }
                    },
                    Outcome::Failed { error } => self.fail(error),
                    _ => self.fail(String::from_str("Unexpected reply")),
                }
            },
            CreatePhase::InstallK8s { i } => {
                match outcome {
                    Outcome::Output { text: _ } => self.enter_install(repo, i + 1),
                    Outcome::Failed { error } => self.fail(error),
                    _ => self.fail(String::from_str("Unexpected reply")),
                }
            },
            CreatePhase::WaitReady { i } => {
                match outcome {
                    Outcome::Output { text: _ } => self.enter_wait_ready(repo, i + 1),
                    Outcome::Failed { error } => self.fail(error),
                    _ => self.fail(String::from_str("Unexpected reply")),
                }
            },
            CreatePhase::Join { i, master, awaiting_token } => {
                if awaiting_token {
                    match outcome {
                        Outcome::JoinInfo { urls } => {
                            match plans::join_cmd(&urls, self.cluster.nodes[i].node_type) {
                                Ok(cmd) => {
                                    let id = self.cluster.nodes[i].vm_id;
                                    let role = self.cluster.nodes[i].node_type.as_str();
                                    let mut m = msg_num("Join node [", id as u64, "] with role [");
                                    m.append(role);
                                    m.append("] to cluster");
                                    repo.save_log(
                                        LogEntry::info(self.cluster.cluster_name.as_str(), m),
                                    );
                                    let a = self.exec_on(i, cmd);
                                    self.phase = CreatePhase::Join {
                                        i,
                                        master,
                                        awaiting_token: false,
                                    };
                                    proof {
                                        assert(self.nodes_view()[i as int].ip_address
                                            == self.cluster.nodes@[i as int]@.ip_address);
                                        assert(self.nodes_view()[i as int].node_type
                                            == self.cluster.nodes@[i as int]@.node_type);
                                    }
                                    Step::Do(a)
                                },
                                Err(e) => {
                                    proof {
                                        assert(urls@.len() == 0);
                                    }
                                    self.fail(e)
                                },
                            }
                        },
                        Outcome::Failed { error } => self.fail(error),
                        _ => self.fail(String::from_str("Unexpected reply")),
                    }
                } else {
                    match outcome {
                        Outcome::Output { text: _ } => self.enter_join(repo, master, i + 1),
                        Outcome::Failed { error } => self.fail(error),
                        _ => self.fail(String::from_str("Unexpected reply")),
                    }
                }
            },
            CreatePhase::Kubeconfig { master } => {
                match outcome {
                    Outcome::Output { text } => {
                        self.cluster.cluster_config = text.clone();
                        match repo.get_cluster(self.cluster.cluster_name.as_str()) {
                            Some(stored) => {
                                let ghost pre = repo.clusters_view();
                                let mut stored = stored;
                                stored.cluster_config = text;
                                proof {
                                    crate::store::lemma_spec_get_name(
                                        pre,
                                        self.cluster.cluster_name@,
                                    );
                                    assert(stored@.cluster_name == self.cluster.cluster_name@);
                                }
                                let ghost mv = stored@;
                                repo.save_cluster(stored);
                                proof {
                                    crate::store::lemma_store_round_trip(pre, mv);
                                    assert(crate::store::spec_get(
                                        repo.clusters_view(),
                                        self.cluster.cluster_name@,
                                    ) == Some(mv));
                                }
                                self.enter_addons(repo)
                            },
                            None => self.fail(
                                String::from_str("Cannot read cluster from repository"),
                            ),
                        }
                    },
                    Outcome::Failed { error } => self.fail(error),
                    _ => self.fail(String::from_str("Unexpected reply")),
                }
            },
            CreatePhase::AddonDns { master } => {
                match outcome {
                    Outcome::Output { text: _ } => {
                        let a = self.exec_on(
                            master,
                            String::from_str("sudo microk8s enable helm3"),
                        );
                        self.phase = CreatePhase::AddonHelm { master };
                        Step::Do(a)
                    },
                    Outcome::Failed { error } => self.fail(error),
                    _ => self.fail(String::from_str("Unexpected reply")),
                }
            },
            CreatePhase::AddonHelm { master } => {
                match outcome {
                    Outcome::Output { text: _ } => self.enter_helm_stage(repo),
                    Outcome::Failed { error } => self.fail(error),
                    _ => self.fail(String::from_str("Unexpected reply")),
                }
            },
            CreatePhase::HelmApps { j, steps, k, master } => {
                proof {
                    assert((k as int) < steps@.len() && (j as int)
                        < self.cluster.helm_apps@.len());
                }
                match outcome {
                    Outcome::Output { text: _ } | Outcome::Succeeded => {
                        let m = steps.len();
                        proof {
                            assert(k < m);
                        }
                        if k + 1 < m {
                            let next = clone_guest_step(&steps[k + 1]);
                            let a = self.guest(master, next, ParseAs::Text);
                            self.phase = CreatePhase::HelmApps { j, steps, k: k + 1, master };
                            Step::Do(a)
                        } else {
                            let napps = self.cluster.helm_apps.len();
                            proof {
                                assert(j < napps);
                            }
                            self.enter_helm(repo, master, j + 1)
                        }
                    },
                    Outcome::Failed { error } => self.fail(error),
                    _ => self.fail(String::from_str("Unexpected reply")),
                }
            },
            CreatePhase::Workloads { j, steps, k, master } => {
                proof {
                    assert((k as int) < steps@.len() && (j as int)
                        < self.cluster.cluster_resources@.len());
                }
                match outcome {
                    Outcome::Output { text: _ } | Outcome::Succeeded => {
                        let m = steps.len();
                        proof {
                            assert(k < m);
                        }
                        if k + 1 < m {
                            let next = clone_guest_step(&steps[k + 1]);
                            let a = self.guest(master, next, ParseAs::Text);
                            self.phase = CreatePhase::Workloads { j, steps, k: k + 1, master };
                            Step::Do(a)
                        } else {
                            let nres = self.cluster.cluster_resources.len();
                            proof {
                                assert(j < nres);
                            }
                            self.enter_workload(repo, master, j + 1)
                        }
                    },
                    Outcome::Failed { error } => self.fail(error),
                    _ => self.fail(String::from_str("Unexpected reply")),
                }
            },
            CreatePhase::Finished => {
                self.phase = CreatePhase::Finished;
                Step::Done(Err(String::from_str("Workflow already finished")))
            },
        }
    }
}

/// A copy of one guest step.
pub fn clone_guest_step(s: &GuestStep) -> (r: GuestStep)
    ensures
        r@ == s@,
{
    match s {
        GuestStep::Exec { command } => GuestStep::Exec { command: command.clone() },
        GuestStep::Upload { path, content } => GuestStep::Upload {
            path: path.clone(),
            content: content.clone(),
        },
    }
}

} // verus!
