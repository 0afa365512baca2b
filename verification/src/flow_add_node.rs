//! The AddNode workflow: run the full per-node pipeline (image resolution,
//! VM creation, start, waits, reboot handling, guest setup, Kubernetes
//! install, readiness, join) for exactly the newly requested node, and
//! propagate the updated hosts mapping to every pre-existing node so each
//! side can resolve the other.
use crate::flow_vm::{StopStep, StopVmFlow, SubStep, VmCreateFlow};
use crate::model::{Cluster, ClusterNode, LogEntry};
use crate::plans::{self, GuestStep};
use crate::store::Repository;
use crate::text::msg_num;
use crate::workflow::{
    existing_nodes, find_master, guest_target, Action, Outcome, ParseAs, Poll, Step,
    RETRY_DELAY_SECS,
};
use vstd::prelude::*;

verus! {

/// Phases of the AddNode workflow.
#[derive(Debug)]
enum AddPhase {
    /// Nothing happened yet.
    Init,
    /// Waiting for the VM listing (pre-existing nodes).
    QueryVms,
    /// Creating the new node's VM.
    CreateVm { sub: VmCreateFlow },
    /// Waiting for the start call.
    Starting,
    /// Polling the new VM's power state.
    WaitPower { poll: Poll },
    /// Polling cloud-init inside the new VM.
    WaitCloudInit { poll: Poll },
    /// Waiting for the reboot-required probe.
    CheckReboot,
    /// Stopping the new VM for its pending reboot.
    RebootStop { sub: StopVmFlow },
    /// Waiting for the restart call.
    RebootStart,
    /// Polling the power state after the reboot.
    RebootWaitPower { poll: Poll },
    /// Polling cloud-init after the reboot.
    RebootWaitCloudInit { poll: Poll },
    /// Running setup command `j` on the new node.
    SetupNew { cmds: Vec<String>, j: usize },
    /// Running setup command `j` on pre-existing node `e`.
    Propagate { e: usize, cmds: Vec<String>, j: usize },
    /// Waiting for the Kubernetes install on the new node.
    InstallK8s,
    /// Waiting for Kubernetes readiness on the new node.
    WaitReady,
    /// Waiting for the master's join token.
    JoinToken,
    /// Waiting for the new node's join command.
    JoinRun,
    /// The workflow ended.
    Finished,
}

/// The AddNode workflow machine.
#[derive(Debug)]
pub struct AddNodeFlow {
    cluster: Cluster,
    node_name: String,
    /// The index of the node being added.
    node_idx: usize,
    /// The index of the master that will join the new node.
    master: usize,
    /// The pre-existing nodes (their VM listed, name not the new node's).
    existing: Vec<ClusterNode>,
    phase: AddPhase,
}

impl AddNodeFlow {
    /// The machine's internal consistency: the indices it carries stay in
    /// range.
    pub closed spec fn inv(&self) -> bool {
        let n = self.cluster.nodes@.len();
        &&& (self.phase is Init || self.phase is Finished || (self.node_idx < n && self.master
            < n))
        &&& match self.phase {
            AddPhase::SetupNew { cmds, j } => (j as int) < cmds@.len() && cmds.deep_view()
                == plans::spec_cluster_setup_cmds(self.cluster@),
            AddPhase::Propagate { e, cmds, j } => e < self.existing@.len() && (j as int)
                < cmds@.len() && cmds.deep_view() == plans::spec_cluster_setup_cmds(
                self.cluster@,
            ),
            _ => true,
        }
    }

    /// Whether the machine awaits the master's join token.
    pub closed spec fn awaiting_token(&self) -> bool {
        self.phase is JoinToken
    }

    /// Whether the machine awaits the new node's join command.
    pub closed spec fn joining(&self) -> bool {
        self.phase is JoinRun
    }

    /// Whether the machine is running the new node's setup commands.
    pub closed spec fn in_setup_new(&self) -> bool {
        self.phase is SetupNew
    }

    /// Whether the machine is propagating hosts onto a pre-existing node.
    pub closed spec fn in_propagate(&self) -> bool {
        self.phase is Propagate
    }

    /// The index of the setup command most recently issued.
    pub closed spec fn setup_next(&self) -> int {
        match self.phase {
            AddPhase::SetupNew { j, .. } => j as int,
            AddPhase::Propagate { j, .. } => j as int,
            _ => 0,
        }
    }

    /// The pre-existing node currently being told the new hosts.
    pub closed spec fn prop_e(&self) -> int {
        match self.phase {
            AddPhase::Propagate { e, .. } => e as int,
            _ => 0,
        }
    }

    /// How many pre-existing nodes take the hosts update.
    pub closed spec fn existing_count(&self) -> int {
        self.existing@.len() as int
    }

    /// The address of pre-existing node `e`.
    pub closed spec fn existing_ip(&self, e: int) -> Seq<char> {
        self.existing@[e]@.ip_address
    }

    /// The address of the node being added.
    pub closed spec fn new_ip(&self) -> Seq<char> {
        self.cluster.nodes@[self.node_idx as int]@.ip_address
    }

    /// The role of the node being added.
    pub closed spec fn new_node_type(&self) -> crate::model::ClusterNodeType {
        self.cluster.nodes@[self.node_idx as int]@.node_type
    }

    /// The record this workflow works on.
    pub closed spec fn cluster_view(&self) -> crate::model::ClusterView {
        self.cluster@
    }

    /// Whether the machine polls the new VM's power state.
    pub closed spec fn power_wait(&self) -> bool {
        self.phase is WaitPower || self.phase is RebootWaitPower
    }

    /// Whether the machine awaits the new node's cloud-init completion.
    pub closed spec fn cloud_wait(&self) -> bool {
        self.phase is WaitCloudInit || self.phase is RebootWaitCloudInit
    }

    /// Whether the machine awaits the reboot-required probe.
    pub closed spec fn checking_reboot(&self) -> bool {
        self.phase is CheckReboot
    }

    /// Whether the current stage belongs to the post-reboot pass.
    pub closed spec fn reboot_pass(&self) -> bool {
        match self.phase {
            AddPhase::CheckReboot => true,
            AddPhase::RebootStop { .. } => true,
            AddPhase::RebootStart => true,
            AddPhase::RebootWaitPower { .. } => true,
            AddPhase::RebootWaitCloudInit { .. } => true,
            _ => false,
        }
    }

    /// The poll attempts left in the current wait.
    pub closed spec fn wait_attempts(&self) -> u64 {
        match self.phase {
            AddPhase::WaitPower { poll } => poll.attempts_left,
            AddPhase::WaitCloudInit { poll } => poll.attempts_left,
            AddPhase::RebootWaitPower { poll } => poll.attempts_left,
            AddPhase::RebootWaitCloudInit { poll } => poll.attempts_left,
            _ => 0,
        }
    }

    /// The new node's VM id.
    pub closed spec fn new_vm_id(&self) -> u32 {
        self.cluster.nodes@[self.node_idx as int]@.vm_id
    }

    /// A workflow adding `node_name` to the given cluster record; the first
    /// `step` call (with `Outcome::Succeeded`) starts it.
    pub fn new(cluster: Cluster, node_name: String) -> (r: Self)
        ensures
            r.inv(),
    {
        AddNodeFlow {
            cluster,
            node_name,
            node_idx: 0,
            master: 0,
            existing: Vec::new(),
            phase: AddPhase::Init,
        }
    }

    /// The guest action running `step` on the node being added.
    fn on_new(&self, step: GuestStep, parse: ParseAs) -> (r: Action)
        requires
            self.node_idx < self.cluster.nodes@.len(),
        ensures
            r matches Action::Guest { target, step: gs, parse: p } && target.ip@
                == self.new_ip() && gs@ == step@ && p == parse,
    {
        Action::Guest {
            target: guest_target(&self.cluster, &self.cluster.nodes[self.node_idx]),
            step,
            parse,
        }
    }

    /// The new node's VM id.
    fn vm_id(&self) -> (r: u32)
        requires
            self.node_idx < self.cluster.nodes@.len(),
        ensures
            r == self.new_vm_id(),
    {
        self.cluster.nodes[self.node_idx].vm_id
    }

    /// Fails the workflow with the given error text.
    fn fail(&mut self, e: String) -> (r: Step)
        ensures
            final (self).inv(),
            !final (self).in_setup_new(),
            !final (self).in_propagate(),
            !final (self).joining(),
            r matches Step::Done(res) && res is Err,
    {
        self.phase = AddPhase::Finished;
        Step::Done(Err(e))
    }

    /// Enters the power poll of the new VM.
    fn enter_wait_power(&mut self) -> (r: Step)
        requires
            old(self).node_idx < old(self).cluster.nodes@.len(),
            old(self).master < old(self).cluster.nodes@.len(),
        ensures
            final (self).inv(),
    {
        let id = self.vm_id();
        self.phase = AddPhase::WaitPower { poll: Poll::new() };
        Step::Do(Action::VmPowerState { node: self.cluster.node.clone(), vm_id: id })
    }

    /// Enters the guest setup of the new node.
    fn enter_setup_new(&mut self, repo: &mut Repository) -> (r: Step)
        requires
            old(self).node_idx < old(self).cluster.nodes@.len(),
            old(self).master < old(self).cluster.nodes@.len(),
        ensures
            final (self).inv(),
            final (repo).clusters_view() == old(repo).clusters_view(),
            r matches Step::Do(a) && (a matches Action::Guest { target, step: gs, parse }
                && target.ip@ == old(self).new_ip() && (gs matches GuestStep::Exec { command }
                && command@ == plans::spec_cluster_setup_cmds(old(self).cluster_view())[0])),
            final (self).in_setup_new(),
            final (self).setup_next() == 0,
    {
        let id = self.vm_id();
        repo.save_log(
            LogEntry::info(
                self.cluster.cluster_name.as_str(),
                msg_num("Configure VM [", id as u64, "]"),
            ),
        );
        let entries = plans::hosts_entries(&self.cluster);
        let cmds = plans::setup_vm_commands(&entries);
        proof {
            assert(entries.deep_view() =~= plans::spec_cluster_entries(self.cluster@));
            assert(cmds.deep_view() == plans::spec_cluster_setup_cmds(self.cluster@));
        }
        let first = cmds[0].clone();
        let a = self.on_new(GuestStep::Exec { command: first }, ParseAs::Text);
        self.phase = AddPhase::SetupNew { cmds, j: 0 };
        Step::Do(a)
    }

    /// Enters the hosts propagation onto pre-existing node `e`, or moves on
    /// to the Kubernetes install.
    fn enter_propagate(&mut self, repo: &mut Repository, e: usize) -> (r: Step)
        requires
            old(self).node_idx < old(self).cluster.nodes@.len(),
            old(self).master < old(self).cluster.nodes@.len(),
            e <= old(self).existing@.len(),
        ensures
            final (self).inv(),
            final (repo).clusters_view() == old(repo).clusters_view(),
            e < old(self).existing_count() ==> (r matches Step::Do(a) && (a
                matches Action::Guest { target, step: gs, parse } && target.ip@ == old(
                self,
            ).existing_ip(e as int) && (gs matches GuestStep::Exec { command } && command@
                == plans::spec_cluster_setup_cmds(old(self).cluster_view())[0])) && final (
            self).in_propagate() && final (self).prop_e() == e && final (self).setup_next() == 0),
            e == old(self).existing_count() ==> (r matches Step::Do(a) && (a
                matches Action::Guest { target, step: gs, parse } && target.ip@ == old(
                self,
            ).new_ip() && (gs matches GuestStep::Exec { command } && command@
                == plans::spec_install_kubernetes_cmd(old(self).cluster_view().kube_version)))
                && !final (self).in_setup_new() && !final (self).in_propagate()),
    {
        if e < self.existing.len() {
            let id = self.existing[e].vm_id;
            repo.save_log(
                LogEntry::info(
                    self.cluster.cluster_name.as_str(),
                    msg_num("Add new node hostname to exising VM [", id as u64, "]"),
                ),
            );
            let entries = plans::hosts_entries(&self.cluster);
            let cmds = plans::setup_vm_commands(&entries);
            proof {
                assert(entries.deep_view() =~= plans::spec_cluster_entries(self.cluster@));
                assert(cmds.deep_view() == plans::spec_cluster_setup_cmds(self.cluster@));
            }
            let first = cmds[0].clone();
            let a = Action::Guest {
                target: guest_target(&self.cluster, &self.existing[e]),
                step: GuestStep::Exec { command: first },
                parse: ParseAs::Text,
            };
            self.phase = AddPhase::Propagate { e, cmds, j: 0 };
            Step::Do(a)
        } else {
            let id = self.vm_id();
            repo.save_log(
                LogEntry::info(
                    self.cluster.cluster_name.as_str(),
                    msg_num("Install Kubernetes on VM [", id as u64, "]"),
                ),
            );
            let cmd = plans::install_kubernetes_cmd(&self.cluster.kube_version);
            let a = self.on_new(GuestStep::Exec { command: cmd }, ParseAs::Text);
            self.phase = AddPhase::InstallK8s;
            Step::Do(a)
        }
    }

    /// Advances the workflow by one outcome.
    #[verifier::rlimit(100)]
    pub fn step(&mut self, repo: &mut Repository, outcome: Outcome) -> (r: Step)
        requires
            old(self).inv(),
        ensures
            final (self).inv(),
            old(self).awaiting_token() ==> (outcome matches Outcome::JoinInfo { urls } ==> ((
            urls@.len() > 0 ==> (r matches Step::Do(a) && (a matches Action::Guest {
                target,
                step: gs,
                parse,
            } && target.ip@ == old(self).new_ip() && (gs matches GuestStep::Exec { command }
                && command@ == plans::spec_join_cmd(urls@[0]@, old(self).new_node_type())))
                && final (self).joining())) && (urls@.len() == 0 ==> (r matches Step::Done(res)
                && res is Err)))),
            old(self).joining() ==> (outcome matches Outcome::Output { text } ==> (r
                matches Step::Done(res) && res is Ok)),
            old(self).in_setup_new() ==> (outcome matches Outcome::Output { text } ==> ((old(
                self,
            ).setup_next() + 1 < plans::spec_cluster_setup_cmds(old(self).cluster_view()).len()
                ==> (r matches Step::Do(a) && (a matches Action::Guest { target, step: gs, parse }
                && target.ip@ == old(self).new_ip() && (gs matches GuestStep::Exec { command }
                && command@ == plans::spec_cluster_setup_cmds(old(self).cluster_view())[old(
                self,
            ).setup_next() + 1])) && final (self).in_setup_new() && final (self).setup_next()
                == old(self).setup_next() + 1)) && (old(self).setup_next() + 1
                == plans::spec_cluster_setup_cmds(old(self).cluster_view()).len() ==> ((old(
                self,
            ).existing_count() > 0 ==> (r matches Step::Do(a) && (a matches Action::Guest {
                target,
                step: gs,
                parse,
            } && target.ip@ == old(self).existing_ip(0) && (gs matches GuestStep::Exec { command }
                && command@ == plans::spec_cluster_setup_cmds(old(self).cluster_view())[0]))
                && final (self).in_propagate() && final (self).prop_e() == 0 && final (
            self).setup_next() == 0)) && (old(self).existing_count() == 0 ==> (r
                matches Step::Do(a) && (a matches Action::Guest { target, step: gs, parse }
                && target.ip@ == old(self).new_ip() && (gs matches GuestStep::Exec { command }
                && command@ == plans::spec_install_kubernetes_cmd(
                old(self).cluster_view().kube_version,
            ))))))))),
            old(self).in_propagate() ==> (outcome matches Outcome::Output { text } ==> ((old(
                self,
            ).setup_next() + 1 < plans::spec_cluster_setup_cmds(old(self).cluster_view()).len()
                ==> (r matches Step::Do(a) && (a matches Action::Guest { target, step: gs, parse }
                && target.ip@ == old(self).existing_ip(old(self).prop_e()) && (gs
                matches GuestStep::Exec { command } && command@ == plans::spec_cluster_setup_cmds(
                old(self).cluster_view(),
            )[old(self).setup_next() + 1])) && final (self).in_propagate() && final (
            self).prop_e() == old(self).prop_e() && final (self).setup_next() == old(
                self,
            ).setup_next() + 1)) && (old(self).setup_next() + 1 == plans::spec_cluster_setup_cmds(
                old(self).cluster_view(),
            ).len() ==> ((old(self).prop_e() + 1 < old(self).existing_count() ==> (r
                matches Step::Do(a) && (a matches Action::Guest { target, step: gs, parse }
                && target.ip@ == old(self).existing_ip(old(self).prop_e() + 1) && (gs
                matches GuestStep::Exec { command } && command@ == plans::spec_cluster_setup_cmds(
                old(self).cluster_view(),
            )[0])) && final (self).in_propagate() && final (self).prop_e() == old(self).prop_e()
                + 1 && final (self).setup_next() == 0)) && (old(self).prop_e() + 1 == old(
                self,
            ).existing_count() ==> (r matches Step::Do(a) && (a matches Action::Guest {
                target,
                step: gs,
                parse,
            } && target.ip@ == old(self).new_ip() && (gs matches GuestStep::Exec { command }
                && command@ == plans::spec_install_kubernetes_cmd(
                old(self).cluster_view().kube_version,
            ))))))))),
            final (repo).clusters_view() == old(repo).clusters_view(),
            old(self).power_wait() ==> (outcome matches Outcome::Power { status } ==> ((status
                is Running ==> (r matches Step::Do(a) && (a matches Action::Guest {
                target,
                step: gs,
                parse,
            } && target.ip@ == old(self).new_ip() && (gs matches GuestStep::Exec { command }
                && command@ == "cloud-init status --wait"@)) && final (self).cloud_wait() && final (
            self).reboot_pass() == old(self).reboot_pass() && final (self).wait_attempts()
                == crate::workflow::RETRY_ATTEMPTS)) && (status is Stopped ==> ((old(
                self,
            ).wait_attempts() > 0 ==> (r matches Step::Do(a) && a is Sleep && final (
            self).power_wait() && final (self).reboot_pass() == old(self).reboot_pass() && final (
            self).wait_attempts() == old(self).wait_attempts() - 1)) && (old(self).wait_attempts()
                == 0 ==> (r matches Step::Done(res) && res is Err)))))),
            old(self).power_wait() ==> (outcome is Succeeded ==> (r matches Step::Do(a) && (a
                matches Action::VmPowerState { node, vm_id } && vm_id == old(self).new_vm_id())
                && final (self).power_wait() && final (self).reboot_pass() == old(
                self,
            ).reboot_pass() && final (self).wait_attempts() == old(self).wait_attempts())),
            old(self).power_wait() ==> (outcome is Failed ==> ((old(self).wait_attempts() > 0
                ==> (r matches Step::Do(a) && a is Sleep && final (self).power_wait() && final (
            self).reboot_pass() == old(self).reboot_pass() && final (self).wait_attempts() == old(
                self,
            ).wait_attempts() - 1)) && (old(self).wait_attempts() == 0 ==> (r
                matches Step::Done(res) && res is Err)))),
            old(self).cloud_wait() ==> (outcome matches Outcome::Output { text } ==> ((!old(
                self,
            ).reboot_pass() ==> (r matches Step::Do(a) && (a matches Action::GuestFileExists {
                target,
                path,
            } && path@ == "/var/run/reboot-required"@ && target.ip@ == old(self).new_ip())
                && final (self).checking_reboot())) && (old(self).reboot_pass() ==> (r
                matches Step::Do(a) && (a matches Action::Guest { target, step: gs, parse }
                && target.ip@ == old(self).new_ip() && (gs matches GuestStep::Exec { command }
                && command@ == plans::spec_cluster_setup_cmds(old(self).cluster_view())[0]))
                && final (self).in_setup_new() && final (self).setup_next() == 0)))),
            old(self).cloud_wait() ==> (outcome is Succeeded ==> (r matches Step::Do(a) && (a
                matches Action::Guest { target, step: gs, parse } && target.ip@ == old(
                self,
            ).new_ip() && (gs matches GuestStep::Exec { command } && command@
                == "cloud-init status --wait"@)) && final (self).cloud_wait() && final (
            self).reboot_pass() == old(self).reboot_pass() && final (self).wait_attempts() == old(
                self,
            ).wait_attempts())),
            old(self).cloud_wait() ==> (outcome is Failed ==> ((old(self).wait_attempts() > 0
                ==> (r matches Step::Do(a) && a is Sleep && final (self).cloud_wait() && final (
            self).reboot_pass() == old(self).reboot_pass() && final (self).wait_attempts() == old(
                self,
            ).wait_attempts() - 1)) && (old(self).wait_attempts() == 0 ==> (r
                matches Step::Done(res) && res is Err)))),
    {
        let mut phase = AddPhase::Init;
        core::mem::swap(&mut phase, &mut self.phase);
        match phase {
            AddPhase::Init => {
                match outcome {
                    Outcome::Succeeded => {
                        repo.save_log(
                            LogEntry::info(
                                self.cluster.cluster_name.as_str(),
                                String::from_str("Start creating node"),
                            ),
                        );
                        let master = match find_master(
                            &self.cluster.nodes,
                            Some(self.node_name.as_str()),
                        ) {
                            Some(m) => m,
                            None => {
                                return self.fail(
                                    String::from_str("Cannot find any master node"),
                                );
                            },
                        };
                        let idx = match crate::workflow::find_node_index(
                            &self.cluster.nodes,
                            self.node_name.as_str(),
                        ) {
                            Some(i) => i,
                            None => {
                                return self.fail(String::from_str("Cannot find node to create"));
                            },
                        };
                        self.node_idx = idx;
                        self.master = master;
                        self.phase = AddPhase::QueryVms;
                        Step::Do(Action::ListVms { node: self.cluster.node.clone(), full: false })
                    },
                    Outcome::Failed { error } => self.fail(error),
                    _ => self.fail(String::from_str("Unexpected reply")),
                }
            },
            AddPhase::QueryVms => {
                match outcome {
                    Outcome::Vms { vms } => {
                        let listed = existing_nodes(&self.cluster, &vms);
                        let mut keep: Vec<ClusterNode> = Vec::new();
                        let mut k: usize = 0;
                        while k < listed.len()
                            invariant
                                k <= listed@.len(),
                            decreases listed@.len() - k,
                        {
                            if !crate::text::str_eq(
                                listed[k].name.as_str(),
                                self.node_name.as_str(),
                            ) {
                                keep.push(listed[k].clone());
                            }
                            k = k + 1;
                        }
                        self.existing = keep;
                        let mut sub = VmCreateFlow::new();
                        let s = sub.step(repo, &self.cluster, self.node_idx, Outcome::Succeeded);
                        match s {
                            SubStep::Do(a) => {
                                self.phase = AddPhase::CreateVm { sub };
                                Step::Do(a)
                            },
                            SubStep::Fail(e) => self.fail(e),
                            SubStep::Done => self.fail(
                                String::from_str("VM creation ended before it began"),
                            ),
                        }
                    },
                    Outcome::Failed { error } => self.fail(error),
                    _ => self.fail(String::from_str("Unexpected reply")),
                }
            },
            AddPhase::CreateVm { mut sub } => {
                let s = sub.step(repo, &self.cluster, self.node_idx, outcome);
                match s {
                    SubStep::Do(a) => {
                        self.phase = AddPhase::CreateVm { sub };
                        Step::Do(a)
                    },
                    SubStep::Fail(e) => self.fail(e),
                    SubStep::Done => {
                        let id = self.vm_id();
                        self.phase = AddPhase::Starting;
                        Step::Do(Action::StartVm { node: self.cluster.node.clone(), vm_id: id })
                    },
                }
            },
            AddPhase::Starting => {
                match outcome {
                    Outcome::Succeeded => {
                        let id = self.vm_id();
                        repo.save_log(
                            LogEntry::info(
                                self.cluster.cluster_name.as_str(),
                                msg_num("Starting VM [", id as u64, "]"),
                            ),
                        );
                        self.enter_wait_power()
                    },
                    Outcome::Failed { error } => {
                        let id = self.vm_id();
                        let mut m = msg_num("Cannot start VM [", id as u64, "]: ");
                        m.append(error.as_str());
                        self.fail(m)
                    },
                    _ => self.fail(String::from_str("Unexpected reply")),
                }
            },
            AddPhase::WaitPower { mut poll } => {
                match outcome {
                    Outcome::Power { status } => {
                        match status {
                            crate::proxmox::VmStatus::Running => {
                                let a = self.on_new(
                                    GuestStep::Exec {
                                        command: String::from_str("cloud-init status --wait"),
                                    },
                                    ParseAs::Text,
                                );
                                self.phase = AddPhase::WaitCloudInit { poll: Poll::new() };
                                Step::Do(a)
                            },
                            crate::proxmox::VmStatus::Stopped => {
                                if poll.consume() {
                                    self.phase = AddPhase::WaitPower { poll };
                                    Step::Do(Action::Sleep { seconds: RETRY_DELAY_SECS })
                                } else {
                                    let id = self.vm_id();
                                    let mut m = msg_num("Cannot start VM [", id as u64, "]: VM [");
                                    let tail = msg_num("", id as u64, "] is stopped");
                                    m.append(tail.as_str());
                                    self.fail(m)
                                }
                            },
                        }
                    },
                    Outcome::Succeeded => {
                        let id = self.vm_id();
                        self.phase = AddPhase::WaitPower { poll };
                        Step::Do(
                            Action::VmPowerState { node: self.cluster.node.clone(), vm_id: id },
                        )
                    },
                    Outcome::Failed { error } => {
                        if poll.consume() {
                            self.phase = AddPhase::WaitPower { poll };
                            Step::Do(Action::Sleep { seconds: RETRY_DELAY_SECS })
                        } else {
                            let id = self.vm_id();
                            let mut m = msg_num("Cannot start VM [", id as u64, "]: ");
                            m.append(error.as_str());
                            self.fail(m)
                        }
                    },
                    _ => self.fail(String::from_str("Unexpected reply")),
                }
            },
            AddPhase::WaitCloudInit { mut poll } => {
                match outcome {
                    Outcome::Output { text: _ } => {
                        let id = self.vm_id();
                        repo.save_log(
                            LogEntry::info(
                                self.cluster.cluster_name.as_str(),
                                msg_num("VM [", id as u64, "] has been started"),
                            ),
                        );
                        let target = guest_target(
                            &self.cluster,
                            &self.cluster.nodes[self.node_idx],
                        );
                        self.phase = AddPhase::CheckReboot;
                        Step::Do(
                            Action::GuestFileExists {
                                target,
                                path: String::from_str("/var/run/reboot-required"),
                            },
                        )
                    },
                    Outcome::Succeeded => {
                        let a = self.on_new(
                            GuestStep::Exec {
                                command: String::from_str("cloud-init status --wait"),
                            },
                            ParseAs::Text,
                        );
                        self.phase = AddPhase::WaitCloudInit { poll };
                        Step::Do(a)
                    },
                    Outcome::Failed { error } => {
                        if poll.consume() {
                            self.phase = AddPhase::WaitCloudInit { poll };
                            Step::Do(Action::Sleep { seconds: RETRY_DELAY_SECS })
                        } else {
                            let id = self.vm_id();
                            let mut m = msg_num("Cannot start VM [", id as u64, "]: ");
                            m.append(error.as_str());
                            self.fail(m)
                        }
                    },
                    _ => self.fail(String::from_str("Unexpected reply")),
                }
            },
            AddPhase::CheckReboot => {
                match outcome {
                    Outcome::Exists { yes } => {
                        if yes {
                            let id = self.vm_id();
                            repo.save_log(
                                LogEntry::info(
                                    self.cluster.cluster_name.as_str(),
                                    msg_num("Reboot is required, shutdown VM [", id as u64, "]"),
                                ),
                            );
                            let mut sub = StopVmFlow::new(self.cluster.node.clone(), id, false);
                            match sub.step(Outcome::Succeeded) {
                                StopStep::Do(a) => {
                                    self.phase = AddPhase::RebootStop { sub };
                                    Step::Do(a)
                                },
                                StopStep::Fail(e) => self.fail(e),
                                StopStep::Done { .. } => self.fail(
                                    String::from_str("Stop ended before it began"),
                                ),
                            }
                        } else {
                            self.enter_setup_new(repo)
                        }
                    },
                    Outcome::Failed { error } => self.fail(error),
                    _ => self.fail(String::from_str("Unexpected reply")),
                }
            },
            AddPhase::RebootStop { mut sub } => {
                match sub.step(outcome) {
                    StopStep::Do(a) => {
                        self.phase = AddPhase::RebootStop { sub };
                        Step::Do(a)
                    },
                    StopStep::Fail(e) => self.fail(e),
                    StopStep::Done { .. } => {
                        let id = self.vm_id();
                        repo.save_log(
                            LogEntry::info(
                                self.cluster.cluster_name.as_str(),
                                msg_num("Starting VM [", id as u64, "]"),
                            ),
                        );
                        self.phase = AddPhase::RebootStart;
                        Step::Do(Action::StartVm { node: self.cluster.node.clone(), vm_id: id })
                    },
                }
            },
            AddPhase::RebootStart => {
                match outcome {
                    Outcome::Succeeded => {
                        let id = self.vm_id();
                        self.phase = AddPhase::RebootWaitPower { poll: Poll::new() };
                        Step::Do(
                            Action::VmPowerState { node: self.cluster.node.clone(), vm_id: id },
                        )
                    },
                    Outcome::Failed { error } => self.fail(error),
                    _ => self.fail(String::from_str("Unexpected reply")),
                }
            },
            AddPhase::RebootWaitPower { mut poll } => {
                match outcome {
                    Outcome::Power { status } => {
                        match status {
                            crate::proxmox::VmStatus::Running => {
                                let a = self.on_new(
                                    GuestStep::Exec {
                                        command: String::from_str("cloud-init status --wait"),
                                    },
                                    ParseAs::Text,
                                );
                                self.phase = AddPhase::RebootWaitCloudInit { poll: Poll::new() };
                                Step::Do(a)
                            },
                            crate::proxmox::VmStatus::Stopped => {
                                if poll.consume() {
                                    self.phase = AddPhase::RebootWaitPower { poll };
                                    Step::Do(Action::Sleep { seconds: RETRY_DELAY_SECS })
                                } else {
                                    let id = self.vm_id();
                                    self.fail(msg_num("VM [", id as u64, "] is stopped"))
                                }
                            },
                        }
                    },
                    Outcome::Succeeded => {
                        let id = self.vm_id();
                        self.phase = AddPhase::RebootWaitPower { poll };
                        Step::Do(
                            Action::VmPowerState { node: self.cluster.node.clone(), vm_id: id },
                        )
                    },
                    Outcome::Failed { error } => {
                        if poll.consume() {
                            self.phase = AddPhase::RebootWaitPower { poll };
                            Step::Do(Action::Sleep { seconds: RETRY_DELAY_SECS })
                        } else {
                            self.fail(error)
                        }
                    },
                    _ => self.fail(String::from_str("Unexpected reply")),
                }
            },
            AddPhase::RebootWaitCloudInit { mut poll } => {
                match outcome {
                    Outcome::Output { text: _ } => {
                        let id = self.vm_id();
                        repo.save_log(
                            LogEntry::info(
                                self.cluster.cluster_name.as_str(),
                                msg_num("VM [", id as u64, "] has been started"),
                            ),
                        );
                        self.enter_setup_new(repo)
                    },
                    Outcome::Succeeded => {
                        let a = self.on_new(
                            GuestStep::Exec {
                                command: String::from_str("cloud-init status --wait"),
                            },
                            ParseAs::Text,
                        );
                        self.phase = AddPhase::RebootWaitCloudInit { poll };
                        Step::Do(a)
                    },
                    Outcome::Failed { error } => {
                        if poll.consume() {
                            self.phase = AddPhase::RebootWaitCloudInit { poll };
                            Step::Do(Action::Sleep { seconds: RETRY_DELAY_SECS })
                        } else {
                            self.fail(error)
                        }
                    },
                    _ => self.fail(String::from_str("Unexpected reply")),
                }
            },
            AddPhase::SetupNew { cmds, j } => {
                proof {
                    assert((j as int) < cmds@.len());
                }
                match outcome {
                    Outcome::Output { text: _ } => {
                        let m = cmds.len();
                        proof {
                            assert(j < m);
                        }
                        if j + 1 < m {
                            let next = cmds[j + 1].clone();
                            let a = self.on_new(GuestStep::Exec { command: next }, ParseAs::Text);
                            self.phase = AddPhase::SetupNew { cmds, j: j + 1 };
                            Step::Do(a)
                        } else {
                            self.enter_propagate(repo, 0)
                        }
                    },
                    Outcome::Failed { error } => self.fail(error),
                    _ => self.fail(String::from_str("Unexpected reply")),
                }
            },
            AddPhase::Propagate { e, cmds, j } => {
                proof {
                    assert(e < self.existing@.len() && (j as int) < cmds@.len());
                }
                match outcome {
                    Outcome::Output { text: _ } => {
                        let m = cmds.len();
                        proof {
                            assert(j < m);
                        }
                        if j + 1 < m {
                            let next = cmds[j + 1].clone();
                            let a = Action::Guest {
                                target: guest_target(&self.cluster, &self.existing[e]),
                                step: GuestStep::Exec { command: next },
                                parse: ParseAs::Text,
                            };
                            self.phase = AddPhase::Propagate { e, cmds, j: j + 1 };
                            Step::Do(a)
                        } else {
                            let ne = self.existing.len();
                            proof {
                                assert(e < ne);
                            }
                            self.enter_propagate(repo, e + 1)
                        }
                    },
                    Outcome::Failed { error } => self.fail(error),
                    _ => self.fail(String::from_str("Unexpected reply")),
                }
            },
            AddPhase::InstallK8s => {
                match outcome {
                    Outcome::Output { text: _ } => {
                        let id = self.vm_id();
                        repo.save_log(
                            LogEntry::info(
                                self.cluster.cluster_name.as_str(),
                                msg_num("Wait for Kubernetes on VM [", id as u64, "]"),
                            ),
                        );
                        let a = self.on_new(
                            GuestStep::Exec {
                                command: String::from_str("sudo microk8s status --wait-ready"),
                            },
                            ParseAs::Text,
                        );
                        self.phase = AddPhase::WaitReady;
                        Step::Do(a)
                    },
                    Outcome::Failed { error } => self.fail(error),
                    _ => self.fail(String::from_str("Unexpected reply")),
                }
            },
            AddPhase::WaitReady => {
                match outcome {
                    Outcome::Output { text: _ } => {
                        let master_id = self.cluster.nodes[self.master].vm_id;
                        repo.save_log(
                            LogEntry::info(
                                self.cluster.cluster_name.as_str(),
                                msg_num("Generate join token on VM [", master_id as u64, "] "),
                            ),
                        );
                        let a = Action::Guest {
                            target: guest_target(&self.cluster, &self.cluster.nodes[self.master]),
                            step: GuestStep::Exec {
                                command: String::from_str("sudo microk8s add-node --format json"),
                            },
                            parse: ParseAs::JoinJson,
                        };
                        self.phase = AddPhase::JoinToken;
                        Step::Do(a)
                    },
                    Outcome::Failed { error } => self.fail(error),
                    _ => self.fail(String::from_str("Unexpected reply")),
                }
            },
            AddPhase::JoinToken => {
                match outcome {
                    Outcome::JoinInfo { urls } => {
                        match plans::join_cmd(
                            &urls,
                            self.cluster.nodes[self.node_idx].node_type,
                        ) {
                            Ok(cmd) => {
                                let id = self.vm_id();
                                let role = self.cluster.nodes[self.node_idx].node_type.as_str();
                                let mut m = msg_num("Join node [", id as u64, "] with role [");
                                m.append(role);
                                m.append("] to cluster");
                                repo.save_log(
                                    LogEntry::info(self.cluster.cluster_name.as_str(), m),
                                );
                                let a = self.on_new(
                                    GuestStep::Exec { command: cmd },
                                    ParseAs::Text,
                                );
                                self.phase = AddPhase::JoinRun;
                                Step::Do(a)
                            },
                            Err(e) => self.fail(e),
                        }
                    },
                    Outcome::Failed { error } => self.fail(error),
                    _ => self.fail(String::from_str("Unexpected reply")),
                }
            },
            AddPhase::JoinRun => {
                match outcome {
                    Outcome::Output { text: _ } => {
                        self.phase = AddPhase::Finished;
                        Step::Done(Ok(()))
                    },
                    Outcome::Failed { error } => self.fail(error),
                    _ => self.fail(String::from_str("Unexpected reply")),
                }
            },
            AddPhase::Finished => {
                self.phase = AddPhase::Finished;
                Step::Done(Err(String::from_str("Workflow already finished")))
            },
        }
    }
}

} // verus!
