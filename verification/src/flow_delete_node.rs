//! The DeleteNode workflow: refuse to delete a cluster's only node, drain
//! the node, detach it from Kubernetes, remove it from membership, shut down
//! and delete its VM if it still exists, drop the node record from the
//! cluster, and strip its hostname from every remaining node's hosts files.
use crate::flow_vm::{StopStep, StopVmFlow};
use crate::model::{Cluster, ClusterNode, LogEntry};
use crate::plans::{self, GuestStep};
use crate::store::Repository;
use crate::text::{msg_num, msg_text};
use crate::workflow::{
    existing_nodes, find_master, find_node_index, guest_target, node_listed, Action, Outcome,
    ParseAs, Step,
};
use vstd::prelude::*;

verus! {

/// Phases of the DeleteNode workflow.
#[derive(Debug)]
enum DeletePhase {
    /// Nothing happened yet.
    Init,
    /// Waiting for the VM listing (does the node's VM still exist?).
    CheckExists,
    /// Waiting for the drain on the master.
    Draining,
    /// Waiting out the pod-shutdown settle delay.
    Settling,
    /// Waiting for `microk8s leave` on the departing node.
    Leaving,
    /// Waiting for `remove-node` on the master.
    RemovingMember,
    /// Waiting for the second VM listing (recheck after departure).
    RecheckVm,
    /// Stopping the departing node's VM.
    Stopping { sub: StopVmFlow },
    /// Waiting for the VM deletion.
    Deleting,
    /// Waiting for the third VM listing (cleanup targets).
    CleanupQuery,
    /// Running cleanup command `j` on remaining node `e`.
    Cleanup { targets: Vec<ClusterNode>, e: usize, cmds: Vec<String>, j: usize },
    /// The workflow ended.
    Finished,
}

/// The DeleteNode workflow machine.
#[derive(Debug)]
pub struct DeleteNodeFlow {
    cluster: Cluster,
    node_name: String,
    /// The index of the node being deleted.
    node_idx: usize,
    /// The index of the master driving the removal.
    master: usize,
    phase: DeletePhase,
}

impl DeleteNodeFlow {
    /// The machine's internal consistency.
    pub closed spec fn inv(&self) -> bool {
        let n = self.cluster.nodes@.len();
        &&& (self.phase is Init || self.phase is Finished || (self.node_idx < n && self.master
            < n))
        &&& match self.phase {
            DeletePhase::Cleanup { targets, e, cmds, j } => e < targets@.len() && (j as int)
                < cmds@.len() && cmds.deep_view() == plans::spec_hosts_cleanup_cmds(
                self.cluster.cluster_name@,
                self.node_name@,
            ),
            DeletePhase::Stopping { sub } => sub.waiting() && sub.tolerates() && sub.target_vm()
                == self.cluster.nodes@[self.node_idx as int]@.vm_id,
            _ => true,
        }
    }

    /// Whether the machine has not acted yet.
    pub closed spec fn fresh(&self) -> bool {
        self.phase is Init
    }

    /// Whether only the record and hosts cleanup remain.
    pub closed spec fn cleaning_up(&self) -> bool {
        self.phase is CleanupQuery || self.phase is Cleanup
    }

    /// The name of the cluster this workflow works on.
    pub closed spec fn cluster_name_view(&self) -> Seq<char> {
        self.cluster.cluster_name@
    }

    /// The name of the node being deleted.
    pub closed spec fn node_name_view(&self) -> Seq<char> {
        self.node_name@
    }

    /// Whether the machine awaits the existence listing.
    pub closed spec fn checking_exists(&self) -> bool {
        self.phase is CheckExists
    }

    /// Whether the machine awaits the drain on the master.
    pub closed spec fn draining(&self) -> bool {
        self.phase is Draining
    }

    /// Whether the machine waits out the pod-shutdown settle delay.
    pub closed spec fn settling(&self) -> bool {
        self.phase is Settling
    }

    /// Whether the machine awaits `microk8s leave` on the departing node.
    pub closed spec fn leaving(&self) -> bool {
        self.phase is Leaving
    }

    /// Whether the machine awaits `remove-node` on the master.
    pub closed spec fn removing_member(&self) -> bool {
        self.phase is RemovingMember
    }

    /// Whether the machine awaits the post-departure listing.
    pub closed spec fn rechecking(&self) -> bool {
        self.phase is RecheckVm
    }

    /// The record this workflow works on.
    pub closed spec fn cluster_view(&self) -> crate::model::ClusterView {
        self.cluster@
    }

    /// The departing node's record.
    pub closed spec fn node_record(&self) -> crate::model::ClusterNodeView {
        self.cluster.nodes@[self.node_idx as int]@
    }

    /// The address of the master driving the removal.
    pub closed spec fn master_ip(&self) -> Seq<char> {
        self.cluster.nodes@[self.master as int]@.ip_address
    }

    /// The departing node's address.
    pub closed spec fn node_ip(&self) -> Seq<char> {
        self.cluster.nodes@[self.node_idx as int]@.ip_address
    }

    /// The departing node's VM id.
    pub closed spec fn node_vm(&self) -> u32 {
        self.cluster.nodes@[self.node_idx as int]@.vm_id
    }

    /// The node count of the cluster record this workflow works on.
    pub closed spec fn node_count(&self) -> int {
        self.cluster.nodes@.len() as int
    }

    /// Whether the embedded stop machine is bringing the VM down.
    pub closed spec fn stopping(&self) -> bool {
        self.phase is Stopping
    }

    /// Whether the machine awaits the VM deletion.
    pub closed spec fn deleting(&self) -> bool {
        self.phase is Deleting
    }

    /// Whether the embedded stop machine has escalated to a forced stop.
    pub closed spec fn stop_forced(&self) -> bool {
        match self.phase {
            DeletePhase::Stopping { sub } => sub.forced(),
            _ => false,
        }
    }

    /// The embedded stop machine's remaining poll attempts.
    pub closed spec fn stop_attempts(&self) -> u64 {
        match self.phase {
            DeletePhase::Stopping { sub } => sub.attempts(),
            _ => 0,
        }
    }

    /// Whether the machine awaits the cleanup target listing.
    pub closed spec fn awaiting_cleanup_targets(&self) -> bool {
        self.phase is CleanupQuery
    }

    /// Whether the machine is running the hosts cleanup commands.
    pub closed spec fn in_cleanup_run(&self) -> bool {
        self.phase is Cleanup
    }

    /// Which remaining node is being cleaned.
    pub closed spec fn cleanup_e(&self) -> int {
        match self.phase {
            DeletePhase::Cleanup { e, .. } => e as int,
            _ => 0,
        }
    }

    /// The index of the cleanup command most recently issued.
    pub closed spec fn cleanup_next(&self) -> int {
        match self.phase {
            DeletePhase::Cleanup { j, .. } => j as int,
            _ => 0,
        }
    }

    /// The remaining nodes the cleanup walks, while it walks them.
    pub closed spec fn cleanup_targets(&self) -> Seq<crate::model::ClusterNodeView> {
        match self.phase {
            DeletePhase::Cleanup { targets, .. } => targets.deep_view(),
            _ => Seq::empty(),
        }
    }

    /// A workflow deleting `node_name` from the given cluster record; the
    /// first `step` call (with `Outcome::Succeeded`) starts it.
    pub fn new(cluster: Cluster, node_name: String) -> (r: Self)
        ensures
            r.inv(),
            r.fresh(),
            r.node_count() == cluster.nodes@.len(),
    {
        DeleteNodeFlow { cluster, node_name, node_idx: 0, master: 0, phase: DeletePhase::Init }
    }

    /// Fails the workflow with the given error text.
    fn fail(&mut self, e: String) -> (r: Step)
        ensures
            final (self).inv(),
            final (self).cluster_name_view() == old(self).cluster_name_view(),
            final (self).node_name_view() == old(self).node_name_view(),
            !final (self).cleaning_up(),
            r matches Step::Done(res) && res is Err,
    {
        self.phase = DeletePhase::Finished;
        Step::Done(Err(e))
    }

    /// Removes the node's record from the stored cluster and enters the
    /// hosts cleanup (a fresh VM listing for the remaining nodes).
    fn enter_cleanup(&mut self, repo: &mut Repository) -> (r: Step)
        requires
            old(self).node_idx < old(self).cluster.nodes@.len(),
            old(self).master < old(self).cluster.nodes@.len(),
        ensures
            final (self).inv(),
            final (self).cluster_name_view() == old(self).cluster_name_view(),
            final (self).node_name_view() == old(self).node_name_view(),
            r matches Step::Do(a) ==> !(a is DeleteVm) && !(a is ShutdownVm) && !(a is Guest),
            r matches Step::Do(_) ==> final (self).cleaning_up() && (crate::store::spec_get(
                final (repo).clusters_view(),
                old(self).cluster_name_view(),
            ) matches Some(cv) ==> !crate::model::has_node(
                cv.nodes,
                old(self).node_name_view(),
            )),
            r matches Step::Done(res) ==> res is Err && !final (self).cleaning_up() && final (
            repo).clusters_view() == old(repo).clusters_view(),
            r matches Step::Do(a) ==> a is ListVms && final (self).awaiting_cleanup_targets(),
    {
        match repo.get_cluster(self.cluster.cluster_name.as_str()) {
            Some(stored) => {
                let ghost pre = repo.clusters_view();
                let mut stored = stored;
                let ghost sv = stored@;
                crate::model::remove_node_record(&mut stored, self.node_name.as_str());
                proof {
                    crate::store::lemma_spec_get_name(pre, self.cluster.cluster_name@);
                    assert(stored@.cluster_name == self.cluster.cluster_name@);
                }
                let ghost mv = stored@;
                repo.save_cluster(stored);
                proof {
                    crate::store::lemma_store_round_trip(pre, mv);
                    assert(crate::store::spec_get(
                        repo.clusters_view(),
                        self.cluster.cluster_name@,
                    ) == Some(mv));
                    crate::model::lemma_without_node_absent(sv.nodes, self.node_name@);
                }
            },
            None => {
                return self.fail(String::from_str("Cannot find cluster"));
            },
        }
        self.phase = DeletePhase::CleanupQuery;
        Step::Do(Action::ListVms { node: self.cluster.node.clone(), full: false })
    }

    /// Enters the hosts cleanup on remaining node `e`, or finishes.
    fn enter_cleanup_host(&mut self, targets: Vec<ClusterNode>, e: usize) -> (r: Step)
        requires
            old(self).node_idx < old(self).cluster.nodes@.len(),
            old(self).master < old(self).cluster.nodes@.len(),
            e <= targets@.len(),
        ensures
            final (self).inv(),
            final (self).cluster_name_view() == old(self).cluster_name_view(),
            final (self).node_name_view() == old(self).node_name_view(),
            r matches Step::Do(a) ==> !(a is DeleteVm) && !(a is ShutdownVm),
            r matches Step::Do(_) ==> final (self).cleaning_up(),
            r matches Step::Done(res) ==> res is Ok,
            e < targets@.len() ==> (r matches Step::Do(a) && (a matches Action::Guest {
                target,
                step: gs,
                parse,
            } && target.ip@ == targets.deep_view()[e as int].ip_address && (gs
                matches GuestStep::Exec { command } && command@ == plans::spec_hosts_cleanup_cmds(
                old(self).cluster_name_view(),
                old(self).node_name_view(),
            )[0])) && final (self).in_cleanup_run() && final (self).cleanup_e() == e as int
                && final (self).cleanup_next() == 0 && final (self).cleanup_targets()
                == targets.deep_view()),
            e == targets@.len() ==> (r matches Step::Done(res) && res is Ok),
    {
        if e < targets.len() {
            let cmds = plans::hosts_cleanup_cmds(
                self.cluster.cluster_name.as_str(),
                self.node_name.as_str(),
            );
            proof {
                assert(cmds.deep_view().len() == 2);
            }
            let first = cmds[0].clone();
            let a = Action::Guest {
                target: guest_target(&self.cluster, &targets[e]),
                step: GuestStep::Exec { command: first },
                parse: ParseAs::Text,
            };
            self.phase = DeletePhase::Cleanup { targets, e, cmds, j: 0 };
            Step::Do(a)
        } else {
            self.phase = DeletePhase::Finished;
            Step::Done(Ok(()))
        }
    }

    /// Advances the workflow by one outcome.
    ///
    /// On a one-node cluster the very first step answers success directly:
    /// no hypervisor or guest action is ever requested.
    pub fn step(&mut self, repo: &mut Repository, outcome: Outcome) -> (r: Step)
        requires
            old(self).inv(),
        ensures
            final (self).inv(),
            final (self).cluster_name_view() == old(self).cluster_name_view(),
            final (self).node_name_view() == old(self).node_name_view(),
            old(self).fresh() && old(self).node_count() == 1 ==> (r matches Step::Done(res)
                && res is Ok),
            outcome is Failed ==> (!old(self).fresh() ==> (r matches Step::Done(res) && res
                is Err)),
            !old(self).cleaning_up() && final (self).cleaning_up() ==> (crate::store::spec_get(
                final (repo).clusters_view(),
                old(self).cluster_name_view(),
            ) matches Some(cv) ==> !crate::model::has_node(
                cv.nodes,
                old(self).node_name_view(),
            )),
            old(self).cleaning_up() ==> (r matches Step::Do(_) ==> final (self).cleaning_up()
                && final (repo).clusters_view() == old(repo).clusters_view() && final (
            repo).log_view() == old(repo).log_view()),
            r matches Step::Done(res) ==> (res is Ok ==> (old(self).cleaning_up() || (old(
                self,
            ).fresh() && old(self).node_count() == 1))),
            r matches Step::Do(a) ==> (a matches Action::DeleteVm { node, vm_id } ==> vm_id
                == old(self).node_vm()),
            old(self).checking_exists() ==> (outcome matches Outcome::Vms { vms } ==> (
            crate::workflow::spec_node_vm_listed(
                old(self).cluster_view(),
                old(self).node_record(),
                vms@,
            ) ==> (r matches Step::Do(a) && (a matches Action::Guest { target, step: gs, parse }
                && target.ip@ == old(self).master_ip() && (gs matches GuestStep::Exec { command }
                && command@ == plans::spec_drain_cmd(
                old(self).cluster_name_view(),
                old(self).node_name_view(),
            ))) && final (self).draining()))),
            old(self).draining() ==> (outcome matches Outcome::Output { text } ==> (r
                matches Step::Do(a) && (a matches Action::Sleep { seconds } && seconds == 30)
                && final (self).settling())),
            old(self).settling() ==> (outcome is Succeeded ==> (r matches Step::Do(a) && (a
                matches Action::Guest { target, step: gs, parse } && target.ip@ == old(
                self,
            ).node_ip() && (gs matches GuestStep::Exec { command } && command@
                == "sudo microk8s leave"@)) && final (self).leaving())),
            old(self).leaving() ==> (outcome matches Outcome::Output { text } ==> (r
                matches Step::Do(a) && (a matches Action::Guest { target, step: gs, parse }
                && target.ip@ == old(self).master_ip() && (gs matches GuestStep::Exec { command }
                && command@ == plans::spec_remove_node_cmd(
                old(self).cluster_name_view(),
                old(self).node_name_view(),
            ))) && final (self).removing_member())),
            old(self).removing_member() ==> (outcome matches Outcome::Output { text } ==> (r
                matches Step::Do(a) && a is ListVms && final (self).rechecking())),
            old(self).rechecking() ==> (outcome matches Outcome::Vms { vms } ==> (
            crate::workflow::spec_node_vm_listed(
                old(self).cluster_view(),
                old(self).node_record(),
                vms@,
            ) ==> (r matches Step::Do(a) && (a matches Action::ShutdownVm { node, vm_id }
                && vm_id == old(self).node_vm())))),
            old(self).stopping() ==> (outcome is Succeeded ==> (r matches Step::Do(a) && (a
                matches Action::VmPowerState { node, vm_id } && vm_id == old(self).node_vm())
                && final (self).stopping())),
            old(self).stopping() ==> (outcome matches Outcome::Power { status } ==> ((status
                is Stopped ==> (r matches Step::Do(a) && (a matches Action::DeleteVm {
                node,
                vm_id,
            } && vm_id == old(self).node_vm()) && final (self).deleting())) && (status is Running
                ==> ((old(self).stop_attempts() > 0 ==> (r matches Step::Do(a) && a is Sleep
                && final (self).stopping() && final (self).stop_forced() == old(
                self,
            ).stop_forced() && final (self).stop_attempts() == old(self).stop_attempts() - 1)) && (
            old(self).stop_attempts() == 0 && !old(self).stop_forced() ==> (r
                matches Step::Do(a) && (a matches Action::StopVm { node, vm_id } && vm_id == old(
                self,
            ).node_vm()) && final (self).stopping() && final (self).stop_forced())) && (old(
                self,
            ).stop_attempts() == 0 && old(self).stop_forced() ==> (r matches Step::Do(a) && (a
                matches Action::DeleteVm { node, vm_id } && vm_id == old(self).node_vm())
                && final (self).deleting())))))),
            old(self).deleting() ==> (outcome is Succeeded ==> ((r matches Step::Do(a) ==> (a
                is ListVms && final (self).awaiting_cleanup_targets())) && (r
                matches Step::Done(res) ==> res is Err))),
            old(self).awaiting_cleanup_targets() ==> (outcome matches Outcome::Vms { vms } ==> (
            crate::store::spec_get(
                old(repo).clusters_view(),
                old(self).cluster_name_view(),
            ) matches Some(cv) ==> ((cv.nodes.filter(
                crate::workflow::listed_filter(cv, vms@),
            ).len() > 0 ==> (r matches Step::Do(a) && (a matches Action::Guest {
                target,
                step: gs,
                parse,
            } && target.ip@ == cv.nodes.filter(
                crate::workflow::listed_filter(cv, vms@),
            )[0].ip_address && (gs matches GuestStep::Exec { command } && command@
                == plans::spec_hosts_cleanup_cmds(
                old(self).cluster_name_view(),
                old(self).node_name_view(),
            )[0])) && final (self).in_cleanup_run() && final (self).cleanup_e() == 0 && final (
            self).cleanup_next() == 0 && final (self).cleanup_targets() =~= cv.nodes.filter(
                crate::workflow::listed_filter(cv, vms@),
            ))) && (cv.nodes.filter(crate::workflow::listed_filter(cv, vms@)).len() == 0 ==> (r
                matches Step::Done(res) && res is Ok))))),
            old(self).in_cleanup_run() ==> (outcome matches Outcome::Output { text } ==> ((old(
                self,
            ).cleanup_next() + 1 < 2 ==> (r matches Step::Do(a) && (a matches Action::Guest {
                target,
                step: gs,
                parse,
            } && target.ip@ == old(self).cleanup_targets()[old(self).cleanup_e()].ip_address
                && (gs matches GuestStep::Exec { command } && command@
                == plans::spec_hosts_cleanup_cmds(
                old(self).cluster_name_view(),
                old(self).node_name_view(),
            )[old(self).cleanup_next() + 1])) && final (self).in_cleanup_run() && final (
            self).cleanup_e() == old(self).cleanup_e() && final (self).cleanup_next() == old(
                self,
            ).cleanup_next() + 1 && final (self).cleanup_targets() == old(
                self,
            ).cleanup_targets())) && (old(self).cleanup_next() + 1 == 2 ==> ((old(
                self,
            ).cleanup_e() + 1 < old(self).cleanup_targets().len() ==> (r matches Step::Do(a) && (a
                matches Action::Guest { target, step: gs, parse } && target.ip@ == old(
                self,
            ).cleanup_targets()[old(self).cleanup_e() + 1].ip_address && (gs
                matches GuestStep::Exec { command } && command@ == plans::spec_hosts_cleanup_cmds(
                old(self).cluster_name_view(),
                old(self).node_name_view(),
            )[0])) && final (self).in_cleanup_run() && final (self).cleanup_e() == old(
                self,
            ).cleanup_e() + 1 && final (self).cleanup_next() == 0 && final (
            self).cleanup_targets() == old(self).cleanup_targets())) && (old(self).cleanup_e() + 1
                == old(self).cleanup_targets().len() ==> (r matches Step::Done(res) && res
                is Ok)))))),
            old(self).fresh() && old(self).node_count() == 1 ==> (final (repo).clusters_view()
                == old(repo).clusters_view() && final (repo).log_view().len() == old(
                repo,
            ).log_view().len() + 2 && final (repo).log_view().subrange(
                0,
                old(repo).log_view().len() as int,
            ) =~= old(repo).log_view() && (exists|ts: i64|
                final (repo).log_view().last() == #[trigger] crate::model::error_entry(
                    old(self).cluster_name_view(),
                    "Cannot delete last node, delete whole cluster instead"@,
                    ts,
                ))),
            !old(self).cleaning_up() ==> (r matches Step::Done(res) ==> (res is Err ==> final (
            repo).clusters_view() == old(repo).clusters_view())),
    {
        let mut phase = DeletePhase::Init;
        core::mem::swap(&mut phase, &mut self.phase);
        match phase {
            DeletePhase::Init => {
                repo.save_log(
                    LogEntry::info(
                        self.cluster.cluster_name.as_str(),
                        msg_text(
                            "Start deleting node [",
                            plans::hostname(
                                self.cluster.cluster_name.as_str(),
                                self.node_name.as_str(),
                            ).as_str(),
                            "]",
                        ),
                    ),
                );
                if self.cluster.nodes.len() == 1 {
                    let entry = LogEntry::error(
                        self.cluster.cluster_name.as_str(),
                        String::from_str("Cannot delete last node, delete whole cluster instead"),
                    );
                    let ghost ev = entry@;
                    let ghost ts = entry@.date;
                    repo.save_log(entry);
                    proof {
                        assert(ev =~= crate::model::error_entry(
                            self.cluster.cluster_name@,
                            "Cannot delete last node, delete whole cluster instead"@,
                            ts,
                        ));
                        assert(repo.log_view().last() == ev);
                        assert(repo.log_view().len() == old(repo).log_view().len() + 2);
                        assert(repo.log_view().subrange(
                            0,
                            old(repo).log_view().len() as int,
                        ) =~= old(repo).log_view());
                    }
                    self.phase = DeletePhase::Finished;
                    return Step::Done(Ok(()));
                }
                let master = match find_master(
                    &self.cluster.nodes,
                    Some(self.node_name.as_str()),
                ) {
                    Some(m) => m,
                    None => {
                        return self.fail(String::from_str("Cannot find any master node"));
                    },
                };
                let idx = match find_node_index(&self.cluster.nodes, self.node_name.as_str()) {
                    Some(i) => i,
                    None => {
                        return self.fail(String::from_str("Cannot find node to delete"));
                    },
                };
                self.node_idx = idx;
                self.master = master;
                self.phase = DeletePhase::CheckExists;
                Step::Do(Action::ListVms { node: self.cluster.node.clone(), full: false })
            },
            DeletePhase::CheckExists => {
                match outcome {
                    Outcome::Vms { vms } => {
                        if !node_listed(&self.cluster, &self.cluster.nodes[self.node_idx], &vms) {
                            // The VM is already gone: only the record and the
                            // hosts entries remain to be cleaned.
                            self.enter_cleanup(repo)
                        } else {
                            repo.save_log(
                                LogEntry::info(
                                    self.cluster.cluster_name.as_str(),
                                    msg_text(
                                        "Drain a node [",
                                        plans::hostname(
                                            self.cluster.cluster_name.as_str(),
                                            self.node_name.as_str(),
                                        ).as_str(),
                                        "]",
                                    ),
                                ),
                            );
                            let cmd = plans::drain_cmd(
                                self.cluster.cluster_name.as_str(),
                                self.node_name.as_str(),
                            );
                            let a = Action::Guest {
                                target: guest_target(
                                    &self.cluster,
                                    &self.cluster.nodes[self.master],
                                ),
                                step: GuestStep::Exec { command: cmd },
                                parse: ParseAs::Text,
                            };
                            self.phase = DeletePhase::Draining;
                            Step::Do(a)
                        }
                    },
                    Outcome::Failed { error } => self.fail(error),
                    _ => self.fail(String::from_str("Unexpected reply")),
                }
            },
            DeletePhase::Draining => {
                match outcome {
                    Outcome::Output { text: _ } => {
                        repo.save_log(
                            LogEntry::info(
                                self.cluster.cluster_name.as_str(),
                                String::from_str("Wait 30s to gracefully shutdown pods"),
                            ),
                        );
                        self.phase = DeletePhase::Settling;
                        Step::Do(Action::Sleep { seconds: 30 })
                    },
                    Outcome::Failed { error } => self.fail(error),
                    _ => self.fail(String::from_str("Unexpected reply")),
                }
            },
            DeletePhase::Settling => {
                match outcome {
                    Outcome::Succeeded => {
                        repo.save_log(
                            LogEntry::info(
                                self.cluster.cluster_name.as_str(),
                                msg_text(
                                    "Detach a node [",
                                    plans::hostname(
                                        self.cluster.cluster_name.as_str(),
                                        self.node_name.as_str(),
                                    ).as_str(),
                                    "] from the cluster",
                                ),
                            ),
                        );
                        let a = Action::Guest {
                            target: guest_target(
                                &self.cluster,
                                &self.cluster.nodes[self.node_idx],
                            ),
                            step: GuestStep::Exec {
                                command: String::from_str("sudo microk8s leave"),
                            },
                            parse: ParseAs::Text,
                        };
                        self.phase = DeletePhase::Leaving;
                        Step::Do(a)
                    },
                    Outcome::Failed { error } => self.fail(error),
                    _ => self.fail(String::from_str("Unexpected reply")),
                }
            },
            DeletePhase::Leaving => {
                match outcome {
                    Outcome::Output { text: _ } => {
                        let cmd = plans::remove_node_cmd(
                            self.cluster.cluster_name.as_str(),
                            self.node_name.as_str(),
                        );
                        let a = Action::Guest {
                            target: guest_target(&self.cluster, &self.cluster.nodes[self.master]),
                            step: GuestStep::Exec { command: cmd },
                            parse: ParseAs::Text,
                        };
                        self.phase = DeletePhase::RemovingMember;
                        Step::Do(a)
                    },
                    Outcome::Failed { error } => self.fail(error),
                    _ => self.fail(String::from_str("Unexpected reply")),
                }
            },
            DeletePhase::RemovingMember => {
                match outcome {
                    Outcome::Output { text: _ } => {
                        self.phase = DeletePhase::RecheckVm;
                        Step::Do(Action::ListVms { node: self.cluster.node.clone(), full: false })
                    },
                    Outcome::Failed { error } => self.fail(error),
                    _ => self.fail(String::from_str("Unexpected reply")),
                }
            },
            DeletePhase::RecheckVm => {
                match outcome {
                    Outcome::Vms { vms } => {
                        if node_listed(&self.cluster, &self.cluster.nodes[self.node_idx], &vms) {
                            let id = self.cluster.nodes[self.node_idx].vm_id;
                            repo.save_log(
                                LogEntry::info(
                                    self.cluster.cluster_name.as_str(),
                                    msg_num("Removing VM [", id as u64, "]"),
                                ),
                            );
                            let mut sub = StopVmFlow::new(self.cluster.node.clone(), id, true);
                            match sub.step(Outcome::Succeeded) {
                                StopStep::Do(a) => {
                                    repo.save_log(
                                        LogEntry::info(
                                            self.cluster.cluster_name.as_str(),
                                            msg_num(
                                                "Requested VM [",
                                                id as u64,
                                                "] to shutdown",
                                            ),
                                        ),
                                    );
                                    self.phase = DeletePhase::Stopping { sub };
                                    Step::Do(a)
                                },
                                StopStep::Fail(e) => self.fail(e),
                                StopStep::Done { .. } => self.fail(
                                    String::from_str("Stop ended before it began"),
                                ),
                            }
                        } else {
                            self.enter_cleanup(repo)
                        }
                    },
                    Outcome::Failed { error } => self.fail(error),
                    _ => self.fail(String::from_str("Unexpected reply")),
                }
            },
            DeletePhase::Stopping { mut sub } => {
                match sub.step(outcome) {
                    StopStep::Do(a) => {
                        self.phase = DeletePhase::Stopping { sub };
                        Step::Do(a)
                    },
                    StopStep::Fail(e) => self.fail(e),
                    StopStep::Done { .. } => {
                        let id = self.cluster.nodes[self.node_idx].vm_id;
                        self.phase = DeletePhase::Deleting;
                        Step::Do(Action::DeleteVm { node: self.cluster.node.clone(), vm_id: id })
                    },
                }
            },
            DeletePhase::Deleting => {
                match outcome {
                    Outcome::Succeeded => {
                        let id = self.cluster.nodes[self.node_idx].vm_id;
                        repo.save_log(
                            LogEntry::info(
                                self.cluster.cluster_name.as_str(),
                                msg_num("VM [", id as u64, "] has been deleted"),
                            ),
                        );
                        self.enter_cleanup(repo)
                    },
                    Outcome::Failed { error } => {
                        let id = self.cluster.nodes[self.node_idx].vm_id;
                        let mut m = msg_num("Delete VM [", id as u64, "], error: [");
                        m.append(error.as_str());
                        m.append("]");
                        self.fail(m)
                    },
                    _ => self.fail(String::from_str("Unexpected reply")),
                }
            },
            DeletePhase::CleanupQuery => {
                match outcome {
                    Outcome::Vms { vms } => {
                        match repo.get_cluster(self.cluster.cluster_name.as_str()) {
                            Some(stored) => {
                                let targets = existing_nodes(&stored, &vms);
                                self.enter_cleanup_host(targets, 0)
                            },
                            None => self.fail(String::from_str("Cannot find cluster")),
                        }
                    },
                    Outcome::Failed { error } => self.fail(error),
                    _ => self.fail(String::from_str("Unexpected reply")),
                }
            },
            DeletePhase::Cleanup { targets, e, cmds, j } => {
                proof {
                    assert(e < targets@.len() && (j as int) < cmds@.len());
                    assert(cmds.deep_view() == plans::spec_hosts_cleanup_cmds(
                        self.cluster.cluster_name@,
                        self.node_name@,
                    ));
                    assert(cmds.deep_view().len() == 2);
                    assert(cmds@.len() == cmds.deep_view().len());
                    assert(targets.deep_view()[e as int] == targets@[e as int]@);
                }
                match outcome {
                    Outcome::Output { text: _ } => {
                        let m = cmds.len();
                        proof {
                            assert(j < m);
                        }
                        if j + 1 < m {
                            let next = cmds[j + 1].clone();
                            proof {
                                assert(next@ == cmds.deep_view()[j as int + 1]);
                            }
                            let a = Action::Guest {
                                target: guest_target(&self.cluster, &targets[e]),
                                step: GuestStep::Exec { command: next },
                                parse: ParseAs::Text,
                            };
                            self.phase = DeletePhase::Cleanup { targets, e, cmds, j: j + 1 };
                            Step::Do(a)
                        } else {
                            let nt = targets.len();
                            proof {
                                assert(e < nt);
                            }
                            self.enter_cleanup_host(targets, e + 1)
                        }
                    },
                    Outcome::Failed { error } => self.fail(error),
                    _ => self.fail(String::from_str("Unexpected reply")),
                }
            },
            DeletePhase::Finished => {
                self.phase = DeletePhase::Finished;
                Step::Done(Err(String::from_str("Workflow already finished")))
            },
        }
    }
}

} // verus!
