//! The DeleteCluster workflow: discover which configured nodes still exist
//! as VMs, shut each down (gracefully, escalating to a forced stop), delete
//! each VM, and remove the cluster and its audit log from the store.
use crate::model::{Cluster, ClusterNode, LogEntry};
use crate::store::{has_cluster, Repository};
use crate::text::msg_num;
use crate::workflow::{existing_nodes, Action, Outcome, Poll, Step, RETRY_DELAY_SECS};
use vstd::prelude::*;

verus! {

/// Phases of the DeleteCluster workflow.
#[derive(Debug)]
enum TeardownPhase {
    /// Nothing happened yet.
    Init,
    /// Waiting for the VM listing (reconciliation).
    Query,
    /// Waiting for the shutdown request of existing node `e`.
    ShutdownAll { existing: Vec<ClusterNode>, e: usize },
    /// Polling the power state of existing node `e`; `forced` after the
    /// escalation to a hard stop.
    WaitAll { existing: Vec<ClusterNode>, e: usize, forced: bool, poll: Poll },
    /// Waiting for the deletion of existing node `e`.
    DeleteAll { existing: Vec<ClusterNode>, e: usize },
    /// The workflow ended.
    Finished,
}

/// The DeleteCluster workflow machine.
#[derive(Debug)]
pub struct DeleteClusterFlow {
    cluster: Cluster,
    phase: TeardownPhase,
}

impl DeleteClusterFlow {
    /// The name of the cluster this workflow tears down.
    pub closed spec fn cluster_name_view(&self) -> Seq<char> {
        self.cluster.cluster_name@
    }

    /// Whether the machine awaits its reconciliation listing.
    pub closed spec fn querying(&self) -> bool {
        self.phase is Query
    }

    /// The record this workflow works on.
    pub closed spec fn cluster_view(&self) -> crate::model::ClusterView {
        self.cluster@
    }

    /// The still-existing nodes the teardown walks, while it walks them.
    pub closed spec fn teardown_targets(&self) -> Seq<crate::model::ClusterNodeView> {
        match self.phase {
            TeardownPhase::ShutdownAll { existing, .. } => existing.deep_view(),
            TeardownPhase::WaitAll { existing, .. } => existing.deep_view(),
            TeardownPhase::DeleteAll { existing, .. } => existing.deep_view(),
            _ => Seq::empty(),
        }
    }

    /// Whether the machine awaits a shutdown request's acceptance.
    pub closed spec fn in_shutdown(&self) -> bool {
        self.phase is ShutdownAll
    }

    /// Which target's shutdown request is pending.
    pub closed spec fn shutdown_index(&self) -> int {
        match self.phase {
            TeardownPhase::ShutdownAll { e, .. } => e as int,
            _ => 0,
        }
    }

    /// Whether the machine polls a target's power state.
    pub closed spec fn in_wait(&self) -> bool {
        self.phase is WaitAll
    }

    /// Which target's power state is polled.
    pub closed spec fn wait_index(&self) -> int {
        match self.phase {
            TeardownPhase::WaitAll { e, .. } => e as int,
            _ => 0,
        }
    }

    /// Whether the current wait already escalated to a forced stop.
    pub closed spec fn wait_forced(&self) -> bool {
        match self.phase {
            TeardownPhase::WaitAll { forced, .. } => forced,
            _ => false,
        }
    }

    /// The poll attempts left in the current wait.
    pub closed spec fn wait_attempts(&self) -> u64 {
        match self.phase {
            TeardownPhase::WaitAll { poll, .. } => poll.attempts_left,
            _ => 0,
        }
    }

    /// Whether the machine awaits a VM deletion.
    pub closed spec fn in_delete(&self) -> bool {
        self.phase is DeleteAll
    }

    /// Which target's deletion is pending.
    pub closed spec fn delete_index(&self) -> int {
        match self.phase {
            TeardownPhase::DeleteAll { e, .. } => e as int,
            _ => 0,
        }
    }

    /// The name of the cluster this workflow tears down (executable form).
    pub fn cluster_name(&self) -> (r: &String)
        ensures
            r@ == self.cluster_name_view(),
    {
        &self.cluster.cluster_name
    }

    /// The machine's internal consistency.
    pub closed spec fn inv(&self) -> bool {
        match self.phase {
            TeardownPhase::ShutdownAll { existing, e } => e < existing@.len(),
            TeardownPhase::WaitAll { existing, e, .. } => e < existing@.len(),
            TeardownPhase::DeleteAll { existing, e } => e < existing@.len(),
            _ => true,
        }
    }

    /// A workflow tearing down the given cluster record; the first `step`
    /// call (with `Outcome::Succeeded`) starts it.
    pub fn new(cluster: Cluster) -> (r: Self)
        ensures
            r.inv(),
            r.cluster_name_view() == cluster.cluster_name@,
    {
        DeleteClusterFlow { cluster, phase: TeardownPhase::Init }
    }

    /// Fails the workflow with the given error text.
    fn fail(&mut self, e: String) -> (r: Step)
        ensures
            final (self).inv(),
            final (self).cluster_name_view() == old(self).cluster_name_view(),
            r matches Step::Done(res) && res is Err,
    {
        self.phase = TeardownPhase::Finished;
        Step::Done(Err(e))
    }

    /// Enters the shutdown request of existing node `e`, or moves on to the
    /// per-node waits.
    fn enter_shutdown(&mut self, repo: &mut Repository, existing: Vec<ClusterNode>, e: usize) -> (r:
        Step)
        requires
            e <= existing@.len(),
        ensures
            final (self).inv(),
            final (self).cluster_name_view() == old(self).cluster_name_view(),
            r matches Step::Done(res) && res is Ok ==> !has_cluster(
                final (repo).clusters_view(),
                old(self).cluster_name_view(),
            ) && (forall|i: int|
                0 <= i < final (repo).log_view().len()
                    ==> #[trigger] final (repo).log_view()[i].cluster_name != old(
                    self,
                ).cluster_name_view()),
            existing@.len() == 0 ==> (r matches Step::Done(res) && res is Ok),
            r matches Step::Done(res) ==> (res is Ok ==> final (repo).clusters_view()
                =~= crate::store::clusters_without(
                old(repo).clusters_view(),
                old(self).cluster_name_view(),
            )),
            r is Do ==> final (repo).clusters_view() == old(repo).clusters_view(),
            e < existing@.len() ==> (r matches Step::Do(a) && (a matches Action::ShutdownVm {
                node,
                vm_id,
            } && vm_id == existing.deep_view()[e as int].vm_id && node@ == old(
                self,
            ).cluster_view().node) && final (self).in_shutdown() && final (self).shutdown_index()
                == e as int && final (self).teardown_targets() == existing.deep_view()),
            e == existing@.len() && existing@.len() > 0 ==> (r matches Step::Do(a) && (a
                matches Action::VmPowerState { node, vm_id } && vm_id
                == existing.deep_view()[0].vm_id) && final (self).in_wait() && final (
            self).wait_index() == 0 && !final (self).wait_forced() && final (self).wait_attempts()
                == crate::workflow::RETRY_ATTEMPTS && final (self).teardown_targets()
                == existing.deep_view()),
    {
        if e < existing.len() {
            let id = existing[e].vm_id;
            let a = Action::ShutdownVm { node: self.cluster.node.clone(), vm_id: id };
            self.phase = TeardownPhase::ShutdownAll { existing, e };
            Step::Do(a)
        } else {
            self.enter_wait(repo, existing, 0)
        }
    }

    /// Enters the power poll of existing node `e`, or moves on to the
    /// deletions.
    fn enter_wait(&mut self, repo: &mut Repository, existing: Vec<ClusterNode>, e: usize) -> (r:
        Step)
        requires
            e <= existing@.len(),
        ensures
            final (self).inv(),
            final (self).cluster_name_view() == old(self).cluster_name_view(),
            r matches Step::Done(res) && res is Ok ==> !has_cluster(
                final (repo).clusters_view(),
                old(self).cluster_name_view(),
            ) && (forall|i: int|
                0 <= i < final (repo).log_view().len()
                    ==> #[trigger] final (repo).log_view()[i].cluster_name != old(
                    self,
                ).cluster_name_view()),
            existing@.len() == 0 ==> (r matches Step::Done(res) && res is Ok),
            r matches Step::Done(res) ==> (res is Ok ==> final (repo).clusters_view()
                =~= crate::store::clusters_without(
                old(repo).clusters_view(),
                old(self).cluster_name_view(),
            )),
            r is Do ==> final (repo).clusters_view() == old(repo).clusters_view(),
            e < existing@.len() ==> (r matches Step::Do(a) && (a matches Action::VmPowerState {
                node,
                vm_id,
            } && vm_id == existing.deep_view()[e as int].vm_id) && final (self).in_wait() && final (
            self).wait_index() == e as int && !final (self).wait_forced() && final (
            self).wait_attempts() == crate::workflow::RETRY_ATTEMPTS && final (
            self).teardown_targets() == existing.deep_view()),
            e == existing@.len() && existing@.len() > 0 ==> (r matches Step::Do(a) && (a
                matches Action::DeleteVm { node, vm_id } && vm_id == existing.deep_view()[0].vm_id)
                && final (self).in_delete() && final (self).delete_index() == 0 && final (
            self).teardown_targets() == existing.deep_view()),
    {
        if e < existing.len() {
            let id = existing[e].vm_id;
            repo.save_log(
                LogEntry::info(
                    self.cluster.cluster_name.as_str(),
                    msg_num("Wait for VM [", id as u64, "] shutdown"),
                ),
            );
            let a = Action::VmPowerState { node: self.cluster.node.clone(), vm_id: id };
            self.phase = TeardownPhase::WaitAll { existing, e, forced: false, poll: Poll::new() };
            Step::Do(a)
        } else {
            self.enter_delete(repo, existing, 0)
        }
    }

    /// Enters the deletion of existing node `e`, or removes the cluster and
    /// finishes.
    fn enter_delete(&mut self, repo: &mut Repository, existing: Vec<ClusterNode>, e: usize) -> (r:
        Step)
        requires
            e <= existing@.len(),
        ensures
            final (self).inv(),
            final (self).cluster_name_view() == old(self).cluster_name_view(),
            r matches Step::Done(res) && res is Ok ==> !has_cluster(
                final (repo).clusters_view(),
                old(self).cluster_name_view(),
            ) && (forall|i: int|
                0 <= i < final (repo).log_view().len()
                    ==> #[trigger] final (repo).log_view()[i].cluster_name != old(
                    self,
                ).cluster_name_view()),
            existing@.len() == 0 ==> (r matches Step::Done(res) && res is Ok),
            r matches Step::Done(res) ==> (res is Ok ==> final (repo).clusters_view()
                =~= crate::store::clusters_without(
                old(repo).clusters_view(),
                old(self).cluster_name_view(),
            )),
            r is Do ==> final (repo).clusters_view() == old(repo).clusters_view(),
            e < existing@.len() ==> (r matches Step::Do(a) && (a matches Action::DeleteVm {
                node,
                vm_id,
            } && vm_id == existing.deep_view()[e as int].vm_id) && final (self).in_delete()
                && final (self).delete_index() == e as int && final (self).teardown_targets()
                == existing.deep_view()),
            e == existing@.len() ==> (r matches Step::Done(res) && res is Ok && final (
            repo).clusters_view() =~= crate::store::clusters_without(
                old(repo).clusters_view(),
                old(self).cluster_name_view(),
            )),
    {
        if e < existing.len() {
            let id = existing[e].vm_id;
            let a = Action::DeleteVm { node: self.cluster.node.clone(), vm_id: id };
            self.phase = TeardownPhase::DeleteAll { existing, e };
            Step::Do(a)
        } else {
            repo.delete_cluster(self.cluster.cluster_name.as_str());
            proof {
                crate::store::lemma_without_has_none(
                    old(repo).clusters_view(),
                    self.cluster.cluster_name@,
                );
                crate::store::lemma_log_without_has_none(
                    old(repo).log_view(),
                    self.cluster.cluster_name@,
                );
            }
            self.phase = TeardownPhase::Finished;
            Step::Done(Ok(()))
        }
    }

    /// Advances the workflow by one outcome.
    pub fn step(&mut self, repo: &mut Repository, outcome: Outcome) -> (r: Step)
        requires
            old(self).inv(),
        ensures
            final (self).inv(),
            final (self).cluster_name_view() == old(self).cluster_name_view(),
            outcome is Failed ==> (r matches Step::Done(res) && res is Err),
            r matches Step::Done(res) && res is Ok ==> !has_cluster(
                final (repo).clusters_view(),
                old(self).cluster_name_view(),
            ) && (forall|i: int|
                0 <= i < final (repo).log_view().len()
                    ==> #[trigger] final (repo).log_view()[i].cluster_name != old(
                    self,
                ).cluster_name_view()),
            old(self).querying() ==> (outcome matches Outcome::Vms { vms } ==> (
            old(self).cluster_view().nodes.filter(
                crate::workflow::listed_filter(old(self).cluster_view(), vms@),
            ).len() == 0 ==> (r matches Step::Done(res) && res is Ok))),
            r is Do ==> final (repo).clusters_view() == old(repo).clusters_view(),
            r matches Step::Done(res) ==> (res is Err ==> final (repo).clusters_view() == old(
                repo,
            ).clusters_view()),
            r matches Step::Done(res) ==> (res is Ok ==> final (repo).clusters_view()
                =~= crate::store::clusters_without(
                old(repo).clusters_view(),
                old(self).cluster_name_view(),
            )),
            old(self).querying() ==> (outcome matches Outcome::Vms { vms } ==> (
            old(self).cluster_view().nodes.filter(
                crate::workflow::listed_filter(old(self).cluster_view(), vms@),
            ).len() > 0 ==> (r matches Step::Do(a) && (a matches Action::ShutdownVm {
                node,
                vm_id,
            } && vm_id == old(self).cluster_view().nodes.filter(
                crate::workflow::listed_filter(old(self).cluster_view(), vms@),
            )[0].vm_id && node@ == old(self).cluster_view().node) && final (self).in_shutdown()
                && final (self).shutdown_index() == 0 && final (self).teardown_targets()
                =~= old(self).cluster_view().nodes.filter(
                crate::workflow::listed_filter(old(self).cluster_view(), vms@),
            )))),
            old(self).in_shutdown() ==> (outcome is Succeeded ==> ((old(self).shutdown_index() + 1
                < old(self).teardown_targets().len() ==> (r matches Step::Do(a) && (a
                matches Action::ShutdownVm { node, vm_id } && vm_id == old(
                self,
            ).teardown_targets()[old(self).shutdown_index() + 1].vm_id) && final (
            self).in_shutdown() && final (self).shutdown_index() == old(self).shutdown_index() + 1
                && final (self).teardown_targets() == old(self).teardown_targets())) && (old(
                self,
            ).shutdown_index() + 1 == old(self).teardown_targets().len() ==> (r
                matches Step::Do(a) && (a matches Action::VmPowerState { node, vm_id } && vm_id
                == old(self).teardown_targets()[0].vm_id) && final (self).in_wait() && final (
            self).wait_index() == 0 && !final (self).wait_forced() && final (
            self).teardown_targets() == old(self).teardown_targets())))),
            old(self).in_wait() ==> (outcome is Succeeded ==> (r matches Step::Do(a) && (a
                matches Action::VmPowerState { node, vm_id } && vm_id == old(
                self,
            ).teardown_targets()[old(self).wait_index()].vm_id) && final (self).in_wait()
                && final (self).wait_index() == old(self).wait_index() && final (
            self).wait_forced() == old(self).wait_forced() && final (self).wait_attempts() == old(
                self,
            ).wait_attempts() && final (self).teardown_targets() == old(
                self,
            ).teardown_targets())),
            old(self).in_wait() ==> (outcome matches Outcome::Power { status } ==> (status
                is Stopped ==> ((old(self).wait_index() + 1 < old(self).teardown_targets().len()
                ==> (r matches Step::Do(a) && (a matches Action::VmPowerState { node, vm_id }
                && vm_id == old(self).teardown_targets()[old(self).wait_index() + 1].vm_id)
                && final (self).in_wait() && final (self).wait_index() == old(self).wait_index()
                + 1 && !final (self).wait_forced() && final (self).teardown_targets() == old(
                self,
            ).teardown_targets())) && (old(self).wait_index() + 1 == old(
                self,
            ).teardown_targets().len() ==> (r matches Step::Do(a) && (a matches Action::DeleteVm {
                node,
                vm_id,
            } && vm_id == old(self).teardown_targets()[0].vm_id) && final (self).in_delete()
                && final (self).delete_index() == 0 && final (self).teardown_targets() == old(
                self,
            ).teardown_targets()))))),
            old(self).in_wait() ==> (outcome matches Outcome::Power { status } ==> (status
                is Running ==> ((old(self).wait_attempts() > 0 ==> (r matches Step::Do(a) && (a
                matches Action::Sleep { seconds } && seconds == RETRY_DELAY_SECS) && final (
            self).in_wait() && final (self).wait_index() == old(self).wait_index() && final (
            self).wait_forced() == old(self).wait_forced() && final (self).wait_attempts() == old(
                self,
            ).wait_attempts() - 1 && final (self).teardown_targets() == old(
                self,
            ).teardown_targets())) && (old(self).wait_attempts() == 0 && !old(self).wait_forced()
                ==> (r matches Step::Do(a) && (a matches Action::StopVm { node, vm_id } && vm_id
                == old(self).teardown_targets()[old(self).wait_index()].vm_id) && final (
            self).in_wait() && final (self).wait_index() == old(self).wait_index() && final (
            self).wait_forced() && final (self).wait_attempts()
                == crate::workflow::RETRY_ATTEMPTS && final (self).teardown_targets() == old(
                self,
            ).teardown_targets())) && (old(self).wait_attempts() == 0 && old(self).wait_forced()
                ==> ((old(self).wait_index() + 1 < old(self).teardown_targets().len() ==> (r
                matches Step::Do(a) && (a matches Action::VmPowerState { node, vm_id } && vm_id
                == old(self).teardown_targets()[old(self).wait_index() + 1].vm_id) && final (
            self).in_wait() && final (self).wait_index() == old(self).wait_index() + 1 && !final (
            self).wait_forced() && final (self).teardown_targets() == old(
                self,
            ).teardown_targets())) && (old(self).wait_index() + 1 == old(
                self,
            ).teardown_targets().len() ==> (r matches Step::Do(a) && (a
                matches Action::DeleteVm { node, vm_id } && vm_id == old(
                self,
            ).teardown_targets()[0].vm_id) && final (self).in_delete() && final (
            self).delete_index() == 0 && final (self).teardown_targets() == old(
                self,
            ).teardown_targets()))))))),
            old(self).in_delete() ==> (outcome is Succeeded ==> ((old(self).delete_index() + 1
                < old(self).teardown_targets().len() ==> (r matches Step::Do(a) && (a
                matches Action::DeleteVm { node, vm_id } && vm_id == old(
                self,
            ).teardown_targets()[old(self).delete_index() + 1].vm_id) && final (self).in_delete()
                && final (self).delete_index() == old(self).delete_index() + 1 && final (
            self).teardown_targets() == old(self).teardown_targets())) && (old(
                self,
            ).delete_index() + 1 == old(self).teardown_targets().len() ==> (r
                matches Step::Done(res) && res is Ok)))),
    {
        let mut phase = TeardownPhase::Init;
        core::mem::swap(&mut phase, &mut self.phase);
        match phase {
            TeardownPhase::Init => {
                match outcome {
                    Outcome::Succeeded => {
                        self.phase = TeardownPhase::Query;
                        Step::Do(Action::ListVms { node: self.cluster.node.clone(), full: false })
                    },
                    Outcome::Failed { error } => self.fail(error),
                    _ => self.fail(String::from_str("Unexpected reply")),
                }
            },
            TeardownPhase::Query => {
                match outcome {
                    Outcome::Vms { vms } => {
                        let existing = existing_nodes(&self.cluster, &vms);
                        self.enter_shutdown(repo, existing, 0)
                    },
                    Outcome::Failed { error } => self.fail(error),
                    _ => self.fail(String::from_str("Unexpected reply")),
                }
            },
            TeardownPhase::ShutdownAll { existing, e } => {
                proof {
                    assert(e < existing@.len());
                }
                match outcome {
                    Outcome::Succeeded => {
                        let id = existing[e].vm_id;
                        repo.save_log(
                            LogEntry::info(
                                self.cluster.cluster_name.as_str(),
                                msg_num("Requested VM [", id as u64, "] to shutdown"),
                            ),
                        );
                        let ne = existing.len();
                        proof {
                            assert(e < ne);
                        }
                        self.enter_shutdown(repo, existing, e + 1)
                    },
                    Outcome::Failed { error } => {
                        let id = existing[e].vm_id;
                        let mut m = msg_num("Shutdown VM [", id as u64, "], error: [");
                        m.append(error.as_str());
                        m.append("]");
                        self.fail(m)
                    },
                    _ => self.fail(String::from_str("Unexpected reply")),
                }
            },
            TeardownPhase::WaitAll { existing, e, forced, mut poll } => {
                proof {
                    assert(e < existing@.len());
                }
                match outcome {
                    Outcome::Power { status } => {
                        match status {
                            crate::proxmox::VmStatus::Stopped => {
                                let ne = existing.len();
                                proof {
                                    assert(e < ne);
                                }
                                self.enter_wait(repo, existing, e + 1)
                            },
                            crate::proxmox::VmStatus::Running => {
                                if poll.consume() {
                                    self.phase = TeardownPhase::WaitAll {
                                        existing,
                                        e,
                                        forced,
                                        poll,
                                    };
                                    Step::Do(Action::Sleep { seconds: RETRY_DELAY_SECS })
                                } else if !forced {
                                    let id = existing[e].vm_id;
                                    repo.save_log(
                                        LogEntry::info(
                                            self.cluster.cluster_name.as_str(),
                                            msg_num(
                                                "VM [",
                                                id as u64,
                                                "] cannot be shouted down gracefully, stop VM imminently",
                                            ),
                                        ),
                                    );
                                    let a = Action::StopVm {
                                        node: self.cluster.node.clone(),
                                        vm_id: id,
                                    };
                                    self.phase = TeardownPhase::WaitAll {
                                        existing,
                                        e,
                                        forced: true,
                                        poll: Poll::new(),
                                    };
                                    Step::Do(a)
                                } else {
                                    // Even the forced stop timed out: the VM
                                    // is deleted regardless.
                                    let ne = existing.len();
                                    proof {
                                        assert(e < ne);
                                    }
                                    self.enter_wait(repo, existing, e + 1)
                                }
                            },
                        }
                    },
                    Outcome::Succeeded => {
                        let id = existing[e].vm_id;
                        let a = Action::VmPowerState {
                            node: self.cluster.node.clone(),
                            vm_id: id,
                        };
                        self.phase = TeardownPhase::WaitAll { existing, e, forced, poll };
                        Step::Do(a)
                    },
                    Outcome::Failed { error } => {
                        let id = existing[e].vm_id;
                        let mut m = msg_num("Status VM ", id as u64, ", error: ");
                        m.append(error.as_str());
                        self.fail(m)
                    },
                    _ => self.fail(String::from_str("Unexpected reply")),
                }
            },
            TeardownPhase::DeleteAll { existing, e } => {
                proof {
                    assert(e < existing@.len());
                }
                match outcome {
                    Outcome::Succeeded => {
                        let id = existing[e].vm_id;
                        repo.save_log(
                            LogEntry::info(
                                self.cluster.cluster_name.as_str(),
                                msg_num("VM [", id as u64, "] has been deleted"),
                            ),
                        );
                        let ne = existing.len();
                        proof {
                            assert(e < ne);
                        }
                        self.enter_delete(repo, existing, e + 1)
                    },
                    Outcome::Failed { error } => {
                        let id = existing[e].vm_id;
                        let mut m = msg_num("Delete VM [", id as u64, "], error: [");
                        m.append(error.as_str());
                        m.append("]");
                        self.fail(m)
                    },
                    _ => self.fail(String::from_str("Unexpected reply")),
                }
            },
            TeardownPhase::Finished => {
                self.phase = TeardownPhase::Finished;
                Step::Done(Err(String::from_str("Workflow already finished")))
            },
        }
    }
}

} // verus!
