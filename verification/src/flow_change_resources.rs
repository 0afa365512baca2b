//! The ChangeNodeResources workflow: push the new cores/memory configuration
//! to the hypervisor, power-cycle the VM (graceful stop escalating to a
//! forced one, then start), and persist the new values onto the node record.
use crate::flow_vm::{StopStep, StopVmFlow};
use crate::model::{Cluster, LogEntry};
use crate::proxmox::VmConfig;
use crate::store::Repository;
use crate::store::{has_cluster, spec_get, spec_save};
use crate::workflow::{find_node_index, Action, Outcome, Step};
use vstd::prelude::*;

verus! {

/// Phases of the ChangeNodeResources workflow.
#[derive(Debug)]
enum ResizePhase {
    /// Nothing happened yet.
    Init,
    /// Waiting for the configuration update call.
    Updating,
    /// Stopping the VM for the new configuration to take effect.
    Stopping { sub: StopVmFlow },
    /// Waiting for the start call.
    Starting,
    /// The workflow ended.
    Finished,
}

/// `cv` with every node carrying `node` resized to the given cores and
/// memory.
pub open spec fn resized_record(
    cv: crate::model::ClusterView,
    node: Seq<char>,
    cores: u16,
    memory: u32,
) -> crate::model::ClusterView {
    crate::model::ClusterView {
        nodes: cv.nodes.map_values(crate::model::resize_fn(node, cores, memory)),
        ..cv
    }
}

/// The ChangeNodeResources workflow machine.
#[derive(Debug)]
pub struct ChangeResourcesFlow {
    cluster: Cluster,
    node_name: String,
    node_idx: usize,
    cores: u16,
    /// Unit: MiB
    memory: u32,
    phase: ResizePhase,
}

impl ChangeResourcesFlow {
    /// The machine's internal consistency.
    pub closed spec fn inv(&self) -> bool {
        self.phase is Init || self.phase is Finished || (self.node_idx
            < self.cluster.nodes@.len() && (self.phase matches ResizePhase::Stopping { sub } ==> (
        sub.waiting() && !sub.tolerates() && sub.target_vm() == self.cluster.nodes@[self.node_idx
            as int]@.vm_id)))
    }

    /// Whether the machine has not acted yet.
    pub closed spec fn fresh(&self) -> bool {
        self.phase is Init
    }

    /// The record this workflow works on.
    pub closed spec fn cluster_view(&self) -> crate::model::ClusterView {
        self.cluster@
    }

    /// The name of the cluster being resized.
    pub closed spec fn cluster_name_view(&self) -> Seq<char> {
        self.cluster.cluster_name@
    }

    /// The name of the node being resized.
    pub closed spec fn node_name_view(&self) -> Seq<char> {
        self.node_name@
    }

    /// The requested core count.
    pub closed spec fn requested_cores(&self) -> u16 {
        self.cores
    }

    /// The requested memory (MiB).
    pub closed spec fn requested_memory(&self) -> u32 {
        self.memory
    }

    /// Whether the machine awaits the configuration update call.
    pub closed spec fn updating(&self) -> bool {
        self.phase is Updating
    }

    /// Whether the machine is stopping the VM for the power cycle.
    pub closed spec fn stopping(&self) -> bool {
        self.phase is Stopping
    }

    /// Whether the machine awaits the start call of the power cycle.
    pub closed spec fn starting(&self) -> bool {
        self.phase is Starting
    }

    /// The resized node's VM id (meaningful once the node was found).
    pub closed spec fn target_vm(&self) -> u32 {
        self.cluster.nodes@[self.node_idx as int]@.vm_id
    }

    /// Whether the embedded stop machine has escalated to a forced stop.
    pub closed spec fn stop_forced(&self) -> bool {
        match self.phase {
            ResizePhase::Stopping { sub } => sub.forced(),
            _ => false,
        }
    }

    /// The embedded stop machine's remaining poll attempts.
    pub closed spec fn stop_attempts(&self) -> u64 {
        match self.phase {
            ResizePhase::Stopping { sub } => sub.attempts(),
            _ => 0,
        }
    }

    /// A workflow resizing `node_name` of the given cluster record; the
    /// first `step` call (with `Outcome::Succeeded`) starts it.
    pub fn new(cluster: Cluster, node_name: String, cores: u16, memory: u32) -> (r: Self)
        ensures
            r.inv(),
    {
        ChangeResourcesFlow {
            cluster,
            node_name,
            node_idx: 0,
            cores,
            memory,
            phase: ResizePhase::Init,
        }
    }

    /// Fails the workflow with the given error text.
    fn fail(&mut self, e: String) -> (r: Step)
        ensures
            final (self).inv(),
            r matches Step::Done(res) && res is Err,
    {
        self.phase = ResizePhase::Finished;
        Step::Done(Err(e))
    }

    /// Advances the workflow by one outcome.
    pub fn step(&mut self, repo: &mut Repository, outcome: Outcome) -> (r: Step)
        requires
            old(self).inv(),
        ensures
            final (self).inv(),
            outcome is Failed ==> (r matches Step::Done(res) && res is Err),
            old(self).fresh() ==> (outcome is Succeeded ==> ((crate::model::has_node(
                old(self).cluster_view().nodes,
                old(self).node_name_view(),
            ) ==> (r matches Step::Do(a) && a matches Action::UpdateVmConfig { spec }
                && spec.cores == old(self).requested_cores() && spec.memory == old(
                self,
            ).requested_memory() as u64 && spec.node@ == old(self).cluster_view().node && (exists|
                i: int,
            |
                0 <= i < old(self).cluster_view().nodes.len() && (#[trigger] old(
                    self,
                ).cluster_view().nodes[i]).name == old(self).node_name_view() && spec.vm_id == old(
                    self,
                ).cluster_view().nodes[i].vm_id))) && (!crate::model::has_node(
                old(self).cluster_view().nodes,
                old(self).node_name_view(),
            ) ==> (r matches Step::Done(res) && res is Err)))),
            r matches Step::Done(res) ==> (res is Ok ==> (spec_get(
                final (repo).clusters_view(),
                old(self).cluster_name_view(),
            ) matches Some(cv) && (forall|i: int|
                0 <= i < cv.nodes.len() && (#[trigger] cv.nodes[i]).name == old(
                    self,
                ).node_name_view() ==> cv.nodes[i].cores == old(self).requested_cores()
                    && cv.nodes[i].memory == old(self).requested_memory()))),
            old(self).updating() ==> (outcome is Succeeded ==> (r matches Step::Do(a) && (a
                matches Action::ShutdownVm { node, vm_id } && vm_id == old(self).target_vm()
                && node@ == old(self).cluster_view().node) && final (self).stopping() && !final (
            self).stop_forced())),
            old(self).stopping() ==> (outcome is Succeeded ==> (r matches Step::Do(a) && (a
                matches Action::VmPowerState { node, vm_id } && vm_id == old(self).target_vm())
                && final (self).stopping())),
            old(self).stopping() ==> (outcome matches Outcome::Power { status } ==> (status
                is Stopped ==> (r matches Step::Do(a) && (a matches Action::StartVm {
                node,
                vm_id,
            } && vm_id == old(self).target_vm()) && final (self).starting()))),
            old(self).stopping() ==> (outcome matches Outcome::Power { status } ==> (status
                is Running ==> ((old(self).stop_attempts() > 0 ==> (r matches Step::Do(a) && a
                is Sleep && final (self).stopping() && final (self).stop_forced() == old(
                self,
            ).stop_forced() && final (self).stop_attempts() == old(self).stop_attempts() - 1)) && (
            old(self).stop_attempts() == 0 && !old(self).stop_forced() ==> (r
                matches Step::Do(a) && (a matches Action::StopVm { node, vm_id } && vm_id == old(
                self,
            ).target_vm()) && final (self).stopping() && final (self).stop_forced())) && (old(
                self,
            ).stop_attempts() == 0 && old(self).stop_forced() ==> (r matches Step::Done(res)
                && res is Err))))),
            old(self).starting() ==> (outcome is Succeeded ==> ((has_cluster(
                old(repo).clusters_view(),
                old(self).cluster_name_view(),
            ) ==> (r matches Step::Done(res) && res is Ok && final (repo).clusters_view() =~~= spec_save(
                old(repo).clusters_view(),
                resized_record(
                    spec_get(old(repo).clusters_view(), old(self).cluster_name_view())->0,
                    old(self).node_name_view(),
                    old(self).requested_cores(),
                    old(self).requested_memory(),
                ),
            ))) && (!has_cluster(
                old(repo).clusters_view(),
                old(self).cluster_name_view(),
            ) ==> (r matches Step::Done(res) && res is Err)))),
            r matches Step::Done(res) ==> (res is Err ==> final (repo).clusters_view() == old(
                repo,
            ).clusters_view()),
    {
        let mut phase = ResizePhase::Init;
        core::mem::swap(&mut phase, &mut self.phase);
        match phase {
            ResizePhase::Init => {
                match outcome {
                    Outcome::Succeeded => {
                        repo.save_log(
                            LogEntry::info(
                                self.cluster.cluster_name.as_str(),
                                String::from_str("Start creating cluster"),
                            ),
                        );
                        let idx = match find_node_index(
                            &self.cluster.nodes,
                            self.node_name.as_str(),
                        ) {
                            Some(i) => i,
                            None => {
                                proof {
                                    assert(!crate::model::has_node(
                                        self.cluster@.nodes,
                                        self.node_name@,
                                    ));
                                }
                                return self.fail(String::from_str("Cannot find node to create"));
                            },
                        };
                        proof {
                            assert(self.cluster@.nodes[idx as int].name == self.node_name@);
                            assert(crate::model::has_node(self.cluster@.nodes, self.node_name@));
                        }
                        self.node_idx = idx;
                        let spec = VmConfig {
                            vm_id: self.cluster.nodes[idx].vm_id,
                            node: self.cluster.node.clone(),
                            cores: self.cores,
                            memory: self.memory as u64,
                        };
                        self.phase = ResizePhase::Updating;
                        Step::Do(Action::UpdateVmConfig { spec })
                    },
                    Outcome::Failed { error } => self.fail(error),
                    _ => self.fail(String::from_str("Unexpected reply")),
                }
            },
            ResizePhase::Updating => {
                match outcome {
                    Outcome::Succeeded => {
                        let id = self.cluster.nodes[self.node_idx].vm_id;
                        let mut sub = StopVmFlow::new(self.cluster.node.clone(), id, false);
                        match sub.step(Outcome::Succeeded) {
                            StopStep::Do(a) => {
                                self.phase = ResizePhase::Stopping { sub };
                                Step::Do(a)
                            },
                            StopStep::Fail(e) => self.fail(e),
                            StopStep::Done { .. } => self.fail(
                                String::from_str("Stop ended before it began"),
                            ),
                        }
                    },
                    Outcome::Failed { error } => self.fail(error),
                    _ => self.fail(String::from_str("Unexpected reply")),
                }
            },
            ResizePhase::Stopping { mut sub } => {
                match sub.step(outcome) {
                    StopStep::Do(a) => {
                        self.phase = ResizePhase::Stopping { sub };
                        Step::Do(a)
                    },
                    StopStep::Fail(e) => self.fail(e),
                    StopStep::Done { .. } => {
                        let id = self.cluster.nodes[self.node_idx].vm_id;
                        self.phase = ResizePhase::Starting;
                        Step::Do(Action::StartVm { node: self.cluster.node.clone(), vm_id: id })
                    },
                }
            },
            ResizePhase::Starting => {
                match outcome {
                    Outcome::Succeeded => {
                        match repo.get_cluster(self.cluster.cluster_name.as_str()) {
                            Some(stored) => {
                                let ghost pre = repo.clusters_view();
                                let mut stored = stored;
                                let ghost sv = stored@;
                                crate::model::set_node_resources(
                                    &mut stored,
                                    self.node_name.as_str(),
                                    self.cores,
                                    self.memory,
                                );
                                proof {
                                    crate::store::lemma_spec_get_name(
                                        pre,
                                        self.cluster.cluster_name@,
                                    );
                                    assert(stored@.cluster_name == self.cluster.cluster_name@);
                                }
                                let ghost mv = stored@;
                                proof {
                                    assert(mv =~= resized_record(
                                        sv,
                                        self.node_name@,
                                        self.cores,
                                        self.memory,
                                    ));
                                    assert(spec_get(pre, self.cluster.cluster_name@) == Some(sv));
                                }
                                repo.save_cluster(stored);
                                proof {
                                    crate::store::lemma_store_round_trip(pre, mv);
                                    assert(spec_get(
                                        repo.clusters_view(),
                                        self.cluster.cluster_name@,
                                    ) == Some(mv));
                                    assert forall|i: int|
                                        0 <= i < mv.nodes.len() && (#[trigger] mv.nodes[i]).name
                                            == self.node_name@ implies mv.nodes[i].cores
                                        == self.cores && mv.nodes[i].memory == self.memory by {
                                        assert(mv.nodes[i] == crate::model::resize_fn(
                                            self.node_name@,
                                            self.cores,
                                            self.memory,
                                        )(sv.nodes[i]));
                                    }
                                }
                                self.phase = ResizePhase::Finished;
                                Step::Done(Ok(()))
                            },
                            None => self.fail(String::from_str("Cannot find cluster")),
                        }
                    },
                    Outcome::Failed { error } => self.fail(error),
                    _ => self.fail(String::from_str("Unexpected reply")),
                }
            },
            ResizePhase::Finished => {
                self.phase = ResizePhase::Finished;
                Step::Done(Err(String::from_str("Workflow already finished")))
            },
        }
    }
}

} // verus!
