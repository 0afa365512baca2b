//! Two reusable workflow machines: creating one VM (image resolution and
//! download, VM creation, config-lock wait, disk resize) and stopping one VM
//! (graceful shutdown escalating to a forced stop within the poll budget).
use crate::model::{Cluster, LogEntry};
use crate::plans;
use crate::store::Repository;
use crate::text::{msg_num, str_ends_with};
use crate::workflow::{vm_locked, Action, Outcome, Poll, RETRY_DELAY_SECS};
use vstd::prelude::*;

verus! {

/// What a sub-machine answers per step: the next action, completion, or a
/// failure with its description.
#[derive(Debug)]
pub enum SubStep {
    Do(Action),
    Done,
    Fail(String),
}

/// Phases of creating one VM.
#[derive(Debug)]
enum VmCreatePhase {
    /// Nothing happened yet.
    Init,
    /// Waiting for a storage listing to show the OS image.
    QueryImage { file_name: String, downloading: bool, poll: Poll },
    /// Waiting for the image volume's filesystem path.
    GetPath,
    /// Waiting for the VM creation call.
    Creating,
    /// Waiting for the hypervisor's config lock on the new VM to clear.
    WaitUnlock { poll: Poll },
    /// Waiting for the disk resize call.
    Resizing,
    /// The VM stands created and resized.
    Finished,
}

/// The machine creating one VM of a cluster: locate or download the OS
/// image, create the VM from it, wait out the config lock, grow the disk.
#[derive(Debug)]
pub struct VmCreateFlow {
    phase: VmCreatePhase,
}

/// The image URL a cluster record configures, with the historical fallback
/// for records predating the field.
pub open spec fn spec_image_url(c: crate::model::ClusterView) -> Seq<char> {
    match c.os_image {
        Some(u) => u,
        None => "https://cloud-images.ubuntu.com/kinetic/current/kinetic-server-cloudimg-amd64.img"@,
    }
}

/// The image storage a cluster record configures, with the historical
/// fallback.
pub open spec fn spec_image_storage(c: crate::model::ClusterView) -> Seq<char> {
    match c.os_image_storage {
        Some(s) => s,
        None => "local"@,
    }
}

/// The configured image URL, with the historical fallback for records
/// predating the field.
fn image_url(cluster: &Cluster) -> (r: String)
    ensures
        r@ == spec_image_url(cluster@),
{
    match &cluster.os_image {
        Some(u) => u.clone(),
        None => String::from_str(
            "https://cloud-images.ubuntu.com/kinetic/current/kinetic-server-cloudimg-amd64.img",
        ),
    }
}

/// The configured image storage, with the historical fallback.
fn image_storage(cluster: &Cluster) -> (r: String)
    ensures
        r@ == spec_image_storage(cluster@),
{
    match &cluster.os_image_storage {
        Some(s) => s.clone(),
        None => String::from_str("local"),
    }
}

/// The first listed volume whose id ends with the image file name.
fn find_image_volid(items: &Vec<crate::proxmox::StorageContent>, file_name: &str) -> (r: Option<
    String,
>)
    ensures
        match r {
            Some(v) => exists|k: int|
                0 <= k < items@.len() && #[trigger] items@[k].volid@ == v@
                    && crate::text::spec_ends_with(items@[k].volid@, file_name@),
            None => forall|k: int|
                0 <= k < items@.len() ==> !crate::text::spec_ends_with(
                    (#[trigger] items@[k]).volid@,
                    file_name@,
                ),
        },
{
    let mut k: usize = 0;
    while k < items.len()
        invariant
            k <= items@.len(),
            forall|j: int|
                0 <= j < k ==> !crate::text::spec_ends_with(
                    (#[trigger] items@[j]).volid@,
                    file_name@,
                ),
        decreases items@.len() - k,
    {
        if str_ends_with(items[k].volid.as_str(), file_name) {
            let v = items[k].volid.clone();
            proof {
                assert(items@[k as int].volid@ == v@ && crate::text::spec_ends_with(
                    items@[k as int].volid@,
                    file_name@,
                ));
            }
            return Some(v);
        }
        k = k + 1;
    }
    None
}

impl VmCreateFlow {
    /// A machine that has done nothing yet; the first `step` call (with
    /// `Outcome::Succeeded`) asks for the storage listing.
    pub fn new() -> (r: Self)
        ensures
            r.fresh(),
    {
        VmCreateFlow { phase: VmCreatePhase::Init }
    }

    /// Whether the machine has not acted yet.
    pub closed spec fn fresh(&self) -> bool {
        self.phase is Init
    }

    /// Whether the machine has finished its VM.
    pub closed spec fn finished(&self) -> bool {
        self.phase is Finished
    }

    /// Whether the machine awaits a storage listing for the OS image.
    pub closed spec fn querying_image(&self) -> bool {
        self.phase is QueryImage
    }

    /// Whether an image download was already requested.
    pub closed spec fn downloading(&self) -> bool {
        match self.phase {
            VmCreatePhase::QueryImage { downloading, .. } => downloading,
            _ => false,
        }
    }

    /// The image file name looked for, while one is.
    pub closed spec fn image_file(&self) -> Seq<char> {
        match self.phase {
            VmCreatePhase::QueryImage { file_name, .. } => file_name@,
            _ => Seq::empty(),
        }
    }

    /// Whether the machine awaits the image volume's path.
    pub closed spec fn awaiting_path(&self) -> bool {
        self.phase is GetPath
    }

    /// Whether the machine awaits the config-lock listing.
    pub closed spec fn awaiting_unlock(&self) -> bool {
        self.phase is WaitUnlock
    }

    /// The poll attempts left while a download is awaited.
    pub closed spec fn image_attempts(&self) -> u64 {
        match self.phase {
            VmCreatePhase::QueryImage { poll, .. } => poll.attempts_left,
            _ => 0,
        }
    }

    /// The poll attempts left in the config-lock wait.
    pub closed spec fn unlock_attempts(&self) -> u64 {
        match self.phase {
            VmCreatePhase::WaitUnlock { poll } => poll.attempts_left,
            _ => 0,
        }
    }

    /// Advances the creation of node `node_idx` by one outcome. Never asks
    /// for a VM deletion or a stop, and never touches any other VM than the
    /// node's own.
    pub fn step(
        &mut self,
        repo: &mut Repository,
        cluster: &Cluster,
        node_idx: usize,
        outcome: Outcome,
    ) -> (r: SubStep)
        requires
            node_idx < cluster@.nodes.len(),
        ensures
            r matches SubStep::Do(a) ==> !(a is DeleteVm) && !(a is StopVm) && !(a is ShutdownVm),
            final (repo).clusters_view() == old(repo).clusters_view(),
            r is Done ==> final (self).finished(),
            outcome is Failed ==> !(r is Done),
            old(self).querying_image() ==> (outcome matches Outcome::StorageItems { items } ==> ((
            !old(self).downloading() && (forall|k: int|
                0 <= k < items@.len() ==> !crate::text::spec_ends_with(
                    (#[trigger] items@[k]).volid@,
                    old(self).image_file(),
                )) ==> (r matches SubStep::Do(a) && a matches Action::DownloadImage { spec }
                && spec.url@ == spec_image_url(cluster@) && spec.storage@ == spec_image_storage(
                cluster@,
            ) && spec.filename@ == old(self).image_file() && spec.node@ == cluster@.node)) && ((
            exists|k: int|
                0 <= k < items@.len() && crate::text::spec_ends_with(
                    (#[trigger] items@[k]).volid@,
                    old(self).image_file(),
                )) ==> (r matches SubStep::Do(a) && a matches Action::StoragePath {
                node,
                storage,
                volid,
            } && crate::text::spec_ends_with(volid@, old(self).image_file()) && storage@
                == spec_image_storage(cluster@) && node@ == cluster@.node)))),
            old(self).querying_image() ==> (outcome is Succeeded ==> (r matches SubStep::Do(a)
                && (a matches Action::ListStorageContent { node, storage } && node@
                == cluster@.node && storage@ == spec_image_storage(cluster@)) && final (
            self).querying_image() && final (self).downloading() == old(self).downloading()
                && final (self).image_file() == old(self).image_file() && final (
            self).image_attempts() == old(self).image_attempts())),
            old(self).awaiting_path() ==> (outcome matches Outcome::Output { text } ==> (r
                matches SubStep::Do(a) && a matches Action::CreateVm { spec }
                && crate::plans::spec_vm_spec(
                spec,
                cluster@,
                cluster.nodes@[node_idx as int]@,
                text@,
            ))),
            old(self).awaiting_unlock() ==> (outcome matches Outcome::Vms { vms } ==> (
            !crate::workflow::spec_vm_locked(vms@, cluster.nodes@[node_idx as int]@.vm_id) ==> (r
                matches SubStep::Do(a) && a matches Action::ResizeDisk { spec } && spec.vm_id
                == cluster.nodes@[node_idx as int]@.vm_id && spec.node@ == cluster@.node
                && spec.disk@ == "scsi0"@ && spec.size@ == crate::text::spec_dec(
                cluster@.disk_size as nat,
            ) + "G"@))),
            old(self).awaiting_unlock() ==> (outcome matches Outcome::Vms { vms } ==> (
            crate::workflow::spec_vm_locked(vms@, cluster.nodes@[node_idx as int]@.vm_id) ==> ((
            old(self).unlock_attempts() > 0 ==> (r matches SubStep::Do(a) && (a
                matches Action::Sleep { seconds } && seconds == RETRY_DELAY_SECS) && final (
            self).awaiting_unlock() && final (self).unlock_attempts() == old(
                self,
            ).unlock_attempts() - 1)) && (old(self).unlock_attempts() == 0 ==> r is Fail)))),
    {
        let node = &cluster.nodes[node_idx];
        let vm_id = node.vm_id;
        match outcome {
            Outcome::Failed { error } => {
                // Availability probes are retried within the budget while a
                // download is pending; anything else aborts this VM.
                let mut phase = VmCreatePhase::Init;
                core::mem::swap(&mut phase, &mut self.phase);
                match phase {
                    VmCreatePhase::QueryImage { file_name, downloading, mut poll } => {
                        if downloading && poll.consume() {
                            self.phase = VmCreatePhase::QueryImage {
                                file_name,
                                downloading: true,
                                poll,
                            };
                            SubStep::Do(Action::Sleep { seconds: RETRY_DELAY_SECS })
                        } else {
                            SubStep::Fail(
                                crate::text::msg_text(
                                    "Cannot check image availability [",
                                    error.as_str(),
                                    "]",
                                ),
                            )
                        }
                    },
                    _ => SubStep::Fail(error),
                }
            },
            Outcome::Succeeded => {
                let mut phase = VmCreatePhase::Init;
                core::mem::swap(&mut phase, &mut self.phase);
                match phase {
                    VmCreatePhase::Init => {
                        let url = image_url(cluster);
                        match plans::file_name_of(url.as_str()) {
                            Ok(file_name) => {
                                let storage = image_storage(cluster);
                                self.phase = VmCreatePhase::QueryImage {
                                    file_name,
                                    downloading: false,
                                    poll: Poll::new(),
                                };
                                SubStep::Do(
                                    Action::ListStorageContent {
                                        node: cluster.node.clone(),
                                        storage,
                                    },
                                )
                            },
                            Err(e) => SubStep::Fail(e),
                        }
                    },
                    VmCreatePhase::QueryImage { file_name, downloading, poll } => {
                        // A download was accepted or a sleep elapsed: probe
                        // the storage again.
                        let storage = image_storage(cluster);
                        self.phase = VmCreatePhase::QueryImage { file_name, downloading, poll };
                        SubStep::Do(
                            Action::ListStorageContent { node: cluster.node.clone(), storage },
                        )
                    },
                    VmCreatePhase::Creating => {
                        self.phase = VmCreatePhase::WaitUnlock { poll: Poll::new() };
                        SubStep::Do(Action::ListVms { node: cluster.node.clone(), full: true })
                    },
                    VmCreatePhase::Resizing => {
                        self.phase = VmCreatePhase::Finished;
                        SubStep::Done
                    },
                    _ => SubStep::Fail(String::from_str("Unexpected reply while creating a VM")),
                }
            },
            Outcome::StorageItems { items } => {
                let mut phase = VmCreatePhase::Init;
                core::mem::swap(&mut phase, &mut self.phase);
                match phase {
                    VmCreatePhase::QueryImage { file_name, downloading, mut poll } => {
                        match find_image_volid(&items, file_name.as_str()) {
                            Some(volid) => {
                                if downloading {
                                    repo.save_log(
                                        LogEntry::info(
                                            cluster.cluster_name.as_str(),
                                            crate::text::msg_text(
                                                "OS image has been downloaded [",
                                                file_name.as_str(),
                                                "]",
                                            ),
                                        ),
                                    );
                                }
                                let storage = image_storage(cluster);
                                self.phase = VmCreatePhase::GetPath;
                                SubStep::Do(
                                    Action::StoragePath {
                                        node: cluster.node.clone(),
                                        storage,
                                        volid,
                                    },
                                )
                            },
                            None => {
                                if !downloading {
                                    let storage = image_storage(cluster);
                                    let url = image_url(cluster);
                                    let spec = plans::build_download_spec(
                                        cluster.node.as_str(),
                                        storage.as_str(),
                                        url.as_str(),
                                        file_name.as_str(),
                                    );
                                    self.phase = VmCreatePhase::QueryImage {
                                        file_name,
                                        downloading: true,
                                        poll,
                                    };
                                    SubStep::Do(Action::DownloadImage { spec })
                                } else if poll.consume() {
                                    self.phase = VmCreatePhase::QueryImage {
                                        file_name,
                                        downloading: true,
                                        poll,
                                    };
                                    SubStep::Do(Action::Sleep { seconds: RETRY_DELAY_SECS })
                                } else {
                                    SubStep::Fail(String::from_str("Cannot download os image"))
                                }
                            },
                        }
                    },
                    _ => SubStep::Fail(String::from_str("Unexpected storage listing")),
                }
            },
            Outcome::Output { text } => {
                let mut phase = VmCreatePhase::Init;
                core::mem::swap(&mut phase, &mut self.phase);
                match phase {
                    VmCreatePhase::GetPath => {
                        let spec = plans::build_vm_spec(cluster, node, text.as_str());
                        self.phase = VmCreatePhase::Creating;
                        SubStep::Do(Action::CreateVm { spec })
                    },
                    _ => SubStep::Fail(String::from_str("Unexpected volume path reply")),
                }
            },
            Outcome::Vms { vms } => {
                let mut phase = VmCreatePhase::Init;
                core::mem::swap(&mut phase, &mut self.phase);
                match phase {
                    VmCreatePhase::WaitUnlock { mut poll } => {
                        if !vm_locked(&vms, vm_id) {
                            let spec = plans::build_resize_spec(
                                cluster.node.as_str(),
                                vm_id,
                                cluster.disk_size,
                            );
                            self.phase = VmCreatePhase::Resizing;
                            SubStep::Do(Action::ResizeDisk { spec })
                        } else if poll.consume() {
                            self.phase = VmCreatePhase::WaitUnlock { poll };
                            SubStep::Do(Action::Sleep { seconds: RETRY_DELAY_SECS })
                        } else {
                            SubStep::Fail(msg_num("VM [", vm_id as u64, "] is locked"))
                        }
                    },
                    _ => SubStep::Fail(String::from_str("Unexpected VM listing")),
                }
            },
            _ => SubStep::Fail(String::from_str("Unexpected reply while creating a VM")),
        }
    }
}

/// Phases of stopping one VM.
#[derive(Debug)]
enum StopPhase {
    /// Nothing happened yet.
    Init,
    /// A shutdown (or forced stop) was requested; polling the power state.
    Waiting { forced: bool, poll: Poll },
    /// The VM reported stopped.
    Finished,
}

/// What a stop machine answers per step.
#[derive(Debug)]
pub enum StopStep {
    Do(Action),
    /// The VM is down; `graceful` tells whether force was needed. When the
    /// machine tolerates a timeout, the VM may still be running here.
    Done { graceful: bool },
    Fail(String),
}

/// The machine stopping one VM: ask for a graceful shutdown, poll the power
/// state within the budget, escalate to a forced stop, and either fail or —
/// for teardown flows — carry on when even that times out.
#[derive(Debug)]
pub struct StopVmFlow {
    hv_node: String,
    vm_id: u32,
    /// Whether a final timeout is tolerated instead of failing (teardown
    /// flows delete the VM regardless).
    tolerate_timeout: bool,
    phase: StopPhase,
}

impl StopVmFlow {
    /// A machine that will stop `vm_id` on `hv_node`; the first `step` call
    /// (with `Outcome::Succeeded`) asks for the graceful shutdown.
    pub fn new(hv_node: String, vm_id: u32, tolerate_timeout: bool) -> (r: Self)
        ensures
            r.fresh(),
            r.target_vm() == vm_id,
            r.hv() == hv_node@,
            r.tolerates() == tolerate_timeout,
    {
        StopVmFlow { hv_node, vm_id, tolerate_timeout, phase: StopPhase::Init }
    }

    /// Whether the machine has not acted yet.
    pub closed spec fn fresh(&self) -> bool {
        self.phase is Init
    }

    /// Whether the machine is polling the power state.
    pub closed spec fn waiting(&self) -> bool {
        self.phase is Waiting
    }

    /// Whether the machine has already escalated to a forced stop.
    pub closed spec fn forced(&self) -> bool {
        match self.phase {
            StopPhase::Waiting { forced, .. } => forced,
            _ => false,
        }
    }

    /// The poll attempts left in the current wait.
    pub closed spec fn attempts(&self) -> u64 {
        match self.phase {
            StopPhase::Waiting { poll, .. } => poll.attempts_left,
            _ => 0,
        }
    }

    /// The VM this machine stops.
    pub closed spec fn target_vm(&self) -> u32 {
        self.vm_id
    }

    /// The hypervisor node hosting the VM.
    pub closed spec fn hv(&self) -> Seq<char> {
        self.hv_node@
    }

    /// Whether a final timeout is tolerated instead of failing.
    pub closed spec fn tolerates(&self) -> bool {
        self.tolerate_timeout
    }

    /// Advances the stop by one outcome. Never asks for a VM deletion or
    /// creation; asks for the graceful shutdown first, polls the power
    /// state within the budget, escalates to a forced stop exactly when the
    /// graceful budget is spent, and ends (or, in teardown mode, carries
    /// on) only after the forced budget is spent too.
    pub fn step(&mut self, outcome: Outcome) -> (r: StopStep)
        ensures
            r matches StopStep::Do(a) ==> !(a is DeleteVm) && !(a is CreateVm),
            r is Do ==> final (self).waiting(),
            final (self).target_vm() == old(self).target_vm(),
            final (self).hv() == old(self).hv(),
            final (self).tolerates() == old(self).tolerates(),
            old(self).fresh() ==> (outcome is Succeeded ==> (r matches StopStep::Do(a) && a
                matches Action::ShutdownVm { node, vm_id } && node@ == old(self).hv() && vm_id
                == old(self).target_vm() && final (self).waiting() && !final (self).forced())),
            old(self).waiting() ==> (outcome is Succeeded ==> (r matches StopStep::Do(a) && a
                matches Action::VmPowerState { node, vm_id } && node@ == old(self).hv() && vm_id
                == old(self).target_vm() && final (self).waiting() && final (self).forced() == old(
                self,
            ).forced() && final (self).attempts() == old(self).attempts())),
            old(self).waiting() ==> (outcome matches Outcome::Power { status } ==> (status
                is Stopped ==> (r matches StopStep::Done { graceful } && graceful == !old(
                self,
            ).forced()))),
            old(self).waiting() ==> (outcome matches Outcome::Power { status } ==> (status
                is Running ==> ((old(self).attempts() > 0 ==> (r matches StopStep::Do(a) && a
                matches Action::Sleep { seconds } && seconds == RETRY_DELAY_SECS && final (
            self).waiting() && final (self).forced() == old(self).forced() && final (
            self).attempts() == old(self).attempts() - 1)) && (old(self).attempts() == 0 && !old(
                self,
            ).forced() ==> (r matches StopStep::Do(a) && a matches Action::StopVm { node, vm_id }
                && node@ == old(self).hv() && vm_id == old(self).target_vm() && final (
            self).waiting() && final (self).forced() && final (self).attempts()
                == crate::workflow::RETRY_ATTEMPTS)) && (old(self).attempts() == 0 && old(
                self,
            ).forced() && old(self).tolerates() ==> (r matches StopStep::Done { graceful }
                && !graceful)) && (old(self).attempts() == 0 && old(self).forced() && !old(
                self,
            ).tolerates() ==> r is Fail)))),
            outcome is Failed ==> r is Fail,
    {
        match outcome {
            Outcome::Succeeded => {
                let mut phase = StopPhase::Init;
                core::mem::swap(&mut phase, &mut self.phase);
                match phase {
                    StopPhase::Init => {
                        self.phase = StopPhase::Waiting { forced: false, poll: Poll::new() };
                        StopStep::Do(
                            Action::ShutdownVm { node: self.hv_node.clone(), vm_id: self.vm_id },
                        )
                    },
                    StopPhase::Waiting { forced, poll } => {
                        self.phase = StopPhase::Waiting { forced, poll };
                        StopStep::Do(
                            Action::VmPowerState { node: self.hv_node.clone(), vm_id: self.vm_id },
                        )
                    },
                    StopPhase::Finished => StopStep::Done { graceful: true },
                }
            },
            Outcome::Power { status } => {
                let mut phase = StopPhase::Init;
                core::mem::swap(&mut phase, &mut self.phase);
                match phase {
                    StopPhase::Waiting { forced, mut poll } => {
                        match status {
                            crate::proxmox::VmStatus::Stopped => {
                                self.phase = StopPhase::Finished;
                                StopStep::Done { graceful: !forced }
                            },
                            crate::proxmox::VmStatus::Running => {
                                if poll.consume() {
                                    self.phase = StopPhase::Waiting { forced, poll };
                                    StopStep::Do(Action::Sleep { seconds: RETRY_DELAY_SECS })
                                } else if !forced {
                                    self.phase = StopPhase::Waiting {
                                        forced: true,
                                        poll: Poll::new(),
                                    };
                                    StopStep::Do(
                                        Action::StopVm {
                                            node: self.hv_node.clone(),
                                            vm_id: self.vm_id,
                                        },
                                    )
                                } else if self.tolerate_timeout {
                                    self.phase = StopPhase::Finished;
                                    StopStep::Done { graceful: false }
                                } else {
                                    StopStep::Fail(
                                        msg_num("Cannot shutdown VM [", self.vm_id as u64, "]"),
                                    )
                                }
                            },
                        }
                    },
                    _ => StopStep::Fail(String::from_str("Unexpected power state reply")),
                }
            },
            Outcome::Failed { error } => {
                let mut m = msg_num("Status VM ", self.vm_id as u64, ", error: ");
                m.append(error.as_str());
                StopStep::Fail(m)
            },
            _ => StopStep::Fail(String::from_str("Unexpected reply while stopping a VM")),
        }
    }
}

} // verus!
