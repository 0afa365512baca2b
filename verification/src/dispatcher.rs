//! The dispatcher: maps one event to its workflow, relays the workflow's
//! actions and outcomes, and reconciles the cluster's durable status when
//! the workflow ends — `Sync` plus an Info entry and a cleared node lock on
//! success, `Error` plus an Error entry (lock kept) on failure, and full
//! record removal when a cluster deletion succeeds.
use crate::event::{Event, EventView};
use crate::flow_add_node::AddNodeFlow;
use crate::flow_change_resources::ChangeResourcesFlow;
use crate::flow_create::CreateClusterFlow;
use crate::flow_delete_cluster::DeleteClusterFlow;
use crate::flow_delete_node::DeleteNodeFlow;
use crate::model::{
    error_entry, first_node_lock, ActionLogLevel, ClusterNodeLock, ClusterState,
    ClusterStatus, ClusterView, LogEntry, LogEntryView,
};
use crate::plans::spec_hostname;
use crate::store::{has_cluster, spec_get, spec_save, Repository};
use crate::text::msg_text;
use crate::workflow::{Outcome, Step};
use vstd::prelude::*;

verus! {

/// `cv` with its status replaced.
pub open spec fn with_status(cv: ClusterView, state: ClusterState, ts: i64) -> ClusterView {
    ClusterView { status: ClusterStatus { state, last_update: ts }, ..cv }
}

/// Whether the stored cluster of `name` exists and sits in `state`.
pub open spec fn stored_state_is(s: Seq<ClusterView>, name: Seq<char>, state: ClusterState) -> bool {
    &&& spec_get(s, name) is Some
    &&& (spec_get(s, name)->0).status.state == state
}

/// Whether the stored cluster of `name` exists with the named node unlocked.
pub open spec fn stored_lock_clear(s: Seq<ClusterView>, name: Seq<char>, node: Seq<char>) -> bool {
    &&& spec_get(s, name) is Some
    &&& first_node_lock((spec_get(s, name)->0).nodes, node) == Some(
        Option::<ClusterNodeLock>::None,
    )
}

/// Whether the newest audit entry is the given one (up to its clock stamp).
pub open spec fn last_log_is(
    log: Seq<LogEntryView>,
    name: Seq<char>,
    message: Seq<char>,
    level: ActionLogLevel,
) -> bool {
    log.len() > 0 && exists|ts: i64|
        log.last() == #[trigger] crate::model::log_entry_of(name, message, level, ts)
}

/// The Info entry reported when an add-node workflow completes.
pub open spec fn add_done_msg(node: Seq<char>) -> Seq<char> {
    "Node ["@ + node + "] has been created"@
}

/// The Info entry reported when a delete-node workflow completes.
pub open spec fn delete_node_done_msg(cluster: Seq<char>, node: Seq<char>) -> Seq<char> {
    "Node ["@ + spec_hostname(cluster, node) + "] has been deleted"@
}

/// The Info entry reported when a resize workflow completes.
pub open spec fn change_done_msg(cluster: Seq<char>, node: Seq<char>) -> Seq<char> {
    "Resource for node ["@ + spec_hostname(cluster, node) + "] has been changed"@
}

/// Sets the stored status of cluster `name`, stamping the clock. Fails (and
/// changes nothing) exactly when no cluster carries the name.
pub fn update_cluster_status(repo: &mut Repository, name: &str, state: ClusterState) -> (r: Result<
    (),
    String,
>)
    ensures
        r is Ok <==> has_cluster(old(repo).clusters_view(), name@),
        r matches Ok(_) ==> exists|ts: i64|
            final (repo).clusters_view() =~~= spec_save(
                old(repo).clusters_view(),
                #[trigger] with_status(spec_get(old(repo).clusters_view(), name@)->0, state, ts),
            ),
        r is Ok ==> exists|ts: i64|
            spec_get(final (repo).clusters_view(), name@) == Some(
                #[trigger] with_status(spec_get(old(repo).clusters_view(), name@)->0, state, ts),
            ),
        r matches Err(e) ==> e@ == "Cannot find cluster"@ && final (repo).clusters_view() == old(
            repo,
        ).clusters_view(),
        final (repo).log_view() == old(repo).log_view(),
        (spec_get(final (repo).clusters_view(), name@)->0).nodes == (spec_get(
            old(repo).clusters_view(),
            name@,
        )->0).nodes,
        has_cluster(final (repo).clusters_view(), name@) == has_cluster(
            old(repo).clusters_view(),
            name@,
        ),
{
    match repo.get_cluster(name) {
        Some(cluster) => {
            let mut cluster = cluster;
            let status = ClusterStatus::from_state(state);
            cluster.status = status;
            let ghost cv = spec_get(old(repo).clusters_view(), name@)->0;
            proof {
                assert(cluster@ =~= with_status(cv, state, status.last_update));
            }
            repo.save_cluster(cluster);
            proof {
                crate::store::lemma_spec_get_name(old(repo).clusters_view(), name@);
                assert(final (repo).clusters_view() =~~= spec_save(
                    old(repo).clusters_view(),
                    with_status(cv, state, status.last_update),
                ));
                crate::store::lemma_store_round_trip(
                    old(repo).clusters_view(),
                    with_status(cv, state, status.last_update),
                );
                assert(spec_get(final (repo).clusters_view(), name@) == Some(
                    with_status(cv, state, status.last_update),
                ));
                crate::store::lemma_get_has(final (repo).clusters_view(), name@);
                crate::store::lemma_has_get(old(repo).clusters_view(), name@);
            }
            Ok(())
        },
        None => Err(String::from_str("Cannot find cluster")),
    }
}

/// Reconciles a failed workflow: status `Error` plus an Error log entry
/// carrying the workflow's text; any node lock is deliberately kept. Fails
/// without any change when the cluster record is gone.
pub fn reconcile_failure(repo: &mut Repository, name: &str, error_text: &str) -> (r: Result<
    (),
    String,
>)
    ensures
        r is Ok <==> has_cluster(old(repo).clusters_view(), name@),
        r is Ok ==> stored_state_is(final (repo).clusters_view(), name@, ClusterState::Error)
            && last_log_is(
            final (repo).log_view(),
            name@,
            error_text@,
            ActionLogLevel::Error,
        ),
        r matches Ok(_) ==> exists|ts: i64|
            final (repo).log_view() =~~= #[trigger] old(repo).log_view().push(
                error_entry(name@, error_text@, ts),
            ),
        r matches Err(e) ==> e@ == "Cannot find cluster"@ && final (repo).clusters_view() == old(
            repo,
        ).clusters_view() && final (repo).log_view() == old(repo).log_view(),
        (spec_get(final (repo).clusters_view(), name@)->0).nodes == (spec_get(
            old(repo).clusters_view(),
            name@,
        )->0).nodes,
        has_cluster(final (repo).clusters_view(), name@) == has_cluster(
            old(repo).clusters_view(),
            name@,
        ),
{
    match update_cluster_status(repo, name, ClusterState::Error) {
        Ok(_) => {
            proof {
                let ts0 = choose|ts: i64|
                    spec_get(repo.clusters_view(), name@) == Some(
                        #[trigger] with_status(
                            spec_get(old(repo).clusters_view(), name@)->0,
                            ClusterState::Error,
                            ts,
                        ),
                    );
                assert(stored_state_is(repo.clusters_view(), name@, ClusterState::Error));
            }
            let entry = LogEntry::error(name, error_text.to_owned());
            let ghost ts = entry@.date;
            repo.save_log(entry);
            proof {
                assert(repo.log_view() =~~= old(repo).log_view().push(
                    error_entry(name@, error_text@, ts),
                ));
                assert(repo.log_view().last() == crate::model::log_entry_of(
                    name@,
                    error_text@,
                    ActionLogLevel::Error,
                    ts,
                ));
            }
            Ok(())
        },
        Err(e) => Err(e),
    }
}

/// `cv` with the named node's lock cleared.
pub open spec fn with_lock_cleared(cv: ClusterView, node_name: Seq<char>) -> ClusterView {
    ClusterView { nodes: crate::model::spec_clear_lock(cv.nodes, node_name), ..cv }
}

/// Clears the just-processed node's lock in the stored record and sets the
/// status to `Sync`. Fails (changing nothing) exactly when the cluster or
/// the node is missing; clearing an already-unlocked node succeeds and
/// leaves the lock `None`.
pub fn clear_lock_and_sync(repo: &mut Repository, name: &str, node_name: &str) -> (r: Result<
    (),
    String,
>)
    ensures
        r is Ok <==> (has_cluster(old(repo).clusters_view(), name@) && crate::model::has_node(
            (spec_get(old(repo).clusters_view(), name@)->0).nodes,
            node_name@,
        )),
        r is Ok ==> stored_state_is(final (repo).clusters_view(), name@, ClusterState::Sync)
            && stored_lock_clear(final (repo).clusters_view(), name@, node_name@),
        r is Ok ==> exists|ts: i64|
            final (repo).clusters_view() =~~= spec_save(
                spec_save(
                    old(repo).clusters_view(),
                    with_lock_cleared(spec_get(old(repo).clusters_view(), name@)->0, node_name@),
                ),
                #[trigger] with_status(
                    with_lock_cleared(spec_get(old(repo).clusters_view(), name@)->0, node_name@),
                    ClusterState::Sync,
                    ts,
                ),
            ),
        r is Err ==> final (repo).clusters_view() == old(repo).clusters_view(),
        final (repo).log_view() == old(repo).log_view(),
{
    let cluster = match repo.get_cluster(name) {
        Some(c) => c,
        None => {
            return Err(msg_text("Cannot find cluster [", name, "]"));
        },
    };
    let mut cluster = cluster;
    let ghost cv = spec_get(old(repo).clusters_view(), name@)->0;
    match crate::model::clear_node_lock(&mut cluster, node_name) {
        Ok(_) => {},
        Err(_) => {
            return Err(msg_text("Cannot find node [", node_name, "]"));
        },
    }
    proof {
        assert(cluster@ =~= with_lock_cleared(cv, node_name@));
    }
    repo.save_cluster(cluster);
    proof {
        crate::store::lemma_spec_get_name(old(repo).clusters_view(), name@);
        crate::store::lemma_store_round_trip(
            old(repo).clusters_view(),
            with_lock_cleared(cv, node_name@),
        );
        crate::store::lemma_get_has(repo.clusters_view(), name@);
        assert(has_cluster(repo.clusters_view(), name@));
    }
    let ghost mid = repo.clusters_view();
    match update_cluster_status(repo, name, ClusterState::Sync) {
        Ok(_) => {
            proof {
                let ts0 = choose|ts: i64|
                    spec_get(final (repo).clusters_view(), name@) == Some(
                        #[trigger] with_status(
                            spec_get(mid, name@)->0,
                            ClusterState::Sync,
                            ts,
                        ),
                    );
                assert(spec_get(mid, name@)->0 == with_lock_cleared(cv, node_name@));
                crate::model::lemma_clear_leaves_unlocked(cv.nodes, node_name@);
                assert(stored_lock_clear(final (repo).clusters_view(), name@, node_name@));
            }
            Ok(())
        },
        Err(e) => {
            proof {
                assert(false);
            }
            Err(e)
        },
    }
}

/// Reconciles a workflow failure and reports the failure text upward: the
/// original error when the record was updated, the update's own error when
/// the record is gone.
fn reconcile_and_report(repo: &mut Repository, cluster_name: &str, e: String) -> (r: Step)
    ensures
        r matches Step::Done(res) && res is Err,
        r matches Step::Done(res) ==> (res matches Err(e2) ==> (has_cluster(
            final (repo).clusters_view(),
            cluster_name@,
        ) ==> stored_state_is(final (repo).clusters_view(), cluster_name@, ClusterState::Error)
            && last_log_is(
            final (repo).log_view(),
            cluster_name@,
            e2@,
            ActionLogLevel::Error,
        ))),
        (spec_get(final (repo).clusters_view(), cluster_name@)->0).nodes == (spec_get(
            old(repo).clusters_view(),
            cluster_name@,
        )->0).nodes,
        has_cluster(final (repo).clusters_view(), cluster_name@) == has_cluster(
            old(repo).clusters_view(),
            cluster_name@,
        ),
{
    match reconcile_failure(repo, cluster_name, e.as_str()) {
        Ok(_) => {
            proof {
                crate::store::lemma_get_has(final (repo).clusters_view(), cluster_name@);
            }
            Step::Done(Err(e))
        },
        Err(e2) => Step::Done(Err(e2)),
    }
}

/// Finishes a cluster-creation workflow: `Sync` plus the completion entry on
/// success, `Error` plus the failure entry otherwise.
fn finish_create(repo: &mut Repository, cluster_name: &str, res: Result<(), String>) -> (r: Step)
    ensures
        r matches Step::Done(_),
        res is Err ==> (r matches Step::Done(r2) && r2 is Err),
        r matches Step::Done(r2) ==> (r2 is Err ==> ((spec_get(
            final (repo).clusters_view(),
            cluster_name@,
        )->0).nodes == (spec_get(old(repo).clusters_view(), cluster_name@)->0).nodes
            && has_cluster(final (repo).clusters_view(), cluster_name@) == has_cluster(
            old(repo).clusters_view(),
            cluster_name@,
        ))),
        r matches Step::Done(res) ==> (res is Ok ==> (stored_state_is(
            final (repo).clusters_view(),
            cluster_name@,
            ClusterState::Sync,
        ) && last_log_is(
            final (repo).log_view(),
            cluster_name@,
            "Cluster has been created"@,
            ActionLogLevel::Info,
        ))),
        r matches Step::Done(res) ==> (res matches Err(e2) ==> (has_cluster(
            final (repo).clusters_view(),
            cluster_name@,
        ) ==> (stored_state_is(final (repo).clusters_view(), cluster_name@, ClusterState::Error)
            && last_log_is(
            final (repo).log_view(),
            cluster_name@,
            e2@,
            ActionLogLevel::Error,
        )))),
{
    match res {
        Ok(_) => {
            match update_cluster_status(repo, cluster_name, ClusterState::Sync) {
                Ok(_) => {},
                Err(e) => {
                    return Step::Done(Err(e));
                },
            }
            proof {
                let ts0 = choose|ts: i64|
                    spec_get(repo.clusters_view(), cluster_name@) == Some(
                        #[trigger] with_status(
                            spec_get(old(repo).clusters_view(), cluster_name@)->0,
                            ClusterState::Sync,
                            ts,
                        ),
                    );
                assert(stored_state_is(
                    repo.clusters_view(),
                    cluster_name@,
                    ClusterState::Sync,
                ));
            }
            let entry = LogEntry::info(
                cluster_name,
                String::from_str("Cluster has been created"),
            );
            let ghost ts = entry@.date;
            repo.save_log(entry);
            proof {
                assert(repo.log_view().last() == crate::model::log_entry_of(
                    cluster_name@,
                    "Cluster has been created"@,
                    ActionLogLevel::Info,
                    ts,
                ));
            }
            Step::Done(Ok(()))
        },
        Err(e) => reconcile_and_report(repo, cluster_name, e),
    }
}

/// Finishes an add-node workflow: the completion entry, then lock clear plus
/// `Sync` on success; `Error` plus the failure entry otherwise.
fn finish_add(
    repo: &mut Repository,
    cluster_name: &str,
    node_name: &str,
    res: Result<(), String>,
) -> (r: Step)
    ensures
        r matches Step::Done(_),
        res is Err ==> (r matches Step::Done(r2) && r2 is Err),
        r matches Step::Done(r2) ==> (r2 is Err ==> ((spec_get(
            final (repo).clusters_view(),
            cluster_name@,
        )->0).nodes == (spec_get(old(repo).clusters_view(), cluster_name@)->0).nodes
            && has_cluster(final (repo).clusters_view(), cluster_name@) == has_cluster(
            old(repo).clusters_view(),
            cluster_name@,
        ))),
        r matches Step::Done(res) ==> (res is Ok ==> (stored_state_is(
            final (repo).clusters_view(),
            cluster_name@,
            ClusterState::Sync,
        ) && stored_lock_clear(final (repo).clusters_view(), cluster_name@, node_name@)
            && last_log_is(
            final (repo).log_view(),
            cluster_name@,
            add_done_msg(node_name@),
            ActionLogLevel::Info,
        ))),
        r matches Step::Done(res) ==> (res matches Err(e2) ==> (has_cluster(
            final (repo).clusters_view(),
            cluster_name@,
        ) ==> ((stored_state_is(final (repo).clusters_view(), cluster_name@, ClusterState::Error)
            && last_log_is(final (repo).log_view(), cluster_name@, e2@, ActionLogLevel::Error))
            || last_log_is(
            final (repo).log_view(),
            cluster_name@,
            add_done_msg(node_name@),
            ActionLogLevel::Info,
        )))),
{
    match res {
        Ok(_) => {
            let entry = LogEntry::info(
                cluster_name,
                msg_text("Node [", node_name, "] has been created"),
            );
            let ghost ts = entry@.date;
            repo.save_log(entry);
            proof {
                assert(repo.log_view().last() == crate::model::log_entry_of(
                    cluster_name@,
                    add_done_msg(node_name@),
                    ActionLogLevel::Info,
                    ts,
                ));
            }
            match clear_lock_and_sync(repo, cluster_name, node_name) {
                Ok(_) => Step::Done(Ok(())),
                Err(e) => Step::Done(Err(e)),
            }
        },
        Err(e) => reconcile_and_report(repo, cluster_name, e),
    }
}

/// Finishes a delete-node workflow: the completion entry plus `Sync` on
/// success; `Error` plus the failure entry otherwise.
fn finish_delete_node(
    repo: &mut Repository,
    cluster_name: &str,
    node_name: &str,
    res: Result<(), String>,
) -> (r: Step)
    ensures
        r matches Step::Done(_),
        res is Err ==> (r matches Step::Done(r2) && r2 is Err),
        r matches Step::Done(r2) ==> (r2 is Err ==> ((spec_get(
            final (repo).clusters_view(),
            cluster_name@,
        )->0).nodes == (spec_get(old(repo).clusters_view(), cluster_name@)->0).nodes
            && has_cluster(final (repo).clusters_view(), cluster_name@) == has_cluster(
            old(repo).clusters_view(),
            cluster_name@,
        ))),
        r matches Step::Done(res) ==> (res is Ok ==> (stored_state_is(
            final (repo).clusters_view(),
            cluster_name@,
            ClusterState::Sync,
        ) && last_log_is(
            final (repo).log_view(),
            cluster_name@,
            delete_node_done_msg(cluster_name@, node_name@),
            ActionLogLevel::Info,
        ))),
        r matches Step::Done(res) ==> (res matches Err(e2) ==> (has_cluster(
            final (repo).clusters_view(),
            cluster_name@,
        ) ==> (stored_state_is(final (repo).clusters_view(), cluster_name@, ClusterState::Error)
            && last_log_is(
            final (repo).log_view(),
            cluster_name@,
            e2@,
            ActionLogLevel::Error,
        )))),
{
    match res {
        Ok(_) => {
            let host = crate::plans::hostname(cluster_name, node_name);
            let entry = LogEntry::info(
                cluster_name,
                msg_text("Node [", host.as_str(), "] has been deleted"),
            );
            let ghost ts = entry@.date;
            repo.save_log(entry);
            proof {
                assert(repo.log_view().last() == crate::model::log_entry_of(
                    cluster_name@,
                    delete_node_done_msg(cluster_name@, node_name@),
                    ActionLogLevel::Info,
                    ts,
                ));
            }
            let ghost midc = repo.clusters_view();
            match update_cluster_status(repo, cluster_name, ClusterState::Sync) {
                Ok(_) => {
                    proof {
                        let ts0 = choose|ts2: i64|
                            spec_get(repo.clusters_view(), cluster_name@) == Some(
                                #[trigger] with_status(
                                    spec_get(midc, cluster_name@)->0,
                                    ClusterState::Sync,
                                    ts2,
                                ),
                            );
                        assert(stored_state_is(
                            repo.clusters_view(),
                            cluster_name@,
                            ClusterState::Sync,
                        ));
                    }
                    Step::Done(Ok(()))
                },
                Err(e) => Step::Done(Err(e)),
            }
        },
        Err(e) => reconcile_and_report(repo, cluster_name, e),
    }
}

/// Finishes a cluster-deletion workflow: nothing more on success (the
/// workflow already removed the record and its logs); `Error` plus the
/// failure entry otherwise.
fn finish_delete_cluster(repo: &mut Repository, cluster_name: &str, res: Result<(), String>) -> (r:
    Step)
    ensures
        r matches Step::Done(_),
        res is Err ==> (r matches Step::Done(r2) && r2 is Err),
        r matches Step::Done(r2) ==> (r2 is Err ==> ((spec_get(
            final (repo).clusters_view(),
            cluster_name@,
        )->0).nodes == (spec_get(old(repo).clusters_view(), cluster_name@)->0).nodes
            && has_cluster(final (repo).clusters_view(), cluster_name@) == has_cluster(
            old(repo).clusters_view(),
            cluster_name@,
        ))),
        res is Ok ==> (r matches Step::Done(r2) && r2 is Ok && final (repo).clusters_view()
            == old(repo).clusters_view() && final (repo).log_view() == old(repo).log_view()),
        r matches Step::Done(res) ==> (res matches Err(e2) ==> (has_cluster(
            final (repo).clusters_view(),
            cluster_name@,
        ) ==> (stored_state_is(final (repo).clusters_view(), cluster_name@, ClusterState::Error)
            && last_log_is(
            final (repo).log_view(),
            cluster_name@,
            e2@,
            ActionLogLevel::Error,
        )))),
{
    match res {
        Ok(_) => Step::Done(Ok(())),
        Err(e) => reconcile_and_report(repo, cluster_name, e),
    }
}

/// Finishes a resize workflow: the completion entry, then lock clear plus
/// `Sync` on success; `Error` plus the failure entry otherwise.
fn finish_change(
    repo: &mut Repository,
    cluster_name: &str,
    node_name: &str,
    res: Result<(), String>,
) -> (r: Step)
    ensures
        r matches Step::Done(_),
        res is Err ==> (r matches Step::Done(r2) && r2 is Err),
        r matches Step::Done(r2) ==> (r2 is Err ==> ((spec_get(
            final (repo).clusters_view(),
            cluster_name@,
        )->0).nodes == (spec_get(old(repo).clusters_view(), cluster_name@)->0).nodes
            && has_cluster(final (repo).clusters_view(), cluster_name@) == has_cluster(
            old(repo).clusters_view(),
            cluster_name@,
        ))),
        r matches Step::Done(res) ==> (res is Ok ==> (stored_state_is(
            final (repo).clusters_view(),
            cluster_name@,
            ClusterState::Sync,
        ) && stored_lock_clear(final (repo).clusters_view(), cluster_name@, node_name@)
            && last_log_is(
            final (repo).log_view(),
            cluster_name@,
            change_done_msg(cluster_name@, node_name@),
            ActionLogLevel::Info,
        ))),
        r matches Step::Done(res) ==> (res matches Err(e2) ==> (has_cluster(
            final (repo).clusters_view(),
            cluster_name@,
        ) ==> ((stored_state_is(final (repo).clusters_view(), cluster_name@, ClusterState::Error)
            && last_log_is(final (repo).log_view(), cluster_name@, e2@, ActionLogLevel::Error))
            || last_log_is(
            final (repo).log_view(),
            cluster_name@,
            change_done_msg(cluster_name@, node_name@),
            ActionLogLevel::Info,
        )))),
{
    match res {
        Ok(_) => {
            let host = crate::plans::hostname(cluster_name, node_name);
            let entry = LogEntry::info(
                cluster_name,
                msg_text("Resource for node [", host.as_str(), "] has been changed"),
            );
            let ghost ts = entry@.date;
            repo.save_log(entry);
            proof {
                assert(repo.log_view().last() == crate::model::log_entry_of(
                    cluster_name@,
                    change_done_msg(cluster_name@, node_name@),
                    ActionLogLevel::Info,
                    ts,
                ));
            }
            match clear_lock_and_sync(repo, cluster_name, node_name) {
                Ok(_) => Step::Done(Ok(())),
                Err(e) => Step::Done(Err(e)),
            }
        },
        Err(e) => reconcile_and_report(repo, cluster_name, e),
    }
}

/// Which workflow is in flight, if any.
#[derive(Debug)]
enum ActiveFlow {
    Idle,
    Create { flow: CreateClusterFlow, cluster_name: String },
    Add { flow: AddNodeFlow, cluster_name: String, node_name: String },
    DeleteNode { flow: DeleteNodeFlow, cluster_name: String, node_name: String },
    DeleteCluster { flow: DeleteClusterFlow },
    Change { flow: ChangeResourcesFlow, cluster_name: String, node_name: String },
}

/// The intent the dispatcher is currently running, by kind and identifiers.
#[verifier::ext_equal]
pub ghost enum ActiveView {
    Idle,
    Create { cluster_name: Seq<char> },
    Add { cluster_name: Seq<char>, node_name: Seq<char> },
    DeleteNode { cluster_name: Seq<char>, node_name: Seq<char> },
    DeleteCluster { cluster_name: Seq<char> },
    Change { cluster_name: Seq<char>, node_name: Seq<char> },
}

/// The intent a freshly dispatched event runs as.
pub open spec fn event_active(e: EventView) -> ActiveView {
    match e {
        EventView::CreateCluster { cluster_name } => ActiveView::Create { cluster_name },
        EventView::AddNodeToCluster { cluster_name, node_name } => ActiveView::Add {
            cluster_name,
            node_name,
        },
        EventView::DeleteNodeFromCluster { cluster_name, node_name } => ActiveView::DeleteNode {
            cluster_name,
            node_name,
        },
        EventView::DeleteCluster { cluster_name } => ActiveView::DeleteCluster { cluster_name },
        EventView::ChangeNodeResources { cluster_name, node_name, .. } => ActiveView::Change {
            cluster_name,
            node_name,
        },
    }
}

/// The dispatcher: one workflow at a time, chosen by the event it received.
#[derive(Debug)]
pub struct Dispatcher {
    active: ActiveFlow,
}

impl Dispatcher {
    /// The dispatcher's internal consistency: its active workflow's own.
    pub closed spec fn inv(&self) -> bool {
        match self.active {
            ActiveFlow::Idle => true,
            ActiveFlow::Create { flow, .. } => flow.inv(),
            ActiveFlow::Add { flow, .. } => flow.inv(),
            ActiveFlow::DeleteNode { flow, .. } => flow.inv(),
            ActiveFlow::DeleteCluster { flow } => flow.inv(),
            ActiveFlow::Change { flow, .. } => flow.inv(),
        }
    }

    /// The intent currently in flight.
    pub closed spec fn active_view(&self) -> ActiveView {
        match self.active {
            ActiveFlow::Idle => ActiveView::Idle,
            ActiveFlow::Create { flow, cluster_name } => ActiveView::Create {
                cluster_name: cluster_name@,
            },
            ActiveFlow::Add { flow, cluster_name, node_name } => ActiveView::Add {
                cluster_name: cluster_name@,
                node_name: node_name@,
            },
            ActiveFlow::DeleteNode { flow, cluster_name, node_name } => ActiveView::DeleteNode {
                cluster_name: cluster_name@,
                node_name: node_name@,
            },
            ActiveFlow::DeleteCluster { flow } => ActiveView::DeleteCluster {
                cluster_name: flow.cluster_name_view(),
            },
            ActiveFlow::Change { flow, cluster_name, node_name } => ActiveView::Change {
                cluster_name: cluster_name@,
                node_name: node_name@,
            },
        }
    }

    /// An idle dispatcher.
    pub fn new() -> (r: Self)
        ensures
            r.inv(),
            r.active_view() is Idle,
    {
        Dispatcher { active: ActiveFlow::Idle }
    }

    /// Starts the workflow of `event` and returns its first step.
    ///
    /// A `CreateCluster` event first records the `Pending -> Creating`
    /// transition and the start entry, so the workflow observes `Creating`;
    /// a missing record refuses the event and changes nothing. An event
    /// whose workflow ends immediately is reconciled exactly as by [`Self::step`].
    pub fn dispatch(&mut self, repo: &mut Repository, event: Event) -> (r: Step)
        requires
            old(self).inv(),
        ensures
            final (self).inv(),
            r matches Step::Do(_) ==> final (self).active_view() == event_active(event@),
            r matches Step::Done(_) ==> final (self).active_view() is Idle,
            event@ matches EventView::CreateCluster { cluster_name } ==> (!has_cluster(
                old(repo).clusters_view(),
                cluster_name,
            ) ==> (r matches Step::Done(res) && res is Err && final (repo).clusters_view() == old(
                repo,
            ).clusters_view() && final (repo).log_view() == old(repo).log_view())),
            event@ matches EventView::CreateCluster { cluster_name } ==> (has_cluster(
                old(repo).clusters_view(),
                cluster_name,
            ) ==> (r matches Step::Do(a) && a is GenerateSshKeys && (exists|ts: i64|
                spec_get(final (repo).clusters_view(), cluster_name) == Some(
                    #[trigger] with_status(
                        spec_get(old(repo).clusters_view(), cluster_name)->0,
                        ClusterState::Creating,
                        ts,
                    ),
                )) && last_log_is(
                final (repo).log_view(),
                cluster_name,
                "Start creating cluster"@,
                ActionLogLevel::Info,
            ))),
            event@ matches EventView::AddNodeToCluster { cluster_name, node_name } ==> (r
                matches Step::Done(res) ==> (res is Ok ==> (stored_state_is(
                final (repo).clusters_view(),
                cluster_name,
                ClusterState::Sync,
            ) && stored_lock_clear(final (repo).clusters_view(), cluster_name, node_name)
                && last_log_is(
                final (repo).log_view(),
                cluster_name,
                add_done_msg(node_name),
                ActionLogLevel::Info,
            )))),
            event@ matches EventView::AddNodeToCluster { cluster_name, node_name } ==> (r
                matches Step::Done(res) ==> (res matches Err(e2) ==> (has_cluster(
                final (repo).clusters_view(),
                cluster_name,
            ) ==> ((stored_state_is(final (repo).clusters_view(), cluster_name, ClusterState::Error)
                && last_log_is(
                final (repo).log_view(),
                cluster_name,
                e2@,
                ActionLogLevel::Error,
            ))
                || last_log_is(
                final (repo).log_view(),
                cluster_name,
                add_done_msg(node_name),
                ActionLogLevel::Info,
            ))))),
            event@ matches EventView::AddNodeToCluster { cluster_name, node_name } ==> (r
                matches Step::Done(res) ==> (res is Err ==> ((spec_get(
                final (repo).clusters_view(),
                cluster_name,
            )->0).nodes == (spec_get(old(repo).clusters_view(), cluster_name)->0).nodes
                && has_cluster(final (repo).clusters_view(), cluster_name) == has_cluster(
                old(repo).clusters_view(),
                cluster_name,
            )))),
            event@ matches EventView::DeleteNodeFromCluster { cluster_name, node_name } ==> (r
                matches Step::Done(res) ==> (res is Ok ==> (stored_state_is(
                final (repo).clusters_view(),
                cluster_name,
                ClusterState::Sync,
            ) && last_log_is(
                final (repo).log_view(),
                cluster_name,
                delete_node_done_msg(cluster_name, node_name),
                ActionLogLevel::Info,
            )))),
            event@ matches EventView::DeleteNodeFromCluster { cluster_name, node_name } ==> (r
                matches Step::Done(res) ==> (res matches Err(e2) ==> (has_cluster(
                final (repo).clusters_view(),
                cluster_name,
            ) ==> (stored_state_is(final (repo).clusters_view(), cluster_name, ClusterState::Error)
                && last_log_is(
                final (repo).log_view(),
                cluster_name,
                e2@,
                ActionLogLevel::Error,
            ))))),
            event@ matches EventView::DeleteCluster { cluster_name } ==> (r
                matches Step::Done(res) ==> (res is Ok ==> (!has_cluster(
                final (repo).clusters_view(),
                cluster_name,
            )))),
            event@ matches EventView::DeleteCluster { cluster_name } ==> (r
                matches Step::Done(res) ==> (res matches Err(e2) ==> (has_cluster(
                final (repo).clusters_view(),
                cluster_name,
            ) ==> (stored_state_is(final (repo).clusters_view(), cluster_name, ClusterState::Error)
                && last_log_is(
                final (repo).log_view(),
                cluster_name,
                e2@,
                ActionLogLevel::Error,
            ))))),
            event@ matches EventView::ChangeNodeResources { cluster_name, node_name, .. } ==> (r
                matches Step::Done(res) ==> (res is Ok ==> (stored_state_is(
                final (repo).clusters_view(),
                cluster_name,
                ClusterState::Sync,
            ) && stored_lock_clear(final (repo).clusters_view(), cluster_name, node_name)
                && last_log_is(
                final (repo).log_view(),
                cluster_name,
                change_done_msg(cluster_name, node_name),
                ActionLogLevel::Info,
            )))),
            event@ matches EventView::ChangeNodeResources { cluster_name, node_name, .. } ==> (r
                matches Step::Done(res) ==> (res matches Err(e2) ==> (has_cluster(
                final (repo).clusters_view(),
                cluster_name,
            ) ==> ((stored_state_is(final (repo).clusters_view(), cluster_name, ClusterState::Error)
                && last_log_is(
                final (repo).log_view(),
                cluster_name,
                e2@,
                ActionLogLevel::Error,
            ))
                || last_log_is(
                final (repo).log_view(),
                cluster_name,
                change_done_msg(cluster_name, node_name),
                ActionLogLevel::Info,
            ))))),
    {
        self.active = ActiveFlow::Idle;
        let ghost ev = event@;
        match event {
            Event::CreateCluster { access: _, cluster_name } => {
                proof {
                    assert(ev == EventView::CreateCluster { cluster_name: cluster_name@ });
                    assert(event_active(ev) == ActiveView::Create { cluster_name: cluster_name@ });
                }
                match update_cluster_status(repo, cluster_name.as_str(), ClusterState::Creating) {
                    Ok(_) => {},
                    Err(e) => {
                        return Step::Done(Err(e));
                    },
                }
                proof {
                    let ts0 = choose|ts: i64|
                        spec_get(repo.clusters_view(), cluster_name@) == Some(
                            #[trigger] with_status(
                                spec_get(old(repo).clusters_view(), cluster_name@)->0,
                                ClusterState::Creating,
                                ts,
                            ),
                        );
                    crate::store::lemma_get_has(repo.clusters_view(), cluster_name@);
                }
                let cluster = match repo.get_cluster(cluster_name.as_str()) {
                    Some(c) => c,
                    None => {
                        proof {
                            assert(false);
                        }
                        return Step::Done(Err(String::from_str("Cannot find cluster")));
                    },
                };
                let ghost pre_flow_clusters = repo.clusters_view();
                let ghost pre_flow_log = repo.log_view();
                proof {
                    crate::store::lemma_spec_get_name(pre_flow_clusters, cluster_name@);
                    assert(cluster@.cluster_name == cluster_name@);
                }
                let mut flow = CreateClusterFlow::new(cluster);
                let s = flow.step(repo, Outcome::Succeeded);
                match s {
                    Step::Do(a) => {
                        proof {
                            assert(repo.clusters_view() == pre_flow_clusters);
                            let ts1 = choose|ts: i64|
                                spec_get(pre_flow_clusters, cluster_name@) == Some(
                                    #[trigger] with_status(
                                        spec_get(old(repo).clusters_view(), cluster_name@)->0,
                                        ClusterState::Creating,
                                        ts,
                                    ),
                                );
                            assert(spec_get(repo.clusters_view(), cluster_name@) == Some(
                                with_status(
                                    spec_get(old(repo).clusters_view(), cluster_name@)->0,
                                    ClusterState::Creating,
                                    ts1,
                                ),
                            ));
                            let ts2 = choose|ts: i64|
                                repo.log_view() =~~= pre_flow_log.push(
                                    #[trigger] crate::model::info_entry(
                                        cluster_name@,
                                        "Start creating cluster"@,
                                        ts,
                                    ),
                                );
                            assert(repo.log_view().last() == crate::model::log_entry_of(
                                cluster_name@,
                                "Start creating cluster"@,
                                ActionLogLevel::Info,
                                ts2,
                            ));
                        }
                        self.active = ActiveFlow::Create { flow, cluster_name };
                        Step::Do(a)
                    },
                    Step::Done(res) => finish_create(repo, cluster_name.as_str(), res),
                }
            },
            Event::AddNodeToCluster { access: _, cluster_name, node_name } => {
                proof {
                    assert(ev == EventView::AddNodeToCluster {
                        cluster_name: cluster_name@,
                        node_name: node_name@,
                    });
                    assert(event_active(ev) == ActiveView::Add {
                        cluster_name: cluster_name@,
                        node_name: node_name@,
                    });
                }
                let cluster = match repo.get_cluster(cluster_name.as_str()) {
                    Some(c) => c,
                    None => {
                        return finish_add(
                            repo,
                            cluster_name.as_str(),
                            node_name.as_str(),
                            Err(String::from_str("Cannot find cluster")),
                        );
                    },
                };
                let mut flow = AddNodeFlow::new(cluster, node_name.clone());
                let s = flow.step(repo, Outcome::Succeeded);
                match s {
                    Step::Do(a) => {
                        self.active = ActiveFlow::Add { flow, cluster_name, node_name };
                        Step::Do(a)
                    },
                    Step::Done(res) => finish_add(
                        repo,
                        cluster_name.as_str(),
                        node_name.as_str(),
                        res,
                    ),
                }
            },
            Event::DeleteNodeFromCluster { access: _, cluster_name, node_name } => {
                proof {
                    assert(ev == EventView::DeleteNodeFromCluster {
                        cluster_name: cluster_name@,
                        node_name: node_name@,
                    });
                    assert(event_active(ev) == ActiveView::DeleteNode {
                        cluster_name: cluster_name@,
                        node_name: node_name@,
                    });
                }
                let cluster = match repo.get_cluster(cluster_name.as_str()) {
                    Some(c) => c,
                    None => {
                        return finish_delete_node(
                            repo,
                            cluster_name.as_str(),
                            node_name.as_str(),
                            Err(String::from_str("Cannot find cluster")),
                        );
                    },
                };
                let mut flow = DeleteNodeFlow::new(cluster, node_name.clone());
                let s = flow.step(repo, Outcome::Succeeded);
                match s {
                    Step::Do(a) => {
                        self.active = ActiveFlow::DeleteNode { flow, cluster_name, node_name };
                        Step::Do(a)
                    },
                    Step::Done(res) => finish_delete_node(
                        repo,
                        cluster_name.as_str(),
                        node_name.as_str(),
                        res,
                    ),
                }
            },
            Event::DeleteCluster { access: _, cluster_name } => {
                proof {
                    assert(ev == EventView::DeleteCluster { cluster_name: cluster_name@ });
                    assert(event_active(ev) == ActiveView::DeleteCluster {
                        cluster_name: cluster_name@,
                    });
                }
                let cluster = match repo.get_cluster(cluster_name.as_str()) {
                    Some(c) => c,
                    None => {
                        return finish_delete_cluster(
                            repo,
                            cluster_name.as_str(),
                            Err(String::from_str("Cannot find cluster")),
                        );
                    },
                };
                proof {
                    crate::store::lemma_spec_get_name(old(repo).clusters_view(), cluster_name@);
                }
                let mut flow = DeleteClusterFlow::new(cluster);
                let s = flow.step(repo, Outcome::Succeeded);
                match s {
                    Step::Do(a) => {
                        self.active = ActiveFlow::DeleteCluster { flow };
                        Step::Do(a)
                    },
                    Step::Done(res) => finish_delete_cluster(repo, cluster_name.as_str(), res),
                }
            },
            Event::ChangeNodeResources { access: _, cluster_name, node_name, cores, memory } => {
                proof {
                    assert(ev matches EventView::ChangeNodeResources {
                        cluster_name: cn,
                        node_name: nn,
                        ..
                    } && cn == cluster_name@ && nn == node_name@);
                    assert(event_active(ev) == ActiveView::Change {
                        cluster_name: cluster_name@,
                        node_name: node_name@,
                    });
                }
                let cluster = match repo.get_cluster(cluster_name.as_str()) {
                    Some(c) => c,
                    None => {
                        return finish_change(
                            repo,
                            cluster_name.as_str(),
                            node_name.as_str(),
                            Err(String::from_str("Cannot find cluster")),
                        );
                    },
                };
                let mut flow = ChangeResourcesFlow::new(cluster, node_name.clone(), cores, memory);
                let s = flow.step(repo, Outcome::Succeeded);
                match s {
                    Step::Do(a) => {
                        self.active = ActiveFlow::Change { flow, cluster_name, node_name };
                        Step::Do(a)
                    },
                    Step::Done(res) => finish_change(
                        repo,
                        cluster_name.as_str(),
                        node_name.as_str(),
                        res,
                    ),
                }
            },
        }
    }

    /// Advances the active workflow by one outcome; when the workflow ends,
    /// reconciles the durable status per intent kind — `Sync` plus the
    /// completion entry (and, for add and resize, the cleared node lock) on
    /// success; `Error` plus the failure entry while the record exists on
    /// failure; and, for a successful cluster deletion, the record and its
    /// log already removed.
    pub fn step(&mut self, repo: &mut Repository, outcome: Outcome) -> (r: Step)
        requires
            old(self).inv(),
        ensures
            final (self).inv(),
            r matches Step::Do(_) ==> final (self).active_view() == old(self).active_view(),
            r matches Step::Done(_) ==> final (self).active_view() is Idle,
            old(self).active_view() is Idle ==> (r matches Step::Done(res) && res is Err && final (
            repo).clusters_view() == old(repo).clusters_view() && final (repo).log_view() == old(
                repo,
            ).log_view()),
            old(self).active_view() matches ActiveView::Create { cluster_name } ==> (r
                matches Step::Done(res) ==> (res is Ok ==> (stored_state_is(
                final (repo).clusters_view(),
                cluster_name,
                ClusterState::Sync,
            ) && last_log_is(
                final (repo).log_view(),
                cluster_name,
                "Cluster has been created"@,
                ActionLogLevel::Info,
            )))),
            old(self).active_view() matches ActiveView::Create { cluster_name } ==> (r
                matches Step::Done(res) ==> (res matches Err(e2) ==> (has_cluster(
                final (repo).clusters_view(),
                cluster_name,
            ) ==> (stored_state_is(final (repo).clusters_view(), cluster_name, ClusterState::Error)
                && last_log_is(
                final (repo).log_view(),
                cluster_name,
                e2@,
                ActionLogLevel::Error,
            ))))),
            old(self).active_view() matches ActiveView::Add { cluster_name, node_name } ==> (r
                matches Step::Done(res) ==> (res is Ok ==> (stored_state_is(
                final (repo).clusters_view(),
                cluster_name,
                ClusterState::Sync,
            ) && stored_lock_clear(final (repo).clusters_view(), cluster_name, node_name)
                && last_log_is(
                final (repo).log_view(),
                cluster_name,
                add_done_msg(node_name),
                ActionLogLevel::Info,
            )))),
            old(self).active_view() matches ActiveView::Add { cluster_name, node_name } ==> (r
                matches Step::Done(res) ==> (res matches Err(e2) ==> (has_cluster(
                final (repo).clusters_view(),
                cluster_name,
            ) ==> ((stored_state_is(final (repo).clusters_view(), cluster_name, ClusterState::Error)
                && last_log_is(
                final (repo).log_view(),
                cluster_name,
                e2@,
                ActionLogLevel::Error,
            ))
                || last_log_is(
                final (repo).log_view(),
                cluster_name,
                add_done_msg(node_name),
                ActionLogLevel::Info,
            ))))),
            old(self).active_view() matches ActiveView::Add { cluster_name, node_name } ==> (r
                matches Step::Done(res) ==> (res is Err ==> ((spec_get(
                final (repo).clusters_view(),
                cluster_name,
            )->0).nodes == (spec_get(old(repo).clusters_view(), cluster_name)->0).nodes
                && has_cluster(final (repo).clusters_view(), cluster_name) == has_cluster(
                old(repo).clusters_view(),
                cluster_name,
            )))),
            old(self).active_view() matches ActiveView::DeleteNode { cluster_name, node_name } ==> (r
                matches Step::Done(res) ==> (res is Ok ==> (stored_state_is(
                final (repo).clusters_view(),
                cluster_name,
                ClusterState::Sync,
            ) && last_log_is(
                final (repo).log_view(),
                cluster_name,
                delete_node_done_msg(cluster_name, node_name),
                ActionLogLevel::Info,
            )))),
            old(self).active_view() matches ActiveView::DeleteNode { cluster_name, node_name } ==> (r
                matches Step::Done(res) ==> (res matches Err(e2) ==> (has_cluster(
                final (repo).clusters_view(),
                cluster_name,
            ) ==> (stored_state_is(final (repo).clusters_view(), cluster_name, ClusterState::Error)
                && last_log_is(
                final (repo).log_view(),
                cluster_name,
                e2@,
                ActionLogLevel::Error,
            ))))),
            old(self).active_view() matches ActiveView::DeleteCluster { cluster_name } ==> (r
                matches Step::Done(res) ==> (res is Ok ==> (!has_cluster(
                final (repo).clusters_view(),
                cluster_name,
            ) && (forall|i: int|
                0 <= i < final (repo).log_view().len()
                    ==> #[trigger] final (repo).log_view()[i].cluster_name != cluster_name)))),
            old(self).active_view() matches ActiveView::DeleteCluster { cluster_name } ==> (r
                matches Step::Done(res) ==> (res matches Err(e2) ==> (has_cluster(
                final (repo).clusters_view(),
                cluster_name,
            ) ==> (stored_state_is(final (repo).clusters_view(), cluster_name, ClusterState::Error)
                && last_log_is(
                final (repo).log_view(),
                cluster_name,
                e2@,
                ActionLogLevel::Error,
            ))))),
            old(self).active_view() matches ActiveView::Change { cluster_name, node_name } ==> (r
                matches Step::Done(res) ==> (res is Ok ==> (stored_state_is(
                final (repo).clusters_view(),
                cluster_name,
                ClusterState::Sync,
            ) && stored_lock_clear(final (repo).clusters_view(), cluster_name, node_name)
                && last_log_is(
                final (repo).log_view(),
                cluster_name,
                change_done_msg(cluster_name, node_name),
                ActionLogLevel::Info,
            )))),
            old(self).active_view() matches ActiveView::Change { cluster_name, node_name } ==> (r
                matches Step::Done(res) ==> (res matches Err(e2) ==> (has_cluster(
                final (repo).clusters_view(),
                cluster_name,
            ) ==> ((stored_state_is(final (repo).clusters_view(), cluster_name, ClusterState::Error)
                && last_log_is(
                final (repo).log_view(),
                cluster_name,
                e2@,
                ActionLogLevel::Error,
            ))
                || last_log_is(
                final (repo).log_view(),
                cluster_name,
                change_done_msg(cluster_name, node_name),
                ActionLogLevel::Info,
            ))))),
    {
        let mut active = ActiveFlow::Idle;
        core::mem::swap(&mut active, &mut self.active);
        match active {
            ActiveFlow::Idle => Step::Done(Err(String::from_str("No workflow in flight"))),
            ActiveFlow::Create { mut flow, cluster_name } => {
                match flow.step(repo, outcome) {
                    Step::Do(a) => {
                        self.active = ActiveFlow::Create { flow, cluster_name };
                        Step::Do(a)
                    },
                    Step::Done(res) => finish_create(repo, cluster_name.as_str(), res),
                }
            },
            ActiveFlow::Add { mut flow, cluster_name, node_name } => {
                match flow.step(repo, outcome) {
                    Step::Do(a) => {
                        self.active = ActiveFlow::Add { flow, cluster_name, node_name };
                        Step::Do(a)
                    },
                    Step::Done(res) => finish_add(
                        repo,
                        cluster_name.as_str(),
                        node_name.as_str(),
                        res,
                    ),
                }
            },
            ActiveFlow::DeleteNode { mut flow, cluster_name, node_name } => {
                match flow.step(repo, outcome) {
                    Step::Do(a) => {
                        self.active = ActiveFlow::DeleteNode { flow, cluster_name, node_name };
                        Step::Do(a)
                    },
                    Step::Done(res) => finish_delete_node(
                        repo,
                        cluster_name.as_str(),
                        node_name.as_str(),
                        res,
                    ),
                }
            },
            ActiveFlow::DeleteCluster { mut flow } => {
                let ghost name = flow.cluster_name_view();
                let s = flow.step(repo, outcome);
                match s {
                    Step::Do(a) => {
                        self.active = ActiveFlow::DeleteCluster { flow };
                        Step::Do(a)
                    },
                    Step::Done(res) => {
                        let target = flow.cluster_name();
                        finish_delete_cluster(repo, target.as_str(), res)
                    },
                }
            },
            ActiveFlow::Change { mut flow, cluster_name, node_name } => {
                match flow.step(repo, outcome) {
                    Step::Do(a) => {
                        self.active = ActiveFlow::Change { flow, cluster_name, node_name };
                        Step::Do(a)
                    },
                    Step::Done(res) => finish_change(
                        repo,
                        cluster_name.as_str(),
                        node_name.as_str(),
                        res,
                    ),
                }
            },
        }
    }
}

} // verus!
