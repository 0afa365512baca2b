//! The operator: the public surface that validates each intent against the
//! persisted state, durably records the intended transition, and enqueues
//! the event for the single worker — all before returning to the caller.
//! Read accessors bypass the queue, and the best-effort status probes
//! degrade to `Unknown` per item instead of failing.
use crate::error::Error;
use crate::event::{Event, EventView};
use crate::model::{
    has_node, lock_all_fn, spec_lock_first, AppStatus, AppStatusType, Cluster, ClusterHeader,
    ClusterNode, ClusterNodeLock, ClusterNodeStatus, ClusterNodeView, ClusterRequest, ClusterState,
    ClusterStatus, ClusterView, HelmApp, HelmAppView, InstalledRelease, ItemView, KubeStatus,
    LogEntry, LogEntryView, Nodes,
};
use crate::outside;
use crate::proxmox::AccessData;
use crate::store::{has_cluster, spec_get, spec_save, Repository};
use crate::text::{msg_text, str_eq};
use vstd::prelude::*;

verus! {

/// Whether `a` is `b` with (only) another id.
pub open spec fn same_app_except_id(a: HelmAppView, b: HelmAppView) -> bool {
    a.chart_name == b.chart_name && a.chart_version == b.chart_version && a.repository
        == b.repository && a.release_name == b.release_name && a.namespace == b.namespace
        && a.values == b.values && a.wait == b.wait
}

/// Whether `a` is `b` with (only) another id.
pub open spec fn same_resource_except_id(
    a: crate::model::ClusterResourceView,
    b: crate::model::ClusterResourceView,
) -> bool {
    a.name == b.name && a.content == b.content
}

/// Whether `cv` is the freshly recorded cluster of `req`: all requested
/// values carried over, embedded Helm apps and resources equal up to their
/// newly assigned ids, no kubeconfig yet, and state `Pending`.
pub open spec fn initial_cluster_from(cv: ClusterView, req: ClusterRequest) -> bool {
    &&& cv.node == req.node@
    &&& cv.cluster_name == req.cluster_name@
    &&& cv.os_image == Some(req.os_image@)
    &&& cv.os_image_storage == Some(req.os_image_storage@)
    &&& cv.kube_version == Some(req.kube_version@)
    &&& cv.cluster_config.len() == 0
    &&& cv.ssh_key == req.ssh_key@
    &&& cv.node_username == req.node_username@
    &&& cv.node_password == req.node_password@
    &&& cv.helm_apps.len() == req.helm_apps.deep_view().len()
    &&& (forall|i: int|
        0 <= i < cv.helm_apps.len() ==> #[trigger] same_app_except_id(
            cv.helm_apps[i],
            req.helm_apps.deep_view()[i],
        ))
    &&& cv.cluster_resources.len() == req.cluster_resources.deep_view().len()
    &&& (forall|i: int|
        0 <= i < cv.cluster_resources.len() ==> #[trigger] same_resource_except_id(
            cv.cluster_resources[i],
            req.cluster_resources.deep_view()[i],
        ))
    &&& cv.disk_size == req.disk_size
    &&& cv.nodes =~= req.nodes.deep_view()
    &&& cv.network == req.network@
    &&& cv.status.state == ClusterState::Pending
}

/// The operator: holds the single-consumer event queue; every method that
/// records an intent also appends exactly one event for the worker.
#[derive(Debug)]
pub struct Operator {
    queue: Vec<Event>,
}

impl Operator {
    /// The queued events, oldest first.
    pub closed spec fn queue_view(&self) -> Seq<EventView> {
        self.queue.deep_view()
    }

    /// An operator with an empty queue.
    pub fn new() -> (r: Self)
        ensures
            r.queue_view() =~= Seq::<EventView>::empty(),
    {
        Operator { queue: Vec::new() }
    }

    /// Hands the worker the oldest queued event, if any. Events leave the
    /// queue strictly in submission order.
    pub fn take_next_event(&mut self) -> (r: Option<Event>)
        ensures
            old(self).queue_view().len() == 0 ==> r is None && final (self).queue_view() == old(
                self,
            ).queue_view(),
            old(self).queue_view().len() > 0 ==> (r matches Some(e) && e@ == old(
                self,
            ).queue_view()[0] && final (self).queue_view() =~= old(self).queue_view().drop_first()),
    {
        if self.queue.len() == 0 {
            None
        } else {
            let e = self.queue.remove(0);
            proof {
                assert(final (self).queue_view() =~= old(self).queue_view().drop_first());
            }
            Some(e)
        }
    }

    /// Records a new cluster and enqueues its creation.
    ///
    /// Fails with `ResourceAlreadyExists` (changing nothing) exactly when
    /// the name is taken; otherwise persists the request as a `Pending`
    /// cluster with fresh ids on its embedded apps and resources, and
    /// appends one `CreateCluster` event.
    pub fn create_cluster(
        &mut self,
        repo: &mut Repository,
        access: AccessData,
        cluster_request: ClusterRequest,
    ) -> (r: Result<(), Error>)
        ensures
            r is Err <==> has_cluster(
                old(repo).clusters_view(),
                cluster_request.cluster_name@,
            ),
            r matches Err(e) ==> e is ResourceAlreadyExists && final (repo).clusters_view() == old(
                repo,
            ).clusters_view() && final (repo).log_view() == old(repo).log_view() && final (
            self).queue_view() == old(self).queue_view(),
            r is Ok ==> exists|cv: ClusterView|
                #[trigger] initial_cluster_from(cv, cluster_request) && final (
                repo).clusters_view() =~~= spec_save(old(repo).clusters_view(), cv),
            r is Ok ==> final (repo).log_view() == old(repo).log_view() && final (
            self).queue_view() =~= old(self).queue_view().push(
                EventView::CreateCluster { cluster_name: cluster_request.cluster_name@ },
            ),
    {
        let cluster_name = cluster_request.cluster_name.clone();
        match repo.get_cluster(cluster_name.as_str()) {
            Some(_) => Err(Error::ResourceAlreadyExists),
            None => {
                let mut apps: Vec<HelmApp> = Vec::new();
                let mut i: usize = 0;
                while i < cluster_request.helm_apps.len()
                    invariant
                        i <= cluster_request.helm_apps@.len(),
                        apps.deep_view().len() == i,
                        forall|k: int|
                            0 <= k < i ==> #[trigger] same_app_except_id(
                                apps.deep_view()[k],
                                cluster_request.helm_apps.deep_view()[k],
                            ),
                    decreases cluster_request.helm_apps@.len() - i,
                {
                    let mut app = cluster_request.helm_apps[i].clone();
                    app.id = outside::fresh_uuid();
                    let ghost av = app@;
                    let ghost old_dv = apps.deep_view();
                    apps.push(app);
                    proof {
                        assert(cluster_request.helm_apps.deep_view()[i as int]
                            == cluster_request.helm_apps@[i as int]@);
                        assert(same_app_except_id(
                            av,
                            cluster_request.helm_apps.deep_view()[i as int],
                        ));
                        assert forall|k: int|
                            0 <= k < i + 1 implies #[trigger] same_app_except_id(
                            apps.deep_view()[k],
                            cluster_request.helm_apps.deep_view()[k],
                        ) by {
                            if k < i {
                                assert(apps.deep_view()[k] == old_dv[k]);
                            } else {
                                assert(apps.deep_view()[k] == av);
                            }
                        }
                    }
                    i = i + 1;
                }
                let mut resources: Vec<crate::model::ClusterResource> = Vec::new();
                let mut j: usize = 0;
                while j < cluster_request.cluster_resources.len()
                    invariant
                        j <= cluster_request.cluster_resources@.len(),
                        resources.deep_view().len() == j,
                        forall|k: int|
                            0 <= k < j ==> #[trigger] same_resource_except_id(
                                resources.deep_view()[k],
                                cluster_request.cluster_resources.deep_view()[k],
                            ),
                    decreases cluster_request.cluster_resources@.len() - j,
                {
                    let mut res = cluster_request.cluster_resources[j].clone();
                    res.id = outside::fresh_uuid();
                    let ghost rv = res@;
                    let ghost old_dv = resources.deep_view();
                    resources.push(res);
                    proof {
                        assert(cluster_request.cluster_resources.deep_view()[j as int]
                            == cluster_request.cluster_resources@[j as int]@);
                        assert(same_resource_except_id(
                            rv,
                            cluster_request.cluster_resources.deep_view()[j as int],
                        ));
                        assert forall|k: int|
                            0 <= k < j + 1 implies #[trigger] same_resource_except_id(
                            resources.deep_view()[k],
                            cluster_request.cluster_resources.deep_view()[k],
                        ) by {
                            if k < j {
                                assert(resources.deep_view()[k] == old_dv[k]);
                            } else {
                                assert(resources.deep_view()[k] == rv);
                            }
                        }
                    }
                    j = j + 1;
                }
                let cluster = Cluster {
                    node: cluster_request.node,
                    cluster_name: cluster_request.cluster_name,
                    os_image: Some(cluster_request.os_image),
                    os_image_storage: Some(cluster_request.os_image_storage),
                    kube_version: Some(cluster_request.kube_version),
                    cluster_config: String::new(),
                    ssh_key: cluster_request.ssh_key,
                    node_username: cluster_request.node_username,
                    node_password: cluster_request.node_password,
                    helm_apps: apps,
                    cluster_resources: resources,
                    disk_size: cluster_request.disk_size,
                    nodes: cluster_request.nodes,
                    network: cluster_request.network,
                    status: ClusterStatus::from_state(ClusterState::Pending),
                };
                proof {
                    assert(initial_cluster_from(cluster@, cluster_request));
                }
                repo.save_cluster(cluster);
                let ghost old_q = self.queue.deep_view();
                self.queue.push(
                    Event::CreateCluster { access, cluster_name: cluster_name.clone() },
                );
                proof {
                    assert(self.queue.deep_view() =~= old_q.push(
                        EventView::CreateCluster {
                            cluster_name: cluster_request.cluster_name@,
                        },
                    ));
                }
                Ok(())
            },
        }
    }

    /// Appends the requested node with `lock = Create`, persists, records an
    /// audit entry, enqueues the add, and returns the (still locked) node.
    /// Fails (changing nothing) when the cluster is missing.
    pub fn add_node_cluster(
        &mut self,
        repo: &mut Repository,
        access: AccessData,
        cluster_name: String,
        node_request: ClusterNode,
    ) -> (r: Result<ClusterNode, Error>)
        ensures
            r is Err <==> !has_cluster(old(repo).clusters_view(), cluster_name@),
            r matches Err(e) ==> e is Generic && final (repo).clusters_view() == old(
                repo,
            ).clusters_view() && final (self).queue_view() == old(self).queue_view(),
            r matches Ok(n) ==> {
                &&& n@ =~= ClusterNodeView {
                    lock: Some(ClusterNodeLock::Create),
                    ..node_request@
                }
                &&& final (repo).clusters_view() =~~= spec_save(
                    old(repo).clusters_view(),
                    ClusterView {
                        nodes: (spec_get(old(repo).clusters_view(), cluster_name@)->0).nodes.push(
                            n@,
                        ),
                        ..spec_get(old(repo).clusters_view(), cluster_name@)->0
                    },
                )
                &&& final (self).queue_view() =~= old(self).queue_view().push(
                    EventView::AddNodeToCluster {
                        cluster_name: cluster_name@,
                        node_name: node_request.name@,
                    },
                )
            },
    {
        let cluster = match repo.get_cluster(cluster_name.as_str()) {
            Some(c) => c,
            None => {
                return Err(Error::Generic(String::from_str("Cannot get cluster")));
            },
        };
        let mut cluster = cluster;
        let mut node_request = node_request;
        node_request.lock = Some(ClusterNodeLock::Create);
        let node_name = node_request.name.clone();
        let result = node_request.clone();
        let ghost cv = spec_get(old(repo).clusters_view(), cluster_name@)->0;
        cluster.nodes.push(node_request);
        proof {
            assert(cluster@ =~= ClusterView { nodes: cv.nodes.push(result@), ..cv });
        }
        repo.save_cluster(cluster);
        let mut m = msg_text("Adding node [", node_name.as_str(), "] to cluster [");
        m.append(cluster_name.as_str());
        m.append("] has been started");
        repo.save_log(LogEntry::info(cluster_name.as_str(), m));
        let ghost old_q = self.queue.deep_view();
        self.queue.push(
            Event::AddNodeToCluster { access, cluster_name: cluster_name.clone(), node_name },
        );
        proof {
            assert(self.queue.deep_view() =~= old_q.push(
                EventView::AddNodeToCluster {
                    cluster_name: cluster_name@,
                    node_name: result@.name,
                },
            ));
        }
        Ok(result)
    }

    /// Marks the named node `lock = Delete`, persists, enqueues the
    /// deletion, and returns the (locked) node. An audit entry is written
    /// first in every case; `ResourceNotFound` (with the store otherwise
    /// unchanged) reports a missing cluster or node.
    pub fn delete_node_from_cluster(
        &mut self,
        repo: &mut Repository,
        access: AccessData,
        cluster_name: String,
        node_name: String,
    ) -> (r: Result<ClusterNode, Error>)
        ensures
            r is Ok <==> (has_cluster(old(repo).clusters_view(), cluster_name@) && has_node(
                (spec_get(old(repo).clusters_view(), cluster_name@)->0).nodes,
                node_name@,
            )),
            r matches Err(e) ==> e is ResourceNotFound && final (repo).clusters_view() == old(
                repo,
            ).clusters_view() && final (self).queue_view() == old(self).queue_view(),
            r matches Ok(n) ==> {
                &&& n@.lock == Some(ClusterNodeLock::Delete)
                &&& n@.name == node_name@
                &&& exists|i: int|
                    0 <= i < (spec_get(old(repo).clusters_view(), cluster_name@)->0).nodes.len()
                        && (#[trigger] (spec_get(
                        old(repo).clusters_view(),
                        cluster_name@,
                    )->0).nodes[i]).name == node_name@ && (forall|j: int|
                        0 <= j < i ==> (#[trigger] (spec_get(
                            old(repo).clusters_view(),
                            cluster_name@,
                        )->0).nodes[j]).name != node_name@) && n@ == crate::model::locked_as(
                        (spec_get(old(repo).clusters_view(), cluster_name@)->0).nodes[i],
                        ClusterNodeLock::Delete,
                    )
                &&& final (repo).clusters_view() =~~= spec_save(
                    old(repo).clusters_view(),
                    ClusterView {
                        nodes: spec_lock_first(
                            (spec_get(old(repo).clusters_view(), cluster_name@)->0).nodes,
                            node_name@,
                            ClusterNodeLock::Delete,
                        ),
                        ..spec_get(old(repo).clusters_view(), cluster_name@)->0
                    },
                )
                &&& final (self).queue_view() =~= old(self).queue_view().push(
                    EventView::DeleteNodeFromCluster {
                        cluster_name: cluster_name@,
                        node_name: node_name@,
                    },
                )
            },
    {
        repo.save_log(
            LogEntry::info(
                cluster_name.as_str(),
                msg_text("Deleting node [", node_name.as_str(), "] from cluster has been started"),
            ),
        );
        let cluster = match repo.get_cluster(cluster_name.as_str()) {
            Some(c) => c,
            None => {
                return Err(Error::ResourceNotFound);
            },
        };
        let mut cluster = cluster;
        let ghost cv = spec_get(old(repo).clusters_view(), cluster_name@)->0;
        let node = match crate::model::set_node_lock_first(
            &mut cluster,
            node_name.as_str(),
            ClusterNodeLock::Delete,
        ) {
            Ok(n) => n,
            Err(_) => {
                return Err(Error::ResourceNotFound);
            },
        };
        proof {
            assert(cluster@ =~= ClusterView {
                nodes: spec_lock_first(cv.nodes, node_name@, ClusterNodeLock::Delete),
                ..cv
            });
        }
        repo.save_cluster(cluster);
        let ghost old_q = self.queue.deep_view();
        self.queue.push(
            Event::DeleteNodeFromCluster {
                access,
                cluster_name: cluster_name.clone(),
                node_name: node_name.clone(),
            },
        );
        proof {
            assert(self.queue.deep_view() =~= old_q.push(
                EventView::DeleteNodeFromCluster {
                    cluster_name: cluster_name@,
                    node_name: node_name@,
                },
            ));
        }
        Ok(node)
    }

    /// Marks every node of the given name `lock = ChangeResources`,
    /// persists, and enqueues the resize. Fails (changing nothing) when the
    /// cluster is missing; a missing node is left for the workflow to
    /// report.
    pub fn change_node_resources(
        &mut self,
        repo: &mut Repository,
        access: AccessData,
        cluster_name: String,
        node_name: String,
        cores: u16,
        memory: u32,
    ) -> (r: Result<(), Error>)
        ensures
            r is Err <==> !has_cluster(old(repo).clusters_view(), cluster_name@),
            r matches Err(e) ==> e is Generic && final (repo).clusters_view() == old(
                repo,
            ).clusters_view() && final (self).queue_view() == old(self).queue_view(),
            r is Ok ==> {
                &&& final (repo).clusters_view() =~~= spec_save(
                    old(repo).clusters_view(),
                    ClusterView {
                        nodes: (spec_get(
                            old(repo).clusters_view(),
                            cluster_name@,
                        )->0).nodes.map_values(
                            lock_all_fn(node_name@, ClusterNodeLock::ChangeResources),
                        ),
                        ..spec_get(old(repo).clusters_view(), cluster_name@)->0
                    },
                )
                &&& final (self).queue_view() =~= old(self).queue_view().push(
                    EventView::ChangeNodeResources {
                        cluster_name: cluster_name@,
                        node_name: node_name@,
                        cores,
                        memory,
                    },
                )
            },
    {
        let cluster = match repo.get_cluster(cluster_name.as_str()) {
            Some(c) => c,
            None => {
                return Err(Error::Generic(String::from_str("Cannot get cluster")));
            },
        };
        let mut cluster = cluster;
        let ghost cv = spec_get(old(repo).clusters_view(), cluster_name@)->0;
        crate::model::set_node_lock_all(
            &mut cluster,
            node_name.as_str(),
            ClusterNodeLock::ChangeResources,
        );
        proof {
            assert(cluster@ =~= ClusterView {
                nodes: cv.nodes.map_values(
                    lock_all_fn(node_name@, ClusterNodeLock::ChangeResources),
                ),
                ..cv
            });
        }
        repo.save_cluster(cluster);
        let ghost old_q = self.queue.deep_view();
        self.queue.push(
            Event::ChangeNodeResources {
                access,
                cluster_name: cluster_name.clone(),
                node_name: node_name.clone(),
                cores,
                memory,
            },
        );
        proof {
            assert(self.queue.deep_view() =~= old_q.push(
                EventView::ChangeNodeResources {
                    cluster_name: cluster_name@,
                    node_name: node_name@,
                    cores,
                    memory,
                },
            ));
        }
        Ok(())
    }

    /// Marks the cluster `Destroying`, persists, records an audit entry, and
    /// enqueues the teardown. Fails (changing nothing) when the cluster is
    /// missing.
    pub fn delete_cluster(
        &mut self,
        repo: &mut Repository,
        access: AccessData,
        cluster_name: String,
    ) -> (r: Result<(), Error>)
        ensures
            r is Err <==> !has_cluster(old(repo).clusters_view(), cluster_name@),
            r matches Err(e) ==> e is Generic && final (repo).clusters_view() == old(
                repo,
            ).clusters_view() && final (self).queue_view() == old(self).queue_view(),
            r is Ok ==> exists|ts: i64|
                final (repo).clusters_view() =~~= spec_save(
                    old(repo).clusters_view(),
                    #[trigger] crate::dispatcher::with_status(
                        spec_get(old(repo).clusters_view(), cluster_name@)->0,
                        ClusterState::Destroying,
                        ts,
                    ),
                ),
            r is Ok ==> final (self).queue_view() =~= old(self).queue_view().push(
                EventView::DeleteCluster { cluster_name: cluster_name@ },
            ),
    {
        let cluster = match repo.get_cluster(cluster_name.as_str()) {
            Some(c) => c,
            None => {
                return Err(Error::Generic(String::from_str("Cannot get cluster")));
            },
        };
        let mut cluster = cluster;
        let status = ClusterStatus::from_state(ClusterState::Destroying);
        cluster.status = status;
        let ghost cv = spec_get(old(repo).clusters_view(), cluster_name@)->0;
        proof {
            assert(cluster@ =~= crate::dispatcher::with_status(
                cv,
                ClusterState::Destroying,
                status.last_update,
            ));
        }
        repo.save_cluster(cluster);
        repo.save_log(
            LogEntry::info(cluster_name.as_str(), String::from_str("Cluster deletion started")),
        );
        let ghost old_q = self.queue.deep_view();
        self.queue.push(Event::DeleteCluster { access, cluster_name: cluster_name.clone() });
        proof {
            assert(self.queue.deep_view() =~= old_q.push(
                EventView::DeleteCluster { cluster_name: cluster_name@ },
            ));
        }
        Ok(())
    }

    /// The stored cluster of the given name, if any.
    pub fn get_cluster(&self, repo: &Repository, cluster_name: &str) -> (r: Option<Cluster>)
        ensures
            match r {
                Some(c) => spec_get(repo.clusters_view(), cluster_name@) == Some(c@),
                None => !has_cluster(repo.clusters_view(), cluster_name@),
            },
    {
        repo.get_cluster(cluster_name)
    }

    /// The node records of the named cluster; `ResourceNotFound` when the
    /// cluster is missing.
    pub fn get_nodes(&self, repo: &Repository, cluster_name: &str) -> (r: Result<
        Vec<ClusterNode>,
        Error,
    >)
        ensures
            r is Ok <==> has_cluster(repo.clusters_view(), cluster_name@),
            r matches Ok(nodes) ==> nodes.deep_view() =~~= (spec_get(
                repo.clusters_view(),
                cluster_name@,
            )->0).nodes,
            r matches Err(e) ==> e is ResourceNotFound,
    {
        match repo.get_cluster(cluster_name) {
            Some(c) => Ok(c.nodes),
            None => Err(Error::ResourceNotFound),
        }
    }

    /// The audit entries of the named cluster, most recent first.
    pub fn logs_for_cluster(&self, repo: &Repository, name: &str) -> (r: Vec<LogEntry>)
        ensures
            r.deep_view() =~= crate::store::sort_desc(
                crate::store::log_of(repo.log_view(), name@),
            ),
    {
        repo.logs(name)
    }
}

/// `v` capped at `cap`.
pub open spec fn clamp(v: int, cap: int) -> int {
    if v > cap {
        cap
    } else {
        v
    }
}

/// The total cores of a node list.
pub open spec fn sum_cores(s: Seq<ClusterNodeView>) -> int
    decreases s.len(),
{
    if s.len() == 0 {
        0
    } else {
        sum_cores(s.drop_last()) + s.last().cores
    }
}

/// The total memory (MiB) of a node list.
pub open spec fn sum_memory(s: Seq<ClusterNodeView>) -> int
    decreases s.len(),
{
    if s.len() == 0 {
        0
    } else {
        sum_memory(s.drop_last()) + s.last().memory
    }
}

/// The readiness text of the first `Ready` condition, or empty text when
/// there is none.
pub open spec fn spec_ready_condition(conds: Seq<crate::model::StatusConditionView>) -> Seq<char>
    decreases conds.len(),
{
    if conds.len() == 0 {
        Seq::empty()
    } else if conds[0].condition_type == "Ready"@ {
        conds[0].status
    } else {
        spec_ready_condition(conds.drop_first())
    }
}

/// The readiness text reported for `host`: the `Ready` condition of the
/// first item carrying the name, or empty text when no item does.
pub open spec fn spec_ready_of(items: Seq<ItemView>, host: Seq<char>) -> Seq<char>
    decreases items.len(),
{
    if items.len() == 0 {
        Seq::empty()
    } else if items[0].name == host {
        spec_ready_condition(items[0].conditions)
    } else {
        spec_ready_of(items.drop_first(), host)
    }
}

/// The deployment status of release `name` in `ns`: the status of the first
/// matching release, or `NotInstalled` when none matches.
pub open spec fn spec_release_status(
    rs: Seq<crate::model::InstalledReleaseView>,
    name: Seq<char>,
    ns: Seq<char>,
) -> AppStatusType
    decreases rs.len(),
{
    if rs.len() == 0 {
        AppStatusType::NotInstalled
    } else if rs[0].name == name && rs[0].namespace == ns {
        rs[0].status
    } else {
        spec_release_status(rs.drop_first(), name, ns)
    }
}

/// The readiness text of the first `Ready` condition of `conds`.
fn ready_condition(conds: &Vec<crate::model::StatusCondition>) -> (r: String)
    ensures
        r@ == spec_ready_condition(conds.deep_view()),
{
    let ghost cv = conds.deep_view();
    let mut k: usize = 0;
    proof {
        assert(cv.skip(0) =~= cv);
    }
    while k < conds.len()
        invariant
            k <= cv.len(),
            conds.deep_view() == cv,
            cv.len() == conds@.len(),
            spec_ready_condition(cv) == spec_ready_condition(cv.skip(k as int)),
        decreases conds@.len() - k,
    {
        proof {
            assert(cv.skip(k as int)[0] == cv[k as int]);
            assert(cv[k as int] == conds@[k as int]@);
            assert(cv.skip(k as int).drop_first() =~= cv.skip(k + 1));
        }
        if str_eq(conds[k].condition_type.as_str(), "Ready") {
            return conds[k].status.clone();
        }
        k = k + 1;
    }
    proof {
        assert(cv.skip(cv.len() as int) =~= Seq::<crate::model::StatusConditionView>::empty());
    }
    String::new()
}

/// The readiness text reported for `host` in a node listing.
fn ready_of(nodes: &Nodes, host: &str) -> (r: String)
    ensures
        r@ == spec_ready_of(nodes.items.deep_view(), host@),
{
    let ghost iv = nodes.items.deep_view();
    let mut k: usize = 0;
    proof {
        assert(iv.skip(0) =~= iv);
    }
    while k < nodes.items.len()
        invariant
            k <= iv.len(),
            nodes.items.deep_view() == iv,
            iv.len() == nodes.items@.len(),
            spec_ready_of(iv, host@) == spec_ready_of(iv.skip(k as int), host@),
        decreases nodes.items@.len() - k,
    {
        proof {
            assert(iv.skip(k as int)[0] == iv[k as int]);
            assert(iv[k as int] == nodes.items@[k as int]@);
            assert(iv.skip(k as int).drop_first() =~= iv.skip(k + 1));
        }
        if str_eq(nodes.items[k].metadata.name.as_str(), host) {
            return ready_condition(&nodes.items[k].status.conditions);
        }
        k = k + 1;
    }
    proof {
        assert(iv.skip(iv.len() as int) =~= Seq::<ItemView>::empty());
    }
    String::new()
}

/// The deployment status of the first release matching name and namespace.
fn release_status(rs: &Vec<InstalledRelease>, name: &str, ns: &str) -> (r: AppStatusType)
    ensures
        r == spec_release_status(rs.deep_view(), name@, ns@),
{
    let ghost rv = rs.deep_view();
    let mut k: usize = 0;
    proof {
        assert(rv.skip(0) =~= rv);
    }
    while k < rs.len()
        invariant
            k <= rv.len(),
            rs.deep_view() == rv,
            rv.len() == rs@.len(),
            spec_release_status(rv, name@, ns@) == spec_release_status(
                rv.skip(k as int),
                name@,
                ns@,
            ),
        decreases rs@.len() - k,
    {
        proof {
            assert(rv.skip(k as int)[0] == rv[k as int]);
            assert(rv[k as int] == rs@[k as int]@);
            assert(rv.skip(k as int).drop_first() =~= rv.skip(k + 1));
        }
        if str_eq(rs[k].name.as_str(), name) && str_eq(rs[k].namespace.as_str(), ns) {
            return rs[k].status;
        }
        k = k + 1;
    }
    proof {
        assert(rv.skip(rv.len() as int) =~= Seq::<crate::model::InstalledReleaseView>::empty());
    }
    AppStatusType::NotInstalled
}

impl Operator {
    /// One-line summaries of every stored cluster, with saturating resource
    /// totals (a sum past its field's range reads as the range's maximum,
    /// and a node count past `u16` reads as zero).
    pub fn get_clusters(&self, repo: &Repository) -> (r: Vec<ClusterHeader>)
        ensures
            r@.len() == repo.clusters_view().len(),
            forall|i: int|
                0 <= i < r@.len() ==> {
                    let cv = #[trigger] repo.clusters_view()[i];
                    &&& r@[i].name@ == cv.cluster_name
                    &&& r@[i].status == cv.status
                    &&& r@[i].nodes_count == (if cv.nodes.len() <= u16::MAX {
                        cv.nodes.len() as u16
                    } else {
                        0u16
                    })
                    &&& r@[i].cores_sum == clamp(sum_cores(cv.nodes), u16::MAX as int)
                    &&& r@[i].memory_sum == clamp(sum_memory(cv.nodes), u32::MAX as int)
                    &&& r@[i].disk_size_sum == clamp(
                        cv.nodes.len() * cv.disk_size,
                        u32::MAX as int,
                    )
                },
    {
        let clusters = repo.get_clusters();
        let mut out: Vec<ClusterHeader> = Vec::new();
        let mut i: usize = 0;
        while i < clusters.len()
            invariant
                i <= clusters@.len(),
                clusters.deep_view() =~= repo.clusters_view(),
                clusters@.len() == repo.clusters_view().len(),
                out@.len() == i,
                forall|x: int|
                    0 <= x < i ==> {
                        let cv = #[trigger] repo.clusters_view()[x];
                        &&& out@[x].name@ == cv.cluster_name
                        &&& out@[x].status == cv.status
                        &&& out@[x].nodes_count == (if cv.nodes.len() <= u16::MAX {
                            cv.nodes.len() as u16
                        } else {
                            0u16
                        })
                        &&& out@[x].cores_sum == clamp(sum_cores(cv.nodes), u16::MAX as int)
                        &&& out@[x].memory_sum == clamp(sum_memory(cv.nodes), u32::MAX as int)
                        &&& out@[x].disk_size_sum == clamp(
                            cv.nodes.len() * cv.disk_size,
                            u32::MAX as int,
                        )
                    },
            decreases clusters@.len() - i,
        {
            let c = &clusters[i];
            let ghost cv = repo.clusters_view()[i as int];
            proof {
                assert(clusters.deep_view()[i as int] == clusters@[i as int]@);
                assert(c@ == cv);
            }
            let mut cores: u64 = 0;
            let mut memory: u64 = 0;
            let mut disk: u64 = 0;
            let mut k: usize = 0;
            while k < c.nodes.len()
                invariant
                    k <= c.nodes@.len(),
                    c@ == cv,
                    cv.nodes.len() == c.nodes@.len(),
                    cores == clamp(sum_cores(cv.nodes.subrange(0, k as int)), u16::MAX as int),
                    memory == clamp(sum_memory(cv.nodes.subrange(0, k as int)), u32::MAX as int),
                    disk == clamp((k as int) * cv.disk_size, u32::MAX as int),
                decreases c.nodes@.len() - k,
            {
                proof {
                    assert(cv.nodes[k as int] == c.nodes@[k as int]@);
                    assert(cv.nodes.subrange(0, k + 1).drop_last() =~= cv.nodes.subrange(
                        0,
                        k as int,
                    ));
                    assert(cv.nodes.subrange(0, k + 1).last() == cv.nodes[k as int]);
                    assert((k as int + 1) * cv.disk_size == (k as int) * cv.disk_size
                        + cv.disk_size) by (nonlinear_arith);
                }
                cores = cores + c.nodes[k].cores as u64;
                if cores > 65535 {
                    cores = 65535;
                }
                memory = memory + c.nodes[k].memory as u64;
                if memory > 0xffff_ffff {
                    memory = 0xffff_ffff;
                }
                disk = disk + c.disk_size as u64;
                if disk > 0xffff_ffff {
                    disk = 0xffff_ffff;
                }
                k = k + 1;
            }
            proof {
                assert(cv.nodes.subrange(0, cv.nodes.len() as int) =~= cv.nodes);
            }
            let nodes_count: u16 = if c.nodes.len() <= 65535 {
                c.nodes.len() as u16
            } else {
                0
            };
            let header = ClusterHeader {
                name: c.cluster_name.clone(),
                nodes_count,
                cores_sum: cores as u16,
                memory_sum: memory as u32,
                disk_size_sum: disk as u32,
                status: c.status,
            };
            out.push(header);
            i = i + 1;
        }
        out
    }

    /// The per-node readiness of a cluster, merged from a best-effort
    /// Kubernetes node listing: every node reads `Unknown` when the probe
    /// failed (`None`), and otherwise carries what the listing's `Ready`
    /// condition says for its `{cluster}-{name}` hostname.
    pub fn cluster_status_merge(cluster: &Cluster, kube_nodes: Option<&Nodes>) -> (r: Vec<
        ClusterNodeStatus,
    >)
        ensures
            r@.len() == cluster@.nodes.len(),
            forall|i: int|
                0 <= i < r@.len() ==> #[trigger] r@[i].name@ == crate::plans::spec_hostname(
                    cluster@.cluster_name,
                    cluster@.nodes[i].name,
                ),
            kube_nodes is None ==> forall|i: int|
                0 <= i < r@.len() ==> #[trigger] r@[i].status == KubeStatus::Unknown,
            kube_nodes matches Some(kn) ==> forall|i: int|
                0 <= i < r@.len() ==> #[trigger] r@[i].status == crate::model::spec_kube_status(
                    outside::lower_of(
                        outside::trimmed_of(
                            spec_ready_of(
                                kn.items.deep_view(),
                                crate::plans::spec_hostname(
                                    cluster@.cluster_name,
                                    cluster@.nodes[i].name,
                                ),
                            ),
                        ),
                    ),
                ),
    {
        let mut out: Vec<ClusterNodeStatus> = Vec::new();
        let mut i: usize = 0;
        while i < cluster.nodes.len()
            invariant
                i <= cluster.nodes@.len(),
                cluster@.nodes.len() == cluster.nodes@.len(),
                out@.len() == i,
                forall|x: int|
                    0 <= x < i ==> #[trigger] out@[x].name@ == crate::plans::spec_hostname(
                        cluster@.cluster_name,
                        cluster@.nodes[x].name,
                    ),
                kube_nodes is None ==> forall|x: int|
                    0 <= x < i ==> #[trigger] out@[x].status == KubeStatus::Unknown,
                kube_nodes matches Some(kn) ==> forall|x: int|
                    0 <= x < i ==> #[trigger] out@[x].status == crate::model::spec_kube_status(
                        outside::lower_of(
                            outside::trimmed_of(
                                spec_ready_of(
                                    kn.items.deep_view(),
                                    crate::plans::spec_hostname(
                                        cluster@.cluster_name,
                                        cluster@.nodes[x].name,
                                    ),
                                ),
                            ),
                        ),
                    ),
            decreases cluster.nodes@.len() - i,
        {
            proof {
                assert(cluster@.nodes[i as int] == cluster.nodes@[i as int]@);
            }
            let host = crate::plans::hostname(
                cluster.cluster_name.as_str(),
                cluster.nodes[i].name.as_str(),
            );
            let status = match kube_nodes {
                None => KubeStatus::Unknown,
                Some(kn) => {
                    let raw = ready_of(kn, host.as_str());
                    KubeStatus::from_str(raw.as_str())
                },
            };
            out.push(ClusterNodeStatus { name: host, status });
            i = i + 1;
        }
        out
    }

    /// The per-app deployment status of a cluster, merged from a
    /// best-effort release listing: every app reads `Unknown` when the
    /// probe failed (`None`), and otherwise the status of its matching
    /// release — `NotInstalled` when the listing has none.
    pub fn apps_status_merge(cluster: &Cluster, releases: Option<&Vec<InstalledRelease>>) -> (r:
        Vec<AppStatus>)
        ensures
            r@.len() == cluster@.helm_apps.len(),
            forall|i: int|
                0 <= i < r@.len() ==> #[trigger] r@[i].id@ == cluster@.helm_apps[i].id,
            releases is None ==> forall|i: int|
                0 <= i < r@.len() ==> #[trigger] r@[i].status == AppStatusType::Unknown,
            releases matches Some(rs) ==> forall|i: int|
                0 <= i < r@.len() ==> #[trigger] r@[i].status == spec_release_status(
                    rs.deep_view(),
                    cluster@.helm_apps[i].release_name,
                    cluster@.helm_apps[i].namespace,
                ),
    {
        let mut out: Vec<AppStatus> = Vec::new();
        let mut i: usize = 0;
        while i < cluster.helm_apps.len()
            invariant
                i <= cluster.helm_apps@.len(),
                cluster@.helm_apps.len() == cluster.helm_apps@.len(),
                out@.len() == i,
                forall|x: int|
                    0 <= x < i ==> #[trigger] out@[x].id@ == cluster@.helm_apps[x].id,
                releases is None ==> forall|x: int|
                    0 <= x < i ==> #[trigger] out@[x].status == AppStatusType::Unknown,
                releases matches Some(rs) ==> forall|x: int|
                    0 <= x < i ==> #[trigger] out@[x].status == spec_release_status(
                        rs.deep_view(),
                        cluster@.helm_apps[x].release_name,
                        cluster@.helm_apps[x].namespace,
                    ),
            decreases cluster.helm_apps@.len() - i,
        {
            proof {
                assert(cluster@.helm_apps[i as int] == cluster.helm_apps@[i as int]@);
            }
            let app = &cluster.helm_apps[i];
            let status = match releases {
                None => AppStatusType::Unknown,
                Some(rs) => release_status(rs, app.release_name.as_str(), app.namespace.as_str()),
            };
            out.push(AppStatus { id: app.id.clone(), status });
            i = i + 1;
        }
        out
    }
}

/// Replacement of any app carrying `av`'s id by `av` itself.
pub open spec fn update_app_fn(av: HelmAppView) -> spec_fn(HelmAppView) -> HelmAppView {
    |x: HelmAppView|
        if x.id == av.id {
            av
        } else {
            x
        }
}

/// Replacement of any resource carrying `rv`'s id by `rv` itself.
pub open spec fn update_resource_fn(rv: crate::model::ClusterResourceView) -> spec_fn(
    crate::model::ClusterResourceView,
) -> crate::model::ClusterResourceView {
    |x: crate::model::ClusterResourceView|
        if x.id == rv.id {
            rv
        } else {
            x
        }
}

impl Operator {
    /// Stores a new Helm app on the named cluster under a freshly assigned
    /// id, and returns that id. Fails (changing nothing) when the cluster
    /// is missing.
    pub fn save_helm_app(&self, repo: &mut Repository, cluster_name: &str, app: HelmApp) -> (r:
        Result<String, Error>)
        ensures
            r is Err <==> !has_cluster(old(repo).clusters_view(), cluster_name@),
            r matches Err(e) ==> e is ResourceNotFound && final (repo).clusters_view() == old(
                repo,
            ).clusters_view(),
            r matches Ok(id) ==> final (repo).clusters_view() =~~= spec_save(
                old(repo).clusters_view(),
                ClusterView {
                    helm_apps: (spec_get(
                        old(repo).clusters_view(),
                        cluster_name@,
                    )->0).helm_apps.push(HelmAppView { id: id@, ..app@ }),
                    ..spec_get(old(repo).clusters_view(), cluster_name@)->0
                },
            ),
    {
        let cluster = match repo.get_cluster(cluster_name) {
            Some(c) => c,
            None => {
                return Err(Error::ResourceNotFound);
            },
        };
        let mut cluster = cluster;
        let ghost cv = spec_get(old(repo).clusters_view(), cluster_name@)->0;
        let app_id = outside::fresh_uuid();
        let mut app = app;
        app.id = app_id.clone();
        let ghost av = app@;
        cluster.helm_apps.push(app);
        proof {
            assert(cluster@ =~= ClusterView { helm_apps: cv.helm_apps.push(av), ..cv });
        }
        repo.save_cluster(cluster);
        Ok(app_id)
    }

    /// Replaces the stored fields of the app carrying `app`'s id (the id
    /// itself never changes). Fails (changing nothing) when the cluster or
    /// the app is missing.
    pub fn update_helm_app(&self, repo: &mut Repository, cluster_name: &str, app: HelmApp) -> (r:
        Result<(), Error>)
        ensures
            r matches Err(e) ==> e is ResourceNotFound,
            r is Ok ==> has_cluster(old(repo).clusters_view(), cluster_name@) && final (
            repo).clusters_view() =~~= spec_save(
                old(repo).clusters_view(),
                ClusterView {
                    helm_apps: (spec_get(
                        old(repo).clusters_view(),
                        cluster_name@,
                    )->0).helm_apps.map_values(update_app_fn(app@)),
                    ..spec_get(old(repo).clusters_view(), cluster_name@)->0
                },
            ),
    {
        let cluster = match repo.get_cluster(cluster_name) {
            Some(c) => c,
            None => {
                return Err(Error::ResourceNotFound);
            },
        };
        let mut cluster = cluster;
        let ghost cv = spec_get(old(repo).clusters_view(), cluster_name@)->0;
        let ghost av = app@;
        let mut found = false;
        let mut out: Vec<HelmApp> = Vec::new();
        let mut i: usize = 0;
        while i < cluster.helm_apps.len()
            invariant
                i <= cv.helm_apps.len(),
                cluster.helm_apps.deep_view() == cv.helm_apps,
                cv.helm_apps.len() == cluster.helm_apps@.len(),
                av == app@,
                out.deep_view() =~= cv.helm_apps.subrange(0, i as int).map_values(
                    update_app_fn(av),
                ),
                found <==> exists|k: int|
                    0 <= k < i && (#[trigger] cv.helm_apps[k]).id == av.id,
            decreases cluster.helm_apps@.len() - i,
        {
            proof {
                assert(cv.helm_apps[i as int] == cluster.helm_apps@[i as int]@);
                assert(cv.helm_apps.subrange(0, i + 1) =~= cv.helm_apps.subrange(0, i as int).push(
                    cv.helm_apps[i as int],
                ));
                assert(cv.helm_apps.subrange(0, i + 1).map_values(update_app_fn(av))
                    =~= cv.helm_apps.subrange(0, i as int).map_values(update_app_fn(av)).push(
                    update_app_fn(av)(cv.helm_apps[i as int]),
                ));
            }
            let matches_id = str_eq(cluster.helm_apps[i].id.as_str(), app.id.as_str());
            let ghost old_dv = out.deep_view();
            if matches_id {
                let mut replacement = app.clone();
                replacement.id = cluster.helm_apps[i].id.clone();
                proof {
                    assert(replacement@ =~= update_app_fn(av)(cv.helm_apps[i as int]));
                }
                out.push(replacement);
                found = true;
            } else {
                out.push(cluster.helm_apps[i].clone());
            }
            proof {
                assert forall|k: int|
                    0 <= k < i + 1 implies out.deep_view()[k] == cv.helm_apps.subrange(
                    0,
                    i + 1,
                ).map_values(update_app_fn(av))[k] by {
                    if k < i {
                        assert(out.deep_view()[k] == old_dv[k]);
                    } else {
                        assert(out.deep_view()[k] == out@[k].deep_view());
                    }
                }
                assert(out.deep_view() =~= cv.helm_apps.subrange(0, i + 1).map_values(
                    update_app_fn(av),
                ));
            }
            i = i + 1;
        }
        if !found {
            return Err(Error::ResourceNotFound);
        }
        proof {
            assert(cv.helm_apps.subrange(0, cv.helm_apps.len() as int) =~= cv.helm_apps);
        }
        cluster.helm_apps = out;
        proof {
            assert(cluster@ =~= ClusterView {
                helm_apps: cv.helm_apps.map_values(update_app_fn(av)),
                ..cv
            });
        }
        repo.save_cluster(cluster);
        Ok(())
    }

    /// Drops every app carrying `app_id` from the named cluster. Fails
    /// (changing nothing) when the cluster is missing.
    pub fn delete_helm_app(&self, repo: &mut Repository, cluster_name: &str, app_id: &str) -> (r:
        Result<(), Error>)
        ensures
            r is Err <==> !has_cluster(old(repo).clusters_view(), cluster_name@),
            r matches Err(e) ==> e is ResourceNotFound && final (repo).clusters_view() == old(
                repo,
            ).clusters_view(),
            r is Ok ==> final (repo).clusters_view() =~~= spec_save(
                old(repo).clusters_view(),
                ClusterView {
                    helm_apps: (spec_get(
                        old(repo).clusters_view(),
                        cluster_name@,
                    )->0).helm_apps.filter(|a: HelmAppView| a.id != app_id@),
                    ..spec_get(old(repo).clusters_view(), cluster_name@)->0
                },
            ),
    {
        let cluster = match repo.get_cluster(cluster_name) {
            Some(c) => c,
            None => {
                return Err(Error::ResourceNotFound);
            },
        };
        let mut cluster = cluster;
        let ghost cv = spec_get(old(repo).clusters_view(), cluster_name@)->0;
        let mut kept: Vec<HelmApp> = Vec::new();
        let mut i: usize = 0;
        while i < cluster.helm_apps.len()
            invariant
                i <= cv.helm_apps.len(),
                cluster.helm_apps.deep_view() == cv.helm_apps,
                cv.helm_apps.len() == cluster.helm_apps@.len(),
                kept.deep_view() =~= cv.helm_apps.subrange(0, i as int).filter(
                    |a: HelmAppView| a.id != app_id@,
                ),
            decreases cluster.helm_apps@.len() - i,
        {
            let ghost prefix = cv.helm_apps.subrange(0, i as int);
            proof {
                assert(cv.helm_apps[i as int] == cluster.helm_apps@[i as int]@);
            }
            if !str_eq(cluster.helm_apps[i].id.as_str(), app_id) {
                kept.push(cluster.helm_apps[i].clone());
            }
            proof {
                reveal(Seq::filter);
                assert(cv.helm_apps.subrange(0, i + 1).drop_last() =~= prefix);
            }
            i = i + 1;
        }
        proof {
            assert(cv.helm_apps.subrange(0, cv.helm_apps.len() as int) =~= cv.helm_apps);
        }
        cluster.helm_apps = kept;
        proof {
            assert(cluster@ =~= ClusterView {
                helm_apps: cv.helm_apps.filter(|a: HelmAppView| a.id != app_id@),
                ..cv
            });
        }
        repo.save_cluster(cluster);
        Ok(())
    }

    /// Stores a new manifest resource on the named cluster under a freshly
    /// assigned id, and returns that id. Fails (changing nothing) when the
    /// cluster is missing.
    pub fn save_cluster_resource(
        &self,
        repo: &mut Repository,
        cluster_name: &str,
        res: crate::model::ClusterResource,
    ) -> (r: Result<String, Error>)
        ensures
            r is Err <==> !has_cluster(old(repo).clusters_view(), cluster_name@),
            r matches Err(e) ==> e is ResourceNotFound && final (repo).clusters_view() == old(
                repo,
            ).clusters_view(),
            r matches Ok(id) ==> final (repo).clusters_view() =~~= spec_save(
                old(repo).clusters_view(),
                ClusterView {
                    cluster_resources: (spec_get(
                        old(repo).clusters_view(),
                        cluster_name@,
                    )->0).cluster_resources.push(
                        crate::model::ClusterResourceView { id: id@, ..res@ },
                    ),
                    ..spec_get(old(repo).clusters_view(), cluster_name@)->0
                },
            ),
    {
        let cluster = match repo.get_cluster(cluster_name) {
            Some(c) => c,
            None => {
                return Err(Error::ResourceNotFound);
            },
        };
        let mut cluster = cluster;
        let ghost cv = spec_get(old(repo).clusters_view(), cluster_name@)->0;
        let res_id = outside::fresh_uuid();
        let mut res = res;
        res.id = res_id.clone();
        let ghost rv = res@;
        cluster.cluster_resources.push(res);
        proof {
            assert(cluster@ =~= ClusterView {
                cluster_resources: cv.cluster_resources.push(rv),
                ..cv
            });
        }
        repo.save_cluster(cluster);
        Ok(res_id)
    }

    /// Drops every manifest resource carrying `res_id` from the named
    /// cluster. Fails (changing nothing) when the cluster is missing.
    pub fn delete_cluster_resource(
        &self,
        repo: &mut Repository,
        cluster_name: &str,
        res_id: &str,
    ) -> (r: Result<(), Error>)
        ensures
            r is Err <==> !has_cluster(old(repo).clusters_view(), cluster_name@),
            r matches Err(e) ==> e is ResourceNotFound && final (repo).clusters_view() == old(
                repo,
            ).clusters_view(),
            r is Ok ==> final (repo).clusters_view() =~~= spec_save(
                old(repo).clusters_view(),
                ClusterView {
                    cluster_resources: (spec_get(
                        old(repo).clusters_view(),
                        cluster_name@,
                    )->0).cluster_resources.filter(
                        |a: crate::model::ClusterResourceView| a.id != res_id@,
                    ),
                    ..spec_get(old(repo).clusters_view(), cluster_name@)->0
                },
            ),
    {
        let cluster = match repo.get_cluster(cluster_name) {
            Some(c) => c,
            None => {
                return Err(Error::ResourceNotFound);
            },
        };
        let mut cluster = cluster;
        let ghost cv = spec_get(old(repo).clusters_view(), cluster_name@)->0;
        let mut kept: Vec<crate::model::ClusterResource> = Vec::new();
        let mut i: usize = 0;
        while i < cluster.cluster_resources.len()
            invariant
                i <= cv.cluster_resources.len(),
                cluster.cluster_resources.deep_view() == cv.cluster_resources,
                cv.cluster_resources.len() == cluster.cluster_resources@.len(),
                kept.deep_view() =~= cv.cluster_resources.subrange(0, i as int).filter(
                    |a: crate::model::ClusterResourceView| a.id != res_id@,
                ),
            decreases cluster.cluster_resources@.len() - i,
        {
            let ghost prefix = cv.cluster_resources.subrange(0, i as int);
            proof {
                assert(cv.cluster_resources[i as int] == cluster.cluster_resources@[i as int]@);
            }
            if !str_eq(cluster.cluster_resources[i].id.as_str(), res_id) {
                kept.push(cluster.cluster_resources[i].clone());
            }
            proof {
                reveal(Seq::filter);
                assert(cv.cluster_resources.subrange(0, i + 1).drop_last() =~= prefix);
            }
            i = i + 1;
        }
        proof {
            assert(cv.cluster_resources.subrange(0, cv.cluster_resources.len() as int)
                =~= cv.cluster_resources);
        }
        cluster.cluster_resources = kept;
        proof {
            assert(cluster@ =~= ClusterView {
                cluster_resources: cv.cluster_resources.filter(
                    |a: crate::model::ClusterResourceView| a.id != res_id@,
                ),
                ..cv
            });
        }
        repo.save_cluster(cluster);
        Ok(())
    }
}

impl Operator {
    /// Replaces the stored name and content of the resource carrying
    /// `res`'s id (the id itself never changes). Fails (changing nothing)
    /// when the cluster or the resource is missing.
    pub fn update_cluster_resource(
        &self,
        repo: &mut Repository,
        cluster_name: &str,
        res: crate::model::ClusterResource,
    ) -> (r: Result<(), Error>)
        ensures
            r matches Err(e) ==> e is ResourceNotFound,
            r is Ok ==> has_cluster(old(repo).clusters_view(), cluster_name@) && final (
            repo).clusters_view() =~~= spec_save(
                old(repo).clusters_view(),
                ClusterView {
                    cluster_resources: (spec_get(
                        old(repo).clusters_view(),
                        cluster_name@,
                    )->0).cluster_resources.map_values(update_resource_fn(res@)),
                    ..spec_get(old(repo).clusters_view(), cluster_name@)->0
                },
            ),
    {
        let cluster = match repo.get_cluster(cluster_name) {
            Some(c) => c,
            None => {
                return Err(Error::ResourceNotFound);
            },
        };
        let mut cluster = cluster;
        let ghost cv = spec_get(old(repo).clusters_view(), cluster_name@)->0;
        let ghost rv = res@;
        let mut found = false;
        let mut out: Vec<crate::model::ClusterResource> = Vec::new();
        let mut i: usize = 0;
        while i < cluster.cluster_resources.len()
            invariant
                i <= cv.cluster_resources.len(),
                cluster.cluster_resources.deep_view() == cv.cluster_resources,
                cv.cluster_resources.len() == cluster.cluster_resources@.len(),
                rv == res@,
                out.deep_view() =~= cv.cluster_resources.subrange(0, i as int).map_values(
                    update_resource_fn(rv),
                ),
                found <==> exists|k: int|
                    0 <= k < i && (#[trigger] cv.cluster_resources[k]).id == rv.id,
            decreases cluster.cluster_resources@.len() - i,
        {
            proof {
                assert(cv.cluster_resources[i as int] == cluster.cluster_resources@[i as int]@);
                assert(cv.cluster_resources.subrange(0, i + 1) =~= cv.cluster_resources.subrange(
                    0,
                    i as int,
                ).push(cv.cluster_resources[i as int]));
                assert(cv.cluster_resources.subrange(0, i + 1).map_values(update_resource_fn(rv))
                    =~= cv.cluster_resources.subrange(0, i as int).map_values(
                    update_resource_fn(rv),
                ).push(update_resource_fn(rv)(cv.cluster_resources[i as int])));
            }
            let matches_id = str_eq(cluster.cluster_resources[i].id.as_str(), res.id.as_str());
            let ghost old_dv = out.deep_view();
            if matches_id {
                let mut replacement = res.clone();
                replacement.id = cluster.cluster_resources[i].id.clone();
                proof {
                    assert(replacement@ =~= update_resource_fn(rv)(
                        cv.cluster_resources[i as int],
                    ));
                }
                out.push(replacement);
                found = true;
            } else {
                out.push(cluster.cluster_resources[i].clone());
            }
            proof {
                assert forall|k: int|
                    0 <= k < i + 1 implies out.deep_view()[k] == cv.cluster_resources.subrange(
                    0,
                    i + 1,
                ).map_values(update_resource_fn(rv))[k] by {
                    if k < i {
                        assert(out.deep_view()[k] == old_dv[k]);
                    } else {
                        assert(out.deep_view()[k] == out@[k].deep_view());
                    }
                }
                assert(out.deep_view() =~= cv.cluster_resources.subrange(0, i + 1).map_values(
                    update_resource_fn(rv),
                ));
            }
            i = i + 1;
        }
        if !found {
            return Err(Error::ResourceNotFound);
        }
        proof {
            assert(cv.cluster_resources.subrange(0, cv.cluster_resources.len() as int)
                =~= cv.cluster_resources);
        }
        cluster.cluster_resources = out;
        proof {
            assert(cluster@ =~= ClusterView {
                cluster_resources: cv.cluster_resources.map_values(update_resource_fn(rv)),
                ..cv
            });
        }
        repo.save_cluster(cluster);
        Ok(())
    }
}

} // verus!
