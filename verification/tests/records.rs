//! The data model and the State Store: lifecycle predicates, lock handling,
//! persistence round trips, log ordering, and the status merges.
use makoon::model::{
    clear_node_lock, ActionLogLevel, AppStatus, AppStatusType, Cluster, ClusterNode,
    ClusterNodeLock, ClusterNodeType, ClusterState, ClusterStatus, InstalledRelease, Item,
    KeyPair, KubeStatus, LogEntry, Metadata, Network, Nodes, Status, StatusCondition,
};
use makoon::operator::Operator;
use makoon::store::Repository;
use makoon::text;

fn node(vm_id: u32, name: &str, node_type: ClusterNodeType, lock: Option<ClusterNodeLock>) -> ClusterNode {
    ClusterNode {
        vm_id,
        name: String::from(name),
        cores: 2,
        memory: 2048,
        ip_address: format!("10.0.0.{}", vm_id - 99),
        storage_pool: String::from("local-lvm"),
        node_type,
        lock,
    }
}

fn cluster(name: &str, nodes: Vec<ClusterNode>) -> Cluster {
    Cluster {
        node: String::from("pve"),
        cluster_name: String::from(name),
        os_image: Some(String::from("https://images.example/base.img")),
        os_image_storage: Some(String::from("local")),
        kube_version: Some(String::from("1.28/stable")),
        cluster_config: String::new(),
        ssh_key: KeyPair {
            private_key: String::from("private"),
            public_key: String::from("public"),
        },
        node_username: String::from("makoon"),
        node_password: String::from("makoon"),
        helm_apps: Vec::new(),
        cluster_resources: Vec::new(),
        disk_size: 32,
        nodes,
        network: Network {
            gateway: String::from("192.168.1.1"),
            subnet_mask: 24,
            dns: String::from("192.168.1.1"),
            bridge: String::from("vmbr0"),
        },
        status: ClusterStatus {
            state: ClusterState::Pending,
            last_update: 0,
        },
    }
}

#[test]
fn in_progress_states_are_exactly_three() {
    assert!(ClusterState::in_progress_state(&ClusterState::Pending));
    assert!(ClusterState::in_progress_state(&ClusterState::Creating));
    assert!(ClusterState::in_progress_state(&ClusterState::Destroying));
    assert!(!ClusterState::in_progress_state(&ClusterState::Sync));
    assert!(!ClusterState::in_progress_state(&ClusterState::OutOfSync));
    assert!(!ClusterState::in_progress_state(&ClusterState::Error));
}

#[test]
fn clearing_an_unlocked_node_twice_is_a_no_op() {
    let mut c = cluster(
        "c1",
        vec![node(100, "master-1", ClusterNodeType::Master, Some(ClusterNodeLock::Create))],
    );
    assert!(clear_node_lock(&mut c, "master-1").is_ok());
    assert!(c.nodes[0].lock.is_none());
    // The node is already unlocked: clearing again succeeds and changes
    // nothing.
    assert!(clear_node_lock(&mut c, "master-1").is_ok());
    assert!(c.nodes[0].lock.is_none());
    assert_eq!(c.nodes.len(), 1);
    assert_eq!(c.nodes[0].name, "master-1");
}

#[test]
fn clearing_a_missing_node_reports_not_found() {
    let mut c = cluster("c1", vec![node(100, "master-1", ClusterNodeType::Master, None)]);
    assert!(matches!(
        clear_node_lock(&mut c, "absent"),
        Err(makoon::Error::ResourceNotFound)
    ));
    assert_eq!(c.nodes.len(), 1);
}

#[test]
fn store_round_trip_preserves_the_cluster() {
    let mut repo = Repository::new();
    let mut c = cluster(
        "c1",
        vec![
            node(100, "master-1", ClusterNodeType::Master, Some(ClusterNodeLock::Create)),
            node(101, "worker-1", ClusterNodeType::Worker, None),
        ],
    );
    c.helm_apps.push(makoon::model::HelmApp {
        id: String::from("app-7"),
        chart_name: String::from("traefik"),
        chart_version: String::new(),
        repository: String::from("https://helm.traefik.io/traefik"),
        release_name: String::from("edge"),
        namespace: String::from("edge"),
        values: String::new(),
        wait: false,
    });
    c.cluster_resources.push(makoon::model::ClusterResource {
        id: String::from("res-9"),
        name: String::from("manifest"),
        content: String::from("kind: Pod"),
    });
    repo.save_cluster(c);
    let loaded = repo.get_cluster("c1").expect("the saved cluster must load");
    assert_eq!(loaded.nodes.len(), 2);
    assert_eq!(loaded.nodes[0].name, "master-1");
    assert_eq!(loaded.nodes[1].name, "worker-1");
    assert!(matches!(loaded.nodes[0].lock, Some(ClusterNodeLock::Create)));
    assert!(loaded.nodes[1].lock.is_none());
    assert_eq!(loaded.helm_apps[0].id, "app-7");
    assert_eq!(loaded.cluster_resources[0].id, "res-9");
    assert_eq!(loaded.cluster_name, "c1");
}

#[test]
fn save_replaces_by_name() {
    let mut repo = Repository::new();
    repo.save_cluster(cluster("c1", vec![node(100, "master-1", ClusterNodeType::Master, None)]));
    let mut updated = cluster("c1", vec![node(100, "master-1", ClusterNodeType::Master, None)]);
    updated.disk_size = 64;
    repo.save_cluster(updated);
    assert_eq!(repo.get_clusters().len(), 1);
    assert_eq!(repo.get_cluster("c1").unwrap().disk_size, 64);
}

#[test]
fn delete_cluster_removes_record_and_logs() {
    let mut repo = Repository::new();
    repo.save_cluster(cluster("c1", Vec::new()));
    repo.save_log(LogEntry {
        date: 5,
        cluster_name: String::from("c1"),
        message: String::from("one"),
        level: ActionLogLevel::Info,
    });
    repo.save_log(LogEntry {
        date: 6,
        cluster_name: String::from("other"),
        message: String::from("kept"),
        level: ActionLogLevel::Info,
    });
    repo.delete_cluster("c1");
    assert!(repo.get_cluster("c1").is_none());
    assert_eq!(repo.logs("c1").len(), 0);
    assert_eq!(repo.logs("other").len(), 1);
}

#[test]
fn logs_come_back_most_recent_first() {
    let mut repo = Repository::new();
    for (date, msg) in [(3i64, "c"), (1, "a"), (2, "b")] {
        repo.save_log(LogEntry {
            date,
            cluster_name: String::from("c1"),
            message: String::from(msg),
            level: ActionLogLevel::Info,
        });
    }
    let logs = repo.logs("c1");
    assert_eq!(logs.len(), 3);
    assert_eq!(logs[0].message, "c");
    assert_eq!(logs[1].message, "b");
    assert_eq!(logs[2].message, "a");
}

#[test]
fn kube_status_parsing_ignores_case_and_space() {
    assert!(matches!(KubeStatus::from_str(" True "), KubeStatus::Ready));
    assert!(matches!(KubeStatus::from_str("false"), KubeStatus::NotReady));
    assert!(matches!(KubeStatus::from_str("Unknown"), KubeStatus::NotReady));
    assert!(matches!(KubeStatus::from_str("else"), KubeStatus::Unknown));
    assert!(matches!(KubeStatus::from_str(""), KubeStatus::Unknown));
}

#[test]
fn decimal_text_helpers() {
    assert_eq!(text::dec_u64(0), "0");
    assert_eq!(text::dec_u64(105), "105");
    assert_eq!(text::dec_u64(999_999_999), "999999999");
    assert_eq!(text::parse_u32("105"), Some(105));
    assert_eq!(text::parse_u32(""), None);
    assert_eq!(text::parse_u32("12a"), None);
    assert_eq!(text::parse_u32("4294967295"), Some(u32::MAX));
    assert_eq!(text::parse_u32("4294967296"), None);
}

#[test]
fn error_messages() {
    assert_eq!(makoon::Error::ResourceNotFound.message(), "Cluster not found");
    assert_eq!(
        makoon::Error::ResourceAlreadyExists.message(),
        "Cluster already exists"
    );
    assert_eq!(
        makoon::Error::Generic(String::from("boom")).message(),
        "boom"
    );
    let mapped = makoon::api::HandlerError::from_remote(&makoon::proxmox::Error::HttpError {
        status: 500,
        reason: String::from("oops"),
        response: String::from("body"),
    });
    match mapped {
        makoon::api::HandlerError::InternalServerError(m) => {
            assert_eq!(m, "500-oops: body")
        }
        _ => panic!("expected an internal error"),
    }
}

#[test]
fn cluster_status_merge_reads_ready_conditions() {
    let c = cluster(
        "c1",
        vec![
            node(100, "master-1", ClusterNodeType::Master, None),
            node(101, "worker-1", ClusterNodeType::Worker, None),
        ],
    );
    let unknown = Operator::cluster_status_merge(&c, None);
    assert_eq!(unknown.len(), 2);
    assert!(matches!(unknown[0].status, KubeStatus::Unknown));
    let listing = Nodes {
        items: vec![Item {
            metadata: Metadata {
                name: String::from("c1-master-1"),
            },
            status: Status {
                conditions: vec![StatusCondition {
                    status: String::from("True"),
                    condition_type: String::from("Ready"),
                }],
            },
        }],
    };
    let merged = Operator::cluster_status_merge(&c, Some(&listing));
    assert_eq!(merged[0].name, "c1-master-1");
    assert!(matches!(merged[0].status, KubeStatus::Ready));
    // worker-1 is absent from the listing: its condition text is empty.
    assert_eq!(merged[1].name, "c1-worker-1");
    assert!(matches!(merged[1].status, KubeStatus::Unknown));
}

#[test]
fn apps_status_merge_marks_missing_releases() {
    let mut c = cluster("c1", vec![node(100, "master-1", ClusterNodeType::Master, None)]);
    c.helm_apps.push(makoon::model::HelmApp {
        id: String::from("a1"),
        chart_name: String::from("traefik"),
        chart_version: String::new(),
        repository: String::new(),
        release_name: String::from("edge"),
        namespace: String::from("edge"),
        values: String::new(),
        wait: false,
    });
    c.helm_apps.push(makoon::model::HelmApp {
        id: String::from("a2"),
        chart_name: String::from("grafana"),
        chart_version: String::new(),
        repository: String::new(),
        release_name: String::from("gr"),
        namespace: String::from("mon"),
        values: String::new(),
        wait: false,
    });
    let releases = vec![InstalledRelease {
        name: String::from("edge"),
        namespace: String::from("edge"),
        revision: String::from("1"),
        updated: String::new(),
        status: AppStatusType::Deployed,
        chart: String::from("traefik"),
        app_version: String::new(),
    }];
    let merged: Vec<AppStatus> = Operator::apps_status_merge(&c, Some(&releases));
    assert_eq!(merged.len(), 2);
    assert_eq!(merged[0].id, "a1");
    assert!(matches!(merged[0].status, AppStatusType::Deployed));
    assert_eq!(merged[1].id, "a2");
    assert!(matches!(merged[1].status, AppStatusType::NotInstalled));
    let unknown = Operator::apps_status_merge(&c, None);
    assert!(matches!(unknown[0].status, AppStatusType::Unknown));
}

#[test]
fn header_totals_are_aggregated() {
    let mut repo = Repository::new();
    let op = Operator::new();
    repo.save_cluster(cluster(
        "c1",
        vec![
            node(100, "master-1", ClusterNodeType::Master, None),
            node(101, "worker-1", ClusterNodeType::Worker, None),
        ],
    ));
    let headers = op.get_clusters(&repo);
    assert_eq!(headers.len(), 1);
    assert_eq!(headers[0].name, "c1");
    assert_eq!(headers[0].nodes_count, 2);
    assert_eq!(headers[0].cores_sum, 4);
    assert_eq!(headers[0].memory_sum, 4096);
    assert_eq!(headers[0].disk_size_sum, 64);
}

#[test]
fn remote_errors_become_generic_text() {
    let e = makoon::Error::from_remote(&makoon::proxmox::Error::HttpError {
        status: 403,
        reason: String::from("forbidden"),
        response: String::from("denied"),
    });
    match e {
        makoon::Error::Generic(m) => {
            assert_eq!(m, "Http status: [403], reason: [forbidden], response: [denied]")
        }
        _ => panic!("expected a generic error"),
    }
    let e = makoon::Error::from_remote(&makoon::proxmox::Error::CredentialsInvalid);
    match e {
        makoon::Error::Generic(m) => assert_eq!(m, ""),
        _ => panic!("expected a generic error"),
    }
}

#[test]
fn scheduler_fires_once_per_interval() {
    let mut s = makoon::scheduler::Scheduler::new(makoon::scheduler::Config { interval_secs: 60 });
    // The first reading always fires; the same instant never fires twice.
    assert!(s.tick(1000));
    assert!(!s.tick(1000));
    assert!(!s.tick(1059));
    assert!(s.tick(1060));
    assert!(!s.tick(1061));
}

#[test]
fn wire_names_of_inventory_kinds() {
    assert_eq!(makoon::proxmox::StorageType::LvmThin.as_str(), "lvmthin");
    assert_eq!(makoon::proxmox::StorageContentType::Iso.as_str(), "iso");
    assert_eq!(makoon::proxmox::NetworkType::Bridge.as_str(), "bridge");
    assert_eq!(makoon::model::ClusterNodeType::Master.as_str(), "master");
    assert_eq!(makoon::model::ClusterNodeType::Worker.as_str(), "worker");
}

#[test]
fn vm_status_merge_keeps_cluster_vms_only() {
    let c = cluster(
        "c1",
        vec![
            node(100, "master-1", ClusterNodeType::Master, None),
            node(101, "worker-1", ClusterNodeType::Worker, None),
        ],
    );
    let vm = |vm_id: u32, status: makoon::proxmox::VmStatus| makoon::proxmox::VirtualMachine {
        status,
        vm_id,
        cpus: None,
        lock: None,
        max_disk: None,
        max_mem: None,
        name: None,
        pid: None,
        qmp_status: None,
        running_machine: None,
        running_qemu: None,
        tags: None,
        uptime: None,
    };
    let vms = vec![
        vm(100, makoon::proxmox::VmStatus::Running),
        vm(555, makoon::proxmox::VmStatus::Running),
        vm(101, makoon::proxmox::VmStatus::Stopped),
    ];
    let merged = makoon::api::cluster_vm_status_merge(&c, &vms);
    assert_eq!(merged.len(), 2);
    assert_eq!(merged[0].vm_id, 100);
    assert!(matches!(merged[0].status, makoon::proxmox::VmStatus::Running));
    assert_eq!(merged[1].vm_id, 101);
    assert!(matches!(merged[1].status, makoon::proxmox::VmStatus::Stopped));
}

#[test]
fn export_data_picks_the_right_text() {
    let mut c = cluster("c1", Vec::new());
    c.cluster_config = String::from("kubeconfig");
    let (text, file) = makoon::api::export_data(&c, makoon::api::ExportType::PrivateKey);
    assert_eq!(text, "private");
    assert_eq!(file, "c1");
    let (text, file) = makoon::api::export_data(&c, makoon::api::ExportType::PublicKey);
    assert_eq!(text, "public");
    assert_eq!(file, "c1.pub");
    let (text, file) = makoon::api::export_data(&c, makoon::api::ExportType::KubeConfig);
    assert_eq!(text, "kubeconfig");
    assert_eq!(file, "config");
}
