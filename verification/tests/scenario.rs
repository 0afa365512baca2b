//! End-to-end workflow scenarios, driven with scripted outcomes instead of a
//! live hypervisor: cluster creation with and without failures, and node
//! deletion on small clusters.
use makoon::dispatcher::Dispatcher;
use makoon::event::Event;
use makoon::model::{
    ClusterNode, ClusterNodeLock, ClusterNodeType, ClusterRequest, ClusterState, KeyPair,
    Network,
};
use makoon::operator::Operator;
use makoon::plans::GuestStep;
use makoon::proxmox::{AccessData, StorageContent, Token, VirtualMachine, VmStatus};
use makoon::store::Repository;
use makoon::workflow::{Action, Outcome, Step};

fn access() -> AccessData {
    AccessData {
        host: String::from("192.168.1.5"),
        base_path: String::from("/api2/json"),
        port: 8006,
        token: Token {
            csrf_prevention_token: String::from("csrf"),
            ticket: String::from("ticket"),
            username: String::from("root@pam"),
        },
    }
}

fn node_spec(vm_id: u32, name: &str, node_type: ClusterNodeType) -> ClusterNode {
    ClusterNode {
        vm_id,
        name: String::from(name),
        cores: 2,
        memory: 2048,
        ip_address: format!("10.0.0.{}", vm_id - 99),
        storage_pool: String::from("local-lvm"),
        node_type,
        lock: None,
    }
}

fn two_node_request(name: &str) -> ClusterRequest {
    ClusterRequest {
        os_image: String::from("https://images.example/base.img"),
        os_image_storage: String::from("local"),
        kube_version: String::from("1.28/stable"),
        node: String::from("pve"),
        cluster_name: String::from(name),
        ssh_key: KeyPair {
            private_key: String::new(),
            public_key: String::new(),
        },
        node_username: String::from("makoon"),
        node_password: String::from("makoon"),
        helm_apps: Vec::new(),
        cluster_resources: Vec::new(),
        disk_size: 32,
        nodes: vec![
            node_spec(100, "master-1", ClusterNodeType::Master),
            node_spec(101, "worker-1", ClusterNodeType::Worker),
        ],
        network: Network {
            gateway: String::from("192.168.1.1"),
            subnet_mask: 24,
            dns: String::from("192.168.1.1"),
            bridge: String::from("vmbr0"),
        },
    }
}

fn keys() -> KeyPair {
    KeyPair {
        private_key: String::from("generated-private"),
        public_key: String::from("generated-public"),
    }
}

fn image_listing() -> Outcome {
    Outcome::StorageItems {
        items: vec![StorageContent {
            format: String::from("iso"),
            size: 1024,
            volid: String::from("local:iso/base.img"),
            vm_id: None,
            ctime: None,
            encrypted: None,
            notes: None,
            parent: None,
            protected: None,
            used: None,
            verification: None,
        }],
    }
}

fn vm_record(vm_id: u32, name: &str, status: VmStatus) -> VirtualMachine {
    VirtualMachine {
        status,
        vm_id,
        cpus: None,
        lock: None,
        max_disk: None,
        max_mem: None,
        name: Some(String::from(name)),
        pid: None,
        qmp_status: None,
        running_machine: None,
        running_qemu: None,
        tags: None,
        uptime: None,
    }
}

fn exec_command(step: &Step) -> String {
    match step {
        Step::Do(Action::Guest {
            step: GuestStep::Exec { command },
            ..
        }) => command.clone(),
        other => panic!("expected a guest command, got {:?}", other),
    }
}

fn guest_ip(step: &Step) -> String {
    match step {
        Step::Do(Action::Guest { target, .. }) => target.ip.clone(),
        other => panic!("expected a guest action, got {:?}", other),
    }
}

/// Drives the creation of one VM (already positioned at the storage
/// listing request) through creation, lock wait and resize; checks the id.
fn drive_vm_creation(
    d: &mut Dispatcher,
    repo: &mut Repository,
    step: Step,
    expect_vm_id: u32,
    expect_name: &str,
) -> Step {
    match &step {
        Step::Do(Action::ListStorageContent { storage, .. }) => assert_eq!(storage, "local"),
        other => panic!("expected a storage listing, got {:?}", other),
    }
    let step = d.step(repo, image_listing());
    match &step {
        Step::Do(Action::StoragePath { volid, .. }) => assert_eq!(volid, "local:iso/base.img"),
        other => panic!("expected a volume path request, got {:?}", other),
    }
    let step = d.step(
        repo,
        Outcome::Output {
            text: String::from("/mnt/pve/local/template/iso/base.img"),
        },
    );
    match &step {
        Step::Do(Action::CreateVm { spec }) => {
            assert_eq!(spec.vm_id, expect_vm_id);
            assert_eq!(spec.name, expect_name);
            assert_eq!(spec.cores, 2);
            assert_eq!(spec.memory, 2048);
        }
        other => panic!("expected a VM creation, got {:?}", other),
    }
    let step = d.step(repo, Outcome::Succeeded);
    match &step {
        Step::Do(Action::ListVms { full, .. }) => assert!(*full),
        other => panic!("expected a full VM listing, got {:?}", other),
    }
    let step = d.step(
        repo,
        Outcome::Vms {
            vms: vec![vm_record(expect_vm_id, expect_name, VmStatus::Stopped)],
        },
    );
    match &step {
        Step::Do(Action::ResizeDisk { spec }) => {
            assert_eq!(spec.vm_id, expect_vm_id);
            assert_eq!(spec.size, "32G");
        }
        other => panic!("expected a disk resize, got {:?}", other),
    }
    d.step(repo, Outcome::Succeeded)
}

#[test]
fn create_two_node_cluster_reaches_sync() {
    let mut repo = Repository::new();
    let mut operator = Operator::new();
    let mut dispatcher = Dispatcher::new();
    operator
        .create_cluster(&mut repo, access(), two_node_request("c1"))
        .unwrap();
    assert!(matches!(
        repo.get_cluster("c1").unwrap().status.state,
        ClusterState::Pending
    ));
    let event = operator.take_next_event().expect("an event must be queued");
    assert!(matches!(event, Event::CreateCluster { .. }));

    let step = dispatcher.dispatch(&mut repo, event);
    assert!(matches!(step, Step::Do(Action::GenerateSshKeys)));
    assert!(matches!(
        repo.get_cluster("c1").unwrap().status.state,
        ClusterState::Creating
    ));

    let step = dispatcher.step(&mut repo, Outcome::Keys { keys: keys() });
    assert!(matches!(step, Step::Do(Action::ListVms { .. })));
    // The generated key pair was persisted before any VM work.
    assert_eq!(
        repo.get_cluster("c1").unwrap().ssh_key.public_key,
        "generated-public"
    );
    let step = dispatcher.step(&mut repo, Outcome::Vms { vms: Vec::new() });
    assert!(matches!(step, Step::Do(Action::ListContainers { .. })));
    let step = dispatcher.step(&mut repo, Outcome::Containers { items: Vec::new() });

    let step = drive_vm_creation(&mut dispatcher, &mut repo, step, 100, "c1-master-1");
    let step = drive_vm_creation(&mut dispatcher, &mut repo, step, 101, "c1-worker-1");

    // Both VMs are started, in node order.
    match &step {
        Step::Do(Action::StartVm { vm_id, .. }) => assert_eq!(*vm_id, 100),
        other => panic!("expected a VM start, got {:?}", other),
    }
    let step = dispatcher.step(&mut repo, Outcome::Succeeded);
    match &step {
        Step::Do(Action::StartVm { vm_id, .. }) => assert_eq!(*vm_id, 101),
        other => panic!("expected a VM start, got {:?}", other),
    }
    let mut step = dispatcher.step(&mut repo, Outcome::Succeeded);

    // Per node: power poll, then cloud-init inside the guest.
    for ip in ["10.0.0.1", "10.0.0.2"] {
        assert!(matches!(step, Step::Do(Action::VmPowerState { .. })));
        step = dispatcher.step(
            &mut repo,
            Outcome::Power {
                status: VmStatus::Running,
            },
        );
        assert_eq!(guest_ip(&step), ip);
        assert_eq!(exec_command(&step), "cloud-init status --wait");
        step = dispatcher.step(
            &mut repo,
            Outcome::Output {
                text: String::new(),
            },
        );
    }

    // No reboots are pending.
    for _ in 0..2 {
        assert!(matches!(step, Step::Do(Action::GuestFileExists { .. })));
        step = dispatcher.step(&mut repo, Outcome::Exists { yes: false });
    }

    // Guest setup: the iSCSI daemon plus both hosts entries on each node.
    for ip in ["10.0.0.1", "10.0.0.2"] {
        assert_eq!(guest_ip(&step), ip);
        assert_eq!(exec_command(&step), "sudo systemctl enable iscsid");
        let mut host_lines: Vec<String> = Vec::new();
        for _ in 0..4 {
            step = dispatcher.step(
                &mut repo,
                Outcome::Output {
                    text: String::new(),
                },
            );
            host_lines.push(exec_command(&step));
        }
        // Every node is told both mappings, the new ones included.
        assert!(host_lines
            .iter()
            .any(|c| c.contains("10.0.0.1 c1-master-1") && c.contains("/etc/hosts")));
        assert!(host_lines
            .iter()
            .any(|c| c.contains("10.0.0.2 c1-worker-1") && c.contains("/etc/hosts")));
        step = dispatcher.step(
            &mut repo,
            Outcome::Output {
                text: String::new(),
            },
        );
    }

    // Kubernetes install and readiness on both nodes.
    for _ in 0..2 {
        assert_eq!(
            exec_command(&step),
            "sudo snap install microk8s --channel=1.28/stable --classic"
        );
        step = dispatcher.step(
            &mut repo,
            Outcome::Output {
                text: String::new(),
            },
        );
    }
    for _ in 0..2 {
        assert_eq!(exec_command(&step), "sudo microk8s status --wait-ready");
        step = dispatcher.step(
            &mut repo,
            Outcome::Output {
                text: String::new(),
            },
        );
    }

    // The master hands out a token; the worker joins with `--worker`.
    assert_eq!(guest_ip(&step), "10.0.0.1");
    assert_eq!(exec_command(&step), "sudo microk8s add-node --format json");
    step = dispatcher.step(
        &mut repo,
        Outcome::JoinInfo {
            urls: vec![String::from("192.168.1.9:25000/tok")],
        },
    );
    assert_eq!(guest_ip(&step), "10.0.0.2");
    assert_eq!(
        exec_command(&step),
        "sudo microk8s join 192.168.1.9:25000/tok --worker"
    );
    step = dispatcher.step(
        &mut repo,
        Outcome::Output {
            text: String::new(),
        },
    );

    // The kubeconfig is captured from master-1 and persisted.
    assert_eq!(guest_ip(&step), "10.0.0.1");
    assert_eq!(exec_command(&step), "sudo microk8s config");
    step = dispatcher.step(
        &mut repo,
        Outcome::Output {
            text: String::from("kubeconfig-text"),
        },
    );
    assert_eq!(repo.get_cluster("c1").unwrap().cluster_config, "kubeconfig-text");

    assert_eq!(exec_command(&step), "sudo microk8s enable dns");
    step = dispatcher.step(
        &mut repo,
        Outcome::Output {
            text: String::new(),
        },
    );
    assert_eq!(exec_command(&step), "sudo microk8s enable helm3");
    let step = dispatcher.step(
        &mut repo,
        Outcome::Output {
            text: String::new(),
        },
    );
    match step {
        Step::Done(res) => assert!(res.is_ok()),
        Step::Do(a) => panic!("expected the workflow to finish, got {:?}", a),
    }
    assert!(matches!(
        repo.get_cluster("c1").unwrap().status.state,
        ClusterState::Sync
    ));

    // --- Delete worker-1 again. ---
    let node = operator
        .delete_node_from_cluster(
            &mut repo,
            access(),
            String::from("c1"),
            String::from("worker-1"),
        )
        .unwrap();
    assert!(matches!(node.lock, Some(ClusterNodeLock::Delete)));
    let event = operator.take_next_event().unwrap();
    let step = dispatcher.dispatch(&mut repo, event);
    assert!(matches!(step, Step::Do(Action::ListVms { .. })));
    let both = || {
        vec![
            vm_record(100, "c1-master-1", VmStatus::Running),
            vm_record(101, "c1-worker-1", VmStatus::Running),
        ]
    };
    let step = dispatcher.step(&mut repo, Outcome::Vms { vms: both() });
    assert_eq!(guest_ip(&step), "10.0.0.1");
    assert_eq!(
        exec_command(&step),
        "sudo microk8s.kubectl drain c1-worker-1 --ignore-daemonsets --grace-period=30 --timeout=60s"
    );
    let step = dispatcher.step(&mut repo, Outcome::Output { text: String::new() });
    assert!(matches!(step, Step::Do(Action::Sleep { seconds: 30 })));
    let step = dispatcher.step(&mut repo, Outcome::Succeeded);
    assert_eq!(guest_ip(&step), "10.0.0.2");
    assert_eq!(exec_command(&step), "sudo microk8s leave");
    let step = dispatcher.step(&mut repo, Outcome::Output { text: String::new() });
    assert_eq!(guest_ip(&step), "10.0.0.1");
    assert_eq!(exec_command(&step), "sudo microk8s remove-node c1-worker-1");
    let step = dispatcher.step(&mut repo, Outcome::Output { text: String::new() });
    assert!(matches!(step, Step::Do(Action::ListVms { .. })));
    let step = dispatcher.step(&mut repo, Outcome::Vms { vms: both() });
    match &step {
        Step::Do(Action::ShutdownVm { vm_id, .. }) => assert_eq!(*vm_id, 101),
        other => panic!("expected a shutdown, got {:?}", other),
    }
    let step = dispatcher.step(&mut repo, Outcome::Succeeded);
    assert!(matches!(step, Step::Do(Action::VmPowerState { .. })));
    let step = dispatcher.step(
        &mut repo,
        Outcome::Power {
            status: VmStatus::Stopped,
        },
    );
    match &step {
        Step::Do(Action::DeleteVm { vm_id, .. }) => assert_eq!(*vm_id, 101),
        other => panic!("expected a deletion, got {:?}", other),
    }
    let step = dispatcher.step(&mut repo, Outcome::Succeeded);
    // The node record is gone before the hosts cleanup listing.
    assert_eq!(repo.get_cluster("c1").unwrap().nodes.len(), 1);
    assert!(matches!(step, Step::Do(Action::ListVms { .. })));
    let step = dispatcher.step(
        &mut repo,
        Outcome::Vms {
            vms: vec![vm_record(100, "c1-master-1", VmStatus::Running)],
        },
    );
    assert_eq!(guest_ip(&step), "10.0.0.1");
    assert_eq!(
        exec_command(&step),
        "sudo sed -i '/c1-worker-1/d' /etc/cloud/templates/hosts.debian.tmpl"
    );
    let step = dispatcher.step(&mut repo, Outcome::Output { text: String::new() });
    assert_eq!(exec_command(&step), "sudo sed -i '/c1-worker-1/d' /etc/hosts");
    let step = dispatcher.step(&mut repo, Outcome::Output { text: String::new() });
    match step {
        Step::Done(res) => assert!(res.is_ok()),
        Step::Do(a) => panic!("expected the workflow to finish, got {:?}", a),
    }
    let after = repo.get_cluster("c1").unwrap();
    assert_eq!(after.nodes.len(), 1);
    assert_eq!(after.nodes[0].name, "master-1");
    assert!(matches!(after.status.state, ClusterState::Sync));
}

#[test]
fn create_failure_leaves_earlier_vms_standing() {
    let mut repo = Repository::new();
    let mut operator = Operator::new();
    let mut dispatcher = Dispatcher::new();
    operator
        .create_cluster(&mut repo, access(), two_node_request("c2"))
        .unwrap();
    let event = operator.take_next_event().unwrap();
    let mut actions: Vec<String> = Vec::new();
    let mut step = dispatcher.dispatch(&mut repo, event);
    let mut created: Vec<u32> = Vec::new();
    // Script: key pair, empty inventory, node one created fully, node two's
    // creation call fails.
    let outcomes = [
        Outcome::Keys { keys: keys() },
        Outcome::Vms { vms: Vec::new() },
        Outcome::Containers { items: Vec::new() },
        image_listing(),
        Outcome::Output {
            text: String::from("/mnt/pve/local/template/iso/base.img"),
        },
        Outcome::Succeeded,
        Outcome::Vms {
            vms: vec![vm_record(100, "c1-master-1", VmStatus::Stopped)],
        },
        Outcome::Succeeded,
        image_listing(),
        Outcome::Output {
            text: String::from("/mnt/pve/local/template/iso/base.img"),
        },
        Outcome::Failed {
            error: String::from("storage is full"),
        },
    ];
    for outcome in outcomes {
        match &step {
            Step::Do(a) => {
                if let Action::CreateVm { spec } = a {
                    created.push(spec.vm_id);
                }
                if let Action::DeleteVm { .. } = a {
                    panic!("a creation workflow must never delete a VM");
                }
                actions.push(format!("{:?}", a));
            }
            Step::Done(r) => panic!("workflow ended early: {:?}", r),
        }
        step = dispatcher.step(&mut repo, outcome);
    }
    // The failure for node two surfaces as the workflow's failure, while
    // node one's VM was created and stays created: no rollback happened.
    match step {
        Step::Done(res) => {
            let e = res.unwrap_err();
            assert!(e.contains("Cannot create VM [101]"), "{}", e);
            assert!(e.contains("storage is full"), "{}", e);
        }
        Step::Do(a) => panic!("expected the workflow to fail, got {:?}", a),
    }
    assert_eq!(created, vec![100, 101]);
    assert!(!actions.iter().any(|a| a.contains("DeleteVm")));
    assert!(matches!(
        repo.get_cluster("c2").unwrap().status.state,
        ClusterState::Error
    ));
    let logs = repo.logs("c2");
    assert!(logs
        .iter()
        .any(|l| l.message.contains("Cannot create VM [101]")));
}

#[test]
fn delete_node_on_single_node_cluster_touches_nothing() {
    let mut repo = Repository::new();
    let mut operator = Operator::new();
    let mut dispatcher = Dispatcher::new();
    let mut request = two_node_request("c3");
    request.nodes.truncate(1);
    operator
        .create_cluster(&mut repo, access(), request)
        .unwrap();
    // Drop the pending creation; the cluster record itself is enough here.
    operator.take_next_event().unwrap();
    operator
        .delete_node_from_cluster(
            &mut repo,
            access(),
            String::from("c3"),
            String::from("master-1"),
        )
        .unwrap();
    let event = operator.take_next_event().unwrap();
    // The whole workflow answers success at once: no hypervisor or guest
    // action is ever requested.
    let step = dispatcher.dispatch(&mut repo, event);
    match step {
        Step::Done(res) => assert!(res.is_ok()),
        Step::Do(a) => panic!("a single-node deletion must not act, got {:?}", a),
    }
    let logs = repo.logs("c3");
    assert!(logs
        .iter()
        .any(|l| l.message.contains("Cannot delete last node")));
}

#[test]
fn operator_validates_and_queues_in_order() {
    let mut repo = Repository::new();
    let mut operator = Operator::new();
    operator
        .create_cluster(&mut repo, access(), two_node_request("c4"))
        .unwrap();
    // A second creation under the same name is rejected before anything
    // changes.
    let err = operator
        .create_cluster(&mut repo, access(), two_node_request("c4"))
        .unwrap_err();
    assert!(matches!(err, makoon::Error::ResourceAlreadyExists));
    operator
        .change_node_resources(
            &mut repo,
            access(),
            String::from("c4"),
            String::from("worker-1"),
            4,
            4096,
        )
        .unwrap();
    let first = operator.take_next_event().unwrap();
    assert!(matches!(first, Event::CreateCluster { .. }));
    let second = operator.take_next_event().unwrap();
    match second {
        Event::ChangeNodeResources { cores, memory, .. } => {
            assert_eq!(cores, 4);
            assert_eq!(memory, 4096);
        }
        other => panic!("expected the resize event, got {:?}", other),
    }
    assert!(operator.take_next_event().is_none());
    // The resize intent locked the target node.
    let locked = repo.get_cluster("c4").unwrap();
    assert!(matches!(
        locked.nodes[1].lock,
        Some(ClusterNodeLock::ChangeResources)
    ));
}
