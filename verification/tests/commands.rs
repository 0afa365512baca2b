//! Command-line construction: the Helm builder, the parameter builder, and
//! the guest command plans.
use makoon::helm::CommandBuilder;
use makoon::model::{ClusterNodeType, ClusterResource, HelmApp};
use makoon::plans;
use makoon::proxmox::ParamBuilder;

#[test]
fn install_chart() {
    let result = CommandBuilder::default()
        .sudo()
        .install()
        .name("chart_name")
        .namespace("my_ns")
        .with_values_file("/tmp/values.yaml")
        .create_namespace()
        .version("0.1.0")
        .build();
    assert_eq!(
        "sudo helm install chart_name --namespace my_ns -f /tmp/values.yaml --create-namespace --version 0.1.0",
        result
    )
}

#[test]
fn upgrade_install_chart() {
    let result = CommandBuilder::default()
        .sudo()
        .upgrade_or_install()
        .name("chart_name")
        .namespace("my_ns")
        .with_values_file("/tmp/values.yaml")
        .create_namespace()
        .version("0.1.0")
        .build();
    assert_eq!(
        "sudo helm upgrade --install chart_name --namespace my_ns -f /tmp/values.yaml --create-namespace --version 0.1.0",
        result
    )
}

#[test]
fn list_releases() {
    let result = CommandBuilder::default().list().all().json().build();
    assert_eq!("helm list -A -o json", result)
}

#[test]
fn uninstall_release() {
    let result = CommandBuilder::default()
        .uninstall("release")
        .namespace("my_ns")
        .build();
    assert_eq!("helm uninstall release --namespace my_ns", result);
}

#[test]
fn repo_add() {
    let result = CommandBuilder::default()
        .repo()
        .add("sample", "https://aaa.com")
        .build();
    assert_eq!("helm repo add sample https://aaa.com", result);
}

#[test]
fn repo_update() {
    let result = CommandBuilder::default().repo().update().build();
    assert_eq!("helm repo update", result);
}

#[test]
fn test_param_builder() {
    let result = ParamBuilder::default()
        .add_param("name", "value")
        .add_param("name2", "value2")
        .build();
    assert_eq!(result, "name=value,name2=value2")
}

#[test]
fn test_param_builder_with_custom_value_separator() {
    let mut builder = ParamBuilder::default();
    builder.add_param_with_separator("name", "value", ":");
    builder.add_param("name2", "value2");
    assert_eq!(builder.build(), "name:value,name2=value2")
}

#[test]
fn join_command_flags_workers() {
    let urls = vec![String::from("10.0.0.1:25000/token")];
    let master = plans::join_cmd(&urls, ClusterNodeType::Master).unwrap();
    assert_eq!(master, "sudo microk8s join 10.0.0.1:25000/token");
    let worker = plans::join_cmd(&urls, ClusterNodeType::Worker).unwrap();
    assert_eq!(worker, "sudo microk8s join 10.0.0.1:25000/token --worker");
}

#[test]
fn join_command_requires_url() {
    let e = plans::join_cmd(&Vec::new(), ClusterNodeType::Worker).unwrap_err();
    assert_eq!(e, "Join token doesn't have urls to join node");
}

#[test]
fn file_name_of_url() {
    let f = plans::file_name_of("https://cloud-images.ubuntu.com/jammy/current/jammy-server-cloudimg-amd64.img").unwrap();
    assert_eq!(f, "jammy-server-cloudimg-amd64.img");
    assert!(plans::file_name_of("dir/").is_err());
    assert!(plans::file_name_of("noslash").is_err());
}

#[test]
fn drain_and_remove_commands() {
    assert_eq!(
        plans::drain_cmd("c1", "worker-1"),
        "sudo microk8s.kubectl drain c1-worker-1 --ignore-daemonsets --grace-period=30 --timeout=60s"
    );
    assert_eq!(
        plans::remove_node_cmd("c1", "worker-1"),
        "sudo microk8s remove-node c1-worker-1"
    );
    let cleanup = plans::hosts_cleanup_cmds("c1", "worker-1");
    assert_eq!(
        cleanup[0],
        "sudo sed -i '/c1-worker-1/d' /etc/cloud/templates/hosts.debian.tmpl"
    );
    assert_eq!(cleanup[1], "sudo sed -i '/c1-worker-1/d' /etc/hosts");
}

#[test]
fn install_kubernetes_command_uses_channel() {
    assert_eq!(
        plans::install_kubernetes_cmd(&Some(String::from("1.28/stable"))),
        "sudo snap install microk8s --channel=1.28/stable --classic"
    );
    assert_eq!(
        plans::install_kubernetes_cmd(&None),
        "sudo snap install microk8s --channel=1.24/stable --classic"
    );
}

#[test]
fn helm_install_plan_steps() {
    let app = HelmApp {
        id: String::from("a1"),
        chart_name: String::from("traefik"),
        chart_version: String::from("10.3.0"),
        repository: String::from("https://helm.traefik.io/traefik"),
        release_name: String::from("my traefik"),
        namespace: String::from("edge"),
        values: String::from("ports: {}"),
        wait: true,
    };
    let steps = plans::helm_install_plan(&app);
    assert_eq!(steps.len(), 5);
    match &steps[0] {
        plans::GuestStep::Exec { command } => assert_eq!(
            command,
            "sudo microk8s.helm3 repo add traefik https://helm.traefik.io/traefik"
        ),
        _ => panic!("expected a shell step"),
    }
    match &steps[1] {
        plans::GuestStep::Exec { command } => {
            assert_eq!(command, "sudo microk8s.helm3 repo update")
        }
        _ => panic!("expected a shell step"),
    }
    match &steps[2] {
        plans::GuestStep::Upload { path, content } => {
            assert_eq!(path, "/tmp/my_traefik.yaml");
            assert_eq!(content, "ports: {}");
        }
        _ => panic!("expected an upload step"),
    }
    match &steps[3] {
        plans::GuestStep::Exec { command } => assert_eq!(
            command,
            "sudo microk8s.helm3 upgrade --install --create-namespace --namespace edge my traefik traefik/traefik -f /tmp/my_traefik.yaml --version 10.3.0 --wait"
        ),
        _ => panic!("expected a shell step"),
    }
    match &steps[4] {
        plans::GuestStep::Exec { command } => {
            assert_eq!(command, "sudo rm /tmp/my_traefik.yaml")
        }
        _ => panic!("expected a shell step"),
    }
}

#[test]
fn workload_plan_steps() {
    let res = ClusterResource {
        id: String::from("r1"),
        name: String::from("my app"),
        content: String::from("kind: Deployment"),
    };
    let steps = plans::install_resource_plan(&res);
    assert_eq!(steps.len(), 3);
    match &steps[0] {
        plans::GuestStep::Upload { path, content } => {
            assert_eq!(path, "/tmp/my_app_cluster_resource.yaml");
            assert_eq!(content, "kind: Deployment");
        }
        _ => panic!("expected an upload step"),
    }
    match &steps[1] {
        plans::GuestStep::Exec { command } => assert_eq!(
            command,
            "sudo microk8s.kubectl apply -f /tmp/my_app_cluster_resource.yaml"
        ),
        _ => panic!("expected a shell step"),
    }
    match &steps[2] {
        plans::GuestStep::Exec { command } => {
            assert_eq!(command, "sudo rm /tmp/my_app_cluster_resource.yaml")
        }
        _ => panic!("expected a shell step"),
    }
}

#[test]
fn helm_list_and_uninstall_commands() {
    assert_eq!(plans::helm_list_cmd(), "sudo microk8s.helm3 list -A -o json");
    let app = HelmApp {
        id: String::new(),
        chart_name: String::from("traefik"),
        chart_version: String::new(),
        repository: String::new(),
        release_name: String::from("edge-proxy"),
        namespace: String::from("edge"),
        values: String::new(),
        wait: false,
    };
    assert_eq!(
        plans::helm_uninstall_cmd(&app),
        "sudo microk8s.helm3 uninstall edge-proxy --namespace edge"
    );
}
