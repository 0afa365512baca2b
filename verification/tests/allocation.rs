//! VM-id slot allocation and the default cluster configuration.
use makoon::generator;
use makoon::proxmox;

#[test]
fn generator_find_slot_with_first_taken() {
    let result = generator::find_empty_slot_for_vm_ids(&[100]).unwrap();
    assert_eq!(result, 110);
}

#[test]
fn generator_find_slot_with_taken_in_first_slot() {
    let result = generator::find_empty_slot_for_vm_ids(&[105]).unwrap();
    assert_eq!(result, 110);
}

#[test]
fn generator_find_slot_with_taken_in_first_and_second_slot() {
    let result = generator::find_empty_slot_for_vm_ids(&[105, 112]).unwrap();
    assert_eq!(result, 120);
}

#[test]
fn generator_find_slot_with_taken_in_three_slots() {
    let result = generator::find_empty_slot_for_vm_ids(&[105, 112, 129]).unwrap();
    assert_eq!(result, 130);
}

#[test]
fn find_slot_with_nothing_taken() {
    let result = generator::find_empty_slot_for_vm_ids(&[]).unwrap();
    assert_eq!(result, 100);
}

#[test]
fn start_vm_id_combines_vms_and_containers() {
    let result = generator::get_default_start_vm_id(&vec![100, 101], &vec![115]).unwrap();
    assert_eq!(result, 120);
}

#[test]
fn default_image_and_version() {
    assert_eq!(
        generator::get_default_os_image(),
        "https://cloud-images.ubuntu.com/jammy/current/jammy-server-cloudimg-amd64.img"
    );
    assert_eq!(generator::get_default_kube_version(), "1.28/stable");
}

#[test]
fn default_storage_and_node_need_entries() {
    let no_storage: Vec<proxmox::Storage> = Vec::new();
    assert!(matches!(
        generator::get_default_iso_storage(&no_storage),
        Err(makoon::Error::ResourceNotFound)
    ));
    let no_nodes: Vec<proxmox::Node> = Vec::new();
    assert!(matches!(
        generator::get_default_proxmox_node(&no_nodes),
        Err(makoon::Error::ResourceNotFound)
    ));
}

#[test]
fn default_request_from_inventory() {
    let mut network = proxmox::Network::default();
    network.iface = String::from("vmbr0");
    network.gateway = Some(String::from("192.168.1.1"));
    network.netmask = Some(String::from("24"));
    let request = generator::generate_default_request(
        String::from("pve"),
        String::from("local"),
        String::from("local-lvm"),
        network,
        110,
    );
    assert_eq!(request.node, "pve");
    assert_eq!(request.os_image_storage, "local");
    assert_eq!(request.kube_version, "1.28/stable");
    assert_eq!(request.node_username, "makoon");
    assert_eq!(request.node_password, "makoon");
    assert_eq!(request.disk_size, 32);
    assert_eq!(request.nodes.len(), 1);
    assert_eq!(request.nodes[0].vm_id, 110);
    assert_eq!(request.nodes[0].name, "master-1");
    assert_eq!(request.nodes[0].cores, 2);
    assert_eq!(request.nodes[0].memory, 2048);
    assert_eq!(request.network.gateway, "192.168.1.1");
    assert_eq!(request.network.subnet_mask, 24);
    assert_eq!(request.network.dns, "192.168.1.1");
    assert_eq!(request.network.bridge, "vmbr0");
}

#[test]
fn default_request_falls_back_on_bad_netmask() {
    let mut network = proxmox::Network::default();
    network.iface = String::from("vmbr1");
    network.netmask = Some(String::from("not-a-number"));
    let request = generator::generate_default_request(
        String::from("pve"),
        String::from("local"),
        String::from("local-lvm"),
        network,
        100,
    );
    assert_eq!(request.network.subnet_mask, 24);
    assert_eq!(request.network.gateway, "");
}
