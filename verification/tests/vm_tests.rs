use auraed::error::VmServiceError;
use auraed::vm::{BuildOutcome, VirtualMachine, VirtualMachineSpec, VmState};
use auraed::vms::Vms;

fn test_spec() -> VirtualMachineSpec {
    VirtualMachineSpec {
        kernel_image_path: String::from("/var/lib/aurae/vm/kernel/vmlinux.bin"),
        kernel_args: vec![String::from("console=hvc0"), String::from("rw")],
        rootfs_path: String::from("/var/lib/aurae/vm/image/disk.raw"),
        mac_address: String::from("02:00:00:00:00:01"),
        host_dev_name: String::from("aurae0"),
        vcpus: 2,
        memory_mb: 1024,
        auraed_address: String::from("192.168.122.50:8080"),
    }
}

#[test]
fn test_vm_allocate() {
    let mut vm = VirtualMachine::new(
        "aurae-vm-test".to_string(),
        VirtualMachineSpec {
            kernel_image_path:
                "/home/jan0ski/aurae-runtime/aurae/auraed/hack/hello-vmlinux.bin".to_string(),
            kernel_args: vec![
                "console=ttyS0".to_string(),
                "reboot=k".to_string(),
                "panic=1".to_string(),
                "pci=off".to_string(),
            ],
            rootfs_path: "/home/jan0ski/aurae-runtime/aurae/auraed/hack/hello-rootfs.ext4"
                .to_string(),
            mac_address: "deadbeef::1234".to_string(),
            host_dev_name: "aurae0".to_string(),
            vcpus: 1,
            memory_mb: 2048,
            auraed_address: String::new(),
        },
    );
    assert!(vm.allocate(BuildOutcome::Built).is_ok())
}

#[test]
fn a_vm_carries_the_callers_id() {
    let vm = VirtualMachine::new("vm-7".to_string(), test_spec());
    assert_eq!(vm.id, "vm-7");
    assert_eq!(vm.state, VmState::NotStarted);
}

#[test]
fn config_is_rendered_exactly() {
    let mut spec = test_spec();
    spec.kernel_image_path = String::from("/k/vmlinux.bin");
    spec.kernel_args = vec![String::from("console=ttyS0"), String::from("pci=off")];
    spec.rootfs_path = String::from("/r/rootfs.ext4");
    spec.mac_address = String::from("aa:bb");
    spec.host_dev_name = String::from("tap0");
    spec.vcpus = 2;
    spec.memory_mb = 2048;
    let vm = VirtualMachine::new("cfg".to_string(), spec);
    let cfg = vm.render_config();
    let mut expected = String::new();
    expected.push_str("{\"boot-source\":{\"kernel_image_path\":\"/k/vmlinux.bin\",");
    expected.push_str("\"boot_args\":\"console=ttyS0 pci=off\"},");
    expected.push_str("\"drives\":[{\"drive_id\":\"rootfs\",\"path_on_host\":\"/r/rootfs.ext4\",");
    expected.push_str("\"is_root_device\":true,\"is_read_only\":false}],");
    expected.push_str("\"machine-config\":{\"vcpu_count\":2,\"mem_size_mib\":2048,\"smt\":false},");
    expected.push_str("\"network-interfaces\":[{\"iface_id\":\"eth0\",\"guest_mac\":\"aa:bb\",");
    expected.push_str("\"host_dev_name\":\"tap0\"}],");
    expected.push_str(
        "\"vsock\":{\"guest_cid\":3,\"uds_path\":\"/run/aurae/aurae.vsock\",\"vsock_id\":\"vsock0\"},",
    );
    expected.push_str("\"mmds-config\":{\"version\":\"V2\",\"ipv4_address\":\"169.254.42.2\",");
    expected.push_str("\"network_interfaces\":[\"eth0\"]}}");
    assert_eq!(cfg, expected);
}

#[test]
fn lifecycle_follows_not_started_running_stopped() {
    let mut vm = VirtualMachine::new("v".to_string(), test_spec());
    vm.allocate(BuildOutcome::Built).unwrap();
    assert_eq!(vm.state, VmState::NotStarted);
    vm.start(true).unwrap();
    assert_eq!(vm.state, VmState::Running);
    vm.stop().unwrap();
    assert_eq!(vm.state, VmState::Stopped);
    // no resurrection after Stopped
    let r = vm.start(true);
    assert!(matches!(r, Err(VmServiceError::VmNotExited { .. })));
    assert_eq!(vm.state, VmState::Stopped);
}

#[test]
fn second_stop_reports_vm_not_running() {
    let mut vm = VirtualMachine::new("v".to_string(), test_spec());
    vm.allocate(BuildOutcome::Built).unwrap();
    vm.start(true).unwrap();
    vm.stop().unwrap();
    match vm.stop() {
        Err(VmServiceError::KillError { vm_id, error }) => {
            assert_eq!(vm_id, "v", "errors name the caller-supplied id");
            assert_eq!(error, "vm is not running");
        }
        other => panic!("expected KillError, got {:?}", other),
    }
}

#[test]
fn double_allocate_reports_vm_exists() {
    let mut vm = VirtualMachine::new("v".to_string(), test_spec());
    vm.allocate(BuildOutcome::Built).unwrap();
    let r = vm.allocate(BuildOutcome::Built);
    assert!(matches!(r, Err(VmServiceError::VmExists { .. })));
}

#[test]
fn refused_build_is_bad_configuration() {
    let mut vm = VirtualMachine::new("v".to_string(), test_spec());
    let r = vm.allocate(BuildOutcome::BuildFailed { error: String::from("no kernel image") });
    assert!(matches!(r, Err(VmServiceError::BadConfiguration { .. })));
    assert_eq!(vm.state, VmState::NotStarted);
}

#[test]
fn free_stops_a_running_vm_and_releases_the_handle() {
    let mut vm = VirtualMachine::new("v".to_string(), test_spec());
    vm.allocate(BuildOutcome::Built).unwrap();
    vm.start(true).unwrap();
    vm.free().unwrap();
    assert_eq!(vm.state, VmState::Stopped);
    assert!(!vm.handle);
}

#[test]
fn free_from_not_started_does_not_leak_the_handle() {
    let mut vm = VirtualMachine::new("v".to_string(), test_spec());
    vm.allocate(BuildOutcome::Built).unwrap();
    vm.free().unwrap();
    assert_eq!(vm.state, VmState::NotStarted);
    assert!(!vm.handle);
}

#[test]
fn registry_refuses_duplicate_ids() {
    let mut vms = Vms::new();
    vms.allocate(String::from("v1"), test_spec(), BuildOutcome::Built).unwrap();
    let r = vms.allocate(String::from("v1"), test_spec(), BuildOutcome::Built);
    assert!(matches!(r, Err(VmServiceError::VmExists { .. })));
    assert_eq!(vms.len(), 1);
}

#[test]
fn socket_is_observable_only_while_running() {
    let mut vms = Vms::new();
    let id = String::from("v1");
    vms.allocate(id.clone(), test_spec(), BuildOutcome::Built).unwrap();
    assert_eq!(vms.get_socket(&id), None);
    vms.start(&id, true).unwrap();
    assert_eq!(vms.get_socket(&id).as_deref(), Some("192.168.122.50:8080"));
    vms.stop(&id).unwrap();
    assert_eq!(vms.get_socket(&id), None);
}

#[test]
fn registry_lifecycle_and_teardown() {
    let mut vms = Vms::new();
    vms.allocate(String::from("v1"), test_spec(), BuildOutcome::Built).unwrap();
    vms.allocate(String::from("v2"), test_spec(), BuildOutcome::Built).unwrap();
    vms.start(&String::from("v1"), true).unwrap();
    vms.stop_all();
    assert_eq!(vms.get_socket(&String::from("v1")), None);
    let drained = vms.free_all();
    assert_eq!(drained.len(), 2);
    assert_eq!(vms.len(), 0);
    assert!(drained.iter().all(|vm| !vm.handle));
}

#[test]
fn free_of_unknown_id_reports_not_found() {
    let mut vms = Vms::new();
    let r = vms.free(&String::from("ghost"));
    assert!(matches!(r, Err(VmServiceError::VmNotFound { .. })));
}
