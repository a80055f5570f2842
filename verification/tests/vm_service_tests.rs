use auraed::error::{ValidationError, VmServiceError};
use auraed::vm::BuildOutcome;
use auraed::vm_service::{
    machine_well_formed, validate_vm_allocate_request, vm_service_allocate, vm_service_free,
    vm_service_start, vm_service_stop, Machine, NetworkInterface, RootDrive,
    VmServiceAllocateRequest, VmServiceFreeRequest, VmServiceStartRequest, VmServiceStopRequest,
};
use auraed::vms::Vms;

fn test_machine(id: &str) -> Machine {
    Machine {
        id: String::from(id),
        mem_size_mb: 1024,
        vcpu_count: 2,
        kernel_img_path: String::from("/var/lib/aurae/vm/kernel/vmlinux.bin"),
        kernel_args: vec![String::from("console=hvc0,root=/dev/vda1,rw")],
        root_drive: Some(RootDrive {
            host_path: String::from("/var/lib/aurae/vm/image/disk.raw"),
            is_read_only: false,
        }),
        drive_mounts: vec![],
        network_interfaces: vec![NetworkInterface {
            mac_address: String::from("02:00:00:00:00:01"),
            host_dev_name: String::from("aurae0"),
        }],
        auraed_address: String::from("192.168.122.50:8080"),
    }
}

#[test]
fn allocate_echoes_the_machine_id() {
    let mut vms = Vms::new();
    let req = VmServiceAllocateRequest { machine: Some(test_machine("v1")) };
    assert!(machine_well_formed(&req));
    let validated = validate_vm_allocate_request(req).unwrap();
    assert_eq!(validated.machine_id, "v1");
    let resp = vm_service_allocate(&mut vms, validated, BuildOutcome::Built).unwrap();
    assert_eq!(resp.vm_id, "v1");
    assert_eq!(vms.len(), 1);
}

#[test]
fn malformed_allocate_requests_are_rejected_not_crashed() {
    match validate_vm_allocate_request(VmServiceAllocateRequest { machine: None }) {
        Err(ValidationError::Required { field }) => assert_eq!(field, "machine"),
        other => panic!("expected a required-field error, got {:?}", other),
    }

    let mut machine = test_machine("v1");
    machine.root_drive = None;
    match validate_vm_allocate_request(VmServiceAllocateRequest { machine: Some(machine) }) {
        Err(ValidationError::Required { field }) => assert_eq!(field, "machine.root_drive"),
        other => panic!("expected a required-field error, got {:?}", other),
    }

    let mut machine = test_machine("v1");
    machine.network_interfaces.clear();
    match validate_vm_allocate_request(VmServiceAllocateRequest { machine: Some(machine) }) {
        Err(ValidationError::Required { field }) => {
            assert_eq!(field, "machine.network_interfaces")
        }
        other => panic!("expected a required-field error, got {:?}", other),
    }

    assert!(!machine_well_formed(&VmServiceAllocateRequest { machine: None }));
}

#[test]
fn duplicate_id_error_names_the_callers_id() {
    let mut vms = Vms::new();
    let first = validate_vm_allocate_request(VmServiceAllocateRequest {
        machine: Some(test_machine("v1")),
    })
    .unwrap();
    vm_service_allocate(&mut vms, first, BuildOutcome::Built).unwrap();
    let second = validate_vm_allocate_request(VmServiceAllocateRequest {
        machine: Some(test_machine("v1")),
    })
    .unwrap();
    match vm_service_allocate(&mut vms, second, BuildOutcome::Built) {
        Err(VmServiceError::VmExists { vm_id }) => assert_eq!(vm_id, "v1"),
        other => panic!("expected VmExists, got {:?}", other),
    }
}

#[test]
fn service_lifecycle_mirrors_the_registry() {
    let mut vms = Vms::new();
    let req = VmServiceAllocateRequest { machine: Some(test_machine("v1")) };
    let validated = validate_vm_allocate_request(req).unwrap();
    vm_service_allocate(&mut vms, validated, BuildOutcome::Built).unwrap();

    vm_service_start(&mut vms, VmServiceStartRequest { vm_id: String::from("v1") }, true).unwrap();
    assert!(vms.get_socket(&String::from("v1")).is_some());

    vm_service_stop(&mut vms, VmServiceStopRequest { vm_id: String::from("v1") }).unwrap();
    let second = vm_service_stop(&mut vms, VmServiceStopRequest { vm_id: String::from("v1") });
    assert!(matches!(second, Err(VmServiceError::KillError { .. })));

    vm_service_free(&mut vms, VmServiceFreeRequest { vm_id: String::from("v1") }).unwrap();
    assert_eq!(vms.len(), 0);

    let gone = vm_service_start(&mut vms, VmServiceStartRequest { vm_id: String::from("v1") }, true);
    assert!(matches!(gone, Err(VmServiceError::VmNotFound { .. })));
}
