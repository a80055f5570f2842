use auraed::cell_service::{
    route_start, route_stop, rewrite_start_request, CellServiceStartRequest,
    CellServiceStopRequest, RouteDecision,
};
use auraed::cells::{CellName, CellSpec, Cells};
use auraed::error::CellsServiceError;
use auraed::executables::ExecutableSpec;
use auraed::router::{
    call_is_transient, dial_retry, resolve_target, AuraeSocket, DialOutcome, ExecutionTarget,
    ResolvedTarget, RetryDecision,
};
use auraed::vm::{BuildOutcome, VirtualMachineSpec};
use auraed::vms::Vms;

fn start_request(
    cell_name: Option<&str>,
    target: Option<ExecutionTarget>,
) -> CellServiceStartRequest {
    CellServiceStartRequest {
        cell_name: cell_name.map(String::from),
        executable: Some(ExecutableSpec {
            name: String::from("exe1"),
            command: String::from("sleep 30"),
            description: String::from("test executable"),
        }),
        uid: None,
        gid: None,
        execution_target: target,
    }
}

fn cells_with(path: &str, socket: &str) -> Cells {
    let mut cells = Cells::new();
    let name = CellName::validate(Some(String::from(path)), "cell_name").unwrap();
    let spec = CellSpec {
        cpu: None,
        cpuset: None,
        memory: None,
        isolate_process: false,
        isolate_network: false,
    };
    cells.allocate(name, spec, String::from(socket), true).unwrap();
    cells
}

fn running_vm(id: &str, addr: &str) -> Vms {
    let mut vms = Vms::new();
    let spec = VirtualMachineSpec {
        kernel_image_path: String::from("/k"),
        kernel_args: vec![],
        rootfs_path: String::from("/r"),
        mac_address: String::from("aa:bb"),
        host_dev_name: String::from("tap0"),
        vcpus: 1,
        memory_mb: 128,
        auraed_address: String::from(addr),
    };
    vms.allocate(String::from(id), spec, BuildOutcome::Built).unwrap();
    vms.start(&String::from(id), true).unwrap();
    vms
}

#[test]
fn empty_target_resolves_local_without_any_dial() {
    let cells = Cells::new();
    let target = ExecutionTarget { vm_id: None, cell_path: None };
    let r = resolve_target(&target, &cells, None).unwrap();
    assert_eq!(r, ResolvedTarget::Local);
}

#[test]
fn cell_target_resolves_to_its_unix_socket() {
    let cells = cells_with("ae-test-a", "/run/aurae/ae-test-a.sock");
    let target = ExecutionTarget { vm_id: None, cell_path: Some(String::from("ae-test-a")) };
    let r = resolve_target(&target, &cells, None).unwrap();
    assert_eq!(
        r,
        ResolvedTarget::Cell { socket: AuraeSocket::Path(String::from("/run/aurae/ae-test-a.sock")) }
    );
}

#[test]
fn unknown_cell_target_reports_not_found() {
    let cells = Cells::new();
    let target = ExecutionTarget { vm_id: None, cell_path: Some(String::from("ghost")) };
    let r = resolve_target(&target, &cells, None);
    assert!(matches!(r, Err(CellsServiceError::CellsError { .. })));
}

#[test]
fn vm_target_resolves_to_guest_address_and_keeps_cell_path() {
    let cells = Cells::new();
    let vms = running_vm("v1", "192.168.122.50:8080");
    let target =
        ExecutionTarget { vm_id: Some(String::from("v1")), cell_path: Some(String::from("x/y")) };
    let r = resolve_target(&target, &cells, Some(&vms)).unwrap();
    assert_eq!(
        r,
        ResolvedTarget::Vm {
            socket: AuraeSocket::Addr(String::from("192.168.122.50:8080")),
            cell_path: Some(String::from("x/y")),
        }
    );
}

#[test]
fn vm_target_without_vm_service_is_unavailable() {
    let cells = Cells::new();
    let target = ExecutionTarget { vm_id: Some(String::from("v1")), cell_path: None };
    let r = resolve_target(&target, &cells, None);
    assert!(matches!(r, Err(CellsServiceError::VmTargetingUnavailable)));
}

#[test]
fn vm_target_of_stopped_vm_reports_not_running() {
    let cells = Cells::new();
    let mut vms = running_vm("v1", "192.168.122.50:8080");
    vms.stop(&String::from("v1")).unwrap();
    let target = ExecutionTarget { vm_id: Some(String::from("v1")), cell_path: None };
    let r = resolve_target(&target, &cells, Some(&vms));
    assert!(matches!(r, Err(CellsServiceError::VmNotRunning { .. })));
}

#[test]
fn local_request_is_never_forwarded() {
    // neither an execution target nor a legacy cell name: handled locally
    let r = route_start(start_request(None, None));
    assert!(matches!(r, RouteDecision::Local { .. }));
    let r = route_stop(CellServiceStopRequest {
        cell_name: None,
        executable_name: String::from("exe1"),
        execution_target: None,
    });
    assert!(matches!(r, RouteDecision::Local { .. }));
}

#[test]
fn legacy_cell_name_is_folded_into_the_target() {
    let r = route_start(start_request(Some("ae-test-a"), None));
    match r {
        RouteDecision::Forward { target, request } => {
            assert_eq!(target.vm_id, None);
            assert_eq!(target.cell_path.as_deref(), Some("ae-test-a"));
            assert_eq!(request.cell_name, None);
            assert!(request.execution_target.is_none());
        }
        RouteDecision::Local { .. } => panic!("expected the request to forward"),
    }
}

#[test]
fn forwarded_request_reaches_the_vm_agent_with_outer_target_stripped() {
    // a request targeting vm=v1, cell=x/y: the rewrite hands the nested
    // agent a request addressed at cell x/y with no outer target left
    let target =
        ExecutionTarget { vm_id: Some(String::from("v1")), cell_path: Some(String::from("x/y")) };
    let r = route_start(start_request(None, Some(target)));
    let (resolved_cell_path, request) = match r {
        RouteDecision::Forward { target, request } => (target.cell_path, request),
        RouteDecision::Local { .. } => panic!("expected the request to forward"),
    };
    let forwarded = rewrite_start_request(request, resolved_cell_path);
    assert_eq!(forwarded.cell_name.as_deref(), Some("x/y"));
    assert!(forwarded.execution_target.is_none());
    assert_eq!(forwarded.executable.as_ref().unwrap().name, "exe1");

    // at the agent inside v1 the same dispatch peels the next layer
    let next = route_start(forwarded);
    match next {
        RouteDecision::Forward { target, request } => {
            assert_eq!(target.vm_id, None);
            assert_eq!(target.cell_path.as_deref(), Some("x/y"));
            assert_eq!(request.cell_name, None);
        }
        RouteDecision::Local { .. } => panic!("expected the nested request to forward"),
    }
}

#[test]
fn only_connection_errors_are_retried_on_dial() {
    let r = dial_retry(&DialOutcome::ConnectionError, Some(50));
    assert_eq!(r, RetryDecision::Retry { delay_ms: 50 });
    let r = dial_retry(&DialOutcome::ConnectionError, None);
    assert_eq!(r, RetryDecision::GiveUp);
    let r = dial_retry(&DialOutcome::OtherError, Some(50));
    assert_eq!(r, RetryDecision::GiveUp);
}

#[test]
fn only_the_narrow_transient_class_is_retried_on_call() {
    assert!(call_is_transient(true, &String::from("transport error")));
    assert!(!call_is_transient(false, &String::from("transport error")));
    assert!(!call_is_transient(true, &String::from("some other error")));
}
