use auraed::cell_service::{
    start_local, stop_local, validate_start_request, validate_stop_request,
    CellServiceStartRequest, CellServiceStopRequest,
};
use auraed::error::{
    cells_error_status, vm_error_message, vm_error_status, CellsError, CellsServiceError,
    ClientError, StatusKind, ValidationError, VmServiceError,
};
use auraed::executables::{Executables, ExecutableSpec, KillOutcome, SpawnOutcome};
use auraed::observe::{
    start_wiring_after_spawn, start_wiring_next, stop_wiring_next, StartWiring, StopWiring,
};
use auraed::runtime_service::RuntimeService;
use auraed::shutdown::{next_phase, ShutdownPhase};
use auraed::valid_json::{field_name, valid_json};

fn local_start_request(uid: Option<u32>, gid: Option<u32>) -> CellServiceStartRequest {
    CellServiceStartRequest {
        cell_name: None,
        executable: Some(ExecutableSpec {
            name: String::from("exe1"),
            command: String::from("sleep 30"),
            description: String::from("test executable"),
        }),
        uid,
        gid,
        execution_target: None,
    }
}

#[test]
fn start_local_reports_pid_and_inherits_credentials() {
    let mut exes = Executables::new();
    let validated = validate_start_request(local_start_request(None, None)).unwrap();
    let resp = start_local(
        &mut exes,
        validated,
        SpawnOutcome::Spawned { pid: 1234 },
        1000,
        1000,
    )
    .unwrap();
    assert!(resp.pid > 0);
    assert_eq!(resp.pid, 1234);
    assert_eq!(resp.uid, 1000, "start should inherit current uid when unset");
    assert_eq!(resp.gid, 1000, "start should inherit current gid when unset");
    assert!(exes.contains(&String::from("exe1")));
}

#[test]
fn start_local_prefers_requested_credentials() {
    let mut exes = Executables::new();
    let validated = validate_start_request(local_start_request(Some(42), Some(43))).unwrap();
    let resp = start_local(
        &mut exes,
        validated,
        SpawnOutcome::Spawned { pid: 1 },
        1000,
        1000,
    )
    .unwrap();
    assert_eq!(resp.uid, 42);
    assert_eq!(resp.gid, 43);
}

#[test]
fn stop_local_removes_the_entry() {
    let mut exes = Executables::new();
    let validated = validate_start_request(local_start_request(None, None)).unwrap();
    start_local(&mut exes, validated, SpawnOutcome::Spawned { pid: 9 }, 0, 0).unwrap();
    let stop = validate_stop_request(CellServiceStopRequest {
        cell_name: None,
        executable_name: String::from("exe1"),
        execution_target: None,
    })
    .unwrap();
    stop_local(&mut exes, stop, KillOutcome::Exited { status: 0 }).unwrap();
    assert!(!exes.contains(&String::from("exe1")));
}

#[test]
fn start_validation_rejects_bad_requests() {
    let mut req = local_start_request(None, None);
    req.executable = None;
    assert!(matches!(
        validate_start_request(req),
        Err(ValidationError::Required { .. })
    ));

    let mut req = local_start_request(None, None);
    req.executable.as_mut().unwrap().name = String::from("bad name!");
    assert!(matches!(
        validate_start_request(req),
        Err(ValidationError::Invalid { .. })
    ));

    let mut req = local_start_request(None, None);
    req.executable.as_mut().unwrap().command = String::new();
    assert!(matches!(
        validate_start_request(req),
        Err(ValidationError::Invalid { .. })
    ));
}

#[test]
fn error_status_classes() {
    assert_eq!(
        vm_error_status(&VmServiceError::VmExists { vm_id: String::from("v") }),
        StatusKind::AlreadyExists
    );
    assert_eq!(
        vm_error_status(&VmServiceError::VmNotFound { vm_id: String::from("v") }),
        StatusKind::NotFound
    );
    assert_eq!(
        vm_error_status(&VmServiceError::KillError {
            vm_id: String::from("v"),
            error: String::from("x")
        }),
        StatusKind::Internal
    );
    assert_eq!(
        vm_error_status(&VmServiceError::BadConfiguration {
            vm_id: String::from("v"),
            error: String::from("x")
        }),
        StatusKind::FailedPrecondition
    );
    assert_eq!(
        vm_error_status(&VmServiceError::ClientError {
            error: ClientError::ConnectionError { message: String::from("refused") }
        }),
        StatusKind::Unavailable
    );
    assert_eq!(
        cells_error_status(&CellsServiceError::CellsError {
            source: CellsError::CellNotFound { cell_name: String::from("c") }
        }),
        StatusKind::NotFound
    );
    assert_eq!(
        cells_error_status(&CellsServiceError::VmNotRunning { vm_id: String::from("v") }),
        StatusKind::FailedPrecondition
    );
    assert_eq!(
        cells_error_status(&CellsServiceError::ValidationError {
            source: ValidationError::Invalid { field: String::from("f") }
        }),
        StatusKind::InvalidArgument
    );
}

#[test]
fn error_messages_are_rendered() {
    let msg = vm_error_message(&VmServiceError::VmExists { vm_id: String::from("v1") });
    assert_eq!(msg, "vm 'v1' already exists");
    let msg = vm_error_message(&VmServiceError::KillError {
        vm_id: String::from("v1"),
        error: String::from("vm is not running"),
    });
    assert_eq!(msg, "failed to kill vm 'v1': vm is not running");
}

#[test]
fn shutdown_runs_its_phases_in_order() {
    // a clean walk: executables, cells, VMs, VM handles, done
    let mut phase = ShutdownPhase::StopExecutables;
    phase = next_phase(phase, false);
    assert_eq!(phase, ShutdownPhase::FreeCells);
    phase = next_phase(phase, false);
    assert_eq!(phase, ShutdownPhase::StopVms);
    phase = next_phase(phase, false);
    assert_eq!(phase, ShutdownPhase::FreeVms);
    phase = next_phase(phase, false);
    assert_eq!(phase, ShutdownPhase::Done);
}

#[test]
fn failed_executable_stop_skips_the_cell_free() {
    let phase = next_phase(ShutdownPhase::StopExecutables, true);
    assert_eq!(phase, ShutdownPhase::StopVms);
}

#[test]
fn failed_vm_stop_never_skips_the_vm_free() {
    let phase = next_phase(ShutdownPhase::StopVms, true);
    assert_eq!(phase, ShutdownPhase::FreeVms);
}

#[test]
fn pod_sandbox_plan_fixes_paths() {
    let svc = RuntimeService::new();
    let plan = svc.run_pod_sandbox_plan(&String::from("sandbox-1"), false).unwrap();
    assert_eq!(plan.sandbox_id, "sandbox-1");
    assert_eq!(plan.bundle_path, "/var/run/aurae/bundles/_aurae");
    assert_eq!(plan.root_path, "/var/run/aurae/pods/sandbox-1");

    let refused = svc.run_pod_sandbox_plan(&String::from("sandbox-1"), true);
    assert!(matches!(refused, Err(ValidationError::Invalid { .. })));
}

#[test]
fn test_valid_json() {
    assert!(matches!(valid_json(String::from("[]"), "test", None), Ok(..)));

    assert!(matches!(
        valid_json(String::from("1: 1"), "test", None),
        Err(ValidationError::Invalid { .. })
    ));
}

#[test]
fn field_names_are_dotted_under_a_parent() {
    assert_eq!(field_name("field", None), "field");
    assert_eq!(field_name("field", Some("parent")), "parent.field");
    match valid_json(String::from("not json"), "config", Some("request")) {
        Err(ValidationError::Invalid { field }) => assert_eq!(field, "request.config"),
        other => panic!("expected an invalid-field error, got {:?}", other),
    }
}

#[test]
fn channels_are_wired_only_after_the_pid_is_known() {
    // a failed spawn never reaches a registration step
    assert_eq!(start_wiring_after_spawn(&SpawnOutcome::Failed), StartWiring::Failed);
    // a successful spawn registers stdout then stderr, then responds
    let w = start_wiring_after_spawn(&SpawnOutcome::Spawned { pid: 7 });
    assert_eq!(w, StartWiring::RegisterStdout { pid: 7 });
    let w = start_wiring_next(w, false);
    assert_eq!(w, StartWiring::RegisterStderr { pid: 7 });
    let w = start_wiring_next(w, false);
    assert_eq!(w, StartWiring::Respond { pid: 7 });
}

#[test]
fn registration_failures_never_fail_the_start() {
    let w = start_wiring_next(StartWiring::RegisterStdout { pid: 7 }, true);
    assert_eq!(w, StartWiring::RegisterStderr { pid: 7 });
    let w = start_wiring_next(w, true);
    assert_eq!(w, StartWiring::Respond { pid: 7 });
}

#[test]
fn unregistration_always_covers_both_channels() {
    let w = stop_wiring_next(StopWiring::UnregisterStdout { pid: 7 }, true);
    assert_eq!(w, StopWiring::UnregisterStderr { pid: 7 });
    let w = stop_wiring_next(w, true);
    assert_eq!(w, StopWiring::Done);
}
