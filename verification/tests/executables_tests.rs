use auraed::error::ExecutablesError;
use auraed::executables::{Executables, ExecutableSpec, KillOutcome, SpawnOutcome};

fn spec_named(name: &str) -> ExecutableSpec {
    ExecutableSpec {
        name: String::from(name),
        command: String::from("sleep 30"),
        description: String::from("test executable"),
    }
}

#[test]
fn start_registers_and_returns_pid() {
    let mut exes = Executables::new();
    let r = exes.start(spec_named("exe1"), SpawnOutcome::Spawned { pid: 4242 });
    assert_eq!(r.unwrap(), 4242);
    assert_eq!(exes.len(), 1);
    assert!(exes.contains(&String::from("exe1")));
    let e = exes.get(&String::from("exe1")).unwrap();
    assert_eq!(e.pid, 4242);
    assert_eq!(e.name, "exe1");
}

#[test]
fn duplicate_start_is_rejected() {
    let mut exes = Executables::new();
    exes.start(spec_named("exe1"), SpawnOutcome::Spawned { pid: 1 }).unwrap();
    let r = exes.start(spec_named("exe1"), SpawnOutcome::Spawned { pid: 2 });
    assert!(matches!(r, Err(ExecutablesError::ExecutableExists { .. })));
    assert_eq!(exes.len(), 1);
    assert_eq!(exes.get(&String::from("exe1")).unwrap().pid, 1);
}

#[test]
fn failed_spawn_leaves_registry_untouched() {
    let mut exes = Executables::new();
    let r = exes.start(spec_named("exe1"), SpawnOutcome::Failed);
    assert!(matches!(r, Err(ExecutablesError::FailedToStartExecutable { .. })));
    assert_eq!(exes.len(), 0);
    // the name is free again, so a second start succeeds
    let r = exes.start(spec_named("exe1"), SpawnOutcome::Spawned { pid: 7 });
    assert_eq!(r.unwrap(), 7);
}

#[test]
fn stop_returns_real_exit_status_and_removes() {
    let mut exes = Executables::new();
    exes.start(spec_named("exe1"), SpawnOutcome::Spawned { pid: 5 }).unwrap();
    let r = exes.stop(&String::from("exe1"), KillOutcome::Exited { status: 137 });
    assert_eq!(r.unwrap(), 137);
    assert_eq!(exes.len(), 0);
    assert!(!exes.contains(&String::from("exe1")));
}

#[test]
fn stop_of_exited_process_reports_synthetic_zero() {
    // the child exited between start and stop: stop still succeeds with a
    // synthetic zero status and the registry no longer holds the entry
    let mut exes = Executables::new();
    exes.start(spec_named("exe1"), SpawnOutcome::Spawned { pid: 5 }).unwrap();
    let r = exes.stop(&String::from("exe1"), KillOutcome::AlreadyReaped);
    assert_eq!(r.unwrap(), 0);
    assert!(!exes.contains(&String::from("exe1")));
}

#[test]
fn double_stop_reports_not_found() {
    let mut exes = Executables::new();
    exes.start(spec_named("exe1"), SpawnOutcome::Spawned { pid: 5 }).unwrap();
    let first = exes.stop(&String::from("exe1"), KillOutcome::Exited { status: 0 });
    assert!(first.is_ok());
    let second = exes.stop(&String::from("exe1"), KillOutcome::Exited { status: 0 });
    assert!(matches!(second, Err(ExecutablesError::ExecutableNotFound { .. })));
}

#[test]
fn stop_of_unknown_name_reports_not_found() {
    let mut exes = Executables::new();
    let r = exes.stop(&String::from("never-existed"), KillOutcome::Exited { status: 0 });
    assert!(matches!(r, Err(ExecutablesError::ExecutableNotFound { .. })));
}

#[test]
fn start_stop_start_reuses_the_name() {
    let mut exes = Executables::new();
    exes.start(spec_named("exe1"), SpawnOutcome::Spawned { pid: 10 }).unwrap();
    exes.stop(&String::from("exe1"), KillOutcome::Exited { status: 0 }).unwrap();
    let r = exes.start(spec_named("exe1"), SpawnOutcome::Spawned { pid: 11 });
    assert_eq!(r.unwrap(), 11);
    assert_eq!(exes.get(&String::from("exe1")).unwrap().pid, 11);
}

#[test]
fn registry_size_tracks_starts_minus_stops() {
    // three starts and one stop of distinct names leave two entries
    let mut exes = Executables::new();
    exes.start(spec_named("a"), SpawnOutcome::Spawned { pid: 1 }).unwrap();
    exes.start(spec_named("b"), SpawnOutcome::Spawned { pid: 2 }).unwrap();
    exes.start(spec_named("c"), SpawnOutcome::Spawned { pid: 3 }).unwrap();
    assert_eq!(exes.len(), 3);
    exes.stop(&String::from("b"), KillOutcome::Exited { status: 0 }).unwrap();
    assert_eq!(exes.len(), 2);
    assert!(exes.contains(&String::from("a")));
    assert!(!exes.contains(&String::from("b")));
    assert!(exes.contains(&String::from("c")));
}

#[test]
fn broadcast_stop_drains_every_entry() {
    let mut exes = Executables::new();
    exes.start(spec_named("a"), SpawnOutcome::Spawned { pid: 1 }).unwrap();
    exes.start(spec_named("b"), SpawnOutcome::Spawned { pid: 2 }).unwrap();
    let drained = exes.broadcast_stop();
    assert_eq!(drained.len(), 2);
    assert_eq!(exes.len(), 0);
    assert_eq!(drained[0].name, "a");
    assert_eq!(drained[1].name, "b");
}

#[test]
fn stop_error_still_removes_the_entry() {
    let mut exes = Executables::new();
    exes.start(spec_named("exe1"), SpawnOutcome::Spawned { pid: 5 }).unwrap();
    let r = exes.stop(&String::from("exe1"), KillOutcome::Error);
    assert!(matches!(r, Err(ExecutablesError::FailedToStopExecutable { .. })));
    assert!(!exes.contains(&String::from("exe1")));
}
