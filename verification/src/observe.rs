//! The wiring contract around the log-channel collaborator.
//!
//! Every started executable streams its stdout and stderr to an observe
//! collaborator the runtime owns; this module fixes the order of that
//! wiring. Both channels are registered only once the spawned pid is
//! known; on stop, both are unregistered after the kill attempt whatever
//! its outcome was; and a registration or unregistration failure is
//! logged by the runtime, never failing the call — the authoritative
//! success criterion is process state.

use vstd::prelude::*;

use crate::executables::SpawnOutcome;

verus! {

/// The wiring steps around one start, in order. The pid travels in the
/// phase, so no registration step can exist before a pid is known.
#[derive(Debug, PartialEq, Eq, Structural, Clone, Copy)]
pub enum StartWiring {
    /// Waiting for the spawn; no pid is known yet, so no channel can be
    /// registered.
    AwaitPid,
    RegisterStdout { pid: i32 },
    RegisterStderr { pid: i32 },
    /// Respond with this pid; any registration failures were logged.
    Respond { pid: i32 },
    /// The spawn failed: nothing was registered, the error is surfaced.
    Failed,
}

/// The wiring steps around one stop, entered only after the kill attempt
/// — whatever it reported — so channels never outlive their entry.
#[derive(Debug, PartialEq, Eq, Structural, Clone, Copy)]
pub enum StopWiring {
    UnregisterStdout { pid: i32 },
    UnregisterStderr { pid: i32 },
    Done,
}

/// Where the start wiring goes once the spawn outcome is in: only a
/// successful spawn, with its pid, reaches the registration steps.
pub open spec fn spec_start_wiring_after_spawn(spawn: SpawnOutcome) -> StartWiring {
    match spawn {
        SpawnOutcome::Spawned { pid } => StartWiring::RegisterStdout { pid },
        SpawnOutcome::Failed => StartWiring::Failed,
    }
}

/// Enters the start wiring from the spawn outcome.
pub fn start_wiring_after_spawn(spawn: &SpawnOutcome) -> (r: StartWiring)
    ensures
        r == spec_start_wiring_after_spawn(*spawn),
{
    match spawn {
        SpawnOutcome::Spawned { pid } => StartWiring::RegisterStdout { pid: *pid },
        SpawnOutcome::Failed => StartWiring::Failed,
    }
}

/// The step after one wiring action: registration always advances,
/// whether or not the action failed, and the pid is carried through
/// unchanged.
pub open spec fn spec_start_wiring_next(w: StartWiring, step_failed: bool) -> StartWiring {
    match w {
        StartWiring::AwaitPid => StartWiring::AwaitPid,
        StartWiring::RegisterStdout { pid } => StartWiring::RegisterStderr { pid },
        StartWiring::RegisterStderr { pid } => StartWiring::Respond { pid },
        StartWiring::Respond { pid } => StartWiring::Respond { pid },
        StartWiring::Failed => StartWiring::Failed,
    }
}

/// Advances the start wiring after one action.
pub fn start_wiring_next(w: StartWiring, step_failed: bool) -> (r: StartWiring)
    ensures
        r == spec_start_wiring_next(w, step_failed),
{
    match w {
        StartWiring::AwaitPid => StartWiring::AwaitPid,
        StartWiring::RegisterStdout { pid } => StartWiring::RegisterStderr { pid },
        StartWiring::RegisterStderr { pid } => StartWiring::Respond { pid },
        StartWiring::Respond { pid } => StartWiring::Respond { pid },
        StartWiring::Failed => StartWiring::Failed,
    }
}

/// The step after one unregistration: it always advances, whether or not
/// the action failed.
pub open spec fn spec_stop_wiring_next(w: StopWiring, step_failed: bool) -> StopWiring {
    match w {
        StopWiring::UnregisterStdout { pid } => StopWiring::UnregisterStderr { pid },
        StopWiring::UnregisterStderr { .. } => StopWiring::Done,
        StopWiring::Done => StopWiring::Done,
    }
}

/// Advances the stop wiring after one action.
pub fn stop_wiring_next(w: StopWiring, step_failed: bool) -> (r: StopWiring)
    ensures
        r == spec_stop_wiring_next(w, step_failed),
{
    match w {
        StopWiring::UnregisterStdout { pid } => StopWiring::UnregisterStderr { pid },
        StopWiring::UnregisterStderr { .. } => StopWiring::Done,
        StopWiring::Done => StopWiring::Done,
    }
}

/// Channel registration failures never fail the start: from the first
/// registration step, two more steps respond with the spawned pid,
/// whatever each registration reported.
pub proof fn lemma_registration_failure_never_fails_the_start(pid: i32, f1: bool, f2: bool)
    ensures
        spec_start_wiring_next(
            spec_start_wiring_next(StartWiring::RegisterStdout { pid }, f1),
            f2,
        ) == (StartWiring::Respond { pid }),
{
}

/// Unregistration runs for both channels regardless of failures: from the
/// first unregistration step, two more steps finish, whatever each one
/// reported.
pub proof fn lemma_unregistration_always_completes(pid: i32, f1: bool, f2: bool)
    ensures
        spec_stop_wiring_next(
            spec_stop_wiring_next(StopWiring::UnregisterStdout { pid }, f1),
            f2,
        ) == StopWiring::Done,
{
}

} // verus!
