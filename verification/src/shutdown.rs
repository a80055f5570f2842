//! The ordering contract of graceful shutdown.
//!
//! On the first interrupt or terminate signal the runtime marks its health
//! probes as not serving, broadcasts shutdown, and then drains the
//! registries by walking these phases: executables are stopped first;
//! cells are freed only if that stop succeeded, because in-flight children
//! would otherwise be orphaned; VMs are stopped next and then freed
//! unconditionally, because hypervisor handles must be released even when
//! a stop failed. Per-phase errors are logged by the runtime, never
//! propagated: the walk always completes.

use vstd::prelude::*;

verus! {

/// The phases of draining, in the order they run.
#[derive(Debug, PartialEq, Eq, Structural, Clone, Copy)]
pub enum ShutdownPhase {
    /// Stop every registered executable.
    StopExecutables,
    /// Free every cell; entered only after executables stopped cleanly.
    FreeCells,
    /// Stop every running VM.
    StopVms,
    /// Free every VM, releasing its handle, whatever stopping reported.
    FreeVms,
    Done,
}

/// The phase that follows one completed phase: a failed executable stop
/// skips the cell free; a failed VM stop never skips the VM free.
pub open spec fn spec_next_phase(phase: ShutdownPhase, step_failed: bool) -> ShutdownPhase {
    match phase {
        ShutdownPhase::StopExecutables => if step_failed {
            ShutdownPhase::StopVms
        } else {
            ShutdownPhase::FreeCells
        },
        ShutdownPhase::FreeCells => ShutdownPhase::StopVms,
        ShutdownPhase::StopVms => ShutdownPhase::FreeVms,
        ShutdownPhase::FreeVms => ShutdownPhase::Done,
        ShutdownPhase::Done => ShutdownPhase::Done,
    }
}

/// Advances the drain after one phase has run.
pub fn next_phase(phase: ShutdownPhase, step_failed: bool) -> (r: ShutdownPhase)
    ensures
        r == spec_next_phase(phase, step_failed),
{
    match phase {
        ShutdownPhase::StopExecutables => if step_failed {
            ShutdownPhase::StopVms
        } else {
            ShutdownPhase::FreeCells
        },
        ShutdownPhase::FreeCells => ShutdownPhase::StopVms,
        ShutdownPhase::StopVms => ShutdownPhase::FreeVms,
        ShutdownPhase::FreeVms => ShutdownPhase::Done,
        ShutdownPhase::Done => ShutdownPhase::Done,
    }
}

/// Cells are freed only on the heels of a clean executable stop: no other
/// phase and no failure leads into `FreeCells`.
pub proof fn lemma_free_cells_needs_clean_stop(phase: ShutdownPhase, step_failed: bool)
    ensures
        spec_next_phase(phase, step_failed) == ShutdownPhase::FreeCells ==> phase
            == ShutdownPhase::StopExecutables && !step_failed,
{
}

/// VM handles are always released: after the VM stop phase the drain
/// frees the VMs whether or not that stop failed, and the walk reaches
/// `Done` from every phase in at most four steps.
pub proof fn lemma_vms_always_freed(step_failed: bool)
    ensures
        spec_next_phase(ShutdownPhase::StopVms, step_failed) == ShutdownPhase::FreeVms,
{
}

} // verus!
