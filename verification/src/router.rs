//! Resolving execution targets and the retry policy for forwarding.
//!
//! Any request may name an execution target: a VM, a cell, or neither
//! (local). Resolution turns the target into the socket to dial; the
//! surrounding runtime dials it and retries per the policy stated here.

use vstd::prelude::*;

use crate::cells::Cells;
use crate::error::{CellsError, CellsServiceError, ValidationError};
use crate::names::valid_cell_path;
use crate::vm::VmState;
use crate::vms::Vms;

verus! {

/// First retry delay of the dial and call backoff.
pub const BACKOFF_INITIAL_MS: u64 = 50;

/// Factor by which the delay grows each attempt.
pub const BACKOFF_MULTIPLIER: u64 = 10;

/// Randomization of each delay, in percent either way.
pub const BACKOFF_RANDOMIZATION_PERCENT: u64 = 50;

/// Longest single delay.
pub const BACKOFF_MAX_INTERVAL_MS: u64 = 3000;

/// Total retry budget; once it is spent the failure is surfaced.
pub const BACKOFF_MAX_ELAPSED_MS: u64 = 20000;

/// An endpoint an agent can be dialed at: a Unix socket path (cells, no
/// TLS) or a network address (VM guests, mutual TLS).
#[derive(Debug, PartialEq, Eq)]
pub enum AuraeSocket {
    Path(String),
    Addr(String),
}

/// The addressing value a request may carry: a VM id, a cell path, both
/// ("inside that VM, target that cell"), or neither (local). An empty
/// string is not a valid value for either field.
#[derive(Debug, PartialEq, Eq)]
pub struct ExecutionTarget {
    pub vm_id: Option<String>,
    pub cell_path: Option<String>,
}

impl ExecutionTarget {
    /// Whether the target addresses anything beyond this agent.
    pub open spec fn spec_names_remote(self) -> bool {
        self.vm_id is Some || self.cell_path is Some
    }

    /// Whether the target addresses anything beyond this agent.
    pub fn names_remote(&self) -> (r: bool)
        ensures
            r == self.spec_names_remote(),
    {
        self.vm_id.is_some() || self.cell_path.is_some()
    }
}

/// Where a resolved request goes: handled locally, forwarded to a cell's
/// nested agent over its Unix socket, or forwarded to a VM's guest agent
/// over TLS, carrying the remaining cell path for the remote agent to
/// recurse into.
#[derive(Debug, PartialEq, Eq)]
pub enum ResolvedTarget {
    /// Target is local — execute directly without forwarding.
    Local,
    /// Target is a cell — forward via Unix socket (no TLS).
    Cell { socket: AuraeSocket },
    /// Target is a VM — forward via network socket with TLS.
    Vm { socket: AuraeSocket, cell_path: Option<String> },
}

/// Resolves an execution target against the live registries.
///
/// A VM target needs a VM service and a running VM, and carries the cell
/// path through for the remote agent; a cell target must name a valid,
/// allocated cell and resolves to its nested agent socket; an empty
/// target is local. No dial happens here, and none is needed for a local
/// target.
pub fn resolve_target(target: &ExecutionTarget, cells: &Cells, vms: Option<&Vms>) -> (r: Result<
    ResolvedTarget,
    CellsServiceError,
>)
    requires
        cells.wf(),
        vms matches Some(v) ==> v.wf(),
    ensures
        match target.vm_id {
            Some(id) => match vms {
                None => r matches Err(CellsServiceError::VmTargetingUnavailable),
                Some(v) => {
                    if v.contains_id(id@) && v.entry_of(id@).state == VmState::Running {
                        r matches Ok(ResolvedTarget::Vm { socket, cell_path }) && socket matches
                            AuraeSocket::Addr(a) && a@ == v.entry_of(id@).spec.auraed_address@
                            && cell_path == target.cell_path
                    } else {
                        r matches Err(CellsServiceError::VmNotRunning { vm_id }) && vm_id@ == id@
                    }
                },
            },
            None => match target.cell_path {
                Some(p) => {
                    if !valid_cell_path(p@) {
                        r matches Err(
                            CellsServiceError::ValidationError {
                                source: ValidationError::Invalid { field },
                            },
                        ) && field@ == "cell_path"@
                    } else if cells.contains_path(p@) {
                        r matches Ok(ResolvedTarget::Cell { socket }) && socket matches
                            AuraeSocket::Path(s) && s@ == cells.entry_of(p@).socket@
                    } else {
                        r matches Err(
                            CellsServiceError::CellsError {
                                source: CellsError::CellNotFound { cell_name },
                            },
                        ) && cell_name@ == p@
                    }
                },
                None => r == Ok::<ResolvedTarget, CellsServiceError>(ResolvedTarget::Local),
            },
        },
{
    if let Some(id) = &target.vm_id {
        let vm_service = match vms {
            None => {
                return Err(CellsServiceError::VmTargetingUnavailable);
            },
            Some(v) => v,
        };
        let socket_addr = match vm_service.get_socket(id) {
            None => {
                return Err(CellsServiceError::VmNotRunning { vm_id: id.clone() });
            },
            Some(addr) => addr,
        };
        let cell_path = match &target.cell_path {
            Some(p) => Some(p.clone()),
            None => None,
        };
        return Ok(ResolvedTarget::Vm { socket: AuraeSocket::Addr(socket_addr), cell_path });
    }
    if let Some(p) = &target.cell_path {
        let cell_name = match crate::cells::CellName::validate(Some(p.clone()), "cell_path") {
            Ok(n) => n,
            Err(e) => {
                return Err(CellsServiceError::ValidationError { source: e });
            },
        };
        let entry = match cells.get(&cell_name) {
            Ok(e) => e,
            Err(e) => {
                return Err(CellsServiceError::CellsError { source: e });
            },
        };
        return Ok(ResolvedTarget::Cell { socket: AuraeSocket::Path(entry.socket.clone()) });
    }
    Ok(ResolvedTarget::Local)
}

/// The report of one dial attempt, as the runtime classified it.
pub enum DialOutcome {
    /// The endpoint refused or could not be reached.
    ConnectionError,
    /// Any other failure.
    OtherError,
}

/// What the runtime should do with a failed attempt.
#[derive(Debug, PartialEq, Eq, Structural)]
pub enum RetryDecision {
    /// Sleep this many milliseconds and try again.
    Retry { delay_ms: u64 },
    /// The failure is permanent, or the budget is spent: surface it.
    GiveUp,
}

/// Decides a failed dial: only connection errors are retried, and only
/// while the backoff strategy still offers a delay; everything else is
/// permanent and surfaced at once.
pub fn dial_retry(outcome: &DialOutcome, next_delay_ms: Option<u64>) -> (r: RetryDecision)
    ensures
        r == match outcome {
            DialOutcome::ConnectionError => match next_delay_ms {
                Some(d) => RetryDecision::Retry { delay_ms: d },
                None => RetryDecision::GiveUp,
            },
            DialOutcome::OtherError => RetryDecision::GiveUp,
        },
{
    match outcome {
        DialOutcome::ConnectionError => match next_delay_ms {
            Some(d) => RetryDecision::Retry { delay_ms: d },
            None => RetryDecision::GiveUp,
        },
        DialOutcome::OtherError => RetryDecision::GiveUp,
    }
}

/// Decides a failed forwarded call: only the narrow transient class — the
/// "unknown" status code carrying exactly the message "transport error" —
/// is retried; any other failure is permanent.
pub fn call_is_transient(code_is_unknown: bool, message: &String) -> (r: bool)
    ensures
        r == (code_is_unknown && message@ == "transport error"@),
{
    if !code_is_unknown {
        return false;
    }
    let expected = String::from_str("transport error");
    *message == expected
}

} // verus!
