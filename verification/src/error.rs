//! Error types of the agent core and their mapping onto RPC status codes.

use vstd::prelude::*;

verus! {

/// A field of a request failed validation.
#[derive(Debug, PartialEq, Eq)]
pub enum ValidationError {
    /// The field was absent but is required.
    Required { field: String },
    /// The field was present but malformed.
    Invalid { field: String },
}

/// Errors of the executables registry.
#[derive(Debug, PartialEq, Eq)]
pub enum ExecutablesError {
    ExecutableExists { executable_name: String },
    ExecutableNotFound { executable_name: String },
    FailedToStartExecutable { executable_name: String },
    FailedToStopExecutable { executable_name: String },
}

/// Errors of the cells registry.
#[derive(Debug, PartialEq, Eq)]
pub enum CellsError {
    CellExists { cell_name: String },
    CellNotFound { cell_name: String },
    /// Allocation names a nested path whose parent cell does not exist;
    /// ancestors are never created implicitly.
    ParentCellNotFound { cell_name: String },
}

/// Errors raised while talking to a remote agent.
#[derive(Debug, PartialEq, Eq)]
pub enum ClientError {
    /// The endpoint could not be reached; the only class retried on dial.
    ConnectionError { message: String },
    Other { message: String },
}

/// Errors of the VM service and of the VM registry behind it.
#[derive(Debug, PartialEq, Eq)]
#[allow(inconsistent_fields)]
pub enum VmServiceError {
    VmExists { vm_id: String },
    VmNotFound { vm_id: String },
    VmNotExited { vm_id: String },
    KillError { vm_id: String, error: String },
    /// The hypervisor refused the rendered machine configuration; fatal for
    /// this id, not for the agent.
    BadConfiguration { vm_id: String, error: String },
    ClientError { error: ClientError },
}

/// Errors of the cell service facade.
#[derive(Debug, PartialEq, Eq)]
#[allow(inconsistent_fields)]
pub enum CellsServiceError {
    CellsError { source: CellsError },
    ExecutablesError { source: ExecutablesError },
    ValidationError { source: ValidationError },
    /// The target names a VM but the VM is not running, so it has no
    /// reachable guest agent socket.
    VmNotRunning { vm_id: String },
    /// The target names a VM but this agent was built without a VM service.
    VmTargetingUnavailable,
    Other { message: String },
}

/// The RPC status class a response is surfaced with.
#[derive(Debug, PartialEq, Eq, Structural, Clone, Copy)]
pub enum StatusKind {
    AlreadyExists,
    NotFound,
    FailedPrecondition,
    InvalidArgument,
    Internal,
    Unavailable,
    Unknown,
}

/// The status class of a VM service error: existence clashes surface as
/// "already exists", missing ids as "not found", lifecycle misuse as
/// "failed precondition", kill failures as "internal", connection loss as
/// "unavailable".
pub open spec fn spec_vm_error_status(e: VmServiceError) -> StatusKind {
    match e {
        VmServiceError::VmExists { .. } => StatusKind::AlreadyExists,
        VmServiceError::VmNotFound { .. } => StatusKind::NotFound,
        VmServiceError::VmNotExited { .. } => StatusKind::FailedPrecondition,
        VmServiceError::KillError { .. } => StatusKind::Internal,
        VmServiceError::BadConfiguration { .. } => StatusKind::FailedPrecondition,
        VmServiceError::ClientError { error } => match error {
            ClientError::ConnectionError { .. } => StatusKind::Unavailable,
            ClientError::Other { .. } => StatusKind::Unknown,
        },
    }
}

/// Maps a VM service error onto the status class its response carries.
pub fn vm_error_status(e: &VmServiceError) -> (r: StatusKind)
    ensures
        r == spec_vm_error_status(*e),
{
    match e {
        VmServiceError::VmExists { .. } => StatusKind::AlreadyExists,
        VmServiceError::VmNotFound { .. } => StatusKind::NotFound,
        VmServiceError::VmNotExited { .. } => StatusKind::FailedPrecondition,
        VmServiceError::KillError { .. } => StatusKind::Internal,
        VmServiceError::BadConfiguration { .. } => StatusKind::FailedPrecondition,
        VmServiceError::ClientError { error } => match error {
            ClientError::ConnectionError { .. } => StatusKind::Unavailable,
            ClientError::Other { .. } => StatusKind::Unknown,
        },
    }
}

/// The status class of a cell service error: not-found conditions surface
/// as "not found", duplicates as "already exists", malformed requests as
/// "invalid argument", spawn and kill failures as "internal", and a target
/// that cannot currently be served as "failed precondition".
pub open spec fn spec_cells_error_status(e: CellsServiceError) -> StatusKind {
    match e {
        CellsServiceError::CellsError { source } => match source {
            CellsError::CellExists { .. } => StatusKind::AlreadyExists,
            CellsError::CellNotFound { .. } => StatusKind::NotFound,
            CellsError::ParentCellNotFound { .. } => StatusKind::NotFound,
        },
        CellsServiceError::ExecutablesError { source } => match source {
            ExecutablesError::ExecutableExists { .. } => StatusKind::AlreadyExists,
            ExecutablesError::ExecutableNotFound { .. } => StatusKind::NotFound,
            ExecutablesError::FailedToStartExecutable { .. } => StatusKind::Internal,
            ExecutablesError::FailedToStopExecutable { .. } => StatusKind::Internal,
        },
        CellsServiceError::ValidationError { .. } => StatusKind::InvalidArgument,
        CellsServiceError::VmNotRunning { .. } => StatusKind::FailedPrecondition,
        CellsServiceError::VmTargetingUnavailable => StatusKind::FailedPrecondition,
        CellsServiceError::Other { .. } => StatusKind::Internal,
    }
}

/// Maps a cell service error onto the status class its response carries.
pub fn cells_error_status(e: &CellsServiceError) -> (r: StatusKind)
    ensures
        r == spec_cells_error_status(*e),
{
    match e {
        CellsServiceError::CellsError { source } => match source {
            CellsError::CellExists { .. } => StatusKind::AlreadyExists,
            CellsError::CellNotFound { .. } => StatusKind::NotFound,
            CellsError::ParentCellNotFound { .. } => StatusKind::NotFound,
        },
        CellsServiceError::ExecutablesError { source } => match source {
            ExecutablesError::ExecutableExists { .. } => StatusKind::AlreadyExists,
            ExecutablesError::ExecutableNotFound { .. } => StatusKind::NotFound,
            ExecutablesError::FailedToStartExecutable { .. } => StatusKind::Internal,
            ExecutablesError::FailedToStopExecutable { .. } => StatusKind::Internal,
        },
        CellsServiceError::ValidationError { .. } => StatusKind::InvalidArgument,
        CellsServiceError::VmNotRunning { .. } => StatusKind::FailedPrecondition,
        CellsServiceError::VmTargetingUnavailable => StatusKind::FailedPrecondition,
        CellsServiceError::Other { .. } => StatusKind::Internal,
    }
}

/// The text of a VM service error, for logs and RPC messages.
pub open spec fn spec_vm_error_message(e: VmServiceError) -> Seq<char> {
    match e {
        VmServiceError::VmExists { vm_id } => "vm '"@ + vm_id@ + "' already exists"@,
        VmServiceError::VmNotFound { vm_id } => "vm '"@ + vm_id@ + "' not found"@,
        VmServiceError::VmNotExited { vm_id } => "vm '"@ + vm_id@ + "' not in exited state"@,
        VmServiceError::KillError { vm_id, error } => "failed to kill vm '"@ + vm_id@ + "': "@
            + error@,
        VmServiceError::BadConfiguration { vm_id, error } => "bad configuration for vm '"@ + vm_id@
            + "': "@ + error@,
        VmServiceError::ClientError { error } => match error {
            ClientError::ConnectionError { message } => "connection error: "@ + message@,
            ClientError::Other { message } => message@,
        },
    }
}

/// Renders a VM service error as text.
pub fn vm_error_message(e: &VmServiceError) -> (r: String)
    ensures
        r@ == spec_vm_error_message(*e),
{
    match e {
        VmServiceError::VmExists { vm_id } => {
            let mut s = String::from_str("vm '");
            s.append(vm_id.as_str());
            s.append("' already exists");
            s
        },
        VmServiceError::VmNotFound { vm_id } => {
            let mut s = String::from_str("vm '");
            s.append(vm_id.as_str());
            s.append("' not found");
            s
        },
        VmServiceError::VmNotExited { vm_id } => {
            let mut s = String::from_str("vm '");
            s.append(vm_id.as_str());
            s.append("' not in exited state");
            s
        },
        VmServiceError::KillError { vm_id, error } => {
            let mut s = String::from_str("failed to kill vm '");
            s.append(vm_id.as_str());
            s.append("': ");
            s.append(error.as_str());
            s
        },
        VmServiceError::BadConfiguration { vm_id, error } => {
            let mut s = String::from_str("bad configuration for vm '");
            s.append(vm_id.as_str());
            s.append("': ");
            s.append(error.as_str());
            s
        },
        VmServiceError::ClientError { error } => match error {
            ClientError::ConnectionError { message } => {
                let mut s = String::from_str("connection error: ");
                s.append(message.as_str());
                s
            },
            ClientError::Other { message } => {
                let mut s = String::new();
                s.append(message.as_str());
                s
            },
        },
    }
}

} // verus!
