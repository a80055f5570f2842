//! The cell service facade: request validation, the dispatch decision
//! between local handling and forwarding, the request rewrites applied
//! when forwarding, and the local handlers over the registries.
//!
//! Forwarding is recursive and uniform: the rewritten request drops the
//! outer target and carries any remaining cell path in `cell_name`, so the
//! remote agent — itself an instance of this same service — treats it like
//! any other request.

use vstd::prelude::*;

use crate::cells::{Cell, CellGraphNode, CellName, CellSpec, Cells, node_matches};
use crate::cgroups::{check_cpu, check_memory, valid_cpu, valid_memory};
use crate::error::{CellsServiceError, ValidationError};
use crate::executables::{ExecutableSpec, Executables, KillOutcome, SpawnOutcome};
use crate::names::{check_executable_name, path_has_parent, valid_executable_name};
use crate::router::ExecutionTarget;

verus! {

pub struct CellServiceAllocateRequest {
    pub cell: Option<Cell>,
    pub parent_target: Option<ExecutionTarget>,
}

pub struct CellServiceAllocateResponse {
    pub cell_name: String,
    pub cgroup_v2: bool,
}

pub struct CellServiceFreeRequest {
    pub cell_name: Option<String>,
    pub parent_target: Option<ExecutionTarget>,
}

pub struct CellServiceFreeResponse {}

pub struct CellServiceStartRequest {
    pub cell_name: Option<String>,
    pub executable: Option<ExecutableSpec>,
    pub uid: Option<u32>,
    pub gid: Option<u32>,
    pub execution_target: Option<ExecutionTarget>,
}

pub struct CellServiceStartResponse {
    pub pid: i32,
    pub uid: u32,
    pub gid: u32,
}

pub struct CellServiceStopRequest {
    pub cell_name: Option<String>,
    pub executable_name: String,
    pub execution_target: Option<ExecutionTarget>,
}

pub struct CellServiceStopResponse {}

pub struct CellServiceListRequest {
    pub execution_target: Option<ExecutionTarget>,
}

pub struct CellServiceListResponse {
    pub cells: Vec<CellGraphNode>,
}

/// Where a request goes: to a remote agent, or to the local handlers.
pub enum RouteDecision<R> {
    Forward { target: ExecutionTarget, request: R },
    Local { request: R },
}

/// Decides where a start request goes, folding the legacy `cell_name`
/// addressing into the unified target: a request with a remote-naming
/// target forwards; one with only a legacy `cell_name` forwards as if
/// that path had been its target; one with neither is local. A forwarded
/// request has its `cell_name` cleared — the path now travels in the
/// target — and nothing else changed. No dial happens for a local
/// request.
pub fn route_start(req: CellServiceStartRequest) -> (r: RouteDecision<CellServiceStartRequest>)
    ensures
        r == spec_route_start(req),
        match r {
            RouteDecision::Forward { target, request } => {
                &&& request.cell_name is None
                &&& request.executable == req.executable
                &&& request.uid == req.uid && request.gid == req.gid
                &&& match req.execution_target {
                    Some(t) => t.spec_names_remote() && target == t,
                    None => req.cell_name matches Some(p) && target.vm_id is None
                        && target.cell_path == Some(p),
                }
            },
            RouteDecision::Local { request } => {
                &&& request == req
                &&& (req.execution_target matches Some(t) ==> !t.spec_names_remote())
                &&& (req.execution_target is None ==> req.cell_name is None)
            },
        },
{
    let CellServiceStartRequest { cell_name, executable, uid, gid, execution_target } = req;
    match execution_target {
        Some(t) => {
            if t.names_remote() {
                RouteDecision::Forward {
                    target: t,
                    request: CellServiceStartRequest {
                        cell_name: None,
                        executable,
                        uid,
                        gid,
                        execution_target: None,
                    },
                }
            } else {
                RouteDecision::Local {
                    request: CellServiceStartRequest {
                        cell_name,
                        executable,
                        uid,
                        gid,
                        execution_target: Some(t),
                    },
                }
            }
        },
        None => match cell_name {
            Some(p) => RouteDecision::Forward {
                target: ExecutionTarget { vm_id: None, cell_path: Some(p) },
                request: CellServiceStartRequest {
                    cell_name: None,
                    executable,
                    uid,
                    gid,
                    execution_target: None,
                },
            },
            None => RouteDecision::Local {
                request: CellServiceStartRequest {
                    cell_name: None,
                    executable,
                    uid,
                    gid,
                    execution_target: None,
                },
            },
        },
    }
}

/// Decides where a stop request goes; same folding as for start.
pub fn route_stop(req: CellServiceStopRequest) -> (r: RouteDecision<CellServiceStopRequest>)
    ensures
        match r {
            RouteDecision::Forward { target, request } => {
                &&& request.cell_name is None
                &&& request.executable_name == req.executable_name
                &&& match req.execution_target {
                    Some(t) => t.spec_names_remote() && target == t,
                    None => req.cell_name matches Some(p) && target.vm_id is None
                        && target.cell_path == Some(p),
                }
            },
            RouteDecision::Local { request } => {
                &&& request == req
                &&& (req.execution_target matches Some(t) ==> !t.spec_names_remote())
                &&& (req.execution_target is None ==> req.cell_name is None)
            },
        },
{
    let CellServiceStopRequest { cell_name, executable_name, execution_target } = req;
    match execution_target {
        Some(t) => {
            if t.names_remote() {
                RouteDecision::Forward {
                    target: t,
                    request: CellServiceStopRequest {
                        cell_name: None,
                        executable_name,
                        execution_target: None,
                    },
                }
            } else {
                RouteDecision::Local {
                    request: CellServiceStopRequest {
                        cell_name,
                        executable_name,
                        execution_target: Some(t),
                    },
                }
            }
        },
        None => match cell_name {
            Some(p) => RouteDecision::Forward {
                target: ExecutionTarget { vm_id: None, cell_path: Some(p) },
                request: CellServiceStopRequest {
                    cell_name: None,
                    executable_name,
                    execution_target: None,
                },
            },
            None => RouteDecision::Local {
                request: CellServiceStopRequest {
                    cell_name: None,
                    executable_name,
                    execution_target: None,
                },
            },
        },
    }
}

/// Decides where an allocate request goes: it forwards only when its
/// parent target names a remote agent.
pub fn route_allocate(req: CellServiceAllocateRequest) -> (r: RouteDecision<
    CellServiceAllocateRequest,
>)
    ensures
        match r {
            RouteDecision::Forward { target, request } => {
                &&& request.cell == req.cell
                &&& request.parent_target is None
                &&& req.parent_target matches Some(t) && t.spec_names_remote() && target == t
            },
            RouteDecision::Local { request } => {
                &&& request == req
                &&& (req.parent_target matches Some(t) ==> !t.spec_names_remote())
            },
        },
{
    let CellServiceAllocateRequest { cell, parent_target } = req;
    match parent_target {
        Some(t) => {
            if t.names_remote() {
                RouteDecision::Forward {
                    target: t,
                    request: CellServiceAllocateRequest { cell, parent_target: None },
                }
            } else {
                RouteDecision::Local {
                    request: CellServiceAllocateRequest { cell, parent_target: Some(t) },
                }
            }
        },
        None => RouteDecision::Local {
            request: CellServiceAllocateRequest { cell, parent_target: None },
        },
    }
}

/// Decides where a free request goes: it forwards only when its parent
/// target names a remote agent.
pub fn route_free(req: CellServiceFreeRequest) -> (r: RouteDecision<CellServiceFreeRequest>)
    ensures
        match r {
            RouteDecision::Forward { target, request } => {
                &&& request.cell_name == req.cell_name
                &&& request.parent_target is None
                &&& req.parent_target matches Some(t) && t.spec_names_remote() && target == t
            },
            RouteDecision::Local { request } => {
                &&& request == req
                &&& (req.parent_target matches Some(t) ==> !t.spec_names_remote())
            },
        },
{
    let CellServiceFreeRequest { cell_name, parent_target } = req;
    match parent_target {
        Some(t) => {
            if t.names_remote() {
                RouteDecision::Forward {
                    target: t,
                    request: CellServiceFreeRequest { cell_name, parent_target: None },
                }
            } else {
                RouteDecision::Local {
                    request: CellServiceFreeRequest { cell_name, parent_target: Some(t) },
                }
            }
        },
        None => RouteDecision::Local {
            request: CellServiceFreeRequest { cell_name, parent_target: None },
        },
    }
}

/// Decides where a list request goes: it forwards whenever it carries a
/// target at all.
pub fn route_list(req: CellServiceListRequest) -> (r: RouteDecision<CellServiceListRequest>)
    ensures
        match r {
            RouteDecision::Forward { target, request } => {
                &&& request.execution_target is None
                &&& req.execution_target == Some(target)
            },
            RouteDecision::Local { request } => {
                &&& request.execution_target is None
                &&& req.execution_target is None
            },
        },
{
    let CellServiceListRequest { execution_target } = req;
    match execution_target {
        Some(t) => RouteDecision::Forward {
            target: t,
            request: CellServiceListRequest { execution_target: None },
        },
        None => RouteDecision::Local { request: CellServiceListRequest { execution_target: None } },
    }
}

/// The rewrite applied to a start request as it is forwarded: the outer
/// target is stripped and the remaining cell path — if any — becomes the
/// request's `cell_name`, so the remote agent can recurse into its own
/// cell.
pub fn rewrite_start_request(req: CellServiceStartRequest, cell_path: Option<String>) -> (r:
    CellServiceStartRequest)
    ensures
        r == spec_rewrite_start(req, cell_path),
        r.cell_name == cell_path,
        r.executable == req.executable,
        r.uid == req.uid,
        r.gid == req.gid,
        r.execution_target is None,
{
    CellServiceStartRequest {
        cell_name: cell_path,
        executable: req.executable,
        uid: req.uid,
        gid: req.gid,
        execution_target: None,
    }
}

/// The rewrite applied to a stop request as it is forwarded.
pub fn rewrite_stop_request(req: CellServiceStopRequest, cell_path: Option<String>) -> (r:
    CellServiceStopRequest)
    ensures
        r.cell_name == cell_path,
        r.executable_name == req.executable_name,
        r.execution_target is None,
{
    CellServiceStopRequest {
        cell_name: cell_path,
        executable_name: req.executable_name,
        execution_target: None,
    }
}

/// The rewrite applied to an allocate request as it is forwarded: only
/// the parent target is cleared.
pub fn rewrite_allocate_request(req: CellServiceAllocateRequest) -> (r: CellServiceAllocateRequest)
    ensures
        r.cell == req.cell,
        r.parent_target is None,
{
    CellServiceAllocateRequest { cell: req.cell, parent_target: None }
}

/// The rewrite applied to a free request as it is forwarded: only the
/// parent target is cleared.
pub fn rewrite_free_request(req: CellServiceFreeRequest) -> (r: CellServiceFreeRequest)
    ensures
        r.cell_name == req.cell_name,
        r.parent_target is None,
{
    CellServiceFreeRequest { cell_name: req.cell_name, parent_target: None }
}

/// The rewrite applied to a list request as it is forwarded.
pub fn rewrite_list_request(req: CellServiceListRequest) -> (r: CellServiceListRequest)
    ensures
        r.execution_target is None,
{
    let CellServiceListRequest { execution_target: _ } = req;
    CellServiceListRequest { execution_target: None }
}

/// A start request whose fields have been validated.
pub struct ValidatedCellServiceStartRequest {
    pub cell_name: Option<CellName>,
    pub executable: ExecutableSpec,
    pub uid: Option<u32>,
    pub gid: Option<u32>,
}

/// A stop request whose fields have been validated.
pub struct ValidatedCellServiceStopRequest {
    pub cell_name: Option<CellName>,
    pub executable_name: String,
}

/// An allocate request whose fields have been validated.
pub struct ValidatedCellServiceAllocateRequest {
    pub cell_name: CellName,
    pub cell_spec: CellSpec,
}

/// A free request whose fields have been validated.
pub struct ValidatedCellServiceFreeRequest {
    pub cell_name: CellName,
}

/// What a well-formed start request must hold: an executable with a valid
/// name and a non-empty command, and a valid cell path wherever one is
/// given.
pub open spec fn start_request_valid(req: CellServiceStartRequest) -> bool {
    &&& req.executable matches Some(e) && valid_executable_name(e.name@) && e.command@.len() > 0
    &&& (req.cell_name matches Some(p) ==> crate::names::valid_cell_path(p@))
}

/// Validates a start request.
pub fn validate_start_request(req: CellServiceStartRequest) -> (r: Result<
    ValidatedCellServiceStartRequest,
    ValidationError,
>)
    ensures
        r is Ok <==> start_request_valid(req),
        r matches Ok(v) ==> {
            &&& req.executable == Some(v.executable)
            &&& v.uid == req.uid && v.gid == req.gid
            &&& match v.cell_name {
                Some(n) => req.cell_name matches Some(p) && n@ == p@,
                None => req.cell_name is None,
            }
        },
{
    let CellServiceStartRequest { cell_name, executable, uid, gid, execution_target: _ } = req;
    let executable = match executable {
        Some(e) => e,
        None => {
            return Err(ValidationError::Required { field: String::from_str("executable") });
        },
    };
    if !check_executable_name(executable.name.as_str()) {
        return Err(ValidationError::Invalid { field: String::from_str("executable.name") });
    }
    if executable.command.as_str().unicode_len() == 0 {
        return Err(ValidationError::Invalid { field: String::from_str("executable.command") });
    }
    let cell_name = match cell_name {
        Some(p) => match CellName::validate(Some(p), "cell_name") {
            Ok(n) => Some(n),
            Err(e) => {
                return Err(e);
            },
        },
        None => None,
    };
    Ok(ValidatedCellServiceStartRequest { cell_name, executable, uid, gid })
}

/// What a well-formed stop request must hold: a valid executable name,
/// and a valid cell path wherever one is given.
pub open spec fn stop_request_valid(req: CellServiceStopRequest) -> bool {
    &&& valid_executable_name(req.executable_name@)
    &&& (req.cell_name matches Some(p) ==> crate::names::valid_cell_path(p@))
}

/// Validates a stop request.
pub fn validate_stop_request(req: CellServiceStopRequest) -> (r: Result<
    ValidatedCellServiceStopRequest,
    ValidationError,
>)
    ensures
        r is Ok <==> stop_request_valid(req),
        r matches Ok(v) ==> {
            &&& v.executable_name == req.executable_name
            &&& match v.cell_name {
                Some(n) => req.cell_name matches Some(p) && n@ == p@,
                None => req.cell_name is None,
            }
        },
{
    let CellServiceStopRequest { cell_name, executable_name, execution_target: _ } = req;
    if !check_executable_name(executable_name.as_str()) {
        return Err(ValidationError::Invalid { field: String::from_str("executable_name") });
    }
    let cell_name = match cell_name {
        Some(p) => match CellName::validate(Some(p), "cell_name") {
            Ok(n) => Some(n),
            Err(e) => {
                return Err(e);
            },
        },
        None => None,
    };
    Ok(ValidatedCellServiceStopRequest { cell_name, executable_name })
}

/// What a well-formed allocate request must hold: a cell with a valid
/// path, and controller values within the kernel's accepted ranges.
pub open spec fn allocate_request_valid(req: CellServiceAllocateRequest) -> bool {
    req.cell matches Some(c) && {
        &&& crate::names::valid_cell_path(c.name@)
        &&& (c.cpu matches Some(cpu) ==> valid_cpu(cpu))
        &&& (c.memory matches Some(m) ==> valid_memory(m))
    }
}

/// Validates an allocate request.
pub fn validate_allocate_request(req: CellServiceAllocateRequest) -> (r: Result<
    ValidatedCellServiceAllocateRequest,
    ValidationError,
>)
    ensures
        r is Ok <==> allocate_request_valid(req),
        r matches Ok(v) ==> req.cell matches Some(c) && {
            &&& v.cell_name@ == c.name@
            &&& v.cell_spec.cpu == c.cpu
            &&& v.cell_spec.cpuset == c.cpuset
            &&& v.cell_spec.memory == c.memory
            &&& v.cell_spec.isolate_process == c.isolate_process
            &&& v.cell_spec.isolate_network == c.isolate_network
        },
{
    let CellServiceAllocateRequest { cell, parent_target: _ } = req;
    let cell = match cell {
        Some(c) => c,
        None => {
            return Err(ValidationError::Required { field: String::from_str("cell") });
        },
    };
    let Cell { name, cpu, cpuset, memory, isolate_process, isolate_network } = cell;
    let cell_name = match CellName::validate(Some(name), "cell.name") {
        Ok(n) => n,
        Err(e) => {
            return Err(e);
        },
    };
    match &cpu {
        Some(c) => {
            if !check_cpu(c) {
                return Err(ValidationError::Invalid { field: String::from_str("cell.cpu") });
            }
        },
        None => {},
    }
    match &memory {
        Some(m) => {
            if !check_memory(m) {
                return Err(ValidationError::Invalid { field: String::from_str("cell.memory") });
            }
        },
        None => {},
    }
    Ok(
        ValidatedCellServiceAllocateRequest {
            cell_name,
            cell_spec: CellSpec { cpu, cpuset, memory, isolate_process, isolate_network },
        },
    )
}

/// Validates a free request: its cell path is required and must be valid.
pub fn validate_free_request(req: CellServiceFreeRequest) -> (r: Result<
    ValidatedCellServiceFreeRequest,
    ValidationError,
>)
    ensures
        r is Ok <==> (req.cell_name matches Some(p) && crate::names::valid_cell_path(p@)),
        r matches Ok(v) ==> req.cell_name matches Some(p) && v.cell_name@ == p@,
{
    let CellServiceFreeRequest { cell_name, parent_target: _ } = req;
    match CellName::validate(cell_name, "cell_name") {
        Ok(n) => Ok(ValidatedCellServiceFreeRequest { cell_name: n }),
        Err(e) => Err(e),
    }
}

/// Starts an executable locally: registers the spawned child and reports
/// its pid together with the credentials it runs under — the requested
/// uid and gid, or the agent's own where unset.
pub fn start_local(
    executables: &mut Executables,
    request: ValidatedCellServiceStartRequest,
    spawn: SpawnOutcome,
    self_uid: u32,
    self_gid: u32,
) -> (r: Result<CellServiceStartResponse, CellsServiceError>)
    requires
        old(executables).wf(),
        request.cell_name is None,
    ensures
        final(executables).wf(),
        old(executables).contains_name(request.executable.name@) ==> {
            &&& r matches Err(
                CellsServiceError::ExecutablesError {
                    source: crate::error::ExecutablesError::ExecutableExists { .. },
                },
            )
            &&& final(executables).entries() == old(executables).entries()
        },
        !old(executables).contains_name(request.executable.name@) ==> match spawn {
            SpawnOutcome::Failed => {
                &&& r matches Err(
                    CellsServiceError::ExecutablesError {
                        source: crate::error::ExecutablesError::FailedToStartExecutable { .. },
                    },
                )
                &&& final(executables).entries() == old(executables).entries()
            },
            SpawnOutcome::Spawned { pid } => {
                &&& r matches Ok(resp) && resp.pid == pid && resp.uid == (match request.uid {
                    Some(u) => u,
                    None => self_uid,
                }) && resp.gid == (match request.gid {
                    Some(g) => g,
                    None => self_gid,
                })
                &&& final(executables).contains_name(request.executable.name@)
                &&& final(executables).count() == old(executables).count() + 1
            },
        },
{
    let ValidatedCellServiceStartRequest { cell_name: _, executable, uid, gid } = request;
    match executables.start(executable, spawn) {
        Ok(pid) => {
            let uid = match uid {
                Some(u) => u,
                None => self_uid,
            };
            let gid = match gid {
                Some(g) => g,
                None => self_gid,
            };
            Ok(CellServiceStartResponse { pid, uid, gid })
        },
        Err(e) => Err(CellsServiceError::ExecutablesError { source: e }),
    }
}

/// Stops an executable locally: removes it from the registry whatever the
/// kill outcome was, reporting success for a reaped or already-gone
/// process and the registry's error otherwise.
pub fn stop_local(
    executables: &mut Executables,
    request: ValidatedCellServiceStopRequest,
    kill: KillOutcome,
) -> (r: Result<CellServiceStopResponse, CellsServiceError>)
    requires
        old(executables).wf(),
        request.cell_name is None,
    ensures
        final(executables).wf(),
        !old(executables).contains_name(request.executable_name@) ==> {
            &&& r matches Err(
                CellsServiceError::ExecutablesError {
                    source: crate::error::ExecutablesError::ExecutableNotFound { .. },
                },
            )
            &&& final(executables).entries() == old(executables).entries()
        },
        old(executables).contains_name(request.executable_name@) ==> {
            &&& !final(executables).contains_name(request.executable_name@)
            &&& match kill {
                KillOutcome::Exited { .. } => r is Ok,
                KillOutcome::AlreadyReaped => r is Ok,
                KillOutcome::NeverStarted => r matches Err(
                    CellsServiceError::ExecutablesError {
                        source: crate::error::ExecutablesError::ExecutableNotFound { .. },
                    },
                ),
                KillOutcome::Error => r matches Err(
                    CellsServiceError::ExecutablesError {
                        source: crate::error::ExecutablesError::FailedToStopExecutable { .. },
                    },
                ),
            }
        },
{
    match executables.stop(&request.executable_name, kill) {
        Ok(_) => Ok(CellServiceStopResponse {}),
        Err(e) => Err(CellsServiceError::ExecutablesError { source: e }),
    }
}

/// Allocates a cell locally and reports its name and the hierarchy the
/// runtime mounted it on.
pub fn allocate_local(
    cells: &mut Cells,
    request: ValidatedCellServiceAllocateRequest,
    socket: String,
    cgroup_v2: bool,
) -> (r: Result<CellServiceAllocateResponse, CellsServiceError>)
    requires
        old(cells).wf(),
    ensures
        final(cells).wf(),
        old(cells).contains_path(request.cell_name@) ==> {
            &&& r matches Err(
                CellsServiceError::CellsError {
                    source: crate::error::CellsError::CellExists { .. },
                },
            )
            &&& final(cells).entries() == old(cells).entries()
        },
        !old(cells).contains_path(request.cell_name@) && path_has_parent(request.cell_name@) && !old(
            cells,
        ).contains_path(crate::names::parent_path(request.cell_name@)) ==> {
            &&& r matches Err(
                CellsServiceError::CellsError {
                    source: crate::error::CellsError::ParentCellNotFound { .. },
                },
            )
            &&& final(cells).entries() == old(cells).entries()
        },
        !old(cells).contains_path(request.cell_name@) && (path_has_parent(request.cell_name@)
            ==> old(cells).contains_path(crate::names::parent_path(request.cell_name@))) ==> {
            &&& r matches Ok(resp) && resp.cell_name@ == request.cell_name@ && resp.cgroup_v2
                == cgroup_v2
            &&& final(cells).contains_path(request.cell_name@)
            &&& final(cells).count() == old(cells).count() + 1
        },
{
    let ValidatedCellServiceAllocateRequest { cell_name, cell_spec } = request;
    let name_echo = cell_name.as_string().clone();
    match cells.allocate(cell_name, cell_spec, socket, cgroup_v2) {
        Ok(()) => Ok(CellServiceAllocateResponse { cell_name: name_echo, cgroup_v2 }),
        Err(e) => Err(CellsServiceError::CellsError { source: e }),
    }
}

/// Frees a cell locally; the returned paths, deepest first, are what the
/// runtime must tear down: exactly the freed subtree, with no path after
/// an ancestor of its own.
pub fn free_local(cells: &mut Cells, request: ValidatedCellServiceFreeRequest) -> (r: Result<
    Vec<String>,
    CellsServiceError,
>)
    requires
        old(cells).wf(),
    ensures
        final(cells).wf(),
        !old(cells).contains_path(request.cell_name@) ==> {
            &&& r matches Err(
                CellsServiceError::CellsError {
                    source: crate::error::CellsError::CellNotFound { .. },
                },
            )
            &&& final(cells).entries() == old(cells).entries()
        },
        old(cells).contains_path(request.cell_name@) ==> {
            &&& r matches Ok(drained) && {
                &&& !final(cells).contains_path(request.cell_name@)
                &&& forall|n: Seq<char>|
                    final(cells).contains_path(n) <==> (old(cells).contains_path(n)
                        && !crate::names::in_subtree(n, request.cell_name@))
                &&& forall|k: int|
                    0 <= k < drained.len() ==> old(cells).contains_path((#[trigger] drained[k])@)
                        && crate::names::in_subtree(drained[k]@, request.cell_name@)
                &&& forall|n: Seq<char>|
                    old(cells).contains_path(n) && crate::names::in_subtree(n, request.cell_name@)
                        ==> crate::cells::names_has(drained@, n)
                &&& forall|a: int, b: int|
                    0 <= a < b < drained.len() ==> (#[trigger] drained[a])@.len() >= (
                    #[trigger] drained[b])@.len()
                &&& forall|a: int, b: int|
                    0 <= a < b < drained.len() ==> !crate::names::is_descendant(
                        (#[trigger] drained[b])@,
                        (#[trigger] drained[a])@,
                    )
            }
        },
{
    match cells.free(&request.cell_name) {
        Ok(drained) => Ok(drained),
        Err(e) => Err(CellsServiceError::CellsError { source: e }),
    }
}

/// Lists the local cell tree.
pub fn list_local(cells: &Cells) -> (r: CellServiceListResponse)
    requires
        cells.wf(),
    ensures
        forall|k: int|
            0 <= k < r.cells.len() ==> node_matches(#[trigger] r.cells[k], *cells)
                && !path_has_parent(r.cells[k].cell.name@),
        forall|n: Seq<char>|
            cells.contains_path(n) && !path_has_parent(n) ==> exists|k: int|
                0 <= k < r.cells.len() && (#[trigger] r.cells[k]).cell.name@ == n,
        forall|a: int, b: int|
            0 <= a < b < r.cells.len() ==> (#[trigger] r.cells[a]).cell.name@ != (
            #[trigger] r.cells[b]).cell.name@,
{
    CellServiceListResponse { cells: cells.list() }
}

/// The dispatch decision for a start request, as a function of the
/// request alone; `route_start` returns exactly this.
pub open spec fn spec_route_start(req: CellServiceStartRequest) -> RouteDecision<
    CellServiceStartRequest,
> {
    match req.execution_target {
        Some(t) => if t.spec_names_remote() {
            RouteDecision::Forward {
                target: t,
                request: CellServiceStartRequest {
                    cell_name: None,
                    executable: req.executable,
                    uid: req.uid,
                    gid: req.gid,
                    execution_target: None,
                },
            }
        } else {
            RouteDecision::Local { request: req }
        },
        None => match req.cell_name {
            Some(p) => RouteDecision::Forward {
                target: ExecutionTarget { vm_id: None, cell_path: Some(p) },
                request: CellServiceStartRequest {
                    cell_name: None,
                    executable: req.executable,
                    uid: req.uid,
                    gid: req.gid,
                    execution_target: None,
                },
            },
            None => RouteDecision::Local { request: req },
        },
    }
}

/// The forwarding rewrite of a start request, as a function of the
/// request and the carried cell path; `rewrite_start_request` returns
/// exactly this.
pub open spec fn spec_rewrite_start(
    req: CellServiceStartRequest,
    cell_path: Option<String>,
) -> CellServiceStartRequest {
    CellServiceStartRequest {
        cell_name: cell_path,
        executable: req.executable,
        uid: req.uid,
        gid: req.gid,
        execution_target: None,
    }
}

/// One recursion step of forwarding is uniform: a start request that
/// targets cell path `p` inside VM `v` is forwarded to `v`'s agent with
/// its outer target stripped and `cell_name` set to `p`; the dispatch at
/// that agent peels the next layer, forwarding the same request to cell
/// `p` of its own registry with `cell_name` cleared again. So each hop
/// consumes exactly one level of the address and carries the rest
/// through unchanged.
pub proof fn lemma_forwarding_step(req: CellServiceStartRequest, v: String, p: String)
    requires
        req.execution_target == Some(
            ExecutionTarget { vm_id: Some(v), cell_path: Some(p) },
        ),
    ensures
        spec_route_start(req) matches RouteDecision::Forward { target, request } && {
            let delivered = spec_rewrite_start(request, target.cell_path);
            &&& target.cell_path == Some(p)
            &&& delivered.cell_name == Some(p)
            &&& delivered.execution_target is None
            &&& delivered.executable == req.executable
            &&& spec_route_start(delivered) matches RouteDecision::Forward {
                target: next_target,
                request: next_request,
            } && {
                &&& next_target.vm_id is None
                &&& next_target.cell_path == Some(p)
                &&& next_request.cell_name is None
                &&& next_request.executable == req.executable
            }
        },
{
}

} // verus!
