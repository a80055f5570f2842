//! The VM service facade: the wire messages of the VM RPCs and the
//! handlers that drive the VM registry from them.

use vstd::prelude::*;

use crate::error::{ValidationError, VmServiceError};
use crate::vm::{BuildOutcome, VirtualMachineSpec, VmState};
use crate::vms::Vms;

verus! {

/// The root filesystem drive of a machine.
#[derive(Debug)]
pub struct RootDrive {
    pub host_path: String,
    pub is_read_only: bool,
}

/// An additional drive mounted into a machine.
#[derive(Debug)]
pub struct DriveMount {
    pub image_path: String,
    pub vm_path: String,
    pub fs_type: String,
    pub read_only: bool,
}

/// One guest network interface and the host tap device backing it.
#[derive(Debug)]
pub struct NetworkInterface {
    pub mac_address: String,
    pub host_dev_name: String,
}

/// The declarative machine a caller asks for.
#[derive(Debug)]
pub struct Machine {
    pub id: String,
    pub mem_size_mb: u32,
    pub vcpu_count: u32,
    pub kernel_img_path: String,
    pub kernel_args: Vec<String>,
    pub root_drive: Option<RootDrive>,
    pub drive_mounts: Vec<DriveMount>,
    pub network_interfaces: Vec<NetworkInterface>,
    pub auraed_address: String,
}

#[derive(Debug)]
pub struct VmServiceAllocateRequest {
    pub machine: Option<Machine>,
}

#[derive(Debug)]
pub struct VmServiceAllocateResponse {
    pub vm_id: String,
}

#[derive(Debug)]
pub struct VmServiceFreeRequest {
    pub vm_id: String,
}

pub struct VmServiceFreeResponse {}

#[derive(Debug)]
pub struct VmServiceStartRequest {
    pub vm_id: String,
}

pub struct VmServiceStartResponse {}

#[derive(Debug)]
pub struct VmServiceStopRequest {
    pub vm_id: String,
}

pub struct VmServiceStopResponse {}

/// What an allocate request must hold to be valid: a machine with a root
/// drive and at least one network interface.
pub open spec fn spec_machine_well_formed(req: VmServiceAllocateRequest) -> bool {
    req.machine matches Some(m) && m.root_drive is Some && m.network_interfaces@.len() > 0
}

/// Checks that an allocate request holds a servable machine.
pub fn machine_well_formed(req: &VmServiceAllocateRequest) -> (r: bool)
    ensures
        r == spec_machine_well_formed(*req),
{
    match &req.machine {
        Some(m) => m.root_drive.is_some() && m.network_interfaces.len() > 0,
        None => false,
    }
}

/// The build spec a machine maps to: the kernel and root drive paths, the
/// first network interface, the machine size, and the guest agent
/// address.
pub open spec fn spec_machine_to_spec(m: Machine) -> VirtualMachineSpec
    recommends
        m.root_drive is Some,
        m.network_interfaces@.len() > 0,
{
    VirtualMachineSpec {
        kernel_image_path: m.kernel_img_path,
        kernel_args: m.kernel_args,
        rootfs_path: m.root_drive->Some_0.host_path,
        mac_address: m.network_interfaces@[0].mac_address,
        host_dev_name: m.network_interfaces@[0].host_dev_name,
        vcpus: m.vcpu_count,
        memory_mb: m.mem_size_mb,
        auraed_address: m.auraed_address,
    }
}

/// An allocate request whose machine has been validated: the id it is
/// registered under and the build spec it maps to.
#[derive(Debug)]
pub struct ValidatedVmServiceAllocateRequest {
    pub machine_id: String,
    pub machine_spec: VirtualMachineSpec,
}

/// Validates an allocate request: a request without a machine, without a
/// root drive, or without a network interface is rejected with the
/// missing field, surfaced as an invalid-argument status — a malformed
/// request never crashes the agent.
pub fn validate_vm_allocate_request(req: VmServiceAllocateRequest) -> (r: Result<
    ValidatedVmServiceAllocateRequest,
    ValidationError,
>)
    ensures
        r is Ok <==> spec_machine_well_formed(req),
        r matches Ok(v) ==> {
            let m = req.machine->Some_0;
            &&& v.machine_id@ == m.id@
            &&& v.machine_spec == spec_machine_to_spec(m)
        },
        r matches Err(ValidationError::Required { field }) ==> {
            ||| req.machine is None && field@ == "machine"@
            ||| (req.machine matches Some(m) && m.root_drive is None && field@
                == "machine.root_drive"@)
            ||| (req.machine matches Some(m) && m.network_interfaces@.len() == 0 && field@
                == "machine.network_interfaces"@)
        },
{
    let machine = match req.machine {
        Some(m) => m,
        None => {
            return Err(ValidationError::Required { field: String::from_str("machine") });
        },
    };
    let Machine {
        id,
        mem_size_mb,
        vcpu_count,
        kernel_img_path,
        kernel_args,
        root_drive,
        drive_mounts: _,
        network_interfaces,
        auraed_address,
    } = machine;
    let root_drive = match root_drive {
        Some(d) => d,
        None => {
            return Err(
                ValidationError::Required { field: String::from_str("machine.root_drive") },
            );
        },
    };
    if network_interfaces.len() == 0 {
        return Err(
            ValidationError::Required { field: String::from_str("machine.network_interfaces") },
        );
    }
    let first_if = &network_interfaces[0];
    let machine_spec = VirtualMachineSpec {
        kernel_image_path: kernel_img_path,
        kernel_args,
        rootfs_path: root_drive.host_path,
        mac_address: first_if.mac_address.clone(),
        host_dev_name: first_if.host_dev_name.clone(),
        vcpus: vcpu_count,
        memory_mb: mem_size_mb,
        auraed_address,
    };
    Ok(ValidatedVmServiceAllocateRequest { machine_id: id, machine_spec })
}

/// Serves a validated allocate request: registers a VM under the
/// machine's id — refusing a taken id — and echoes the id back.
pub fn vm_service_allocate(
    vms: &mut Vms,
    request: ValidatedVmServiceAllocateRequest,
    build: BuildOutcome,
) -> (r: Result<VmServiceAllocateResponse, VmServiceError>)
    requires
        old(vms).wf(),
    ensures
        final(vms).wf(),
        old(vms).contains_id(request.machine_id@) ==> (r matches Err(
            VmServiceError::VmExists { vm_id },
        ) && vm_id@ == request.machine_id@) && final(vms).entries() == old(vms).entries(),
        !old(vms).contains_id(request.machine_id@) ==> match build {
            BuildOutcome::Built => {
                &&& r matches Ok(resp) && resp.vm_id@ == request.machine_id@
                &&& final(vms).contains_id(request.machine_id@)
                &&& final(vms).count() == old(vms).count() + 1
                &&& final(vms).entries().last().spec == request.machine_spec
                &&& final(vms).entries().last().state == VmState::NotStarted
            },
            BuildOutcome::BuildFailed { .. } => {
                &&& r matches Err(VmServiceError::BadConfiguration { .. })
                &&& final(vms).entries() == old(vms).entries()
            },
        },
{
    let ValidatedVmServiceAllocateRequest { machine_id, machine_spec } = request;
    match vms.allocate(machine_id, machine_spec, build) {
        Ok(vm_id) => Ok(VmServiceAllocateResponse { vm_id }),
        Err(e) => Err(e),
    }
}

/// Serves a free request.
pub fn vm_service_free(vms: &mut Vms, req: VmServiceFreeRequest) -> (r: Result<
    VmServiceFreeResponse,
    VmServiceError,
>)
    requires
        old(vms).wf(),
    ensures
        final(vms).wf(),
        !old(vms).contains_id(req.vm_id@) ==> (r matches Err(VmServiceError::VmNotFound { .. }))
            && final(vms).entries() == old(vms).entries(),
        old(vms).contains_id(req.vm_id@) ==> r is Ok && !final(vms).contains_id(req.vm_id@),
{
    match vms.free(&req.vm_id) {
        Ok(()) => Ok(VmServiceFreeResponse {}),
        Err(e) => Err(e),
    }
}

/// Serves a start request; the runtime reports whether the resume call
/// succeeded.
pub fn vm_service_start(vms: &mut Vms, req: VmServiceStartRequest, resume_ok: bool) -> (r: Result<
    VmServiceStartResponse,
    VmServiceError,
>)
    requires
        old(vms).wf(),
    ensures
        final(vms).wf(),
        !old(vms).contains_id(req.vm_id@) ==> (r matches Err(VmServiceError::VmNotFound { .. }))
            && final(vms).entries() == old(vms).entries(),
        old(vms).contains_id(req.vm_id@) ==> {
            &&& final(vms).entries().len() == old(vms).entries().len()
            &&& final(vms).contains_id(req.vm_id@)
            &&& final(vms).idx_of(req.vm_id@) == old(vms).idx_of(req.vm_id@)
            &&& forall|i: int|
                0 <= i < old(vms).entries().len() && i != old(vms).idx_of(req.vm_id@)
                    ==> final(vms).entries()[i] == old(vms).entries()[i]
            &&& {
                let pre_vm = old(vms).entry_of(req.vm_id@);
                let post_vm = final(vms).entry_of(req.vm_id@);
                &&& (pre_vm.state == VmState::Running ==> r is Ok && post_vm == pre_vm)
                &&& (pre_vm.state == VmState::Stopped ==> (r matches Err(
                    VmServiceError::VmNotExited { .. },
                )) && post_vm == pre_vm)
                &&& (pre_vm.state == VmState::NotStarted && pre_vm.allocated() && resume_ok ==> r
                    is Ok && post_vm.state == VmState::Running && post_vm.id == pre_vm.id
                    && post_vm.spec == pre_vm.spec)
                &&& (pre_vm.state == VmState::NotStarted && !(pre_vm.allocated() && resume_ok)
                    ==> (r matches Err(VmServiceError::VmNotFound { .. })) && post_vm == pre_vm)
            }
        },
{
    let r = vms.start(&req.vm_id, resume_ok);
    match r {
        Ok(()) => Ok(VmServiceStartResponse {}),
        Err(e) => Err(e),
    }
}

/// Serves a stop request.
pub fn vm_service_stop(vms: &mut Vms, req: VmServiceStopRequest) -> (r: Result<
    VmServiceStopResponse,
    VmServiceError,
>)
    requires
        old(vms).wf(),
    ensures
        final(vms).wf(),
        !old(vms).contains_id(req.vm_id@) ==> (r matches Err(VmServiceError::VmNotFound { .. }))
            && final(vms).entries() == old(vms).entries(),
        old(vms).contains_id(req.vm_id@) ==> {
            &&& final(vms).entries().len() == old(vms).entries().len()
            &&& final(vms).contains_id(req.vm_id@)
            &&& final(vms).idx_of(req.vm_id@) == old(vms).idx_of(req.vm_id@)
            &&& forall|i: int|
                0 <= i < old(vms).entries().len() && i != old(vms).idx_of(req.vm_id@)
                    ==> final(vms).entries()[i] == old(vms).entries()[i]
            &&& {
                let pre_vm = old(vms).entry_of(req.vm_id@);
                let post_vm = final(vms).entry_of(req.vm_id@);
                &&& (pre_vm.state == VmState::Running ==> r is Ok && post_vm.state
                    == VmState::Stopped && post_vm.id == pre_vm.id && post_vm.spec == pre_vm.spec)
                &&& (pre_vm.state != VmState::Running ==> (r matches Err(
                    VmServiceError::KillError { vm_id, error },
                ) && vm_id@ == pre_vm.id@ && error@ == "vm is not running"@) && post_vm == pre_vm
                    && final(vms).entries() == old(vms).entries())
            }
        },
{
    let ghost pre = *vms;
    let r = vms.stop(&req.vm_id);
    proof {
        if pre.contains_id(req.vm_id@) && pre.entry_of(req.vm_id@).state != VmState::Running {
            assert(vms.entries() =~= pre.entries());
        }
    }
    match r {
        Ok(()) => Ok(VmServiceStopResponse {}),
        Err(e) => Err(e),
    }
}

} // verus!
