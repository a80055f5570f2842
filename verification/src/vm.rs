//! The lifecycle state machine of one microVM.
//!
//! A VM is built from a declarative spec into a paused machine, resumed
//! into `Running`, stopped into `Stopped`, and freed. Building, resuming
//! and stopping the machine are hypervisor work done by the surrounding
//! runtime; this state machine decides what is allowed when and records
//! the outcomes. A stopped VM is never resumed again: a fresh allocation
//! starts over with a new handle.

use vstd::prelude::*;

use crate::decimal::{dec_rep, join_spaces, join_with_spaces, u64_to_string};
use crate::error::VmServiceError;

verus! {

/// The lifecycle states, in the only order they can be visited.
#[derive(Debug, PartialEq, Eq, Structural, Clone, Copy)]
pub enum VmState {
    NotStarted,
    Running,
    Stopped,
}

/// The declarative configuration a microVM is built from.
#[derive(Debug)]
pub struct VirtualMachineSpec {
    pub kernel_image_path: String,
    pub kernel_args: Vec<String>,
    pub rootfs_path: String,
    pub mac_address: String,
    pub host_dev_name: String,
    pub vcpus: u32,
    pub memory_mb: u32,
    /// Address of the agent listening inside the guest, reachable only
    /// while the VM runs.
    pub auraed_address: String,
}

/// The runtime's report of one attempt to build a paused microVM from the
/// rendered configuration.
pub enum BuildOutcome {
    /// The machine was built and paused; a handle is held.
    Built,
    /// The hypervisor refused the configuration.
    BuildFailed { error: String },
}

/// The machine configuration rendered for the hypervisor: boot source,
/// root drive, machine size, one network interface, the vsock endpoint and
/// the MMDS endpoint at its fixed link-local address.
pub open spec fn vm_config_json(s: VirtualMachineSpec) -> Seq<char> {
    "{\"boot-source\":{\"kernel_image_path\":\""@ + s.kernel_image_path@
        + "\",\"boot_args\":\""@ + join_spaces(s.kernel_args.deep_view())
        + "\"},\"drives\":[{\"drive_id\":\"rootfs\",\"path_on_host\":\""@ + s.rootfs_path@
        + "\",\"is_root_device\":true,\"is_read_only\":false}],\"machine-config\":{\"vcpu_count\":"@
        + dec_rep(s.vcpus as nat) + ",\"mem_size_mib\":"@ + dec_rep(s.memory_mb as nat)
        + ",\"smt\":false},\"network-interfaces\":[{\"iface_id\":\"eth0\",\"guest_mac\":\""@
        + s.mac_address@ + "\",\"host_dev_name\":\""@ + s.host_dev_name@
        + "\"}],\"vsock\":{\"guest_cid\":3,\"uds_path\":\"/run/aurae/aurae.vsock\",\"vsock_id\":\"vsock0\"},\"mmds-config\":{\"version\":\"V2\",\"ipv4_address\":\"169.254.42.2\",\"network_interfaces\":[\"eth0\"]}}"@
}

/// One microVM under this agent's management.
pub struct VirtualMachine {
    /// The externally supplied machine id; every error about this VM
    /// names it.
    pub id: String,
    pub spec: VirtualMachineSpec,
    pub state: VmState,
    /// Whether a hypervisor handle is currently held.
    pub handle: bool,
}

impl VirtualMachine {
    /// Whether a hypervisor handle is held.
    pub open spec fn allocated(self) -> bool {
        self.handle
    }

    /// A VM can be running only while it holds a handle.
    pub open spec fn wf(self) -> bool {
        self.state == VmState::Running ==> self.allocated()
    }

    /// A fresh, unallocated VM under the caller-supplied id.
    pub fn new(id: String, spec: VirtualMachineSpec) -> (r: VirtualMachine)
        ensures
            r.wf(),
            r.id == id,
            r.spec == spec,
            r.state == VmState::NotStarted,
            !r.allocated(),
    {
        VirtualMachine { id, spec, state: VmState::NotStarted, handle: false }
    }

    /// The configuration to hand to the hypervisor.
    pub fn render_config(&self) -> (r: String)
        ensures
            r@ == vm_config_json(self.spec),
    {
        let mut s = String::from_str("{\"boot-source\":{\"kernel_image_path\":\"");
        s.append(self.spec.kernel_image_path.as_str());
        s.append("\",\"boot_args\":\"");
        let args = join_with_spaces(&self.spec.kernel_args);
        s.append(args.as_str());
        s.append("\"},\"drives\":[{\"drive_id\":\"rootfs\",\"path_on_host\":\"");
        s.append(self.spec.rootfs_path.as_str());
        s.append(
            "\",\"is_root_device\":true,\"is_read_only\":false}],\"machine-config\":{\"vcpu_count\":",
        );
        let vcpus = u64_to_string(self.spec.vcpus as u64);
        s.append(vcpus.as_str());
        s.append(",\"mem_size_mib\":");
        let mem = u64_to_string(self.spec.memory_mb as u64);
        s.append(mem.as_str());
        s.append(",\"smt\":false},\"network-interfaces\":[{\"iface_id\":\"eth0\",\"guest_mac\":\"");
        s.append(self.spec.mac_address.as_str());
        s.append("\",\"host_dev_name\":\"");
        s.append(self.spec.host_dev_name.as_str());
        s.append(
            "\"}],\"vsock\":{\"guest_cid\":3,\"uds_path\":\"/run/aurae/aurae.vsock\",\"vsock_id\":\"vsock0\"},\"mmds-config\":{\"version\":\"V2\",\"ipv4_address\":\"169.254.42.2\",\"network_interfaces\":[\"eth0\"]}}",
        );
        proof {
            assert(s@ =~= vm_config_json(self.spec));
        }
        s
    }

    /// Records the outcome of building this VM.
    ///
    /// A VM that already holds a handle cannot be built again
    /// (`VmExists`); a refused configuration is fatal for this id
    /// (`BadConfiguration`); a successful build leaves the VM paused in
    /// `NotStarted` with its handle held.
    pub fn allocate(&mut self, build: BuildOutcome) -> (r: Result<(), VmServiceError>)
        requires
            old(self).wf(),
        ensures
            final(self).wf(),
            old(self).allocated() ==> {
                &&& r matches Err(VmServiceError::VmExists { vm_id }) && vm_id@ == old(self).id@
                &&& *final(self) == *old(self)
            },
            !old(self).allocated() ==> match build {
                BuildOutcome::Built => {
                    &&& r is Ok
                    &&& final(self).allocated()
                    &&& final(self).state == VmState::NotStarted
                    &&& final(self).id == old(self).id
                    &&& final(self).spec == old(self).spec
                },
                BuildOutcome::BuildFailed { error } => {
                    &&& r matches Err(VmServiceError::BadConfiguration { vm_id, error: e })
                        && vm_id@ == old(self).id@ && e == error
                    &&& *final(self) == *old(self)
                },
            },
    {
        if self.handle {
            return Err(VmServiceError::VmExists { vm_id: self.id.clone() });
        }
        match build {
            BuildOutcome::Built => {
                self.handle = true;
                self.state = VmState::NotStarted;
                Ok(())
            },
            BuildOutcome::BuildFailed { error } => Err(
                VmServiceError::BadConfiguration { vm_id: self.id.clone(), error },
            ),
        }
    }

    /// Records the outcome of resuming this VM.
    ///
    /// A running VM stays running; a stopped VM is never resumed again
    /// (`VmNotExited`); a VM without a handle, or one whose resume failed,
    /// reports `VmNotFound`. Only a successful resume moves the state to
    /// `Running`.
    pub fn start(&mut self, resume_ok: bool) -> (r: Result<(), VmServiceError>)
        requires
            old(self).wf(),
        ensures
            final(self).wf(),
            old(self).state == VmState::Running ==> r is Ok && *final(self) == *old(self),
            old(self).state == VmState::Stopped ==> {
                &&& r matches Err(VmServiceError::VmNotExited { vm_id }) && vm_id@ == old(self).id@
                &&& *final(self) == *old(self)
            },
            old(self).state == VmState::NotStarted && !old(self).allocated() ==> {
                &&& r matches Err(VmServiceError::VmNotFound { vm_id }) && vm_id@ == old(self).id@
                &&& *final(self) == *old(self)
            },
            old(self).state == VmState::NotStarted && old(self).allocated() && resume_ok ==> {
                &&& r is Ok
                &&& final(self).state == VmState::Running
                &&& final(self).id == old(self).id
                &&& final(self).spec == old(self).spec
                &&& final(self).allocated()
            },
            old(self).state == VmState::NotStarted && old(self).allocated() && !resume_ok ==> {
                &&& r matches Err(VmServiceError::VmNotFound { vm_id }) && vm_id@ == old(self).id@
                &&& *final(self) == *old(self)
            },
    {
        match self.state {
            VmState::Running => Ok(()),
            VmState::Stopped => Err(VmServiceError::VmNotExited { vm_id: self.id.clone() }),
            VmState::NotStarted => {
                if !self.handle {
                    return Err(VmServiceError::VmNotFound { vm_id: self.id.clone() });
                }
                if resume_ok {
                    self.state = VmState::Running;
                    Ok(())
                } else {
                    Err(VmServiceError::VmNotFound { vm_id: self.id.clone() })
                }
            },
        }
    }

    /// Stops a running VM.
    ///
    /// Only `Running -> Stopped` is allowed; stopping in any other state
    /// reports `KillError` with "vm is not running" and changes nothing.
    pub fn stop(&mut self) -> (r: Result<(), VmServiceError>)
        requires
            old(self).wf(),
        ensures
            final(self).wf(),
            old(self).state != VmState::Running ==> {
                &&& r matches Err(VmServiceError::KillError { vm_id, error }) && vm_id@ == old(
                    self,
                ).id@ && error@ == "vm is not running"@
                &&& *final(self) == *old(self)
            },
            old(self).state == VmState::Running ==> {
                &&& r is Ok
                &&& final(self).state == VmState::Stopped
                &&& final(self).id == old(self).id
                &&& final(self).spec == old(self).spec
                &&& final(self).allocated() == old(self).allocated()
            },
    {
        if !matches!(self.state, VmState::Running) {
            return Err(
                VmServiceError::KillError {
                    vm_id: self.id.clone(),
                    error: String::from_str("vm is not running"),
                },
            );
        }
        self.state = VmState::Stopped;
        Ok(())
    }

    /// Releases the hypervisor handle.
    ///
    /// A running VM is stopped first; the handle is released only after
    /// the state has been observed off `Running`, and never leaks: after
    /// the call no handle is held, whatever state the VM was in.
    pub fn free(&mut self) -> (r: Result<(), VmServiceError>)
        requires
            old(self).wf(),
        ensures
            final(self).wf(),
            r is Ok,
            !final(self).allocated(),
            final(self).state == if old(self).state == VmState::Running {
                VmState::Stopped
            } else {
                old(self).state
            },
            final(self).id == old(self).id,
            final(self).spec == old(self).spec,
    {
        if matches!(self.state, VmState::Running) {
            let _ = self.stop();
        }
        self.handle = false;
        Ok(())
    }
}

/// One permitted change of the lifecycle state: staying put, starting
/// (`NotStarted` to `Running`), or stopping (`Running` to `Stopped`) —
/// the only changes the operations' contracts allow.
pub open spec fn vm_step(pre: VmState, post: VmState) -> bool {
    ||| pre == post
    ||| (pre == VmState::NotStarted && post == VmState::Running)
    ||| (pre == VmState::Running && post == VmState::Stopped)
}

/// A state's position along the lifecycle.
pub open spec fn state_rank(s: VmState) -> nat {
    match s {
        VmState::NotStarted => 0,
        VmState::Running => 1,
        VmState::Stopped => 2,
    }
}

/// The state trajectory of a VM over its lifetime is a prefix of
/// `NotStarted, Running, Stopped`: starting from `NotStarted`, steps only
/// ever move forward along that order — there is no resurrection after
/// `Stopped`.
pub proof fn lemma_vm_trajectory(t: Seq<VmState>)
    requires
        t.len() > 0,
        t[0] == VmState::NotStarted,
        forall|i: int| 0 <= i < t.len() - 1 ==> vm_step(#[trigger] t[i], t[i + 1]),
    ensures
        forall|i: int, j: int|
            0 <= i <= j < t.len() ==> state_rank(#[trigger] t[i]) <= state_rank(#[trigger] t[j]),
    decreases t.len(),
{
    if t.len() > 1 {
        let u = t.drop_last();
        assert(u[0] == VmState::NotStarted);
        assert forall|i: int| 0 <= i < u.len() - 1 implies vm_step(#[trigger] u[i], u[i + 1]) by {
            assert(u[i] == t[i] && u[i + 1] == t[i + 1]);
            assert(vm_step(t[i], t[i + 1]));
        }
        lemma_vm_trajectory(u);
        assert forall|i: int, j: int|
            0 <= i <= j < t.len() implies state_rank(#[trigger] t[i]) <= state_rank(
            #[trigger] t[j],
        ) by {
            if j < t.len() - 1 {
                assert(u[i] == t[i] && u[j] == t[j]);
                assert(state_rank(u[i]) <= state_rank(u[j]));
            } else if i < j {
                assert(u[i] == t[i] && u[j - 1] == t[j - 1]);
                assert(state_rank(u[i]) <= state_rank(u[j - 1]));
                assert(vm_step(t[j - 1], t[j]));
            }
        }
    }
}

} // verus!
