//! The in-memory registry of microVMs, keyed by the caller-supplied id.

use vstd::prelude::*;

use crate::error::VmServiceError;
use crate::vm::{BuildOutcome, VirtualMachine, VirtualMachineSpec, VmState};

verus! {

/// The registry of VMs of one agent.
pub struct Vms {
    items: Vec<VirtualMachine>,
}

impl Vms {
    /// The registered VMs, in allocation order.
    pub closed spec fn entries(self) -> Seq<VirtualMachine> {
        self.items@
    }

    /// How many VMs are registered.
    pub open spec fn count(self) -> nat {
        self.entries().len()
    }

    pub open spec fn contains_id(self, n: Seq<char>) -> bool {
        exists|i: int| 0 <= i < self.entries().len() && (#[trigger] self.entries()[i]).id@ == n
    }

    /// The index at which an id sits.
    pub closed spec fn idx_of(self, n: Seq<char>) -> int {
        choose|i: int| 0 <= i < self.entries().len() && (#[trigger] self.entries()[i]).id@ == n
    }

    /// The VM registered under an id.
    pub open spec fn entry_of(self, n: Seq<char>) -> VirtualMachine {
        self.entries()[self.idx_of(n)]
    }

    /// Ids — the externally supplied machine ids — are unique, so there is
    /// exactly one handle per id, and every VM is well-formed.
    pub open spec fn wf(self) -> bool {
        &&& forall|i: int, j: int|
            0 <= i < j < self.entries().len() ==> (#[trigger] self.entries()[i]).id@ != (
            #[trigger] self.entries()[j]).id@
        &&& forall|i: int| 0 <= i < self.entries().len() ==> (#[trigger] self.entries()[i]).wf()
    }

    pub fn new() -> (r: Vms)
        ensures
            r.wf(),
            r.count() == 0,
    {
        Vms { items: Vec::new() }
    }

    /// How many VMs are registered.
    pub fn len(&self) -> (r: usize)
        ensures
            r == self.count(),
    {
        self.items.len()
    }

    /// Whether a VM of this id is registered.
    #[verifier::loop_isolation(false)]
    pub fn contains(&self, vm_id: &String) -> (r: bool)
        ensures
            r == self.contains_id(vm_id@),
    {
        let mut i: usize = 0;
        while i < self.items.len()
            invariant
                0 <= i <= self.items.len(),
                forall|j: int| 0 <= j < i ==> (#[trigger] self.entries()[j]).id@ != vm_id@,
            decreases self.items.len() - i,
        {
            if self.items[i].id == *vm_id {
                proof {
                    assert(self.entries()[i as int].id@ == vm_id@);
                }
                return true;
            }
            i += 1;
        }
        false
    }

    /// Registers a VM built from the spec under a fresh id.
    ///
    /// A taken id is refused; a refused build is fatal for the id and
    /// registers nothing; a successful build enters the registry paused in
    /// `NotStarted`, and the id is echoed back.
    pub fn allocate(
        &mut self,
        machine_id: String,
        spec: VirtualMachineSpec,
        build: BuildOutcome,
    ) -> (r: Result<String, VmServiceError>)
        requires
            old(self).wf(),
        ensures
            final(self).wf(),
            old(self).contains_id(machine_id@) ==> {
                &&& r matches Err(VmServiceError::VmExists { vm_id }) && vm_id@ == machine_id@
                &&& final(self).entries() == old(self).entries()
            },
            !old(self).contains_id(machine_id@) ==> match build {
                BuildOutcome::Built => {
                    &&& r matches Ok(id) && id@ == machine_id@
                    &&& final(self).entries().len() == old(self).entries().len() + 1
                    &&& final(self).entries().last().id@ == machine_id@
                    &&& final(self).entries().last().spec == spec
                    &&& final(self).entries().last().state == VmState::NotStarted
                    &&& final(self).entries().last().allocated()
                    &&& forall|i: int|
                        0 <= i < old(self).entries().len() ==> final(self).entries()[i] == old(
                            self,
                        ).entries()[i]
                    &&& final(self).contains_id(machine_id@)
                },
                BuildOutcome::BuildFailed { .. } => {
                    &&& r matches Err(VmServiceError::BadConfiguration { .. })
                    &&& final(self).entries() == old(self).entries()
                },
            },
    {
        if self.contains(&machine_id) {
            return Err(VmServiceError::VmExists { vm_id: machine_id });
        }
        let id_echo = machine_id.clone();
        let mut vm = VirtualMachine::new(machine_id, spec);
        match vm.allocate(build) {
            Ok(()) => {
                let ghost pre = *self;
                let ghost n0 = vm.id@;
                self.items.push(vm);
                proof {
                    let len = self.entries().len();
                    assert(self.entries() == pre.entries().push(self.entries().last()));
                    assert forall|a: int| 0 <= a < len - 1 implies self.entries()[a]
                        == pre.entries()[a] by {}
                    assert(self.entries().last().id@ == n0);
                    assert(self.contains_id(n0));
                    assert forall|a: int, b: int| 0 <= a < b < len implies (
                    #[trigger] self.entries()[a]).id@ != (#[trigger] self.entries()[b]).id@ by {
                        if b == len - 1 {
                            if self.entries()[a].id@ == n0 {
                                assert(pre.contains_id(n0));
                            }
                        } else {
                            assert(pre.entries()[a].id@ != pre.entries()[b].id@);
                        }
                    }
                }
                Ok(id_echo)
            },
            Err(e) => Err(e),
        }
    }

    /// Resumes the VM of this id; an unknown id reports `VmNotFound`.
    #[verifier::loop_isolation(false)]
    pub fn start(&mut self, vm_id: &String, resume_ok: bool) -> (r: Result<(), VmServiceError>)
        requires
            old(self).wf(),
        ensures
            final(self).wf(),
            !old(self).contains_id(vm_id@) ==> {
                &&& r matches Err(VmServiceError::VmNotFound { vm_id: n }) && n@ == vm_id@
                &&& final(self).entries() == old(self).entries()
            },
            old(self).contains_id(vm_id@) ==> {
                &&& final(self).entries().len() == old(self).entries().len()
                &&& final(self).contains_id(vm_id@)
                &&& final(self).idx_of(vm_id@) == old(self).idx_of(vm_id@)
                &&& forall|i: int|
                    0 <= i < old(self).entries().len() && i != old(self).idx_of(vm_id@)
                        ==> final(self).entries()[i] == old(self).entries()[i]
                &&& {
                    let pre_vm = old(self).entry_of(vm_id@);
                    let post_vm = final(self).entry_of(vm_id@);
                    &&& (pre_vm.state == VmState::Running ==> r is Ok && post_vm == pre_vm)
                    &&& (pre_vm.state == VmState::Stopped ==> (r matches Err(
                        VmServiceError::VmNotExited { .. },
                    )) && post_vm == pre_vm)
                    &&& (pre_vm.state == VmState::NotStarted && pre_vm.allocated() && resume_ok
                        ==> r is Ok && post_vm.state == VmState::Running && post_vm.id
                        == pre_vm.id && post_vm.spec == pre_vm.spec)
                    &&& (pre_vm.state == VmState::NotStarted && !(pre_vm.allocated() && resume_ok)
                        ==> (r matches Err(VmServiceError::VmNotFound { .. })) && post_vm == pre_vm)
                }
            },
    {
        let mut i: usize = 0;
        while i < self.items.len()
            invariant
                *self == *old(self),
                0 <= i <= self.items.len(),
                forall|j: int| 0 <= j < i ==> (#[trigger] self.entries()[j]).id@ != vm_id@,
            decreases self.items.len() - i,
        {
            if self.items[i].id == *vm_id {
                proof {
                    assert(self.entries()[i as int].id@ == vm_id@);
                    assert(self.contains_id(vm_id@));
                    let k = self.idx_of(vm_id@);
                    assert(0 <= k < self.entries().len() && self.entries()[k].id@ == vm_id@);
                    assert(k == i as int);
                }
                let ghost pre = *self;
                let mut vm = self.items.remove(i);
                let r = vm.start(resume_ok);
                self.items.insert(i, vm);
                proof {
                    assert forall|a: int|
                        0 <= a < self.entries().len() && a != i as int implies self.entries()[a]
                        == pre.entries()[a] by {
                        if a < i as int {
                            assert(self.entries()[a] == pre.entries().remove(i as int).insert(
                                i as int,
                                self.entries()[i as int],
                            )[a]);
                        }
                    }
                    assert forall|a: int, b: int|
                        0 <= a < b < self.entries().len() implies (
                    #[trigger] self.entries()[a]).id@ != (#[trigger] self.entries()[b]).id@ by {
                        assert(self.entries()[a].id@ == pre.entries()[a].id@);
                        assert(self.entries()[b].id@ == pre.entries()[b].id@);
                        assert(pre.entries()[a].id@ != pre.entries()[b].id@);
                    }
                    assert(self.entries()[i as int].id@ == vm_id@);
                    assert(self.contains_id(vm_id@));
                    let k2 = self.idx_of(vm_id@);
                    assert(0 <= k2 < self.entries().len() && self.entries()[k2].id@ == vm_id@);
                    if k2 < i as int {
                        assert(self.entries()[k2].id@ != self.entries()[i as int].id@);
                    } else if k2 > i as int {
                        assert(self.entries()[i as int].id@ != self.entries()[k2].id@);
                    }
                    assert(k2 == i as int);
                }
                return r;
            }
            i += 1;
        }
        Err(VmServiceError::VmNotFound { vm_id: vm_id.clone() })
    }

    /// Stops the VM of this id; an unknown id reports `VmNotFound`.
    #[verifier::loop_isolation(false)]
    pub fn stop(&mut self, vm_id: &String) -> (r: Result<(), VmServiceError>)
        requires
            old(self).wf(),
        ensures
            final(self).wf(),
            !old(self).contains_id(vm_id@) ==> {
                &&& r matches Err(VmServiceError::VmNotFound { vm_id: n }) && n@ == vm_id@
                &&& final(self).entries() == old(self).entries()
            },
            old(self).contains_id(vm_id@) ==> {
                &&& final(self).entries().len() == old(self).entries().len()
                &&& final(self).contains_id(vm_id@)
                &&& final(self).idx_of(vm_id@) == old(self).idx_of(vm_id@)
                &&& forall|i: int|
                    0 <= i < old(self).entries().len() && i != old(self).idx_of(vm_id@)
                        ==> final(self).entries()[i] == old(self).entries()[i]
                &&& {
                    let pre_vm = old(self).entry_of(vm_id@);
                    let post_vm = final(self).entry_of(vm_id@);
                    &&& (pre_vm.state == VmState::Running ==> r is Ok && post_vm.state
                        == VmState::Stopped && post_vm.id == pre_vm.id && post_vm.spec
                        == pre_vm.spec)
                    &&& (pre_vm.state != VmState::Running ==> (r matches Err(
                        VmServiceError::KillError { vm_id: n, error },
                    ) && n@ == pre_vm.id@ && error@ == "vm is not running"@) && post_vm == pre_vm)
                }
            },
    {
        let mut i: usize = 0;
        while i < self.items.len()
            invariant
                *self == *old(self),
                0 <= i <= self.items.len(),
                forall|j: int| 0 <= j < i ==> (#[trigger] self.entries()[j]).id@ != vm_id@,
            decreases self.items.len() - i,
        {
            if self.items[i].id == *vm_id {
                proof {
                    assert(self.entries()[i as int].id@ == vm_id@);
                    assert(self.contains_id(vm_id@));
                    let k = self.idx_of(vm_id@);
                    assert(0 <= k < self.entries().len() && self.entries()[k].id@ == vm_id@);
                    assert(k == i as int);
                }
                let ghost pre = *self;
                let mut vm = self.items.remove(i);
                let r = vm.stop();
                self.items.insert(i, vm);
                proof {
                    assert forall|a: int|
                        0 <= a < self.entries().len() && a != i as int implies self.entries()[a]
                        == pre.entries()[a] by {}
                    assert forall|a: int, b: int|
                        0 <= a < b < self.entries().len() implies (
                    #[trigger] self.entries()[a]).id@ != (#[trigger] self.entries()[b]).id@ by {
                        assert(self.entries()[a].id@ == pre.entries()[a].id@);
                        assert(self.entries()[b].id@ == pre.entries()[b].id@);
                        assert(pre.entries()[a].id@ != pre.entries()[b].id@);
                    }
                    assert(self.entries()[i as int].id@ == vm_id@);
                    assert(self.contains_id(vm_id@));
                    let k2 = self.idx_of(vm_id@);
                    assert(0 <= k2 < self.entries().len() && self.entries()[k2].id@ == vm_id@);
                    if k2 < i as int {
                        assert(self.entries()[k2].id@ != self.entries()[i as int].id@);
                    } else if k2 > i as int {
                        assert(self.entries()[i as int].id@ != self.entries()[k2].id@);
                    }
                    assert(k2 == i as int);
                }
                return r;
            }
            i += 1;
        }
        Err(VmServiceError::VmNotFound { vm_id: vm_id.clone() })
    }

    /// Removes the VM of this id, stopping it first when it runs, and
    /// releases its handle; an unknown id reports `VmNotFound`.
    #[verifier::loop_isolation(false)]
    pub fn free(&mut self, vm_id: &String) -> (r: Result<(), VmServiceError>)
        requires
            old(self).wf(),
        ensures
            final(self).wf(),
            !old(self).contains_id(vm_id@) ==> {
                &&& r matches Err(VmServiceError::VmNotFound { vm_id: n }) && n@ == vm_id@
                &&& final(self).entries() == old(self).entries()
            },
            old(self).contains_id(vm_id@) ==> {
                &&& r is Ok
                &&& final(self).entries() == old(self).entries().remove(old(self).idx_of(vm_id@))
                &&& !final(self).contains_id(vm_id@)
            },
    {
        let mut i: usize = 0;
        while i < self.items.len()
            invariant
                *self == *old(self),
                0 <= i <= self.items.len(),
                forall|j: int| 0 <= j < i ==> (#[trigger] self.entries()[j]).id@ != vm_id@,
            decreases self.items.len() - i,
        {
            if self.items[i].id == *vm_id {
                proof {
                    assert(self.entries()[i as int].id@ == vm_id@);
                    assert(self.contains_id(vm_id@));
                    let k = self.idx_of(vm_id@);
                    assert(0 <= k < self.entries().len() && self.entries()[k].id@ == vm_id@);
                    assert(k == i as int);
                }
                let ghost pre = *self;
                let mut vm = self.items.remove(i);
                let _ = vm.free();
                proof {
                    assert forall|a: int, b: int|
                        0 <= a < b < self.entries().len() implies (
                    #[trigger] self.entries()[a]).id@ != (#[trigger] self.entries()[b]).id@ by {
                        let pa: int = if a < i as int {
                            a
                        } else {
                            a + 1
                        };
                        let pb: int = if b < i as int {
                            b
                        } else {
                            b + 1
                        };
                        assert(self.entries()[a] == pre.entries()[pa]);
                        assert(self.entries()[b] == pre.entries()[pb]);
                        assert(pre.entries()[pa].id@ != pre.entries()[pb].id@);
                    }
                    assert forall|n: Seq<char>| self.contains_id(n) implies n != vm_id@ by {
                        let a = choose|a: int|
                            0 <= a < self.entries().len() && (#[trigger] self.entries()[a]).id@
                                == n;
                        let pa: int = if a < i as int {
                            a
                        } else {
                            a + 1
                        };
                        assert(self.entries()[a] == pre.entries()[pa]);
                        assert(pa != i as int);
                        assert(pre.entries()[pa].id@ != pre.entries()[i as int].id@);
                    }
                }
                return Ok(());
            }
            i += 1;
        }
        Err(VmServiceError::VmNotFound { vm_id: vm_id.clone() })
    }

    /// The guest agent address of this VM, observable only while the VM is
    /// running.
    #[verifier::loop_isolation(false)]
    pub fn get_socket(&self, vm_id: &String) -> (r: Option<String>)
        requires
            self.wf(),
        ensures
            match r {
                Some(addr) => self.contains_id(vm_id@) && self.entry_of(vm_id@).state
                    == VmState::Running && addr@ == self.entry_of(vm_id@).spec.auraed_address@,
                None => !self.contains_id(vm_id@) || self.entry_of(vm_id@).state
                    != VmState::Running,
            },
    {
        let mut i: usize = 0;
        while i < self.items.len()
            invariant
                0 <= i <= self.items.len(),
                forall|j: int| 0 <= j < i ==> (#[trigger] self.entries()[j]).id@ != vm_id@,
            decreases self.items.len() - i,
        {
            if self.items[i].id == *vm_id {
                proof {
                    assert(self.entries()[i as int].id@ == vm_id@);
                    assert(self.contains_id(vm_id@));
                    let k = self.idx_of(vm_id@);
                    assert(0 <= k < self.entries().len() && self.entries()[k].id@ == vm_id@);
                    assert(k == i as int);
                }
                if matches!(self.items[i].state, VmState::Running) {
                    return Some(self.items[i].spec.auraed_address.clone());
                } else {
                    return None;
                }
            }
            i += 1;
        }
        None
    }

    /// Stops every running VM, leaving the others as they are; per-VM
    /// outcomes never abort the sweep.
    #[verifier::loop_isolation(false)]
    pub fn stop_all(&mut self)
        requires
            old(self).wf(),
        ensures
            final(self).wf(),
            final(self).entries().len() == old(self).entries().len(),
            forall|i: int|
                0 <= i < old(self).entries().len() ==> {
                    let pre_vm = old(self).entries()[i];
                    let post_vm = #[trigger] final(self).entries()[i];
                    &&& post_vm.state != VmState::Running
                    &&& post_vm.id == pre_vm.id
                    &&& post_vm.spec == pre_vm.spec
                    &&& (pre_vm.state == VmState::Running ==> post_vm.state == VmState::Stopped)
                    &&& (pre_vm.state != VmState::Running ==> post_vm == pre_vm)
                },
    {
        let ghost pre = *self;
        let mut i: usize = 0;
        while i < self.items.len()
            invariant
                0 <= i <= self.items.len(),
                self.entries().len() == pre.entries().len(),
                forall|j: int| i <= j < self.entries().len() ==> #[trigger] self.entries()[j]
                    == pre.entries()[j],
                forall|j: int|
                    0 <= j < i ==> {
                        let pre_vm = pre.entries()[j];
                        let post_vm = #[trigger] self.entries()[j];
                        &&& post_vm.state != VmState::Running
                        &&& post_vm.id == pre_vm.id
                        &&& post_vm.spec == pre_vm.spec
                        &&& (pre_vm.state == VmState::Running ==> post_vm.state == VmState::Stopped)
                        &&& (pre_vm.state != VmState::Running ==> post_vm == pre_vm)
                    },
            decreases self.items.len() - i,
        {
            let running = matches!(self.items[i].state, VmState::Running);
            if running {
                let mut vm = self.items.remove(i);
                let _ = vm.stop();
                self.items.insert(i, vm);
            }
            i += 1;
        }
        proof {
            assert forall|a: int, b: int| 0 <= a < b < self.entries().len() implies (
            #[trigger] self.entries()[a]).id@ != (#[trigger] self.entries()[b]).id@ by {
                assert(self.entries()[a].id@ == pre.entries()[a].id@);
                assert(self.entries()[b].id@ == pre.entries()[b].id@);
                assert(pre.entries()[a].id@ != pre.entries()[b].id@);
            }
        }
    }

    /// Removes every VM, stopping the running ones, and releases every
    /// handle, even where a stop had failed: handles must never leak.
    #[verifier::loop_isolation(false)]
    pub fn free_all(&mut self) -> (drained: Vec<VirtualMachine>)
        requires
            old(self).wf(),
        ensures
            final(self).wf(),
            final(self).count() == 0,
            drained@.len() == old(self).entries().len(),
            forall|k: int|
                0 <= k < drained@.len() ==> {
                    let pre_vm = old(self).entries()[k];
                    let post_vm = #[trigger] drained@[k];
                    &&& !post_vm.allocated()
                    &&& post_vm.id == pre_vm.id
                    &&& post_vm.spec == pre_vm.spec
                    &&& post_vm.state == if pre_vm.state == VmState::Running {
                        VmState::Stopped
                    } else {
                        pre_vm.state
                    }
                },
    {
        let ghost pre = *self;
        let mut drained: Vec<VirtualMachine> = Vec::new();
        while self.items.len() > 0
            invariant
                drained@.len() + self.entries().len() == pre.entries().len(),
                forall|j: int|
                    0 <= j < self.entries().len() ==> #[trigger] self.entries()[j]
                        == pre.entries()[j + drained@.len()],
                forall|k: int|
                    0 <= k < drained@.len() ==> {
                        let pre_vm = pre.entries()[k];
                        let post_vm = #[trigger] drained@[k];
                        &&& !post_vm.allocated()
                        &&& post_vm.id == pre_vm.id
                        &&& post_vm.spec == pre_vm.spec
                        &&& post_vm.state == if pre_vm.state == VmState::Running {
                            VmState::Stopped
                        } else {
                            pre_vm.state
                        }
                    },
            decreases self.items.len(),
        {
            let mut vm = self.items.remove(0);
            let _ = vm.free();
            drained.push(vm);
        }
        drained
    }
}

} // verus!
