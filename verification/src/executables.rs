//! The in-memory registry of supervised child executables.
//!
//! The registry owns the bookkeeping: which names are taken, which pid backs
//! which name, and what leaves the registry when. Forking the child and
//! delivering its termination signals are operating-system work done by the
//! surrounding runtime, which reports each attempt's outcome here as a plain
//! value ([`SpawnOutcome`], [`KillOutcome`]).

use vstd::prelude::*;

use crate::error::ExecutablesError;

verus! {

/// What a child executable should run.
pub struct ExecutableSpec {
    /// Unique name within one agent's registry.
    pub name: String,
    /// The image and argv to execute, invoked directly and never through a
    /// shell wrapper, so the recorded pid is the supervised process itself.
    pub command: String,
    pub description: String,
}

/// A supervised child process registered under its name.
pub struct Executable {
    pub name: String,
    pub command: String,
    pub description: String,
    /// The pid recorded at spawn; entries enter the registry only after a
    /// successful spawn, so every entry carries one.
    pub pid: i32,
}

/// The runtime's report of one attempt to spawn a child process.
pub enum SpawnOutcome {
    /// The child was forked and `pid` is its process id.
    Spawned { pid: i32 },
    /// The fork or exec failed; nothing is running.
    Failed,
}

/// The runtime's report of one attempt to deliver the termination sequence
/// (graceful signal, bounded wait, forceful signal, reap) to a child.
pub enum KillOutcome {
    /// The entry had no live process to signal.
    NeverStarted,
    /// The process was already gone when signalled; no real exit status can
    /// be recovered, so a synthetic zero status stands in for it.
    AlreadyReaped,
    /// The process was reaped and returned this raw exit status.
    Exited { status: i32 },
    /// Signalling or reaping failed with an unexpected OS error.
    Error,
}

/// A ghost record of one registry operation, used to state laws about
/// sequences of calls.
pub enum RegistryOp {
    Start { name: Seq<char> },
    Stop { name: Seq<char> },
}

/// The set of registered names after one operation: a start registers an
/// absent name and leaves a taken one alone; a stop removes a present name
/// and leaves an absent one alone.
pub open spec fn apply_op(names: Set<Seq<char>>, op: RegistryOp) -> Set<Seq<char>> {
    match op {
        RegistryOp::Start { name } => if names.contains(name) {
            names
        } else {
            names.insert(name)
        },
        RegistryOp::Stop { name } => if names.contains(name) {
            names.remove(name)
        } else {
            names
        },
    }
}

/// The set of registered names after a sequence of operations.
pub open spec fn apply_ops(names: Set<Seq<char>>, ops: Seq<RegistryOp>) -> Set<Seq<char>>
    decreases ops.len(),
{
    if ops.len() == 0 {
        names
    } else {
        apply_op(apply_ops(names, ops.drop_last()), ops.last())
    }
}

/// An in-memory store for the executables created on this agent.
pub struct Executables {
    items: Vec<Executable>,
}

impl Executables {
    /// The registered entries, in insertion order.
    pub closed spec fn entries(self) -> Seq<Executable> {
        self.items@
    }

    /// How many executables are registered.
    pub open spec fn count(self) -> nat {
        self.entries().len()
    }

    pub open spec fn contains_name(self, n: Seq<char>) -> bool {
        exists|i: int| 0 <= i < self.entries().len() && (#[trigger] self.entries()[i]).name@ == n
    }

    /// The set of registered names.
    pub open spec fn names(self) -> Set<Seq<char>> {
        Set::new(|n: Seq<char>| self.contains_name(n))
    }

    /// Each name appears at most once.
    pub open spec fn wf(self) -> bool {
        forall|i: int, j: int|
            0 <= i < j < self.entries().len() ==> (#[trigger] self.entries()[i]).name@ != (
            #[trigger] self.entries()[j]).name@
    }

    /// The index at which a registered name sits.
    pub closed spec fn idx_of(self, n: Seq<char>) -> int {
        choose|i: int| 0 <= i < self.entries().len() && (#[trigger] self.entries()[i]).name@ == n
    }

    /// The entry registered under a name.
    pub open spec fn entry(self, n: Seq<char>) -> Executable {
        self.entries()[self.idx_of(n)]
    }

    pub fn new() -> (r: Executables)
        ensures
            r.wf(),
            r.count() == 0,
            r.entries() =~= Seq::<Executable>::empty(),
    {
        Executables { items: Vec::new() }
    }

    /// How many executables are registered.
    pub fn len(&self) -> (r: usize)
        ensures
            r == self.count(),
    {
        self.items.len()
    }

    /// Whether an executable of this name is registered.
    #[verifier::loop_isolation(false)]
    pub fn contains(&self, executable_name: &String) -> (r: bool)
        ensures
            r == self.contains_name(executable_name@),
    {
        let mut i: usize = 0;
        while i < self.items.len()
            invariant
                0 <= i <= self.items.len(),
                forall|j: int|
                    0 <= j < i ==> (#[trigger] self.entries()[j]).name@ != executable_name@,
            decreases self.items.len() - i,
        {
            if self.items[i].name == *executable_name {
                proof {
                    assert(self.entries()[i as int].name@ == executable_name@);
                }
                return true;
            }
            i += 1;
        }
        false
    }

    /// Registers a freshly spawned executable under its name.
    ///
    /// The registry rejects a duplicate name, and a caller tests `contains`
    /// before forking so no child is spawned for a name that is taken; a
    /// failed spawn leaves the registry untouched, so the name can be
    /// started again. On success the entry is appended and its pid returned.
    pub fn start(&mut self, executable_spec: ExecutableSpec, spawn: SpawnOutcome) -> (r: Result<
        i32,
        ExecutablesError,
    >)
        requires
            old(self).wf(),
        ensures
            final(self).wf(),
            old(self).contains_name(executable_spec.name@) ==> {
                &&& r matches Err(ExecutablesError::ExecutableExists { executable_name })
                    && executable_name@ == executable_spec.name@
                &&& final(self).entries() == old(self).entries()
            },
            !old(self).contains_name(executable_spec.name@) ==> match spawn {
                SpawnOutcome::Failed => {
                    &&& r matches Err(
                        ExecutablesError::FailedToStartExecutable { executable_name },
                    ) && executable_name@ == executable_spec.name@
                    &&& final(self).entries() == old(self).entries()
                },
                SpawnOutcome::Spawned { pid } => {
                    &&& r == Ok::<i32, ExecutablesError>(pid)
                    &&& final(self).entries() == old(self).entries().push(
                        Executable {
                            name: executable_spec.name,
                            command: executable_spec.command,
                            description: executable_spec.description,
                            pid,
                        },
                    )
                    &&& final(self).contains_name(executable_spec.name@)
                },
            },
            (spawn matches SpawnOutcome::Spawned { .. }) ==> final(self).names() =~= apply_op(
                old(self).names(),
                RegistryOp::Start { name: executable_spec.name@ },
            ),
    {
        if self.contains(&executable_spec.name) {
            return Err(
                ExecutablesError::ExecutableExists { executable_name: executable_spec.name },
            );
        }
        match spawn {
            SpawnOutcome::Failed => Err(
                ExecutablesError::FailedToStartExecutable { executable_name: executable_spec.name },
            ),
            SpawnOutcome::Spawned { pid } => {
                let ghost pre = *self;
                let ghost n0 = executable_spec.name@;
                let ExecutableSpec { name, command, description } = executable_spec;
                let exe = Executable { name, command, description, pid };
                self.items.push(exe);
                proof {
                    let len = self.entries().len();
                    assert(self.entries() == pre.entries().push(self.entries().last()));
                    assert(self.entries().last().name@ == n0);
                    assert forall|a: int| 0 <= a < len - 1 implies self.entries()[a]
                        == pre.entries()[a] by {}
                    assert forall|a: int, b: int| 0 <= a < b < len implies (
                    #[trigger] self.entries()[a]).name@ != (#[trigger] self.entries()[b]).name@ by {
                        if b == len - 1 {
                            if self.entries()[a].name@ == n0 {
                                assert(pre.entries()[a].name@ == n0);
                                assert(pre.contains_name(n0));
                            }
                        } else {
                            assert(pre.entries()[a].name@ != pre.entries()[b].name@);
                        }
                    }
                    assert(self.contains_name(n0));
                    assert forall|n: Seq<char>| self.contains_name(n) <==> apply_op(
                        pre.names(),
                        RegistryOp::Start { name: n0 },
                    ).contains(n) by {
                        if self.contains_name(n) {
                            let i = choose|i: int|
                                0 <= i < len && (#[trigger] self.entries()[i]).name@ == n;
                            if i < len - 1 {
                                assert(pre.entries()[i].name@ == n);
                                assert(pre.contains_name(n));
                            } else {
                                assert(n == n0);
                            }
                        }
                        if pre.contains_name(n) {
                            let i = choose|i: int|
                                0 <= i < pre.entries().len() && (#[trigger] pre.entries()[i]).name@
                                    == n;
                            assert(self.entries()[i].name@ == n);
                        }
                    }
                }
                Ok(pid)
            },
        }
    }

    /// Looks an executable up by name.
    #[verifier::loop_isolation(false)]
    pub fn get(&self, executable_name: &String) -> (r: Result<&Executable, ExecutablesError>)
        requires
            self.wf(),
        ensures
            match r {
                Ok(e) => self.contains_name(executable_name@) && *e == self.entry(
                    executable_name@,
                ) && e.name@ == executable_name@,
                Err(e) => !self.contains_name(executable_name@) && (e matches
                    ExecutablesError::ExecutableNotFound { executable_name: en } && en@
                    == executable_name@),
            },
    {
        let mut i: usize = 0;
        while i < self.items.len()
            invariant
                0 <= i <= self.items.len(),
                forall|j: int|
                    0 <= j < i ==> (#[trigger] self.entries()[j]).name@ != executable_name@,
            decreases self.items.len() - i,
        {
            if self.items[i].name == *executable_name {
                proof {
                    assert(self.entries()[i as int].name@ == executable_name@);
                    assert(self.contains_name(executable_name@));
                    let k = self.idx_of(executable_name@);
                    assert(0 <= k < self.entries().len() && self.entries()[k].name@
                        == executable_name@);
                    assert(k == i as int);
                }
                return Ok(&self.items[i]);
            }
            i += 1;
        }
        Err(ExecutablesError::ExecutableNotFound { executable_name: executable_name.clone() })
    }

    /// Removes an executable and classifies the reported kill outcome.
    ///
    /// The entry leaves the registry whatever the outcome was, so the
    /// registry never strands an entry whose process cannot be signalled: a
    /// reaped process yields its real status, a process that was already
    /// gone yields a synthetic zero status, an entry that never ran reports
    /// `ExecutableNotFound`, and an OS failure reports
    /// `FailedToStopExecutable`. A name that is not registered reports
    /// `ExecutableNotFound` and changes nothing.
    #[verifier::loop_isolation(false)]
    pub fn stop(&mut self, executable_name: &String, kill: KillOutcome) -> (r: Result<
        i32,
        ExecutablesError,
    >)
        requires
            old(self).wf(),
        ensures
            final(self).wf(),
            !old(self).contains_name(executable_name@) ==> {
                &&& final(self).entries() == old(self).entries()
                &&& final(self).count() == old(self).count()
                &&& r matches Err(ExecutablesError::ExecutableNotFound { executable_name: en })
                    && en@ == executable_name@
            },
            old(self).contains_name(executable_name@) ==> {
                &&& final(self).entries() == old(self).entries().remove(
                    old(self).idx_of(executable_name@),
                )
                &&& final(self).count() + 1 == old(self).count()
                &&& !final(self).contains_name(executable_name@)
                &&& match kill {
                    KillOutcome::Exited { status } => r == Ok::<i32, ExecutablesError>(status),
                    KillOutcome::AlreadyReaped => r == Ok::<i32, ExecutablesError>(0),
                    KillOutcome::NeverStarted => r matches Err(
                        ExecutablesError::ExecutableNotFound { executable_name: en },
                    ) && en@ == executable_name@,
                    KillOutcome::Error => r matches Err(
                        ExecutablesError::FailedToStopExecutable { executable_name: en },
                    ) && en@ == executable_name@,
                }
            },
            final(self).names() =~= apply_op(
                old(self).names(),
                RegistryOp::Stop { name: executable_name@ },
            ),
    {
        let ghost pre = *self;
        let mut i: usize = 0;
        while i < self.items.len()
            invariant
                *self == pre,
                0 <= i <= self.items.len(),
                forall|j: int|
                    0 <= j < i ==> (#[trigger] self.entries()[j]).name@ != executable_name@,
            decreases self.items.len() - i,
        {
            if self.items[i].name == *executable_name {
                proof {
                    assert(self.entries()[i as int].name@ == executable_name@);
                    assert(self.contains_name(executable_name@));
                    let k = self.idx_of(executable_name@);
                    assert(0 <= k < self.entries().len() && self.entries()[k].name@
                        == executable_name@);
                    assert(k == i as int);
                }
                let _removed = self.items.remove(i);
                proof {
                    let len = self.entries().len();
                    assert(self.entries() == pre.entries().remove(i as int));
                    assert forall|a: int| 0 <= a < len implies self.entries()[a] == (if a
                        < i as int {
                        pre.entries()[a]
                    } else {
                        pre.entries()[a + 1]
                    }) by {}
                    assert forall|a: int, b: int| 0 <= a < b < len implies (
                    #[trigger] self.entries()[a]).name@ != (#[trigger] self.entries()[b]).name@ by {
                        let pa: int = if a < i as int {
                            a
                        } else {
                            a + 1
                        };
                        let pb: int = if b < i as int {
                            b
                        } else {
                            b + 1
                        };
                        assert(pre.entries()[pa].name@ != pre.entries()[pb].name@);
                    }
                    assert forall|n: Seq<char>| self.contains_name(n) <==> apply_op(
                        pre.names(),
                        RegistryOp::Stop { name: executable_name@ },
                    ).contains(n) by {
                        if self.contains_name(n) {
                            let a = choose|a: int|
                                0 <= a < len && (#[trigger] self.entries()[a]).name@ == n;
                            let pa: int = if a < i as int {
                                a
                            } else {
                                a + 1
                            };
                            assert(pre.entries()[pa].name@ == n);
                            assert(pre.contains_name(n));
                            assert(pa != i as int);
                            assert(n != executable_name@);
                        }
                        if pre.contains_name(n) && n != executable_name@ {
                            let a = choose|a: int|
                                0 <= a < pre.entries().len() && (#[trigger] pre.entries()[a]).name@
                                    == n;
                            assert(a != i as int);
                            if a < i as int {
                                assert(self.entries()[a].name@ == n);
                            } else {
                                assert(self.entries()[a - 1].name@ == n);
                            }
                        }
                    }
                    assert(!self.contains_name(executable_name@));
                }
                return match kill {
                    KillOutcome::Exited { status } => Ok(status),
                    KillOutcome::AlreadyReaped => Ok(0),
                    KillOutcome::NeverStarted => Err(
                        ExecutablesError::ExecutableNotFound {
                            executable_name: executable_name.clone(),
                        },
                    ),
                    KillOutcome::Error => Err(
                        ExecutablesError::FailedToStopExecutable {
                            executable_name: executable_name.clone(),
                        },
                    ),
                };
            }
            i += 1;
        }
        Err(ExecutablesError::ExecutableNotFound { executable_name: executable_name.clone() })
    }

    /// Drains every entry at once, leaving the registry empty.
    ///
    /// The drained entries are handed back so the runtime can deliver the
    /// termination sequence to each of them; per-entry failures cannot put
    /// an entry back.
    pub fn broadcast_stop(&mut self) -> (drained: Vec<Executable>)
        requires
            old(self).wf(),
        ensures
            final(self).wf(),
            final(self).count() == 0,
            drained@ == old(self).entries(),
    {
        let mut drained: Vec<Executable> = Vec::new();
        core::mem::swap(&mut drained, &mut self.items);
        drained
    }
}

/// How many start operations a sequence holds.
pub open spec fn count_starts(ops: Seq<RegistryOp>) -> nat
    decreases ops.len(),
{
    if ops.len() == 0 {
        0
    } else {
        count_starts(ops.drop_last()) + (if ops.last() matches RegistryOp::Start { .. } {
            1nat
        } else {
            0nat
        })
    }
}

/// How many stop operations a sequence holds.
pub open spec fn count_stops(ops: Seq<RegistryOp>) -> nat
    decreases ops.len(),
{
    if ops.len() == 0 {
        0
    } else {
        count_stops(ops.drop_last()) + (if ops.last() matches RegistryOp::Stop { .. } {
            1nat
        } else {
            0nat
        })
    }
}

/// How many starts of one name a sequence holds.
pub open spec fn count_starts_of(ops: Seq<RegistryOp>, n: Seq<char>) -> nat
    decreases ops.len(),
{
    if ops.len() == 0 {
        0
    } else {
        count_starts_of(ops.drop_last(), n) + (if ops.last() == (RegistryOp::Start { name: n }) {
            1nat
        } else {
            0nat
        })
    }
}

/// How many stops of one name a sequence holds.
pub open spec fn count_stops_of(ops: Seq<RegistryOp>, n: Seq<char>) -> nat
    decreases ops.len(),
{
    if ops.len() == 0 {
        0
    } else {
        count_stops_of(ops.drop_last(), n) + (if ops.last() == (RegistryOp::Stop { name: n }) {
            1nat
        } else {
            0nat
        })
    }
}

/// A sequence of operations in which every start hits a free name and
/// every stop hits a registered one — the sequences in which every call
/// succeeds.
pub open spec fn ops_admissible(names: Set<Seq<char>>, ops: Seq<RegistryOp>) -> bool
    decreases ops.len(),
{
    if ops.len() == 0 {
        true
    } else {
        &&& ops_admissible(names, ops.drop_last())
        &&& match ops.last() {
            RegistryOp::Start { name } => !apply_ops(names, ops.drop_last()).contains(name),
            RegistryOp::Stop { name } => apply_ops(names, ops.drop_last()).contains(name),
        }
    }
}

/// For every admissible sequence of starts and stops, the registry size
/// at the end equals its initial size plus the starts minus the stops —
/// and, being a set cardinality, it is never negative.
pub proof fn lemma_registry_size(names: Set<Seq<char>>, ops: Seq<RegistryOp>)
    requires
        names.finite(),
        ops_admissible(names, ops),
    ensures
        apply_ops(names, ops).finite(),
        apply_ops(names, ops).len() + count_stops(ops) == names.len() + count_starts(ops),
    decreases ops.len(),
{
    if ops.len() > 0 {
        lemma_registry_size(names, ops.drop_last());
        let prior = apply_ops(names, ops.drop_last());
        match ops.last() {
            RegistryOp::Start { name } => {
                assert(apply_ops(names, ops) == prior.insert(name));
                assert(prior.insert(name).len() == prior.len() + 1);
            },
            RegistryOp::Stop { name } => {
                assert(apply_ops(names, ops) == prior.remove(name));
                assert(prior.remove(name).len() == prior.len() - 1);
            },
        }
    }
}

/// For each name that was not registered at the outset, an admissible
/// sequence registers it exactly when its starts exceed its stops by one;
/// the two counts never drift further apart.
pub proof fn lemma_registry_membership(names: Set<Seq<char>>, ops: Seq<RegistryOp>, n: Seq<char>)
    requires
        ops_admissible(names, ops),
        !names.contains(n),
    ensures
        apply_ops(names, ops).contains(n) <==> count_starts_of(ops, n) == count_stops_of(ops, n)
            + 1,
        count_starts_of(ops, n) == count_stops_of(ops, n) || count_starts_of(ops, n)
            == count_stops_of(ops, n) + 1,
    decreases ops.len(),
{
    if ops.len() > 0 {
        lemma_registry_membership(names, ops.drop_last(), n);
        let prior = apply_ops(names, ops.drop_last());
        match ops.last() {
            RegistryOp::Start { name } => {
                assert(apply_ops(names, ops) == prior.insert(name));
            },
            RegistryOp::Stop { name } => {
                assert(apply_ops(names, ops) == prior.remove(name));
            },
        }
    }
}

/// A stop removes its name from the registry, so an immediately repeated
/// stop of the same name cannot find it and reports `ExecutableNotFound`.
pub proof fn lemma_double_stop(names: Set<Seq<char>>, n: Seq<char>)
    ensures
        !apply_op(names, RegistryOp::Stop { name: n }).contains(n),
{
}

} // verus!
