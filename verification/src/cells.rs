//! The registry of cells: a tree of cgroup-backed workloads keyed by
//! slash-delimited path.
//!
//! The registry is the arena of the tree: child links are names, a cell's
//! path is a strict prefix of every child's path, and a nested cell can be
//! allocated only while its parent exists. Creating and destroying the
//! cgroup subtree on disk and spawning the nested agent are done by the
//! surrounding runtime; the registry records the outcome.

use vstd::prelude::*;

use crate::cgroups::{CpuController, CpusetController, MemoryController};
use crate::error::{CellsError, ValidationError};
use crate::names::{
    check_cell_path, check_descendant, find_last_slash, in_subtree, is_descendant, is_direct_child,
    lemma_descendant_transitive, lemma_parent_path_valid, lemma_valid_cell_path_ascii, parent_path,
    path_has_parent, valid_cell_path,
};

verus! {

/// Whether a drained list of paths holds `n`.
pub open spec fn names_has(d: Seq<String>, n: Seq<char>) -> bool {
    exists|k: int| 0 <= k < d.len() && (#[trigger] d[k])@ == n
}

/// A validated slash-delimited cell path.
pub struct CellName {
    name: String,
}

impl View for CellName {
    type V = Seq<char>;

    closed spec fn view(&self) -> Seq<char> {
        self.name@
    }
}

impl CellName {
    /// Every value of this type holds a valid cell path.
    #[verifier::type_invariant]
    pub closed spec fn inv(self) -> bool {
        valid_cell_path(self.name@)
    }

    /// Validates a request field into a cell name: an absent field is
    /// required, a malformed path is invalid.
    pub fn validate(value: Option<String>, field: &str) -> (r: Result<CellName, ValidationError>)
        ensures
            match r {
                Ok(n) => value matches Some(s) && n@ == s@ && valid_cell_path(n@),
                Err(ValidationError::Required { field: f }) => value is None && f@ == field@,
                Err(ValidationError::Invalid { field: f }) => value matches Some(s)
                    && !valid_cell_path(s@) && f@ == field@,
            },
    {
        match value {
            None => Err(ValidationError::Required { field: String::from_str(field) }),
            Some(s) => {
                if check_cell_path(s.as_str()) {
                    Ok(CellName { name: s })
                } else {
                    Err(ValidationError::Invalid { field: String::from_str(field) })
                }
            },
        }
    }

    /// The path as a string.
    pub fn as_string(&self) -> (r: &String)
        ensures
            r@ == self@,
    {
        &self.name
    }

    /// The path as an owned string.
    pub fn into_string(self) -> (r: String)
        ensures
            r@ == self@,
    {
        self.name
    }

    /// An equal copy.
    pub fn duplicate(&self) -> (r: CellName)
        ensures
            r@ == self@,
    {
        proof {
            use_type_invariant(self);
        }
        CellName { name: self.name.clone() }
    }

    /// The name of the parent cell, when this path names a nested cell.
    pub fn parent(&self) -> (r: Option<CellName>)
        ensures
            match r {
                Some(p) => path_has_parent(self@) && p@ == parent_path(self@),
                None => !path_has_parent(self@),
            },
    {
        proof {
            use_type_invariant(self);
            lemma_valid_cell_path_ascii(self@);
        }
        match find_last_slash(self.name.as_str()) {
            None => None,
            Some(k) => {
                proof {
                    lemma_parent_path_valid(self@);
                }
                let p = self.name.as_str().substring_ascii(0, k);
                Some(CellName { name: String::from_str(p) })
            },
        }
    }
}

/// What a cell isolates and limits: its cgroup controllers and namespace
/// isolation flags.
pub struct CellSpec {
    pub cpu: Option<CpuController>,
    pub cpuset: Option<CpusetController>,
    pub memory: Option<MemoryController>,
    /// Give the cell its own pid namespace.
    pub isolate_process: bool,
    /// Give the cell its own network namespace.
    pub isolate_network: bool,
}

impl CellSpec {
    /// An equal copy.
    pub fn duplicate(&self) -> (r: CellSpec)
        ensures
            r == *self,
    {
        let cpu = match &self.cpu {
            Some(c) => Some(c.duplicate()),
            None => None,
        };
        let cpuset = match &self.cpuset {
            Some(c) => Some(c.duplicate()),
            None => None,
        };
        let memory = match &self.memory {
            Some(m) => Some(m.duplicate()),
            None => None,
        };
        CellSpec {
            cpu,
            cpuset,
            memory,
            isolate_process: self.isolate_process,
            isolate_network: self.isolate_network,
        }
    }
}

/// One allocated cell.
pub struct CellEntry {
    pub name: CellName,
    pub spec: CellSpec,
    /// The Unix socket at which the cell's nested agent listens; recorded
    /// at allocation and gone when the cell is freed, so a registered cell
    /// always carries one.
    pub socket: String,
    /// Whether the created cgroup sits on the v2 hierarchy, as the runtime
    /// reported it.
    pub cgroup_v2: bool,
}


/// A cell as reported to callers: its name, controllers and isolation
/// flags.
#[derive(Debug, PartialEq, Eq)]
pub struct Cell {
    pub name: String,
    pub cpu: Option<CpuController>,
    pub cpuset: Option<CpusetController>,
    pub memory: Option<MemoryController>,
    pub isolate_process: bool,
    pub isolate_network: bool,
}

/// One node of the reported cell tree: a cell and its direct children.
pub struct CellGraphNode {
    pub cell: Cell,
    pub children: Vec<CellGraphNode>,
}

/// The reported cell carries exactly the registered entry's data.
pub open spec fn cell_matches_entry(c: Cell, e: CellEntry) -> bool {
    &&& c.name@ == e.name@
    &&& c.cpu == e.spec.cpu
    &&& c.cpuset == e.spec.cpuset
    &&& c.memory == e.spec.memory
    &&& c.isolate_process == e.spec.isolate_process
    &&& c.isolate_network == e.spec.isolate_network
}

/// A reported node is faithful to the registry: its cell is a registered
/// entry, its children are exactly the entry's direct children — each
/// listed once — and each child node is faithful in turn.
pub open spec fn node_matches(node: CellGraphNode, cells: Cells) -> bool
    decreases node,
{
    &&& cells.contains_path(node.cell.name@)
    &&& cell_matches_entry(node.cell, cells.entry_of(node.cell.name@))
    &&& forall|k: int|
        0 <= k < node.children.len() ==> is_direct_child(
            (#[trigger] node.children[k]).cell.name@,
            node.cell.name@,
        )
    &&& forall|k: int|
        0 <= k < node.children.len() ==> node_matches(#[trigger] node.children[k], cells)
    &&& forall|n: Seq<char>|
        cells.contains_path(n) && is_direct_child(n, node.cell.name@) ==> exists|k: int|
            0 <= k < node.children.len() && (#[trigger] node.children[k]).cell.name@ == n
    &&& forall|a: int, b: int|
        0 <= a < b < node.children.len() ==> (#[trigger] node.children[a]).cell.name@ != (
        #[trigger] node.children[b]).cell.name@
}

/// The longest path length among the entries.
pub open spec fn max_name_len(s: Seq<CellEntry>) -> nat
    decreases s.len(),
{
    if s.len() == 0 {
        0
    } else {
        let m = max_name_len(s.drop_last());
        if s.last().name@.len() > m {
            s.last().name@.len()
        } else {
            m
        }
    }
}

proof fn lemma_max_name_len(s: Seq<CellEntry>, i: int)
    requires
        0 <= i < s.len(),
    ensures
        s[i].name@.len() <= max_name_len(s),
    decreases s.len(),
{
    if i < s.len() - 1 {
        lemma_max_name_len(s.drop_last(), i);
        assert(s.drop_last()[i] == s[i]);
    }
}

/// The registry of cells of one agent.
pub struct Cells {
    items: Vec<CellEntry>,
}

impl Cells {
    /// The allocated cells, in allocation order.
    pub closed spec fn entries(self) -> Seq<CellEntry> {
        self.items@
    }

    /// How many cells are allocated.
    pub open spec fn count(self) -> nat {
        self.entries().len()
    }

    pub open spec fn contains_path(self, n: Seq<char>) -> bool {
        exists|i: int| 0 <= i < self.entries().len() && (#[trigger] self.entries()[i]).name@ == n
    }

    /// The index at which a path sits.
    pub closed spec fn idx_of(self, n: Seq<char>) -> int {
        choose|i: int| 0 <= i < self.entries().len() && (#[trigger] self.entries()[i]).name@ == n
    }

    /// The entry registered under a path.
    pub open spec fn entry_of(self, n: Seq<char>) -> CellEntry {
        self.entries()[self.idx_of(n)]
    }

    /// Paths are unique and valid, and every nested cell's parent is
    /// present: the registry is a forest keyed by path.
    pub open spec fn wf(self) -> bool {
        &&& forall|i: int, j: int|
            0 <= i < j < self.entries().len() ==> (#[trigger] self.entries()[i]).name@ != (
            #[trigger] self.entries()[j]).name@
        &&& forall|i: int|
            0 <= i < self.entries().len() ==> valid_cell_path(
                (#[trigger] self.entries()[i]).name@,
            )
        &&& forall|i: int|
            0 <= i < self.entries().len() ==> (path_has_parent(
                (#[trigger] self.entries()[i]).name@,
            ) ==> self.contains_path(parent_path(self.entries()[i].name@)))
    }

    pub fn new() -> (r: Cells)
        ensures
            r.wf(),
            r.count() == 0,
    {
        Cells { items: Vec::new() }
    }

    /// How many cells are allocated.
    pub fn len(&self) -> (r: usize)
        ensures
            r == self.count(),
    {
        self.items.len()
    }

    /// Whether a cell of this path is allocated.
    #[verifier::loop_isolation(false)]
    pub fn contains(&self, path: &String) -> (r: bool)
        ensures
            r == self.contains_path(path@),
    {
        let mut i: usize = 0;
        while i < self.items.len()
            invariant
                0 <= i <= self.items.len(),
                forall|j: int| 0 <= j < i ==> (#[trigger] self.entries()[j]).name@ != path@,
            decreases self.items.len() - i,
        {
            if *self.items[i].name.as_string() == *path {
                proof {
                    assert(self.entries()[i as int].name@ == path@);
                }
                return true;
            }
            i += 1;
        }
        false
    }

    /// Looks a cell up by name.
    #[verifier::loop_isolation(false)]
    pub fn get(&self, cell_name: &CellName) -> (r: Result<&CellEntry, CellsError>)
        requires
            self.wf(),
        ensures
            match r {
                Ok(e) => self.contains_path(cell_name@) && *e == self.entry_of(cell_name@)
                    && e.name@ == cell_name@,
                Err(e) => !self.contains_path(cell_name@) && (e matches CellsError::CellNotFound {
                    cell_name: n,
                } && n@ == cell_name@),
            },
    {
        let mut i: usize = 0;
        while i < self.items.len()
            invariant
                0 <= i <= self.items.len(),
                forall|j: int| 0 <= j < i ==> (#[trigger] self.entries()[j]).name@ != cell_name@,
            decreases self.items.len() - i,
        {
            if *self.items[i].name.as_string() == *cell_name.as_string() {
                proof {
                    assert(self.entries()[i as int].name@ == cell_name@);
                    assert(self.contains_path(cell_name@));
                    let k = self.idx_of(cell_name@);
                    assert(0 <= k < self.entries().len() && self.entries()[k].name@ == cell_name@);
                    assert(k == i as int);
                }
                return Ok(&self.items[i]);
            }
            i += 1;
        }
        Err(CellsError::CellNotFound { cell_name: cell_name.as_string().clone() })
    }

    /// Records a newly prepared cell.
    ///
    /// A taken path is rejected; a nested path whose parent is not
    /// allocated is rejected, since ancestors are never created
    /// implicitly. Otherwise the cell enters the registry with its spec,
    /// its nested agent socket and the hierarchy the runtime reported.
    pub fn allocate(
        &mut self,
        cell_name: CellName,
        cell_spec: CellSpec,
        socket: String,
        cgroup_v2: bool,
    ) -> (r: Result<(), CellsError>)
        requires
            old(self).wf(),
        ensures
            final(self).wf(),
            old(self).contains_path(cell_name@) ==> {
                &&& r matches Err(CellsError::CellExists { cell_name: n }) && n@ == cell_name@
                &&& final(self).entries() == old(self).entries()
            },
            !old(self).contains_path(cell_name@) && path_has_parent(cell_name@) && !old(
                self,
            ).contains_path(parent_path(cell_name@)) ==> {
                &&& r matches Err(CellsError::ParentCellNotFound { cell_name: n }) && n@
                    == parent_path(cell_name@)
                &&& final(self).entries() == old(self).entries()
            },
            !old(self).contains_path(cell_name@) && (path_has_parent(cell_name@) ==> old(
                self,
            ).contains_path(parent_path(cell_name@))) ==> {
                &&& r is Ok
                &&& final(self).entries() == old(self).entries().push(
                    CellEntry { name: cell_name, spec: cell_spec, socket, cgroup_v2 },
                )
                &&& final(self).contains_path(cell_name@)
            },
    {
        proof {
            use_type_invariant(&cell_name);
        }
        if self.contains(cell_name.as_string()) {
            return Err(CellsError::CellExists { cell_name: cell_name.into_string() });
        }
        match cell_name.parent() {
            Some(p) => {
                if !self.contains(p.as_string()) {
                    return Err(CellsError::ParentCellNotFound { cell_name: p.into_string() });
                }
            },
            None => {},
        }
        let ghost pre = *self;
        let ghost n0 = cell_name@;
        let entry = CellEntry { name: cell_name, spec: cell_spec, socket, cgroup_v2 };
        self.items.push(entry);
        proof {
            let len = self.entries().len();
            assert(self.entries() == pre.entries().push(self.entries().last()));
            assert(self.entries().last().name@ == n0);
            assert forall|a: int| 0 <= a < len - 1 implies self.entries()[a] == pre.entries()[a] by {}
            assert forall|n: Seq<char>| pre.contains_path(n) implies self.contains_path(n) by {
                if pre.contains_path(n) {
                    let i = choose|i: int|
                        0 <= i < pre.entries().len() && (#[trigger] pre.entries()[i]).name@ == n;
                    assert(self.entries()[i].name@ == n);
                }
            }
            assert(self.contains_path(n0));
            assert forall|a: int, b: int| 0 <= a < b < len implies (
            #[trigger] self.entries()[a]).name@ != (#[trigger] self.entries()[b]).name@ by {
                if b == len - 1 {
                    if self.entries()[a].name@ == n0 {
                        assert(pre.contains_path(n0));
                    }
                } else {
                    assert(pre.entries()[a].name@ != pre.entries()[b].name@);
                }
            }
            assert forall|i: int| 0 <= i < len implies valid_cell_path(
                (#[trigger] self.entries()[i]).name@,
            ) by {
                if i < len - 1 {
                    assert(valid_cell_path(pre.entries()[i].name@));
                }
            }
            assert forall|i: int|
                0 <= i < len && path_has_parent(
                    (#[trigger] self.entries()[i]).name@,
                ) implies self.contains_path(parent_path(self.entries()[i].name@)) by {
                if i < len - 1 {
                    assert(pre.contains_path(parent_path(pre.entries()[i].name@)));
                } else {
                    assert(pre.contains_path(parent_path(n0)));
                }
            }
        }
        Ok(())
    }

    /// Frees a cell and its whole subtree.
    ///
    /// The cell and every descendant leave the registry; the freed paths
    /// are handed back deepest-first (lengths non-increasing, so no path
    /// follows an ancestor of its own), the order in which the runtime
    /// must kill the remaining processes and remove the cgroup
    /// directories. An unknown path reports `CellNotFound` and changes
    /// nothing.
    #[verifier::loop_isolation(false)]
    pub fn free(&mut self, cell_name: &CellName) -> (r: Result<Vec<String>, CellsError>)
        requires
            old(self).wf(),
        ensures
            final(self).wf(),
            !old(self).contains_path(cell_name@) ==> {
                &&& r matches Err(CellsError::CellNotFound { cell_name: n }) && n@ == cell_name@
                &&& final(self).entries() == old(self).entries()
            },
            old(self).contains_path(cell_name@) ==> {
                &&& r matches Ok(drained) && {
                    &&& forall|n: Seq<char>|
                        final(self).contains_path(n) <==> (old(self).contains_path(n)
                            && !in_subtree(n, cell_name@))
                    &&& forall|k: int|
                        0 <= k < drained.len() ==> old(self).contains_path(
                            (#[trigger] drained[k])@,
                        ) && in_subtree(drained[k]@, cell_name@)
                    &&& forall|n: Seq<char>|
                        old(self).contains_path(n) && in_subtree(n, cell_name@) ==> names_has(
                            drained@,
                            n,
                        )
                    &&& forall|a: int, b: int|
                        0 <= a < b < drained.len() ==> (#[trigger] drained[a])@.len() >= (
                        #[trigger] drained[b])@.len()
                    &&& forall|a: int, b: int|
                        0 <= a < b < drained.len() ==> !is_descendant(
                            (#[trigger] drained[b])@,
                            (#[trigger] drained[a])@,
                        )
                }
            },
    {
        if !self.contains(cell_name.as_string()) {
            return Err(CellsError::CellNotFound { cell_name: cell_name.as_string().clone() });
        }
        let drained = self.drain_subtree(cell_name);
        Ok(drained)
    }

    /// Removes every entry in the subtree of `cell_name`, deepest first.
    #[verifier::loop_isolation(false)]
    fn drain_subtree(&mut self, cell_name: &CellName) -> (drained: Vec<String>)
        requires
            old(self).wf(),
        ensures
            final(self).wf(),
            forall|n: Seq<char>|
                final(self).contains_path(n) <==> (old(self).contains_path(n) && !in_subtree(
                    n,
                    cell_name@,
                )),
            forall|k: int|
                0 <= k < drained.len() ==> old(self).contains_path((#[trigger] drained[k])@)
                    && in_subtree(drained[k]@, cell_name@),
            forall|n: Seq<char>|
                old(self).contains_path(n) && in_subtree(n, cell_name@) ==> names_has(drained@, n),
            forall|a: int, b: int|
                0 <= a < b < drained.len() ==> (#[trigger] drained[a])@.len() >= (
                #[trigger] drained[b])@.len(),
            forall|a: int, b: int|
                0 <= a < b < drained.len() ==> !is_descendant(
                    (#[trigger] drained[b])@,
                    (#[trigger] drained[a])@,
                ),
    {
        let ghost pre = *self;
        let ghost target = cell_name@;
        let mut drained: Vec<String> = Vec::new();
        let mut done = false;
        while !done
            invariant
                self.wf(),
                done ==> forall|j: int|
                    0 <= j < self.entries().len() ==> !in_subtree(
                        (#[trigger] self.entries()[j]).name@,
                        target,
                    ),
                forall|n: Seq<char>|
                    pre.contains_path(n) <==> (self.contains_path(n) || names_has(drained@, n)),
                forall|k: int|
                    0 <= k < drained@.len() ==> pre.contains_path((#[trigger] drained@[k])@)
                        && in_subtree(drained@[k]@, target),
                forall|k: int, j: int|
                    0 <= k < drained@.len() && 0 <= j < self.entries().len() && in_subtree(
                        (#[trigger] self.entries()[j]).name@,
                        target,
                    ) ==> (#[trigger] drained@[k])@.len() >= self.entries()[j].name@.len(),
                forall|a: int, b: int|
                    0 <= a < b < drained@.len() ==> (#[trigger] drained@[a])@.len() >= (
                    #[trigger] drained@[b])@.len(),
            decreases self.items.len() + (if done {
                0int
            } else {
                1int
            }),
        {
            let mut found = false;
            let mut best: usize = 0;
            let mut best_len: usize = 0;
            let mut i: usize = 0;
            while i < self.items.len()
                invariant
                    0 <= i <= self.items.len(),
                    found ==> best < self.items.len() && in_subtree(
                        self.entries()[best as int].name@,
                        target,
                    ) && best_len == self.entries()[best as int].name@.len(),
                    forall|j: int|
                        0 <= j < i && in_subtree((#[trigger] self.entries()[j]).name@, target)
                            ==> found && self.entries()[j].name@.len() <= best_len,
                decreases self.items.len() - i,
            {
                let nm = self.items[i].name.as_string();
                let is_member = *nm == *cell_name.as_string() || check_descendant(
                    nm.as_str(),
                    cell_name.as_string().as_str(),
                );
                proof {
                    assert(nm@ == self.entries()[i as int].name@);
                }
                if is_member {
                    let l = nm.unicode_len();
                    if !found || l > best_len {
                        found = true;
                        best = i;
                        best_len = l;
                    }
                }
                i += 1;
            }
            if !found {
                done = true;
            } else {
            let ghost prev = *self;
            let ghost bi = best as int;
            let ghost dr0 = drained@;
            let e = self.items.remove(best);
            let nm = e.name.into_string();
            drained.push(nm);
            proof {
                let len = self.entries().len();
                assert(self.entries() == prev.entries().remove(bi));
                assert forall|a: int| 0 <= a < len implies self.entries()[a] == (if a < bi {
                    prev.entries()[a]
                } else {
                    prev.entries()[a + 1]
                }) by {}
                // uniqueness and validity survive the removal
                assert forall|a: int, b: int| 0 <= a < b < len implies (
                #[trigger] self.entries()[a]).name@ != (#[trigger] self.entries()[b]).name@ by {
                    let pa: int = if a < bi { a } else { a + 1 };
                    let pb: int = if b < bi { b } else { b + 1 };
                    assert(prev.entries()[pa].name@ != prev.entries()[pb].name@);
                }
                assert forall|a: int| 0 <= a < len implies valid_cell_path(
                    (#[trigger] self.entries()[a]).name@,
                ) by {
                    let pa: int = if a < bi { a } else { a + 1 };
                    assert(valid_cell_path(prev.entries()[pa].name@));
                }
                // membership after the removal
                assert forall|n: Seq<char>| self.contains_path(n) implies prev.contains_path(n)
                    && n != prev.entries()[bi].name@ by {
                    let a = choose|a: int|
                        0 <= a < len && (#[trigger] self.entries()[a]).name@ == n;
                    let pa: int = if a < bi { a } else { a + 1 };
                    assert(prev.entries()[pa].name@ == n);
                    assert(pa != bi);
                }
                assert forall|n: Seq<char>|
                    prev.contains_path(n) && n != prev.entries()[bi].name@ implies self.contains_path(
                    n) by {
                    let a = choose|a: int|
                        0 <= a < prev.entries().len() && (#[trigger] prev.entries()[a]).name@ == n;
                    assert(a != bi);
                    if a < bi {
                        assert(self.entries()[a].name@ == n);
                    } else {
                        assert(self.entries()[a - 1].name@ == n);
                    }
                }
                // the parent of every remaining cell remains: the removed
                // path was a deepest member, so it is nobody's parent
                assert forall|a: int|
                    0 <= a < len && path_has_parent(
                        (#[trigger] self.entries()[a]).name@,
                    ) implies self.contains_path(parent_path(self.entries()[a].name@)) by {
                    let e_n = self.entries()[a].name@;
                    let p_n = parent_path(e_n);
                    assert(prev.contains_path(e_n));
                    assert(prev.contains_path(p_n));
                    if p_n == prev.entries()[bi].name@ {
                        lemma_parent_path_valid(e_n);
                        assert(is_descendant(e_n, p_n));
                        lemma_descendant_transitive(e_n, p_n, target);
                        let ei = choose|j: int|
                            0 <= j < len && (#[trigger] self.entries()[j]).name@ == e_n;
                        assert(in_subtree(self.entries()[ei].name@, target));
                        assert(e_n.len() <= best_len);
                        assert(false);
                    }
                }
                // every name is accounted for exactly as before
                assert(drained@ == dr0.push(drained@.last()));
                assert(drained@.last()@ == prev.entries()[bi].name@);
                assert forall|n: Seq<char>| pre.contains_path(n) implies (self.contains_path(n)
                    || names_has(drained@, n)) by {
                    if n == prev.entries()[bi].name@ {
                        assert(drained@[drained@.len() - 1]@ == n);
                    } else {
                        if prev.contains_path(n) {
                            assert(self.contains_path(n));
                        } else {
                            assert(names_has(dr0, n));
                            let k = choose|k: int|
                                0 <= k < dr0.len() && (#[trigger] dr0[k])@ == n;
                            assert(drained@[k] == dr0[k]);
                            assert(drained@[k]@ == n);
                        }
                    }
                }
                assert forall|n: Seq<char>| (self.contains_path(n) || names_has(
                    drained@,
                    n,
                )) implies pre.contains_path(n) by {
                    if self.contains_path(n) {
                        assert(prev.contains_path(n));
                    } else {
                        let k = choose|k: int| 0 <= k < drained@.len() && (#[trigger] drained@[k])@ == n;
                        if k < drained@.len() - 1 {
                            assert(dr0[k] == drained@[k]);
                            assert(names_has(dr0, n));
                        } else {
                            assert(n == prev.entries()[bi].name@);
                            assert(prev.contains_path(n));
                        }
                    }
                }
            }
            }
        }
        proof {
            assert forall|n: Seq<char>|
                pre.contains_path(n) && in_subtree(n, target) implies names_has(drained@, n) by {
                if self.contains_path(n) {
                    let j = choose|j: int|
                        0 <= j < self.entries().len() && (#[trigger] self.entries()[j]).name@ == n;
                    assert(!in_subtree(self.entries()[j].name@, target));
                }
            }
            assert forall|a: int, b: int| 0 <= a < b < drained@.len() implies !is_descendant(
                (#[trigger] drained@[b])@,
                (#[trigger] drained@[a])@,
            ) by {
                if is_descendant(drained@[b]@, drained@[a]@) {
                    assert(drained@[b]@.len() > drained@[a]@.len());
                }
            }
        }
        drained
    }

    /// Drains every cell, deepest first, for the graceful half of a
    /// broadcast teardown; per-cell failures in the runtime cannot put an
    /// entry back.
    pub fn broadcast_free(&mut self) -> (drained: Vec<String>)
        requires
            old(self).wf(),
        ensures
            final(self).wf(),
            final(self).count() == 0,
            forall|k: int|
                0 <= k < drained.len() ==> old(self).contains_path((#[trigger] drained[k])@),
            forall|n: Seq<char>| old(self).contains_path(n) ==> names_has(drained@, n),
            forall|a: int, b: int|
                0 <= a < b < drained.len() ==> (#[trigger] drained[a])@.len() >= (
                #[trigger] drained[b])@.len(),
    {
        self.drain_all()
    }

    /// Drains every cell that is still present after the graceful pass,
    /// deepest first, so the runtime can kill and delete the subtrees
    /// without waiting.
    pub fn broadcast_kill(&mut self) -> (drained: Vec<String>)
        requires
            old(self).wf(),
        ensures
            final(self).wf(),
            final(self).count() == 0,
            forall|k: int|
                0 <= k < drained.len() ==> old(self).contains_path((#[trigger] drained[k])@),
            forall|n: Seq<char>| old(self).contains_path(n) ==> names_has(drained@, n),
            forall|a: int, b: int|
                0 <= a < b < drained.len() ==> (#[trigger] drained[a])@.len() >= (
                #[trigger] drained[b])@.len(),
    {
        self.drain_all()
    }

    /// Removes every entry, deepest first.
    #[verifier::loop_isolation(false)]
    fn drain_all(&mut self) -> (drained: Vec<String>)
        requires
            old(self).wf(),
        ensures
            final(self).wf(),
            final(self).count() == 0,
            forall|k: int|
                0 <= k < drained.len() ==> old(self).contains_path((#[trigger] drained[k])@),
            forall|n: Seq<char>| old(self).contains_path(n) ==> names_has(drained@, n),
            forall|a: int, b: int|
                0 <= a < b < drained.len() ==> (#[trigger] drained[a])@.len() >= (
                #[trigger] drained[b])@.len(),
    {
        let ghost pre = *self;
        let mut drained: Vec<String> = Vec::new();
        while self.items.len() > 0
            invariant
                self.wf(),
                forall|n: Seq<char>|
                    pre.contains_path(n) <==> (self.contains_path(n) || names_has(drained@, n)),
                forall|k: int|
                    0 <= k < drained@.len() ==> pre.contains_path((#[trigger] drained@[k])@),
                forall|k: int, j: int|
                    0 <= k < drained@.len() && 0 <= j < self.entries().len() ==> (
                    #[trigger] drained@[k])@.len() >= (#[trigger] self.entries()[j]).name@.len(),
                forall|a: int, b: int|
                    0 <= a < b < drained@.len() ==> (#[trigger] drained@[a])@.len() >= (
                    #[trigger] drained@[b])@.len(),
            decreases self.items.len(),
        {
            let mut best: usize = 0;
            let mut best_len: usize = self.items[0].name.as_string().unicode_len();
            proof {
                assert(best_len == self.entries()[0].name@.len());
            }
            let mut i: usize = 1;
            while i < self.items.len()
                invariant
                    self.items.len() > 0,
                    0 <= i <= self.items.len(),
                    best < self.items.len(),
                    best_len == self.entries()[best as int].name@.len(),
                    forall|j: int|
                        0 <= j < i ==> (#[trigger] self.entries()[j]).name@.len() <= best_len,
                decreases self.items.len() - i,
            {
                let nm = self.items[i].name.as_string();
                let l = nm.unicode_len();
                proof {
                    assert(l == self.entries()[i as int].name@.len());
                }
                if l > best_len {
                    best = i;
                    best_len = l;
                }
                i += 1;
            }
            let ghost prev = *self;
            let ghost bi = best as int;
            let ghost dr0 = drained@;
            let e = self.items.remove(best);
            let nm = e.name.into_string();
            drained.push(nm);
            proof {
                let len = self.entries().len();
                assert(self.entries() == prev.entries().remove(bi));
                assert forall|a: int| 0 <= a < len implies self.entries()[a] == (if a < bi {
                    prev.entries()[a]
                } else {
                    prev.entries()[a + 1]
                }) by {}
                assert forall|a: int, b: int| 0 <= a < b < len implies (
                #[trigger] self.entries()[a]).name@ != (#[trigger] self.entries()[b]).name@ by {
                    let pa: int = if a < bi { a } else { a + 1 };
                    let pb: int = if b < bi { b } else { b + 1 };
                    assert(prev.entries()[pa].name@ != prev.entries()[pb].name@);
                }
                assert forall|a: int| 0 <= a < len implies valid_cell_path(
                    (#[trigger] self.entries()[a]).name@,
                ) by {
                    let pa: int = if a < bi { a } else { a + 1 };
                    assert(valid_cell_path(prev.entries()[pa].name@));
                }
                assert forall|n: Seq<char>| self.contains_path(n) implies prev.contains_path(n)
                    && n != prev.entries()[bi].name@ by {
                    let a = choose|a: int|
                        0 <= a < len && (#[trigger] self.entries()[a]).name@ == n;
                    let pa: int = if a < bi { a } else { a + 1 };
                    assert(prev.entries()[pa].name@ == n);
                    assert(pa != bi);
                }
                assert forall|n: Seq<char>|
                    prev.contains_path(n) && n != prev.entries()[bi].name@ implies self.contains_path(
                    n) by {
                    let a = choose|a: int|
                        0 <= a < prev.entries().len() && (#[trigger] prev.entries()[a]).name@ == n;
                    assert(a != bi);
                    if a < bi {
                        assert(self.entries()[a].name@ == n);
                    } else {
                        assert(self.entries()[a - 1].name@ == n);
                    }
                }
                assert forall|a: int|
                    0 <= a < len && path_has_parent(
                        (#[trigger] self.entries()[a]).name@,
                    ) implies self.contains_path(parent_path(self.entries()[a].name@)) by {
                    let e_n = self.entries()[a].name@;
                    let p_n = parent_path(e_n);
                    assert(prev.contains_path(e_n));
                    assert(prev.contains_path(p_n));
                    if p_n == prev.entries()[bi].name@ {
                        lemma_parent_path_valid(e_n);
                        assert(is_descendant(e_n, p_n));
                        let ei = choose|j: int|
                            0 <= j < len && (#[trigger] self.entries()[j]).name@ == e_n;
                        assert(self.entries()[ei].name@.len() <= best_len);
                        assert(false);
                    }
                }
                assert(drained@ == dr0.push(drained@.last()));
                assert(drained@.last()@ == prev.entries()[bi].name@);
                assert forall|n: Seq<char>| pre.contains_path(n) implies (self.contains_path(n)
                    || names_has(drained@, n)) by {
                    if n == prev.entries()[bi].name@ {
                        assert(drained@[drained@.len() - 1]@ == n);
                    } else {
                        if prev.contains_path(n) {
                            assert(self.contains_path(n));
                        } else {
                            assert(names_has(dr0, n));
                            let k = choose|k: int|
                                0 <= k < dr0.len() && (#[trigger] dr0[k])@ == n;
                            assert(drained@[k] == dr0[k]);
                            assert(drained@[k]@ == n);
                        }
                    }
                }
                assert forall|n: Seq<char>| (self.contains_path(n) || names_has(
                    drained@,
                    n,
                )) implies pre.contains_path(n) by {
                    if self.contains_path(n) {
                        assert(prev.contains_path(n));
                    } else {
                        let k = choose|k: int| 0 <= k < drained@.len() && (#[trigger] drained@[k])@ == n;
                        if k < drained@.len() - 1 {
                            assert(dr0[k] == drained@[k]);
                            assert(names_has(dr0, n));
                        } else {
                            assert(n == prev.entries()[bi].name@);
                            assert(prev.contains_path(n));
                        }
                    }
                }
            }
        }
        proof {
            assert forall|n: Seq<char>| pre.contains_path(n) implies names_has(drained@, n) by {
                if self.contains_path(n) {
                    let j = choose|j: int|
                        0 <= j < self.entries().len() && (#[trigger] self.entries()[j]).name@ == n;
                }
            }
        }
        drained
    }

    /// Builds the reported node for the entry at `idx`: its cell data and,
    /// recursively, all of its direct children.
    #[verifier::loop_isolation(false)]
    #[verifier::rlimit(60)]
    fn build_node(&self, idx: usize) -> (node: CellGraphNode)
        requires
            self.wf(),
            idx < self.entries().len(),
        ensures
            node_matches(node, *self),
            node.cell.name@ == self.entries()[idx as int].name@,
        decreases max_name_len(self.entries()) - self.entries()[idx as int].name@.len(),
    {
        proof {
            lemma_max_name_len(self.entries(), idx as int);
        }
        let me = &self.items[idx];
        let cpu = match &me.spec.cpu {
            Some(c) => Some(c.duplicate()),
            None => None,
        };
        let cpuset = match &me.spec.cpuset {
            Some(c) => Some(c.duplicate()),
            None => None,
        };
        let memory = match &me.spec.memory {
            Some(m) => Some(m.duplicate()),
            None => None,
        };
        let cell = Cell {
            name: me.name.as_string().clone(),
            cpu,
            cpuset,
            memory,
            isolate_process: me.spec.isolate_process,
            isolate_network: me.spec.isolate_network,
        };
        proof {
            assert(self.entries()[idx as int].name@ == cell.name@);
            assert(self.contains_path(cell.name@));
            let k = self.idx_of(cell.name@);
            assert(0 <= k < self.entries().len() && self.entries()[k].name@ == cell.name@);
            assert(k == idx as int);
            assert(cell_matches_entry(cell, self.entry_of(cell.name@)));
        }
        let mut children: Vec<CellGraphNode> = Vec::new();
        // which entry each built child came from, to see the children are
        // pairwise distinct
        let ghost mut src: Seq<int> = Seq::empty();
        let mut i: usize = 0;
        while i < self.items.len()
            invariant
                0 <= i <= self.items.len(),
                cell.name@ == self.entries()[idx as int].name@,
                src.len() == children.len(),
                forall|k: int|
                    0 <= k < children.len() ==> is_direct_child(
                        (#[trigger] children[k]).cell.name@,
                        cell.name@,
                    ),
                forall|k: int|
                    0 <= k < children.len() ==> node_matches(#[trigger] children[k], *self),
                forall|j: int|
                    0 <= j < i && is_direct_child((#[trigger] self.entries()[j]).name@, cell.name@)
                        ==> exists|k: int|
                        0 <= k < children.len() && (#[trigger] children[k]).cell.name@
                            == self.entries()[j].name@,
                forall|k: int|
                    0 <= k < children.len() ==> 0 <= #[trigger] src[k] < i && (
                    #[trigger] children[k]).cell.name@ == self.entries()[src[k]].name@,
                forall|a: int, b: int| 0 <= a < b < src.len() ==> #[trigger] src[a] < #[trigger] src[b],
            decreases self.items.len() - i,
        {
            let ghost ch0 = children@;
            let is_child = crate::names::check_direct_child(
                self.items[i].name.as_string().as_str(),
                self.items[idx].name.as_string().as_str(),
            );
            if is_child {
                proof {
                    assert(is_direct_child(self.entries()[i as int].name@, cell.name@));
                    assert(self.entries()[i as int].name@.len() > cell.name@.len() + 1);
                    lemma_max_name_len(self.entries(), i as int);
                }
                let child = self.build_node(i);
                children.push(child);
                proof {
                    let s0 = src;
                    src = src.push(i as int);
                    assert(children@ == ch0.push(children@.last()));
                    assert(children@.last().cell.name@ == self.entries()[i as int].name@);
                    assert forall|k: int| 0 <= k < children@.len() implies 0 <= #[trigger] src[k]
                        < i + 1 && (#[trigger] children@[k]).cell.name@
                        == self.entries()[src[k]].name@ by {
                        if k < children@.len() - 1 {
                            assert(src[k] == s0[k]);
                            assert(children@[k] == ch0[k]);
                        } else {
                            assert(src[k] == i as int);
                        }
                    }
                    assert forall|a: int, b: int| 0 <= a < b < src.len() implies #[trigger] src[a]
                        < #[trigger] src[b] by {
                        assert(src[a] == s0[a]);
                        assert(ch0[a].cell.name@ == self.entries()[s0[a]].name@);
                        if b < src.len() - 1 {
                            assert(src[b] == s0[b]);
                        } else {
                            assert(src[b] == i as int);
                            assert(s0[a] < i as int);
                        }
                    }
                    assert forall|j: int|
                        0 <= j < i + 1 && is_direct_child(
                            (#[trigger] self.entries()[j]).name@,
                            cell.name@,
                        ) implies exists|k: int|
                        0 <= k < children@.len() && (#[trigger] children@[k]).cell.name@
                            == self.entries()[j].name@ by {
                        if j < i {
                            let k = choose|k: int|
                                0 <= k < ch0.len() && (#[trigger] ch0[k]).cell.name@
                                    == self.entries()[j].name@;
                            assert(children@[k] == ch0[k]);
                            assert(children@[k].cell.name@ == self.entries()[j].name@);
                        } else {
                            assert(children@[children@.len() - 1].cell.name@
                                == self.entries()[j].name@);
                        }
                    }
                }
            }
            i += 1;
        }
        proof {
            assert forall|n: Seq<char>|
                self.contains_path(n) && is_direct_child(n, cell.name@) implies exists|k: int|
                0 <= k < children.len() && (#[trigger] children[k]).cell.name@ == n by {
                let j = choose|j: int|
                    0 <= j < self.entries().len() && (#[trigger] self.entries()[j]).name@ == n;
                assert(is_direct_child(self.entries()[j].name@, cell.name@));
                let k0 = choose|k: int|
                    0 <= k < children.len() && (#[trigger] children[k]).cell.name@
                        == self.entries()[j].name@;
                assert(children[k0].cell.name@ == n);
            }
            assert forall|a: int, b: int| 0 <= a < b < children.len() implies (
            #[trigger] children[a]).cell.name@ != (#[trigger] children[b]).cell.name@ by {
                assert(children[a].cell.name@ == self.entries()[src[a]].name@);
                assert(children[b].cell.name@ == self.entries()[src[b]].name@);
                assert(src[a] < src[b]);
                assert(self.entries()[src[a]].name@ != self.entries()[src[b]].name@);
            }
        }
        let node = CellGraphNode { cell, children };
        node
    }

    /// Reports the whole cell tree: one faithful node per root cell, each
    /// carrying its full subtree.
    #[verifier::loop_isolation(false)]
    pub fn list(&self) -> (roots: Vec<CellGraphNode>)
        requires
            self.wf(),
        ensures
            forall|k: int|
                0 <= k < roots.len() ==> node_matches(#[trigger] roots[k], *self)
                    && !path_has_parent(roots[k].cell.name@),
            forall|n: Seq<char>|
                self.contains_path(n) && !path_has_parent(n) ==> exists|k: int|
                    0 <= k < roots.len() && (#[trigger] roots[k]).cell.name@ == n,
            forall|a: int, b: int|
                0 <= a < b < roots.len() ==> (#[trigger] roots[a]).cell.name@ != (
                #[trigger] roots[b]).cell.name@,
    {
        let mut roots: Vec<CellGraphNode> = Vec::new();
        let mut i: usize = 0;
        while i < self.items.len()
            invariant
                0 <= i <= self.items.len(),
                forall|k: int|
                    0 <= k < roots.len() ==> node_matches(#[trigger] roots[k], *self)
                        && !path_has_parent(roots[k].cell.name@),
                forall|j: int|
                    0 <= j < i && !path_has_parent((#[trigger] self.entries()[j]).name@)
                        ==> exists|k: int|
                        0 <= k < roots.len() && (#[trigger] roots[k]).cell.name@
                            == self.entries()[j].name@,
                forall|k: int|
                    0 <= k < roots.len() ==> exists|j: int|
                        0 <= j < i && (#[trigger] roots[k]).cell.name@ == (
                        #[trigger] self.entries()[j]).name@,
                forall|a: int, b: int|
                    0 <= a < b < roots.len() ==> (#[trigger] roots[a]).cell.name@ != (
                    #[trigger] roots[b]).cell.name@,
            decreases self.items.len() - i,
        {
            let ghost r0 = roots@;
            let is_root = match crate::names::find_last_slash(
                self.items[i].name.as_string().as_str(),
            ) {
                Some(_) => false,
                None => true,
            };
            if is_root {
                let node = self.build_node(i);
                roots.push(node);
                proof {
                    assert(roots@ == r0.push(roots@.last()));
                    assert(roots@.last().cell.name@ == self.entries()[i as int].name@);
                    assert forall|a: int, b: int| 0 <= a < b < roots@.len() implies (
                    #[trigger] roots@[a]).cell.name@ != (#[trigger] roots@[b]).cell.name@ by {
                        if b < roots@.len() - 1 {
                            assert(roots@[a] == r0[a] && roots@[b] == r0[b]);
                        } else {
                            assert(roots@[a] == r0[a]);
                            let j = choose|j: int|
                                0 <= j < i && (#[trigger] r0[a]).cell.name@ == (
                                #[trigger] self.entries()[j]).name@;
                            assert(self.entries()[j].name@ != self.entries()[i as int].name@);
                        }
                    }
                    assert forall|j: int|
                        0 <= j < i + 1 && !path_has_parent(
                            (#[trigger] self.entries()[j]).name@,
                        ) implies exists|k: int|
                        0 <= k < roots@.len() && (#[trigger] roots@[k]).cell.name@
                            == self.entries()[j].name@ by {
                        if j < i {
                            let k = choose|k: int|
                                0 <= k < r0.len() && (#[trigger] r0[k]).cell.name@
                                    == self.entries()[j].name@;
                            assert(roots@[k] == r0[k]);
                            assert(roots@[k].cell.name@ == self.entries()[j].name@);
                        } else {
                            assert(roots@[roots@.len() - 1].cell.name@ == self.entries()[j].name@);
                        }
                    }
                    assert forall|k: int| 0 <= k < roots@.len() implies exists|j: int|
                        0 <= j < i + 1 && (#[trigger] roots@[k]).cell.name@ == (
                        #[trigger] self.entries()[j]).name@ by {
                        if k < roots@.len() - 1 {
                            assert(roots@[k] == r0[k]);
                            let j = choose|j: int|
                                0 <= j < i && (#[trigger] r0[k]).cell.name@ == (
                                #[trigger] self.entries()[j]).name@;
                            assert(roots@[k].cell.name@ == self.entries()[j].name@);
                        } else {
                            assert(roots@[k].cell.name@ == self.entries()[i as int].name@);
                        }
                    }
                }
            }
            i += 1;
        }
        roots
    }
}

} // verus!
