//! Cgroup controller settings carried by a cell.
//!
//! Each controller is a record of optional fields; an absent field means
//! "inherit from the parent" and is never written to the cgroup filesystem.
//! The writes themselves are performed by the surrounding runtime.

use vstd::prelude::*;

use crate::decimal::{dec_rep, u64_to_string};

verus! {

/// Lowest weight the cpu controller accepts.
pub const CPU_WEIGHT_MIN: u64 = 1;

/// Highest weight the cpu controller accepts.
pub const CPU_WEIGHT_MAX: u64 = 10000;

/// Settings for the cpu controller: `weight`, and `max` microseconds of
/// runtime per `period` microseconds.
#[derive(Debug, PartialEq, Eq)]
pub struct CpuController {
    pub weight: Option<u64>,
    pub max: Option<i64>,
    pub period: Option<u64>,
}

/// Settings for the cpuset controller: list strings of cpus and of memory
/// nodes.
#[derive(Debug, PartialEq, Eq)]
pub struct CpusetController {
    pub cpus: Option<String>,
    pub mems: Option<String>,
}

/// Settings for the memory controller, all in bytes.
#[derive(Debug, PartialEq, Eq)]
pub struct MemoryController {
    pub min: Option<i64>,
    pub low: Option<i64>,
    pub high: Option<i64>,
    pub max: Option<i64>,
}

/// A cpu controller is acceptable when its weight, if given, lies in the
/// kernel's accepted range and its max runtime, if given, is not negative.
pub open spec fn valid_cpu(c: CpuController) -> bool {
    &&& match c.weight {
        Some(w) => CPU_WEIGHT_MIN <= w <= CPU_WEIGHT_MAX,
        None => true,
    }
    &&& match c.max {
        Some(m) => m >= 0,
        None => true,
    }
}

/// A memory controller is acceptable when each given byte count is not
/// negative.
pub open spec fn valid_memory(m: MemoryController) -> bool {
    &&& (m.min matches Some(v) ==> v >= 0)
    &&& (m.low matches Some(v) ==> v >= 0)
    &&& (m.high matches Some(v) ==> v >= 0)
    &&& (m.max matches Some(v) ==> v >= 0)
}

/// Checks a cpu controller's ranges.
pub fn check_cpu(c: &CpuController) -> (r: bool)
    ensures
        r == valid_cpu(*c),
{
    let weight_ok = match c.weight {
        Some(w) => CPU_WEIGHT_MIN <= w && w <= CPU_WEIGHT_MAX,
        None => true,
    };
    let max_ok = match c.max {
        Some(m) => m >= 0,
        None => true,
    };
    weight_ok && max_ok
}

/// Checks a memory controller's ranges.
pub fn check_memory(m: &MemoryController) -> (r: bool)
    ensures
        r == valid_memory(*m),
{
    let min_ok = match m.min {
        Some(v) => v >= 0,
        None => true,
    };
    let low_ok = match m.low {
        Some(v) => v >= 0,
        None => true,
    };
    let high_ok = match m.high {
        Some(v) => v >= 0,
        None => true,
    };
    let max_ok = match m.max {
        Some(v) => v >= 0,
        None => true,
    };
    min_ok && low_ok && high_ok && max_ok
}

impl CpuController {
    /// An equal copy.
    pub fn duplicate(&self) -> (r: CpuController)
        ensures
            r == *self,
    {
        CpuController { weight: self.weight, max: self.max, period: self.period }
    }
}

impl CpusetController {
    /// An equal copy.
    pub fn duplicate(&self) -> (r: CpusetController)
        ensures
            r == *self,
    {
        let cpus = match &self.cpus {
            Some(s) => Some(s.clone()),
            None => None,
        };
        let mems = match &self.mems {
            Some(s) => Some(s.clone()),
            None => None,
        };
        CpusetController { cpus, mems }
    }
}

impl MemoryController {
    /// An equal copy.
    pub fn duplicate(&self) -> (r: MemoryController)
        ensures
            r == *self,
    {
        MemoryController { min: self.min, low: self.low, high: self.high, max: self.max }
    }
}

/// One write into a cell's cgroup directory: the controller file and the
/// text to write into it.
pub struct CgroupWrite {
    pub file: String,
    pub value: String,
}

/// The (file, value) views of a write list.
pub open spec fn write_views(s: Seq<CgroupWrite>) -> Seq<(Seq<char>, Seq<char>)> {
    s.map(|i: int, w: CgroupWrite| (w.file@, w.value@))
}

/// The text written into `cpu.max`: the runtime budget, followed by the
/// period when one is given.
pub open spec fn spec_cpu_max_value(m: i64, period: Option<u64>) -> Seq<char>
    recommends
        m >= 0,
{
    match period {
        Some(p) => dec_rep(m as nat) + " "@ + dec_rep(p as nat),
        None => dec_rep(m as nat),
    }
}

/// The writes a cpu controller asks for. An absent field is inherited
/// from the parent and produces no write; a period alone configures
/// nothing and produces no write either.
pub open spec fn spec_cpu_writes(c: CpuController) -> Seq<(Seq<char>, Seq<char>)> {
    (match c.weight {
        Some(w) => seq![("cpu.weight"@, dec_rep(w as nat))],
        None => Seq::empty(),
    }) + (match c.max {
        Some(m) => seq![("cpu.max"@, spec_cpu_max_value(m, c.period))],
        None => Seq::empty(),
    })
}

/// The writes a cpuset controller asks for; absent fields produce none.
pub open spec fn spec_cpuset_writes(c: CpusetController) -> Seq<(Seq<char>, Seq<char>)> {
    (match c.cpus {
        Some(v) => seq![("cpuset.cpus"@, v@)],
        None => Seq::empty(),
    }) + (match c.mems {
        Some(v) => seq![("cpuset.mems"@, v@)],
        None => Seq::empty(),
    })
}

/// The writes a memory controller asks for; absent fields produce none.
pub open spec fn spec_memory_writes(m: MemoryController) -> Seq<(Seq<char>, Seq<char>)> {
    (match m.min {
        Some(v) => seq![("memory.min"@, dec_rep(v as nat))],
        None => Seq::empty(),
    }) + (match m.low {
        Some(v) => seq![("memory.low"@, dec_rep(v as nat))],
        None => Seq::empty(),
    }) + (match m.high {
        Some(v) => seq![("memory.high"@, dec_rep(v as nat))],
        None => Seq::empty(),
    }) + (match m.max {
        Some(v) => seq![("memory.max"@, dec_rep(v as nat))],
        None => Seq::empty(),
    })
}

/// Renders the cpu controller's writes.
pub fn cpu_writes(c: &CpuController) -> (r: Vec<CgroupWrite>)
    requires
        valid_cpu(*c),
    ensures
        write_views(r@) =~= spec_cpu_writes(*c),
{
    let mut r: Vec<CgroupWrite> = Vec::new();
    match c.weight {
        Some(w) => {
            r.push(CgroupWrite { file: String::from_str("cpu.weight"), value: u64_to_string(w) });
        },
        None => {},
    }
    match c.max {
        Some(m) => {
            let value = match c.period {
                Some(p) => {
                    let mut v = u64_to_string(m as u64);
                    v.append(" ");
                    let ps = u64_to_string(p);
                    v.append(ps.as_str());
                    v
                },
                None => u64_to_string(m as u64),
            };
            r.push(CgroupWrite { file: String::from_str("cpu.max"), value });
        },
        None => {},
    }
    proof {
        assert(write_views(r@) =~= spec_cpu_writes(*c));
    }
    r
}

/// Renders the cpuset controller's writes.
pub fn cpuset_writes(c: &CpusetController) -> (r: Vec<CgroupWrite>)
    ensures
        write_views(r@) =~= spec_cpuset_writes(*c),
{
    let mut r: Vec<CgroupWrite> = Vec::new();
    match &c.cpus {
        Some(v) => {
            r.push(CgroupWrite { file: String::from_str("cpuset.cpus"), value: v.clone() });
        },
        None => {},
    }
    match &c.mems {
        Some(v) => {
            r.push(CgroupWrite { file: String::from_str("cpuset.mems"), value: v.clone() });
        },
        None => {},
    }
    proof {
        assert(write_views(r@) =~= spec_cpuset_writes(*c));
    }
    r
}

/// Renders the memory controller's writes.
pub fn memory_writes(m: &MemoryController) -> (r: Vec<CgroupWrite>)
    requires
        valid_memory(*m),
    ensures
        write_views(r@) =~= spec_memory_writes(*m),
{
    let mut r: Vec<CgroupWrite> = Vec::new();
    match m.min {
        Some(v) => {
            r.push(
                CgroupWrite { file: String::from_str("memory.min"), value: u64_to_string(v as u64) },
            );
        },
        None => {},
    }
    match m.low {
        Some(v) => {
            r.push(
                CgroupWrite { file: String::from_str("memory.low"), value: u64_to_string(v as u64) },
            );
        },
        None => {},
    }
    match m.high {
        Some(v) => {
            r.push(
                CgroupWrite {
                    file: String::from_str("memory.high"),
                    value: u64_to_string(v as u64),
                },
            );
        },
        None => {},
    }
    match m.max {
        Some(v) => {
            r.push(
                CgroupWrite { file: String::from_str("memory.max"), value: u64_to_string(v as u64) },
            );
        },
        None => {},
    }
    proof {
        assert(write_views(r@) =~= spec_memory_writes(*m));
    }
    r
}

/// The runtime's classification of the OS error a cgroup operation
/// reported.
#[derive(Debug, PartialEq, Eq, Structural, Clone, Copy)]
pub enum FsErrorKind {
    NotFound,
    AlreadyExists,
    PermissionDenied,
    InvalidInput,
    Other,
}

/// Which cgroup operation failed.
#[derive(Debug, PartialEq, Eq, Structural, Clone, Copy)]
pub enum CgroupOp {
    Create,
    Configure,
    KillAll,
    Destroy,
}

/// The distinct failure classes of the cgroup backend: a missing parent
/// directory, a subtree that already exists, a permission failure (most
/// likely the agent is not running as root), and a controller value the
/// kernel rejected.
#[derive(Debug, PartialEq, Eq, Structural, Clone, Copy)]
pub enum CgroupError {
    ParentMissing,
    CgroupExists,
    PermissionDenied,
    KernelRejectedValue,
    Other,
}

/// How an operation and an OS error map onto the backend's failure
/// classes.
pub open spec fn spec_classify_cgroup_error(op: CgroupOp, kind: FsErrorKind) -> CgroupError {
    if kind == FsErrorKind::PermissionDenied {
        CgroupError::PermissionDenied
    } else if op == CgroupOp::Create && kind == FsErrorKind::NotFound {
        CgroupError::ParentMissing
    } else if op == CgroupOp::Create && kind == FsErrorKind::AlreadyExists {
        CgroupError::CgroupExists
    } else if op == CgroupOp::Configure && kind == FsErrorKind::InvalidInput {
        CgroupError::KernelRejectedValue
    } else {
        CgroupError::Other
    }
}

/// Classifies a failed cgroup operation into the backend's distinct
/// failure classes.
pub fn classify_cgroup_error(op: CgroupOp, kind: FsErrorKind) -> (r: CgroupError)
    ensures
        r == spec_classify_cgroup_error(op, kind),
{
    if matches!(kind, FsErrorKind::PermissionDenied) {
        CgroupError::PermissionDenied
    } else if matches!(op, CgroupOp::Create) && matches!(kind, FsErrorKind::NotFound) {
        CgroupError::ParentMissing
    } else if matches!(op, CgroupOp::Create) && matches!(kind, FsErrorKind::AlreadyExists) {
        CgroupError::CgroupExists
    } else if matches!(op, CgroupOp::Configure) && matches!(kind, FsErrorKind::InvalidInput) {
        CgroupError::KernelRejectedValue
    } else {
        CgroupError::Other
    }
}

} // verus!
