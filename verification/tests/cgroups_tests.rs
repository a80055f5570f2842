use auraed::cgroups::{
    check_cpu, check_memory, classify_cgroup_error, cpu_writes, cpuset_writes, memory_writes,
    CgroupError, CgroupOp, CpuController, CpusetController, FsErrorKind, MemoryController,
};

#[test]
fn cpu_weight_range_is_enforced() {
    let ok = CpuController { weight: Some(1), max: None, period: None };
    assert!(check_cpu(&ok));
    let ok = CpuController { weight: Some(10000), max: None, period: None };
    assert!(check_cpu(&ok));
    let low = CpuController { weight: Some(0), max: None, period: None };
    assert!(!check_cpu(&low));
    let high = CpuController { weight: Some(10001), max: None, period: None };
    assert!(!check_cpu(&high));
    let negative = CpuController { weight: None, max: Some(-1), period: None };
    assert!(!check_cpu(&negative));
}

#[test]
fn absent_fields_are_never_written() {
    let none = CpuController { weight: None, max: None, period: None };
    assert!(cpu_writes(&none).is_empty());
    let mem = MemoryController { min: None, low: None, high: None, max: None };
    assert!(memory_writes(&mem).is_empty());
    let set = CpusetController { cpus: None, mems: None };
    assert!(cpuset_writes(&set).is_empty());
    // a period alone configures nothing
    let period_only = CpuController { weight: None, max: None, period: Some(1000000) };
    assert!(cpu_writes(&period_only).is_empty());
}

#[test]
fn cpu_writes_render_weight_and_max() {
    let c = CpuController { weight: Some(100), max: Some(250000), period: Some(1000000) };
    let writes = cpu_writes(&c);
    assert_eq!(writes.len(), 2);
    assert_eq!(writes[0].file, "cpu.weight");
    assert_eq!(writes[0].value, "100");
    assert_eq!(writes[1].file, "cpu.max");
    assert_eq!(writes[1].value, "250000 1000000");

    let without_period = CpuController { weight: None, max: Some(250000), period: None };
    let writes = cpu_writes(&without_period);
    assert_eq!(writes.len(), 1);
    assert_eq!(writes[0].file, "cpu.max");
    assert_eq!(writes[0].value, "250000");
}

#[test]
fn memory_writes_render_bytes() {
    let m = MemoryController {
        min: Some(0),
        low: None,
        high: Some(1073741824),
        max: Some(2147483648),
    };
    assert!(check_memory(&m));
    let writes = memory_writes(&m);
    assert_eq!(writes.len(), 3);
    assert_eq!(writes[0].file, "memory.min");
    assert_eq!(writes[0].value, "0");
    assert_eq!(writes[1].file, "memory.high");
    assert_eq!(writes[1].value, "1073741824");
    assert_eq!(writes[2].file, "memory.max");
    assert_eq!(writes[2].value, "2147483648");
}

#[test]
fn cpuset_writes_carry_the_list_strings() {
    let c = CpusetController {
        cpus: Some(String::from("0-3,8")),
        mems: Some(String::from("0")),
    };
    let writes = cpuset_writes(&c);
    assert_eq!(writes.len(), 2);
    assert_eq!(writes[0].file, "cpuset.cpus");
    assert_eq!(writes[0].value, "0-3,8");
    assert_eq!(writes[1].file, "cpuset.mems");
    assert_eq!(writes[1].value, "0");
}

#[test]
fn cgroup_failures_are_classified_distinctly() {
    assert_eq!(
        classify_cgroup_error(CgroupOp::Create, FsErrorKind::NotFound),
        CgroupError::ParentMissing
    );
    assert_eq!(
        classify_cgroup_error(CgroupOp::Create, FsErrorKind::AlreadyExists),
        CgroupError::CgroupExists
    );
    assert_eq!(
        classify_cgroup_error(CgroupOp::Create, FsErrorKind::PermissionDenied),
        CgroupError::PermissionDenied
    );
    assert_eq!(
        classify_cgroup_error(CgroupOp::Configure, FsErrorKind::InvalidInput),
        CgroupError::KernelRejectedValue
    );
    assert_eq!(
        classify_cgroup_error(CgroupOp::Destroy, FsErrorKind::Other),
        CgroupError::Other
    );
}
