//! Core of a host-local node agent that manages two classes of isolated
//! workloads: cells (cgroup-backed process groups holding supervised child
//! executables) and microVMs (each hosting a nested instance of the same
//! agent), together with the routing layer that forwards a request to the
//! agent responsible for an execution target.
//!
//! The crate holds the registries, state machines and request-routing rules;
//! process spawning, cgroup writes, signal delivery, hypervisor control and
//! the wire transport are performed by the surrounding runtime, which reports
//! their outcomes to the functions here as plain values.

pub mod cell_service;
pub mod cells;
pub mod cgroups;
pub mod decimal;
pub mod error;
pub mod executables;
pub mod names;
pub mod observe;
pub mod router;
pub mod runtime_service;
pub mod shutdown;
pub mod valid_json;
pub mod vm;
pub mod vm_service;
pub mod vms;
