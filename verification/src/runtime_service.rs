//! The pod-sandbox runtime facade.
//!
//! A pod sandbox is started by running a nested instance of this agent as
//! the sandbox's init process from a fixed OCI bundle. The container
//! build and start are OCI-runtime work done by the surrounding program;
//! the plan computed here fixes the sandbox id and the filesystem paths
//! that work uses.

use vstd::prelude::*;

use crate::error::ValidationError;

verus! {

/// The filesystem locations and id one pod sandbox runs under.
pub struct PodSandboxPlan {
    /// The sandbox id: the requested metadata name.
    pub sandbox_id: String,
    /// The OCI bundle of the nested agent that serves as the sandbox's
    /// init process.
    pub bundle_path: String,
    /// Where this sandbox's state lives.
    pub root_path: String,
}

#[derive(Debug, Clone, Copy)]
pub struct RuntimeService {}

impl RuntimeService {
    pub fn new() -> (r: RuntimeService)
        ensures
            r == (RuntimeService {  }),
    {
        RuntimeService {}
    }

    /// Plans a pod sandbox: the sandbox id is the requested name, the
    /// bundle is the agent's own nested-runtime bundle, and the state
    /// directory is the per-sandbox path. A request for a Windows sandbox
    /// is refused — only Linux sandboxes are supported.
    pub fn run_pod_sandbox_plan(&self, sandbox_name: &String, has_windows: bool) -> (r: Result<
        PodSandboxPlan,
        ValidationError,
    >)
        ensures
            has_windows ==> (r matches Err(ValidationError::Invalid { field }) && field@
                == "config.windows"@),
            !has_windows ==> (r matches Ok(plan) && {
                &&& plan.sandbox_id@ == sandbox_name@
                &&& plan.bundle_path@ == "/var/run/aurae/bundles/_aurae"@
                &&& plan.root_path@ == "/var/run/aurae/pods/"@ + sandbox_name@
            }),
    {
        if has_windows {
            return Err(ValidationError::Invalid { field: String::from_str("config.windows") });
        }
        let mut root_path = String::from_str("/var/run/aurae/pods/");
        root_path.append(sandbox_name.as_str());
        Ok(
            PodSandboxPlan {
                sandbox_id: sandbox_name.clone(),
                bundle_path: String::from_str("/var/run/aurae/bundles/_aurae"),
                root_path,
            },
        )
    }
}

} // verus!
