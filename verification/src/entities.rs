//! The resources a webhook can target and the requests it can dispatch.

use vstd::prelude::*;

verus! {

/// Webhook-relevant configuration of a procedure.
#[derive(Clone, Debug, PartialEq, Eq)]
pub struct ProcedureConfig {
    /// Whether webhook deliveries may trigger this procedure.
    pub webhook_enabled: bool,
    /// Shared secret the provider signs deliveries with.
    pub webhook_secret: String,
}

/// A multi-step procedure managed by the platform.
#[derive(Clone, Debug, PartialEq, Eq)]
pub struct Procedure {
    /// Stable identifier of the procedure.
    pub id: String,
    /// Current configuration, read fresh per delivery.
    pub config: ProcedureConfig,
}

/// Webhook-relevant configuration of a stack.
#[derive(Clone, Debug, PartialEq, Eq)]
pub struct StackConfig {
    /// Whether webhook deliveries may trigger this stack.
    pub webhook_enabled: bool,
    /// Shared secret the provider signs deliveries with.
    pub webhook_secret: String,
    /// The branch deliveries must carry to trigger this stack.
    pub branch: String,
    /// Deploy unconditionally instead of only when changed.
    pub webhook_force_deploy: bool,
}

/// A deployable stack managed by the platform.
#[derive(Clone, Debug, PartialEq, Eq)]
pub struct Stack {
    /// Stable identifier of the stack.
    pub id: String,
    /// Current configuration, read fresh per delivery.
    pub config: StackConfig,
}

/// The action a delivery hands to the execution engine: at most one per
/// delivery, owned by the engine once issued.
#[derive(Clone, Debug, PartialEq, Eq)]
pub enum ExecuteRequest {
    /// Run the procedure with the given id.
    RunProcedure {
        /// Target procedure id.
        procedure: String,
    },
    /// Re-read the cached state of the stack with the given id.
    RefreshStackCache {
        /// Target stack id.
        stack: String,
    },
    /// Deploy the stack unconditionally.
    DeployStack {
        /// Target stack id.
        stack: String,
        /// Optional stop deadline for the replaced containers; `None` keeps
        /// the engine's default.
        stop_time: Option<i64>,
    },
    /// Deploy the stack only if its sources changed.
    DeployStackIfChanged {
        /// Target stack id.
        stack: String,
        /// Optional stop deadline for the replaced containers; `None` keeps
        /// the engine's default.
        stop_time: Option<i64>,
    },
}

impl ExecuteRequest {
    /// Whether an audit record must exist before the engine may run this
    /// request. Only a cache refresh goes un-audited.
    pub open spec fn spec_needs_audit(self) -> bool {
        !(self is RefreshStackCache)
    }

    /// Executable twin of [`Self::spec_needs_audit`].
    pub fn needs_audit(&self) -> (r: bool)
        ensures
            r == self.spec_needs_audit(),
    {
        match self {
            ExecuteRequest::RefreshStackCache { .. } => false,
            _ => true,
        }
    }
}

} // verus!
