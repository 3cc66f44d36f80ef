//! The terminal outcomes of a webhook delivery that does not dispatch.

use vstd::prelude::*;

verus! {

/// Why a delivery was rejected or failed.
///
/// The first two never reach the dispatch policy; the middle three are the
/// policy's own benign rejections; the last covers a failure of the external
/// engine or of audit-record creation, reported by the embedding process.
#[derive(Clone, Copy, Debug, PartialEq, Eq, Structural)]
pub enum WebhookError {
    /// No resource is configured under the delivered id.
    NotFound,
    /// The signature header is missing or does not match the body.
    Unauthorized,
    /// The resource does not have its webhook enabled.
    WebhookDisabled,
    /// The delivered branch is not the branch this webhook listens for.
    BranchMismatch,
    /// The payload holds no readable ref field.
    MalformedPayload,
    /// Audit-record creation or the engine call failed.
    EngineFailure,
}

impl WebhookError {
    /// A human-readable description of the outcome.
    pub fn message(&self) -> (r: &'static str)
        ensures
            self is NotFound ==> r@ == "resource not found"@,
            self is Unauthorized ==> r@ == "invalid webhook signature"@,
            self is WebhookDisabled ==> r@ == "resource does not have webhook enabled"@,
            self is BranchMismatch ==> r@ == "request branch does not match expected"@,
            self is MalformedPayload ==> r@ == "failed to extract branch from webhook body"@,
            self is EngineFailure ==> r@ == "execution engine call failed"@,
    {
        match self {
            WebhookError::NotFound => "resource not found",
            WebhookError::Unauthorized => "invalid webhook signature",
            WebhookError::WebhookDisabled => "resource does not have webhook enabled",
            WebhookError::BranchMismatch => "request branch does not match expected",
            WebhookError::MalformedPayload => "failed to extract branch from webhook body",
            WebhookError::EngineFailure => "execution engine call failed",
        }
    }
}

} // verus!
