//! The per-kind webhook entry points: authenticate a delivery, then decide
//! under the resource's lock whether it dispatches an execution request.
//!
//! The caller owns the locking: it takes the resource's handle from the
//! kind's registry, acquires it, reads the resource fresh, and hands the
//! guard and the read to the decision function, keeping the guard until
//! the engine call is done. Each delivery ends in exactly one terminal
//! outcome: the chosen request, or one named rejection. A rejected
//! delivery produces no request, so the engine is never invoked for it.

use vstd::prelude::*;

use crate::entities::ExecuteRequest;
use crate::entities::Procedure;
use crate::entities::Stack;
use crate::errors::WebhookError;
use crate::locks::LockGuard;
use crate::payload::extract_branch;
use crate::payload::ref_field_of;
use crate::payload::spec_ref_branch;
use crate::signature::spec_signature_ok;
use crate::signature::verify_gh_signature;

verus! {

/// Whether the delivery is signed with the given secret: the signature
/// header is present and proves the body.
pub open spec fn spec_signed(signature: Option<&str>, body: Seq<char>, secret: Seq<char>) -> bool {
    signature matches Some(s) && spec_signature_ok(s@, body, secret)
}

/// The outcome the procedure dispatch policy owes a delivery: rejected when
/// the webhook is disabled, the payload unreadable, or the branch another
/// one; otherwise a single run-procedure request.
pub open spec fn spec_procedure_dispatch(
    procedure: Procedure,
    target_branch: Seq<char>,
    body: Seq<char>,
) -> Result<ExecuteRequest, WebhookError> {
    match ref_field_of(body) {
        Option::None => Result::Err(WebhookError::MalformedPayload),
        Option::Some(v) => if !procedure.config.webhook_enabled {
            Result::Err(WebhookError::WebhookDisabled)
        } else if spec_ref_branch(v) != target_branch {
            Result::Err(WebhookError::BranchMismatch)
        } else {
            Result::Ok(ExecuteRequest::RunProcedure { procedure: procedure.id })
        },
    }
}

/// The outcome the stack refresh entry point owes a delivery: the same
/// rejections, against the stack's own configured branch; on success a
/// refresh-cache request.
pub open spec fn spec_stack_refresh_dispatch(stack: Stack, body: Seq<char>) -> Result<
    ExecuteRequest,
    WebhookError,
> {
    match ref_field_of(body) {
        Option::None => Result::Err(WebhookError::MalformedPayload),
        Option::Some(v) => if !stack.config.webhook_enabled {
            Result::Err(WebhookError::WebhookDisabled)
        } else if spec_ref_branch(v) != stack.config.branch@ {
            Result::Err(WebhookError::BranchMismatch)
        } else {
            Result::Ok(ExecuteRequest::RefreshStackCache { stack: stack.id })
        },
    }
}

/// The outcome the stack deploy entry point owes a delivery: the same
/// rejections as a refresh; on success one deploy request, unconditional
/// when force-deploy is set, only-if-changed otherwise, either with the
/// engine's default stop time.
pub open spec fn spec_stack_deploy_dispatch(stack: Stack, body: Seq<char>) -> Result<
    ExecuteRequest,
    WebhookError,
> {
    match ref_field_of(body) {
        Option::None => Result::Err(WebhookError::MalformedPayload),
        Option::Some(v) => if !stack.config.webhook_enabled {
            Result::Err(WebhookError::WebhookDisabled)
        } else if spec_ref_branch(v) != stack.config.branch@ {
            Result::Err(WebhookError::BranchMismatch)
        } else if stack.config.webhook_force_deploy {
            Result::Ok(ExecuteRequest::DeployStack { stack: stack.id, stop_time: None })
        } else {
            Result::Ok(ExecuteRequest::DeployStackIfChanged { stack: stack.id, stop_time: None })
        },
    }
}

/// Authenticates a procedure delivery: `procedure` is the storage layer's
/// fresh read for the delivered id, `signature` the raw signature header.
/// An unknown id and a bad signature stay distinguishable, and a delivery
/// that fails here never touches the lock registry.
pub fn auth_procedure_webhook(
    procedure: Option<Procedure>,
    signature: Option<&str>,
    body: &str,
) -> (r: Result<Procedure, WebhookError>)
    ensures
        procedure is None ==> r == Result::<Procedure, WebhookError>::Err(WebhookError::NotFound),
        procedure matches Some(p) ==> r == (if spec_signed(signature, body@, p.config.webhook_secret@) {
            Result::<Procedure, WebhookError>::Ok(p)
        } else {
            Result::<Procedure, WebhookError>::Err(WebhookError::Unauthorized)
        }),
{
    let procedure = match procedure {
        Some(p) => p,
        None => {
            return Err(WebhookError::NotFound);
        },
    };
    match verify_gh_signature(signature, body, procedure.config.webhook_secret.as_str()) {
        Ok(()) => Ok(procedure),
        Err(e) => Err(e),
    }
}

/// Authenticates a stack delivery, as [`auth_procedure_webhook`] does for a
/// procedure.
pub fn auth_stack_webhook(stack: Option<Stack>, signature: Option<&str>, body: &str) -> (r: Result<
    Stack,
    WebhookError,
>)
    ensures
        stack is None ==> r == Result::<Stack, WebhookError>::Err(WebhookError::NotFound),
        stack matches Some(s) ==> r == (if spec_signed(signature, body@, s.config.webhook_secret@) {
            Result::<Stack, WebhookError>::Ok(s)
        } else {
            Result::<Stack, WebhookError>::Err(WebhookError::Unauthorized)
        }),
{
    let stack = match stack {
        Some(s) => s,
        None => {
            return Err(WebhookError::NotFound);
        },
    };
    match verify_gh_signature(signature, body, stack.config.webhook_secret.as_str()) {
        Ok(()) => Ok(stack),
        Err(e) => Err(e),
    }
}

/// Decides an authenticated procedure delivery: payload read, then enabled
/// check, then branch check against `target_branch`, then the run-procedure
/// request. `lock` witnesses that the caller holds the guard it acquired
/// from the procedure's handle in the procedure registry, and `procedure`
/// is a read taken after that acquisition; the caller dispatches a returned
/// request, and drops the guard, only after the engine call, so deliveries
/// for one procedure never overlap. A rejection leaves nothing to dispatch.
pub fn handle_procedure_webhook(
    lock: &LockGuard<'_>,
    procedure: &Procedure,
    target_branch: &String,
    body: &str,
) -> (r: Result<ExecuteRequest, WebhookError>)
    ensures
        r == spec_procedure_dispatch(*procedure, target_branch@, body@),
{
    let request_branch = match extract_branch(body) {
        Ok(b) => b,
        Err(e) => {
            return Err(e);
        },
    };
    if !procedure.config.webhook_enabled {
        return Err(WebhookError::WebhookDisabled);
    }
    if !(request_branch == *target_branch) {
        return Err(WebhookError::BranchMismatch);
    }
    Ok(ExecuteRequest::RunProcedure { procedure: procedure.id.clone() })
}

/// Decides an authenticated stack refresh delivery, comparing against the
/// stack's own configured branch. `lock` witnesses the caller's guard from
/// the stack's handle in the stack registry, acquired before `stack` was
/// read.
pub fn handle_stack_refresh_webhook(
    lock: &LockGuard<'_>,
    stack: &Stack,
    body: &str,
) -> (r: Result<ExecuteRequest, WebhookError>)
    ensures
        r == spec_stack_refresh_dispatch(*stack, body@),
{
    let request_branch = match extract_branch(body) {
        Ok(b) => b,
        Err(e) => {
            return Err(e);
        },
    };
    if !stack.config.webhook_enabled {
        return Err(WebhookError::WebhookDisabled);
    }
    if !(request_branch == stack.config.branch) {
        return Err(WebhookError::BranchMismatch);
    }
    Ok(ExecuteRequest::RefreshStackCache { stack: stack.id.clone() })
}

/// Decides an authenticated stack deploy delivery. `lock` witnesses the
/// caller's guard from the stack's handle in the stack registry, acquired
/// before `stack` was read; both stack entry points share that lock, so a
/// refresh and a deploy for one stack never interleave.
pub fn handle_stack_deploy_webhook(
    lock: &LockGuard<'_>,
    stack: &Stack,
    body: &str,
) -> (r: Result<ExecuteRequest, WebhookError>)
    ensures
        r == spec_stack_deploy_dispatch(*stack, body@),
{
    let request_branch = match extract_branch(body) {
        Ok(b) => b,
        Err(e) => {
            return Err(e);
        },
    };
    if !stack.config.webhook_enabled {
        return Err(WebhookError::WebhookDisabled);
    }
    if !(request_branch == stack.config.branch) {
        return Err(WebhookError::BranchMismatch);
    }
    if stack.config.webhook_force_deploy {
        Ok(ExecuteRequest::DeployStack { stack: stack.id.clone(), stop_time: None })
    } else {
        Ok(ExecuteRequest::DeployStackIfChanged { stack: stack.id.clone(), stop_time: None })
    }
}

/// Law: with webhooks disabled, every readable delivery is rejected as
/// disabled — whatever its signature or branch, no entry point produces an
/// execution request, so the engine is never invoked. A payload with no
/// readable ref is rejected even earlier, as malformed, since the payload
/// is read before any policy check.
pub proof fn lemma_disabled_rejected(
    procedure: Procedure,
    stack: Stack,
    target_branch: Seq<char>,
    body: Seq<char>,
)
    requires
        !procedure.config.webhook_enabled,
        !stack.config.webhook_enabled,
        ref_field_of(body) is Some,
    ensures
        spec_procedure_dispatch(procedure, target_branch, body) == Result::<
            ExecuteRequest,
            WebhookError,
        >::Err(WebhookError::WebhookDisabled),
        spec_stack_refresh_dispatch(stack, body) == Result::<ExecuteRequest, WebhookError>::Err(
            WebhookError::WebhookDisabled,
        ),
        spec_stack_deploy_dispatch(stack, body) == Result::<ExecuteRequest, WebhookError>::Err(
            WebhookError::WebhookDisabled,
        ),
{
}

/// Law: an enabled stack whose configured branch differs from the delivered
/// branch is rejected as a mismatch by both stack entry points, and no
/// execution request is produced.
pub proof fn lemma_branch_mismatch_rejected(stack: Stack, body: Seq<char>)
    requires
        stack.config.webhook_enabled,
        ref_field_of(body) matches Some(v) && spec_ref_branch(v) != stack.config.branch@,
    ensures
        spec_stack_refresh_dispatch(stack, body) == Result::<ExecuteRequest, WebhookError>::Err(
            WebhookError::BranchMismatch,
        ),
        spec_stack_deploy_dispatch(stack, body) == Result::<ExecuteRequest, WebhookError>::Err(
            WebhookError::BranchMismatch,
        ),
{
}

/// Law: an enabled stack with a matching branch deploys exactly once per
/// delivery — one unconditional deploy when force-deploy is set, else one
/// deploy-if-changed, both with the engine's default stop time.
pub proof fn lemma_matching_branch_deploys(stack: Stack, body: Seq<char>)
    requires
        stack.config.webhook_enabled,
        ref_field_of(body) matches Some(v) && spec_ref_branch(v) == stack.config.branch@,
    ensures
        stack.config.webhook_force_deploy ==> spec_stack_deploy_dispatch(stack, body)
            == Result::<ExecuteRequest, WebhookError>::Ok(
            (ExecuteRequest::DeployStack { stack: stack.id, stop_time: None }),
        ),
        !stack.config.webhook_force_deploy ==> spec_stack_deploy_dispatch(stack, body)
            == Result::<ExecuteRequest, WebhookError>::Ok(
            (ExecuteRequest::DeployStackIfChanged { stack: stack.id, stop_time: None }),
        ),
{
}

} // verus!
