//! The dispatch policy: branch extraction and the per-kind decisions.

use webhook_dispatch::entities::ExecuteRequest;
use webhook_dispatch::entities::Procedure;
use webhook_dispatch::entities::ProcedureConfig;
use webhook_dispatch::entities::Stack;
use webhook_dispatch::entities::StackConfig;
use webhook_dispatch::errors::WebhookError;
use webhook_dispatch::listener::handle_procedure_webhook;
use webhook_dispatch::listener::handle_stack_deploy_webhook;
use webhook_dispatch::listener::handle_stack_refresh_webhook;
use webhook_dispatch::locks::procedure_locks;
use webhook_dispatch::locks::stack_locks;
use webhook_dispatch::payload::extract_branch;
use webhook_dispatch::payload::ref_branch;

fn stack(enabled: bool, branch: &str, force: bool) -> Stack {
    Stack {
        id: "stack-1".to_string(),
        config: StackConfig {
            webhook_enabled: enabled,
            webhook_secret: "topsecret".to_string(),
            branch: branch.to_string(),
            webhook_force_deploy: force,
        },
    }
}

fn procedure(enabled: bool) -> Procedure {
    Procedure {
        id: "proc-1".to_string(),
        config: ProcedureConfig {
            webhook_enabled: enabled,
            webhook_secret: "topsecret".to_string(),
        },
    }
}

fn push_body(branch_ref: &str) -> String {
    format!("{{\"ref\":\"{}\",\"after\":\"abc123\"}}", branch_ref)
}

#[test]
fn full_ref_yields_short_branch() {
    assert_eq!(ref_branch("refs/heads/main"), "main");
}

#[test]
fn bare_branch_yields_itself() {
    assert_eq!(ref_branch("main"), "main");
}

#[test]
fn nested_ref_yields_last_segment() {
    assert_eq!(ref_branch("refs/heads/feature/x"), "x");
}

#[test]
fn extract_branch_reads_ref_field() {
    assert_eq!(
        extract_branch("{\"ref\":\"refs/heads/main\"}"),
        Ok("main".to_string())
    );
    assert_eq!(extract_branch("{\"ref\":\"dev\"}"), Ok("dev".to_string()));
}

#[test]
fn extract_branch_rejects_missing_ref() {
    assert_eq!(
        extract_branch("{\"after\":\"abc\"}"),
        Err(WebhookError::MalformedPayload)
    );
}

#[test]
fn extract_branch_rejects_non_json() {
    assert_eq!(
        extract_branch("ref refs/heads/main"),
        Err(WebhookError::MalformedPayload)
    );
}

#[test]
fn extract_branch_rejects_non_string_ref() {
    assert_eq!(
        extract_branch("{\"ref\":7}"),
        Err(WebhookError::MalformedPayload)
    );
}

#[test]
fn disabled_procedure_is_rejected() {
    let p = procedure(false);
    let mut locks = procedure_locks();
    let handle = locks.get_or_create(&p.id);
    let guard = handle.acquire();
    let r = handle_procedure_webhook(
        &guard,
        &p,
        &"main".to_string(),
        &push_body("refs/heads/main"),
    );
    assert_eq!(r, Err(WebhookError::WebhookDisabled));
}

#[test]
fn disabled_stack_is_rejected_by_both_entry_points() {
    let s = stack(false, "main", false);
    let mut locks = stack_locks();
    let handle = locks.get_or_create(&s.id);
    let guard = handle.acquire();
    let body = push_body("refs/heads/main");
    assert_eq!(
        handle_stack_refresh_webhook(&guard, &s, &body),
        Err(WebhookError::WebhookDisabled)
    );
    assert_eq!(
        handle_stack_deploy_webhook(&guard, &s, &body),
        Err(WebhookError::WebhookDisabled)
    );
}

#[test]
fn unreadable_payload_is_rejected_before_the_disabled_check() {
    let s = stack(false, "main", false);
    let mut locks = stack_locks();
    let handle = locks.get_or_create(&s.id);
    let guard = handle.acquire();
    assert_eq!(
        handle_stack_deploy_webhook(&guard, &s, "{}"),
        Err(WebhookError::MalformedPayload)
    );
    assert_eq!(
        handle_stack_refresh_webhook(&guard, &s, "{}"),
        Err(WebhookError::MalformedPayload)
    );
    let p = procedure(false);
    assert_eq!(
        handle_procedure_webhook(&guard, &p, &"main".to_string(), "{}"),
        Err(WebhookError::MalformedPayload)
    );
}

#[test]
fn deploy_rejects_other_branch() {
    let s = stack(true, "main", false);
    let mut locks = stack_locks();
    let handle = locks.get_or_create(&s.id);
    let guard = handle.acquire();
    let r = handle_stack_deploy_webhook(&guard, &s, &push_body("refs/heads/dev"));
    assert_eq!(r, Err(WebhookError::BranchMismatch));
}

#[test]
fn procedure_rejects_other_branch() {
    let p = procedure(true);
    let mut locks = procedure_locks();
    let handle = locks.get_or_create(&p.id);
    let guard = handle.acquire();
    let r = handle_procedure_webhook(
        &guard,
        &p,
        &"main".to_string(),
        &push_body("refs/heads/dev"),
    );
    assert_eq!(r, Err(WebhookError::BranchMismatch));
}

#[test]
fn procedure_match_dispatches_run() {
    let p = procedure(true);
    let mut locks = procedure_locks();
    let handle = locks.get_or_create(&p.id);
    let guard = handle.acquire();
    let r = handle_procedure_webhook(
        &guard,
        &p,
        &"main".to_string(),
        &push_body("refs/heads/main"),
    );
    assert_eq!(
        r,
        Ok(ExecuteRequest::RunProcedure {
            procedure: "proc-1".to_string()
        })
    );
}

#[test]
fn refresh_match_dispatches_refresh() {
    let s = stack(true, "main", false);
    let mut locks = stack_locks();
    let handle = locks.get_or_create(&s.id);
    let guard = handle.acquire();
    let r = handle_stack_refresh_webhook(&guard, &s, &push_body("refs/heads/main"));
    assert_eq!(
        r,
        Ok(ExecuteRequest::RefreshStackCache {
            stack: "stack-1".to_string()
        })
    );
}

#[test]
fn deploy_without_force_is_if_changed() {
    let s = stack(true, "main", false);
    let mut locks = stack_locks();
    let handle = locks.get_or_create(&s.id);
    let guard = handle.acquire();
    let r = handle_stack_deploy_webhook(&guard, &s, &push_body("refs/heads/main"));
    assert_eq!(
        r,
        Ok(ExecuteRequest::DeployStackIfChanged {
            stack: "stack-1".to_string(),
            stop_time: None,
        })
    );
}

#[test]
fn deploy_with_force_is_unconditional() {
    let s = stack(true, "main", true);
    let mut locks = stack_locks();
    let handle = locks.get_or_create(&s.id);
    let guard = handle.acquire();
    let r = handle_stack_deploy_webhook(&guard, &s, &push_body("refs/heads/main"));
    assert_eq!(
        r,
        Ok(ExecuteRequest::DeployStack {
            stack: "stack-1".to_string(),
            stop_time: None,
        })
    );
}

#[test]
fn bare_branch_in_payload_matches() {
    let s = stack(true, "main", false);
    let mut locks = stack_locks();
    let handle = locks.get_or_create(&s.id);
    let guard = handle.acquire();
    let r = handle_stack_refresh_webhook(&guard, &s, &push_body("main"));
    assert_eq!(
        r,
        Ok(ExecuteRequest::RefreshStackCache {
            stack: "stack-1".to_string()
        })
    );
}
