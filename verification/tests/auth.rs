//! Signature verification against the resource's shared secret.

use hmac::Mac;

use webhook_dispatch::entities::Procedure;
use webhook_dispatch::entities::ProcedureConfig;
use webhook_dispatch::entities::Stack;
use webhook_dispatch::entities::StackConfig;
use webhook_dispatch::errors::WebhookError;
use webhook_dispatch::listener::auth_procedure_webhook;
use webhook_dispatch::listener::auth_stack_webhook;
use webhook_dispatch::signature::verify_gh_signature;

/// The signature header the provider would send: `sha256=` + hex HMAC tag.
fn sign(secret: &str, body: &str) -> String {
    let mut mac = <hmac::Hmac<sha2::Sha256> as hmac::KeyInit>::new_from_slice(secret.as_bytes())
        .expect("HMAC accepts any key length");
    mac.update(body.as_bytes());
    let tag = mac.finalize().into_bytes();
    let mut out = String::from("sha256=");
    for byte in tag {
        out.push(char::from_digit((byte >> 4) as u32, 16).unwrap());
        out.push(char::from_digit((byte & 0x0f) as u32, 16).unwrap());
    }
    out
}

fn stack(secret: &str) -> Stack {
    Stack {
        id: "stack-1".to_string(),
        config: StackConfig {
            webhook_enabled: true,
            webhook_secret: secret.to_string(),
            branch: "main".to_string(),
            webhook_force_deploy: false,
        },
    }
}

fn procedure(secret: &str) -> Procedure {
    Procedure {
        id: "proc-1".to_string(),
        config: ProcedureConfig {
            webhook_enabled: true,
            webhook_secret: secret.to_string(),
        },
    }
}

#[test]
fn valid_signature_authenticates_stack() {
    let body = "{\"ref\":\"refs/heads/main\"}";
    let sig = sign("topsecret", body);
    let s = stack("topsecret");
    let r = auth_stack_webhook(Some(s.clone()), Some(sig.as_str()), body);
    assert_eq!(r, Ok(s));
}

#[test]
fn valid_signature_authenticates_procedure() {
    let body = "{\"ref\":\"refs/heads/main\"}";
    let sig = sign("topsecret", body);
    let p = procedure("topsecret");
    let r = auth_procedure_webhook(Some(p.clone()), Some(sig.as_str()), body);
    assert_eq!(r, Ok(p));
}

#[test]
fn uppercase_hex_signature_authenticates() {
    let body = "{\"ref\":\"refs/heads/main\"}";
    let sig = sign("topsecret", body);
    let upper = format!("sha256={}", sig["sha256=".len()..].to_uppercase());
    let r = verify_gh_signature(Some(upper.as_str()), body, "topsecret");
    assert_eq!(r, Ok(()));
}

#[test]
fn wrong_secret_is_unauthorized() {
    let body = "{\"ref\":\"refs/heads/main\"}";
    let sig = sign("othersecret", body);
    let r = auth_stack_webhook(Some(stack("topsecret")), Some(sig.as_str()), body);
    assert_eq!(r, Err(WebhookError::Unauthorized));
}

#[test]
fn tampered_body_is_unauthorized() {
    let body = "{\"ref\":\"refs/heads/main\"}";
    let sig = sign("topsecret", body);
    let tampered = "{\"ref\":\"refs/heads/evil\"}";
    let r = auth_stack_webhook(Some(stack("topsecret")), Some(sig.as_str()), tampered);
    assert_eq!(r, Err(WebhookError::Unauthorized));
}

#[test]
fn missing_header_is_unauthorized() {
    let body = "{\"ref\":\"refs/heads/main\"}";
    let r = auth_procedure_webhook(Some(procedure("topsecret")), None, body);
    assert_eq!(r, Err(WebhookError::Unauthorized));
}

#[test]
fn wrong_prefix_is_unauthorized() {
    let body = "{\"ref\":\"refs/heads/main\"}";
    let sig = sign("topsecret", body).replace("sha256=", "sha512=");
    let r = verify_gh_signature(Some(sig.as_str()), body, "topsecret");
    assert_eq!(r, Err(WebhookError::Unauthorized));
}

#[test]
fn non_hex_signature_is_unauthorized() {
    let body = "{\"ref\":\"refs/heads/main\"}";
    let r = verify_gh_signature(Some("sha256=nothex!"), body, "topsecret");
    assert_eq!(r, Err(WebhookError::Unauthorized));
}

#[test]
fn odd_length_hex_is_unauthorized() {
    let body = "{\"ref\":\"refs/heads/main\"}";
    let r = verify_gh_signature(Some("sha256=abc"), body, "topsecret");
    assert_eq!(r, Err(WebhookError::Unauthorized));
}

#[test]
fn unknown_resource_is_not_found() {
    let body = "{\"ref\":\"refs/heads/main\"}";
    let sig = sign("topsecret", body);
    assert_eq!(
        auth_stack_webhook(None, Some(sig.as_str()), body),
        Err(WebhookError::NotFound)
    );
    assert_eq!(
        auth_procedure_webhook(None, Some(sig.as_str()), body),
        Err(WebhookError::NotFound)
    );
}
