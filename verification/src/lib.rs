//! Webhook-triggered execution dispatch for deployable resources.
//!
//! A delivery for a procedure or a stack is authenticated against the
//! resource's shared secret, its branch is read out of the payload, and a
//! per-resource lock serializes the decision whether to hand an execution
//! request to the engine.

pub mod entities;
pub mod errors;
pub mod handoff;
pub mod listener;
pub mod legacy;
pub mod locks;
pub mod payload;
pub mod signature;
