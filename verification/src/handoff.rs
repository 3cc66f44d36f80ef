//! Handing a decided execution request to the external engine.
//!
//! The engine and the audit store are outside collaborators: the embedding
//! process performs their calls and reports each outcome here. The fields
//! are private, so the only way through a handoff is these methods, and
//! their contracts enforce the order — audit record first, then exactly
//! one engine call — so the engine never runs un-audited and a delivery
//! never dispatches twice.

use vstd::prelude::*;

use crate::entities::ExecuteRequest;

verus! {

/// Where a delivery's handoff stands between decision and engine.
pub enum HandoffPhase<U> {
    /// The audit record has yet to be created.
    AwaitingRecord,
    /// Ready for the one engine call; carries the audit record when the
    /// request requires one.
    AwaitingDispatch(Option<U>),
    /// The engine was invoked, once, and its outcome returned.
    Complete,
    /// Record creation or the engine call failed; the engine will not run
    /// for this delivery, and nothing is retried.
    Failed,
}

/// One delivery's handoff of its chosen request, parameterized over the
/// audit-record type the embedding process uses.
pub struct ExecutionHandoff<U> {
    request: ExecuteRequest,
    phase: HandoffPhase<U>,
}

impl<U> ExecutionHandoff<U> {
    /// The request the dispatch policy chose; fixed for the handoff's life.
    pub closed spec fn spec_request(self) -> ExecuteRequest {
        self.request
    }

    /// Progress of the handoff.
    pub closed spec fn spec_phase(self) -> HandoffPhase<U> {
        self.phase
    }

    /// A handoff awaits or carries an audit record exactly when its request
    /// requires one; only a cache refresh goes without.
    pub open spec fn wf(self) -> bool {
        &&& self.spec_phase() is AwaitingRecord ==> self.spec_request().spec_needs_audit()
        &&& self.spec_phase() matches HandoffPhase::AwaitingDispatch(u) ==> (u is Some
            <==> self.spec_request().spec_needs_audit())
    }

    /// The chosen request, for the caller's outside calls.
    pub fn request(&self) -> (r: &ExecuteRequest)
        ensures
            *r == self.spec_request(),
    {
        &self.request
    }

    /// Where the handoff stands, for the caller to pick its next call.
    pub fn phase(&self) -> (r: &HandoffPhase<U>)
        ensures
            *r == self.spec_phase(),
    {
        &self.phase
    }

    /// Starts the handoff of `request`: toward the audit record when one is
    /// required, else straight toward the engine call.
    pub fn new(request: ExecuteRequest) -> (h: Self)
        ensures
            h.wf(),
            h.spec_request() == request,
            h.spec_phase() == (if request.spec_needs_audit() {
                HandoffPhase::<U>::AwaitingRecord
            } else {
                HandoffPhase::<U>::AwaitingDispatch(None)
            }),
    {
        if request.needs_audit() {
            ExecutionHandoff { request, phase: HandoffPhase::AwaitingRecord }
        } else {
            ExecutionHandoff { request, phase: HandoffPhase::AwaitingDispatch(None) }
        }
    }

    /// The audit record was created: the engine call may now happen.
    pub fn record_created(&mut self, record: U)
        requires
            old(self).wf(),
            old(self).spec_phase() is AwaitingRecord,
        ensures
            final(self).wf(),
            final(self).spec_request() == old(self).spec_request(),
            final(self).spec_phase() == HandoffPhase::AwaitingDispatch(Some(record)),
    {
        self.phase = HandoffPhase::AwaitingDispatch(Some(record));
    }

    /// Audit-record creation failed: the whole delivery fails, before the
    /// engine is ever invoked.
    pub fn record_failed(&mut self)
        requires
            old(self).spec_phase() is AwaitingRecord,
        ensures
            final(self).wf(),
            final(self).spec_request() == old(self).spec_request(),
            final(self).spec_phase() is Failed,
    {
        self.phase = HandoffPhase::Failed;
    }

    /// The one engine call was made and returned its outcome; no further
    /// call is possible for this delivery.
    pub fn dispatched(&mut self)
        requires
            old(self).spec_phase() is AwaitingDispatch,
        ensures
            final(self).wf(),
            final(self).spec_request() == old(self).spec_request(),
            final(self).spec_phase() is Complete,
    {
        self.phase = HandoffPhase::Complete;
    }

    /// The engine call failed; its outcome is propagated unchanged and not
    /// retried.
    pub fn dispatch_failed(&mut self)
        requires
            old(self).spec_phase() is AwaitingDispatch,
        ensures
            final(self).wf(),
            final(self).spec_request() == old(self).spec_request(),
            final(self).spec_phase() is Failed,
    {
        self.phase = HandoffPhase::Failed;
    }
}

/// Law: the engine never runs un-audited — whenever a handoff is ready for
/// its engine call and the request requires an audit record, the record is
/// in hand.
pub proof fn lemma_dispatch_is_audited<U>(h: ExecutionHandoff<U>)
    requires
        h.wf(),
        h.spec_phase() is AwaitingDispatch,
        h.spec_request().spec_needs_audit(),
    ensures
        h.spec_phase() matches HandoffPhase::AwaitingDispatch(u) && u is Some,
{
}

} // verus!
