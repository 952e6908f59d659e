//! Authorization guard: decides, per inbound request, whether the request may
//! proceed to its handler or is rejected at once.
//!
//! The policy is a presence test on the request-identifier header: it
//! checks that the header exists, not that its value is valid. The
//! predicate is a function of its own (`check_request_id`), and
//! `authorize_by` turns any predicate's outcome into a decision, so a real
//! system can substitute genuine verification without touching the guard.

use vstd::prelude::*;
use vstd::string::StringExecFns;
use crate::fields::{first_match, FieldList};

verus! {

/// The status of a rejected request: unauthorized.
pub const STATUS_UNAUTHORIZED: u16 = 401;

/// The name of the request-identifier header the guard looks for.
pub open spec fn request_id_name() -> Seq<char> {
    "x-request-id"@
}

/// The fixed message a rejection carries.
pub open spec fn unauthorized_message() -> Seq<char> {
    "x-request-id not found"@
}

/// The guard's verdict on one request. A rejection is a normal, reported
/// outcome with a well-formed status and message, never a fault.
pub enum AuthDecision {
    /// The request proceeds; the identifier is kept for observability.
    Allow { request_id: String },
    /// The request is answered at once with this status and message.
    Reject { status: u16, message: String },
}

/// The default guard predicate: the value of the request-identifier header
/// when the request carries one (its first occurrence), `None` otherwise.
pub fn check_request_id(headers: &FieldList) -> (r: Option<String>)
    ensures
        match r {
            Some(v) => first_match(headers@, request_id_name()) == Some(v@),
            None => first_match(headers@, request_id_name()) is None,
        },
{
    let name = String::from_str("x-request-id");
    match headers.find(&name) {
        Some(v) => Some(v.clone()),
        None => None,
    }
}

/// Turns a predicate's outcome into the guard's decision: a produced
/// identifier allows the request, and carries through unchanged for
/// observability; no identifier rejects it with the unauthorized status and
/// the fixed message.
pub fn authorize_by(observed: Option<String>) -> (d: AuthDecision)
    ensures
        match observed {
            Some(v) => d matches AuthDecision::Allow { request_id } && request_id == v,
            None => d matches AuthDecision::Reject { status, message } && status
                == STATUS_UNAUTHORIZED && message@ == unauthorized_message(),
        },
{
    match observed {
        Some(v) => AuthDecision::Allow { request_id: v },
        None => AuthDecision::Reject {
            status: STATUS_UNAUTHORIZED,
            message: String::from_str("x-request-id not found"),
        },
    }
}

/// The guard: allows a request whose header set contains the
/// request-identifier field, making the identifier available for
/// observability, and rejects any other with the unauthorized status and
/// the fixed message.
pub fn authorize(headers: &FieldList) -> (d: AuthDecision)
    ensures
        match first_match(headers@, request_id_name()) {
            Some(v) => d matches AuthDecision::Allow { request_id } && request_id@ == v,
            None => d matches AuthDecision::Reject { status, message } && status
                == STATUS_UNAUTHORIZED && message@ == unauthorized_message(),
        },
{
    authorize_by(check_request_id(headers))
}

/// Where one request stands, from receipt to its response.
#[derive(Clone, Copy, PartialEq, Eq, Structural, Debug)]
pub enum RequestPhase {
    Received,
    Authorized,
    Rejected,
    Dispatched,
    Responded,
}

/// The steps a request may take: `Received` to `Authorized` or `Rejected`;
/// an authorized request is dispatched and then responded; a rejected one
/// is responded at once. Nothing leaves `Responded`, and the guard never
/// retries a rejected request.
pub open spec fn phase_step_allowed(from: RequestPhase, to: RequestPhase) -> bool {
    match (from, to) {
        (RequestPhase::Received, RequestPhase::Authorized) => true,
        (RequestPhase::Received, RequestPhase::Rejected) => true,
        (RequestPhase::Authorized, RequestPhase::Dispatched) => true,
        (RequestPhase::Dispatched, RequestPhase::Responded) => true,
        (RequestPhase::Rejected, RequestPhase::Responded) => true,
        _ => false,
    }
}

/// `Responded` is terminal: no step leaves it.
pub proof fn lemma_responded_terminal()
    ensures
        forall|q: RequestPhase| !phase_step_allowed(RequestPhase::Responded, q),
{
}

/// Applies the guard's decision to a freshly received request: an allowed
/// request becomes `Authorized`, a rejected one `Rejected`, and either is a
/// step the state machine permits.
pub fn phase_after_gate(d: &AuthDecision) -> (p: RequestPhase)
    ensures
        phase_step_allowed(RequestPhase::Received, p),
        (d matches AuthDecision::Allow { .. }) <==> p == RequestPhase::Authorized,
        (d matches AuthDecision::Reject { .. }) <==> p == RequestPhase::Rejected,
{
    match d {
        AuthDecision::Allow { .. } => RequestPhase::Authorized,
        AuthDecision::Reject { .. } => RequestPhase::Rejected,
    }
}

} // verus!
