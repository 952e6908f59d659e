use counter_gate::fields::FieldList;
use counter_gate::gate::{
    authorize, authorize_by, check_request_id, phase_after_gate, AuthDecision, RequestPhase,
    STATUS_UNAUTHORIZED,
};

fn headers_with_request_id() -> FieldList {
    let mut h = FieldList::new();
    h.push("accept".to_string(), "text/html".to_string());
    h.push("x-request-id".to_string(), "abc-123".to_string());
    h
}

fn headers_without_request_id() -> FieldList {
    let mut h = FieldList::new();
    h.push("accept".to_string(), "text/html".to_string());
    h
}

#[test]
fn authorize_allows_with_request_id() {
    let d = authorize(&headers_with_request_id());
    match d {
        AuthDecision::Allow { request_id } => assert_eq!(request_id, "abc-123"),
        AuthDecision::Reject { .. } => panic!("request with x-request-id was rejected"),
    }
}

#[test]
fn authorize_rejects_without_request_id() {
    let d = authorize(&headers_without_request_id());
    match d {
        AuthDecision::Allow { .. } => panic!("request without x-request-id was allowed"),
        AuthDecision::Reject { status, message } => {
            assert_eq!(status, STATUS_UNAUTHORIZED);
            assert_eq!(status, 401);
            assert_eq!(message, "x-request-id not found");
        }
    }
}

#[test]
fn check_request_id_reads_first_occurrence() {
    let mut h = FieldList::new();
    h.push("x-request-id".to_string(), "first".to_string());
    h.push("x-request-id".to_string(), "second".to_string());
    assert_eq!(check_request_id(&h), Some("first".to_string()));
}

#[test]
fn check_request_id_absent() {
    assert_eq!(check_request_id(&headers_without_request_id()), None);
}

#[test]
fn authorize_by_maps_predicate_outcome() {
    match authorize_by(Some("abc-123".to_string())) {
        AuthDecision::Allow { request_id } => assert_eq!(request_id, "abc-123"),
        AuthDecision::Reject { .. } => panic!("observed identifier was rejected"),
    }
    match authorize_by(None) {
        AuthDecision::Allow { .. } => panic!("missing identifier was allowed"),
        AuthDecision::Reject { status, message } => {
            assert_eq!(status, 401);
            assert_eq!(message, "x-request-id not found");
        }
    }
}

#[test]
fn gate_decision_drives_request_phase() {
    let allowed = authorize(&headers_with_request_id());
    assert_eq!(phase_after_gate(&allowed), RequestPhase::Authorized);
    let rejected = authorize(&headers_without_request_id());
    assert_eq!(phase_after_gate(&rejected), RequestPhase::Rejected);
}
