//! Tests for the response finalizer, the client envelope, and the log record.

use response_pipeline::respond::client_error_body;
use response_pipeline::respond::finalize;
use response_pipeline::respond::finalize_request;
use response_pipeline::ClientError;
use response_pipeline::Error;
use response_pipeline::ResponseDraft;

fn draft(error: Option<Error>) -> ResponseDraft {
    ResponseDraft {
        status: 200,
        body: String::from("hello"),
        error,
    }
}

#[test]
fn envelope_exact_shape() {
    let body = client_error_body(ClientError::NO_AUTH, "abc-123");
    assert_eq!(
        body,
        "{\"error\":{\"type\":\"NO_AUTH\",\"req_uuid\":\"abc-123\"}}"
    );
}

#[test]
fn envelope_is_valid_json() {
    let body = client_error_body(ClientError::INVALID_PARAMS, "11111111-2222-3333-4444-555555555555");
    let value: serde_json::Value = serde_json::from_str(&body).unwrap();
    assert_eq!(value["error"]["type"].as_str(), Some("INVALID_PARAMS"));
    assert_eq!(
        value["error"]["req_uuid"].as_str(),
        Some("11111111-2222-3333-4444-555555555555")
    );
}

#[test]
fn success_response_passes_through() {
    let (out, record) = finalize(
        draft(None),
        String::from("id-1"),
        String::from("GET"),
        String::from("/hello"),
        None,
    );
    assert_eq!(out.status, 200);
    assert_eq!(out.body, "hello");
    assert!(out.error.is_none());
    // a record is still emitted, with no error fields
    assert_eq!(record.correlation_id, "id-1");
    assert_eq!(record.method, "GET");
    assert_eq!(record.path, "/hello");
    assert!(record.error.is_none());
    assert!(record.client_error.is_none());
}

#[test]
fn failed_response_is_replaced_by_envelope() {
    let (out, record) = finalize(
        draft(Some(Error::AuthMalformedCredential)),
        String::from("id-2"),
        String::from("GET"),
        String::from("/api/tickets"),
        None,
    );
    assert_eq!(out.status, 403);
    assert_eq!(
        out.body,
        "{\"error\":{\"type\":\"NO_AUTH\",\"req_uuid\":\"id-2\"}}"
    );
    assert!(out.error.is_none());
    // the internal record keeps the specific failure, not a generic message
    assert_eq!(record.error, Some(Error::AuthMalformedCredential));
    assert_eq!(record.client_error, Some(ClientError::NO_AUTH));
    assert_eq!(record.correlation_id, "id-2");
}

#[test]
fn resource_not_found_leaks_no_payload() {
    let (out, record) = finalize(
        Error::ResourceNotFound { id: 42 }.into_response_draft(),
        String::from("fixed-id"),
        String::from("DELETE"),
        String::from("/api/tickets/42"),
        Some(7),
    );
    assert_eq!(out.status, 400);
    assert_eq!(
        out.body,
        "{\"error\":{\"type\":\"INVALID_PARAMS\",\"req_uuid\":\"fixed-id\"}}"
    );
    // no trace of the internal resource id in the envelope
    assert!(!out.body.contains("42"));
    // while the log record keeps the full detail
    assert_eq!(record.error, Some(Error::ResourceNotFound { id: 42 }));
    assert_eq!(record.user_id, Some(7));
}

#[test]
fn finalizer_is_idempotent() {
    let (once, _) = finalize(
        draft(Some(Error::LoginFail)),
        String::from("id-3"),
        String::from("POST"),
        String::from("/login"),
        None,
    );
    let (twice, record) = finalize(
        once.clone(),
        String::from("id-4"),
        String::from("POST"),
        String::from("/login"),
        None,
    );
    assert_eq!(twice.status, once.status);
    assert_eq!(twice.body, once.body);
    assert!(twice.error.is_none());
    assert!(record.error.is_none());
}

#[test]
fn envelope_id_matches_record_id() {
    let (out, record) = finalize_request(
        draft(Some(Error::AuthMissingCredential)),
        String::from("GET"),
        String::from("/api/tickets"),
        None,
    );
    assert_eq!(record.correlation_id.len(), 36);
    assert_eq!(
        out.body,
        format!(
            "{{\"error\":{{\"type\":\"NO_AUTH\",\"req_uuid\":\"{}\"}}}}",
            record.correlation_id
        )
    );
}

#[test]
fn correlation_ids_are_unique_across_requests() {
    let mut seen: Vec<String> = Vec::new();
    for i in 0..1000 {
        let (_, record) = finalize_request(
            draft(Some(Error::LoginFail)),
            String::from("GET"),
            format!("/r/{}", i),
            None,
        );
        assert_eq!(record.correlation_id.len(), 36);
        assert!(!seen.contains(&record.correlation_id));
        seen.push(record.correlation_id);
    }
}
