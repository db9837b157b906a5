//! The response finalizer: the outermost stage, run once per request after
//! the handler. It inspects the outgoing response for a carried internal
//! error and, if one is present, replaces the body with the sanitized client
//! envelope under a fresh correlation id, while shaping the full-detail log
//! record for the log sink.

use vstd::prelude::*;

use crate::error::classify_spec;
use crate::error::client_error_name;
use crate::error::ClientError;
use crate::error::Error;

verus! {

/// A response as it travels through the pipeline: its status, its body, and
/// the internal error it carries, if any. Success responses carry none, and
/// the finalizer's output never carries one.
#[derive(Debug, Clone)]
pub struct ResponseDraft {
    pub status: u16,
    pub body: String,
    pub error: Option<Error>,
}

/// The mathematical value of a `ResponseDraft`.
pub struct ResponseModel {
    pub status: u16,
    pub body: Seq<char>,
    pub error: Option<Error>,
}

impl View for ResponseDraft {
    type V = ResponseModel;

    open spec fn view(&self) -> ResponseModel {
        ResponseModel { status: self.status, body: self.body@, error: self.error }
    }
}

/// The per-request record handed to the log sink: write-once, full internal
/// detail, never shown to the caller.
#[derive(Debug, Clone)]
pub struct RequestLogRecord {
    pub correlation_id: String,
    pub method: String,
    pub path: String,
    pub user_id: Option<u64>,
    pub error: Option<Error>,
    pub client_error: Option<ClientError>,
}

/// The mathematical value of a `RequestLogRecord`.
pub struct RecordModel {
    pub correlation_id: Seq<char>,
    pub method: Seq<char>,
    pub path: Seq<char>,
    pub user_id: Option<u64>,
    pub error: Option<Error>,
    pub client_error: Option<ClientError>,
}

impl View for RequestLogRecord {
    type V = RecordModel;

    open spec fn view(&self) -> RecordModel {
        RecordModel {
            correlation_id: self.correlation_id@,
            method: self.method@,
            path: self.path@,
            user_id: self.user_id,
            error: self.error,
            client_error: self.client_error,
        }
    }
}

/// The stable client envelope: `{"error":{"type":"<kind>","req_uuid":"<id>"}}`.
/// It carries the sanitized kind and the correlation id, and nothing else.
pub open spec fn envelope_body(ce: ClientError, id: Seq<char>) -> Seq<char> {
    "{\"error\":{\"type\":\""@ + client_error_name(ce) + "\",\"req_uuid\":\""@ + id + "\"}}"@
}

/// Builds the client envelope for one sanitized error kind and correlation id.
pub fn client_error_body(ce: ClientError, correlation_id: &str) -> (r: String)
    ensures
        r@ == envelope_body(ce, correlation_id@),
{
    let mut s = String::from_str("{\"error\":{\"type\":\"");
    s.append(ce.as_str());
    s.append("\",\"req_uuid\":\"");
    s.append(correlation_id);
    s.append("\"}}");
    s
}

/// What the finalizer makes of a response: an error-free response passes
/// through unchanged; a response carrying an internal error is replaced by
/// the classified status and the sanitized envelope. Either way the result
/// carries no internal error.
pub open spec fn finalize_spec(m: ResponseModel, id: Seq<char>) -> ResponseModel {
    match m.error {
        Option::Some(e) => ResponseModel {
            status: classify_spec(e).0,
            body: envelope_body(classify_spec(e).1, id),
            error: Option::None,
        },
        Option::None => ResponseModel { status: m.status, body: m.body, error: Option::None },
    }
}

/// The log record the finalizer shapes for a response: the full internal
/// error next to the sanitized client kind, under the same correlation id
/// that the caller sees.
pub open spec fn record_spec(
    m: ResponseModel,
    id: Seq<char>,
    method: Seq<char>,
    path: Seq<char>,
    user_id: Option<u64>,
) -> RecordModel {
    RecordModel {
        correlation_id: id,
        method: method,
        path: path,
        user_id: user_id,
        error: m.error,
        client_error: match m.error {
            Option::Some(e) => Option::Some(classify_spec(e).1),
            Option::None => Option::None,
        },
    }
}

/// The response finalizer under a caller-supplied correlation id. The returned
/// response is what the caller sees; the returned record is what the log sink
/// receives. This function cannot fail: whatever the response carries, it
/// produces exactly the classified replacement or the unchanged pass-through.
pub fn finalize(
    res: ResponseDraft,
    correlation_id: String,
    method: String,
    path: String,
    user_id: Option<u64>,
) -> (r: (ResponseDraft, RequestLogRecord))
    ensures
        r.0@ == finalize_spec(res@, correlation_id@),
        r.1@ == record_spec(res@, correlation_id@, method@, path@, user_id),
{
    let client_error: Option<ClientError> = match &res.error {
        Some(e) => Some(e.client_status_and_error().1),
        None => None,
    };
    let out = match &res.error {
        Some(e) => {
            let (status, ce) = e.client_status_and_error();
            let body = client_error_body(ce, correlation_id.as_str());
            ResponseDraft { status, body, error: None }
        },
        None => ResponseDraft { status: res.status, body: res.body, error: None },
    };
    let record = RequestLogRecord {
        correlation_id,
        method,
        path,
        user_id,
        error: res.error,
        client_error,
    };
    (out, record)
}

/// Relies on `uuid::Uuid::new_v4` and its `Display` form: a fresh random
/// version-4 UUID rendered as the 36-character hyphenated lower-hex string.
/// The value is random, so nothing relates two calls; only the length is
/// promised.
#[verifier::external_body]
fn fresh_correlation_id() -> (r: String)
    ensures
        r@.len() == 36,
{
    uuid::Uuid::new_v4().to_string()
}

/// The response finalizer as the pipeline runs it: a fresh correlation id is
/// drawn for the request, and whatever id came back, the response envelope
/// and the log record carry that same id.
pub fn finalize_request(
    res: ResponseDraft,
    method: String,
    path: String,
    user_id: Option<u64>,
) -> (r: (ResponseDraft, RequestLogRecord))
    ensures
        r.0@ == finalize_spec(res@, r.1@.correlation_id),
        r.1@ == record_spec(res@, r.1@.correlation_id, method@, path@, user_id),
        r.1@.correlation_id.len() == 36,
{
    let id = fresh_correlation_id();
    finalize(res, id, method, path, user_id)
}

impl Error {
    /// The typed analogue of turning a handler failure into a response: a
    /// placeholder failed response carrying the full error for the finalizer
    /// to interpret.
    pub fn into_response_draft(self) -> (r: ResponseDraft)
        ensures
            r@.status == 500u16,
            r@.body == Seq::<char>::empty(),
            r@.error == Option::Some(self),
    {
        ResponseDraft { status: 500, body: String::new(), error: Some(self) }
    }
}

} // verus!
