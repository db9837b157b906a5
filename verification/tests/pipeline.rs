//! Tests for classification, identity resolution and the authorization guard.

use response_pipeline::auth::authorize;
use response_pipeline::auth::parse_credential;
use response_pipeline::auth::resolve_context;
use response_pipeline::ClientError;
use response_pipeline::Error;
use response_pipeline::IdentityContext;
use response_pipeline::ResolutionOutcome;

#[test]
fn classify_every_variant() {
    assert_eq!(
        Error::LoginFail.client_status_and_error(),
        (500, ClientError::SERVICE_ERROR)
    );
    assert_eq!(
        Error::AuthMissingCredential.client_status_and_error(),
        (403, ClientError::NO_AUTH)
    );
    assert_eq!(
        Error::AuthMalformedCredential.client_status_and_error(),
        (403, ClientError::NO_AUTH)
    );
    assert_eq!(
        Error::AuthContextMissing.client_status_and_error(),
        (403, ClientError::NO_AUTH)
    );
    assert_eq!(
        Error::ResourceNotFound { id: 42 }.client_status_and_error(),
        (400, ClientError::INVALID_PARAMS)
    );
}

#[test]
fn classify_ignores_payload() {
    assert_eq!(
        Error::ResourceNotFound { id: 0 }.client_status_and_error(),
        Error::ResourceNotFound { id: u64::MAX }.client_status_and_error()
    );
}

#[test]
fn client_error_wire_names() {
    assert_eq!(ClientError::LOGIN_FAIL.as_str(), "LOGIN_FAIL");
    assert_eq!(ClientError::NO_AUTH.as_str(), "NO_AUTH");
    assert_eq!(ClientError::INVALID_PARAMS.as_str(), "INVALID_PARAMS");
    assert_eq!(ClientError::SERVICE_ERROR.as_str(), "SERVICE_ERROR");
}

#[test]
fn parse_valid_credential() {
    assert_eq!(parse_credential("user-1.exp.sign"), Some(1));
    assert_eq!(parse_credential("user-42.2030-01-01.abcdef"), Some(42));
    // the signature part may itself contain dots
    assert_eq!(parse_credential("user-7.e.s.t"), Some(7));
    // the largest id that fits
    assert_eq!(
        parse_credential("user-18446744073709551615.e.s"),
        Some(u64::MAX)
    );
}

#[test]
fn parse_malformed_credential() {
    assert_eq!(parse_credential(""), None);
    assert_eq!(parse_credential("user-"), None);
    assert_eq!(parse_credential("user-.e.s"), None);
    assert_eq!(parse_credential("user-abc.e.s"), None);
    assert_eq!(parse_credential("user-1"), None);
    assert_eq!(parse_credential("user-1.e"), None);
    assert_eq!(parse_credential("user-1..s"), None);
    assert_eq!(parse_credential("user-1.e."), None);
    assert_eq!(parse_credential("USER-1.e.s"), None);
    assert_eq!(parse_credential("token-1.e.s"), None);
    // one past the largest id that fits
    assert_eq!(parse_credential("user-18446744073709551616.e.s"), None);
    assert_eq!(parse_credential("user-99999999999999999999999.e.s"), None);
}

#[test]
fn resolution_records_missing_credential() {
    let outcome = resolve_context(None);
    assert_eq!(
        outcome,
        ResolutionOutcome::Failed(Error::AuthMissingCredential)
    );
}

#[test]
fn resolution_records_malformed_credential() {
    let outcome = resolve_context(Some("not-a-token"));
    assert_eq!(
        outcome,
        ResolutionOutcome::Failed(Error::AuthMalformedCredential)
    );
}

#[test]
fn resolution_resolves_valid_credential() {
    let outcome = resolve_context(Some("user-42.exp.sign"));
    assert_eq!(
        outcome,
        ResolutionOutcome::Resolved(IdentityContext { user_id: 42 })
    );
}

#[test]
fn guard_passes_resolved_identity() {
    let outcome = resolve_context(Some("user-42.exp.sign"));
    let decision = authorize(Some(&outcome));
    assert_eq!(decision, Ok(IdentityContext { user_id: 42 }));
}

#[test]
fn guard_preserves_specific_failure() {
    let missing = resolve_context(None);
    assert_eq!(
        authorize(Some(&missing)),
        Err(Error::AuthMissingCredential)
    );
    let malformed = resolve_context(Some("user-x"));
    assert_eq!(
        authorize(Some(&malformed)),
        Err(Error::AuthMalformedCredential)
    );
}

#[test]
fn guard_flags_absent_outcome_as_wiring_defect() {
    assert_eq!(authorize(None), Err(Error::AuthContextMissing));
}
