//! The error taxonomy: every failure the pipeline can produce, and the
//! total mapping from internal failures to the reduced, client-safe kind
//! and HTTP status.

use vstd::prelude::*;

verus! {

/// The closed set of internal failure kinds. Every failing code path in the
/// pipeline terminates in exactly one of these variants; there is no untyped
/// failure path.
#[derive(Debug, Clone, Copy, PartialEq, Eq, Structural)]
pub enum Error {
    LoginFail,
    /// No credential was present on the request.
    AuthMissingCredential,
    /// A credential was present but failed structural validation.
    AuthMalformedCredential,
    /// No resolution outcome was attached to the request at all: a wiring
    /// defect, not a caller error.
    AuthContextMissing,
    /// A domain failure carrying structured data that must never reach the
    /// client envelope.
    ResourceNotFound { id: u64 },
}

/// The reduced, caller-visible error kind. Several internal variants collapse
/// onto one client kind so the caller cannot learn which internal step failed.
#[derive(Debug, Clone, Copy, PartialEq, Eq, Structural)]
#[allow(non_camel_case_types)]
pub enum ClientError {
    LOGIN_FAIL,
    NO_AUTH,
    INVALID_PARAMS,
    SERVICE_ERROR,
}

/// The classification mapping: explicit arms for the security-sensitive and
/// client-actionable variants, and a single wildcard that sends everything
/// else to `(500, SERVICE_ERROR)`.
pub open spec fn classify_spec(e: Error) -> (u16, ClientError) {
    match e {
        Error::AuthMissingCredential | Error::AuthMalformedCredential | Error::AuthContextMissing => (
            403u16,
            ClientError::NO_AUTH,
        ),
        Error::ResourceNotFound { id: _ } => (400u16, ClientError::INVALID_PARAMS),
        _ => (500u16, ClientError::SERVICE_ERROR),
    }
}

impl Error {
    /// The pure, total classification of an internal failure into the HTTP
    /// status and the sanitized client kind.
    pub fn client_status_and_error(&self) -> (r: (u16, ClientError))
        ensures
            r == classify_spec(*self),
    {
        match self {
            Error::AuthMissingCredential | Error::AuthMalformedCredential
            | Error::AuthContextMissing => (403, ClientError::NO_AUTH),
            Error::ResourceNotFound { id: _ } => (400, ClientError::INVALID_PARAMS),
            _ => (500, ClientError::SERVICE_ERROR),
        }
    }
}

/// The stable wire name of each client-visible error kind, as it appears in
/// the `type` field of the client envelope.
pub open spec fn client_error_name(ce: ClientError) -> Seq<char> {
    match ce {
        ClientError::LOGIN_FAIL => "LOGIN_FAIL"@,
        ClientError::NO_AUTH => "NO_AUTH"@,
        ClientError::INVALID_PARAMS => "INVALID_PARAMS"@,
        ClientError::SERVICE_ERROR => "SERVICE_ERROR"@,
    }
}

impl ClientError {
    /// The wire name of this client error kind.
    pub fn as_str(&self) -> (r: &'static str)
        ensures
            r@ == client_error_name(*self),
    {
        match self {
            ClientError::LOGIN_FAIL => "LOGIN_FAIL",
            ClientError::NO_AUTH => "NO_AUTH",
            ClientError::INVALID_PARAMS => "INVALID_PARAMS",
            ClientError::SERVICE_ERROR => "SERVICE_ERROR",
        }
    }
}

/// Classification is total over the closed taxonomy: every variant maps to
/// exactly one of the three status/kind pairs, all three auth variants
/// collapse onto the same `NO_AUTH` pair, and any variant without an explicit
/// arm falls back to `(500, SERVICE_ERROR)`.
pub proof fn lemma_classify_total()
    ensures
        forall|e: Error| #![auto]
            classify_spec(e) == (403u16, ClientError::NO_AUTH) || classify_spec(e) == (
                400u16,
                ClientError::INVALID_PARAMS,
            ) || classify_spec(e) == (500u16, ClientError::SERVICE_ERROR),
        classify_spec(Error::AuthMissingCredential) == classify_spec(
            Error::AuthMalformedCredential,
        ),
        classify_spec(Error::AuthMalformedCredential) == classify_spec(Error::AuthContextMissing),
        classify_spec(Error::AuthContextMissing) == (403u16, ClientError::NO_AUTH),
        classify_spec(Error::LoginFail) == (500u16, ClientError::SERVICE_ERROR),
{
}

/// Classification never copies a variant's structured data into the client
/// kind: the result depends on the variant alone, never on its payload.
pub proof fn lemma_classify_drops_payload(id1: u64, id2: u64)
    ensures
        classify_spec(Error::ResourceNotFound { id: id1 }) == classify_spec(
            Error::ResourceNotFound { id: id2 },
        ),
{
}

} // verus!
