//! Pipeline-level laws: how resolution, the guard, classification and the
//! finalizer compose, proved over the specification functions that the
//! executable functions' contracts are stated in.

use vstd::prelude::*;

use crate::auth::credential_user_id;
use crate::auth::guard_spec;
use crate::auth::resolve_present_spec;
use crate::auth::resolve_spec;
use crate::auth::valid_credential;
use crate::auth::IdentityContext;
use crate::auth::ResolutionOutcome;
use crate::error::classify_spec;
use crate::error::ClientError;
use crate::error::Error;
use crate::respond::envelope_body;
use crate::respond::finalize_spec;
use crate::respond::record_spec;
use crate::respond::ResponseModel;

verus! {

/// A request with no credential: resolution records the failure without
/// rejecting, so on a public route the handler's response passes the
/// finalizer unchanged; on a protected route the guard fails with the
/// missing-credential error, which finalizes to the `NO_AUTH` envelope
/// under status 403.
pub proof fn lemma_no_credential_public_vs_protected(
    public_m: ResponseModel,
    err_m: ResponseModel,
    id: Seq<char>,
)
    requires
        public_m.error is None,
        err_m.error == Option::Some(Error::AuthMissingCredential),
    ensures
        resolve_spec(Option::<Seq<char>>::None) == ResolutionOutcome::Failed(
            Error::AuthMissingCredential,
        ),
        finalize_spec(public_m, id).status == public_m.status,
        finalize_spec(public_m, id).body == public_m.body,
        guard_spec(Option::Some(resolve_spec(Option::<Seq<char>>::None))) == Result::<
            IdentityContext,
            Error,
        >::Err(Error::AuthMissingCredential),
        finalize_spec(err_m, id).status == 403u16,
        finalize_spec(err_m, id).body == envelope_body(ClientError::NO_AUTH, id),
{
}

/// A request with a malformed credential to a protected route: the guard fails
/// with the specific malformed-credential error, the caller sees only the
/// `NO_AUTH` envelope under status 403, and the internal log record keeps
/// `AuthMalformedCredential` itself, not a generic kind.
pub proof fn lemma_malformed_credential_protected(
    s: Seq<char>,
    err_m: ResponseModel,
    id: Seq<char>,
    method: Seq<char>,
    path: Seq<char>,
)
    requires
        !valid_credential(s),
        err_m.error == Option::Some(Error::AuthMalformedCredential),
    ensures
        resolve_present_spec(s) == ResolutionOutcome::Failed(Error::AuthMalformedCredential),
        guard_spec(Option::Some(resolve_present_spec(s))) == Result::<IdentityContext, Error>::Err(
            Error::AuthMalformedCredential,
        ),
        finalize_spec(err_m, id).status == 403u16,
        finalize_spec(err_m, id).body == envelope_body(ClientError::NO_AUTH, id),
        record_spec(err_m, id, method, path, Option::None).error == Option::Some(
            Error::AuthMalformedCredential,
        ),
        record_spec(err_m, id, method, path, Option::None).client_error == Option::Some(
            ClientError::NO_AUTH,
        ),
{
}

/// A request with a structurally valid credential to a protected route: the
/// guard passes, and the handler observes the identity context populated with
/// exactly the caller id the credential carries.
pub proof fn lemma_valid_credential_protected(s: Seq<char>)
    requires
        valid_credential(s),
    ensures
        resolve_present_spec(s) == ResolutionOutcome::Resolved(
            IdentityContext { user_id: credential_user_id(s) as u64 },
        ),
        guard_spec(Option::Some(resolve_present_spec(s))) == Result::<IdentityContext, Error>::Ok(
            IdentityContext { user_id: credential_user_id(s) as u64 },
        ),
{
}

/// The correlation id is shared: the id embedded in the client envelope is
/// exactly the id carried by the corresponding log record.
pub proof fn lemma_envelope_and_record_share_id(
    m: ResponseModel,
    id: Seq<char>,
    method: Seq<char>,
    path: Seq<char>,
    user_id: Option<u64>,
)
    ensures
        record_spec(m, id, method, path, user_id).correlation_id == id,
        m.error matches Some(e) ==> finalize_spec(m, id).body == envelope_body(
            classify_spec(e).1,
            record_spec(m, id, method, path, user_id).correlation_id,
        ),
{
}

/// A domain failure's structured payload never reaches the client: two
/// responses differing only in the carried resource id finalize to the same
/// status and the same envelope, which is built from the sanitized kind and
/// the correlation id alone.
pub proof fn lemma_payload_never_reaches_client(
    m1: ResponseModel,
    m2: ResponseModel,
    id: Seq<char>,
    res_id1: u64,
    res_id2: u64,
)
    requires
        m1.error == Option::Some(Error::ResourceNotFound { id: res_id1 }),
        m2.error == Option::Some(Error::ResourceNotFound { id: res_id2 }),
    ensures
        finalize_spec(m1, id).status == finalize_spec(m2, id).status,
        finalize_spec(m1, id).body == finalize_spec(m2, id).body,
        finalize_spec(m1, id).status == 400u16,
        finalize_spec(m1, id).body == envelope_body(ClientError::INVALID_PARAMS, id),
{
}

/// Re-invoking the finalizer on an already-finalized response is a no-op:
/// the finalizer's output carries no internal error, so a second pass leaves
/// status and body unchanged, whatever correlation id it draws.
pub proof fn lemma_finalize_idempotent(m: ResponseModel, id1: Seq<char>, id2: Seq<char>)
    ensures
        finalize_spec(finalize_spec(m, id1), id2) == finalize_spec(m, id1),
{
}

} // verus!
