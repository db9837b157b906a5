//! Error-correlated response pipeline: a closed error taxonomy with a
//! client-safe classification, permissive identity resolution with a
//! separate authorization guard, and a response finalizer that replaces
//! failed responses with a sanitized envelope under a correlation id.

pub mod auth;
pub mod error;
pub mod laws;
pub mod respond;

pub use auth::IdentityContext;
pub use auth::ResolutionOutcome;
pub use error::ClientError;
pub use error::Error;
pub use respond::RequestLogRecord;
pub use respond::ResponseDraft;
