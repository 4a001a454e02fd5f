//! The errors a call can end in, and the error envelope of the remote service.

use vstd::prelude::*;

verus! {

/// The parse error of `serde_json`, carried through unread.
#[verifier::external_type_specification]
#[verifier::external_body]
pub struct ExJsonError(serde_json::Error);

/// The structured failure that the service reports on a non-success status.
#[derive(Debug, Clone)]
pub struct ApiError {
    /// Human-readable description.
    pub message: String,
    /// Machine-readable discriminant: the envelope's `type` member.
    pub kind: String,
    /// Optional error code.
    pub code: Option<String>,
}

/// The envelope as it stands on the wire: `{"error": {...}}`.
#[derive(Debug, Clone)]
pub struct WrappedError {
    pub error: ApiError,
}

/// Every way in which a call or a stream item can fail.
#[derive(Debug)]
pub enum OpenAIError {
    /// The transport failed: connection, timeout, or an unusable request.
    Reqwest(String),
    /// The service answered with an error envelope.
    ApiError(ApiError),
    /// A body or an event payload did not parse as the expected JSON.
    JSONDeserialize(serde_json::Error),
    /// The event stream failed while being consumed.
    StreamError(String),
    /// The configuration cannot be put into a request.
    ConfigError(String),
}

} // verus!
