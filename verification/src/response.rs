//! Telling a success body from an error envelope.

use vstd::prelude::*;
use crate::error::{OpenAIError, WrappedError};

verus! {

/// A status in the 2xx class.
pub open spec fn is_success_spec(status: u16) -> bool {
    200 <= status <= 299
}

/// Whether `status` reports success.
pub fn is_success(status: u16) -> (r: bool)
    ensures
        r == is_success_spec(status),
{
    200 <= status && status <= 299
}

/// What the bytes of a response are to be parsed as.
#[derive(Debug, Clone, Copy, PartialEq, Eq, Structural)]
pub enum BodyKind {
    /// The object that the endpoint promises.
    Payload,
    /// The error envelope.
    Envelope,
}

pub open spec fn expected_body_spec(status: u16) -> BodyKind {
    if is_success_spec(status) {
        BodyKind::Payload
    } else {
        BodyKind::Envelope
    }
}

/// The parse that a response with this status calls for: the payload on
/// success, the error envelope on any other status.
pub fn expected_body(status: u16) -> (r: BodyKind)
    ensures
        r == expected_body_spec(status),
{
    if is_success(status) {
        BodyKind::Payload
    } else {
        BodyKind::Envelope
    }
}

/// A response body after the parse that its status called for.
pub enum ParsedBody<O> {
    Payload(Result<O, serde_json::Error>),
    Envelope(Result<WrappedError, serde_json::Error>),
}

impl<O> ParsedBody<O> {
    pub open spec fn kind(self) -> BodyKind {
        match self {
            ParsedBody::Payload(_) => BodyKind::Payload,
            ParsedBody::Envelope(_) => BodyKind::Envelope,
        }
    }

    /// The `type` discriminant of a well-formed envelope.
    pub open spec fn error_kind(self) -> Option<Seq<char>> {
        match self {
            ParsedBody::Envelope(Ok(w)) => Some(w.error.kind@),
            _ => None,
        }
    }
}

/// The result of a payload parse as the caller sees it: the value, or
/// `JSONDeserialize` with the parser's error.
pub open spec fn item_of_spec<O>(parsed: Result<O, serde_json::Error>) -> Result<O, OpenAIError> {
    match parsed {
        Ok(value) => Ok(value),
        Err(e) => Err(OpenAIError::JSONDeserialize(e)),
    }
}

/// The error that an envelope parse reports: `ApiError` with the envelope's
/// content, or `JSONDeserialize` with the parser's error.
pub open spec fn error_of_spec(parsed: Result<WrappedError, serde_json::Error>) -> OpenAIError {
    match parsed {
        Ok(w) => OpenAIError::ApiError(w.error),
        Err(e) => OpenAIError::JSONDeserialize(e),
    }
}

/// The result that a parsed body stands for.
pub open spec fn decoded<O>(parsed: ParsedBody<O>) -> Result<O, OpenAIError> {
    match parsed {
        ParsedBody::Payload(p) => item_of_spec(p),
        ParsedBody::Envelope(e) => Err(error_of_spec(e)),
    }
}

/// Turns a payload parse into the caller's result: the value, or
/// `JSONDeserialize` with the parser's error.
pub fn item_of<O>(parsed: Result<O, serde_json::Error>) -> (r: Result<O, OpenAIError>)
    ensures
        r == item_of_spec(parsed),
{
    match parsed {
        Ok(value) => Ok(value),
        Err(e) => Err(OpenAIError::JSONDeserialize(e)),
    }
}

/// Turns an envelope parse into the error it reports: `ApiError` with the
/// envelope's content, or `JSONDeserialize` where the envelope did not parse.
pub fn error_of(parsed: Result<WrappedError, serde_json::Error>) -> (r: OpenAIError)
    ensures
        r == error_of_spec(parsed),
{
    match parsed {
        Ok(w) => OpenAIError::ApiError(w.error),
        Err(e) => OpenAIError::JSONDeserialize(e),
    }
}

/// The result that a parsed body stands for: the payload, the error of the
/// envelope, or `JSONDeserialize` where the parse failed.
pub fn decode<O>(parsed: ParsedBody<O>) -> (r: Result<O, OpenAIError>)
    ensures
        r == decoded(parsed),
{
    match parsed {
        ParsedBody::Payload(p) => item_of(p),
        ParsedBody::Envelope(e) => Err(error_of(e)),
    }
}

/// Decodes one response, whose body was parsed as its status calls for: a
/// success status yields the parsed payload, any other status the error of
/// its envelope; a failed parse yields `JSONDeserialize` either way.
pub fn process_response<O>(status: u16, parsed: ParsedBody<O>) -> (r: Result<O, OpenAIError>)
    requires
        parsed.kind() == expected_body_spec(status),
    ensures
        r == decoded(parsed),
        is_success_spec(status) ==> (parsed matches ParsedBody::Payload(p) && r == item_of_spec(p)),
        !is_success_spec(status) ==> (parsed matches ParsedBody::Envelope(e) && r == Err::<
            O,
            OpenAIError,
        >(error_of_spec(e))),
{
    decode(parsed)
}

/// Decoding is a function of the status and the parsed bytes alone: two
/// responses that agree in both decode to the same result.
pub proof fn lemma_decode_is_pure<O>(
    status_a: u16,
    parsed_a: ParsedBody<O>,
    status_b: u16,
    parsed_b: ParsedBody<O>,
)
    requires
        status_a == status_b,
        parsed_a == parsed_b,
    ensures
        expected_body_spec(status_a) == expected_body_spec(status_b),
        decoded(parsed_a) == decoded(parsed_b),
{
}

} // verus!
