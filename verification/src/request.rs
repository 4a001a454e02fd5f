//! A request as plain data: what the transport needs to put on the wire.

use vstd::prelude::*;

verus! {

/// The HTTP method of a request.
#[derive(Debug, Clone, Copy, PartialEq, Eq, Structural)]
pub enum Method {
    Get,
    Post,
    Delete,
}

/// What a request carries as its body.
#[derive(Debug, Clone)]
pub enum Body {
    /// No body.
    Empty,
    /// A JSON document, sent with a JSON content type.
    Json(Vec<u8>),
    /// A multipart form, which the transport holds and streams: its bytes
    /// can be read once only.
    Form,
}

/// An assembled request.
#[derive(Debug, Clone)]
pub struct Request {
    pub method: Method,
    /// The base URL followed by the path.
    pub url: String,
    /// The value of the `Authorization` header.
    pub authorization: String,
    /// Further headers, as name and value.
    pub headers: Vec<(String, String)>,
    /// Query parameters, as key and value, in the order given.
    pub query: Vec<(String, String)>,
    pub body: Body,
    /// Whether the response is an event stream.
    pub streaming: bool,
}

impl Request {
    /// A request can be sent again where its body can be read again and the
    /// response is not a stream.
    pub open spec fn duplicable_spec(self) -> bool {
        !(self.body is Form) && !self.streaming
    }

    /// The content type that the body is sent with, where it has one of its
    /// own: a form brings its own with its boundary.
    pub open spec fn content_type_spec(self) -> Option<Seq<char>> {
        match self.body {
            Body::Json(_) => Some("application/json"@),
            _ => None,
        }
    }

    /// The content type to send the body with: JSON for a JSON document.
    pub fn content_type(&self) -> (r: Option<&'static str>)
        ensures
            r is Some == self.content_type_spec() is Some,
            r matches Some(t) ==> self.content_type_spec() == Some(t@),
    {
        match self.body {
            Body::Json(_) => Some("application/json"),
            _ => None,
        }
    }

    /// Whether the request can be sent a second time.
    pub fn is_duplicable(&self) -> (r: bool)
        ensures
            r == self.duplicable_spec(),
    {
        let body_repeats = match self.body {
            Body::Form => false,
            _ => true,
        };
        body_repeats && !self.streaming
    }
}

/// A character that may stand in a header value: a tab, or anything from the
/// space upwards but the delete character.
pub open spec fn header_char_ok(c: char) -> bool {
    c == '\t' || (c >= ' ' && c != '\x7f')
}

/// A string that can be a header value.
pub open spec fn header_value_ok(s: Seq<char>) -> bool {
    forall|i: int| 0 <= i < s.len() ==> header_char_ok(#[trigger] s[i])
}

/// Calls `reqwest::header::HeaderValue::from_str` and reports whether it
/// accepted the string. It accepts exactly the strings whose bytes are each a
/// tab, or at least 32 and not 127; a character beyond ASCII is encoded in
/// bytes of 128 and more, so the test reads the same over characters.
#[verifier::external_body]
pub(crate) fn is_header_value(s: &str) -> (r: bool)
    ensures
        r == header_value_ok(s@),
{
    reqwest::header::HeaderValue::from_str(s).is_ok()
}

} // verus!
