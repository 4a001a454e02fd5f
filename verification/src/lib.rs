//! Request execution core of an API client: request assembly with
//! authentication, response classification, the retry decisions of a
//! rate-limited call, and the event loop decisions of a streamed call.
//!
//! The library performs no I/O. A transport hands it what arrived (a status,
//! a parsed body, a stream event) and carries out what it answers.

pub mod client;
pub mod error;
pub mod policy;
pub mod request;
pub mod response;
pub mod retry;
pub mod stream;

pub use client::{Client, API_BASE, ORGANIZATION_HEADER};
pub use error::{ApiError, OpenAIError, WrappedError};
pub use policy::BackoffPolicy;
pub use request::{Body, Method, Request};
pub use response::{BodyKind, ParsedBody};
pub use retry::{Classification, Outcome, RetryExecutor};
pub use stream::{StreamBridge, StreamEvent, StreamStep};
