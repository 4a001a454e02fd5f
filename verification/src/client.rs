//! The client's configuration and the requests it assembles.

use vstd::prelude::*;
use vstd::string::StringExecFns;
use crate::error::OpenAIError;
use crate::request::{header_value_ok, is_header_value, Body, Method, Request};
use crate::policy::BackoffPolicy;

verus! {

/// Default v1 API base url
pub const API_BASE: &'static str = "https://api.openai.com/v1";

/// Name for organization header
pub const ORGANIZATION_HEADER: &'static str = "OpenAI-Organization";

/// Client is a container for api key, base url, organization id, and backoff
/// configuration used to make API calls.
#[derive(Debug, Clone)]
pub struct Client {
    api_key: String,
    api_base: String,
    org_id: String,
    backoff: BackoffPolicy,
}

/// The value of the authorization header for a key.
pub open spec fn bearer(api_key: Seq<char>) -> Seq<char> {
    "Bearer "@ + api_key
}

impl Client {
    pub closed spec fn spec_api_key(&self) -> Seq<char> {
        self.api_key@
    }

    pub closed spec fn spec_api_base(&self) -> Seq<char> {
        self.api_base@
    }

    pub closed spec fn spec_org_id(&self) -> Seq<char> {
        self.org_id@
    }

    pub closed spec fn spec_backoff(&self) -> BackoffPolicy {
        self.backoff
    }

    /// The headers that the configuration adds to every request.
    pub open spec fn headers_spec(&self) -> Seq<(Seq<char>, Seq<char>)> {
        if self.spec_org_id().len() == 0 {
            seq![]
        } else {
            seq![(ORGANIZATION_HEADER@, self.spec_org_id())]
        }
    }

    /// The configuration can be put into a request.
    pub open spec fn valid(&self) -> bool {
        header_value_ok(self.spec_org_id())
    }

    /// Create client with default [API_BASE] url and the given default API
    /// key, which is what the environment holds under `OPENAI_API_KEY`; the
    /// key is empty where the environment holds none.
    pub fn new(env_api_key: Option<String>) -> (r: Self)
        ensures
            r.spec_api_base() == API_BASE@,
            r.spec_org_id() == Seq::<char>::empty(),
            r.spec_backoff().is_standard(),
            r.spec_api_key() == (match env_api_key {
                Some(key) => key@,
                None => Seq::<char>::empty(),
            }),
    {
        let api_key = match env_api_key {
            Some(key) => key,
            None => String::new(),
        };
        Client {
            api_base: API_BASE.to_owned(),
            api_key,
            org_id: String::new(),
            backoff: BackoffPolicy::default(),
        }
    }

    /// To use a different API key different from default OPENAI_API_KEY env var
    pub fn with_api_key(self, api_key: &str) -> (r: Self)
        ensures
            r.spec_api_key() == api_key@,
            r.spec_api_base() == self.spec_api_base(),
            r.spec_org_id() == self.spec_org_id(),
            r.spec_backoff() == self.spec_backoff(),
    {
        let mut client = self;
        client.api_key = api_key.to_owned();
        client
    }

    /// To use a different organization id other than default
    pub fn with_org_id(self, org_id: &str) -> (r: Self)
        ensures
            r.spec_org_id() == org_id@,
            r.spec_api_base() == self.spec_api_base(),
            r.spec_api_key() == self.spec_api_key(),
            r.spec_backoff() == self.spec_backoff(),
    {
        let mut client = self;
        client.org_id = org_id.to_owned();
        client
    }

    /// To use a API base url different from default [API_BASE]
    pub fn with_api_base(self, api_base: &str) -> (r: Self)
        ensures
            r.spec_api_base() == api_base@,
            r.spec_api_key() == self.spec_api_key(),
            r.spec_org_id() == self.spec_org_id(),
            r.spec_backoff() == self.spec_backoff(),
    {
        let mut client = self;
        client.api_base = api_base.to_owned();
        client
    }

    /// Exponential backoff for retrying rate limited requests. Form
    /// submissions are not retried.
    pub fn with_backoff(self, backoff: BackoffPolicy) -> (r: Self)
        ensures
            r.spec_backoff() == backoff,
            r.spec_api_base() == self.spec_api_base(),
            r.spec_api_key() == self.spec_api_key(),
            r.spec_org_id() == self.spec_org_id(),
    {
        let mut client = self;
        client.backoff = backoff;
        client
    }

    pub fn api_base(&self) -> (r: &str)
        ensures
            r@ == self.spec_api_base(),
    {
        self.api_base.as_str()
    }

    pub fn api_key(&self) -> (r: &str)
        ensures
            r@ == self.spec_api_key(),
    {
        self.api_key.as_str()
    }

    pub fn org_id(&self) -> (r: &str)
        ensures
            r@ == self.spec_org_id(),
    {
        self.org_id.as_str()
    }

    /// The backoff policy under which rate limited requests are retried.
    pub fn backoff_policy(&self) -> (r: &BackoffPolicy)
        ensures
            *r == self.spec_backoff(),
    {
        &self.backoff
    }

    /// The headers that go on every request: the organization header where
    /// an organization id is configured, and no other. An id that cannot be
    /// a header value is an `ConfigError`.
    pub fn headers(&self) -> (r: Result<Vec<(String, String)>, OpenAIError>)
        ensures
            self.valid() <==> r is Ok,
            r matches Ok(h) ==> header_views(h@) == self.headers_spec(),
            r matches Err(e) ==> e is ConfigError,
    {
        let mut headers: Vec<(String, String)> = Vec::new();
        if !is_header_value(self.org_id.as_str()) {
            return Err(OpenAIError::ConfigError("organization id is not a header value".to_owned()));
        }
        if !self.org_id.as_str().is_empty() {
            headers.push((ORGANIZATION_HEADER.to_owned(), self.org_id.clone()));
        }
        proof {
            assert(header_views(headers@) =~= self.headers_spec());
        }
        Ok(headers)
    }

    /// What every request of this client has in common, with the parts that
    /// differ by call.
    pub open spec fn request_matches(
        &self,
        request: Request,
        method: Method,
        path: Seq<char>,
        streaming: bool,
    ) -> bool {
        &&& request.method == method
        &&& request.url@ == self.spec_api_base() + path
        &&& request.authorization@ == bearer(self.spec_api_key())
        &&& header_views(request.headers@) == self.headers_spec()
        &&& request.streaming == streaming
    }

    /// Assembles a request to `{api_base}{path}` with the bearer token and
    /// the configured headers.
    pub fn build(
        &self,
        method: Method,
        path: &str,
        query: Vec<(String, String)>,
        body: Body,
        streaming: bool,
    ) -> (r: Result<Request, OpenAIError>)
        ensures
            self.valid() <==> r is Ok,
            r matches Ok(request) ==> {
                &&& self.request_matches(request, method, path@, streaming)
                &&& request.query == query
                &&& request.body == body
            },
            r matches Err(e) ==> e is ConfigError,
    {
        let headers = match self.headers() {
            Ok(headers) => headers,
            Err(e) => {
                return Err(e);
            },
        };
        let url = self.api_base.clone().concat(path);
        let authorization = "Bearer ".to_owned().concat(self.api_key.as_str());
        Ok(Request { method, url, authorization, headers, query, body, streaming })
    }

    /// Make a GET request to {path}
    pub fn get(&self, path: &str) -> (r: Result<Request, OpenAIError>)
        ensures
            self.valid() <==> r is Ok,
            r matches Ok(request) ==> {
                &&& self.request_matches(request, Method::Get, path@, false)
                &&& request.query@.len() == 0
                &&& request.body is Empty
                &&& request.duplicable_spec()
            },
            r matches Err(e) ==> e is ConfigError,
    {
        self.build(Method::Get, path, Vec::new(), Body::Empty, false)
    }

    /// Make a DELETE request to {path}
    pub fn delete(&self, path: &str) -> (r: Result<Request, OpenAIError>)
        ensures
            self.valid() <==> r is Ok,
            r matches Ok(request) ==> {
                &&& self.request_matches(request, Method::Delete, path@, false)
                &&& request.query@.len() == 0
                &&& request.body is Empty
                &&& request.duplicable_spec()
            },
            r matches Err(e) ==> e is ConfigError,
    {
        self.build(Method::Delete, path, Vec::new(), Body::Empty, false)
    }

    /// Make a POST request to {path} with a JSON document as its body
    pub fn post(&self, path: &str, json: Vec<u8>) -> (r: Result<Request, OpenAIError>)
        ensures
            self.valid() <==> r is Ok,
            r matches Ok(request) ==> {
                &&& self.request_matches(request, Method::Post, path@, false)
                &&& request.query@.len() == 0
                &&& request.body == Body::Json(json)
                &&& request.duplicable_spec()
            },
            r matches Err(e) ==> e is ConfigError,
    {
        self.build(Method::Post, path, Vec::new(), Body::Json(json), false)
    }

    /// POST a form at {path}; the transport holds the form itself
    pub fn post_form(&self, path: &str) -> (r: Result<Request, OpenAIError>)
        ensures
            self.valid() <==> r is Ok,
            r matches Ok(request) ==> {
                &&& self.request_matches(request, Method::Post, path@, false)
                &&& request.query@.len() == 0
                &&& request.body is Form
                &&& !request.duplicable_spec()
            },
            r matches Err(e) ==> e is ConfigError,
    {
        self.build(Method::Post, path, Vec::new(), Body::Form, false)
    }

    /// Make HTTP POST request to receive SSE
    pub fn post_stream(&self, path: &str, json: Vec<u8>) -> (r: Result<Request, OpenAIError>)
        ensures
            self.valid() <==> r is Ok,
            r matches Ok(request) ==> {
                &&& self.request_matches(request, Method::Post, path@, true)
                &&& request.query@.len() == 0
                &&& request.body == Body::Json(json)
                &&& !request.duplicable_spec()
            },
            r matches Err(e) ==> e is ConfigError,
    {
        self.build(Method::Post, path, Vec::new(), Body::Json(json), true)
    }

    /// Make HTTP GET request to receive SSE
    pub fn get_stream(&self, path: &str, query: Vec<(String, String)>) -> (r: Result<
        Request,
        OpenAIError,
    >)
        ensures
            self.valid() <==> r is Ok,
            r matches Ok(request) ==> {
                &&& self.request_matches(request, Method::Get, path@, true)
                &&& request.query == query
                &&& request.body is Empty
                &&& !request.duplicable_spec()
            },
            r matches Err(e) ==> e is ConfigError,
    {
        self.build(Method::Get, path, query, Body::Empty, true)
    }
}

/// Headers as pairs of character sequences.
pub open spec fn header_views(headers: Seq<(String, String)>) -> Seq<(Seq<char>, Seq<char>)> {
    headers.map_values(|h: (String, String)| (h.0@, h.1@))
}

} // verus!
