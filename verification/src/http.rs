//! HTTP requests and replies as plain values.
//!
//! The library builds requests and reads replies; it never sends anything.
//! [`HttpClient`] holds what every request of one client has in common and
//! turns a path into the request to send.

use vstd::prelude::*;
use crate::headers::Headers;
use crate::json::{json_document, json_error_text};
use crate::text::{begins_with, joined, opt_view, starts_with};

verus! {

/// HTTP method.
#[derive(Debug, Clone, Copy, PartialEq, Eq, Structural)]
pub enum HttpMethod {
    Get,
    Post,
    Put,
    Delete,
    Patch,
}

impl HttpMethod {
    /// The method's name as it is written on the wire.
    pub open spec fn name_spec(self) -> Seq<char> {
        match self {
            HttpMethod::Get => "GET"@,
            HttpMethod::Post => "POST"@,
            HttpMethod::Put => "PUT"@,
            HttpMethod::Delete => "DELETE"@,
            HttpMethod::Patch => "PATCH"@,
        }
    }

    /// The method's name as it is written on the wire.
    pub fn name(&self) -> (r: &'static str)
        ensures
            r@ == self.name_spec(),
    {
        match self {
            HttpMethod::Get => "GET",
            HttpMethod::Post => "POST",
            HttpMethod::Put => "PUT",
            HttpMethod::Delete => "DELETE",
            HttpMethod::Patch => "PATCH",
        }
    }
}

/// The timeout of a request for which none was chosen, in milliseconds.
pub open spec fn default_timeout_spec() -> u32 {
    30000
}

/// The timeout of a request for which none was chosen, in milliseconds.
pub fn default_timeout() -> (ms: u32)
    ensures
        ms == default_timeout_spec(),
{
    30000
}

/// A request to be sent by the host.
#[derive(Debug, Clone)]
pub struct HttpRequest {
    pub method: HttpMethod,
    pub url: String,
    pub headers: Headers,
    pub body: Option<String>,
    pub timeout_ms: u32,
}

/// What a request says.
pub ghost struct HttpRequestView {
    pub method: HttpMethod,
    pub url: Seq<char>,
    pub headers: Map<Seq<char>, Seq<char>>,
    pub body: Option<Seq<char>>,
    pub timeout_ms: u32,
}

impl View for HttpRequest {
    type V = HttpRequestView;

    open spec fn view(&self) -> HttpRequestView {
        HttpRequestView {
            method: self.method,
            url: self.url@,
            headers: self.headers@,
            body: opt_view(self.body),
            timeout_ms: self.timeout_ms,
        }
    }
}

/// A reply as the host hands it back.
#[derive(Debug, Clone)]
pub struct HttpResponse {
    pub status: u16,
    pub headers: Headers,
    pub body: String,
    pub error: Option<String>,
}

/// What a reply says.
pub ghost struct HttpResponseView {
    pub status: u16,
    pub headers: Map<Seq<char>, Seq<char>>,
    pub body: Seq<char>,
    pub error: Option<Seq<char>>,
}

impl HttpResponseView {
    /// The transport succeeded: no transport error is marked and the status is
    /// in the range from 200 up to, not including, 300.
    pub open spec fn is_success(self) -> bool {
        self.error is None && 200 <= self.status < 300
    }

    /// What a failed reply has to say: the transport error where one is
    /// marked, else the body.
    pub open spec fn failure_text(self) -> Seq<char> {
        match self.error {
            Some(e) => e,
            None => self.body,
        }
    }
}

/// The reply that stands for a host that handed back no data.
pub open spec fn no_reply_view() -> HttpResponseView {
    HttpResponseView {
        status: 0,
        headers: Map::empty(),
        body: Seq::empty(),
        error: Some("Host function returned null response"@),
    }
}

/// The reply that stands for data from the host that is no reply.
pub open spec fn unreadable_view(detail: Seq<char>) -> HttpResponseView {
    HttpResponseView {
        status: 0,
        headers: Map::empty(),
        body: Seq::empty(),
        error: Some("Failed to parse response: "@ + detail),
    }
}

impl View for HttpResponse {
    type V = HttpResponseView;

    open spec fn view(&self) -> HttpResponseView {
        HttpResponseView {
            status: self.status,
            headers: self.headers@,
            body: self.body@,
            error: opt_view(self.error),
        }
    }
}

impl HttpResponse {
    /// Whether the transport succeeded.
    pub fn is_success(&self) -> (r: bool)
        ensures
            r == self@.is_success(),
    {
        self.error.is_none() && 200 <= self.status && self.status < 300
    }

    /// What a failed reply has to say: the transport error where one is
    /// marked, else the body.
    pub fn failure_text(&self) -> (r: String)
        ensures
            r@ == self@.failure_text(),
    {
        match &self.error {
            Some(e) => e.clone(),
            None => self.body.clone(),
        }
    }

    /// The reply that stands for a host that handed back no data.
    pub fn no_reply() -> (r: HttpResponse)
        ensures
            r@ == no_reply_view(),
            !r@.is_success(),
    {
        HttpResponse {
            status: 0,
            headers: Headers::new(),
            body: String::new(),
            error: Some("Host function returned null response".to_owned()),
        }
    }

    /// The reply that stands for data from the host that is no reply;
    /// `detail` says why it is none.
    pub fn unreadable(detail: &str) -> (r: HttpResponse)
        ensures
            r@ == unreadable_view(detail@),
            !r@.is_success(),
    {
        HttpResponse {
            status: 0,
            headers: Headers::new(),
            body: String::new(),
            error: Some(joined("Failed to parse response: ", detail)),
        }
    }

    /// Parses the body as JSON.  A body that is no JSON document gives the
    /// parser's message behind the words `JSON parse error: `.
    pub fn json(&self) -> (r: Result<serde_json::Value, String>)
        ensures
            match r {
                Ok(value) => json_document(self.body@) == Ok::<_, serde_json::Error>(value),
                Err(message) => json_document(self.body@) is Err && message@
                    == "JSON parse error: "@ + json_error_text(json_document(self.body@)->Err_0),
            },
    {
        match crate::json::parse(self.body.as_str()) {
            Ok(value) => Ok(value),
            Err(e) => {
                let detail = crate::json::error_text(&e);
                Err(joined("JSON parse error: ", detail.as_str()))
            },
        }
    }
}

/// The address that a path stands for: the path itself where it is already
/// an absolute `http://` or `https://` address, else the path behind `base`.
pub open spec fn url_for(base: Seq<char>, path: Seq<char>) -> Seq<char> {
    if begins_with(path, "http://"@) || begins_with(path, "https://"@) {
        path
    } else {
        base + path
    }
}

/// `headers` with `name` set to `value` unless `name` is already there.
pub open spec fn with_default(
    headers: Map<Seq<char>, Seq<char>>,
    name: Seq<char>,
    value: Seq<char>,
) -> Map<Seq<char>, Seq<char>> {
    if headers.contains_key(name) {
        headers
    } else {
        headers.insert(name, value)
    }
}

/// What all requests of one client have in common.
pub struct HttpClient {
    base_url: String,
    default_headers: Headers,
    timeout_ms: u32,
}

/// What an [`HttpClient`] holds.
pub ghost struct HttpClientView {
    pub base_url: Seq<char>,
    pub default_headers: Map<Seq<char>, Seq<char>>,
    pub timeout_ms: u32,
}

impl HttpClientView {
    /// The client's own headers with `extra` laid over them.
    pub open spec fn merged(self, extra: Option<Map<Seq<char>, Seq<char>>>) -> Map<
        Seq<char>,
        Seq<char>,
    > {
        match extra {
            Some(e) => self.default_headers.union_prefer_right(e),
            None => self.default_headers,
        }
    }

    /// The GET request for `path`.
    pub open spec fn get(
        self,
        path: Seq<char>,
        extra: Option<Map<Seq<char>, Seq<char>>>,
    ) -> HttpRequestView {
        HttpRequestView {
            method: HttpMethod::Get,
            url: url_for(self.base_url, path),
            headers: self.merged(extra),
            body: None,
            timeout_ms: self.timeout_ms,
        }
    }

    /// The POST request for `path`.
    pub open spec fn post(
        self,
        path: Seq<char>,
        body: Option<Seq<char>>,
        extra: Option<Map<Seq<char>, Seq<char>>>,
    ) -> HttpRequestView {
        HttpRequestView {
            method: HttpMethod::Post,
            url: url_for(self.base_url, path),
            headers: self.merged(extra),
            body: body,
            timeout_ms: self.timeout_ms,
        }
    }

    /// The POST request for `path` that carries the JSON text `body`.  It is
    /// marked as JSON unless the headers already name a content type.
    pub open spec fn post_json(
        self,
        path: Seq<char>,
        body: Seq<char>,
        extra: Option<Map<Seq<char>, Seq<char>>>,
    ) -> HttpRequestView {
        HttpRequestView {
            method: HttpMethod::Post,
            url: url_for(self.base_url, path),
            headers: with_default(self.merged(extra), "Content-Type"@, "application/json"@),
            body: Some(body),
            timeout_ms: self.timeout_ms,
        }
    }
}

/// The view of optional headers.
pub open spec fn opt_headers(headers: Option<Headers>) -> Option<Map<Seq<char>, Seq<char>>> {
    match headers {
        Some(h) => Some(h@),
        None => None,
    }
}

impl View for HttpClient {
    type V = HttpClientView;

    closed spec fn view(&self) -> HttpClientView {
        HttpClientView {
            base_url: self.base_url@,
            default_headers: self.default_headers@,
            timeout_ms: self.timeout_ms,
        }
    }
}

impl HttpClient {
    /// A client for `base_url`, with no headers of its own and the default
    /// timeout.
    pub fn new(base_url: &str) -> (r: HttpClient)
        ensures
            r@ == (HttpClientView {
                base_url: base_url@,
                default_headers: Map::empty(),
                timeout_ms: default_timeout_spec(),
            }),
    {
        HttpClient {
            base_url: base_url.to_owned(),
            default_headers: Headers::new(),
            timeout_ms: default_timeout(),
        }
    }

    /// The client with one more header of its own.
    pub fn header(self, key: &str, value: &str) -> (r: HttpClient)
        ensures
            r@ == (HttpClientView {
                default_headers: self@.default_headers.insert(key@, value@),
                ..self@
            }),
    {
        let mut r = self;
        r.default_headers.insert(key, value);
        r
    }

    /// The client with another timeout.
    pub fn timeout(self, ms: u32) -> (r: HttpClient)
        ensures
            r@ == (HttpClientView { timeout_ms: ms, ..self@ }),
    {
        let mut r = self;
        r.timeout_ms = ms;
        r
    }

    /// Sets one of the client's own headers.
    pub fn set_header(&mut self, key: &str, value: &str)
        ensures
            final(self)@ == (HttpClientView {
                default_headers: old(self)@.default_headers.insert(key@, value@),
                ..old(self)@
            }),
    {
        self.default_headers.insert(key, value);
    }

    /// The address that `path` stands for with this client.
    pub fn build_url(&self, path: &str) -> (url: String)
        ensures
            url@ == url_for(self@.base_url, path@),
    {
        if starts_with(path, "http://") || starts_with(path, "https://") {
            path.to_owned()
        } else {
            joined(self.base_url.as_str(), path)
        }
    }

    /// The client's own headers with `extra` laid over them.
    pub fn merge_headers(&self, extra: Option<Headers>) -> (headers: Headers)
        ensures
            headers@ == self@.merged(opt_headers(extra)),
    {
        let mut headers = self.default_headers.clone();
        if let Some(extra) = extra {
            headers.extend(&extra);
        }
        headers
    }

    /// The GET request for `path`.
    pub fn get(&self, path: &str, headers: Option<Headers>) -> (request: HttpRequest)
        ensures
            request@ == self@.get(path@, opt_headers(headers)),
    {
        HttpRequest {
            method: HttpMethod::Get,
            url: self.build_url(path),
            headers: self.merge_headers(headers),
            body: None,
            timeout_ms: self.timeout_ms,
        }
    }

    /// The POST request for `path`.
    pub fn post(
        &self,
        path: &str,
        body: Option<String>,
        headers: Option<Headers>,
    ) -> (request: HttpRequest)
        ensures
            request@ == self@.post(path@, opt_view(body), opt_headers(headers)),
    {
        HttpRequest {
            method: HttpMethod::Post,
            url: self.build_url(path),
            headers: self.merge_headers(headers),
            body: body,
            timeout_ms: self.timeout_ms,
        }
    }

    /// The POST request for `path` that carries the JSON text `body`.
    pub fn post_json(
        &self,
        path: &str,
        body: &str,
        headers: Option<Headers>,
    ) -> (request: HttpRequest)
        ensures
            request@ == self@.post_json(path@, body@, opt_headers(headers)),
    {
        let mut h = self.merge_headers(headers);
        if !h.contains_key("Content-Type") {
            h.insert("Content-Type", "application/json");
        }
        HttpRequest {
            method: HttpMethod::Post,
            url: self.build_url(path),
            headers: h,
            body: Some(body.to_owned()),
            timeout_ms: self.timeout_ms,
        }
    }
}

} // verus!
