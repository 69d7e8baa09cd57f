//! What the middleware reads of a request, as plain values.
use vstd::prelude::*;

verus! {

/// An HTTP request method.
#[derive(Debug, Clone, PartialEq, Eq)]
pub enum HttpMethod {
    Options,
    Get,
    Post,
    Put,
    Delete,
    Head,
    Trace,
    Connect,
    Patch,
    /// Any other method, by its own name.
    Extension(String),
}

/// An HTTP protocol version.
#[derive(Debug, Clone, Copy, PartialEq, Eq, Structural)]
pub enum HttpVersion {
    Http09,
    Http10,
    Http11,
    Http2,
    Http3,
}

/// The canonical text of a method.
pub open spec fn method_text(m: HttpMethod) -> Seq<char> {
    match m {
        HttpMethod::Options => "OPTIONS"@,
        HttpMethod::Get => "GET"@,
        HttpMethod::Post => "POST"@,
        HttpMethod::Put => "PUT"@,
        HttpMethod::Delete => "DELETE"@,
        HttpMethod::Head => "HEAD"@,
        HttpMethod::Trace => "TRACE"@,
        HttpMethod::Connect => "CONNECT"@,
        HttpMethod::Patch => "PATCH"@,
        HttpMethod::Extension(name) => name@,
    }
}

/// The dotted text of a protocol version.
pub open spec fn flavor_text(v: HttpVersion) -> Seq<char> {
    match v {
        HttpVersion::Http09 => "0.9"@,
        HttpVersion::Http10 => "1.0"@,
        HttpVersion::Http11 => "1.1"@,
        HttpVersion::Http2 => "2.0"@,
        HttpVersion::Http3 => "3.0"@,
    }
}

/// The method as the `http.method` attribute writes it.
pub fn http_method_str(method: &HttpMethod) -> (r: String)
    ensures
        r@ == method_text(*method),
{
    match method {
        HttpMethod::Options => "OPTIONS".to_owned(),
        HttpMethod::Get => "GET".to_owned(),
        HttpMethod::Post => "POST".to_owned(),
        HttpMethod::Put => "PUT".to_owned(),
        HttpMethod::Delete => "DELETE".to_owned(),
        HttpMethod::Head => "HEAD".to_owned(),
        HttpMethod::Trace => "TRACE".to_owned(),
        HttpMethod::Connect => "CONNECT".to_owned(),
        HttpMethod::Patch => "PATCH".to_owned(),
        HttpMethod::Extension(name) => name.clone(),
    }
}

/// The protocol version as the `http.flavor` attribute writes it.
pub fn http_flavor(version: HttpVersion) -> (r: String)
    ensures
        r@ == flavor_text(version),
{
    match version {
        HttpVersion::Http09 => "0.9".to_owned(),
        HttpVersion::Http10 => "1.0".to_owned(),
        HttpVersion::Http11 => "1.1".to_owned(),
        HttpVersion::Http2 => "2.0".to_owned(),
        HttpVersion::Http3 => "3.0".to_owned(),
    }
}

/// What the span builder reads of a request besides its headers.
#[derive(Debug, Clone)]
pub struct RequestInfo {
    pub method: HttpMethod,
    pub version: HttpVersion,
    /// The full URI as text.
    pub url: String,
    /// The URI's path.
    pub path: String,
    /// The URI's path and query, when the URI has one.
    pub target: Option<String>,
}

} // verus!
