//! The attribute set of a server span.
use crate::headers::{header_entries, header_text, text_of};
use crate::request::{flavor_text, http_flavor, http_method_str, method_text, RequestInfo};
use vstd::prelude::*;
use vstd::string::StringSliceAdditionalSpecFns;
use vstd::utf8::encode_utf8;

verus! {

/// The fixed vocabulary of attribute keys that the middleware writes.
#[derive(Debug, Clone, Copy, PartialEq, Eq, Structural)]
pub enum AttrKey {
    HttpMethod,
    HttpFlavor,
    HttpUrl,
    NetHostName,
    HttpTarget,
    HttpUserAgent,
    HttpStatusCode,
}

pub open spec fn key_name(k: AttrKey) -> Seq<char> {
    match k {
        AttrKey::HttpMethod => "http.method"@,
        AttrKey::HttpFlavor => "http.flavor"@,
        AttrKey::HttpUrl => "http.url"@,
        AttrKey::NetHostName => "net.host.name"@,
        AttrKey::HttpTarget => "http.target"@,
        AttrKey::HttpUserAgent => "http.user_agent"@,
        AttrKey::HttpStatusCode => "http.status_code"@,
    }
}

impl AttrKey {
    /// The key as the semantic conventions spell it.
    pub fn name(&self) -> (r: &'static str)
        ensures
            r@ == key_name(*self),
    {
        match self {
            AttrKey::HttpMethod => "http.method",
            AttrKey::HttpFlavor => "http.flavor",
            AttrKey::HttpUrl => "http.url",
            AttrKey::NetHostName => "net.host.name",
            AttrKey::HttpTarget => "http.target",
            AttrKey::HttpUserAgent => "http.user_agent",
            AttrKey::HttpStatusCode => "http.status_code",
        }
    }
}

/// An attribute value: text or an integer.
#[derive(Debug, Clone, PartialEq, Eq)]
pub enum AttrValue {
    Text(String),
    Int(i64),
}

/// One entry of the attribute set.
#[derive(Debug, Clone, PartialEq, Eq)]
pub struct Attribute {
    pub key: AttrKey,
    pub value: AttrValue,
}

/// The model of an attribute value: text as its UTF-8 bytes.
pub enum AttrData {
    Text(Seq<u8>),
    Int(int),
}

pub open spec fn attr_view(a: Attribute) -> (AttrKey, AttrData) {
    (
        a.key,
        match a.value {
            AttrValue::Text(s) => AttrData::Text(encode_utf8(s@)),
            AttrValue::Int(n) => AttrData::Int(n as int),
        },
    )
}

pub open spec fn attrs_view(v: Seq<Attribute>) -> Seq<(AttrKey, AttrData)> {
    v.map_values(|a: Attribute| attr_view(a))
}

pub open spec fn text_attr(k: AttrKey, s: Seq<char>) -> (AttrKey, AttrData) {
    (k, AttrData::Text(encode_utf8(s)))
}

/// One entry for `k` when `v` is present, none otherwise.
pub open spec fn optional_attr(k: AttrKey, v: Option<Seq<u8>>) -> Seq<(AttrKey, AttrData)> {
    match v {
        Some(b) => seq![(k, AttrData::Text(b))],
        None => seq![],
    }
}

pub open spec fn opt_bytes(s: Option<String>) -> Option<Seq<u8>> {
    match s {
        Some(t) => Some(encode_utf8(t@)),
        None => None,
    }
}

/// The name of the user agent header.
pub open spec fn user_agent_name() -> Seq<u8> {
    "user-agent".spec_bytes()
}

/// The user agent that the headers carry, when present as text.
pub open spec fn user_agent_of(entries: Map<Seq<u8>, Seq<Seq<u8>>>) -> Option<Seq<u8>> {
    text_of(entries, user_agent_name())
}

/// The attribute set of a request, in its fixed order: method, flavor, URL, then
/// host name, target and user agent where each is present.
pub open spec fn request_attributes(
    req: RequestInfo,
    host_name: Option<String>,
    user_agent: Option<Seq<u8>>,
) -> Seq<(AttrKey, AttrData)> {
    seq![
        text_attr(AttrKey::HttpMethod, method_text(req.method)),
        text_attr(AttrKey::HttpFlavor, flavor_text(req.version)),
        text_attr(AttrKey::HttpUrl, req.url@),
    ] + optional_attr(AttrKey::NetHostName, opt_bytes(host_name)) + optional_attr(
        AttrKey::HttpTarget,
        opt_bytes(req.target),
    ) + optional_attr(AttrKey::HttpUserAgent, user_agent)
}

pub open spec fn has_key(attrs: Seq<(AttrKey, AttrData)>, k: AttrKey) -> bool {
    exists|i: int| 0 <= i < attrs.len() && (#[trigger] attrs[i]).0 == k
}

fn push_optional(attrs: &mut Vec<Attribute>, key: AttrKey, value: Option<String>)
    ensures
        attrs_view(final(attrs)@) == attrs_view(old(attrs)@) + optional_attr(key, opt_bytes(value)),
{
    match value {
        Some(s) => {
            attrs.push(Attribute { key, value: AttrValue::Text(s) });
        },
        None => {},
    }
    assert(attrs_view(attrs@) =~= attrs_view(old(attrs)@) + optional_attr(key, opt_bytes(value)));
}

/// Assembles the attribute set of the server span for a request; the user agent is
/// read from the request headers and the host name is the one resolved for this host.
pub fn span_attributes(req: &RequestInfo, headers: &http::HeaderMap, host_name: Option<String>) -> (r:
    Vec<Attribute>)
    ensures
        attrs_view(r@) == request_attributes(*req, host_name, user_agent_of(header_entries(*headers))),
{
    let mut attrs: Vec<Attribute> = Vec::new();
    attrs.push(Attribute { key: AttrKey::HttpMethod, value: AttrValue::Text(http_method_str(&req.method)) });
    attrs.push(Attribute { key: AttrKey::HttpFlavor, value: AttrValue::Text(http_flavor(req.version)) });
    attrs.push(Attribute { key: AttrKey::HttpUrl, value: AttrValue::Text(req.url.clone()) });
    assert(attrs_view(attrs@) =~= seq![
        text_attr(AttrKey::HttpMethod, method_text(req.method)),
        text_attr(AttrKey::HttpFlavor, flavor_text(req.version)),
        text_attr(AttrKey::HttpUrl, req.url@),
    ]);
    push_optional(&mut attrs, AttrKey::NetHostName, host_name);
    push_optional(&mut attrs, AttrKey::HttpTarget, req.target.clone());
    let user_agent = match header_text(headers, "user-agent") {
        Some(s) => Some(s.to_owned()),
        None => None,
    };
    push_optional(&mut attrs, AttrKey::HttpUserAgent, user_agent);
    attrs
}

/// The attribute set always holds method, flavor and URL, holds each optional
/// entry exactly when its source is present, and never a status code.
pub proof fn attributes_follow_sources(req: RequestInfo, host_name: Option<String>, user_agent: Option<Seq<u8>>)
    ensures
        has_key(request_attributes(req, host_name, user_agent), AttrKey::HttpMethod),
        has_key(request_attributes(req, host_name, user_agent), AttrKey::HttpFlavor),
        has_key(request_attributes(req, host_name, user_agent), AttrKey::HttpUrl),
        has_key(request_attributes(req, host_name, user_agent), AttrKey::NetHostName)
            <==> host_name is Some,
        has_key(request_attributes(req, host_name, user_agent), AttrKey::HttpTarget)
            <==> req.target is Some,
        has_key(request_attributes(req, host_name, user_agent), AttrKey::HttpUserAgent)
            <==> user_agent is Some,
        !has_key(request_attributes(req, host_name, user_agent), AttrKey::HttpStatusCode),
{
    let a = request_attributes(req, host_name, user_agent);
    let base = seq![
        text_attr(AttrKey::HttpMethod, method_text(req.method)),
        text_attr(AttrKey::HttpFlavor, flavor_text(req.version)),
        text_attr(AttrKey::HttpUrl, req.url@),
    ];
    let h = optional_attr(AttrKey::NetHostName, opt_bytes(host_name));
    let t = optional_attr(AttrKey::HttpTarget, opt_bytes(req.target));
    let u = optional_attr(AttrKey::HttpUserAgent, user_agent);
    assert(a == base + h + t + u);
    let nh = h.len() as int;
    let nt = t.len() as int;
    assert(a[0].0 == AttrKey::HttpMethod);
    assert(a[1].0 == AttrKey::HttpFlavor);
    assert(a[2].0 == AttrKey::HttpUrl);
    assert forall|i: int| 0 <= i < a.len() implies {
        let k = (#[trigger] a[i]).0;
        &&& (k == AttrKey::NetHostName ==> host_name is Some)
        &&& (k == AttrKey::HttpTarget ==> req.target is Some)
        &&& (k == AttrKey::HttpUserAgent ==> user_agent is Some)
        &&& k != AttrKey::HttpStatusCode
    } by {
        if i < 3 {
            assert(a[i] == base[i]);
        } else if i < 3 + nh {
            assert(a[i] == h[i - 3]);
        } else if i < 3 + nh + nt {
            assert(a[i] == t[i - 3 - nh]);
        } else {
            assert(a[i] == u[i - 3 - nh - nt]);
        }
    }
    if host_name is Some {
        assert(a[3].0 == AttrKey::NetHostName);
    }
    if req.target is Some {
        assert(a[3 + nh].0 == AttrKey::HttpTarget);
    }
    if user_agent is Some {
        assert(a[3 + nh + nt].0 == AttrKey::HttpUserAgent);
    }
}

} // verus!
