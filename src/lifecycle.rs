//! The server span of one request: its plan (name, parent, attributes) and the
//! decisions taken when the downstream call completes.
use crate::attributes::{span_attributes, attrs_view, request_attributes, user_agent_of, Attribute};
use crate::headers::header_entries;
use crate::request::RequestInfo;
use vstd::prelude::*;

verus! {

/// The trace identity extracted from the inbound headers; zero ids mean that
/// nothing valid was found.
#[derive(Debug, Clone, Copy, PartialEq, Eq, Structural)]
pub struct ParentContext {
    pub trace_id: u128,
    pub span_id: u64,
}

pub open spec fn is_valid_context(cx: ParentContext) -> bool {
    cx.trace_id != 0 && cx.span_id != 0
}

/// Where a new span hangs in its trace.
#[derive(Debug, Clone, Copy, PartialEq, Eq, Structural)]
pub enum SpanParent {
    /// The span starts a new trace.
    Root,
    /// The span is a child of the remote span that the request came from.
    Remote { trace_id: u128, span_id: u64 },
}

pub open spec fn parent_of(cx: ParentContext) -> SpanParent {
    if is_valid_context(cx) {
        SpanParent::Remote { trace_id: cx.trace_id, span_id: cx.span_id }
    } else {
        SpanParent::Root
    }
}

/// The parent linkage of the server span: the extracted context when it is valid,
/// a new trace otherwise.
pub fn span_parent(cx: &ParentContext) -> (r: SpanParent)
    ensures
        r == parent_of(*cx),
{
    if cx.trace_id != 0 && cx.span_id != 0 {
        SpanParent::Remote { trace_id: cx.trace_id, span_id: cx.span_id }
    } else {
        SpanParent::Root
    }
}

/// Everything needed to start the server span of a request (its kind is always server).
#[derive(Debug, Clone)]
pub struct SpanPlan {
    /// The request path: query strings stay out of span names.
    pub name: String,
    pub parent: SpanParent,
    pub attributes: Vec<Attribute>,
}

/// Plans the server span of a request from its metadata, its headers, the host
/// name and the context extracted from the headers.
pub fn plan_span(
    req: &RequestInfo,
    headers: &http::HeaderMap,
    host_name: Option<String>,
    cx: &ParentContext,
) -> (r: SpanPlan)
    ensures
        r.name@ == req.path@,
        r.parent == parent_of(*cx),
        attrs_view(r.attributes@) == request_attributes(
            *req,
            host_name,
            user_agent_of(header_entries(*headers)),
        ),
{
    SpanPlan {
        name: req.path.clone(),
        parent: span_parent(cx),
        attributes: span_attributes(req, headers, host_name),
    }
}

/// A span status as the middleware sets it.
#[derive(Debug, Clone, PartialEq, Eq)]
pub enum SpanStatus {
    Unset,
    Error(String),
}

/// What to do to the span, and to the response, when the downstream call completes.
/// The span is ended after these steps, on every completion.
#[derive(Debug, Clone, PartialEq, Eq)]
pub struct Completion {
    /// Inject the propagation context into the response headers.
    pub inject: bool,
    /// The `http.status_code` attribute to record.
    pub status_code: Option<i64>,
    pub status: SpanStatus,
    /// The description of an exception event to record.
    pub exception: Option<String>,
}

/// The model of a completion.
pub struct CompletionView {
    pub inject: bool,
    pub status_code: Option<int>,
    pub error: Option<Seq<char>>,
    pub exception: Option<Seq<char>>,
}

pub open spec fn completion_view(c: Completion) -> CompletionView {
    CompletionView {
        inject: c.inject,
        status_code: match c.status_code {
            Some(n) => Some(n as int),
            None => None,
        },
        error: match c.status {
            SpanStatus::Unset => None,
            SpanStatus::Error(d) => Some(d@),
        },
        exception: match c.exception {
            Some(d) => Some(d@),
            None => None,
        },
    }
}

pub open spec fn is_server_error(status: u16) -> bool {
    500 <= status < 600
}

/// What a response with `status` does to the span, given the reason phrase of that
/// status: the status code is recorded, a server error marks the span with the
/// reason phrase (empty when there is none), and the context is injected.
pub open spec fn response_completion(status: u16, reason: Option<Seq<char>>) -> CompletionView {
    CompletionView {
        inject: true,
        status_code: Some(status as int),
        error: if is_server_error(status) {
            Some(
                match reason {
                    Some(s) => s,
                    None => seq![],
                },
            )
        } else {
            None
        },
        exception: None,
    }
}

/// What a downstream failure does to the span: it is marked as an error and an
/// exception event records the failure.
pub open spec fn failure_completion(description: Seq<char>) -> CompletionView {
    CompletionView {
        inject: false,
        status_code: None,
        error: Some(description),
        exception: Some(description),
    }
}

pub open spec fn cancel_description() -> Seq<char> {
    "request cancelled"@
}

/// What a cancelled downstream call does to the span: it is marked as an error.
pub open spec fn cancel_completion() -> CompletionView {
    CompletionView { inject: false, status_code: None, error: Some(cancel_description()), exception: None }
}

/// A response always records its status code; the span is marked as an error
/// exactly for server errors (500 to 599), with the reason phrase as description;
/// any other status leaves the span status unset.
pub proof fn response_status_marks_span(status: u16, reason: Option<Seq<char>>)
    ensures
        response_completion(status, reason).status_code == Some(status as int),
        response_completion(status, reason).inject,
        response_completion(status, reason).exception is None,
        response_completion(status, reason).error is Some <==> 500 <= status < 600,
        500 <= status < 600 && reason is Some ==> response_completion(status, reason).error
            == reason,
{
}

/// The reason phrase that `http` gives a status code.
pub uninterp spec fn reason_of(code: u16) -> Option<Seq<char>>;

/// Relies on `http::StatusCode::from_u16` and `StatusCode::canonical_reason`: the
/// registered reason phrase of a status code, if any (500 is "Internal Server Error").
#[verifier::external_body]
fn canonical_reason(code: u16) -> (r: Option<&'static str>)
    ensures
        r is Some ==> reason_of(code) == Some(r->0@),
        r is None ==> reason_of(code) is None,
        code == 500 ==> r is Some && r->0@ == "Internal Server Error"@,
{
    http::StatusCode::from_u16(code).ok().and_then(|s| s.canonical_reason())
}

/// The life cycle of one server span: started once, then completed and ended
/// exactly once, whatever the outcome.
pub struct SpanTracker {
    ended: bool,
}

impl SpanTracker {
    /// How many times the span has been ended.
    pub closed spec fn end_count(&self) -> nat {
        if self.ended {
            1
        } else {
            0
        }
    }

    /// The span has been started and not yet ended.
    pub fn start() -> (r: SpanTracker)
        ensures
            r.end_count() == 0,
    {
        SpanTracker { ended: false }
    }

    /// Whether the span still waits for its completion.
    pub fn is_open(&self) -> (r: bool)
        ensures
            r == (self.end_count() == 0),
    {
        !self.ended
    }

    /// Completes the span for a response with `status`, whose reason phrase is `reason`.
    pub fn finish_response(&mut self, status: u16, reason: Option<&str>) -> (c: Completion)
        requires
            old(self).end_count() == 0,
        ensures
            final(self).end_count() == 1,
            completion_view(c) == response_completion(
                status,
                match reason {
                    Some(s) => Some(s@),
                    None => None,
                },
            ),
    {
        self.ended = true;
        let status_code: i64 = status as i64;
        if 500 <= status && status < 600 {
            let description = match reason {
                Some(s) => s.to_owned(),
                None => String::new(),
            };
            Completion {
                inject: true,
                status_code: Some(status_code),
                status: SpanStatus::Error(description),
                exception: None,
            }
        } else {
            Completion {
                inject: true,
                status_code: Some(status_code),
                status: SpanStatus::Unset,
                exception: None,
            }
        }
    }

    /// Completes the span for a response with `status`.
    pub fn on_response(&mut self, status: u16) -> (c: Completion)
        requires
            old(self).end_count() == 0,
        ensures
            final(self).end_count() == 1,
            completion_view(c) == response_completion(status, reason_of(status)),
            status == 500 ==> (completion_view(c).error is Some && completion_view(c).error->0.len() > 0),
    {
        let reason = canonical_reason(status);
        proof {
            reveal_strlit("Internal Server Error");
        }
        self.finish_response(status, reason)
    }

    /// Completes the span for a downstream failure described by `description`, and
    /// hands the failure back as it came.
    pub fn on_failure<E>(&mut self, error: E, description: String) -> (r: (Completion, E))
        requires
            old(self).end_count() == 0,
        ensures
            final(self).end_count() == 1,
            r.1 == error,
            completion_view(r.0) == failure_completion(description@),
    {
        self.ended = true;
        let c = Completion {
            inject: false,
            status_code: None,
            status: SpanStatus::Error(description.clone()),
            exception: Some(description),
        };
        (c, error)
    }

    /// Completes the span of a downstream call that was dropped before it completed.
    pub fn on_cancel(&mut self) -> (c: Completion)
        requires
            old(self).end_count() == 0,
        ensures
            final(self).end_count() == 1,
            completion_view(c) == cancel_completion(),
    {
        self.ended = true;
        Completion {
            inject: false,
            status_code: None,
            status: SpanStatus::Error("request cancelled".to_owned()),
            exception: None,
        }
    }
}

} // verus!
