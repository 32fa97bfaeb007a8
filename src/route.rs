use vstd::prelude::*;
use crate::method::{HttpMethod, method_of, parse_method};
use crate::reply::{
    ErrorKind, Reply, ReplyView, failure_reply, failure_view, preflight, preflight_view,
    text_reply, text_view,
};
use crate::target::{
    pair_texts, path_stack, segments_view, stack_of, target_parts, texts, url_accepts, url_query,
    url_segments,
};
use crate::text::text_eq;

verus! {

/// The absolute base against which request targets are resolved; never sent anywhere.
pub const SERVER_BASE: &'static str = "http://0.0.0.0:8000";

/// The request as the router and the handlers see it.
pub struct CanonicalRequest {
    pub method: HttpMethod,
    /// Path segments, the last one first: the leading segment stands at the end.
    pub path: Vec<String>,
    /// Decoded query pairs, in the order received, duplicates kept.
    pub query: Vec<(String, String)>,
    pub body: String,
}

/// The first step for an incoming request.
pub enum Intake {
    /// Answer at once; no connection is checked out.
    Respond(Reply),
    /// Check out a connection and dispatch this request.
    Ready(CanonicalRequest),
}

/// The resource families that the router knows.
#[derive(Clone, Copy, Debug, PartialEq, Eq, Structural)]
pub enum Resource {
    Users,
}

/// What the router decided, once a connection was or was not had.
pub enum Dispatch {
    /// Answer with this response; no handler is called.
    Respond(Reply),
    /// Call the handler of this resource with the request, its leading segment taken off.
    Handle(Resource, CanonicalRequest),
}

pub open spec fn resource_of(segment: Seq<char>) -> Option<Resource> {
    if segment == "users"@ {
        Some(Resource::Users)
    } else {
        None
    }
}

pub open spec fn responds_with(i: Intake, v: ReplyView) -> bool {
    match i {
        Intake::Respond(r) => r@ == v,
        Intake::Ready(_) => false,
    }
}

pub open spec fn answers_with(d: Dispatch, v: ReplyView) -> bool {
    match d {
        Dispatch::Respond(r) => r@ == v,
        Dispatch::Handle(..) => false,
    }
}

/// The canonical request built from what the url crate handed back.
pub open spec fn assembled(
    i: Intake,
    method: HttpMethod,
    segments: Option<Seq<Seq<char>>>,
    query: Seq<(Seq<char>, Seq<char>)>,
    body: String,
) -> bool {
    match segments {
        None => responds_with(i, text_view(400, "URL parse error"@)),
        Some(segs) => match i {
            Intake::Ready(req) => req.method == method && texts(req.path@) == stack_of(segs)
                && pair_texts(req.query@) == query && req.body == body,
            Intake::Respond(_) => false,
        },
    }
}

/// What the first step does with a request: the method token, the target as
/// received, and the body.
pub open spec fn intake_post(r: Intake, token: Seq<char>, target: Seq<char>, body: String) -> bool {
    let url = SERVER_BASE@ + target;
    if token == "OPTIONS"@ {
        responds_with(r, preflight_view())
    } else if method_of(token) is None {
        responds_with(r, text_view(400, "Invalid method"@))
    } else if !url_accepts(url) {
        responds_with(r, text_view(400, "URL parse error"@))
    } else {
        url_segments(url) is Some && assembled(
            r,
            method_of(token)->Some_0,
            url_segments(url),
            url_query(url),
            body,
        )
    }
}

/// Picks the resource family named by a leading path segment.
pub fn leading_resource(segment: &str) -> (r: Option<Resource>)
    ensures
        r == resource_of(segment@),
{
    proof {
        reveal_strlit("users");
    }
    if text_eq(segment, "users") {
        Some(Resource::Users)
    } else {
        None
    }
}

/// Builds the canonical request from the parsed path segments and query pairs;
/// a URL without path segments is refused.
pub fn assemble(
    method: HttpMethod,
    segments: Option<Vec<String>>,
    query: Vec<(String, String)>,
    body: String,
) -> (r: Intake)
    ensures
        assembled(r, method, segments_view(segments), pair_texts(query@), body),
{
    match segments {
        None => Intake::Respond(text_reply(400, "URL parse error")),
        Some(segs) => {
            let path = path_stack(&segs);
            Intake::Ready(CanonicalRequest { method, path, query, body })
        },
    }
}

/// The first step for a request: a preflight is answered at once, an unknown method
/// or a target that does not parse is refused, anything else becomes a canonical request.
pub fn intake(method_token: &str, target: &str, body: String) -> (r: Intake)
    ensures
        intake_post(r, method_token@, target@, body),
{
    proof {
        reveal_strlit("OPTIONS");
        reveal_strlit("http://");
        reveal_strlit("http://0.0.0.0:8000");
        assert(SERVER_BASE@.subrange(0, 7) =~= "http://"@);
    }
    if text_eq(method_token, "OPTIONS") {
        return Intake::Respond(preflight());
    }
    let method = match parse_method(method_token) {
        Some(m) => m,
        None => return Intake::Respond(text_reply(400, "Invalid method")),
    };
    match target_parts(SERVER_BASE, target) {
        None => Intake::Respond(text_reply(400, "URL parse error")),
        Some((segments, query)) => assemble(method, segments, query, body),
    }
}

/// Routes a canonical request once the connection checkout is known to have succeeded
/// or failed: a failed checkout is answered with a server error and no handler runs;
/// otherwise the leading segment selects the handler, and an unknown or missing one
/// is answered as not found.
pub fn dispatch(checked_out: bool, req: CanonicalRequest) -> (r: Dispatch)
    ensures
        !checked_out ==> answers_with(r, text_view(500, "Database error"@)),
        checked_out && req.path@.len() == 0 ==> answers_with(r, failure_view(ErrorKind::NotFound)),
        checked_out && req.path@.len() > 0 ==> match resource_of(req.path@.last()@) {
            None => answers_with(r, failure_view(ErrorKind::NotFound)),
            Some(res) => match r {
                Dispatch::Handle(got, rest) => got == res && rest.method == req.method
                    && rest.path@ == req.path@.drop_last() && rest.query@ == req.query@
                    && rest.body == req.body,
                Dispatch::Respond(_) => false,
            },
        },
{
    if !checked_out {
        return Dispatch::Respond(text_reply(500, "Database error"));
    }
    let CanonicalRequest { method, mut path, query, body } = req;
    let first = path.pop();
    match first {
        None => Dispatch::Respond(failure_reply(ErrorKind::NotFound)),
        Some(seg) => match leading_resource(seg.as_str()) {
            Some(res) => Dispatch::Handle(res, CanonicalRequest { method, path, query, body }),
            None => Dispatch::Respond(failure_reply(ErrorKind::NotFound)),
        },
    }
}

} // verus!
