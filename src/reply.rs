use vstd::prelude::*;

verus! {

/// The body of a response.
pub enum ReplyBody {
    /// Plain text, sent as `text/plain`.
    Text(String),
    /// A serialized payload, sent as `application/json`.
    Json(Vec<u8>),
    /// No body at all.
    Empty,
}

/// A framework-independent HTTP response.
pub struct Reply {
    pub status: u16,
    pub body: ReplyBody,
    pub headers: Vec<(String, String)>,
}

/// What a body is, as plain values.
pub enum BodyView {
    Text(Seq<char>),
    Json(Seq<u8>),
    Empty,
}

/// What a response is, as plain values.
pub struct ReplyView {
    pub status: u16,
    pub body: BodyView,
    pub headers: Seq<(Seq<char>, Seq<char>)>,
}

pub open spec fn header_texts(h: Seq<(String, String)>) -> Seq<(Seq<char>, Seq<char>)> {
    h.map_values(|p: (String, String)| (p.0@, p.1@))
}

impl View for ReplyBody {
    type V = BodyView;

    open spec fn view(&self) -> BodyView {
        match self {
            ReplyBody::Text(s) => BodyView::Text(s@),
            ReplyBody::Json(b) => BodyView::Json(b@),
            ReplyBody::Empty => BodyView::Empty,
        }
    }
}

impl View for Reply {
    type V = ReplyView;

    open spec fn view(&self) -> ReplyView {
        ReplyView { status: self.status, body: self.body@, headers: header_texts(self.headers@) }
    }
}

/// The kinds of failure that a domain handler or the router reports.
#[derive(Clone, Copy, Debug, PartialEq, Eq, Structural)]
pub enum ErrorKind {
    /// No such resource, or no such item within it.
    NotFound,
    /// The request was understood but its content is not acceptable.
    InvalidInput,
    /// The storage layer failed.
    Database,
}

/// What a domain handler hands back.
pub enum Outcome {
    Payload(Vec<u8>),
    NoContent,
    Failure(ErrorKind),
}

pub open spec fn status_of(kind: ErrorKind) -> u16 {
    match kind {
        ErrorKind::NotFound => 404,
        ErrorKind::InvalidInput => 400,
        ErrorKind::Database => 500,
    }
}

pub open spec fn description_of(kind: ErrorKind) -> Seq<char> {
    match kind {
        ErrorKind::NotFound => "Not found"@,
        ErrorKind::InvalidInput => "Invalid input"@,
        ErrorKind::Database => "Database error"@,
    }
}

/// The single header that every response other than a preflight carries.
pub open spec fn origin_headers() -> Seq<(Seq<char>, Seq<char>)> {
    seq![("Access-Control-Allow-Origin"@, "*"@)]
}

/// The headers of a preflight answer, literally.
pub open spec fn preflight_headers() -> Seq<(Seq<char>, Seq<char>)> {
    seq![
        ("Access-Control-Allow-Methods"@, "POST, GET, DELETE, OPTIONS"@),
        ("Access-Control-Allow-Origin"@, "*"@),
        ("Access-Control-Allow-Headers"@, "X-PINGOTHER, Content-Type"@),
        ("Access-Control-Max-Age"@, "86400"@),
    ]
}

pub open spec fn preflight_view() -> ReplyView {
    ReplyView { status: 200, body: BodyView::Text(""@), headers: preflight_headers() }
}

/// A text response with the given status, carrying the origin header.
pub open spec fn text_view(status: u16, text: Seq<char>) -> ReplyView {
    ReplyView { status, body: BodyView::Text(text), headers: origin_headers() }
}

pub open spec fn failure_view(kind: ErrorKind) -> ReplyView {
    text_view(status_of(kind), description_of(kind))
}

/// The response for each handler outcome.
pub open spec fn translated(outcome: Outcome) -> ReplyView {
    match outcome {
        Outcome::Payload(b) => ReplyView {
            status: 200,
            body: BodyView::Json(b@),
            headers: origin_headers(),
        },
        Outcome::NoContent => ReplyView {
            status: 204,
            body: BodyView::Empty,
            headers: origin_headers(),
        },
        Outcome::Failure(kind) => failure_view(kind),
    }
}

fn origin_header_list() -> (r: Vec<(String, String)>)
    ensures
        header_texts(r@) == origin_headers(),
{
    let mut r: Vec<(String, String)> = Vec::new();
    r.push(("Access-Control-Allow-Origin".to_owned(), "*".to_owned()));
    proof {
        reveal_strlit("Access-Control-Allow-Origin");
        reveal_strlit("*");
        assert(header_texts(r@) =~= origin_headers());
    }
    r
}

/// The answer to a CORS preflight request: empty, with the fixed headers.
pub fn preflight() -> (r: Reply)
    ensures
        r@ == preflight_view(),
{
    let mut h: Vec<(String, String)> = Vec::new();
    h.push(("Access-Control-Allow-Methods".to_owned(), "POST, GET, DELETE, OPTIONS".to_owned()));
    h.push(("Access-Control-Allow-Origin".to_owned(), "*".to_owned()));
    h.push(("Access-Control-Allow-Headers".to_owned(), "X-PINGOTHER, Content-Type".to_owned()));
    h.push(("Access-Control-Max-Age".to_owned(), "86400".to_owned()));
    let r = Reply { status: 200, body: ReplyBody::Text("".to_owned()), headers: h };
    proof {
        reveal_strlit("Access-Control-Allow-Methods");
        reveal_strlit("POST, GET, DELETE, OPTIONS");
        reveal_strlit("Access-Control-Allow-Origin");
        reveal_strlit("*");
        reveal_strlit("Access-Control-Allow-Headers");
        reveal_strlit("X-PINGOTHER, Content-Type");
        reveal_strlit("Access-Control-Max-Age");
        reveal_strlit("86400");
        reveal_strlit("");
        assert(header_texts(h@) =~= preflight_headers());
        assert(r@.body == BodyView::Text(""@));
    }
    r
}

/// A text response with the given status and the origin header.
pub fn text_reply(status: u16, text: &str) -> (r: Reply)
    ensures
        r@ == text_view(status, text@),
{
    Reply { status, body: ReplyBody::Text(text.to_owned()), headers: origin_header_list() }
}

/// The response for a failure of the given kind; its status depends on the kind alone.
pub fn failure_reply(kind: ErrorKind) -> (r: Reply)
    ensures
        r@ == failure_view(kind),
{
    match kind {
        ErrorKind::NotFound => text_reply(404, "Not found"),
        ErrorKind::InvalidInput => text_reply(400, "Invalid input"),
        ErrorKind::Database => text_reply(500, "Database error"),
    }
}

/// Turns a handler outcome into the response sent back.
pub fn translate(outcome: Outcome) -> (r: Reply)
    ensures
        r@ == translated(outcome),
{
    match outcome {
        Outcome::Payload(b) => Reply { status: 200, body: ReplyBody::Json(b), headers: origin_header_list() },
        Outcome::NoContent => Reply { status: 204, body: ReplyBody::Empty, headers: origin_header_list() },
        Outcome::Failure(kind) => failure_reply(kind),
    }
}

} // verus!
