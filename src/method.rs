use vstd::prelude::*;
use crate::text::text_eq;

verus! {

/// The request methods that reach the router.
#[derive(Clone, Copy, Debug, PartialEq, Eq, Structural)]
pub enum HttpMethod {
    GET,
    POST,
    DELETE,
}

/// The method named by a raw method token, if it is one the router serves.
pub open spec fn method_of(token: Seq<char>) -> Option<HttpMethod> {
    if token == "GET"@ {
        Some(HttpMethod::GET)
    } else if token == "POST"@ {
        Some(HttpMethod::POST)
    } else if token == "DELETE"@ {
        Some(HttpMethod::DELETE)
    } else {
        None
    }
}

/// Maps a raw method token onto a routed method; any other token is refused.
pub fn parse_method(token: &str) -> (r: Option<HttpMethod>)
    ensures
        r == method_of(token@),
{
    proof {
        reveal_strlit("GET");
        reveal_strlit("POST");
        reveal_strlit("DELETE");
    }
    if text_eq(token, "GET") {
        Some(HttpMethod::GET)
    } else if text_eq(token, "POST") {
        Some(HttpMethod::POST)
    } else if text_eq(token, "DELETE") {
        Some(HttpMethod::DELETE)
    } else {
        None
    }
}

} // verus!
