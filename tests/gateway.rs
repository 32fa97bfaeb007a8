use inventory_gateway::boot::{boot_start, boot_step, BootAction, BootEvent, BootPhase, RETRY_DELAY_MS};
use inventory_gateway::method::{parse_method, HttpMethod};
use inventory_gateway::reply::{failure_reply, preflight, translate, ErrorKind, Outcome, Reply, ReplyBody};
use inventory_gateway::route::{dispatch, intake, leading_resource, CanonicalRequest, Dispatch, Intake, Resource};
use inventory_gateway::target::path_stack;
use inventory_gateway::text::text_eq;

fn pair(a: &str, b: &str) -> (String, String) {
    (a.to_string(), b.to_string())
}

fn ready(method: &str, target: &str, body: &str) -> CanonicalRequest {
    match intake(method, target, body.to_string()) {
        Intake::Ready(req) => req,
        Intake::Respond(r) => panic!("unexpected response with status {}", r.status),
    }
}

fn answered(i: Intake) -> Reply {
    match i {
        Intake::Respond(r) => r,
        Intake::Ready(_) => panic!("request was not answered"),
    }
}

fn routed(d: Dispatch) -> Reply {
    match d {
        Dispatch::Respond(r) => r,
        Dispatch::Handle(..) => panic!("a handler was selected"),
    }
}

fn text_of(r: &Reply) -> String {
    match &r.body {
        ReplyBody::Text(t) => t.clone(),
        _ => panic!("not a text body"),
    }
}

fn preflight_headers() -> Vec<(String, String)> {
    vec![
        pair("Access-Control-Allow-Methods", "POST, GET, DELETE, OPTIONS"),
        pair("Access-Control-Allow-Origin", "*"),
        pair("Access-Control-Allow-Headers", "X-PINGOTHER, Content-Type"),
        pair("Access-Control-Max-Age", "86400"),
    ]
}

#[test]
fn options_on_any_path_is_a_fixed_preflight() {
    for target in ["/users", "/does-not-exist", "/", "/a/b/c?x=1"] {
        let r = answered(intake("OPTIONS", target, "ignored".to_string()));
        assert_eq!(r.status, 200);
        assert_eq!(text_of(&r), "");
        assert_eq!(r.headers, preflight_headers());
    }
    assert_eq!(preflight().headers, preflight_headers());
}

#[test]
fn unknown_path_is_not_found_whatever_query_or_body() {
    for (target, body) in [("/does-not-exist", ""), ("/does-not-exist?a=1&b=2", "{\"x\":1}")] {
        let req = ready("GET", target, body);
        let r = routed(dispatch(true, req));
        assert_eq!(r.status, 404);
        assert_eq!(r.headers, vec![pair("Access-Control-Allow-Origin", "*")]);
    }
}

#[test]
fn empty_path_is_not_found() {
    let req = ready("GET", "/", "");
    assert!(req.path.is_empty());
    assert_eq!(routed(dispatch(true, req)).status, 404);
}

#[test]
fn checkout_failure_answers_500_without_handler() {
    let req = ready("POST", "/users", "{}");
    let r = routed(dispatch(false, req));
    assert_eq!(r.status, 500);
    assert_eq!(text_of(&r), "Database error");
}

#[test]
fn users_goes_to_the_user_handler_with_the_rest_of_the_path() {
    let req = ready("DELETE", "/users/42/roles", "b");
    match dispatch(true, req) {
        Dispatch::Handle(res, rest) => {
            assert_eq!(res, Resource::Users);
            assert_eq!(rest.method, HttpMethod::DELETE);
            assert_eq!(rest.path, vec!["roles".to_string(), "42".to_string()]);
            assert_eq!(rest.body, "b");
        }
        Dispatch::Respond(r) => panic!("answered with {}", r.status),
    }
}

#[test]
fn trailing_slash_gives_the_same_leading_segment() {
    let a = ready("GET", "/users/", "");
    let b = ready("GET", "/users", "");
    assert_eq!(a.path, vec!["users".to_string()]);
    assert_eq!(a.path, b.path);
    let c = ready("GET", "//users//7/", "");
    assert_eq!(c.path, vec!["7".to_string(), "users".to_string()]);
}

#[test]
fn repeated_query_keys_are_kept_in_order() {
    let req = ready("GET", "/users?a=1&a=2", "");
    assert_eq!(req.query, vec![pair("a", "1"), pair("a", "2")]);
    let dec = ready("GET", "/users?name=J%C3%BCrgen+X&b=", "");
    assert_eq!(dec.query, vec![pair("name", "J\u{fc}rgen X"), pair("b", "")]);
}

#[test]
fn unsupported_method_is_refused_before_routing() {
    let r = answered(intake("PATCH", "/users", String::new()));
    assert_eq!(r.status, 400);
    assert_eq!(text_of(&r), "Invalid method");
    let lower = answered(intake("get", "/users", String::new()));
    assert_eq!(lower.status, 400);
}

#[test]
fn canonical_form_parses_back_to_itself() {
    let req = ready("GET", "/users//5/?k=v&k=w", "x");
    let forward: Vec<String> = req.path.iter().rev().cloned().collect();
    let again = ready("GET", &format!("/{}?k=v&k=w", forward.join("/")), "x");
    assert_eq!(again.path, req.path);
    assert_eq!(again.query, req.query);
    assert_eq!(again.method, req.method);
    assert_eq!(path_stack(&forward), req.path);
}

#[test]
fn methods_map_exactly() {
    assert_eq!(parse_method("GET"), Some(HttpMethod::GET));
    assert_eq!(parse_method("POST"), Some(HttpMethod::POST));
    assert_eq!(parse_method("DELETE"), Some(HttpMethod::DELETE));
    assert_eq!(parse_method("OPTIONS"), None);
    assert_eq!(parse_method("GETS"), None);
    assert_eq!(parse_method(""), None);
}

#[test]
fn path_stack_drops_empty_and_reverses() {
    let segs = vec!["".to_string(), "a".to_string(), "".to_string(), "b".to_string(), "".to_string()];
    assert_eq!(path_stack(&segs), vec!["b".to_string(), "a".to_string()]);
    assert!(path_stack(&Vec::new()).is_empty());
}

#[test]
fn outcomes_translate_to_responses() {
    let p = translate(Outcome::Payload(b"[1]".to_vec()));
    assert_eq!(p.status, 200);
    assert!(matches!(p.body, ReplyBody::Json(ref b) if b == b"[1]"));
    assert_eq!(p.headers, vec![pair("Access-Control-Allow-Origin", "*")]);
    let n = translate(Outcome::NoContent);
    assert_eq!(n.status, 204);
    assert!(matches!(n.body, ReplyBody::Empty));
    assert_eq!(translate(Outcome::Failure(ErrorKind::NotFound)).status, 404);
    assert_eq!(translate(Outcome::Failure(ErrorKind::InvalidInput)).status, 400);
    assert_eq!(translate(Outcome::Failure(ErrorKind::Database)).status, 500);
    assert_eq!(text_of(&failure_reply(ErrorKind::NotFound)), "Not found");
}

#[test]
fn leading_segment_match_is_exact() {
    assert_eq!(leading_resource("users"), Some(Resource::Users));
    assert_eq!(leading_resource("Users"), None);
    assert_eq!(leading_resource("users2"), None);
    assert!(text_eq("abc", "abc"));
    assert!(!text_eq("abc", "abd"));
}

#[test]
fn two_failures_then_success_retry_twice_then_serve() {
    let (mut phase, first) = boot_start(true);
    assert_eq!(first, BootAction::Connect);
    let mut waits = 0;
    let mut attempts = vec![false, false, true].into_iter();
    let mut served = false;
    let mut action = first;
    while !served {
        let event = match action {
            BootAction::Connect => {
                if attempts.next().unwrap() { BootEvent::ConnectSucceeded } else { BootEvent::ConnectFailed }
            }
            BootAction::Wait(ms) => {
                assert_eq!(ms, RETRY_DELAY_MS);
                waits += 1;
                BootEvent::WaitElapsed
            }
            BootAction::Serve => {
                served = true;
                continue;
            }
            other => panic!("unexpected {:?}", other),
        };
        let (p, a) = boot_step(phase, event);
        phase = p;
        action = a;
    }
    assert_eq!(waits, 2);
    assert_eq!(phase, BootPhase::Connected);
    assert!(attempts.next().is_none());
}

#[test]
fn missing_configuration_aborts() {
    assert_eq!(boot_start(false), (BootPhase::Disconnected, BootAction::Abort));
    assert_eq!(boot_step(BootPhase::Connected, BootEvent::ConnectFailed), (BootPhase::Connected, BootAction::Ignore));
}
