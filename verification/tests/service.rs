use greeter::{handle_request, handle_root, route, Message, RouteDecision};

const GREETING_BODY: &[u8] = b"{\"content\":\"Hello from Rust!\"}";

#[test]
fn greeting_message_content() {
    let m = Message::greeting();
    assert_eq!(m.content, "Hello from Rust!");
}

#[test]
fn happy_path_root_get() {
    let r = handle_request("GET", "/");
    assert_eq!(r.status, 200);
    assert_eq!(r.content_type, "application/json");
    assert_eq!(r.body, GREETING_BODY.to_vec());
}

#[test]
fn handler_agrees_with_dispatch() {
    let direct = handle_root();
    let routed = handle_request("GET", "/");
    assert_eq!(direct.status, routed.status);
    assert_eq!(direct.content_type, routed.content_type);
    assert_eq!(direct.body, routed.body);
}

#[test]
fn unknown_path_is_not_greeted() {
    let r = handle_request("GET", "/healthz");
    assert_eq!(r.status, 404);
    assert!(r.body.is_empty());
    assert_ne!(r.body, GREETING_BODY.to_vec());
}

#[test]
fn wrong_method_is_not_greeted() {
    let r = handle_request("POST", "/");
    assert_eq!(r.status, 404);
    assert!(r.body.is_empty());
    assert_ne!(r.body, GREETING_BODY.to_vec());
}

#[test]
fn other_methods_and_paths_fall_through() {
    for (method, path) in [
        ("PUT", "/"),
        ("DELETE", "/"),
        ("HEAD", "/"),
        ("OPTIONS", "/"),
        ("get", "/"),
        ("GET", ""),
        ("GET", "//"),
        ("GET", "/index.html"),
        ("GET", "/ "),
        ("", "/"),
    ] {
        let r = handle_request(method, path);
        assert_eq!(r.status, 404, "{} {}", method, path);
        assert!(r.body.is_empty());
    }
}

#[test]
fn route_table_has_one_entry() {
    assert_eq!(route("GET", "/"), RouteDecision::Root);
    assert_eq!(route("GET", "/healthz"), RouteDecision::NoMatch);
    assert_eq!(route("POST", "/"), RouteDecision::NoMatch);
    assert_eq!(route("GETX", "/"), RouteDecision::NoMatch);
    assert_eq!(route("GE", "/"), RouteDecision::NoMatch);
}

#[test]
fn repeated_requests_are_identical() {
    let first = handle_request("GET", "/");
    for _ in 0..10 {
        let again = handle_request("GET", "/");
        assert_eq!(again.status, first.status);
        assert_eq!(again.content_type, first.content_type);
        assert_eq!(again.body, first.body);
    }
    let missed = handle_request("POST", "/missing");
    for _ in 0..10 {
        let again = handle_request("POST", "/missing");
        assert_eq!(again.status, missed.status);
        assert_eq!(again.body, missed.body);
    }
}

#[test]
fn responses_are_independent() {
    let batch: Vec<_> = (0..16).map(|_| handle_request("GET", "/")).collect();
    for r in &batch {
        assert_eq!(r.status, 200);
        assert_eq!(r.body, GREETING_BODY.to_vec());
    }
}
