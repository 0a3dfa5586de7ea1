use api::http::{method_from_text, Method, Request};
use api::router::Router;
use api::serve::{respond, serve_step, ParseOutcome};
use api::startup::{bind_address, startup_step, StartupEvent, StartupPhase};

fn request(method: Method, path: &str) -> Request {
    Request {
        method,
        path: String::from(path),
        headers: Vec::new(),
        body: Vec::new(),
    }
}

#[test]
fn get_root_returns_hello() {
    let router = Router::build();
    let reply = respond(&router, &request(Method::Get, "/"));
    assert_eq!(reply.status, 200);
    assert_eq!(reply.body, "Hello, World!");
    assert!(reply.headers.is_empty());
}

#[test]
fn other_path_is_not_found() {
    let router = Router::build();
    let reply = respond(&router, &request(Method::Get, "/missing"));
    assert_eq!(reply.status, 404);
    assert_eq!(reply.body, "");
}

#[test]
fn other_method_on_root_is_not_found() {
    let router = Router::build();
    let post = respond(&router, &request(Method::Post, "/"));
    assert_eq!(post.status, 404);
    let head = respond(&router, &request(Method::Head, "/"));
    assert_eq!(head.status, 404);
}

#[test]
fn empty_path_is_not_found() {
    let router = Router::build();
    let reply = respond(&router, &request(Method::Get, ""));
    assert_eq!(reply.status, 404);
}

#[test]
fn malformed_request_draws_bad_request() {
    let router = Router::build();
    let reply = serve_step(&router, ParseOutcome::Malformed);
    assert_eq!(reply.status, 400);
    assert_eq!(reply.body, "");
}

#[test]
fn malformed_then_valid_still_served() {
    let router = Router::build();
    let bad = serve_step(&router, ParseOutcome::Malformed);
    assert_eq!(bad.status, 400);
    let good = serve_step(&router, ParseOutcome::Valid(request(Method::Get, "/")));
    assert_eq!(good.status, 200);
    assert_eq!(good.body, "Hello, World!");
}

#[test]
fn extension_method_is_not_found() {
    let router = Router::build();
    let reply = serve_step(&router, ParseOutcome::ExtensionMethod);
    assert_eq!(reply.status, 404);
}

#[test]
fn two_clients_both_get_hello() {
    let router = Router::build();
    let first = respond(&router, &request(Method::Get, "/"));
    let second = respond(&router, &request(Method::Get, "/"));
    assert_eq!(first.status, 200);
    assert_eq!(first.body, "Hello, World!");
    assert_eq!(second.status, 200);
    assert_eq!(second.body, "Hello, World!");
}

#[test]
fn standard_method_tokens_parse() {
    assert_eq!(method_from_text(&String::from("GET")), Some(Method::Get));
    assert_eq!(method_from_text(&String::from("HEAD")), Some(Method::Head));
    assert_eq!(method_from_text(&String::from("POST")), Some(Method::Post));
    assert_eq!(method_from_text(&String::from("PUT")), Some(Method::Put));
    assert_eq!(method_from_text(&String::from("DELETE")), Some(Method::Delete));
    assert_eq!(method_from_text(&String::from("CONNECT")), Some(Method::Connect));
    assert_eq!(method_from_text(&String::from("OPTIONS")), Some(Method::Options));
    assert_eq!(method_from_text(&String::from("TRACE")), Some(Method::Trace));
    assert_eq!(method_from_text(&String::from("PATCH")), Some(Method::Patch));
}

#[test]
fn extension_method_tokens_do_not_parse() {
    assert_eq!(method_from_text(&String::from("BREW")), None);
    assert_eq!(method_from_text(&String::from("get")), None);
    assert_eq!(method_from_text(&String::from("")), None);
}

#[test]
fn registered_routes_all_dispatch() {
    let router = Router::new()
        .route(Method::Get, String::from("/"), api::handler::Handler::Root)
        .route(Method::Post, String::from("/echo"), api::handler::Handler::Root);
    assert!(router.dispatch(Method::Get, &String::from("/")).is_some());
    assert!(router.dispatch(Method::Post, &String::from("/echo")).is_some());
    assert!(router.dispatch(Method::Post, &String::from("/")).is_none());
    assert!(router.dispatch(Method::Get, &String::from("/echo")).is_none());
}

#[test]
fn bind_failure_never_serves() {
    let routed = startup_step(
        startup_step(StartupPhase::Boot, StartupEvent::LoggingReady),
        StartupEvent::RouterBuilt,
    );
    assert_eq!(routed, StartupPhase::Routed);
    let failed = startup_step(routed, StartupEvent::BindFailed);
    assert_eq!(failed, StartupPhase::Failed);
    let still_failed = startup_step(failed, StartupEvent::BindOk);
    assert_eq!(still_failed, StartupPhase::Failed);
}

#[test]
fn logging_failure_never_serves() {
    let failed = startup_step(StartupPhase::Boot, StartupEvent::LoggingFailed);
    assert_eq!(failed, StartupPhase::Failed);
    assert_eq!(
        startup_step(failed, StartupEvent::RouterBuilt),
        StartupPhase::Failed
    );
}

#[test]
fn clean_startup_reaches_serving_each_run() {
    for _ in 0..2 {
        let serving = startup_step(
            startup_step(
                startup_step(StartupPhase::Boot, StartupEvent::LoggingReady),
                StartupEvent::RouterBuilt,
            ),
            StartupEvent::BindOk,
        );
        assert_eq!(serving, StartupPhase::Serving);
    }
}

#[test]
fn bind_address_is_loopback_3000() {
    let addr = bind_address();
    assert_eq!(addr.host, (127, 0, 0, 1));
    assert_eq!(addr.port, 3000);
}
