use spa_host::dispatch::{planned_delay_ms, resolve_target, Target};
use spa_host::fixture::fixture_outcome;
use spa_host::outcome::{FileRead, Outcome};
use spa_host::request::{Config, Method, Request};

fn req(method: Method, segs: &[&str], query: Option<&str>) -> Request {
    Request {
        method,
        segments: segs.iter().map(|s| s.to_string()).collect(),
        query: query.map(|q| q.to_string()),
    }
}

fn cfg(delay_ms: u64) -> Config {
    Config {
        address: "localhost".to_string(),
        port: 8000,
        delay_ms,
        static_root: "static".to_string(),
    }
}

#[test]
fn api_requests_get_the_configured_delay() {
    let d = planned_delay_ms(&req(Method::Get, &["api", "users"], None), &cfg(250));
    assert_eq!(d, 250);
    let d = planned_delay_ms(&req(Method::Post, &["api", "users"], None), &cfg(250));
    assert_eq!(d, 250);
}

#[test]
fn zero_delay_plans_no_suspension() {
    let d = planned_delay_ms(&req(Method::Get, &["api", "users"], None), &cfg(0));
    assert_eq!(d, 0);
}

#[test]
fn static_requests_are_never_delayed() {
    let d = planned_delay_ms(&req(Method::Get, &["app.js"], None), &cfg(250));
    assert_eq!(d, 0);
    let d = planned_delay_ms(&req(Method::Get, &[], None), &cfg(250));
    assert_eq!(d, 0);
}

#[test]
fn same_request_twice_yields_identical_outcomes() {
    // Two identical requests against an unchanged filesystem observation.
    let run = || {
        let r = req(Method::Get, &["api", "status"], Some("page=1"));
        let path = match resolve_target(&r, &cfg(0)) {
            Target::Fixture { path } => path,
            _ => panic!("expected a fixture target"),
        };
        let read = FileRead::Content { bytes: b"{\"ok\": true}".to_vec() };
        let body = match fixture_outcome(read) {
            Outcome::JsonData { body } => body,
            _ => panic!("expected JSON data"),
        };
        (path, body)
    };
    let first = run();
    let second = run();
    assert_eq!(first.0, second.0);
    assert_eq!(first.1, second.1);
}
