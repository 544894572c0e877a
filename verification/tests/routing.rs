use spa_host::dispatch::{resolve_target, Target};
use spa_host::mime::ContentType;
use spa_host::request::{method_from_name, Config, Method, Request};

fn req(method: Method, segs: &[&str]) -> Request {
    Request {
        method,
        segments: segs.iter().map(|s| s.to_string()).collect(),
        query: None,
    }
}

fn cfg() -> Config {
    Config {
        address: "localhost".to_string(),
        port: 8000,
        delay_ms: 0,
        static_root: "static".to_string(),
    }
}

#[test]
fn api_path_resolves_to_fixture() {
    match resolve_target(&req(Method::Get, &["api", "users"]), &cfg()) {
        Target::Fixture { path } => assert_eq!(path, "api/users.json"),
        _ => panic!("expected a fixture target"),
    }
}

#[test]
fn nested_api_path_resolves_to_nested_fixture() {
    match resolve_target(&req(Method::Get, &["api", "shop", "orders", "open"]), &cfg()) {
        Target::Fixture { path } => assert_eq!(path, "api/shop/orders/open.json"),
        _ => panic!("expected a fixture target"),
    }
}

#[test]
fn fixture_extension_is_replaced_not_doubled() {
    match resolve_target(&req(Method::Get, &["api", "users.txt"]), &cfg()) {
        Target::Fixture { path } => assert_eq!(path, "api/users.json"),
        _ => panic!("expected a fixture target"),
    }
    match resolve_target(&req(Method::Get, &["api", "users.json"]), &cfg()) {
        Target::Fixture { path } => assert_eq!(path, "api/users.json"),
        _ => panic!("expected a fixture target"),
    }
}

#[test]
fn hidden_fixture_name_gains_extension() {
    match resolve_target(&req(Method::Get, &["api", ".hidden"]), &cfg()) {
        Target::Fixture { path } => assert_eq!(path, "api/.hidden.json"),
        _ => panic!("expected a fixture target"),
    }
}

#[test]
fn every_method_resolves_the_same_fixture() {
    let methods = [
        Method::Get,
        Method::Post,
        Method::Put,
        Method::Patch,
        Method::Delete,
        Method::Head,
        Method::Options,
    ];
    for m in methods {
        match resolve_target(&req(m, &["api", "status"]), &cfg()) {
            Target::Fixture { path } => assert_eq!(path, "api/status.json"),
            _ => panic!("expected a fixture target for every supported method"),
        }
    }
}

#[test]
fn api_prefix_never_reaches_static_resolver() {
    // Even with a same-named file under the static root, routing alone
    // decides: an api-prefixed path is a fixture target, never a static one.
    match resolve_target(&req(Method::Get, &["api", "users"]), &cfg()) {
        Target::StaticAsset { .. } => panic!("api path must not be served statically"),
        Target::IndexPage { .. } => panic!("api path must not be served as index"),
        Target::Fixture { path } => assert_eq!(path, "api/users.json"),
        Target::Unmatched => panic!("api path must be routed"),
    }
}

#[test]
fn bare_api_prefix_is_unmatched() {
    match resolve_target(&req(Method::Get, &["api"]), &cfg()) {
        Target::Unmatched => {}
        _ => panic!("bare api prefix names no fixture"),
    }
}

#[test]
fn traversal_segments_are_rejected() {
    match resolve_target(&req(Method::Get, &["..", "etc", "passwd"]), &cfg()) {
        Target::Unmatched => {}
        _ => panic!("parent-directory segments must not resolve"),
    }
    match resolve_target(&req(Method::Get, &["api", "..", "secret"]), &cfg()) {
        Target::Unmatched => {}
        _ => panic!("parent-directory segments must not resolve under api"),
    }
    match resolve_target(&req(Method::Get, &[".", "app.js"]), &cfg()) {
        Target::Unmatched => {}
        _ => panic!("dot segments must not resolve"),
    }
}

#[test]
fn root_path_targets_index_file() {
    match resolve_target(&req(Method::Get, &[]), &cfg()) {
        Target::IndexPage { path } => assert_eq!(path, "static/index.html"),
        _ => panic!("root path must target the index file"),
    }
}

#[test]
fn static_path_joined_under_configured_root() {
    let custom = Config {
        address: "localhost".to_string(),
        port: 8000,
        delay_ms: 0,
        static_root: "public".to_string(),
    };
    match resolve_target(&req(Method::Get, &["css", "site.css"]), &custom) {
        Target::StaticAsset { path, content_type } => {
            assert_eq!(path, "public/css/site.css");
            assert_eq!(content_type, ContentType::Css);
        }
        _ => panic!("expected a static target"),
    }
}

#[test]
fn non_get_outside_api_is_unmatched() {
    match resolve_target(&req(Method::Post, &["app.js"]), &cfg()) {
        Target::Unmatched => {}
        _ => panic!("only GET is served statically"),
    }
    match resolve_target(&req(Method::Delete, &[]), &cfg()) {
        Target::Unmatched => {}
        _ => panic!("only GET is served for the root path"),
    }
}

#[test]
fn query_string_does_not_affect_routing() {
    let mut with_query = req(Method::Get, &["api", "users"]);
    with_query.query = Some("page=2&sort=name".to_string());
    let without = req(Method::Get, &["api", "users"]);
    let queried_path = match resolve_target(&with_query, &cfg()) {
        Target::Fixture { path } => path,
        _ => panic!("expected a fixture target"),
    };
    let plain_path = match resolve_target(&without, &cfg()) {
        Target::Fixture { path } => path,
        _ => panic!("expected a fixture target"),
    };
    assert_eq!(queried_path, plain_path);
}

#[test]
fn method_names_are_recognized() {
    assert_eq!(method_from_name("GET"), Some(Method::Get));
    assert_eq!(method_from_name("POST"), Some(Method::Post));
    assert_eq!(method_from_name("PUT"), Some(Method::Put));
    assert_eq!(method_from_name("PATCH"), Some(Method::Patch));
    assert_eq!(method_from_name("DELETE"), Some(Method::Delete));
    assert_eq!(method_from_name("HEAD"), Some(Method::Head));
    assert_eq!(method_from_name("OPTIONS"), Some(Method::Options));
    assert_eq!(method_from_name("TRACE"), None);
    assert_eq!(method_from_name("get"), None);
}
