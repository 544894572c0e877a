use spa_host::fixture::fixture_outcome;
use spa_host::outcome::{FileRead, FixtureError, Outcome};

#[test]
fn parseable_fixture_yields_its_content() {
    let bytes = b"{\"ok\": true}".to_vec();
    match fixture_outcome(FileRead::Content { bytes: bytes.clone() }) {
        Outcome::JsonData { body } => {
            assert_eq!(body, bytes);
            let parsed: serde_json::Value = serde_json::from_slice(&body).unwrap();
            let mut fields = serde_json::Map::new();
            fields.insert("ok".to_string(), serde_json::Value::Bool(true));
            assert_eq!(parsed, serde_json::Value::Object(fields));
        }
        _ => panic!("a parseable fixture must be served as JSON data"),
    }
}

#[test]
fn array_and_scalar_fixtures_are_served() {
    match fixture_outcome(FileRead::Content { bytes: b"[1, 2, 3]".to_vec() }) {
        Outcome::JsonData { body } => assert_eq!(body, b"[1, 2, 3]".to_vec()),
        _ => panic!("a top-level array is valid fixture content"),
    }
    match fixture_outcome(FileRead::Content { bytes: b"42".to_vec() }) {
        Outcome::JsonData { body } => assert_eq!(body, b"42".to_vec()),
        _ => panic!("a top-level scalar is valid fixture content"),
    }
}

#[test]
fn malformed_fixture_yields_server_error_with_cause() {
    // A truncated object must fail loudly, with the parser's message kept
    // for the operator's console.
    let bytes = b"{\"ok\": tr".to_vec();
    match fixture_outcome(FileRead::Content { bytes }) {
        Outcome::ServerError { error: FixtureError::Parse { message } } => {
            assert!(!message.is_empty());
        }
        _ => panic!("a malformed fixture must terminate in a server error"),
    }
}

#[test]
fn empty_fixture_is_malformed() {
    match fixture_outcome(FileRead::Content { bytes: Vec::new() }) {
        Outcome::ServerError { error: FixtureError::Parse { .. } } => {}
        _ => panic!("an empty file is not a JSON document"),
    }
}

#[test]
fn missing_fixture_yields_not_found() {
    match fixture_outcome(FileRead::Missing) {
        Outcome::NotFound => {}
        _ => panic!("a missing fixture is a plain not-found outcome"),
    }
}

#[test]
fn unreadable_fixture_yields_server_error_with_message() {
    let read = FileRead::Unreadable { message: "permission denied".to_string() };
    match fixture_outcome(read) {
        Outcome::ServerError { error: FixtureError::Unreadable { message } } => {
            assert_eq!(message, "permission denied");
        }
        _ => panic!("an unreadable fixture must terminate in a server error"),
    }
}
