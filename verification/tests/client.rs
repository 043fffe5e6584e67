use serde_json::Value;
use std::time::Duration;
use tiny_jsonrpc::client::{DEFAULT_CONNECTION_TIMEOUT_SECS, DEFAULT_TIMEOUT_SECS, DEFAULT_URL};
use tiny_jsonrpc::error::ErrorReason;
use tiny_jsonrpc::{Client, Error, Params};

fn object(members: Vec<(&str, Value)>) -> Value {
    let mut map = serde_json::Map::new();
    for (name, value) in members {
        map.insert(name.to_string(), value);
    }
    Value::Object(map)
}

fn client() -> Client {
    Client::new("http://example.test/rpc".to_string(), None, None)
}

#[test]
fn new_client_has_default_timeouts() {
    let client = client();
    assert_eq!(client.url(), "http://example.test/rpc");
    assert_eq!(client.timeout(), Duration::from_secs(5));
    assert_eq!(client.connection_timeout(), Duration::from_secs(10));
}

#[test]
fn new_client_takes_timeouts() {
    let client = Client::new(
        "http://example.test".to_string(),
        Some(Duration::from_millis(1500)),
        Some(Duration::from_secs(60)),
    );
    assert_eq!(client.timeout(), Duration::from_millis(1500));
    assert_eq!(client.connection_timeout(), Duration::from_secs(60));
    let client = Client::new("u".to_string(), Some(Duration::from_secs(1)), None);
    assert_eq!(client.timeout(), Duration::from_secs(1));
    assert_eq!(client.connection_timeout(), Duration::from_secs(10));
    let client = Client::new("u".to_string(), None, Some(Duration::from_secs(2)));
    assert_eq!(client.timeout(), Duration::from_secs(5));
    assert_eq!(client.connection_timeout(), Duration::from_secs(2));
}

#[test]
fn default_client() {
    let client = Client::default();
    assert_eq!(client.url(), "http://localhost:8545");
    assert_eq!(client.timeout(), Duration::from_secs(5));
    assert_eq!(client.connection_timeout(), Duration::from_secs(10));
}

#[test]
fn default_constants() {
    assert_eq!(DEFAULT_URL, "http://localhost:8545");
    assert_eq!(DEFAULT_TIMEOUT_SECS, 5);
    assert_eq!(DEFAULT_CONNECTION_TIMEOUT_SECS, 10);
}

#[test]
fn ids_start_at_zero_and_increase() {
    let mut client = client();
    let mut previous = client.next_id();
    assert_eq!(previous, 0);
    for expected in 1..100u64 {
        let id = client.next_id();
        assert_eq!(id, expected);
        assert!(id > previous);
        previous = id;
    }
}

#[test]
fn interleaved_callers_get_distinct_increasing_ids() {
    let mut client = client();
    let mut first_caller = Vec::new();
    let mut second_caller = Vec::new();
    for turn in 0..50 {
        if turn % 3 == 0 {
            first_caller.push(client.next_id());
        } else {
            second_caller.push(client.next_id());
        }
    }
    let mut all: Vec<u64> = first_caller.iter().chain(second_caller.iter()).copied().collect();
    all.sort();
    all.dedup();
    assert_eq!(all.len(), 50);
    assert!(first_caller.windows(2).all(|pair| pair[0] < pair[1]));
    assert!(second_caller.windows(2).all(|pair| pair[0] < pair[1]));
}

#[test]
fn clients_count_on_their_own() {
    let mut one = client();
    let mut other = client();
    assert_eq!(one.next_id(), 0);
    assert_eq!(one.next_id(), 1);
    assert_eq!(other.next_id(), 0);
    assert_eq!(one.next_id(), 2);
}

#[test]
fn request_takes_the_next_id() {
    let mut client = client();
    let params = Params::Array(vec![Value::from("AQVh2pG732YvtNaxEGkQUei3YA4cvo7d2i")]);
    let first = client.request("validateaddress", &params);
    let expected = object(vec![
        ("jsonrpc", Value::from("2.0")),
        ("method", Value::from("validateaddress")),
        ("params", Value::Array(vec![Value::from("AQVh2pG732YvtNaxEGkQUei3YA4cvo7d2i")])),
        ("id", Value::from(0u64)),
    ]);
    assert_eq!(first, expected);
    let second = client.request("getblockcount", &Params::Null);
    let expected = object(vec![
        ("jsonrpc", Value::from("2.0")),
        ("method", Value::from("getblockcount")),
        ("params", Value::Null),
        ("id", Value::from(1u64)),
    ]);
    assert_eq!(second, expected);
    assert_eq!(client.next_id(), 2);
}

#[test]
fn request_leaves_the_endpoint_and_timeouts() {
    let mut client = Client::new("http://h".to_string(), Some(Duration::from_secs(3)), None);
    let _ = client.request("m", &Params::Null);
    assert_eq!(client.url(), "http://h");
    assert_eq!(client.timeout(), Duration::from_secs(3));
    assert_eq!(client.connection_timeout(), Duration::from_secs(10));
}

#[test]
fn a_failed_response_does_not_touch_the_client() {
    let mut client = client();
    let _ = client.request("m", &Params::Null);
    let parsed: Result<Value, Error> = Client::parse_response(Value::Null);
    assert!(parsed.is_err());
    assert_eq!(client.next_id(), 1);
}

#[test]
fn response_with_integer_result() {
    let response = object(vec![
        ("jsonrpc", Value::from("2.0")),
        ("result", Value::from(42)),
        ("id", Value::from(1)),
    ]);
    let parsed: Result<i64, Error> = Client::parse_response(response);
    assert_eq!(parsed.unwrap(), 42);
}

#[test]
fn response_with_method_not_found() {
    let response = object(vec![
        ("jsonrpc", Value::from("2.0")),
        (
            "error",
            object(vec![
                ("code", Value::from(-32601)),
                ("message", Value::from("Method not found")),
            ]),
        ),
        ("id", Value::from(1)),
    ]);
    let parsed: Result<Value, Error> = Client::parse_response(response);
    match parsed {
        Err(Error::JsonRpc(error)) => {
            assert_eq!(error.code(), -32601);
            assert_eq!(error.reason(), ErrorReason::MethodNotFound);
            assert_eq!(error.message, "Method not found");
            assert_eq!(error.data, None);
        },
        other => panic!("unexpected outcome: {:?}", other),
    }
}

#[test]
fn response_with_neither_result_nor_error() {
    let response = object(vec![("jsonrpc", Value::from("2.0")), ("id", Value::from(1))]);
    let parsed: Result<Value, Error> = Client::parse_response(response);
    match parsed {
        Err(Error::Serialization(detail)) => {
            assert_eq!(detail, "malformed response: missing result and error")
        },
        other => panic!("unexpected outcome: {:?}", other),
    }
}

#[test]
fn response_with_both_result_and_error() {
    let response = object(vec![
        ("jsonrpc", Value::from("2.0")),
        ("result", Value::from(1)),
        ("error", object(vec![("code", Value::from(1)), ("message", Value::from("m"))])),
        ("id", Value::from(1)),
    ]);
    let parsed: Result<Value, Error> = Client::parse_response(response);
    match parsed {
        Err(Error::Serialization(detail)) => {
            assert_eq!(detail, "malformed response: both result and error")
        },
        other => panic!("unexpected outcome: {:?}", other),
    }
}

#[test]
fn response_with_null_result_for_optional_target() {
    let response = object(vec![
        ("jsonrpc", Value::from("2.0")),
        ("result", Value::Null),
        ("id", Value::from(1)),
    ]);
    let parsed: Result<Option<i64>, Error> = Client::parse_response(response);
    assert_eq!(parsed.unwrap(), None);
}

#[test]
fn response_with_null_result_for_required_target() {
    let response = object(vec![
        ("jsonrpc", Value::from("2.0")),
        ("result", Value::Null),
        ("id", Value::from(1)),
    ]);
    let parsed: Result<i64, Error> = Client::parse_response(response);
    assert!(matches!(parsed, Err(Error::Serialization(_))));
}

#[test]
fn response_with_result_of_another_type() {
    let response = object(vec![
        ("jsonrpc", Value::from("2.0")),
        ("result", Value::from("nineteen")),
        ("id", Value::from(1)),
    ]);
    let parsed: Result<i32, Error> = Client::parse_response(response);
    assert!(matches!(parsed, Err(Error::Serialization(_))));
}

#[test]
fn response_with_another_version() {
    let response = object(vec![
        ("jsonrpc", Value::from("1.1")),
        ("result", Value::from(1)),
        ("id", Value::from(1)),
    ]);
    let parsed: Result<i32, Error> = Client::parse_response(response);
    match parsed {
        Err(Error::Serialization(detail)) => assert_eq!(detail, "Unknown jsonrpc version"),
        other => panic!("unexpected outcome: {:?}", other),
    }
}

#[test]
fn response_with_structured_result() {
    let result = Value::Array(vec![Value::from("a"), Value::from("b")]);
    let response = object(vec![
        ("jsonrpc", Value::from("2.0")),
        ("result", result),
        ("id", Value::from("7")),
    ]);
    let parsed: Result<Vec<String>, Error> = Client::parse_response(response);
    assert_eq!(parsed.unwrap(), vec!["a".to_string(), "b".to_string()]);
}
