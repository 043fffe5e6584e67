use serde_json::Value;
use tiny_jsonrpc::decode::Decode;

#[test]
fn decode_value_is_a_copy() {
    let source = Value::Array(vec![Value::from(1), Value::from("x")]);
    assert_eq!(Value::decode(&source).unwrap(), source);
}

#[test]
fn decode_bool() {
    assert_eq!(bool::decode(&Value::from(true)), Ok(true));
    assert_eq!(bool::decode(&Value::from(false)), Ok(false));
    assert!(bool::decode(&Value::from(1)).is_err());
    assert!(bool::decode(&Value::Null).is_err());
}

#[test]
fn decode_i64_bounds() {
    assert_eq!(i64::decode(&Value::from(i64::MAX)), Ok(i64::MAX));
    assert_eq!(i64::decode(&Value::from(i64::MIN)), Ok(i64::MIN));
    assert_eq!(i64::decode(&Value::from(0)), Ok(0));
    assert!(i64::decode(&Value::from(9223372036854775808u64)).is_err());
}

#[test]
fn decode_u64_bounds() {
    assert_eq!(u64::decode(&Value::from(u64::MAX)), Ok(u64::MAX));
    assert_eq!(u64::decode(&Value::from(0)), Ok(0));
    assert!(u64::decode(&Value::from(-1)).is_err());
}

#[test]
fn decode_i32_bounds() {
    assert_eq!(i32::decode(&Value::from(2147483647)), Ok(i32::MAX));
    assert_eq!(i32::decode(&Value::from(-2147483648i64)), Ok(i32::MIN));
    assert!(i32::decode(&Value::from(2147483648i64)).is_err());
    assert!(i32::decode(&Value::from(-2147483649i64)).is_err());
}

#[test]
fn integers_are_not_read_from_doubles_or_strings() {
    assert!(i64::decode(&Value::from(1.0)).is_err());
    assert!(u64::decode(&Value::from(2.5)).is_err());
    assert!(i32::decode(&Value::from("42")).is_err());
}

#[test]
fn decode_string() {
    assert_eq!(String::decode(&Value::from("text")), Ok("text".to_string()));
    assert_eq!(String::decode(&Value::from("")), Ok(String::new()));
    assert!(String::decode(&Value::from(1)).is_err());
    assert!(String::decode(&Value::Null).is_err());
}

#[test]
fn decode_option() {
    assert_eq!(Option::<i64>::decode(&Value::Null), Ok(None));
    assert_eq!(Option::<i64>::decode(&Value::from(4)), Ok(Some(4)));
    assert!(Option::<i64>::decode(&Value::from("4")).is_err());
    assert_eq!(Option::<Value>::decode(&Value::Null), Ok(None));
    assert_eq!(Option::<Option<bool>>::decode(&Value::Null), Ok(None));
}

#[test]
fn null_is_not_read_as_a_value_that_cannot_be_absent() {
    assert!(i32::decode(&Value::Null).is_err());
    assert!(Vec::<Value>::decode(&Value::Null).is_err());
}

#[test]
fn decode_sequence() {
    let source = Value::Array(vec![Value::from(true), Value::from(false)]);
    assert_eq!(Vec::<bool>::decode(&source), Ok(vec![true, false]));
    assert_eq!(Vec::<bool>::decode(&Value::Array(vec![])), Ok(vec![]));
    let mixed = Value::Array(vec![Value::from(true), Value::from(0)]);
    assert!(Vec::<bool>::decode(&mixed).is_err());
    assert!(Vec::<bool>::decode(&Value::from(true)).is_err());
}

#[test]
fn decode_nested_sequence() {
    let source = Value::Array(vec![
        Value::Array(vec![Value::from(1)]),
        Value::Array(vec![]),
        Value::Array(vec![Value::from(2), Value::from(3)]),
    ]);
    assert_eq!(Vec::<Vec<u64>>::decode(&source), Ok(vec![vec![1], vec![], vec![2, 3]]));
}

#[test]
fn decode_tuple_of_one() {
    let source = Value::Array(vec![Value::from(9)]);
    assert_eq!(<(i32,)>::decode(&source), Ok((9,)));
    assert!(<(i32,)>::decode(&Value::Array(vec![])).is_err());
    assert!(<(i32,)>::decode(&Value::from(9)).is_err());
    assert!(<(i32,)>::decode(&Value::Array(vec![Value::from("9")])).is_err());
}

#[test]
fn decode_object() {
    let mut map = serde_json::Map::new();
    map.insert("a".to_string(), Value::from(1));
    let source = Value::Object(map.clone());
    assert_eq!(serde_json::Map::decode(&source), Ok(map));
    assert!(serde_json::Map::decode(&Value::Array(vec![])).is_err());
}
