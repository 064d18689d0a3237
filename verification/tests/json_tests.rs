use communicator::json::{JsonNumber, JsonValue};

fn object(entries: Vec<(&str, JsonValue)>) -> JsonValue {
    JsonValue::Object(entries.into_iter().map(|(k, v)| (k.to_string(), v)).collect())
}

#[test]
fn get_finds_first_entry_with_key() {
    let v = object(vec![
        ("a", JsonValue::Bool(true)),
        ("b", JsonValue::Number(JsonNumber::PosInt(7))),
        ("a", JsonValue::Null),
    ]);
    assert!(matches!(v.get("a"), Some(JsonValue::Bool(true))));
    assert_eq!(v.get("b").and_then(|x| x.as_u64()), Some(7));
    assert!(v.get("c").is_none());
}

#[test]
fn get_on_non_objects_is_none() {
    assert!(JsonValue::Null.get("a").is_none());
    assert!(JsonValue::Str("a".to_string()).get("a").is_none());
    assert!(JsonValue::Array(vec![JsonValue::Null]).get("0").is_none());
}

#[test]
fn as_str_and_as_u64() {
    assert_eq!(JsonValue::Str("x".to_string()).as_str().map(|s| s.as_str()), Some("x"));
    assert!(JsonValue::Bool(false).as_str().is_none());
    assert_eq!(JsonValue::Number(JsonNumber::PosInt(5)).as_u64(), Some(5));
    assert_eq!(JsonValue::Number(JsonNumber::NegInt(-5)).as_u64(), None);
    assert_eq!(JsonValue::Number(JsonNumber::Float("1.5".to_string())).as_u64(), None);
    assert_eq!(JsonValue::Str("5".to_string()).as_u64(), None);
}
