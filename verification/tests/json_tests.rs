use claudio::json::{parse_u64, JsonValue};

fn obj(members: Vec<(&str, JsonValue)>) -> JsonValue {
    JsonValue::Object(members.into_iter().map(|(k, v)| (k.to_string(), v)).collect())
}

#[test]
fn set_field_on_null_makes_an_object() {
    let mut v = JsonValue::Null;
    v.set_field("theme", JsonValue::string("light"));
    match &v {
        JsonValue::Object(m) => {
            assert_eq!(m.len(), 1);
            assert_eq!(m[0].0, "theme");
        }
        _ => panic!("not an object"),
    }
    assert_eq!(v.get("theme").and_then(|x| x.as_str()).map(|s| s.as_str()), Some("light"));
}

#[test]
fn set_field_replaces_in_place_and_keeps_others() {
    let mut v = obj(vec![
        ("a", JsonValue::Bool(true)),
        ("theme", JsonValue::string("dark")),
        ("b", JsonValue::Number("3".to_string())),
    ]);
    v.set_field("theme", JsonValue::string("light"));
    match &v {
        JsonValue::Object(m) => {
            assert_eq!(m.len(), 3);
            assert_eq!(m[1].0, "theme");
        }
        _ => panic!("not an object"),
    }
    assert_eq!(v.get("theme").and_then(|x| x.as_str()).map(|s| s.as_str()), Some("light"));
    assert_eq!(v.get("a").and_then(|x| x.as_bool()), Some(true));
    assert_eq!(v.get("b").and_then(|x| x.as_u64()), Some(3));
    v.set_field("c", JsonValue::Null);
    match &v {
        JsonValue::Object(m) => assert_eq!(m.len(), 4),
        _ => panic!("not an object"),
    }
}

#[test]
fn get_on_non_objects_and_missing_keys() {
    assert!(JsonValue::string("x").get("a").is_none());
    assert!(obj(vec![]).get("a").is_none());
    assert!(JsonValue::Array(vec![]).as_array().is_some());
    assert!(JsonValue::Null.as_str().is_none());
}

#[test]
fn numbers_read_as_u64() {
    assert_eq!(parse_u64("42"), Some(42));
    assert_eq!(parse_u64("0"), Some(0));
    assert_eq!(parse_u64("18446744073709551615"), Some(u64::MAX));
    assert_eq!(parse_u64("18446744073709551616"), None);
    assert_eq!(parse_u64("-1"), None);
    assert_eq!(parse_u64("1.0"), None);
    assert_eq!(parse_u64("1e3"), None);
    assert_eq!(parse_u64(""), None);
    assert_eq!(JsonValue::string("5").as_u64(), None);
}
