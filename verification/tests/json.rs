use redmine_wrapper::json::{JsonNumber, JsonValue};

fn text(s: &str) -> JsonValue {
    JsonValue::String(s.to_string())
}

#[test]
fn get_reads_object_members_only() {
    let v = JsonValue::Object(vec![
        ("a".to_string(), text("x")),
        ("b".to_string(), JsonValue::Null),
    ]);
    assert!(matches!(v.get("a"), Some(JsonValue::String(s)) if s == "x"));
    assert!(matches!(v.get("b"), Some(JsonValue::Null)));
    assert!(v.get("c").is_none());
    assert!(JsonValue::Array(vec![text("a")]).get("a").is_none());
}

#[test]
fn as_u64_reads_unsigned_numbers() {
    let n = JsonValue::Number(JsonNumber { text: "42".into(), as_u64: Some(42) });
    assert_eq!(n.as_u64(), Some(42));
    let f = JsonValue::Number(JsonNumber { text: "1.5".into(), as_u64: None });
    assert_eq!(f.as_u64(), None);
    assert_eq!(text("42").as_u64(), None);
}

#[test]
fn as_string_list_needs_strings_only() {
    let ok = JsonValue::Array(vec![text("a"), text("b")]);
    assert_eq!(ok.as_string_list(), Some(vec!["a".to_string(), "b".to_string()]));
    let mixed = JsonValue::Array(vec![text("a"), JsonValue::Bool(true)]);
    assert_eq!(mixed.as_string_list(), None);
    assert_eq!(JsonValue::Array(vec![]).as_string_list(), Some(vec![]));
    assert_eq!(text("a").as_string_list(), None);
}

#[test]
fn clone_copies_nested_documents() {
    let v = JsonValue::Object(vec![(
        "list".to_string(),
        JsonValue::Array(vec![text("a"), JsonValue::Bool(false)]),
    )]);
    let c = v.clone();
    match c.get("list") {
        Some(JsonValue::Array(items)) => {
            assert_eq!(items.len(), 2);
            assert!(matches!(&items[0], JsonValue::String(s) if s == "a"));
            assert!(matches!(&items[1], JsonValue::Bool(false)));
        }
        _ => panic!("expected the list"),
    }
}
