use redmine_wrapper::json::{JsonNumber, JsonValue};
use redmine_wrapper::utils::query::{filter_to_query, flatten_value};

fn text(s: &str) -> JsonValue {
    JsonValue::String(s.to_string())
}

fn pairs(p: &[(&str, &str)]) -> Vec<(String, String)> {
    p.iter().map(|(k, v)| (k.to_string(), v.to_string())).collect()
}

#[test]
fn flatten_nested_objects_and_arrays() {
    let doc = JsonValue::Object(vec![
        ("status_id".to_string(), text("open")),
        (
            "cf".to_string(),
            JsonValue::Object(vec![("1".to_string(), text("a"))]),
        ),
        (
            "ids".to_string(),
            JsonValue::Array(vec![
                JsonValue::Number(JsonNumber { text: "3".into(), as_u64: Some(3) }),
                JsonValue::Number(JsonNumber { text: "-4".into(), as_u64: None }),
            ]),
        ),
        ("gone".to_string(), JsonValue::Null),
        ("closed".to_string(), JsonValue::Bool(false)),
    ]);
    assert_eq!(
        filter_to_query(Some(&doc)),
        pairs(&[
            ("status_id", "open"),
            ("cf[1]", "a"),
            ("ids[0]", "3"),
            ("ids[1]", "-4"),
            ("closed", "0"),
        ])
    );
}

#[test]
fn flatten_under_prefix() {
    let prefix = "f".to_string();
    let doc = JsonValue::Array(vec![text("x"), JsonValue::Array(vec![text("y")])]);
    assert_eq!(flatten_value(&prefix, &doc), pairs(&[("f[0]", "x"), ("f[1][0]", "y")]));
    assert!(flatten_value(&prefix, &JsonValue::Null).is_empty());
    assert_eq!(flatten_value(&String::new(), &text("v")), pairs(&[("", "v")]));
}

#[test]
fn flatten_null_document_gives_nothing() {
    assert!(filter_to_query(Some(&JsonValue::Null)).is_empty());
    assert!(filter_to_query(Some(&JsonValue::Object(vec![]))).is_empty());
}
