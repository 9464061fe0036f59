use redmine_wrapper::json::JsonValue;
use redmine_wrapper::utils::query::filter_to_query;

#[test]
fn test_filter_to_query_none() {
    let result = filter_to_query(None);
    assert!(result.is_empty());
}

#[test]
fn test_flatten_simple() {
    // The document that a filter `{ name: Some("test"), active: Some(true) }` serialises to.
    let f = JsonValue::Object(vec![
        ("name".to_string(), JsonValue::String("test".into())),
        ("active".to_string(), JsonValue::Bool(true)),
    ]);
    let result = filter_to_query(Some(&f));
    assert!(result.contains(&("name".to_string(), "test".to_string())));
    assert!(result.contains(&("active".to_string(), "1".to_string())));
}
