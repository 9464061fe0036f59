use redmine_wrapper::http::client::{
    auth_headers, build_url, check_client_config, check_response, check_void_response, read_document,
    client_build_error, decode_failure, extract_field, include_query, map_error, page_total,
    reassign_query, resource_path, PathSegment,
};
use redmine_wrapper::json::{JsonNumber, JsonValue};
use redmine_wrapper::{ErrorCategory, RedmineConfig, RedmineConfigBuilder, RedmineError};

fn config() -> RedmineConfig {
    RedmineConfigBuilder::default()
        .base_url("https://r.example")
        .build()
        .unwrap()
}

fn text(s: &str) -> JsonValue {
    JsonValue::String(s.to_string())
}

fn number(n: u64) -> JsonValue {
    JsonValue::Number(JsonNumber { text: n.to_string(), as_u64: Some(n) })
}

fn object(members: Vec<(&str, JsonValue)>) -> JsonValue {
    JsonValue::Object(members.into_iter().map(|(k, v)| (k.to_string(), v)).collect())
}

fn pairs(p: &[(&str, &str)]) -> Vec<(String, String)> {
    p.iter().map(|(k, v)| (k.to_string(), v.to_string())).collect()
}

#[test]
fn url_without_query_is_base_and_path() {
    assert_eq!(build_url(&config(), "/issues.json", &Vec::new()), "https://r.example/issues.json");
}

#[test]
fn url_query_is_form_encoded() {
    let q = pairs(&[("subject", "a b&c=d"), ("name", "ação"), ("sort", "id:desc"), ("x", "*-._~")]);
    assert_eq!(
        build_url(&config(), "/issues.json", &q),
        "https://r.example/issues.json?subject=a+b%26c%3Dd&name=a%C3%A7%C3%A3o&sort=id%3Adesc&x=*-._%7E"
    );
}

#[test]
fn url_query_encodes_keys_too() {
    let q = pairs(&[("f[]", "1"), ("cf_1", "")]);
    assert_eq!(build_url(&config(), "/p", &q), "https://r.example/p?f%5B%5D=1&cf_1=");
}

#[test]
fn auth_headers_follow_configuration() {
    assert!(auth_headers(&config()).is_empty());
    let c = RedmineConfigBuilder::default()
        .base_url("https://r.example")
        .token("k")
        .switch_user("jsmith")
        .build()
        .unwrap();
    assert_eq!(
        auth_headers(&c),
        pairs(&[("X-Redmine-API-Key", "k"), ("X-Redmine-Switch-User", "jsmith")])
    );
}

#[test]
fn map_error_takes_first_api_error_as_detail() {
    let body = r#"{"errors":["Subject cannot be blank","Tracker is invalid"]}"#;
    match map_error(422, body, "issues.create") {
        RedmineError::Api { category, status, detail, context, .. } => {
            assert_eq!(category, ErrorCategory::ValidationError);
            assert_eq!(status, 422);
            assert_eq!(detail, "Subject cannot be blank");
            assert_eq!(context.operation.as_deref(), Some("issues.create"));
            assert_eq!(context.http_status, Some(422));
            assert_eq!(context.api_errors.as_ref().map(|e| e.len()), Some(2));
            assert_eq!(context.response_body.as_deref(), Some(body));
        }
        _ => panic!("expected an Api error"),
    }
}

#[test]
fn map_error_without_api_errors_uses_status_message() {
    match map_error(500, "oops", "op") {
        RedmineError::Api { category, detail, context, .. } => {
            assert_eq!(category, ErrorCategory::InternalError);
            assert_eq!(detail, "erro HTTP 500");
            assert!(context.api_errors.is_none());
        }
        _ => panic!("expected an Api error"),
    }
    match map_error(404, "{\"errors\":[]}", "op") {
        RedmineError::Api { category, detail, .. } => {
            assert_eq!(category, ErrorCategory::ResourceNotFound);
            assert_eq!(detail, "erro HTTP 404");
        }
        _ => panic!("expected an Api error"),
    }
    match map_error(412, "", "op") {
        RedmineError::Api { category, detail, .. } => {
            assert_eq!(category, ErrorCategory::ImpersonationFailed);
            assert_eq!(detail, "impersonação inválida");
        }
        _ => panic!("expected an Api error"),
    }
}

#[test]
fn map_error_ignores_errors_that_are_not_strings() {
    match map_error(403, "{\"errors\":[1]}", "op") {
        RedmineError::Api { category, detail, context, .. } => {
            assert_eq!(category, ErrorCategory::AuthorizationDenied);
            assert_eq!(detail, "erro HTTP 403");
            assert!(context.api_errors.is_none());
        }
        _ => panic!("expected an Api error"),
    }
}

#[test]
fn map_error_429_is_rate_limited_with_retry_after() {
    let e = map_error(429, "{\"retry_after\":7}", "issues.list");
    assert_eq!(e.category(), Some(ErrorCategory::RateLimited));
    match e {
        RedmineError::RateLimited { retry_after, context } => {
            assert_eq!(retry_after, Some(7));
            assert_eq!(context.http_status, Some(429));
        }
        _ => panic!("expected RateLimited"),
    }
    match map_error(429, "busy", "issues.list") {
        RedmineError::RateLimited { retry_after, .. } => assert_eq!(retry_after, None),
        _ => panic!("expected RateLimited"),
    }
}

#[test]
fn mapped_error_category_matches_status() {
    for status in [401u16, 403, 404, 409, 412, 413, 422, 503, 504] {
        let e = map_error(status, "", "op");
        let c = e.category().unwrap();
        assert_eq!(c.http_status(), status);
    }
    assert_eq!(map_error(418, "", "op").category(), Some(ErrorCategory::InternalError));
}

#[test]
fn check_response_204_has_no_body() {
    match check_response(204, String::new(), "issues.get") {
        Err(RedmineError::Api { category, status, detail, context, .. }) => {
            assert_eq!(category, ErrorCategory::ParseError);
            assert_eq!(status, 204);
            assert_eq!(detail, "resposta 204 sem corpo");
            assert_eq!(context.http_status, Some(204));
        }
        _ => panic!("expected a ParseError"),
    }
}

#[test]
fn check_response_success_gives_body_back() {
    let r = check_response(201, "{\"a\":1}".to_string(), "op");
    assert_eq!(r.unwrap(), "{\"a\":1}");
    let r = check_response(404, "nope".to_string(), "op");
    assert_eq!(r.unwrap_err().category(), Some(ErrorCategory::ResourceNotFound));
}

#[test]
fn check_void_response_accepts_any_success() {
    assert!(check_void_response(204, "", "op").is_ok());
    assert!(check_void_response(200, "", "op").is_ok());
    let e = check_void_response(401, "", "op").unwrap_err();
    assert_eq!(e.category(), Some(ErrorCategory::AuthenticationFailed));
}

#[test]
fn decode_failure_keeps_message_status_and_body() {
    match decode_failure(200, "expected value".into(), "garbage".into(), "op") {
        RedmineError::Api { category, status, detail, context, .. } => {
            assert_eq!(category, ErrorCategory::ParseError);
            assert_eq!(status, 200);
            assert_eq!(detail, "expected value");
            assert_eq!(context.response_body.as_deref(), Some("garbage"));
        }
        _ => panic!("expected a ParseError"),
    }
}

#[test]
fn extract_field_finds_or_reports_member() {
    let env = object(vec![("issue", number(5))]);
    let v = extract_field(&env, "issue", 200, "issues.get").unwrap();
    assert_eq!(v.as_u64(), Some(5));
    match extract_field(&env, "project", 201, "projects.create") {
        Err(RedmineError::Api { category, status, detail, .. }) => {
            assert_eq!(category, ErrorCategory::ParseError);
            assert_eq!(status, 201);
            assert_eq!(detail, "campo 'project' não encontrado");
        }
        _ => panic!("expected a ParseError"),
    }
}

#[test]
fn page_total_reads_total_count() {
    assert_eq!(page_total(&object(vec![("total_count", number(250))])), 250);
    assert_eq!(page_total(&object(vec![("total_count", text("250"))])), 0);
    assert_eq!(page_total(&object(vec![])), 0);
    assert_eq!(page_total(&object(vec![("total_count", number((1u64 << 32) + 3))])), 3);
}

#[test]
fn resource_paths() {
    let p = resource_path(&vec![PathSegment::Name("issues".into()), PathSegment::Id(123)]);
    assert_eq!(p, "/issues/123.json");
    let p = resource_path(&vec![
        PathSegment::Name("projects".into()),
        PathSegment::Id(7),
        PathSegment::Name("wiki".into()),
        PathSegment::Name("Start".into()),
        PathSegment::Id(2),
    ]);
    assert_eq!(p, "/projects/7/wiki/Start/2.json");
    assert_eq!(resource_path(&vec![PathSegment::Name("issues".into())]), "/issues.json");
}

#[test]
fn include_and_reassign_queries() {
    assert_eq!(include_query(&["journals", "attachments"]), pairs(&[("include", "journals,attachments")]));
    assert_eq!(include_query(&[]), pairs(&[("include", "")]));
    assert_eq!(reassign_query(Some(42)), pairs(&[("reassign_to_id", "42")]));
    assert!(reassign_query(None).is_empty());
}

#[test]
fn client_config_must_have_base_url() {
    assert!(check_client_config(&config()).is_ok());
    match check_client_config(&RedmineConfig::default()) {
        Err(RedmineError::Config(m)) => assert_eq!(m, "base_url não pode estar vazia"),
        _ => panic!("expected a configuration error"),
    }
    match client_build_error("tls") {
        RedmineError::Config(m) => assert_eq!(m, "falha ao criar HTTP client: tls"),
        _ => panic!("expected a configuration error"),
    }
}

#[test]
fn map_error_reads_the_errors_of_the_body_itself() {
    match map_error(422, "not json at all", "op") {
        RedmineError::Api { detail, context, .. } => {
            assert_eq!(detail, "erro HTTP 422");
            assert!(context.api_errors.is_none());
        }
        _ => panic!("expected an Api error"),
    }
}

#[test]
fn read_document_parses_successful_bodies() {
    let d = read_document(200, "{\"issue\":{\"id\":5},\"total_count\":3}".to_string(), "op").unwrap();
    assert_eq!(page_total(&d), 3);
    match extract_field(&d, "issue", 200, "op") {
        Ok(JsonValue::Object(m)) => assert_eq!(m[0].0, "id"),
        _ => panic!("expected the issue"),
    }
    match read_document(200, "<html>".to_string(), "issues.get") {
        Err(RedmineError::Api { category, status, context, .. }) => {
            assert_eq!(category, ErrorCategory::ParseError);
            assert_eq!(status, 200);
            assert_eq!(context.response_body.as_deref(), Some("<html>"));
            assert_eq!(context.operation.as_deref(), Some("issues.get"));
        }
        _ => panic!("expected a ParseError"),
    }
    let e = read_document(404, "{\"errors\":[\"gone\"]}".to_string(), "op").unwrap_err();
    match e {
        RedmineError::Api { detail, .. } => assert_eq!(detail, "gone"),
        _ => panic!("expected an Api error"),
    }
    assert!(read_document(204, String::new(), "op").is_err());
}
