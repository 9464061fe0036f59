use redmine_wrapper::{ErrorCategory, ErrorContext, RedmineError};

const ALL: [ErrorCategory; 12] = [
    ErrorCategory::AuthenticationFailed,
    ErrorCategory::AuthorizationDenied,
    ErrorCategory::ResourceNotFound,
    ErrorCategory::ValidationError,
    ErrorCategory::Conflict,
    ErrorCategory::RateLimited,
    ErrorCategory::ImpersonationFailed,
    ErrorCategory::UploadTooLarge,
    ErrorCategory::Timeout,
    ErrorCategory::NetworkError,
    ErrorCategory::ParseError,
    ErrorCategory::InternalError,
];

#[test]
fn from_status_maps_known_codes() {
    assert_eq!(ErrorCategory::from_status(401), Some(ErrorCategory::AuthenticationFailed));
    assert_eq!(ErrorCategory::from_status(403), Some(ErrorCategory::AuthorizationDenied));
    assert_eq!(ErrorCategory::from_status(404), Some(ErrorCategory::ResourceNotFound));
    assert_eq!(ErrorCategory::from_status(409), Some(ErrorCategory::Conflict));
    assert_eq!(ErrorCategory::from_status(412), Some(ErrorCategory::ImpersonationFailed));
    assert_eq!(ErrorCategory::from_status(413), Some(ErrorCategory::UploadTooLarge));
    assert_eq!(ErrorCategory::from_status(422), Some(ErrorCategory::ValidationError));
    assert_eq!(ErrorCategory::from_status(429), Some(ErrorCategory::RateLimited));
    assert_eq!(ErrorCategory::from_status(503), Some(ErrorCategory::NetworkError));
    assert_eq!(ErrorCategory::from_status(504), Some(ErrorCategory::Timeout));
}

#[test]
fn from_status_rejects_unmapped_codes() {
    assert_eq!(ErrorCategory::from_status(200), None);
    assert_eq!(ErrorCategory::from_status(302), None);
    assert_eq!(ErrorCategory::from_status(500), None);
}

#[test]
fn http_status_round_trips_through_from_status() {
    for c in ALL {
        let s = c.http_status();
        if c == ErrorCategory::ParseError || c == ErrorCategory::InternalError {
            assert_eq!(s, 500);
            assert_eq!(ErrorCategory::from_status(s), None);
        } else {
            assert_eq!(ErrorCategory::from_status(s), Some(c));
        }
    }
}

#[test]
fn descriptions_are_kebab_case_and_distinct() {
    let names: Vec<&str> = ALL.iter().map(|c| c.description()).collect();
    assert_eq!(names[0], "authentication-failed");
    assert_eq!(names[4], "conflict");
    assert_eq!(names[11], "internal-error");
    for (i, a) in names.iter().enumerate() {
        assert!(a.chars().all(|ch| ch.is_ascii_lowercase() || ch == '-'));
        for b in names.iter().skip(i + 1) {
            assert_ne!(a, b);
        }
    }
}

#[test]
fn api_error_carries_its_fields_and_a_uuid_v7() {
    let mut ctx = ErrorContext::default();
    ctx.operation = Some("issues.get".to_string());
    let e = RedmineError::api(ErrorCategory::Conflict, 409, "versão antiga", ctx);
    match &e {
        RedmineError::Api { category, status, detail, instance, context } => {
            assert_eq!(*category, ErrorCategory::Conflict);
            assert_eq!(*status, 409);
            assert_eq!(detail, "versão antiga");
            assert_eq!(context.operation.as_deref(), Some("issues.get"));
            assert_eq!(instance.len(), 36);
            let chars: Vec<char> = instance.chars().collect();
            for (i, c) in chars.iter().enumerate() {
                if i == 8 || i == 13 || i == 18 || i == 23 {
                    assert_eq!(*c, '-');
                } else {
                    assert!(c.is_ascii_hexdigit() && !c.is_ascii_uppercase());
                }
            }
            assert_eq!(chars[14], '7');
        }
        _ => panic!("expected an Api error"),
    }
    assert_eq!(e.category(), Some(ErrorCategory::Conflict));
}

#[test]
fn api_errors_get_distinct_instances() {
    let a = RedmineError::api(ErrorCategory::Timeout, 504, "a", ErrorContext::default());
    let b = RedmineError::api(ErrorCategory::Timeout, 504, "b", ErrorContext::default());
    match (a, b) {
        (RedmineError::Api { instance: x, .. }, RedmineError::Api { instance: y, .. }) => {
            assert_ne!(x, y)
        }
        _ => panic!("expected Api errors"),
    }
}

#[test]
fn category_of_each_variant() {
    let rl = RedmineError::RateLimited { retry_after: Some(3), context: Box::new(ErrorContext::default()) };
    assert_eq!(rl.category(), Some(ErrorCategory::RateLimited));
    let to = RedmineError::Timeout {
        duration: std::time::Duration::from_secs(30),
        context: Box::new(ErrorContext::default()),
    };
    assert_eq!(to.category(), Some(ErrorCategory::Timeout));
    assert_eq!(RedmineError::Url("x".into()).category(), None);
    assert_eq!(RedmineError::Config("x".into()).category(), None);
    let ser = serde_json::from_str::<u32>("not json").unwrap_err();
    assert_eq!(RedmineError::Serialization(ser).category(), None);
}

#[test]
fn messages_of_each_variant() {
    let e = RedmineError::Api {
        category: ErrorCategory::ResourceNotFound,
        status: 404,
        detail: "não existe".into(),
        instance: "abc".into(),
        context: Box::new(ErrorContext::default()),
    };
    assert_eq!(e.message(), "[resource-not-found] não existe (instance: abc)");
    let rl = RedmineError::RateLimited { retry_after: Some(12), context: Box::new(ErrorContext::default()) };
    assert_eq!(rl.message(), "rate limited (retry after: Some(12))");
    let rl = RedmineError::RateLimited { retry_after: None, context: Box::new(ErrorContext::default()) };
    assert_eq!(rl.message(), "rate limited (retry after: None)");
    let to = RedmineError::Timeout {
        duration: std::time::Duration::from_secs(30),
        context: Box::new(ErrorContext::default()),
    };
    assert_eq!(to.message(), "timeout após 30s");
    assert_eq!(RedmineError::Url("x:y".into()).message(), "URL inválida: x:y");
    assert_eq!(RedmineError::Config("falta".into()).message(), "erro de configuração: falta");
    let ser = serde_json::from_str::<u32>("[").unwrap_err();
    let text = ser.to_string();
    assert_eq!(RedmineError::Serialization(ser).message(), format!("erro JSON: {text}"));
}

#[test]
fn default_context_is_empty() {
    let c = ErrorContext::default();
    assert!(c.operation.is_none());
    assert!(c.http_status.is_none());
    assert!(c.api_errors.is_none());
    assert!(c.response_body.is_none());
    assert!(c.extra.is_empty());
}

#[test]
fn json_errors_convert_into_serialization_errors() {
    let err = serde_json::from_str::<serde_json::Value>("{").unwrap_err();
    let e = RedmineError::from(err);
    assert!(matches!(e, RedmineError::Serialization(_)));
    assert!(e.message().starts_with("erro JSON: "));
    assert_eq!(e.category(), None);
}
