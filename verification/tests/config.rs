use std::time::Duration;

use redmine_wrapper::{AuthMethod, RedmineConfig, RedmineConfigBuilder, RedmineError};

fn config_message(r: Result<RedmineConfig, RedmineError>) -> String {
    match r {
        Err(RedmineError::Config(m)) => m,
        Err(_) => panic!("expected a configuration error"),
        Ok(_) => panic!("expected an error"),
    }
}

#[test]
fn build_requires_base_url() {
    let r = RedmineConfigBuilder::default().token("abc").build();
    assert_eq!(config_message(r), "base_url é obrigatória");
}

#[test]
fn build_rejects_base_url_of_slashes_only() {
    let r = RedmineConfigBuilder::default().base_url("///").build();
    assert_eq!(config_message(r), "base_url não pode estar vazia");
    let r = RedmineConfigBuilder::default().base_url("").build();
    assert_eq!(config_message(r), "base_url não pode estar vazia");
}

#[test]
fn build_trims_trailing_slashes_and_applies_defaults() {
    let c = RedmineConfigBuilder::default()
        .base_url("https://redmine.example.com///")
        .build()
        .unwrap();
    assert_eq!(c.base_url, "https://redmine.example.com");
    assert_eq!(c.token, None);
    assert_eq!(c.switch_user, None);
    assert_eq!(c.auth_method, AuthMethod::Header);
    assert_eq!(c.timeout, Duration::from_secs(30));
    assert_eq!(c.max_rps, 10);
}

#[test]
fn build_keeps_every_given_setting() {
    let c = RedmineConfig::builder()
        .base_url(String::from("https://redmine.example.com/"))
        .token("abc123")
        .switch_user("admin")
        .auth_method(AuthMethod::Header)
        .timeout_secs(60)
        .max_rps(5)
        .build()
        .unwrap();
    assert_eq!(c.base_url, "https://redmine.example.com");
    assert_eq!(c.token.as_deref(), Some("abc123"));
    assert_eq!(c.switch_user.as_deref(), Some("admin"));
    assert_eq!(c.timeout, Duration::from_secs(60));
    assert_eq!(c.max_rps, 5);
}

#[test]
fn built_base_url_builds_again_unchanged() {
    let first = RedmineConfigBuilder::default()
        .base_url("https://host/redmine//")
        .build()
        .unwrap();
    let again = RedmineConfigBuilder::default()
        .base_url(first.base_url.clone())
        .build()
        .unwrap();
    assert_eq!(again.base_url, first.base_url);
    assert!(!again.base_url.ends_with('/'));
}

#[test]
fn default_config_values() {
    let c = RedmineConfig::default();
    assert_eq!(c.base_url, "");
    assert_eq!(c.token, None);
    assert_eq!(c.timeout, Duration::from_secs(30));
    assert_eq!(c.max_rps, 10);
    assert_eq!(AuthMethod::default(), AuthMethod::Header);
}

#[test]
fn api_url_appends_path() {
    let c = RedmineConfigBuilder::default()
        .base_url("https://r.example")
        .build()
        .unwrap();
    assert_eq!(c.api_url("/issues.json"), "https://r.example/issues.json");
    let copy = c.clone();
    assert_eq!(copy.base_url, c.base_url);
}

#[test]
fn debug_text_masks_the_api_key() {
    let c = RedmineConfig::builder()
        .base_url("https://redmine.example.com/")
        .token("secret-key")
        .switch_user("ana \"a\"")
        .build()
        .unwrap();
    let text = c.debug_text();
    assert_eq!(
        text,
        "RedmineConfig { base_url: \"https://redmine.example.com\", token: Some(\"***\"), \
         auth_method: Header, switch_user: Some(\"ana \\\"a\\\"\"), timeout: 30s, max_rps: 10 }"
    );
    assert!(!text.contains("secret-key"));
    let anonymous = RedmineConfig::builder().base_url("http://r").build().unwrap();
    assert!(anonymous.debug_text().contains("token: None"));
}
