use redmine_wrapper::json::{JsonNumber, JsonValue};
use redmine_wrapper::types::SearchFilter;
use redmine_wrapper::resources::endpoint::{request_document, RequestBody, RequestKind};
use redmine_wrapper::resources::{
    attachments, enumerations, groups, issue_categories, issues, journals, my_account, projects,
    search, users, wiki,
};

fn pair(k: &str, v: &str) -> (String, String) {
    (k.to_string(), v.to_string())
}

#[test]
fn issue_get_names_the_issue_endpoint() {
    let e = issues::get(123);
    assert_eq!(e.path, "/issues/123.json");
    assert!(e.query.is_empty());
    assert_eq!(e.key, "issue");
    assert_eq!(e.operation, "issues.get");
}

#[test]
fn includes_are_joined_by_commas() {
    let e = issues::get_with_includes(7, &["journals", "attachments"]);
    assert_eq!(e.path, "/issues/7.json");
    assert_eq!(e.query, vec![pair("include", "journals,attachments")]);
    assert_eq!(e.operation, "issues.get_with_includes");
}

#[test]
fn allowed_statuses_are_asked_for_by_include() {
    let e = issues::get_allowed_statuses(9);
    assert_eq!(e.path, "/issues/9.json");
    assert_eq!(e.query, vec![pair("include", "allowed_statuses")]);
    assert_eq!(e.key, "issue");
}

#[test]
fn watcher_removal_names_both_ids() {
    let e = issues::remove_watcher(12, 34);
    assert_eq!(e.path, "/issues/12/watchers/34.json");
    assert_eq!(e.key, "");
    assert_eq!(e.operation, "issues.remove_watcher");
}

#[test]
fn issue_list_carries_the_filter() {
    let f = JsonValue::Object(vec![
        ("project_id".to_string(), JsonValue::String("web".into())),
        ("status_id".to_string(), JsonValue::String("open".into())),
    ]);
    let e = issues::list(Some(&f));
    assert_eq!(e.path, "/issues.json");
    assert_eq!(e.query, vec![pair("project_id", "web"), pair("status_id", "open")]);
    assert_eq!(e.key, "issues");
    assert!(issues::list(None).query.is_empty());
}

#[test]
fn category_deletion_may_reassign() {
    let kept = issue_categories::delete(5, Some(8));
    assert_eq!(kept.path, "/issue_categories/5.json");
    assert_eq!(kept.query, vec![pair("reassign_to_id", "8")]);
    assert!(issue_categories::delete(5, None).query.is_empty());
}

#[test]
fn nested_resources_sit_under_their_project() {
    assert_eq!(projects::archive(3).path, "/projects/3/archive.json");
    assert_eq!(enumerations::list_issue_priorities().path, "/enumerations/issue_priorities.json");
    assert_eq!(my_account::get().path, "/my/account.json");
    assert_eq!(users::get_current_user().path, "/users/current.json");
}

#[test]
fn wiki_pages_are_named_by_title_and_version() {
    let e = wiki::get_version(2, "Start", 4);
    assert_eq!(e.path, "/projects/2/wiki/Start/4.json");
    assert_eq!(e.key, "wiki_page");
    let includes: &[&str] = &["attachments"];
    let g = wiki::get(2, "Start", Some(includes));
    assert_eq!(g.query, vec![pair("include", "attachments")]);
    assert!(wiki::get(2, "Start", None).query.is_empty());
    assert_eq!(wiki::list(2).path, "/projects/2/wiki/index.json");
}

#[test]
fn search_sends_the_flattened_filter() {
    let f = JsonValue::Object(vec![
        ("q".to_string(), JsonValue::String("bug".into())),
        ("issues".to_string(), JsonValue::Bool(true)),
    ]);
    let filter = SearchFilter {
        query: "bug".to_string(),
        offset: None,
        limit: None,
        scope: None,
        all_words: None,
        titles_only: None,
        issues: Some(true),
        news: None,
        documents: None,
        changesets: None,
        wiki_pages: None,
        messages: None,
        projects: None,
        open_issues: None,
        attachments: None,
    };
    let e = search::search(&filter, &f);
    assert_eq!(e.path, "/search.json");
    assert_eq!(e.query, vec![pair("q", "bug"), pair("issues", "1")]);
    assert_eq!(e.key, "results");
}

#[test]
fn search_pages_follow_the_filter() {
    let f = JsonValue::Object(vec![
        ("q".to_string(), JsonValue::String("bug".into())),
        ("offset".to_string(), JsonValue::Number(JsonNumber { text: "20".to_string(), as_u64: Some(20) })),
    ]);
    let filter = SearchFilter {
        query: "bug".to_string(),
        offset: Some(20),
        limit: None,
        scope: None,
        all_words: None,
        titles_only: None,
        issues: None,
        news: None,
        documents: None,
        changesets: None,
        wiki_pages: None,
        messages: None,
        projects: None,
        open_issues: None,
        attachments: None,
    };
    let e = search::search(&filter, &f);
    assert_eq!(e.query, vec![pair("q", "bug"), pair("offset", "20"), pair("offset", "20")]);
}

#[test]
fn uploads_send_the_file_name_as_a_query_parameter() {
    let e = attachments::upload("a&b.png");
    assert_eq!(e.path, "/uploads.json");
    assert_eq!(e.query, vec![pair("filename", "a&b.png")]);
    assert_eq!(e.key, "upload");
    assert_eq!(e.operation, "attachments.upload");
}

#[test]
fn listings_of_one_page_ask_for_the_default_size() {
    let e = enumerations::list_issue_priorities();
    assert_eq!(e.kind, RequestKind::GetPage);
    assert_eq!(e.query, vec![pair("limit", "100")]);
    assert_eq!(wiki::list(2).query, vec![pair("limit", "100")]);
}

#[test]
fn each_operation_says_how_it_is_sent() {
    assert_eq!(issues::list(None).kind, RequestKind::GetAll);
    assert_eq!(issues::get(1).kind, RequestKind::GetOne);
    assert_eq!(issues::create().kind, RequestKind::PostOne);
    assert_eq!(issues::update(1).kind, RequestKind::Put);
    assert_eq!(issues::delete(1).kind, RequestKind::Delete);
    assert_eq!(issues::add_watcher(1, 2).kind, RequestKind::Post);
    assert_eq!(attachments::upload("f").kind, RequestKind::Upload);
}

fn member(d: &JsonValue, key: &str) -> JsonValue {
    match d {
        JsonValue::Object(m) => {
            assert_eq!(m.len(), 1);
            assert_eq!(m[0].0, key);
            m[0].1.clone()
        }
        _ => panic!("not an object"),
    }
}

#[test]
fn payloads_are_wrapped_in_their_member() {
    let e = issues::create();
    assert!(matches!(&e.body, RequestBody::Wrapped(m) if m == "issue"));
    let payload = JsonValue::Object(vec![("subject".to_string(), JsonValue::String("x".into()))]);
    let d = request_document(&e.body, payload).unwrap();
    let inner = member(&d, "issue");
    assert!(matches!(member(&inner, "subject"), JsonValue::String(t) if t == "x"));
    assert!(matches!(&projects::update(3).body, RequestBody::Wrapped(m) if m == "project"));
}

#[test]
fn clearing_a_journal_sends_empty_notes() {
    let e = journals::remove(1);
    assert_eq!(e.path, "/journals/1.json");
    assert_eq!(e.kind, RequestKind::Put);
    let d = request_document(&e.body, JsonValue::Null).unwrap();
    let journal = member(&d, "journal");
    assert!(matches!(member(&journal, "notes"), JsonValue::String(t) if t.is_empty()));
}

#[test]
fn fixed_bodies() {
    let d = request_document(&projects::archive(3).body, JsonValue::Null).unwrap();
    assert!(matches!(&d, JsonValue::Object(m) if m.is_empty()));
    let w = request_document(&groups::add_user(4, 9).body, JsonValue::Null).unwrap();
    match member(&w, "user_id") {
        JsonValue::Number(n) => {
            assert_eq!(n.as_u64, Some(9));
            assert_eq!(n.text, "9");
        }
        _ => panic!("not a number"),
    }
    assert!(request_document(&issues::get(1).body, JsonValue::Null).is_none());
}
