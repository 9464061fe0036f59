use redmine_wrapper::types::{IssueFilter, ProjectStatus, UpdateProjectPayload, UserFilter};

#[test]
fn project_status_codes() {
    assert_eq!(ProjectStatus::Active.code(), 1);
    assert_eq!(ProjectStatus::Closed.code(), 5);
    assert_eq!(ProjectStatus::Archived.code(), 9);
    for s in [ProjectStatus::Active, ProjectStatus::Closed, ProjectStatus::Archived] {
        assert_eq!(ProjectStatus::from_code(s.code() as u64), Some(s));
        assert_eq!(ProjectStatus::from_code_text(&s.code().to_string()), Some(s));
    }
}

#[test]
fn project_status_rejects_unknown_codes() {
    assert_eq!(ProjectStatus::from_code(0), None);
    assert_eq!(ProjectStatus::from_code(2), None);
    assert_eq!(ProjectStatus::from_code_text("2"), None);
    assert_eq!(ProjectStatus::from_code_text("11"), None);
    assert_eq!(ProjectStatus::from_code_text(""), None);
    assert_eq!(ProjectStatus::from_code_text("active"), None);
}

#[test]
fn default_filters_and_payloads_are_empty() {
    let f = IssueFilter::default();
    assert!(f.project_id.is_none() && f.status_id.is_none() && f.custom_fields.is_none());
    let u = UserFilter::default();
    assert!(u.status.is_none() && u.name.is_none() && u.group_id.is_none());
    let p = UpdateProjectPayload::default();
    assert!(p.name.is_none() && p.tracker_ids.is_none());
}
