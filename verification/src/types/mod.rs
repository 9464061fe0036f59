pub mod attachment;
pub mod base;
pub mod custom_field;
pub mod enumeration;
pub mod file;
pub mod group;
pub mod issue;
pub mod issue_category;
pub mod issue_status;
pub mod journal;
pub mod membership;
pub mod my_account;
pub mod news;
pub mod project;
pub mod query;
pub mod relation;
pub mod role;
pub mod search;
pub mod time_entry;
pub mod tracker;
pub mod user;
pub mod version;
pub mod wiki;

pub use attachment::Attachment;
pub use base::{IdName, CustomFieldValue, CustomFieldPayload, UploadToken, UploadPayload, ErrorResponse};
pub use custom_field::{CustomizedType, FieldFormat, CustomField};
pub use enumeration::{IssuePriority, TimeEntryActivity, DocumentCategory};
pub use file::{File, CreateFilePayload};
pub use group::{Group, CreateGroupPayload, UpdateGroupPayload};
pub use issue::{AllowedStatus, IssueFilter};
pub use issue_category::{IssueCategory, CreateIssueCategoryPayload, UpdateIssueCategoryPayload};
pub use issue_status::IssueStatus;
pub use journal::{JournalDetail, Journal, UpdateJournalPayload};
pub use membership::{Membership, CreateMembershipPayload, UpdateMembershipPayload};
pub use my_account::MyAccount;
pub use news::{NewsComment, News, CreateNewsPayload, UpdateNewsPayload};
pub use project::{ProjectStatus, Project, CreateProjectPayload, UpdateProjectPayload};
pub use query::Query;
pub use relation::{RelationType, Relation, CreateRelationPayload};
pub use role::Role;
pub use search::{SearchResult, SearchFilter};
pub use time_entry::TimeEntryFilter;
pub use tracker::Tracker;
pub use user::{UserStatus, UserFilter, User, MembershipSummary, CreateUserPayload, UpdateUserPayload};
pub use version::{VersionStatus, VersionSharing, Version, CreateVersionPayload, UpdateVersionPayload};
pub use wiki::{WikiParent, WikiPageSummary, WikiPage, CreateWikiPagePayload};
pub use base::RedmineId;
