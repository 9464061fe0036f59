//! The operations of the resources of the Redmine API, as the requests they send.

pub mod endpoint;
pub mod attachments;
pub mod custom_fields;
pub mod enumerations;
pub mod files;
pub mod groups;
pub mod issue_categories;
pub mod issue_statuses;
pub mod issues;
pub mod journals;
pub mod memberships;
pub mod my_account;
pub mod news;
pub mod projects;
pub mod queries;
pub mod relations;
pub mod roles;
pub mod search;
pub mod time_entries;
pub mod trackers;
pub mod users;
pub mod versions;
pub mod wiki;
