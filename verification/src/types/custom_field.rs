use vstd::prelude::*;

use crate::types::base::RedmineId;
use crate::json::JsonValue;

verus! {

/// Kind of record that can have custom fields.
#[derive(Debug, Clone, Copy, PartialEq, Eq, Structural)]
pub enum CustomizedType {
    /// Custom field of issues.
    Issue,
    /// Custom field of time entries.
    TimeEntry,
    /// Custom field of projects.
    Project,
    /// Custom field of users.
    User,
    /// Custom field of groups.
    Group,
    /// Custom field of documents.
    Document,
    /// Custom field of versions.
    Version,
    /// Custom field of spent time.
    SpentTime,
}

/// Format of a custom field.
#[derive(Debug, Clone, Copy, PartialEq, Eq, Structural)]
pub enum FieldFormat {
    /// Free text (string).
    String,
    /// List of choices.
    List,
    /// Date.
    Date,
    /// Boolean (true or false).
    Bool,
    /// Integer.
    Int,
    /// Decimal number.
    Float,
    /// Reference to a user.
    User,
    /// Reference to a version.
    Version,
}

/// Definition of a custom field.
#[derive(Debug, Clone)]
pub struct CustomField {
    /// ID of the custom field.
    pub id: RedmineId,
    /// Name of the custom field.
    pub name: Option<String>,
    /// Kind of record the field applies to.
    pub customized_type: Option<CustomizedType>,
    /// Format of the field (text, list, date, ...).
    pub field_format: Option<FieldFormat>,
    /// Regular expression that the value must match.
    pub regexp: Option<String>,
    /// Minimum length of the value.
    pub min_length: Option<u32>,
    /// Maximum length of the value.
    pub max_length: Option<u32>,
    /// Whether the field is required.
    pub is_required: Option<bool>,
    /// Whether the field can be filtered on.
    pub is_filter: Option<bool>,
    /// Whether the field is searchable.
    pub searchable: Option<bool>,
    /// Whether the field takes several values.
    pub multiple: Option<bool>,
    /// Default value of the field.
    pub default_value: Option<JsonValue>,
    /// Possible values (of list fields).
    pub possible_values: Option<Vec<super::base::IdName>>,
    /// Whether the field is visible.
    pub visible: Option<bool>,
    /// Trackers the field applies to.
    pub trackers: Option<Vec<super::base::IdName>>,
    /// Roles that can see or edit the field.
    pub roles: Option<Vec<super::base::IdName>>,
}

} // verus!
