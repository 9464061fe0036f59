use vstd::prelude::*;

use crate::types::base::{RedmineId, IdName};
use crate::text::{decimal, digit_char};

verus! {

/// Status of a project in Redmine.
///
/// The API sends the status as an integer (1, 5, 9),
/// but a string holding the number is accepted too.
#[derive(Debug, Clone, Copy, PartialEq, Eq, Structural)]
pub enum ProjectStatus {
    /// Active project.
    Active,
    /// Closed project.
    Closed,
    /// Archived project.
    Archived,
}

/// A project as the API returns it.
#[derive(Debug, Clone)]
pub struct Project {
    /// ID of the project.
    pub id: RedmineId,
    /// Name of the project.
    pub name: Option<String>,
    /// Unique text identifier of the project.
    pub identifier: Option<String>,
    /// Description of the project.
    pub description: Option<String>,
    /// Homepage URL of the project.
    pub homepage: Option<String>,
    /// Current status of the project.
    pub status: Option<ProjectStatus>,
    /// Whether the project is public.
    pub is_public: Option<bool>,
    /// Whether members are inherited from the parent project.
    pub inherit_members: Option<bool>,
    /// Parent project (of a subproject).
    pub parent: Option<IdName>,
    /// Creation date of the project.
    pub created_on: Option<String>,
    /// Date of the project's last update.
    pub updated_on: Option<String>,
    /// Trackers available in the project.
    pub trackers: Option<Vec<IdName>>,
    /// Issue categories of the project.
    pub issue_categories: Option<Vec<IdName>>,
    /// Modules enabled in the project.
    pub enabled_modules: Option<Vec<IdName>>,
    /// Time-entry activities of the project.
    pub time_entry_activities: Option<Vec<IdName>>,
    /// Custom fields of the project.
    pub custom_fields: Option<Vec<crate::types::base::CustomFieldValue>>,
}

/// Payload that creates a project.
#[derive(Debug, Clone)]
pub struct CreateProjectPayload {
    /// Name of the project (required).
    pub name: String,
    /// Unique text identifier of the project (required).
    pub identifier: String,
    /// Description of the project.
    pub description: Option<String>,
    /// Homepage URL of the project.
    pub homepage: Option<String>,
    /// Whether the project is public.
    pub is_public: Option<bool>,
    /// ID of the parent project (for a subproject).
    pub parent_id: Option<RedmineId>,
    /// IDs of the trackers enabled in the project.
    pub tracker_ids: Option<Vec<RedmineId>>,
    /// Names of the modules enabled in the project.
    pub enabled_module_names: Option<Vec<String>>,
}

/// Payload that updates a project.
#[derive(Debug, Clone)]
pub struct UpdateProjectPayload {
    /// New name of the project.
    pub name: Option<String>,
    /// New description of the project.
    pub description: Option<String>,
    /// New homepage URL of the project.
    pub homepage: Option<String>,
    /// Whether the project is public.
    pub is_public: Option<bool>,
    /// ID of the parent project (for a subproject).
    pub parent_id: Option<RedmineId>,
    /// IDs of the trackers enabled in the project.
    pub tracker_ids: Option<Vec<RedmineId>>,
    /// Names of the modules enabled in the project.
    pub enabled_module_names: Option<Vec<String>>,
}

impl Default for UpdateProjectPayload {
    fn default() -> (r: Self)
        ensures
            r.name is None,
            r.description is None,
            r.homepage is None,
            r.is_public is None,
            r.parent_id is None,
            r.tracker_ids is None,
            r.enabled_module_names is None,
    {
        UpdateProjectPayload {
            name: None,
            description: None,
            homepage: None,
            is_public: None,
            parent_id: None,
            tracker_ids: None,
            enabled_module_names: None,
        }
    }
}

/// The number that stands for a project status in the API.
pub open spec fn project_status_code(s: ProjectStatus) -> u32 {
    match s {
        ProjectStatus::Active => 1,
        ProjectStatus::Closed => 5,
        ProjectStatus::Archived => 9,
    }
}

/// The status that the number `n` stands for, if any.
pub open spec fn project_status_of_code(n: u64) -> Option<ProjectStatus> {
    if n == 1 {
        Some(ProjectStatus::Active)
    } else if n == 5 {
        Some(ProjectStatus::Closed)
    } else if n == 9 {
        Some(ProjectStatus::Archived)
    } else {
        None
    }
}

/// The status that the text `t` stands for, if any: `"1"`, `"5"` or `"9"`.
pub open spec fn project_status_of_text(t: Seq<char>) -> Option<ProjectStatus> {
    if t == seq!['1'] {
        Some(ProjectStatus::Active)
    } else if t == seq!['5'] {
        Some(ProjectStatus::Closed)
    } else if t == seq!['9'] {
        Some(ProjectStatus::Archived)
    } else {
        None
    }
}

impl ProjectStatus {
    /// The number the API uses for the status (1, 5 or 9).
    pub fn code(&self) -> (n: u32)
        ensures
            n == project_status_code(*self),
    {
        match self {
            ProjectStatus::Active => 1,
            ProjectStatus::Closed => 5,
            ProjectStatus::Archived => 9,
        }
    }

    /// The status written as the number `n`; `None` for an unknown number.
    pub fn from_code(n: u64) -> (r: Option<Self>)
        ensures
            r == project_status_of_code(n),
    {
        if n == 1 {
            Some(ProjectStatus::Active)
        } else if n == 5 {
            Some(ProjectStatus::Closed)
        } else if n == 9 {
            Some(ProjectStatus::Archived)
        } else {
            None
        }
    }

    /// The status written as the text `t` (`"1"`, `"5"` or `"9"`); `None`
    /// for any other text.
    pub fn from_code_text(t: &str) -> (r: Option<Self>)
        ensures
            r == project_status_of_text(t@),
    {
        if t.unicode_len() != 1 {
            return None;
        }
        let c = t.get_char(0);
        assert(c == t@[0]);
        if c == '1' {
            assert(t@ =~= seq!['1']);
            Some(ProjectStatus::Active)
        } else if c == '5' {
            assert(t@ =~= seq!['5']);
            Some(ProjectStatus::Closed)
        } else if c == '9' {
            assert(t@ =~= seq!['9']);
            Some(ProjectStatus::Archived)
        } else {
            assert(t@ != seq!['1'] && t@ != seq!['5'] && t@ != seq!['9']);
            None
        }
    }
}

/// A status is found again from its number, and from its number written as
/// text.
pub proof fn lemma_project_status_round_trip(s: ProjectStatus)
    ensures
        project_status_of_code(project_status_code(s) as u64) == Some(s),
        project_status_of_text(decimal(project_status_code(s) as nat)) == Some(s),
{
    let n = project_status_code(s) as nat;
    let t = decimal(n);
    assert(t =~= seq![digit_char(n)]);
    match s {
        ProjectStatus::Active => assert(t =~= seq!['1']),
        ProjectStatus::Closed => {
            assert(t =~= seq!['5']);
            assert(t[0] != seq!['1'][0]);
        },
        ProjectStatus::Archived => {
            assert(t =~= seq!['9']);
            assert(t[0] != seq!['1'][0]);
            assert(t[0] != seq!['5'][0]);
        },
    }
}

/// A number that stands for a status is that status's number.
pub proof fn lemma_project_status_code_inverse(n: u64)
    requires
        project_status_of_code(n) is Some,
    ensures
        project_status_code(project_status_of_code(n)->0) == n,
{
}

} // verus!
