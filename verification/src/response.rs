//! Decoded representations of the service's responses, and the display
//! transforms the table renderer applies to optional columns.

use vstd::prelude::*;
use vstd::string::StringExecFns;
use crate::digits::{i32_dec_rep, i32_to_string};

verus! {

/// The assignee identity as the service may send it: either an integer id
/// or an opaque string id. Decoded once at the model boundary and
/// normalized to a single string form everywhere else.
pub enum UserID {
    IntId(i32),
    UUID(String),
}

/// The one string form every assignee identity normalizes to.
pub open spec fn user_id_chars(u: UserID) -> Seq<char> {
    match u {
        UserID::IntId(i) => i32_dec_rep(i as int),
        UserID::UUID(s) => s@,
    }
}

impl UserID {
    /// Normalizes the identity to its string form: integer ids render in
    /// decimal, opaque ids pass through unchanged.
    pub fn normalize(&self) -> (r: String)
        ensures
            r@ == user_id_chars(*self),
    {
        match self {
            UserID::IntId(i) => i32_to_string(*i),
            UserID::UUID(s) => s.clone(),
        }
    }
}

pub struct User {
    pub id: UserID,
    pub username: String,
    pub email: String,
}

impl User {
    /// The label a user renders as: the email address.
    pub fn display(&self) -> (r: String)
        ensures
            r@ == self.email@,
    {
        self.email.clone()
    }
}

pub struct ProjectResponse {
    pub id: i32,
    pub created_by: User,
    pub title: String,
    pub description: String,
    pub code: String,
    pub created_at: String,
    pub modified_at: String,
}

impl ProjectResponse {
    /// The label a project renders as: "code-title".
    pub fn display(&self) -> (r: String)
        ensures
            r@ == self.code@ + "-"@ + self.title@,
    {
        let mut s = self.code.clone();
        s.append("-");
        s.append(self.title.as_str());
        s
    }
}

pub struct ProjectTaskResponse {
    pub id: i32,
    pub title: String,
    pub code: String,
    pub created_at: String,
}

impl ProjectTaskResponse {
    /// The label a project's task summary renders as: "code-title".
    pub fn display(&self) -> (r: String)
        ensures
            r@ == self.code@ + "-"@ + self.title@,
    {
        let mut s = self.code.clone();
        s.append("-");
        s.append(self.title.as_str());
        s
    }
}

pub struct SubTaskResponse {
    pub title: String,
    pub code: String,
    pub status: String,
    pub created_at: String,
}

/// A fetched task: issue kind and status still in wire form, the due date
/// and parent id optional, and the assignee identity already unified.
pub struct TaskResponse {
    pub id: i32,
    pub project: ProjectTaskResponse,
    pub title: String,
    pub code: String,
    pub issue: String,
    pub description: String,
    pub created_by: User,
    pub status: String,
    pub due_date: Option<String>,
    pub modified_at: String,
    pub subtasks: Option<Vec<SubTaskResponse>>,
    pub assigned_to: User,
    pub created_at: String,
    pub parent: Option<i32>,
}

/// What the subtasks column shows: present and non-empty, present and
/// empty, or absent.
pub open spec fn subtasks_cell(t: Option<Seq<SubTaskResponse>>) -> Seq<char> {
    match t {
        Some(v) => if v.len() == 0 {
            "No"@
        } else {
            "Yes"@
        },
        None => "----"@,
    }
}

/// Renders the subtasks column of the task table.
pub fn display_subtasks(tasks: &Option<Vec<SubTaskResponse>>) -> (r: String)
    ensures
        r@ == subtasks_cell(match *tasks {
            Some(ref v) => Some(v@),
            None => None,
        }),
{
    match tasks {
        Some(v) => if v.len() == 0 {
            String::from_str("No")
        } else {
            String::from_str("Yes")
        },
        None => String::from_str("----"),
    }
}

/// What an optional text column shows: the value, or a placeholder.
pub open spec fn optional_cell(t: Option<Seq<char>>) -> Seq<char> {
    match t {
        Some(v) => v,
        None => "N/A"@,
    }
}

/// Renders the due-date column of the task table.
pub fn display_due_date(due: &Option<String>) -> (r: String)
    ensures
        r@ == optional_cell(match *due {
            Some(ref v) => Some(v@),
            None => None,
        }),
{
    match due {
        Some(v) => v.clone(),
        None => String::from_str("N/A"),
    }
}

/// Renders the parent-id column of the task table.
pub fn display_parent(parent: &Option<i32>) -> (r: String)
    ensures
        r@ == optional_cell(match *parent {
            Some(v) => Some(i32_dec_rep(v as int)),
            None => None,
        }),
{
    match parent {
        Some(v) => i32_to_string(*v),
        None => String::from_str("N/A"),
    }
}

/// A structured 4xx payload for project operations: a list of messages per
/// rejected field, plus optional free-form detail.
pub struct ClientErrorResponse {
    pub title: Option<Vec<String>>,
    pub description: Option<Vec<String>>,
    pub code: Option<Vec<String>>,
    pub detail: Option<String>,
    pub non_field_errors: Option<Vec<String>>,
}

/// A structured 4xx payload for task operations.
pub struct TaskErrorResponse {
    pub project_id: Option<Vec<String>>,
    pub title: Option<Vec<String>>,
    pub description: Option<Vec<String>>,
    pub status: Option<Vec<String>>,
    pub issue: Option<Vec<String>>,
    pub due_date: Option<Vec<String>>,
    pub assigned_to_id: Option<Vec<String>>,
    pub parent_id: Option<Vec<String>>,
    pub detail: Option<String>,
    pub non_field_errors: Option<Vec<String>>,
}

} // verus!
