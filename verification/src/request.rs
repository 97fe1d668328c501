//! The outbound task payload, assembled for "create" and for "edit".

use vstd::prelude::*;

verus! {

/// A full task draft as the service expects it: numeric wire values for
/// status and issue kind, and the assignee kept as an opaque string.
pub struct TaskRequest {
    pub project_id: i32,
    pub title: String,
    pub description: String,
    pub status: i32,
    pub issue: i32,
    pub due_date: Option<String>,
    pub assigned_to_id: String,
    pub parent_id: Option<i32>,
}

} // verus!
