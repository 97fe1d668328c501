//! Validation and merging for the project create and edit flows.

use vstd::prelude::*;
use vstd::string::StringExecFns;
use crate::response::ProjectResponse;
use crate::text::{str_eq, str_is_empty};

verus! {

/// The outbound project payload: title, description and code.
pub struct ProjectDraft {
    pub title: String,
    pub description: String,
    pub code: String,
}

/// Why the project create inputs were rejected, in prompt order.
#[derive(Clone, Copy, Debug, PartialEq, Eq, Structural)]
pub enum ProjectInputError {
    MissingTitle,
    MissingCode,
    DescriptionDeclined,
}

/// The first error of the project create sequencing, or None when the
/// inputs are accepted: title and code must be non-empty, and the
/// description gate must be answered "Y" to capture a description.
pub open spec fn project_create_error(
    title: Seq<char>,
    code: Seq<char>,
    gate: Seq<char>,
) -> Option<ProjectInputError> {
    if title.len() == 0 {
        Some(ProjectInputError::MissingTitle)
    } else if code.len() == 0 {
        Some(ProjectInputError::MissingCode)
    } else if gate != "Y"@ {
        Some(ProjectInputError::DescriptionDeclined)
    } else {
        None
    }
}

/// The project create sequencing: validates the inputs in prompt order and
/// assembles the draft with the captured description.
pub fn build_project_draft(title: &str, code: &str, gate: &str, description: &str) -> (r: Result<
    ProjectDraft,
    ProjectInputError,
>)
    ensures
        r is Err <==> project_create_error(title@, code@, gate@) is Some,
        r matches Err(e) ==> project_create_error(title@, code@, gate@) == Some(e),
        r matches Ok(d) ==> d.title@ == title@ && d.code@ == code@ && d.description@
            == description@,
{
    if str_is_empty(title) {
        return Err(ProjectInputError::MissingTitle);
    }
    if str_is_empty(code) {
        return Err(ProjectInputError::MissingCode);
    }
    if !str_eq(gate, "Y") {
        return Err(ProjectInputError::DescriptionDeclined);
    }
    Ok(
        ProjectDraft {
            title: String::from_str(title),
            description: String::from_str(description),
            code: String::from_str(code),
        },
    )
}

/// The project edit merge: blank title or code keeps the fetched value;
/// the description arrives already resolved by the description action.
pub fn merge_project_edit(
    existing: &ProjectResponse,
    title_input: &str,
    code_input: &str,
    description: &str,
) -> (r: ProjectDraft)
    ensures
        r.title@ == (if title_input@.len() == 0 {
            existing.title@
        } else {
            title_input@
        }),
        r.code@ == (if code_input@.len() == 0 {
            existing.code@
        } else {
            code_input@
        }),
        r.description@ == description@,
{
    let title = if str_is_empty(title_input) {
        existing.title.clone()
    } else {
        String::from_str(title_input)
    };
    let code = if str_is_empty(code_input) {
        existing.code.clone()
    } else {
        String::from_str(code_input)
    };
    ProjectDraft { title, description: String::from_str(description), code }
}

} // verus!
