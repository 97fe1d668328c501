//! The task transition engine: validation sequencing for "create", the
//! kind-transition rule for "edit", the status-update payload, and the
//! listing filter query.

use vstd::prelude::*;
use vstd::string::StrSliceExecFns;
use vstd::string::StringExecFns;
use crate::digits::{parse_i32, parse_i32_spec};
use crate::enums::{
    issue_of_selector, issue_of_wire, issue_rank, status_of_selector, status_of_wire, status_rank,
    CodecError, Issue, Status,
};
use crate::request::TaskRequest;
use crate::response::{user_id_chars, TaskResponse};
use crate::text::{str_eq, str_is_empty};

verus! {

/// Optional filters for the task listing.
pub struct TaskFilterArgs {
    pub project: Option<String>,
    pub status: Option<String>,
}

/// The query string appended to the listing URL for the given filters.
pub open spec fn filter_query_of(project: Option<Seq<char>>, status: Option<Seq<char>>) -> Seq<
    char,
> {
    match (project, status) {
        (Some(p), Some(s)) => "?project="@ + p + "&status="@ + s,
        (Some(p), None) => "?project="@ + p,
        (None, Some(s)) => "?status="@ + s,
        (None, None) => Seq::<char>::empty(),
    }
}

/// Builds the filter query string for the task listing.
pub fn filter_query(args: &TaskFilterArgs) -> (r: String)
    ensures
        r@ == filter_query_of(
            match args.project {
                Some(ref p) => Some(p@),
                None => None,
            },
            match args.status {
                Some(ref s) => Some(s@),
                None => None,
            },
        ),
{
    let mut q = String::new();
    match &args.project {
        Some(p) => {
            q.append("?project=");
            q.append(p.as_str());
            match &args.status {
                Some(s) => {
                    q.append("&status=");
                    q.append(s.as_str());
                },
                None => {},
            }
        },
        None => {
            match &args.status {
                Some(s) => {
                    q.append("?status=");
                    q.append(s.as_str());
                },
                None => {},
            }
        },
    }
    proof {
        assert(q@ =~= filter_query_of(
            match args.project {
                Some(ref p) => Some(p@),
                None => None,
            },
            match args.status {
                Some(ref s) => Some(s@),
                None => None,
            },
        ));
    }
    q
}

/// Decodes a status selector into the numeric value the status-update
/// operation submits as its partial payload.
pub fn build_status_update(selector: &str) -> (r: Result<i32, CodecError>)
    ensures
        r == match status_of_selector(selector@) {
            Some(st) => Ok::<i32, CodecError>(status_rank(st) as i32),
            None => Err::<i32, CodecError>(CodecError::InvalidStatus),
        },
{
    match Status::from_str(selector) {
        Ok(st) => Ok(st.to_value()),
        Err(e) => Err(e),
    }
}

/// The sub-path of a task addressed by a partial status update: the task's
/// URL with "status" appended after a single slash.
pub fn status_url(url: &str) -> (r: String)
    ensures
        r@ == url@ + (if crate::service::ends_in_slash(url@) {
            "status"@
        } else {
            "/status"@
        }),
{
    let mut s = String::from_str(url);
    let len = url.unicode_len();
    if len == 0 || url.get_char(len - 1) != '/' {
        s.append("/status");
    } else {
        s.append("status");
    }
    s
}

/// What the edit flow does with the parent reference, by the current and
/// the requested issue kind.
#[derive(Clone, Copy, Debug, PartialEq, Eq, Structural)]
pub enum ParentRule {
    /// Top-level item becomes a sub-item: a parent id must be newly supplied.
    RequireNew,
    /// Sub-item becomes a top-level item: the parent id is forcibly cleared.
    Clear,
    /// No kind change: the parent id is carried over unchanged.
    Carry,
}

pub open spec fn parent_rule(current: Issue, next: Issue) -> ParentRule {
    if current == Issue::EPIC && next == Issue::SUBTASK {
        ParentRule::RequireNew
    } else if current == Issue::SUBTASK && next == Issue::EPIC {
        ParentRule::Clear
    } else {
        ParentRule::Carry
    }
}

/// The kind-transition rule of the edit flow.
pub fn parent_requirement(current: Issue, next: Issue) -> (r: ParentRule)
    ensures
        r == parent_rule(current, next),
{
    if current == Issue::EPIC && next == Issue::SUBTASK {
        ParentRule::RequireNew
    } else if current == Issue::SUBTASK && next == Issue::EPIC {
        ParentRule::Clear
    } else {
        ParentRule::Carry
    }
}

/// Law: a sub-item moving to top level always has its parent cleared,
/// whatever parent id was supplied earlier; the update assembled under
/// this rule carries no parent reference.
pub proof fn lemma_transition_clears_parent()
    ensures
        parent_rule(Issue::SUBTASK, Issue::EPIC) == ParentRule::Clear,
{
}

/// Why a create input sequence was rejected, in the order the inputs are
/// validated.
#[derive(Clone, Copy, Debug, PartialEq, Eq, Structural)]
pub enum TaskInputError {
    MissingProject,
    InvalidProject,
    MissingTitle,
    DescriptionDeclined,
    MissingDescription,
    InvalidIssue,
    MissingParent,
    InvalidParent,
    InvalidStatus,
    MissingDueAnswer,
    MissingDueDate,
    MissingAssignee,
}

/// The issue kind a create selector stands for, defaulting blank input to
/// a top-level item.
pub open spec fn effective_issue(input: Seq<char>) -> Option<Issue> {
    if input.len() == 0 {
        Some(Issue::EPIC)
    } else {
        issue_of_selector(input)
    }
}

/// The status a create selector stands for, defaulting blank input to Draft.
pub open spec fn effective_status(input: Seq<char>) -> Option<Status> {
    if input.len() == 0 {
        Some(Status::DRAFT)
    } else {
        status_of_selector(input)
    }
}

/// The first error of the create sequencing, or None when every input is
/// accepted. The order is the order of the prompts: project id, title,
/// description gate and capture, issue kind, conditional parent, status,
/// due-date gate and value, assignee.
pub open spec fn create_error(
    project: Seq<char>,
    title: Seq<char>,
    gate: Seq<char>,
    description: Option<Seq<char>>,
    issue_input: Seq<char>,
    parent_input: Option<Seq<char>>,
    status_input: Seq<char>,
    due_answer: Seq<char>,
    due_input: Option<Seq<char>>,
    assignee: Seq<char>,
) -> Option<TaskInputError> {
    if project.len() == 0 {
        Some(TaskInputError::MissingProject)
    } else if !(parse_i32_spec(project) matches Some(v) && v >= 1) {
        Some(TaskInputError::InvalidProject)
    } else if title.len() == 0 {
        Some(TaskInputError::MissingTitle)
    } else if gate != "Y"@ {
        Some(TaskInputError::DescriptionDeclined)
    } else if !(description matches Some(d) && d.len() > 0) {
        Some(TaskInputError::MissingDescription)
    } else if effective_issue(issue_input) is None {
        Some(TaskInputError::InvalidIssue)
    } else if effective_issue(issue_input) == Some(Issue::SUBTASK) && !(parent_input matches Some(
        p,
    ) && p.len() > 0) {
        Some(TaskInputError::MissingParent)
    } else if effective_issue(issue_input) == Some(Issue::SUBTASK) && (parent_input matches Some(p)
        && parse_i32_spec(p) is None) {
        Some(TaskInputError::InvalidParent)
    } else if effective_status(status_input) is None {
        Some(TaskInputError::InvalidStatus)
    } else if due_answer.len() == 0 {
        Some(TaskInputError::MissingDueAnswer)
    } else if due_answer == "Y"@ && !(due_input matches Some(d) && d.len() > 0) {
        Some(TaskInputError::MissingDueDate)
    } else if assignee.len() == 0 {
        Some(TaskInputError::MissingAssignee)
    } else {
        None
    }
}

pub open spec fn opt_chars(o: Option<&str>) -> Option<Seq<char>> {
    match o {
        Some(s) => Some(s@),
        None => None,
    }
}

/// The structural invariant of an outbound draft: a sub-item carries a
/// parent reference and a top-level item carries none.
pub open spec fn draft_parent_invariant(d: TaskRequest) -> bool {
    &&& d.issue == issue_rank(Issue::SUBTASK) ==> d.parent_id is Some
    &&& d.issue == issue_rank(Issue::EPIC) ==> d.parent_id is None
}

/// The create sequencing: validates the collected inputs in prompt order
/// and assembles the full task draft. The project id must be a positive
/// integer; the description must come from an accepted editor capture; a
/// sub-item demands a parent id; blank issue and status selectors default
/// to a top-level item in Draft; a due date is attached exactly when the
/// gate answer is "Y"; the assignee stays an opaque string.
pub fn create_task_draft(
    project: &str,
    title: &str,
    description_gate: &str,
    description: Option<&str>,
    issue_input: &str,
    parent_input: Option<&str>,
    status_input: &str,
    due_answer: &str,
    due_input: Option<&str>,
    assignee: &str,
) -> (r: Result<TaskRequest, TaskInputError>)
    ensures
        r is Err <==> create_error(
            project@,
            title@,
            description_gate@,
            opt_chars(description),
            issue_input@,
            opt_chars(parent_input),
            status_input@,
            due_answer@,
            opt_chars(due_input),
            assignee@,
        ) is Some,
        r matches Err(e) ==> create_error(
            project@,
            title@,
            description_gate@,
            opt_chars(description),
            issue_input@,
            opt_chars(parent_input),
            status_input@,
            due_answer@,
            opt_chars(due_input),
            assignee@,
        ) == Some(e),
        r matches Ok(d) ==> ({
            &&& parse_i32_spec(project@) matches Some(pid) && d.project_id == pid
            &&& d.title@ == title@
            &&& description matches Some(ds) && d.description@ == ds@
            &&& effective_issue(issue_input@) matches Some(ik) && d.issue == issue_rank(ik)
            &&& effective_status(status_input@) matches Some(st) && d.status == status_rank(st)
            &&& (if due_answer@ == "Y"@ {
                due_input matches Some(dd) && d.due_date matches Some(x) && x@ == dd@
            } else {
                d.due_date is None
            })
            &&& d.assigned_to_id@ == assignee@
            &&& (if effective_issue(issue_input@) == Some(Issue::SUBTASK) {
                parent_input matches Some(p) && parse_i32_spec(p@) matches Some(v) && d.parent_id
                    == Some(v)
            } else {
                d.parent_id is None
            })
            &&& draft_parent_invariant(d)
        }),
{
    if str_is_empty(project) {
        return Err(TaskInputError::MissingProject);
    }
    let project_id = match parse_i32(project) {
        Some(v) => {
            if v < 1 {
                return Err(TaskInputError::InvalidProject);
            }
            v
        },
        None => {
            return Err(TaskInputError::InvalidProject);
        },
    };
    if str_is_empty(title) {
        return Err(TaskInputError::MissingTitle);
    }
    if !str_eq(description_gate, "Y") {
        return Err(TaskInputError::DescriptionDeclined);
    }
    let description_text = match description {
        Some(d) => {
            if str_is_empty(d) {
                return Err(TaskInputError::MissingDescription);
            }
            String::from_str(d)
        },
        None => {
            return Err(TaskInputError::MissingDescription);
        },
    };
    let issue = if str_is_empty(issue_input) {
        Issue::EPIC
    } else {
        match Issue::from_str(issue_input) {
            Ok(i) => i,
            Err(_) => {
                return Err(TaskInputError::InvalidIssue);
            },
        }
    };
    let parent_id: Option<i32> = if issue == Issue::SUBTASK {
        match parent_input {
            Some(p) => {
                if str_is_empty(p) {
                    return Err(TaskInputError::MissingParent);
                }
                match parse_i32(p) {
                    Some(v) => Some(v),
                    None => {
                        return Err(TaskInputError::InvalidParent);
                    },
                }
            },
            None => {
                return Err(TaskInputError::MissingParent);
            },
        }
    } else {
        None
    };
    let status = if str_is_empty(status_input) {
        Status::DRAFT
    } else {
        match Status::from_str(status_input) {
            Ok(s) => s,
            Err(_) => {
                return Err(TaskInputError::InvalidStatus);
            },
        }
    };
    if str_is_empty(due_answer) {
        return Err(TaskInputError::MissingDueAnswer);
    }
    let due_date: Option<String> = if str_eq(due_answer, "Y") {
        match due_input {
            Some(d) => {
                if str_is_empty(d) {
                    return Err(TaskInputError::MissingDueDate);
                }
                Some(String::from_str(d))
            },
            None => {
                return Err(TaskInputError::MissingDueDate);
            },
        }
    } else {
        None
    };
    if str_is_empty(assignee) {
        return Err(TaskInputError::MissingAssignee);
    }
    Ok(
        TaskRequest {
            project_id,
            title: String::from_str(title),
            description: description_text,
            status: status.to_value(),
            issue: issue.to_value(),
            due_date,
            assigned_to_id: String::from_str(assignee),
            parent_id,
        },
    )
}

/// Why an edit was rejected: a fetched view whose wire fields do not
/// decode is a contract drift with the service; the rest mirror the
/// create errors.
#[derive(Clone, Copy, Debug, PartialEq, Eq, Structural)]
pub enum EditError {
    InvalidIssueWire,
    InvalidIssue,
    MissingParent,
    InvalidParent,
    InvalidStatusWire,
}

/// The issue kind an edit moves to: the current kind when the selector is
/// blank, else the selected kind.
pub open spec fn edit_next_issue(issue_wire: Seq<char>, issue_input: Seq<char>) -> Option<Issue> {
    if issue_input.len() == 0 {
        issue_of_wire(issue_wire)
    } else {
        issue_of_selector(issue_input)
    }
}

/// The first error of the edit sequencing, or None when the update can be
/// assembled.
pub open spec fn edit_error(
    issue_wire: Seq<char>,
    issue_input: Seq<char>,
    parent_input: Option<Seq<char>>,
    status_wire: Seq<char>,
) -> Option<EditError> {
    match issue_of_wire(issue_wire) {
        None => Some(EditError::InvalidIssueWire),
        Some(current) => match edit_next_issue(issue_wire, issue_input) {
            None => Some(EditError::InvalidIssue),
            Some(next) => if parent_rule(current, next) == ParentRule::RequireNew {
                match parent_input {
                    None => Some(EditError::MissingParent),
                    Some(p) => if p.len() == 0 {
                        Some(EditError::MissingParent)
                    } else if parse_i32_spec(p) is None {
                        Some(EditError::InvalidParent)
                    } else if status_of_wire(status_wire) is None {
                        Some(EditError::InvalidStatusWire)
                    } else {
                        None
                    },
                }
            } else if status_of_wire(status_wire) is None {
                Some(EditError::InvalidStatusWire)
            } else {
                None
            },
        },
    }
}

/// Law: when the fetched kind is top-level and the requested kind is
/// sub-item, an edit with no parent id supplied fails with the
/// parent-required error, so no update is ever assembled or sent.
pub proof fn lemma_edit_requires_parent(
    issue_wire: Seq<char>,
    issue_input: Seq<char>,
    parent_input: Option<Seq<char>>,
    status_wire: Seq<char>,
)
    requires
        issue_of_wire(issue_wire) == Some(Issue::EPIC),
        edit_next_issue(issue_wire, issue_input) == Some(Issue::SUBTASK),
        parent_input is None || parent_input == Some(Seq::<char>::empty()),
    ensures
        edit_error(issue_wire, issue_input, parent_input, status_wire) == Some(
            EditError::MissingParent,
        ),
{
}

/// The edit sequencing: merges the fetched task with the user's overrides
/// into a full replacement update, enforcing the kind-transition rule on
/// the parent reference. Blank title keeps the fetched title; the
/// description arrives already resolved; status and due date are carried
/// over from the fetched view; the assignee identity is normalized to its
/// string form.
pub fn build_task_update(
    view: &TaskResponse,
    title_input: &str,
    description: &str,
    issue_input: &str,
    parent_input: Option<&str>,
) -> (r: Result<TaskRequest, EditError>)
    ensures
        r is Err <==> edit_error(
            view.issue@,
            issue_input@,
            opt_chars(parent_input),
            view.status@,
        ) is Some,
        r matches Err(e) ==> edit_error(
            view.issue@,
            issue_input@,
            opt_chars(parent_input),
            view.status@,
        ) == Some(e),
        r matches Ok(d) ==> ({
            &&& d.project_id == view.project.id
            &&& d.title@ == (if title_input@.len() == 0 {
                view.title@
            } else {
                title_input@
            })
            &&& d.description@ == description@
            &&& issue_of_wire(view.issue@) matches Some(current) && ({
                &&& edit_next_issue(view.issue@, issue_input@) matches Some(next) && ({
                    &&& d.issue == issue_rank(next)
                    &&& (match parent_rule(current, next) {
                        ParentRule::RequireNew => parent_input matches Some(p) && parse_i32_spec(
                            p@,
                        ) matches Some(v) && d.parent_id == Some(v),
                        ParentRule::Clear => d.parent_id is None,
                        ParentRule::Carry => d.parent_id == view.parent,
                    })
                })
            })
            &&& status_of_wire(view.status@) matches Some(st) && d.status == status_rank(st)
            &&& (view.due_date matches Some(dd) ==> d.due_date matches Some(x) && x@ == dd@)
            &&& (view.due_date is None ==> d.due_date is None)
            &&& d.assigned_to_id@ == user_id_chars(view.assigned_to.id)
        }),
{
    let current = match Issue::from_api_str(view.issue.as_str()) {
        Ok(i) => i,
        Err(_) => {
            return Err(EditError::InvalidIssueWire);
        },
    };
    let next = if str_is_empty(issue_input) {
        current
    } else {
        match Issue::from_str(issue_input) {
            Ok(i) => i,
            Err(_) => {
                return Err(EditError::InvalidIssue);
            },
        }
    };
    let rule = parent_requirement(current, next);
    let parent_id: Option<i32> = match rule {
        ParentRule::RequireNew => {
            match parent_input {
                Some(p) => {
                    if str_is_empty(p) {
                        return Err(EditError::MissingParent);
                    }
                    match parse_i32(p) {
                        Some(v) => Some(v),
                        None => {
                            return Err(EditError::InvalidParent);
                        },
                    }
                },
                None => {
                    return Err(EditError::MissingParent);
                },
            }
        },
        ParentRule::Clear => None,
        ParentRule::Carry => view.parent,
    };
    let status = match Status::from_api_str(view.status.as_str()) {
        Ok(s) => s,
        Err(_) => {
            return Err(EditError::InvalidStatusWire);
        },
    };
    let title = if str_is_empty(title_input) {
        view.title.clone()
    } else {
        String::from_str(title_input)
    };
    let due_date: Option<String> = match &view.due_date {
        Some(dd) => Some(dd.clone()),
        None => None,
    };
    let assigned_to_id = view.assigned_to.id.normalize();
    Ok(
        TaskRequest {
            project_id: view.project.id,
            title,
            description: String::from_str(description),
            status: status.to_value(),
            issue: next.to_value(),
            due_date,
            assigned_to_id,
            parent_id,
        },
    )
}

} // verus!
