use umsebenzi::enums::Issue;
use umsebenzi::inputs::{description_action, wants_editor, DescriptionAction};
use umsebenzi::response::{
    ProjectTaskResponse, TaskResponse, User, UserID,
};
use umsebenzi::task::{
    build_status_update, build_task_update, create_task_draft, filter_query, parent_requirement,
    status_url, EditError, ParentRule, TaskFilterArgs, TaskInputError,
};

fn fetched_task(issue: &str, status: &str, parent: Option<i32>, assignee: UserID) -> TaskResponse {
    TaskResponse {
        id: 7,
        project: ProjectTaskResponse {
            id: 3,
            title: "Tracker".to_string(),
            code: "TRK".to_string(),
            created_at: "2024-01-01".to_string(),
        },
        title: "Old title".to_string(),
        code: "TRK-7".to_string(),
        issue: issue.to_string(),
        description: "Old description".to_string(),
        created_by: User {
            id: UserID::IntId(1),
            username: "creator".to_string(),
            email: "creator@example.com".to_string(),
        },
        status: status.to_string(),
        due_date: Some("2024-06-01".to_string()),
        modified_at: "2024-01-02".to_string(),
        subtasks: None,
        assigned_to: User {
            id: assignee,
            username: "worker".to_string(),
            email: "worker@example.com".to_string(),
        },
        created_at: "2024-01-01".to_string(),
        parent,
    }
}

#[test]
fn filter_query_forms() {
    let none = TaskFilterArgs { project: None, status: None };
    assert_eq!(filter_query(&none), "");
    let project = TaskFilterArgs { project: Some("3".to_string()), status: None };
    assert_eq!(filter_query(&project), "?project=3");
    let status = TaskFilterArgs { project: None, status: Some("2".to_string()) };
    assert_eq!(filter_query(&status), "?status=2");
    let both = TaskFilterArgs { project: Some("3".to_string()), status: Some("2".to_string()) };
    assert_eq!(filter_query(&both), "?project=3&status=2");
}

#[test]
fn status_update_decodes_selector() {
    assert_eq!(build_status_update("3"), Ok(3));
    assert_eq!(build_status_update("7"), Ok(7));
    assert!(build_status_update("9").is_err());
    assert!(build_status_update("").is_err());
}

#[test]
fn status_url_appends_subpath() {
    assert_eq!(
        status_url("http://localhost:8000/api/v1/tasks/TRK-7/"),
        "http://localhost:8000/api/v1/tasks/TRK-7/status"
    );
    assert_eq!(
        status_url("http://localhost:8000/api/v1/tasks/TRK-7"),
        "http://localhost:8000/api/v1/tasks/TRK-7/status"
    );
}

#[test]
fn editor_gate() {
    assert!(wants_editor("Y"));
    assert!(!wants_editor("N"));
    assert!(!wants_editor(""));
    assert!(!wants_editor("y"));
}

#[test]
fn description_actions() {
    assert_eq!(description_action(""), DescriptionAction::Keep);
    assert_eq!(description_action("E"), DescriptionAction::Edit);
    assert_eq!(description_action("rewrite it"), DescriptionAction::Replace);
}

#[test]
fn parent_rules() {
    assert_eq!(parent_requirement(Issue::EPIC, Issue::SUBTASK), ParentRule::RequireNew);
    assert_eq!(parent_requirement(Issue::SUBTASK, Issue::EPIC), ParentRule::Clear);
    assert_eq!(parent_requirement(Issue::EPIC, Issue::EPIC), ParentRule::Carry);
    assert_eq!(parent_requirement(Issue::SUBTASK, Issue::SUBTASK), ParentRule::Carry);
}

#[test]
fn create_accepts_full_input() {
    let draft = create_task_draft(
        "3",
        "New task",
        "Y",
        Some("Describe the work"),
        "2",
        Some("41"),
        "4",
        "Y",
        Some("2024-12-31"),
        "9a7b",
    )
    .unwrap();
    assert_eq!(draft.project_id, 3);
    assert_eq!(draft.title, "New task");
    assert_eq!(draft.description, "Describe the work");
    assert_eq!(draft.issue, 2);
    assert_eq!(draft.status, 4);
    assert_eq!(draft.due_date, Some("2024-12-31".to_string()));
    assert_eq!(draft.assigned_to_id, "9a7b");
    assert_eq!(draft.parent_id, Some(41));
}

#[test]
fn create_defaults_blank_issue_and_status() {
    let draft = create_task_draft(
        "3",
        "New task",
        "Y",
        Some("Describe the work"),
        "",
        None,
        "",
        "N",
        None,
        "9a7b",
    )
    .unwrap();
    assert_eq!(draft.issue, 1);
    assert_eq!(draft.status, 1);
    assert_eq!(draft.due_date, None);
    assert_eq!(draft.parent_id, None);
}

#[test]
fn create_rejects_each_bad_input() {
    let ok = |project: &str,
              title: &str,
              gate: &str,
              description: Option<&str>,
              issue: &str,
              parent: Option<&str>,
              status: &str,
              due_answer: &str,
              due: Option<&str>,
              assignee: &str| {
        create_task_draft(
            project, title, gate, description, issue, parent, status, due_answer, due, assignee,
        )
    };
    assert_eq!(
        ok("", "t", "Y", Some("d"), "", None, "", "N", None, "a").err(),
        Some(TaskInputError::MissingProject)
    );
    assert_eq!(
        ok("abc", "t", "Y", Some("d"), "", None, "", "N", None, "a").err(),
        Some(TaskInputError::InvalidProject)
    );
    assert_eq!(
        ok("0", "t", "Y", Some("d"), "", None, "", "N", None, "a").err(),
        Some(TaskInputError::InvalidProject)
    );
    assert_eq!(
        ok("3", "", "Y", Some("d"), "", None, "", "N", None, "a").err(),
        Some(TaskInputError::MissingTitle)
    );
    assert_eq!(
        ok("3", "t", "nope", Some("d"), "", None, "", "N", None, "a").err(),
        Some(TaskInputError::DescriptionDeclined)
    );
    assert_eq!(
        ok("3", "t", "Y", None, "", None, "", "N", None, "a").err(),
        Some(TaskInputError::MissingDescription)
    );
    assert_eq!(
        ok("3", "t", "Y", Some(""), "", None, "", "N", None, "a").err(),
        Some(TaskInputError::MissingDescription)
    );
    assert_eq!(
        ok("3", "t", "Y", Some("d"), "9", None, "", "N", None, "a").err(),
        Some(TaskInputError::InvalidIssue)
    );
    assert_eq!(
        ok("3", "t", "Y", Some("d"), "2", None, "", "N", None, "a").err(),
        Some(TaskInputError::MissingParent)
    );
    assert_eq!(
        ok("3", "t", "Y", Some("d"), "2", Some("x1"), "", "N", None, "a").err(),
        Some(TaskInputError::InvalidParent)
    );
    assert_eq!(
        ok("3", "t", "Y", Some("d"), "1", None, "8", "N", None, "a").err(),
        Some(TaskInputError::InvalidStatus)
    );
    assert_eq!(
        ok("3", "t", "Y", Some("d"), "1", None, "1", "", None, "a").err(),
        Some(TaskInputError::MissingDueAnswer)
    );
    assert_eq!(
        ok("3", "t", "Y", Some("d"), "1", None, "1", "Y", None, "a").err(),
        Some(TaskInputError::MissingDueDate)
    );
    assert_eq!(
        ok("3", "t", "Y", Some("d"), "1", None, "1", "Y", Some(""), "a").err(),
        Some(TaskInputError::MissingDueDate)
    );
    assert_eq!(
        ok("3", "t", "Y", Some("d"), "1", None, "1", "N", None, "").err(),
        Some(TaskInputError::MissingAssignee)
    );
}

#[test]
fn edit_requires_new_parent_on_promotion_to_subtask() {
    let view = fetched_task("EPIC", "READY", None, UserID::IntId(5));
    let result = build_task_update(&view, "", "kept", "2", None);
    assert_eq!(result.err(), Some(EditError::MissingParent));
    let blank = build_task_update(&view, "", "kept", "2", Some(""));
    assert_eq!(blank.err(), Some(EditError::MissingParent));
}

#[test]
fn edit_with_new_parent_succeeds() {
    let view = fetched_task("EPIC", "READY", None, UserID::IntId(5));
    let update = build_task_update(&view, "", "kept", "2", Some("12")).unwrap();
    assert_eq!(update.issue, 2);
    assert_eq!(update.parent_id, Some(12));
    assert_eq!(update.status, 2);
    assert_eq!(update.project_id, 3);
}

#[test]
fn edit_clears_parent_on_promotion_to_epic() {
    let view = fetched_task("SUBTASK", "IN_PROGRESS", Some(44), UserID::IntId(5));
    let update = build_task_update(&view, "", "kept", "1", Some("99")).unwrap();
    assert_eq!(update.issue, 1);
    assert_eq!(update.parent_id, None);
}

#[test]
fn edit_carries_parent_when_kind_unchanged() {
    let view = fetched_task("SUBTASK", "REVIEW", Some(44), UserID::IntId(5));
    let update = build_task_update(&view, "", "kept", "", None).unwrap();
    assert_eq!(update.issue, 2);
    assert_eq!(update.parent_id, Some(44));
    assert_eq!(update.status, 5);
    assert_eq!(update.due_date, Some("2024-06-01".to_string()));
}

#[test]
fn edit_keeps_title_when_blank() {
    let view = fetched_task("EPIC", "DRAFT", None, UserID::IntId(5));
    let update = build_task_update(&view, "", "kept", "", None).unwrap();
    assert_eq!(update.title, "Old title");
    let renamed = build_task_update(&view, "Renamed", "kept", "", None).unwrap();
    assert_eq!(renamed.title, "Renamed");
}

#[test]
fn edit_normalizes_assignee_identity() {
    let numeric = fetched_task("EPIC", "DRAFT", None, UserID::IntId(17));
    let update = build_task_update(&numeric, "", "kept", "", None).unwrap();
    assert_eq!(update.assigned_to_id, "17");
    let opaque = fetched_task(
        "EPIC",
        "DRAFT",
        None,
        UserID::UUID("0f8f-22".to_string()),
    );
    let update = build_task_update(&opaque, "", "kept", "", None).unwrap();
    assert_eq!(update.assigned_to_id, "0f8f-22");
}

#[test]
fn edit_rejects_undecodable_wire_fields() {
    let bad_issue = fetched_task("STORY", "DRAFT", None, UserID::IntId(5));
    assert_eq!(
        build_task_update(&bad_issue, "", "d", "", None).err(),
        Some(EditError::InvalidIssueWire)
    );
    let bad_status = fetched_task("EPIC", "SLEEPING", None, UserID::IntId(5));
    assert_eq!(
        build_task_update(&bad_status, "", "d", "", None).err(),
        Some(EditError::InvalidStatusWire)
    );
    let bad_selector = fetched_task("EPIC", "DRAFT", None, UserID::IntId(5));
    assert_eq!(
        build_task_update(&bad_selector, "", "d", "5", None).err(),
        Some(EditError::InvalidIssue)
    );
    let bad_parent = fetched_task("EPIC", "DRAFT", None, UserID::IntId(5));
    assert_eq!(
        build_task_update(&bad_parent, "", "d", "2", Some("forty")).err(),
        Some(EditError::InvalidParent)
    );
}
