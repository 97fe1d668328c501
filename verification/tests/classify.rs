use umsebenzi::classify::{exits_nonzero, require_decoded, route_outcome, Failure, Route};
use umsebenzi::response::TaskErrorResponse;

#[test]
fn dropped_connection_aborts_without_decoding() {
    assert_eq!(route_outcome(None), Route::Abort);
}

#[test]
fn success_statuses_decode_the_success_body() {
    assert_eq!(route_outcome(Some(200)), Route::DecodeSuccessBody);
    assert_eq!(route_outcome(Some(201)), Route::DecodeSuccessBody);
    assert_eq!(route_outcome(Some(299)), Route::DecodeSuccessBody);
}

#[test]
fn client_errors_decode_the_error_body() {
    assert_eq!(route_outcome(Some(400)), Route::DecodeErrorBody);
    assert_eq!(route_outcome(Some(404)), Route::DecodeErrorBody);
    assert_eq!(route_outcome(Some(499)), Route::DecodeErrorBody);
}

#[test]
fn other_statuses_report_raw_text() {
    assert_eq!(route_outcome(Some(500)), Route::ReadRawText);
    assert_eq!(route_outcome(Some(302)), Route::ReadRawText);
    assert_eq!(route_outcome(Some(101)), Route::ReadRawText);
}

#[test]
fn decoded_success_body_is_returned() {
    let body = "payload".to_string();
    assert_eq!(require_decoded(Some(body.clone())), Ok(body));
}

#[test]
fn missing_body_is_a_decode_mismatch() {
    assert_eq!(require_decoded::<String>(None), Err(Failure::DecodeMismatch));
}

#[test]
fn validation_error_carries_only_present_fields() {
    let payload = TaskErrorResponse {
        project_id: None,
        title: Some(vec!["This field is required.".to_string()]),
        description: None,
        status: None,
        issue: None,
        due_date: None,
        assigned_to_id: None,
        parent_id: None,
        detail: None,
        non_field_errors: None,
    };
    let routed = require_decoded(Some(payload)).unwrap_or_else(|_| panic!());
    assert_eq!(routed.title, Some(vec!["This field is required.".to_string()]));
    assert!(routed.project_id.is_none());
    assert!(routed.description.is_none());
    assert!(routed.detail.is_none());
    assert!(routed.non_field_errors.is_none());
}

#[test]
fn exit_policy_by_failure() {
    assert!(exits_nonzero(Failure::Transport, false));
    assert!(exits_nonzero(Failure::RemoteServer, false));
    assert!(exits_nonzero(Failure::DecodeMismatch, false));
    assert!(exits_nonzero(Failure::ConfigUnavailable, false));
    assert!(exits_nonzero(Failure::InputValidation, false));
    assert!(exits_nonzero(Failure::RemoteValidation, true));
    assert!(!exits_nonzero(Failure::RemoteValidation, false));
}
