use umsebenzi::config::{validate_config_input, ConfigError, Data};
use umsebenzi::inputs::{parse_confirmation, ConfirmError};
use umsebenzi::service::{
    auth_header_value, build_url, make_request_client, ClientError, RequestType,
};

fn local_config() -> Data {
    Data {
        host: "http://localhost:8000/api/v1".to_string(),
        credentials: "token123".to_string(),
    }
}

#[test]
fn build_url_with_instance() {
    let conf = local_config();
    let code = "ABC-1".to_string();
    let url = build_url(&conf, "/tasks", Some(&code));
    assert_eq!(url, "http://localhost:8000/api/v1/tasks/ABC-1/");
}

#[test]
fn build_url_without_instance() {
    let conf = local_config();
    let url = build_url(&conf, "/tasks", None);
    assert_eq!(url, "http://localhost:8000/api/v1/tasks");
}

#[test]
fn build_url_endpoint_instance() {
    let conf = local_config();
    let item_id = "1".to_string();
    let url = build_url(&conf, "/endpoint/", Some(&item_id));
    assert_eq!(url, "http://localhost:8000/api/v1/endpoint/1/");
}

#[test]
fn build_url_identical_calls_agree() {
    let conf = local_config();
    let code = "XY-9".to_string();
    let first = build_url(&conf, "/tasks", Some(&code));
    let second = build_url(&conf, "/tasks", Some(&code));
    assert_eq!(first, second);
}

#[test]
fn auth_header_holds_token() {
    let auth = auth_header_value("abc123");
    assert_eq!(auth, "Token abc123");
}

#[test]
fn request_type_prompts() {
    assert_eq!(
        RequestType::PROJECT.value(),
        "Are you sure you want to delete project with ID="
    );
    assert_eq!(
        RequestType::TASK.value(),
        "Are you sure you want to delete task, including subtasks with code="
    );
}

#[test]
fn request_client_composes_url() {
    let conf = local_config();
    let item_id = "1".to_string();
    let request = make_request_client(&conf, "/endpoint/", Some(&item_id));
    assert!(request.is_ok());
    assert!(request.is_ok_and(|r| r.url == "http://localhost:8000/api/v1/endpoint/1/"));
}

#[test]
fn request_client_identical_calls_agree() {
    let conf = local_config();
    let code = "ABC-1".to_string();
    let first = make_request_client(&conf, "/tasks", Some(&code)).unwrap_or_else(|_| panic!());
    let second = make_request_client(&conf, "/tasks", Some(&code)).unwrap_or_else(|_| panic!());
    assert_eq!(first.url, second.url);
}

#[test]
fn request_client_rejects_control_characters_in_token() {
    let conf = Data {
        host: "http://localhost:8000/api/v1".to_string(),
        credentials: "bad\ntoken".to_string(),
    };
    let request = make_request_client(&conf, "/tasks", None);
    assert!(matches!(request, Err(ClientError::InvalidToken)));
}

#[test]
fn config_blank_host_uses_default() {
    let data = validate_config_input("", "token123").unwrap_or_else(|_| panic!());
    assert_eq!(data.host, "http://localhost:8000/api/v1");
    assert_eq!(data.credentials, "token123");
}

#[test]
fn config_valid_host_is_kept() {
    let data =
        validate_config_input("https://tracker.example/api", "tok").unwrap_or_else(|_| panic!());
    assert_eq!(data.host, "https://tracker.example/api");
}

#[test]
fn config_invalid_host_is_rejected() {
    let result = validate_config_input("not a url", "tok");
    assert_eq!(result.err(), Some(ConfigError::InvalidHost));
}

#[test]
fn config_blank_token_is_rejected() {
    let result = validate_config_input("", "");
    assert_eq!(result.err(), Some(ConfigError::MissingToken));
}

#[test]
fn confirmation_answers() {
    assert_eq!(parse_confirmation("Y"), Ok(true));
    assert_eq!(parse_confirmation("N"), Ok(false));
    assert_eq!(parse_confirmation(""), Err(ConfirmError::Empty));
    assert_eq!(parse_confirmation("maybe"), Err(ConfirmError::Invalid));
    assert_eq!(parse_confirmation("y"), Err(ConfirmError::Invalid));
}
