use llm_openai::client::{
    check_status, error_code_from_status, missing_config_key, transport_error, unreadable_body,
    Detail,
};
use llm_openai::llm::{Error, ErrorCode};

#[test]
fn success_statuses_pass() {
    for status in [200u16, 201, 204, 299] {
        assert_eq!(check_status(status, "OK"), None);
    }
}

#[test]
fn other_statuses_are_failures() {
    assert_eq!(
        check_status(404, "Not Found"),
        Some(Error {
            code: ErrorCode::InvalidRequest,
            message: "OpenAI API error: HTTP 404 Not Found".to_string(),
            provider_error_json: None,
        })
    );
    assert_eq!(
        check_status(429, "Too Many Requests"),
        Some(Error {
            code: ErrorCode::RateLimitExceeded,
            message: "OpenAI API error: HTTP 429 Too Many Requests".to_string(),
            provider_error_json: None,
        })
    );
    assert_eq!(
        check_status(199, "<unknown status code>").map(|e| e.message),
        Some("OpenAI API error: HTTP 199 <unknown status code>".to_string())
    );
    assert!(check_status(300, "Multiple Choices").is_some());
}

#[test]
fn error_codes_from_statuses() {
    assert_eq!(error_code_from_status(429), ErrorCode::RateLimitExceeded);
    assert_eq!(error_code_from_status(401), ErrorCode::AuthenticationFailed);
    assert_eq!(error_code_from_status(403), ErrorCode::AuthenticationFailed);
    assert_eq!(error_code_from_status(400), ErrorCode::InvalidRequest);
    assert_eq!(error_code_from_status(404), ErrorCode::InvalidRequest);
    assert_eq!(error_code_from_status(499), ErrorCode::InvalidRequest);
    assert_eq!(error_code_from_status(500), ErrorCode::InternalError);
    assert_eq!(error_code_from_status(503), ErrorCode::InternalError);
    assert_eq!(error_code_from_status(302), ErrorCode::InternalError);
    assert_eq!(error_code_from_status(399), ErrorCode::InternalError);
}

#[test]
fn unreadable_body_is_carried_along() {
    assert_eq!(
        unreadable_body("missing field `choices` at line 1 column 2", "{}".to_string()),
        Error {
            code: ErrorCode::InternalError,
            message: "Failed to parse OpenAI API response: missing field `choices` at line 1 column 2"
                .to_string(),
            provider_error_json: Some("{}".to_string()),
        }
    );
}

#[test]
fn transport_trouble_names_what_was_done_and_why() {
    assert_eq!(
        transport_error("Request failed", "connection refused"),
        Error {
            code: ErrorCode::InternalError,
            message: "Request failed: connection refused".to_string(),
            provider_error_json: None,
        }
    );
}

#[test]
fn default_detail_is_auto() {
    assert_eq!(Detail::default(), Detail::Auto);
}

#[test]
fn missing_configuration_key_is_named() {
    assert_eq!(
        missing_config_key("OPENAI_API_KEY"),
        Error {
            code: ErrorCode::InternalError,
            message: "Missing config key: OPENAI_API_KEY".to_string(),
            provider_error_json: None,
        }
    );
}
