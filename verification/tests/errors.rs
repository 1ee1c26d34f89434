use webdriver::error::{ErrorStatus, WebDriverError};
use webdriver::json::Json;

const ALL: [(ErrorStatus, u16, &str, bool); 25] = [
    (ErrorStatus::ElementNotSelectable, 400, "element not selectable", false),
    (ErrorStatus::ElementNotVisible, 400, "element not visible", false),
    (ErrorStatus::InvalidArgument, 400, "invalid argument", false),
    (ErrorStatus::InvalidCookieDomain, 400, "invalid cookie domain", false),
    (ErrorStatus::InvalidElementCoordinates, 400, "invalid element coordinates", false),
    (ErrorStatus::InvalidElementState, 400, "invalid element state", false),
    (ErrorStatus::InvalidSelector, 400, "invalid selector", false),
    (ErrorStatus::InvalidSessionId, 404, "invalid session id", true),
    (ErrorStatus::JavascriptError, 500, "javascript error", false),
    (ErrorStatus::MoveTargetOutOfBounds, 500, "move target out of bounds", false),
    (ErrorStatus::NoSuchAlert, 400, "no such alert", false),
    (ErrorStatus::NoSuchElement, 404, "no such element", false),
    (ErrorStatus::NoSuchFrame, 400, "no such frame", false),
    (ErrorStatus::NoSuchWindow, 400, "no such window", false),
    (ErrorStatus::ScriptTimeout, 408, "script timeout", false),
    (ErrorStatus::SessionNotCreated, 500, "session not created", true),
    (ErrorStatus::StaleElementReference, 400, "stale element reference", false),
    (ErrorStatus::Timeout, 408, "timeout", false),
    (ErrorStatus::UnableToSetCookie, 500, "unable to set cookie", false),
    (ErrorStatus::UnexpectedAlertOpen, 500, "unexpected alert open", false),
    (ErrorStatus::UnknownCommand, 404, "unknown command", false),
    (ErrorStatus::UnknownError, 500, "unknown error", false),
    (ErrorStatus::UnknownPath, 404, "unknown command", false),
    (ErrorStatus::UnknownMethod, 405, "unknown method", false),
    (ErrorStatus::UnsupportedOperation, 500, "unsupported operation", false),
];

#[test]
fn every_kind_has_its_status_code_and_string() {
    for (status, http, code, terminal) in ALL.iter() {
        assert_eq!(status.http_status(), *http);
        assert_eq!(status.error_code(), *code);
        assert_eq!(status.is_terminal(), *terminal);
        let error = WebDriverError::new(*status, "m");
        assert_eq!(error.http_status(), *http);
        assert_eq!(error.error_code(), *code);
        assert_eq!(error.delete_session(), *terminal);
    }
}

#[test]
fn error_new_keeps_status_and_message() {
    let error = WebDriverError::new(ErrorStatus::NoSuchElement, "not there");
    assert_eq!(error.status, ErrorStatus::NoSuchElement);
    assert_eq!(error.message, "not there");
    assert_eq!(error.stacktrace, None);
}

#[test]
fn error_envelope_without_stacktrace() {
    let error = WebDriverError::new(ErrorStatus::InvalidSessionId, "gone");
    assert_eq!(
        error.to_json_string(),
        r#"{"error":"invalid session id","message":"gone","status":404}"#
    );
}

#[test]
fn error_envelope_with_stacktrace() {
    let error = WebDriverError {
        status: ErrorStatus::UnknownError,
        message: "boom".to_string(),
        stacktrace: Some("at line 1".to_string()),
    };
    let json = error.to_json();
    assert_eq!(json.get("status"), Some(&Json::unsigned(500)));
    assert_eq!(json.get("error"), Some(&Json::string("unknown error")));
    assert_eq!(json.get("message"), Some(&Json::string("boom")));
    assert_eq!(json.get("stacktrace"), Some(&Json::string("at line 1")));
}
