//! The protocol's error kinds with their HTTP status and wire strings.

use crate::json::{json_text, push_member, Json, JsonValue};
use crate::protocol::codec::{push_present, push_present_member};
use vstd::prelude::*;

verus! {

/// The closed set of WebDriver error kinds.
#[derive(Clone, Copy, Debug, PartialEq, Eq, Structural)]
pub enum ErrorStatus {
    ElementNotSelectable,
    ElementNotVisible,
    InvalidArgument,
    InvalidCookieDomain,
    InvalidElementCoordinates,
    InvalidElementState,
    InvalidSelector,
    InvalidSessionId,
    JavascriptError,
    MoveTargetOutOfBounds,
    NoSuchAlert,
    NoSuchElement,
    NoSuchFrame,
    NoSuchWindow,
    ScriptTimeout,
    SessionNotCreated,
    StaleElementReference,
    Timeout,
    UnableToSetCookie,
    UnexpectedAlertOpen,
    UnknownCommand,
    UnknownError,
    UnknownPath,
    UnknownMethod,
    UnsupportedOperation,
}

impl ErrorStatus {
    /// The HTTP status that answers a request failing with this kind.
    pub open spec fn status_code(self) -> u16 {
        match self {
            ErrorStatus::ElementNotSelectable => 400,
            ErrorStatus::ElementNotVisible => 400,
            ErrorStatus::InvalidArgument => 400,
            ErrorStatus::InvalidCookieDomain => 400,
            ErrorStatus::InvalidElementCoordinates => 400,
            ErrorStatus::InvalidElementState => 400,
            ErrorStatus::InvalidSelector => 400,
            ErrorStatus::InvalidSessionId => 404,
            ErrorStatus::JavascriptError => 500,
            ErrorStatus::MoveTargetOutOfBounds => 500,
            ErrorStatus::NoSuchAlert => 400,
            ErrorStatus::NoSuchElement => 404,
            ErrorStatus::NoSuchFrame => 400,
            ErrorStatus::NoSuchWindow => 400,
            ErrorStatus::ScriptTimeout => 408,
            ErrorStatus::SessionNotCreated => 500,
            ErrorStatus::StaleElementReference => 400,
            ErrorStatus::Timeout => 408,
            ErrorStatus::UnableToSetCookie => 500,
            ErrorStatus::UnexpectedAlertOpen => 500,
            ErrorStatus::UnknownCommand => 404,
            ErrorStatus::UnknownError => 500,
            ErrorStatus::UnknownPath => 404,
            ErrorStatus::UnknownMethod => 405,
            ErrorStatus::UnsupportedOperation => 500,
        }
    }

    /// The string that names this kind on the wire.
    pub open spec fn code(self) -> Seq<char> {
        match self {
            ErrorStatus::ElementNotSelectable => "element not selectable"@,
            ErrorStatus::ElementNotVisible => "element not visible"@,
            ErrorStatus::InvalidArgument => "invalid argument"@,
            ErrorStatus::InvalidCookieDomain => "invalid cookie domain"@,
            ErrorStatus::InvalidElementCoordinates => "invalid element coordinates"@,
            ErrorStatus::InvalidElementState => "invalid element state"@,
            ErrorStatus::InvalidSelector => "invalid selector"@,
            ErrorStatus::InvalidSessionId => "invalid session id"@,
            ErrorStatus::JavascriptError => "javascript error"@,
            ErrorStatus::MoveTargetOutOfBounds => "move target out of bounds"@,
            ErrorStatus::NoSuchAlert => "no such alert"@,
            ErrorStatus::NoSuchElement => "no such element"@,
            ErrorStatus::NoSuchFrame => "no such frame"@,
            ErrorStatus::NoSuchWindow => "no such window"@,
            ErrorStatus::ScriptTimeout => "script timeout"@,
            ErrorStatus::SessionNotCreated => "session not created"@,
            ErrorStatus::StaleElementReference => "stale element reference"@,
            ErrorStatus::Timeout => "timeout"@,
            ErrorStatus::UnableToSetCookie => "unable to set cookie"@,
            ErrorStatus::UnexpectedAlertOpen => "unexpected alert open"@,
            ErrorStatus::UnknownCommand => "unknown command"@,
            ErrorStatus::UnknownError => "unknown error"@,
            ErrorStatus::UnknownPath => "unknown command"@,
            ErrorStatus::UnknownMethod => "unknown method"@,
            ErrorStatus::UnsupportedOperation => "unsupported operation"@,
        }
    }

    /// Whether an error of this kind ends the current session.
    pub open spec fn terminal(self) -> bool {
        self == ErrorStatus::InvalidSessionId || self == ErrorStatus::SessionNotCreated
    }

    pub fn http_status(&self) -> (r: u16)
        ensures
            r == self.status_code(),
    {
        match self {
            ErrorStatus::ElementNotSelectable => 400,
            ErrorStatus::ElementNotVisible => 400,
            ErrorStatus::InvalidArgument => 400,
            ErrorStatus::InvalidCookieDomain => 400,
            ErrorStatus::InvalidElementCoordinates => 400,
            ErrorStatus::InvalidElementState => 400,
            ErrorStatus::InvalidSelector => 400,
            ErrorStatus::InvalidSessionId => 404,
            ErrorStatus::JavascriptError => 500,
            ErrorStatus::MoveTargetOutOfBounds => 500,
            ErrorStatus::NoSuchAlert => 400,
            ErrorStatus::NoSuchElement => 404,
            ErrorStatus::NoSuchFrame => 400,
            ErrorStatus::NoSuchWindow => 400,
            ErrorStatus::ScriptTimeout => 408,
            ErrorStatus::SessionNotCreated => 500,
            ErrorStatus::StaleElementReference => 400,
            ErrorStatus::Timeout => 408,
            ErrorStatus::UnableToSetCookie => 500,
            ErrorStatus::UnexpectedAlertOpen => 500,
            ErrorStatus::UnknownCommand => 404,
            ErrorStatus::UnknownError => 500,
            ErrorStatus::UnknownPath => 404,
            ErrorStatus::UnknownMethod => 405,
            ErrorStatus::UnsupportedOperation => 500,
        }
    }

    pub fn error_code(&self) -> (r: &'static str)
        ensures
            r@ == self.code(),
    {
        match self {
            ErrorStatus::ElementNotSelectable => "element not selectable",
            ErrorStatus::ElementNotVisible => "element not visible",
            ErrorStatus::InvalidArgument => "invalid argument",
            ErrorStatus::InvalidCookieDomain => "invalid cookie domain",
            ErrorStatus::InvalidElementCoordinates => "invalid element coordinates",
            ErrorStatus::InvalidElementState => "invalid element state",
            ErrorStatus::InvalidSelector => "invalid selector",
            ErrorStatus::InvalidSessionId => "invalid session id",
            ErrorStatus::JavascriptError => "javascript error",
            ErrorStatus::MoveTargetOutOfBounds => "move target out of bounds",
            ErrorStatus::NoSuchAlert => "no such alert",
            ErrorStatus::NoSuchElement => "no such element",
            ErrorStatus::NoSuchFrame => "no such frame",
            ErrorStatus::NoSuchWindow => "no such window",
            ErrorStatus::ScriptTimeout => "script timeout",
            ErrorStatus::SessionNotCreated => "session not created",
            ErrorStatus::StaleElementReference => "stale element reference",
            ErrorStatus::Timeout => "timeout",
            ErrorStatus::UnableToSetCookie => "unable to set cookie",
            ErrorStatus::UnexpectedAlertOpen => "unexpected alert open",
            ErrorStatus::UnknownCommand => "unknown command",
            ErrorStatus::UnknownError => "unknown error",
            ErrorStatus::UnknownPath => "unknown command",
            ErrorStatus::UnknownMethod => "unknown method",
            ErrorStatus::UnsupportedOperation => "unsupported operation",
        }
    }

    pub fn is_terminal(&self) -> (r: bool)
        ensures
            r == self.terminal(),
    {
        match self {
            ErrorStatus::InvalidSessionId => true,
            ErrorStatus::SessionNotCreated => true,
            _ => false,
        }
    }
}

/// A failed command: its kind, a message for humans, and optionally a
/// stack trace from the backend.
#[derive(Clone, Debug, PartialEq)]
pub struct WebDriverError {
    pub status: ErrorStatus,
    pub message: String,
    pub stacktrace: Option<String>,
}

pub ghost struct WebDriverErrorView {
    pub status: ErrorStatus,
    pub message: Seq<char>,
    pub stacktrace: Option<Seq<char>>,
}

impl View for WebDriverError {
    type V = WebDriverErrorView;

    open spec fn view(&self) -> WebDriverErrorView {
        WebDriverErrorView {
            status: self.status,
            message: self.message@,
            stacktrace: crate::text::opt_chars(self.stacktrace),
        }
    }
}

impl WebDriverErrorView {
    /// The error's object: the HTTP status, the kind's wire string, the
    /// message, and the stack trace where there is one.
    pub open spec fn encode(self) -> JsonValue {
        JsonValue::Object(
            push_present::<String>(
                Seq::empty().push(("status"@, JsonValue::integer(self.status.status_code() as int)))
                    .push(("error"@, JsonValue::String(self.status.code()))).push(
                    ("message"@, JsonValue::String(self.message)),
                ),
                "stacktrace"@,
                self.stacktrace,
            ),
        )
    }
}

pub type WebDriverResult<T> = Result<T, WebDriverError>;

impl WebDriverError {
    pub fn new(status: ErrorStatus, message: &str) -> (e: WebDriverError)
        ensures
            e@ == (WebDriverErrorView { status, message: message@, stacktrace: None }),
    {
        WebDriverError { status, message: crate::text::owned(message), stacktrace: None }
    }

    pub fn http_status(&self) -> (r: u16)
        ensures
            r == self.status.status_code(),
    {
        self.status.http_status()
    }

    pub fn error_code(&self) -> (r: &'static str)
        ensures
            r@ == self.status.code(),
    {
        self.status.error_code()
    }

    /// Whether the dispatcher must drop the session after this error.
    pub fn delete_session(&self) -> (r: bool)
        ensures
            r == self.status.terminal(),
    {
        self.status.is_terminal()
    }

    pub fn to_json(&self) -> (j: Json)
        ensures
            j@ == self@.encode(),
    {
        let mut members: Vec<(String, Json)> = Vec::new();
        push_member(&mut members, "status", Json::unsigned(self.status.http_status() as u64));
        push_member(&mut members, "error", Json::string(self.status.error_code()));
        push_member(&mut members, "message", Json::string(self.message.as_str()));
        push_present_member::<String>(&mut members, "stacktrace", &self.stacktrace);
        Json::Object(members)
    }

    /// The text of the error's JSON object.
    pub fn to_json_string(&self) -> (s: String)
        ensures
            s@ == json_text(self@.encode()),
    {
        self.to_json().to_text()
    }
}

} // verus!
