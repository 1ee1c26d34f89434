//! A request as the dispatcher takes it: the session it speaks of and the
//! command it asks for.

use crate::error::{ErrorStatus, WebDriverError, WebDriverResult};
use crate::json::{json_parse, Json, JsonValue};
use crate::pattern::{named, Captures, GroupView};
use crate::protocol::codec::Codec;
use crate::protocol::command::{Command, CommandView};
use crate::protocol::common::{WebElement, WebElementView};
use crate::protocol::endpoints::{Endpoint, ExtensionEndpoint, VoidExtensionEndpoint};
use crate::protocol::parameters::{
    ActionsParameters, AddCookieParameters, GetParameters, JavascriptCommandParameters,
    LocatorParameters, NewSessionParameters, SendKeysParameters, SwitchToFrameParameters,
    SwitchToWindowParameters, TimeoutsParameters, WindowPositionParameters, WindowSizeParameters,
};
use crate::text::{opt_chars, owned};
use vstd::prelude::*;

verus! {

/// A decoded request.
#[derive(Clone, Debug, PartialEq)]
pub struct Message<U: ExtensionEndpoint = VoidExtensionEndpoint> {
    pub session_id: Option<String>,
    pub command: Command<U::Command>,
}

pub ghost struct MessageView<U: ExtensionEndpoint> {
    pub session_id: Option<Seq<char>>,
    pub command: CommandView<U::Command>,
}

impl<U: ExtensionEndpoint> View for Message<U> {
    type V = MessageView<U>;

    open spec fn view(&self) -> MessageView<U> {
        MessageView { session_id: opt_chars(self.session_id), command: self.command@ }
    }
}

/// The element that a path names under `elementId`.
pub open spec fn element_of(captures: Seq<GroupView>) -> Option<WebElementView> {
    match named(captures, "elementId"@) {
        Some(id) => Some(WebElementView { id }),
        None => None,
    }
}

/// The command of a standard endpoint, from what the path captured and the
/// body held; an invalid argument where a capture is missing or the body
/// does not decode. An endpoint without parameters does not look at the body.
pub open spec fn command_for<U: ExtensionEndpoint>(
    endpoint: Endpoint<U>,
    captures: Seq<GroupView>,
    body: JsonValue,
) -> Result<CommandView<U::Command>, ErrorStatus>
    recommends
        !(endpoint is Extension),
{
    match endpoint {
        Endpoint::NewSession => match NewSessionParameters::decode(body) {
            Some(p) => Ok(CommandView::NewSession(p)),
            None => Err(ErrorStatus::InvalidArgument),
        },
        Endpoint::DeleteSession => Ok(CommandView::DeleteSession),
        Endpoint::Get => match GetParameters::decode(body) {
            Some(p) => Ok(CommandView::Get(p)),
            None => Err(ErrorStatus::InvalidArgument),
        },
        Endpoint::GetCurrentUrl => Ok(CommandView::GetCurrentUrl),
        Endpoint::GoBack => Ok(CommandView::GoBack),
        Endpoint::GoForward => Ok(CommandView::GoForward),
        Endpoint::Refresh => Ok(CommandView::Refresh),
        Endpoint::GetTitle => Ok(CommandView::GetTitle),
        Endpoint::GetPageSource => Ok(CommandView::GetPageSource),
        Endpoint::GetWindowHandle => Ok(CommandView::GetWindowHandle),
        Endpoint::GetWindowHandles => Ok(CommandView::GetWindowHandles),
        Endpoint::CloseWindow => Ok(CommandView::CloseWindow),
        Endpoint::GetWindowSize => Ok(CommandView::GetWindowSize),
        Endpoint::SetWindowSize => match WindowSizeParameters::decode(body) {
            Some(p) => Ok(CommandView::SetWindowSize(p)),
            None => Err(ErrorStatus::InvalidArgument),
        },
        Endpoint::GetWindowPosition => Ok(CommandView::GetWindowPosition),
        Endpoint::SetWindowPosition => match WindowPositionParameters::decode(body) {
            Some(p) => Ok(CommandView::SetWindowPosition(p)),
            None => Err(ErrorStatus::InvalidArgument),
        },
        Endpoint::MaximizeWindow => Ok(CommandView::MaximizeWindow),
        Endpoint::SwitchToWindow => match SwitchToWindowParameters::decode(body) {
            Some(p) => Ok(CommandView::SwitchToWindow(p)),
            None => Err(ErrorStatus::InvalidArgument),
        },
        Endpoint::SwitchToFrame => match SwitchToFrameParameters::decode(body) {
            Some(p) => Ok(CommandView::SwitchToFrame(p)),
            None => Err(ErrorStatus::InvalidArgument),
        },
        Endpoint::SwitchToParentFrame => Ok(CommandView::SwitchToParentFrame),
        Endpoint::FindElement => match LocatorParameters::decode(body) {
            Some(p) => Ok(CommandView::FindElement(p)),
            None => Err(ErrorStatus::InvalidArgument),
        },
        Endpoint::FindElements => match LocatorParameters::decode(body) {
            Some(p) => Ok(CommandView::FindElements(p)),
            None => Err(ErrorStatus::InvalidArgument),
        },
        Endpoint::FindElementElement => match (element_of(captures), LocatorParameters::decode(body)) {
            (Some(e), Some(p)) => Ok(CommandView::FindElementElement(e, p)),
            _ => Err(ErrorStatus::InvalidArgument),
        },
        Endpoint::FindElementElements => match (element_of(captures), LocatorParameters::decode(body)) {
            (Some(e), Some(p)) => Ok(CommandView::FindElementElements(e, p)),
            _ => Err(ErrorStatus::InvalidArgument),
        },
        Endpoint::GetActiveElement => Ok(CommandView::GetActiveElement),
        Endpoint::IsDisplayed => match element_of(captures) {
            Some(e) => Ok(CommandView::IsDisplayed(e)),
            None => Err(ErrorStatus::InvalidArgument),
        },
        Endpoint::IsSelected => match element_of(captures) {
            Some(e) => Ok(CommandView::IsSelected(e)),
            None => Err(ErrorStatus::InvalidArgument),
        },
        Endpoint::GetElementAttribute => match (element_of(captures), named(captures, "name"@)) {
            (Some(e), Some(s)) => Ok(CommandView::GetElementAttribute(e, s)),
            _ => Err(ErrorStatus::InvalidArgument),
        },
        Endpoint::GetElementProperty => match (element_of(captures), named(captures, "name"@)) {
            (Some(e), Some(s)) => Ok(CommandView::GetElementProperty(e, s)),
            _ => Err(ErrorStatus::InvalidArgument),
        },
        Endpoint::GetCSSValue => match (element_of(captures), named(captures, "propertyName"@)) {
            (Some(e), Some(s)) => Ok(CommandView::GetCSSValue(e, s)),
            _ => Err(ErrorStatus::InvalidArgument),
        },
        Endpoint::GetElementText => match element_of(captures) {
            Some(e) => Ok(CommandView::GetElementText(e)),
            None => Err(ErrorStatus::InvalidArgument),
        },
        Endpoint::GetElementTagName => match element_of(captures) {
            Some(e) => Ok(CommandView::GetElementTagName(e)),
            None => Err(ErrorStatus::InvalidArgument),
        },
        Endpoint::GetElementRect => match element_of(captures) {
            Some(e) => Ok(CommandView::GetElementRect(e)),
            None => Err(ErrorStatus::InvalidArgument),
        },
        Endpoint::IsEnabled => match element_of(captures) {
            Some(e) => Ok(CommandView::IsEnabled(e)),
            None => Err(ErrorStatus::InvalidArgument),
        },
        Endpoint::ExecuteScript => match JavascriptCommandParameters::decode(body) {
            Some(p) => Ok(CommandView::ExecuteScript(p)),
            None => Err(ErrorStatus::InvalidArgument),
        },
        Endpoint::ExecuteAsyncScript => match JavascriptCommandParameters::decode(body) {
            Some(p) => Ok(CommandView::ExecuteAsyncScript(p)),
            None => Err(ErrorStatus::InvalidArgument),
        },
        Endpoint::GetCookies => Ok(CommandView::GetCookies),
        Endpoint::GetCookie => match named(captures, "name"@) {
            Some(s) => Ok(CommandView::GetCookie(s)),
            None => Err(ErrorStatus::InvalidArgument),
        },
        Endpoint::AddCookie => match AddCookieParameters::decode(body) {
            Some(p) => Ok(CommandView::AddCookie(p)),
            None => Err(ErrorStatus::InvalidArgument),
        },
        Endpoint::DeleteCookies => Ok(CommandView::DeleteCookies),
        Endpoint::DeleteCookie => match named(captures, "name"@) {
            Some(s) => Ok(CommandView::DeleteCookie(s)),
            None => Err(ErrorStatus::InvalidArgument),
        },
        Endpoint::GetTimeouts => Ok(CommandView::GetTimeouts),
        Endpoint::SetTimeouts => match TimeoutsParameters::decode(body) {
            Some(p) => Ok(CommandView::SetTimeouts(p)),
            None => Err(ErrorStatus::InvalidArgument),
        },
        Endpoint::ElementClick => match element_of(captures) {
            Some(e) => Ok(CommandView::ElementClick(e)),
            None => Err(ErrorStatus::InvalidArgument),
        },
        Endpoint::ElementTap => match element_of(captures) {
            Some(e) => Ok(CommandView::ElementTap(e)),
            None => Err(ErrorStatus::InvalidArgument),
        },
        Endpoint::ElementClear => match element_of(captures) {
            Some(e) => Ok(CommandView::ElementClear(e)),
            None => Err(ErrorStatus::InvalidArgument),
        },
        Endpoint::ElementSendKeys => match (element_of(captures), SendKeysParameters::decode(body)) {
            (Some(e), Some(p)) => Ok(CommandView::ElementSendKeys(e, p)),
            _ => Err(ErrorStatus::InvalidArgument),
        },
        Endpoint::PerformActions => match ActionsParameters::decode(body) {
            Some(p) => Ok(CommandView::PerformActions(p)),
            None => Err(ErrorStatus::InvalidArgument),
        },
        Endpoint::ReleaseActions => Ok(CommandView::ReleaseActions),
        Endpoint::DismissAlert => Ok(CommandView::DismissAlert),
        Endpoint::AcceptAlert => Ok(CommandView::AcceptAlert),
        Endpoint::GetAlertText => Ok(CommandView::GetAlertText),
        Endpoint::SendAlertText => match SendKeysParameters::decode(body) {
            Some(p) => Ok(CommandView::SendAlertText(p)),
            None => Err(ErrorStatus::InvalidArgument),
        },
        Endpoint::TakeScreenshot => Ok(CommandView::TakeScreenshot),
        Endpoint::TakeElementScreenshot => match element_of(captures) {
            Some(e) => Ok(CommandView::TakeElementScreenshot(e)),
            None => Err(ErrorStatus::InvalidArgument),
        },
        Endpoint::Status => Ok(CommandView::Status),
        Endpoint::Extension(_) => Err(ErrorStatus::UnknownCommand),
    }
}

/// The body that an endpoint's decoder is handed for a request's text: for
/// an endpoint with parameters, what the text reads as; for an extension,
/// null for an empty text, else what the text reads as; for every other
/// endpoint null, whatever the text. Nothing where the text has to be read
/// and is not JSON.
pub open spec fn body_for<U: ExtensionEndpoint>(endpoint: Endpoint<U>, text: Seq<char>) -> Option<
    JsonValue,
> {
    if endpoint.has_body() || (endpoint is Extension && text.len() > 0) {
        json_parse(text)
    } else {
        Some(JsonValue::Null)
    }
}

/// What `Message::from_http` owes for a request: the session that the path
/// names; an invalid argument where the body has to be read and is not
/// JSON; and for a standard endpoint the command, or the error, that
/// `command_for` gives for the body.
pub open spec fn http_outcome<U: ExtensionEndpoint>(
    endpoint: Endpoint<U>,
    captures: Seq<GroupView>,
    text: Seq<char>,
    r: WebDriverResult<Message<U>>,
) -> bool {
    &&& r matches Ok(m) ==> m@.session_id == named(captures, "sessionId"@)
    &&& body_for(endpoint, text) is None ==> (r matches Err(e) && e.status
        == ErrorStatus::InvalidArgument)
    &&& !(endpoint is Extension) ==> match (body_for(endpoint, text), r) {
        (Some(body), Ok(m)) => command_for(endpoint, captures, body) == Ok::<
            CommandView<U::Command>,
            ErrorStatus,
        >(m@.command),
        (Some(body), Err(e)) => command_for(endpoint, captures, body) == Err::<
            CommandView<U::Command>,
            ErrorStatus,
        >(e.status),
        (None, _) => true,
    }
}

/// The captured text under `key`, or an invalid argument with `message`.
fn capture(params: &Captures, key: &str, message: &str) -> (r: WebDriverResult<String>)
    ensures
        match r {
            Ok(s) => named(params@, key@) == Some(s@),
            Err(e) => named(params@, key@) is None && e.status == ErrorStatus::InvalidArgument
                && e.message@ == message@,
        },
{
    match params.name(key) {
        Some(s) => Ok(owned(s)),
        None => Err(WebDriverError::new(ErrorStatus::InvalidArgument, message)),
    }
}

/// The element that the path names.
fn element(params: &Captures) -> (r: WebDriverResult<WebElement>)
    ensures
        match r {
            Ok(e) => element_of(params@) == Some(e@),
            Err(e) => element_of(params@) is None && e.status == ErrorStatus::InvalidArgument,
        },
{
    let id = capture(params, "elementId", "Missing elementId parameter")?;
    Ok(WebElement::new(id))
}

/// The command of a standard endpoint.
fn standard_command<U: ExtensionEndpoint>(
    match_type: &Endpoint<U>,
    params: &Captures,
    body: &Json,
) -> (r: WebDriverResult<Command<U::Command>>)
    requires
        !(match_type is Extension),
    ensures
        match r {
            Ok(c) => command_for(*match_type, params@, body@) == Ok::<
                CommandView<U::Command>,
                ErrorStatus,
            >(c@),
            Err(e) => command_for(*match_type, params@, body@) == Err::<
                CommandView<U::Command>,
                ErrorStatus,
            >(e.status),
        },
{
    match match_type {
        Endpoint::NewSession => {
            let parameters = NewSessionParameters::from_json(body)?;
            Ok(Command::NewSession(parameters))
        },
        Endpoint::DeleteSession => Ok(Command::DeleteSession),
        Endpoint::Get => {
            let parameters = GetParameters::from_json(body)?;
            Ok(Command::Get(parameters))
        },
        Endpoint::GetCurrentUrl => Ok(Command::GetCurrentUrl),
        Endpoint::GoBack => Ok(Command::GoBack),
        Endpoint::GoForward => Ok(Command::GoForward),
        Endpoint::Refresh => Ok(Command::Refresh),
        Endpoint::GetTitle => Ok(Command::GetTitle),
        Endpoint::GetPageSource => Ok(Command::GetPageSource),
        Endpoint::GetWindowHandle => Ok(Command::GetWindowHandle),
        Endpoint::GetWindowHandles => Ok(Command::GetWindowHandles),
        Endpoint::CloseWindow => Ok(Command::CloseWindow),
        Endpoint::GetWindowSize => Ok(Command::GetWindowSize),
        Endpoint::SetWindowSize => {
            let parameters = WindowSizeParameters::from_json(body)?;
            Ok(Command::SetWindowSize(parameters))
        },
        Endpoint::GetWindowPosition => Ok(Command::GetWindowPosition),
        Endpoint::SetWindowPosition => {
            let parameters = WindowPositionParameters::from_json(body)?;
            Ok(Command::SetWindowPosition(parameters))
        },
        Endpoint::MaximizeWindow => Ok(Command::MaximizeWindow),
        Endpoint::SwitchToWindow => {
            let parameters = SwitchToWindowParameters::from_json(body)?;
            Ok(Command::SwitchToWindow(parameters))
        },
        Endpoint::SwitchToFrame => {
            let parameters = SwitchToFrameParameters::from_json(body)?;
            Ok(Command::SwitchToFrame(parameters))
        },
        Endpoint::SwitchToParentFrame => Ok(Command::SwitchToParentFrame),
        Endpoint::FindElement => {
            let parameters = LocatorParameters::from_json(body)?;
            Ok(Command::FindElement(parameters))
        },
        Endpoint::FindElements => {
            let parameters = LocatorParameters::from_json(body)?;
            Ok(Command::FindElements(parameters))
        },
        Endpoint::FindElementElement => {
            let element = element(params)?;
            let parameters = LocatorParameters::from_json(body)?;
            Ok(Command::FindElementElement(element, parameters))
        },
        Endpoint::FindElementElements => {
            let element = element(params)?;
            let parameters = LocatorParameters::from_json(body)?;
            Ok(Command::FindElementElements(element, parameters))
        },
        Endpoint::GetActiveElement => Ok(Command::GetActiveElement),
        Endpoint::IsDisplayed => {
            let element = element(params)?;
            Ok(Command::IsDisplayed(element))
        },
        Endpoint::IsSelected => {
            let element = element(params)?;
            Ok(Command::IsSelected(element))
        },
        Endpoint::GetElementAttribute => {
            let element = element(params)?;
            let value = capture(params, "name", "Missing name parameter")?;
            Ok(Command::GetElementAttribute(element, value))
        },
        Endpoint::GetElementProperty => {
            let element = element(params)?;
            let value = capture(params, "name", "Missing name parameter")?;
            Ok(Command::GetElementProperty(element, value))
        },
        Endpoint::GetCSSValue => {
            let element = element(params)?;
            let value = capture(params, "propertyName", "Missing propertyName parameter")?;
            Ok(Command::GetCSSValue(element, value))
        },
        Endpoint::GetElementText => {
            let element = element(params)?;
            Ok(Command::GetElementText(element))
        },
        Endpoint::GetElementTagName => {
            let element = element(params)?;
            Ok(Command::GetElementTagName(element))
        },
        Endpoint::GetElementRect => {
            let element = element(params)?;
            Ok(Command::GetElementRect(element))
        },
        Endpoint::IsEnabled => {
            let element = element(params)?;
            Ok(Command::IsEnabled(element))
        },
        Endpoint::ExecuteScript => {
            let parameters = JavascriptCommandParameters::from_json(body)?;
            Ok(Command::ExecuteScript(parameters))
        },
        Endpoint::ExecuteAsyncScript => {
            let parameters = JavascriptCommandParameters::from_json(body)?;
            Ok(Command::ExecuteAsyncScript(parameters))
        },
        Endpoint::GetCookies => Ok(Command::GetCookies),
        Endpoint::GetCookie => {
            let value = capture(params, "name", "Missing name parameter")?;
            Ok(Command::GetCookie(value))
        },
        Endpoint::AddCookie => {
            let parameters = AddCookieParameters::from_json(body)?;
            Ok(Command::AddCookie(parameters))
        },
        Endpoint::DeleteCookies => Ok(Command::DeleteCookies),
        Endpoint::DeleteCookie => {
            let value = capture(params, "name", "Missing name parameter")?;
            Ok(Command::DeleteCookie(value))
        },
        Endpoint::GetTimeouts => Ok(Command::GetTimeouts),
        Endpoint::SetTimeouts => {
            let parameters = TimeoutsParameters::from_json(body)?;
            Ok(Command::SetTimeouts(parameters))
        },
        Endpoint::ElementClick => {
            let element = element(params)?;
            Ok(Command::ElementClick(element))
        },
        Endpoint::ElementTap => {
            let element = element(params)?;
            Ok(Command::ElementTap(element))
        },
        Endpoint::ElementClear => {
            let element = element(params)?;
            Ok(Command::ElementClear(element))
        },
        Endpoint::ElementSendKeys => {
            let element = element(params)?;
            let parameters = SendKeysParameters::from_json(body)?;
            Ok(Command::ElementSendKeys(element, parameters))
        },
        Endpoint::PerformActions => {
            let parameters = ActionsParameters::from_json(body)?;
            Ok(Command::PerformActions(parameters))
        },
        Endpoint::ReleaseActions => Ok(Command::ReleaseActions),
        Endpoint::DismissAlert => Ok(Command::DismissAlert),
        Endpoint::AcceptAlert => Ok(Command::AcceptAlert),
        Endpoint::GetAlertText => Ok(Command::GetAlertText),
        Endpoint::SendAlertText => {
            let parameters = SendKeysParameters::from_json(body)?;
            Ok(Command::SendAlertText(parameters))
        },
        Endpoint::TakeScreenshot => Ok(Command::TakeScreenshot),
        Endpoint::TakeElementScreenshot => {
            let element = element(params)?;
            Ok(Command::TakeElementScreenshot(element))
        },
        Endpoint::Status => Ok(Command::Status),
        Endpoint::Extension(_) => Err(
            WebDriverError::new(ErrorStatus::UnknownCommand, "Not a standard endpoint"),
        ),
    }
}

impl<U: ExtensionEndpoint> Message<U> {
    pub fn new(session_id: Option<String>, command: Command<U::Command>) -> (m: Message<U>)
        ensures
            m.session_id == session_id,
            m.command == command,
    {
        Message { session_id: session_id, command: command }
    }

    /// The session that the path names under `sessionId`.
    pub fn get_session_id(params: &Captures) -> (r: Option<String>)
        ensures
            opt_chars(r) == named(params@, "sessionId"@),
    {
        match params.name("sessionId") {
            Some(s) => Some(owned(s)),
            None => None,
        }
    }

    /// The message of a request to `match_type` whose path captured `params`
    /// and whose body is the JSON value `body`. For a standard endpoint the
    /// command is the one that `command_for` gives; for an extension it is
    /// what the extension makes of the captures and the body.
    pub fn from_json(match_type: Endpoint<U>, params: &Captures, body: &Json) -> (r:
        WebDriverResult<Message<U>>)
        ensures
            r matches Ok(m) ==> m@.session_id == named(params@, "sessionId"@),
            !(match_type is Extension) ==> match r {
                Ok(m) => command_for(match_type, params@, body@) == Ok::<
                    CommandView<U::Command>,
                    ErrorStatus,
                >(m@.command),
                Err(e) => command_for(match_type, params@, body@) == Err::<
                    CommandView<U::Command>,
                    ErrorStatus,
                >(e.status),
            },
    {
        let session_id = Self::get_session_id(params);
        let command = match &match_type {
            Endpoint::Extension(extension) => extension.command(params, body)?,
            _ => standard_command(&match_type, params, body)?,
        };
        Ok(Message::new(session_id, command))
    }

    /// The message of a request to `match_type` whose path captured `params`
    /// and whose body is the text `body_data`. Where the endpoint's decoder
    /// needs the body and the text is not JSON, the request has an invalid
    /// argument; else the message is that of `from_json` for what the text
    /// reads as.
    pub fn from_http(match_type: Endpoint<U>, params: &Captures, body_data: &str) -> (r:
        WebDriverResult<Message<U>>)
        ensures
            http_outcome(match_type, params@, body_data@, r),
    {
        let is_extension = match &match_type {
            Endpoint::Extension(_) => true,
            _ => false,
        };
        if match_type.reads_body() || (is_extension && !body_data.is_empty()) {
            let body = Json::parse(body_data)?;
            Self::from_json(match_type, params, &body)
        } else {
            Self::from_json(match_type, params, &Json::Null)
        }
    }
}

} // verus!
