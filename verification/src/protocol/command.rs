//! The commands of the protocol, one for each endpoint.

use crate::json::Json;
use crate::protocol::common::{WebElement, WebElementView};
use crate::protocol::parameters::{
    ActionsParameters, ActionsParametersView, AddCookieParameters, AddCookieParametersView,
    GetParameters, GetParametersView, JavascriptCommandParameters,
    JavascriptCommandParametersView, LocatorParameters, LocatorParametersView,
    NewSessionParameters, NewSessionParametersView, SendKeysParameters, SendKeysParametersView,
    SwitchToFrameParameters, SwitchToFrameParametersView, SwitchToWindowParameters,
    SwitchToWindowParametersView, TimeoutsParameters, TimeoutsParametersView,
    WindowPositionParameters, WindowSizeParameters,
};
use vstd::prelude::*;

verus! {

/// A command that an extension adds to the protocol.
pub trait ExtensionCommand: Clone + Send + PartialEq {
    /// The body with which a client asks for this command, if it has one.
    fn parameters_json(&self) -> Option<Json>;
}

/// The command of the extension that adds none.
#[derive(Clone, Debug, PartialEq)]
pub struct VoidExtensionCommand;

impl ExtensionCommand for VoidExtensionCommand {
    fn parameters_json(&self) -> (r: Option<Json>)
        ensures
            r is None,
    {
        None
    }
}

/// A command, with what its endpoint's path and body carried.
#[derive(Clone, Debug, PartialEq)]
pub enum Command<T: ExtensionCommand> {
    NewSession(NewSessionParameters),
    DeleteSession,
    Get(GetParameters),
    GetCurrentUrl,
    GoBack,
    GoForward,
    Refresh,
    GetTitle,
    GetPageSource,
    GetWindowHandle,
    GetWindowHandles,
    CloseWindow,
    GetWindowSize,
    SetWindowSize(WindowSizeParameters),
    GetWindowPosition,
    SetWindowPosition(WindowPositionParameters),
    MaximizeWindow,
    FullscreenWindow,
    SwitchToWindow(SwitchToWindowParameters),
    SwitchToFrame(SwitchToFrameParameters),
    SwitchToParentFrame,
    FindElement(LocatorParameters),
    FindElements(LocatorParameters),
    FindElementElement(WebElement, LocatorParameters),
    FindElementElements(WebElement, LocatorParameters),
    GetActiveElement,
    IsDisplayed(WebElement),
    IsSelected(WebElement),
    GetElementAttribute(WebElement, String),
    GetElementProperty(WebElement, String),
    GetCSSValue(WebElement, String),
    GetElementText(WebElement),
    GetElementTagName(WebElement),
    GetElementRect(WebElement),
    IsEnabled(WebElement),
    ExecuteScript(JavascriptCommandParameters),
    ExecuteAsyncScript(JavascriptCommandParameters),
    GetCookies,
    GetCookie(String),
    AddCookie(AddCookieParameters),
    DeleteCookies,
    DeleteCookie(String),
    GetTimeouts,
    SetTimeouts(TimeoutsParameters),
    ElementClick(WebElement),
    ElementTap(WebElement),
    ElementClear(WebElement),
    ElementSendKeys(WebElement, SendKeysParameters),
    PerformActions(ActionsParameters),
    ReleaseActions,
    DismissAlert,
    AcceptAlert,
    GetAlertText,
    SendAlertText(SendKeysParameters),
    TakeScreenshot,
    TakeElementScreenshot(WebElement),
    Status,
    Extension(T),
}

pub ghost enum CommandView<T> {
    NewSession(NewSessionParametersView),
    DeleteSession,
    Get(GetParametersView),
    GetCurrentUrl,
    GoBack,
    GoForward,
    Refresh,
    GetTitle,
    GetPageSource,
    GetWindowHandle,
    GetWindowHandles,
    CloseWindow,
    GetWindowSize,
    SetWindowSize(WindowSizeParameters),
    GetWindowPosition,
    SetWindowPosition(WindowPositionParameters),
    MaximizeWindow,
    FullscreenWindow,
    SwitchToWindow(SwitchToWindowParametersView),
    SwitchToFrame(SwitchToFrameParametersView),
    SwitchToParentFrame,
    FindElement(LocatorParametersView),
    FindElements(LocatorParametersView),
    FindElementElement(WebElementView, LocatorParametersView),
    FindElementElements(WebElementView, LocatorParametersView),
    GetActiveElement,
    IsDisplayed(WebElementView),
    IsSelected(WebElementView),
    GetElementAttribute(WebElementView, Seq<char>),
    GetElementProperty(WebElementView, Seq<char>),
    GetCSSValue(WebElementView, Seq<char>),
    GetElementText(WebElementView),
    GetElementTagName(WebElementView),
    GetElementRect(WebElementView),
    IsEnabled(WebElementView),
    ExecuteScript(JavascriptCommandParametersView),
    ExecuteAsyncScript(JavascriptCommandParametersView),
    GetCookies,
    GetCookie(Seq<char>),
    AddCookie(AddCookieParametersView),
    DeleteCookies,
    DeleteCookie(Seq<char>),
    GetTimeouts,
    SetTimeouts(TimeoutsParametersView),
    ElementClick(WebElementView),
    ElementTap(WebElementView),
    ElementClear(WebElementView),
    ElementSendKeys(WebElementView, SendKeysParametersView),
    PerformActions(ActionsParametersView),
    ReleaseActions,
    DismissAlert,
    AcceptAlert,
    GetAlertText,
    SendAlertText(SendKeysParametersView),
    TakeScreenshot,
    TakeElementScreenshot(WebElementView),
    Status,
    Extension(T),
}

impl<T: ExtensionCommand> View for Command<T> {
    type V = CommandView<T>;

    open spec fn view(&self) -> CommandView<T> {
        match self {
            Command::NewSession(a) => CommandView::NewSession(a@),
            Command::DeleteSession => CommandView::DeleteSession,
            Command::Get(a) => CommandView::Get(a@),
            Command::GetCurrentUrl => CommandView::GetCurrentUrl,
            Command::GoBack => CommandView::GoBack,
            Command::GoForward => CommandView::GoForward,
            Command::Refresh => CommandView::Refresh,
            Command::GetTitle => CommandView::GetTitle,
            Command::GetPageSource => CommandView::GetPageSource,
            Command::GetWindowHandle => CommandView::GetWindowHandle,
            Command::GetWindowHandles => CommandView::GetWindowHandles,
            Command::CloseWindow => CommandView::CloseWindow,
            Command::GetWindowSize => CommandView::GetWindowSize,
            Command::SetWindowSize(a) => CommandView::SetWindowSize(*a),
            Command::GetWindowPosition => CommandView::GetWindowPosition,
            Command::SetWindowPosition(a) => CommandView::SetWindowPosition(*a),
            Command::MaximizeWindow => CommandView::MaximizeWindow,
            Command::FullscreenWindow => CommandView::FullscreenWindow,
            Command::SwitchToWindow(a) => CommandView::SwitchToWindow(a@),
            Command::SwitchToFrame(a) => CommandView::SwitchToFrame(a@),
            Command::SwitchToParentFrame => CommandView::SwitchToParentFrame,
            Command::FindElement(a) => CommandView::FindElement(a@),
            Command::FindElements(a) => CommandView::FindElements(a@),
            Command::FindElementElement(a, b) => CommandView::FindElementElement(a@, b@),
            Command::FindElementElements(a, b) => CommandView::FindElementElements(a@, b@),
            Command::GetActiveElement => CommandView::GetActiveElement,
            Command::IsDisplayed(a) => CommandView::IsDisplayed(a@),
            Command::IsSelected(a) => CommandView::IsSelected(a@),
            Command::GetElementAttribute(a, b) => CommandView::GetElementAttribute(a@, b@),
            Command::GetElementProperty(a, b) => CommandView::GetElementProperty(a@, b@),
            Command::GetCSSValue(a, b) => CommandView::GetCSSValue(a@, b@),
            Command::GetElementText(a) => CommandView::GetElementText(a@),
            Command::GetElementTagName(a) => CommandView::GetElementTagName(a@),
            Command::GetElementRect(a) => CommandView::GetElementRect(a@),
            Command::IsEnabled(a) => CommandView::IsEnabled(a@),
            Command::ExecuteScript(a) => CommandView::ExecuteScript(a@),
            Command::ExecuteAsyncScript(a) => CommandView::ExecuteAsyncScript(a@),
            Command::GetCookies => CommandView::GetCookies,
            Command::GetCookie(a) => CommandView::GetCookie(a@),
            Command::AddCookie(a) => CommandView::AddCookie(a@),
            Command::DeleteCookies => CommandView::DeleteCookies,
            Command::DeleteCookie(a) => CommandView::DeleteCookie(a@),
            Command::GetTimeouts => CommandView::GetTimeouts,
            Command::SetTimeouts(a) => CommandView::SetTimeouts(a@),
            Command::ElementClick(a) => CommandView::ElementClick(a@),
            Command::ElementTap(a) => CommandView::ElementTap(a@),
            Command::ElementClear(a) => CommandView::ElementClear(a@),
            Command::ElementSendKeys(a, b) => CommandView::ElementSendKeys(a@, b@),
            Command::PerformActions(a) => CommandView::PerformActions(a@),
            Command::ReleaseActions => CommandView::ReleaseActions,
            Command::DismissAlert => CommandView::DismissAlert,
            Command::AcceptAlert => CommandView::AcceptAlert,
            Command::GetAlertText => CommandView::GetAlertText,
            Command::SendAlertText(a) => CommandView::SendAlertText(a@),
            Command::TakeScreenshot => CommandView::TakeScreenshot,
            Command::TakeElementScreenshot(a) => CommandView::TakeElementScreenshot(a@),
            Command::Status => CommandView::Status,
            Command::Extension(t) => CommandView::Extension(*t),
        }
    }
}

impl<T: ExtensionCommand> Command<T> {
    /// Whether this command asks for a new session.
    pub fn is_new_session(&self) -> (r: bool)
        ensures
            r == (self@ is NewSession),
    {
        match self {
            Command::NewSession(_) => true,
            _ => false,
        }
    }

    /// Whether this command asks for the end of the session.
    pub fn is_delete_session(&self) -> (r: bool)
        ensures
            r == (self@ is DeleteSession),
    {
        match self {
            Command::DeleteSession => true,
            _ => false,
        }
    }

    /// Whether this command asks for the server's status.
    pub fn is_status(&self) -> (r: bool)
        ensures
            r == (self@ is Status),
    {
        match self {
            Command::Status => true,
            _ => false,
        }
    }
}

} // verus!
