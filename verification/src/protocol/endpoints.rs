//! The endpoints of the protocol and the table of their routes.

use crate::error::{ErrorStatus, WebDriverError, WebDriverResult};
use crate::http::Method;
use crate::json::Json;
use crate::pattern::Captures;
use crate::protocol::command::{Command, ExtensionCommand, VoidExtensionCommand};
use vstd::prelude::*;

verus! {

/// An endpoint that an extension adds to the protocol.
pub trait ExtensionEndpoint: Clone + Send + PartialEq {
    type Command: ExtensionCommand + 'static;

    /// The command that a request to this endpoint asks for, from what the
    /// path captured and the body held.
    fn command(&self, captures: &Captures, body: &Json) -> WebDriverResult<
        Command<Self::Command>,
    >;
}

/// The endpoint of the extension that adds none.
#[derive(Clone, Copy, Debug, PartialEq)]
pub struct VoidExtensionEndpoint;

impl ExtensionEndpoint for VoidExtensionEndpoint {
    type Command = VoidExtensionCommand;

    fn command(&self, captures: &Captures, body: &Json) -> (r: WebDriverResult<
        Command<VoidExtensionCommand>,
    >)
        ensures
            r matches Err(e) && e.status == ErrorStatus::UnsupportedOperation,
    {
        Err(WebDriverError::new(ErrorStatus::UnsupportedOperation, "No extensions implemented"))
    }
}

/// What a route leads to: one variant for each command with an endpoint. A
/// type of its own, as a route is matched before the body is read.
#[derive(Copy, Debug, PartialEq)]
pub enum Endpoint<U: ExtensionEndpoint> {
    NewSession,
    DeleteSession,
    Get,
    GetCurrentUrl,
    GoBack,
    GoForward,
    Refresh,
    GetTitle,
    GetPageSource,
    GetWindowHandle,
    GetWindowHandles,
    CloseWindow,
    GetWindowSize,
    SetWindowSize,
    GetWindowPosition,
    SetWindowPosition,
    MaximizeWindow,
    SwitchToWindow,
    SwitchToFrame,
    SwitchToParentFrame,
    FindElement,
    FindElements,
    FindElementElement,
    FindElementElements,
    GetActiveElement,
    IsDisplayed,
    IsSelected,
    GetElementAttribute,
    GetElementProperty,
    GetCSSValue,
    GetElementText,
    GetElementTagName,
    GetElementRect,
    IsEnabled,
    ExecuteScript,
    ExecuteAsyncScript,
    GetCookies,
    GetCookie,
    AddCookie,
    DeleteCookies,
    DeleteCookie,
    GetTimeouts,
    SetTimeouts,
    ElementClick,
    ElementTap,
    ElementClear,
    ElementSendKeys,
    PerformActions,
    ReleaseActions,
    DismissAlert,
    AcceptAlert,
    GetAlertText,
    SendAlertText,
    TakeScreenshot,
    TakeElementScreenshot,
    Status,
    Extension(U),
}

/// Whether one endpoint is a copy of another: the same standard endpoint,
/// or an extension that is a clone of the other's.
pub open spec fn same_endpoint<U: ExtensionEndpoint>(a: Endpoint<U>, b: Endpoint<U>) -> bool {
    match a {
        Endpoint::Extension(u) => b matches Endpoint::Extension(v) && cloned(u, v),
        _ => b == a,
    }
}

impl<U: ExtensionEndpoint> Clone for Endpoint<U> {
    fn clone(&self) -> (r: Endpoint<U>)
        ensures
            same_endpoint(*self, r),
    {
        match self {
            Endpoint::NewSession => Endpoint::NewSession,
            Endpoint::DeleteSession => Endpoint::DeleteSession,
            Endpoint::Get => Endpoint::Get,
            Endpoint::GetCurrentUrl => Endpoint::GetCurrentUrl,
            Endpoint::GoBack => Endpoint::GoBack,
            Endpoint::GoForward => Endpoint::GoForward,
            Endpoint::Refresh => Endpoint::Refresh,
            Endpoint::GetTitle => Endpoint::GetTitle,
            Endpoint::GetPageSource => Endpoint::GetPageSource,
            Endpoint::GetWindowHandle => Endpoint::GetWindowHandle,
            Endpoint::GetWindowHandles => Endpoint::GetWindowHandles,
            Endpoint::CloseWindow => Endpoint::CloseWindow,
            Endpoint::GetWindowSize => Endpoint::GetWindowSize,
            Endpoint::SetWindowSize => Endpoint::SetWindowSize,
            Endpoint::GetWindowPosition => Endpoint::GetWindowPosition,
            Endpoint::SetWindowPosition => Endpoint::SetWindowPosition,
            Endpoint::MaximizeWindow => Endpoint::MaximizeWindow,
            Endpoint::SwitchToWindow => Endpoint::SwitchToWindow,
            Endpoint::SwitchToFrame => Endpoint::SwitchToFrame,
            Endpoint::SwitchToParentFrame => Endpoint::SwitchToParentFrame,
            Endpoint::FindElement => Endpoint::FindElement,
            Endpoint::FindElements => Endpoint::FindElements,
            Endpoint::FindElementElement => Endpoint::FindElementElement,
            Endpoint::FindElementElements => Endpoint::FindElementElements,
            Endpoint::GetActiveElement => Endpoint::GetActiveElement,
            Endpoint::IsDisplayed => Endpoint::IsDisplayed,
            Endpoint::IsSelected => Endpoint::IsSelected,
            Endpoint::GetElementAttribute => Endpoint::GetElementAttribute,
            Endpoint::GetElementProperty => Endpoint::GetElementProperty,
            Endpoint::GetCSSValue => Endpoint::GetCSSValue,
            Endpoint::GetElementText => Endpoint::GetElementText,
            Endpoint::GetElementTagName => Endpoint::GetElementTagName,
            Endpoint::GetElementRect => Endpoint::GetElementRect,
            Endpoint::IsEnabled => Endpoint::IsEnabled,
            Endpoint::ExecuteScript => Endpoint::ExecuteScript,
            Endpoint::ExecuteAsyncScript => Endpoint::ExecuteAsyncScript,
            Endpoint::GetCookies => Endpoint::GetCookies,
            Endpoint::GetCookie => Endpoint::GetCookie,
            Endpoint::AddCookie => Endpoint::AddCookie,
            Endpoint::DeleteCookies => Endpoint::DeleteCookies,
            Endpoint::DeleteCookie => Endpoint::DeleteCookie,
            Endpoint::GetTimeouts => Endpoint::GetTimeouts,
            Endpoint::SetTimeouts => Endpoint::SetTimeouts,
            Endpoint::ElementClick => Endpoint::ElementClick,
            Endpoint::ElementTap => Endpoint::ElementTap,
            Endpoint::ElementClear => Endpoint::ElementClear,
            Endpoint::ElementSendKeys => Endpoint::ElementSendKeys,
            Endpoint::PerformActions => Endpoint::PerformActions,
            Endpoint::ReleaseActions => Endpoint::ReleaseActions,
            Endpoint::DismissAlert => Endpoint::DismissAlert,
            Endpoint::AcceptAlert => Endpoint::AcceptAlert,
            Endpoint::GetAlertText => Endpoint::GetAlertText,
            Endpoint::SendAlertText => Endpoint::SendAlertText,
            Endpoint::TakeScreenshot => Endpoint::TakeScreenshot,
            Endpoint::TakeElementScreenshot => Endpoint::TakeElementScreenshot,
            Endpoint::Status => Endpoint::Status,
            Endpoint::Extension(u) => Endpoint::Extension(u.clone()),
        }
    }
}

impl<U: ExtensionEndpoint> Endpoint<U> {
    /// Whether the command of this endpoint reads parameters from the body.
    pub open spec fn has_body(self) -> bool {
        match self {
            Endpoint::NewSession => true,
            Endpoint::Get => true,
            Endpoint::SetWindowSize => true,
            Endpoint::SetWindowPosition => true,
            Endpoint::SwitchToWindow => true,
            Endpoint::SwitchToFrame => true,
            Endpoint::FindElement => true,
            Endpoint::FindElements => true,
            Endpoint::FindElementElement => true,
            Endpoint::FindElementElements => true,
            Endpoint::ExecuteScript => true,
            Endpoint::ExecuteAsyncScript => true,
            Endpoint::AddCookie => true,
            Endpoint::SetTimeouts => true,
            Endpoint::ElementSendKeys => true,
            Endpoint::PerformActions => true,
            Endpoint::SendAlertText => true,
            _ => false,
        }
    }

    pub fn reads_body(&self) -> (r: bool)
        ensures
            r == self.has_body(),
    {
        match self {
            Endpoint::NewSession => true,
            Endpoint::Get => true,
            Endpoint::SetWindowSize => true,
            Endpoint::SetWindowPosition => true,
            Endpoint::SwitchToWindow => true,
            Endpoint::SwitchToFrame => true,
            Endpoint::FindElement => true,
            Endpoint::FindElements => true,
            Endpoint::FindElementElement => true,
            Endpoint::FindElementElements => true,
            Endpoint::ExecuteScript => true,
            Endpoint::ExecuteAsyncScript => true,
            Endpoint::AddCookie => true,
            Endpoint::SetTimeouts => true,
            Endpoint::ElementSendKeys => true,
            Endpoint::PerformActions => true,
            Endpoint::SendAlertText => true,
            _ => false,
        }
    }
}

/// A route: a method, a path template, and the endpoint it leads to.
pub type Route<U> = (Method, Seq<char>, Endpoint<U>);

/// The routes of a table, each with the characters of its template.
pub open spec fn routes_of<U: ExtensionEndpoint>(
    table: Seq<(Method, &'static str, Endpoint<U>)>,
) -> Seq<Route<U>> {
    table.map_values(|r: (Method, &'static str, Endpoint<U>)| (r.0, r.1@, r.2))
}

/// The number of routes in the standard table.
pub open spec fn standard_len() -> int {
    65
}

/// Where the block of routes under the paths of the older protocol begins.
pub open spec fn legacy_start() -> int {
    55
}

/// Where the block of routes under the paths of the older protocol ends.
pub open spec fn legacy_end() -> int {
    64
}

/// The standard routes in the order in which they are tried: those of the
/// protocol, then those under the paths of the older protocol, then the
/// status.
pub open spec fn standard_table<U: ExtensionEndpoint>() -> Seq<Route<U>> {
    Seq::empty()
        .push((Method::Post, "/session"@, Endpoint::NewSession))
        .push((Method::Delete, "/session/{sessionId}"@, Endpoint::DeleteSession))
        .push((Method::Post, "/session/{sessionId}/url"@, Endpoint::Get))
        .push((Method::Get, "/session/{sessionId}/url"@, Endpoint::GetCurrentUrl))
        .push((Method::Post, "/session/{sessionId}/back"@, Endpoint::GoBack))
        .push((Method::Post, "/session/{sessionId}/forward"@, Endpoint::GoForward))
        .push((Method::Post, "/session/{sessionId}/refresh"@, Endpoint::Refresh))
        .push((Method::Get, "/session/{sessionId}/title"@, Endpoint::GetTitle))
        .push((Method::Get, "/session/{sessionId}/source"@, Endpoint::GetPageSource))
        .push((Method::Get, "/session/{sessionId}/window"@, Endpoint::GetWindowHandle))
        .push((Method::Get, "/session/{sessionId}/window/handles"@, Endpoint::GetWindowHandles))
        .push((Method::Delete, "/session/{sessionId}/window"@, Endpoint::CloseWindow))
        .push((Method::Get, "/session/{sessionId}/window/size"@, Endpoint::GetWindowSize))
        .push((Method::Post, "/session/{sessionId}/window/size"@, Endpoint::SetWindowSize))
        .push((Method::Get, "/session/{sessionId}/window/position"@, Endpoint::GetWindowPosition))
        .push((Method::Post, "/session/{sessionId}/window/position"@, Endpoint::SetWindowPosition))
        .push((Method::Post, "/session/{sessionId}/window/maximize"@, Endpoint::MaximizeWindow))
        .push((Method::Post, "/session/{sessionId}/window"@, Endpoint::SwitchToWindow))
        .push((Method::Post, "/session/{sessionId}/frame"@, Endpoint::SwitchToFrame))
        .push((Method::Post, "/session/{sessionId}/frame/parent"@, Endpoint::SwitchToParentFrame))
        .push((Method::Post, "/session/{sessionId}/element"@, Endpoint::FindElement))
        .push((Method::Post, "/session/{sessionId}/elements"@, Endpoint::FindElements))
        .push((Method::Post, "/session/{sessionId}/element/{elementId}/element"@, Endpoint::FindElementElement))
        .push((Method::Post, "/session/{sessionId}/element/{elementId}/elements"@, Endpoint::FindElementElements))
        .push((Method::Get, "/session/{sessionId}/element/active"@, Endpoint::GetActiveElement))
        .push((Method::Get, "/session/{sessionId}/element/{elementId}/displayed"@, Endpoint::IsDisplayed))
        .push((Method::Get, "/session/{sessionId}/element/{elementId}/selected"@, Endpoint::IsSelected))
        .push((Method::Get, "/session/{sessionId}/element/{elementId}/attribute/{name}"@, Endpoint::GetElementAttribute))
        .push((Method::Get, "/session/{sessionId}/element/{elementId}/property/{name}"@, Endpoint::GetElementProperty))
        .push((Method::Get, "/session/{sessionId}/element/{elementId}/css/{propertyName}"@, Endpoint::GetCSSValue))
        .push((Method::Get, "/session/{sessionId}/element/{elementId}/text"@, Endpoint::GetElementText))
        .push((Method::Get, "/session/{sessionId}/element/{elementId}/name"@, Endpoint::GetElementTagName))
        .push((Method::Get, "/session/{sessionId}/element/{elementId}/rect"@, Endpoint::GetElementRect))
        .push((Method::Get, "/session/{sessionId}/element/{elementId}/enabled"@, Endpoint::IsEnabled))
        .push((Method::Post, "/session/{sessionId}/execute/sync"@, Endpoint::ExecuteScript))
        .push((Method::Post, "/session/{sessionId}/execute/async"@, Endpoint::ExecuteAsyncScript))
        .push((Method::Get, "/session/{sessionId}/cookie"@, Endpoint::GetCookies))
        .push((Method::Get, "/session/{sessionId}/cookie/{name}"@, Endpoint::GetCookie))
        .push((Method::Post, "/session/{sessionId}/cookie"@, Endpoint::AddCookie))
        .push((Method::Delete, "/session/{sessionId}/cookie"@, Endpoint::DeleteCookies))
        .push((Method::Delete, "/session/{sessionId}/cookie/{name}"@, Endpoint::DeleteCookie))
        .push((Method::Get, "/session/{sessionId}/timeouts"@, Endpoint::GetTimeouts))
        .push((Method::Post, "/session/{sessionId}/timeouts"@, Endpoint::SetTimeouts))
        .push((Method::Post, "/session/{sessionId}/element/{elementId}/click"@, Endpoint::ElementClick))
        .push((Method::Post, "/session/{sessionId}/element/{elementId}/tap"@, Endpoint::ElementTap))
        .push((Method::Post, "/session/{sessionId}/element/{elementId}/clear"@, Endpoint::ElementClear))
        .push((Method::Post, "/session/{sessionId}/element/{elementId}/value"@, Endpoint::ElementSendKeys))
        .push((Method::Post, "/session/{sessionId}/alert/dismiss"@, Endpoint::DismissAlert))
        .push((Method::Post, "/session/{sessionId}/alert/accept"@, Endpoint::AcceptAlert))
        .push((Method::Get, "/session/{sessionId}/alert/text"@, Endpoint::GetAlertText))
        .push((Method::Post, "/session/{sessionId}/alert/text"@, Endpoint::SendAlertText))
        .push((Method::Get, "/session/{sessionId}/screenshot"@, Endpoint::TakeScreenshot))
        .push((Method::Get, "/session/{sessionId}/element/{elementId}/screenshot"@, Endpoint::TakeElementScreenshot))
        .push((Method::Post, "/session/{sessionId}/actions"@, Endpoint::PerformActions))
        .push((Method::Delete, "/session/{sessionId}/actions"@, Endpoint::ReleaseActions))
        .push((Method::Get, "/session/{sessionId}/alert_text"@, Endpoint::GetAlertText))
        .push((Method::Post, "/session/{sessionId}/alert_text"@, Endpoint::SendAlertText))
        .push((Method::Post, "/session/{sessionId}/accept_alert"@, Endpoint::AcceptAlert))
        .push((Method::Post, "/session/{sessionId}/dismiss_alert"@, Endpoint::DismissAlert))
        .push((Method::Get, "/session/{sessionId}/window_handle"@, Endpoint::GetWindowHandle))
        .push((Method::Get, "/session/{sessionId}/window_handles"@, Endpoint::GetWindowHandles))
        .push((Method::Delete, "/session/{sessionId}/window_handle"@, Endpoint::CloseWindow))
        .push((Method::Post, "/session/{sessionId}/execute_async"@, Endpoint::ExecuteAsyncScript))
        .push((Method::Post, "/session/{sessionId}/execute"@, Endpoint::ExecuteScript))
        .push((Method::Get, "/status"@, Endpoint::Status))
}

fn route<U: ExtensionEndpoint>(
    table: &mut Vec<(Method, &'static str, Endpoint<U>)>,
    method: Method,
    path: &'static str,
    endpoint: Endpoint<U>,
)
    ensures
        routes_of(final(table)@) == routes_of(old(table)@).push((method, path@, endpoint)),
{
    table.push((method, path, endpoint));
    assert(routes_of(table@) =~= routes_of(old(table)@).push((method, path@, endpoint)));
}

/// The table of the standard routes.
pub fn standard_endpoints<U: ExtensionEndpoint>() -> (table: Vec<
    (Method, &'static str, Endpoint<U>),
>)
    ensures
        routes_of(table@) == standard_table::<U>(),
{
    let mut table: Vec<(Method, &'static str, Endpoint<U>)> = Vec::new();
    assert(routes_of(table@) =~= Seq::empty());
    route(&mut table, Method::Post, "/session", Endpoint::NewSession);
    route(&mut table, Method::Delete, "/session/{sessionId}", Endpoint::DeleteSession);
    route(&mut table, Method::Post, "/session/{sessionId}/url", Endpoint::Get);
    route(&mut table, Method::Get, "/session/{sessionId}/url", Endpoint::GetCurrentUrl);
    route(&mut table, Method::Post, "/session/{sessionId}/back", Endpoint::GoBack);
    route(&mut table, Method::Post, "/session/{sessionId}/forward", Endpoint::GoForward);
    route(&mut table, Method::Post, "/session/{sessionId}/refresh", Endpoint::Refresh);
    route(&mut table, Method::Get, "/session/{sessionId}/title", Endpoint::GetTitle);
    route(&mut table, Method::Get, "/session/{sessionId}/source", Endpoint::GetPageSource);
    route(&mut table, Method::Get, "/session/{sessionId}/window", Endpoint::GetWindowHandle);
    route(&mut table, Method::Get, "/session/{sessionId}/window/handles", Endpoint::GetWindowHandles);
    route(&mut table, Method::Delete, "/session/{sessionId}/window", Endpoint::CloseWindow);
    route(&mut table, Method::Get, "/session/{sessionId}/window/size", Endpoint::GetWindowSize);
    route(&mut table, Method::Post, "/session/{sessionId}/window/size", Endpoint::SetWindowSize);
    route(&mut table, Method::Get, "/session/{sessionId}/window/position", Endpoint::GetWindowPosition);
    route(&mut table, Method::Post, "/session/{sessionId}/window/position", Endpoint::SetWindowPosition);
    route(&mut table, Method::Post, "/session/{sessionId}/window/maximize", Endpoint::MaximizeWindow);
    route(&mut table, Method::Post, "/session/{sessionId}/window", Endpoint::SwitchToWindow);
    route(&mut table, Method::Post, "/session/{sessionId}/frame", Endpoint::SwitchToFrame);
    route(&mut table, Method::Post, "/session/{sessionId}/frame/parent", Endpoint::SwitchToParentFrame);
    route(&mut table, Method::Post, "/session/{sessionId}/element", Endpoint::FindElement);
    route(&mut table, Method::Post, "/session/{sessionId}/elements", Endpoint::FindElements);
    route(&mut table, Method::Post, "/session/{sessionId}/element/{elementId}/element", Endpoint::FindElementElement);
    route(&mut table, Method::Post, "/session/{sessionId}/element/{elementId}/elements", Endpoint::FindElementElements);
    route(&mut table, Method::Get, "/session/{sessionId}/element/active", Endpoint::GetActiveElement);
    route(&mut table, Method::Get, "/session/{sessionId}/element/{elementId}/displayed", Endpoint::IsDisplayed);
    route(&mut table, Method::Get, "/session/{sessionId}/element/{elementId}/selected", Endpoint::IsSelected);
    route(&mut table, Method::Get, "/session/{sessionId}/element/{elementId}/attribute/{name}", Endpoint::GetElementAttribute);
    route(&mut table, Method::Get, "/session/{sessionId}/element/{elementId}/property/{name}", Endpoint::GetElementProperty);
    route(&mut table, Method::Get, "/session/{sessionId}/element/{elementId}/css/{propertyName}", Endpoint::GetCSSValue);
    route(&mut table, Method::Get, "/session/{sessionId}/element/{elementId}/text", Endpoint::GetElementText);
    route(&mut table, Method::Get, "/session/{sessionId}/element/{elementId}/name", Endpoint::GetElementTagName);
    route(&mut table, Method::Get, "/session/{sessionId}/element/{elementId}/rect", Endpoint::GetElementRect);
    route(&mut table, Method::Get, "/session/{sessionId}/element/{elementId}/enabled", Endpoint::IsEnabled);
    route(&mut table, Method::Post, "/session/{sessionId}/execute/sync", Endpoint::ExecuteScript);
    route(&mut table, Method::Post, "/session/{sessionId}/execute/async", Endpoint::ExecuteAsyncScript);
    route(&mut table, Method::Get, "/session/{sessionId}/cookie", Endpoint::GetCookies);
    route(&mut table, Method::Get, "/session/{sessionId}/cookie/{name}", Endpoint::GetCookie);
    route(&mut table, Method::Post, "/session/{sessionId}/cookie", Endpoint::AddCookie);
    route(&mut table, Method::Delete, "/session/{sessionId}/cookie", Endpoint::DeleteCookies);
    route(&mut table, Method::Delete, "/session/{sessionId}/cookie/{name}", Endpoint::DeleteCookie);
    route(&mut table, Method::Get, "/session/{sessionId}/timeouts", Endpoint::GetTimeouts);
    route(&mut table, Method::Post, "/session/{sessionId}/timeouts", Endpoint::SetTimeouts);
    route(&mut table, Method::Post, "/session/{sessionId}/element/{elementId}/click", Endpoint::ElementClick);
    route(&mut table, Method::Post, "/session/{sessionId}/element/{elementId}/tap", Endpoint::ElementTap);
    route(&mut table, Method::Post, "/session/{sessionId}/element/{elementId}/clear", Endpoint::ElementClear);
    route(&mut table, Method::Post, "/session/{sessionId}/element/{elementId}/value", Endpoint::ElementSendKeys);
    route(&mut table, Method::Post, "/session/{sessionId}/alert/dismiss", Endpoint::DismissAlert);
    route(&mut table, Method::Post, "/session/{sessionId}/alert/accept", Endpoint::AcceptAlert);
    route(&mut table, Method::Get, "/session/{sessionId}/alert/text", Endpoint::GetAlertText);
    route(&mut table, Method::Post, "/session/{sessionId}/alert/text", Endpoint::SendAlertText);
    route(&mut table, Method::Get, "/session/{sessionId}/screenshot", Endpoint::TakeScreenshot);
    route(&mut table, Method::Get, "/session/{sessionId}/element/{elementId}/screenshot", Endpoint::TakeElementScreenshot);
    route(&mut table, Method::Post, "/session/{sessionId}/actions", Endpoint::PerformActions);
    route(&mut table, Method::Delete, "/session/{sessionId}/actions", Endpoint::ReleaseActions);
    route(&mut table, Method::Get, "/session/{sessionId}/alert_text", Endpoint::GetAlertText);
    route(&mut table, Method::Post, "/session/{sessionId}/alert_text", Endpoint::SendAlertText);
    route(&mut table, Method::Post, "/session/{sessionId}/accept_alert", Endpoint::AcceptAlert);
    route(&mut table, Method::Post, "/session/{sessionId}/dismiss_alert", Endpoint::DismissAlert);
    route(&mut table, Method::Get, "/session/{sessionId}/window_handle", Endpoint::GetWindowHandle);
    route(&mut table, Method::Get, "/session/{sessionId}/window_handles", Endpoint::GetWindowHandles);
    route(&mut table, Method::Delete, "/session/{sessionId}/window_handle", Endpoint::CloseWindow);
    route(&mut table, Method::Post, "/session/{sessionId}/execute_async", Endpoint::ExecuteAsyncScript);
    route(&mut table, Method::Post, "/session/{sessionId}/execute", Endpoint::ExecuteScript);
    route(&mut table, Method::Get, "/status", Endpoint::Status);
    table
}

/// The path of the protocol for a path of the older protocol.
pub open spec fn modern_path(path: Seq<char>) -> Option<Seq<char>> {
    if path == "/session/{sessionId}/alert_text"@ {
        Some("/session/{sessionId}/alert/text"@)
    }     else if path == "/session/{sessionId}/accept_alert"@ {
        Some("/session/{sessionId}/alert/accept"@)
    }     else if path == "/session/{sessionId}/dismiss_alert"@ {
        Some("/session/{sessionId}/alert/dismiss"@)
    }     else if path == "/session/{sessionId}/window_handle"@ {
        Some("/session/{sessionId}/window"@)
    }     else if path == "/session/{sessionId}/window_handles"@ {
        Some("/session/{sessionId}/window/handles"@)
    }     else if path == "/session/{sessionId}/execute_async"@ {
        Some("/session/{sessionId}/execute/async"@)
    }     else if path == "/session/{sessionId}/execute"@ {
        Some("/session/{sessionId}/execute/sync"@)
    } else {
        None
    }
}

/// For a route of the older protocol's block, the index of the route under
/// the protocol's own path.
pub open spec fn modern_index(i: int) -> int {
    if i == 55 {
        49
    } else if i == 56 {
        50
    } else if i == 57 {
        48
    } else if i == 58 {
        47
    } else if i == 59 {
        9
    } else if i == 60 {
        10
    } else if i == 61 {
        11
    } else if i == 62 {
        35
    } else {
        34
    }
}

/// The paths of the older protocol differ from each other.
proof fn lemma_legacy_paths()
    ensures
        "/session/{sessionId}/alert_text"@.len() == 31,
        "/session/{sessionId}/accept_alert"@.len() == 33,
        "/session/{sessionId}/dismiss_alert"@.len() == 34,
        "/session/{sessionId}/dismiss_alert"@[21] == 'd',
        "/session/{sessionId}/window_handle"@.len() == 34,
        "/session/{sessionId}/window_handle"@[21] == 'w',
        "/session/{sessionId}/window_handles"@.len() == 35,
        "/session/{sessionId}/execute_async"@.len() == 34,
        "/session/{sessionId}/execute_async"@[21] == 'e',
        "/session/{sessionId}/execute"@.len() == 28,
{
    reveal_strlit("/session/{sessionId}/alert_text");
    reveal_strlit("/session/{sessionId}/accept_alert");
    reveal_strlit("/session/{sessionId}/dismiss_alert");
    reveal_strlit("/session/{sessionId}/window_handle");
    reveal_strlit("/session/{sessionId}/window_handles");
    reveal_strlit("/session/{sessionId}/execute_async");
    reveal_strlit("/session/{sessionId}/execute");
}

/// A route under a path of the older protocol has the method and the
/// endpoint of the route under the protocol's own path for it, and that
/// route stands earlier in the table: both paths lead to the same command,
/// and the protocol's own path is tried first.
pub proof fn lemma_legacy_routes<U: ExtensionEndpoint>(i: int)
    requires
        legacy_start() <= i < legacy_end(),
    ensures
        ({
            let table = standard_table::<U>();
            let j = modern_index(i);
            &&& 0 <= j < legacy_start()
            &&& modern_path(table[i].1) == Some(table[j].1)
            &&& table[j].0 == table[i].0
            &&& table[j].2 == table[i].2
        }),
{
    lemma_legacy_paths();
}

/// No standard route leads to an extension.
pub proof fn lemma_standard_routes<U: ExtensionEndpoint>(i: int)
    requires
        0 <= i < standard_len(),
    ensures
        standard_table::<U>().len() == standard_len(),
        !(standard_table::<U>()[i].2 is Extension),
{
}

} // verus!
