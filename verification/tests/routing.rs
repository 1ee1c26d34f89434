use webdriver::error::{ErrorStatus, WebDriverResult};
use webdriver::http::Method;
use webdriver::json::Json;
use webdriver::pattern::{Captures, Group};
use webdriver::protocol::command::{Command, ExtensionCommand, VoidExtensionCommand};
use webdriver::protocol::common::{FrameId, LocatorStrategy, WebElement};
use webdriver::protocol::endpoints::{
    standard_endpoints, Endpoint, ExtensionEndpoint, VoidExtensionEndpoint,
};
use webdriver::protocol::parameters::{
    GetParameters, LocatorParameters, SendKeysParameters, SwitchToFrameParameters,
    WindowSizeParameters,
};
use webdriver::server::httpapi::{compile_path, HttpApi, RequestMatcher, RouteError};
use webdriver::server::message::Message;

type Api = HttpApi<VoidExtensionEndpoint>;
type Cmd = Command<VoidExtensionCommand>;

fn api() -> Api {
    HttpApi::new(&[]).unwrap()
}

fn element(id: &str) -> WebElement {
    WebElement::new(id.to_string())
}

/// A path that a template stands for, and a body that its endpoint takes.
fn instance(path: &str) -> String {
    path.replace("{sessionId}", "s1")
        .replace("{elementId}", "elem")
        .replace("{name}", "title")
        .replace("{propertyName}", "color")
}

fn body_for(endpoint: &Endpoint<VoidExtensionEndpoint>) -> &'static str {
    match endpoint {
        Endpoint::NewSession => "{}",
        Endpoint::Get => r#"{"url":"u"}"#,
        Endpoint::SetTimeouts => r#"{"type":"script","ms":1}"#,
        Endpoint::SetWindowSize => r#"{"width":1,"height":2}"#,
        Endpoint::SetWindowPosition => r#"{"x":1,"y":2}"#,
        Endpoint::SwitchToWindow => r#"{"handle":"h"}"#,
        Endpoint::SwitchToFrame => r#"{"id":null}"#,
        Endpoint::FindElement
        | Endpoint::FindElements
        | Endpoint::FindElementElement
        | Endpoint::FindElementElements => r#"{"using":"xpath","value":"v"}"#,
        Endpoint::ElementSendKeys | Endpoint::SendAlertText => r#"{"value":["a"]}"#,
        Endpoint::ExecuteScript | Endpoint::ExecuteAsyncScript => r#"{"script":"s","args":[]}"#,
        Endpoint::AddCookie => r#"{"name":"n","value":"v","secure":false,"httpOnly":false}"#,
        Endpoint::PerformActions => r#"{"actions":[]}"#,
        _ => "",
    }
}

fn same_variant(endpoint: &Endpoint<VoidExtensionEndpoint>, command: &Cmd) -> bool {
    let endpoint_name = format!("{:?}", endpoint);
    let command_name = format!("{:?}", command);
    let command_name = command_name.split(|c| c == '(' || c == ' ').next().unwrap().to_string();
    endpoint_name == command_name
}

#[test]
fn compile_path_gives_the_anchored_pattern() {
    assert_eq!(compile_path("/session"), Some("^/session$".to_string()));
    assert_eq!(
        compile_path("/session/{sessionId}/url"),
        Some("^/session/(?P<sessionId>[^/]+)/url$".to_string())
    );
    assert_eq!(
        compile_path("/session/{sessionId}/element/{elementId}/attribute/{name}"),
        Some(
            "^/session/(?P<sessionId>[^/]+)/element/(?P<elementId>[^/]+)/attribute/(?P<name>[^/]+)$"
                .to_string()
        )
    );
    assert_eq!(compile_path(""), Some("^$".to_string()));
    assert_eq!(compile_path("/"), Some("^/$".to_string()));
    assert_eq!(compile_path("/a/"), Some("^/a/$".to_string()));
    assert_eq!(compile_path("a}b/c"), Some("^a}b/c$".to_string()));
    assert_eq!(compile_path("{}"), Some("^(?P<>[^/]+)$".to_string()));
}

#[test]
fn compile_path_refuses_an_unclosed_brace() {
    assert_eq!(compile_path("/session/{sessionId"), None);
    assert_eq!(compile_path("/{a}b/c"), None);
    assert_eq!(compile_path("{"), None);
    assert_eq!(compile_path("/a/{/b"), None);
}

#[test]
fn matcher_construction_errors() {
    let endpoint: Endpoint<VoidExtensionEndpoint> = Endpoint::Status;
    assert_eq!(
        RequestMatcher::new(Method::Get, "/x/{id", endpoint).err(),
        Some(RouteError::InvalidTemplate)
    );
    assert_eq!(
        RequestMatcher::new(Method::Get, "/x/(", endpoint).err(),
        Some(RouteError::InvalidPattern)
    );
    assert_eq!(
        RequestMatcher::new(Method::Get, "/x/{}", endpoint).err(),
        Some(RouteError::InvalidPattern)
    );
    assert!(RequestMatcher::new(Method::Get, "/x/{id}", endpoint).is_ok());
}

#[test]
fn matcher_captures_the_placeholders() {
    let matcher = RequestMatcher::new(
        Method::Get,
        "/session/{sessionId}/element/{elementId}/text",
        Endpoint::<VoidExtensionEndpoint>::GetElementText,
    )
    .unwrap();
    assert!(matches!(matcher.endpoint(), Endpoint::GetElementText));
    let (same_method, captures) = matcher.get_match(Method::Get, "/session/abc/element/e-7/text");
    assert!(same_method);
    let captures = captures.unwrap();
    assert_eq!(
        captures.groups,
        vec![
            Group { name: None, text: Some("/session/abc/element/e-7/text".to_string()) },
            Group { name: Some("sessionId".to_string()), text: Some("abc".to_string()) },
            Group { name: Some("elementId".to_string()), text: Some("e-7".to_string()) },
        ]
    );
    assert_eq!(captures.name("sessionId"), Some("abc"));
    assert_eq!(captures.name("elementId"), Some("e-7"));
    assert_eq!(captures.name("name"), None);
    let (same_method, captures) = matcher.get_match(Method::Post, "/session/abc/element/e-7/text");
    assert!(!same_method);
    assert!(captures.is_some());
    assert_eq!(matcher.get_match(Method::Get, "/session/abc/element/e-7/text/more").1, None);
    assert_eq!(matcher.get_match(Method::Get, "/session//element/e/text").1, None);
    assert_eq!(matcher.get_match(Method::Get, "/session/a/b/element/e/text").1, None);
}

#[test]
fn captures_lookup() {
    let captures = Captures::new().with("a", "1").with("b", "2").with("a", "3");
    assert_eq!(captures.name("a"), Some("1"));
    assert_eq!(captures.name("b"), Some("2"));
    assert_eq!(captures.name("c"), None);
    let silent = Captures {
        groups: vec![
            Group { name: Some("a".to_string()), text: None },
            Group { name: Some("a".to_string()), text: Some("late".to_string()) },
        ],
    };
    assert_eq!(silent.name("a"), None);
    assert_eq!(Captures::new().groups, vec![]);
}

#[test]
fn standard_table_has_every_route() {
    let table = standard_endpoints::<VoidExtensionEndpoint>();
    assert_eq!(table.len(), 65);
    assert!(matches!(table[0], (Method::Post, "/session", Endpoint::NewSession)));
    assert!(matches!(
        table[1],
        (Method::Delete, "/session/{sessionId}", Endpoint::DeleteSession)
    ));
    assert!(matches!(
        table[55],
        (Method::Get, "/session/{sessionId}/alert_text", Endpoint::GetAlertText)
    ));
    assert!(matches!(
        table[63],
        (Method::Post, "/session/{sessionId}/execute", Endpoint::ExecuteScript)
    ));
    assert!(matches!(table[64], (Method::Get, "/status", Endpoint::Status)));
    assert_eq!(api().len(), 65);
}

#[test]
fn every_route_decodes_to_its_command() {
    let api = api();
    for (method, path, endpoint) in standard_endpoints::<VoidExtensionEndpoint>().iter() {
        let message = api.decode_request(*method, &instance(path), body_for(endpoint)).unwrap();
        assert!(same_variant(endpoint, &message.command), "{} {:?}", path, message.command);
        if path.contains("{sessionId}") {
            assert_eq!(message.session_id, Some("s1".to_string()));
        } else {
            assert_eq!(message.session_id, None);
        }
    }
}

#[test]
fn legacy_paths_lead_to_the_modern_commands() {
    let api = api();
    let pairs = [
        (Method::Get, "/session/s/alert_text", "/session/s/alert/text"),
        (Method::Post, "/session/s/alert_text", "/session/s/alert/text"),
        (Method::Post, "/session/s/accept_alert", "/session/s/alert/accept"),
        (Method::Post, "/session/s/dismiss_alert", "/session/s/alert/dismiss"),
        (Method::Get, "/session/s/window_handle", "/session/s/window"),
        (Method::Get, "/session/s/window_handles", "/session/s/window/handles"),
        (Method::Delete, "/session/s/window_handle", "/session/s/window"),
        (Method::Post, "/session/s/execute_async", "/session/s/execute/async"),
        (Method::Post, "/session/s/execute", "/session/s/execute/sync"),
    ];
    for (method, legacy, modern) in pairs.iter() {
        let body = if *method == Method::Post && legacy.contains("execute") {
            r#"{"script":"s","args":null}"#
        } else if *method == Method::Post && legacy.contains("alert_text") {
            r#"{"value":["a"]}"#
        } else {
            ""
        };
        let old = api.decode_request(*method, legacy, body).unwrap();
        let new = api.decode_request(*method, modern, body).unwrap();
        assert_eq!(old, new);
    }
}

#[test]
fn wrong_method_and_unknown_path() {
    let api = api();
    let wrong_method = api.decode_request(Method::Put, "/session/s1/url", "").unwrap_err();
    assert_eq!(wrong_method.status, ErrorStatus::UnknownMethod);
    assert_eq!(wrong_method.message, "PUT /session/s1/url did not match a known command");
    assert_eq!(wrong_method.stacktrace, None);
    assert_eq!(
        api.decode_request(Method::Delete, "/status", "").unwrap_err().status,
        ErrorStatus::UnknownMethod
    );
    assert_eq!(
        api.decode_request(Method::Get, "/session", "").unwrap_err().status,
        ErrorStatus::UnknownMethod
    );
    let unknown_path = api.decode_request(Method::Get, "/nowhere", "").unwrap_err();
    assert_eq!(unknown_path.status, ErrorStatus::UnknownPath);
    assert_eq!(unknown_path.message, "GET /nowhere did not match a known command");
    assert_eq!(
        api.decode_request(Method::Get, "/session/s1/url/", "").unwrap_err().status,
        ErrorStatus::UnknownPath
    );
    assert_eq!(
        api.decode_request(Method::Get, "/session//url", "").unwrap_err().status,
        ErrorStatus::UnknownPath
    );
    assert_eq!(
        api.decode_request(Method::Other, "/status", "").unwrap_err().status,
        ErrorStatus::UnknownMethod
    );
}

#[test]
fn literal_routes_win_over_placeholders() {
    let api = api();
    assert_eq!(
        api.decode_request(Method::Get, "/session/s1/element/active", "").unwrap().command,
        Cmd::GetActiveElement
    );
    assert_eq!(
        api.decode_request(Method::Get, "/session/s1/element/active/text", "").unwrap().command,
        Cmd::GetElementText(element("active"))
    );
}

#[test]
fn find_element_request() {
    let message = api()
        .decode_request(
            Method::Post,
            "/session/s1/element",
            r##"{"using":"css selector","value":"#x"}"##,
        )
        .unwrap();
    assert_eq!(
        message,
        Message::new(
            Some("s1".to_string()),
            Cmd::FindElement(LocatorParameters {
                using: LocatorStrategy::CSSSelector,
                value: "#x".to_string(),
            })
        )
    );
}

#[test]
fn switch_to_frame_requests() {
    let api = api();
    let frame = |body: &str| api.decode_request(Method::Post, "/session/s1/frame", body).unwrap().command;
    assert_eq!(frame(r#"{"id": null}"#), Cmd::SwitchToFrame(SwitchToFrameParameters { id: FrameId::Null }));
    assert_eq!(frame(r#"{"id": 3}"#), Cmd::SwitchToFrame(SwitchToFrameParameters { id: FrameId::Short(3) }));
    assert_eq!(
        frame(r#"{"id": {"element-6066-11e4-a52e-4f735466cecf":"e1"}}"#),
        Cmd::SwitchToFrame(SwitchToFrameParameters { id: FrameId::Element(element("e1")) })
    );
}

#[test]
fn requests_with_path_parameters() {
    let api = api();
    assert_eq!(
        api.decode_request(Method::Get, "/session/s/element/e/attribute/href", "").unwrap().command,
        Cmd::GetElementAttribute(element("e"), "href".to_string())
    );
    assert_eq!(
        api.decode_request(Method::Get, "/session/s/element/e/property/value", "").unwrap().command,
        Cmd::GetElementProperty(element("e"), "value".to_string())
    );
    assert_eq!(
        api.decode_request(Method::Get, "/session/s/element/e/css/color", "").unwrap().command,
        Cmd::GetCSSValue(element("e"), "color".to_string())
    );
    assert_eq!(
        api.decode_request(Method::Get, "/session/s/cookie/sid", "").unwrap().command,
        Cmd::GetCookie("sid".to_string())
    );
    assert_eq!(
        api.decode_request(Method::Delete, "/session/s/cookie/sid", "").unwrap().command,
        Cmd::DeleteCookie("sid".to_string())
    );
    assert_eq!(
        api.decode_request(Method::Post, "/session/s/element/e/value", r#"{"value":["k"]}"#)
            .unwrap()
            .command,
        Cmd::ElementSendKeys(element("e"), SendKeysParameters { value: vec!['k'] })
    );
    assert_eq!(
        api.decode_request(
            Method::Post,
            "/session/s/element/e/elements",
            r#"{"using":"link text","value":"more"}"#
        )
        .unwrap()
        .command,
        Cmd::FindElementElements(
            element("e"),
            LocatorParameters { using: LocatorStrategy::LinkText, value: "more".to_string() }
        )
    );
}

#[test]
fn bodies_are_read_only_where_needed() {
    let api = api();
    assert_eq!(
        api.decode_request(Method::Get, "/session/s/url", "this is not json").unwrap().command,
        Cmd::GetCurrentUrl
    );
    assert_eq!(
        api.decode_request(Method::Post, "/session/s/back", "").unwrap().command,
        Cmd::GoBack
    );
    assert_eq!(
        api.decode_request(Method::Post, "/session/s/url", "this is not json").unwrap_err().status,
        ErrorStatus::InvalidArgument
    );
    assert_eq!(
        api.decode_request(Method::Post, "/session/s/url", "").unwrap_err().status,
        ErrorStatus::InvalidArgument
    );
    assert_eq!(
        api.decode_request(Method::Post, "/session/s/url", r#"{"uri":"u"}"#).unwrap_err().status,
        ErrorStatus::InvalidArgument
    );
    assert_eq!(
        api.decode_request(Method::Post, "/session/s/window/size", r#"{"width":3,"height":4}"#)
            .unwrap()
            .command,
        Cmd::SetWindowSize(WindowSizeParameters { width: 3, height: 4 })
    );
}

#[test]
fn from_http_reports_missing_captures() {
    let none = Captures::new();
    let error = Message::<VoidExtensionEndpoint>::from_http(Endpoint::IsDisplayed, &none, "")
        .unwrap_err();
    assert_eq!(error.status, ErrorStatus::InvalidArgument);
    assert_eq!(error.message, "Missing elementId parameter");
    let only_element = Captures::new().with("elementId", "e");
    let error =
        Message::<VoidExtensionEndpoint>::from_http(Endpoint::GetElementAttribute, &only_element, "")
            .unwrap_err();
    assert_eq!(error.message, "Missing name parameter");
    let error =
        Message::<VoidExtensionEndpoint>::from_http(Endpoint::GetCSSValue, &only_element, "")
            .unwrap_err();
    assert_eq!(error.message, "Missing propertyName parameter");
    let error = Message::<VoidExtensionEndpoint>::from_http(Endpoint::GetCookie, &none, "")
        .unwrap_err();
    assert_eq!(error.message, "Missing name parameter");
    let message =
        Message::<VoidExtensionEndpoint>::from_http(Endpoint::IsDisplayed, &only_element, "")
            .unwrap();
    assert_eq!(message.session_id, None);
    assert_eq!(message.command, Cmd::IsDisplayed(element("e")));
    assert_eq!(Message::<VoidExtensionEndpoint>::get_session_id(&only_element), None);
    assert_eq!(
        Message::<VoidExtensionEndpoint>::get_session_id(&Captures::new().with("sessionId", "s")),
        Some("s".to_string())
    );
}

#[test]
fn from_json_takes_a_parsed_body() {
    let captures = Captures::new().with("sessionId", "s");
    let body = Json::parse(r#"{"url":"http://example.org"}"#).unwrap();
    assert_eq!(
        Message::<VoidExtensionEndpoint>::from_json(Endpoint::Get, &captures, &body).unwrap(),
        Message::new(
            Some("s".to_string()),
            Cmd::Get(GetParameters { url: "http://example.org".to_string() })
        )
    );
    assert_eq!(
        Message::<VoidExtensionEndpoint>::from_json(Endpoint::Get, &captures, &Json::Null)
            .unwrap_err()
            .status,
        ErrorStatus::InvalidArgument
    );
    assert_eq!(
        Message::<VoidExtensionEndpoint>::from_json(Endpoint::GetTitle, &captures, &Json::Null)
            .unwrap()
            .command,
        Cmd::GetTitle
    );
}

#[test]
fn endpoints_with_bodies() {
    let with_body = standard_endpoints::<VoidExtensionEndpoint>()
        .iter()
        .filter(|(_, _, endpoint)| endpoint.reads_body())
        .count();
    assert_eq!(with_body, 20);
    assert!(Endpoint::<VoidExtensionEndpoint>::NewSession.reads_body());
    assert!(!Endpoint::<VoidExtensionEndpoint>::Status.reads_body());
    assert!(!Endpoint::Extension(VoidExtensionEndpoint).reads_body());
}

#[test]
fn void_extension_does_nothing() {
    assert_eq!(VoidExtensionCommand.parameters_json(), None);
    let error = VoidExtensionEndpoint.command(&Captures::new(), &Json::Null).unwrap_err();
    assert_eq!(error.status, ErrorStatus::UnsupportedOperation);
    let cloned = Endpoint::Extension(VoidExtensionEndpoint).clone();
    assert!(matches!(cloned, Endpoint::Extension(VoidExtensionEndpoint)));
    assert!(matches!(Endpoint::<VoidExtensionEndpoint>::GoBack.clone(), Endpoint::GoBack));
}

#[derive(Clone, Debug, PartialEq)]
struct Echo(String, Json);

impl ExtensionCommand for Echo {
    fn parameters_json(&self) -> Option<Json> {
        Some(self.1.clone())
    }
}

#[derive(Clone, Debug, PartialEq)]
struct EchoEndpoint;

impl ExtensionEndpoint for EchoEndpoint {
    type Command = Echo;

    fn command(&self, captures: &Captures, body: &Json) -> WebDriverResult<Command<Echo>> {
        Ok(Command::Extension(Echo(
            captures.name("word").unwrap_or("").to_string(),
            body.clone(),
        )))
    }
}

#[test]
fn extension_routes_come_after_the_standard_ones() {
    let api: HttpApi<EchoEndpoint> = HttpApi::new(&[
        (Method::Post, "/session/{sessionId}/echo/{word}", EchoEndpoint),
        (Method::Get, "/status", EchoEndpoint),
    ])
    .unwrap();
    assert_eq!(api.len(), 67);
    let message = api.decode_request(Method::Post, "/session/s/echo/hi", r#"{"a":1}"#).unwrap();
    assert_eq!(message.session_id, Some("s".to_string()));
    assert_eq!(
        message.command,
        Command::Extension(Echo("hi".to_string(), Json::parse(r#"{"a":1}"#).unwrap()))
    );
    let empty = api.decode_request(Method::Post, "/session/s/echo/hi", "").unwrap();
    assert_eq!(empty.command, Command::Extension(Echo("hi".to_string(), Json::Null)));
    assert_eq!(
        api.decode_request(Method::Post, "/session/s/echo/hi", "{").unwrap_err().status,
        ErrorStatus::InvalidArgument
    );
    assert_eq!(api.decode_request(Method::Get, "/status", "").unwrap().command, Command::Status);
}

#[test]
fn extension_routes_with_bad_templates_are_refused() {
    assert_eq!(
        HttpApi::new(&[(Method::Get, "/x/{y", EchoEndpoint)]).err(),
        Some(RouteError::InvalidTemplate)
    );
    assert_eq!(
        HttpApi::new(&[(Method::Get, "/x/[", EchoEndpoint)]).err(),
        Some(RouteError::InvalidPattern)
    );
    let mut api: HttpApi<EchoEndpoint> = HttpApi::new(&[]).unwrap();
    assert_eq!(
        api.add(Method::Get, "/x/{y", Endpoint::Extension(EchoEndpoint)),
        Err(RouteError::InvalidTemplate)
    );
    assert_eq!(api.len(), 65);
    assert_eq!(api.add(Method::Get, "/x/{y}", Endpoint::Extension(EchoEndpoint)), Ok(()));
    assert_eq!(api.len(), 66);
}

#[test]
fn method_names() {
    assert_eq!(Method::Get.as_str(), "GET");
    assert_eq!(Method::Post.as_str(), "POST");
    assert_eq!(Method::Delete.as_str(), "DELETE");
    assert_eq!(Method::Put.as_str(), "PUT");
    assert_eq!(Method::Options.as_str(), "OPTIONS");
    assert_eq!(Method::Head.as_str(), "HEAD");
    assert_eq!(Method::Trace.as_str(), "TRACE");
    assert_eq!(Method::Connect.as_str(), "CONNECT");
    assert_eq!(Method::Patch.as_str(), "PATCH");
    assert_eq!(Method::Other.as_str(), "OTHER");
}
