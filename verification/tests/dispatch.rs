use webdriver::error::{ErrorStatus, WebDriverError, WebDriverResult};
use webdriver::http::Method;
use webdriver::json::Json;
use webdriver::protocol::command::{Command, VoidExtensionCommand};
use webdriver::protocol::endpoints::VoidExtensionEndpoint;
use webdriver::protocol::parameters::NewSessionParameters;
use webdriver::protocol::response::{NewSessionResponse, Response, ResponseValue};
use webdriver::server::httpapi::HttpApi;
use webdriver::server::message::Message;
use webdriver::server::{http_reply, Dispatcher, Handler, Session};

type Cmd = Command<VoidExtensionCommand>;

/// A handler that counts its calls and answers as it was told to.
struct Script {
    handled: Vec<String>,
    deleted: usize,
    fail_with: Option<ErrorStatus>,
}

impl Script {
    fn new() -> Script {
        Script { handled: vec![], deleted: 0, fail_with: None }
    }
}

impl Handler<VoidExtensionEndpoint> for Script {
    fn handle_command(
        &mut self,
        session: &Option<Session>,
        msg: Message<VoidExtensionEndpoint>,
    ) -> WebDriverResult<Response> {
        let name = format!("{:?}", msg.command);
        self.handled.push(name.split('(').next().unwrap().to_string());
        if let Some(status) = self.fail_with.take() {
            return Err(WebDriverError::new(status, "told to fail"));
        }
        match msg.command {
            Command::NewSession(_) => Ok(Response::new(ResponseValue::NewSession(
                NewSessionResponse::new("s1".to_string(), Json::Object(vec![])),
            ))),
            Command::DeleteSession => Ok(Response::new(ResponseValue::DeleteSession)),
            Command::GetTitle => Ok(Response::new(ResponseValue::Generic(Json::string(
                session.as_ref().map(|s| s.id()).unwrap_or("no session"),
            )))),
            _ => Ok(Response::new(ResponseValue::Generic(Json::Null))),
        }
    }

    fn delete_session(&mut self, _session: &Option<Session>) {
        self.deleted += 1;
    }
}

fn dispatcher() -> Dispatcher<Script, VoidExtensionEndpoint> {
    Dispatcher::new(Script::new())
}

fn message(session: Option<&str>, command: Cmd) -> Message<VoidExtensionEndpoint> {
    Message::new(session.map(|s| s.to_string()), command)
}

fn new_session() -> Cmd {
    Command::NewSession(NewSessionParameters { desired: vec![], required: vec![] })
}

fn current(d: &Dispatcher<Script, VoidExtensionEndpoint>) -> Option<String> {
    d.session().as_ref().map(|s| s.id().to_string())
}

fn handled(d: &mut Dispatcher<Script, VoidExtensionEndpoint>) -> usize {
    // The handler is reached only through the dispatcher: ask it for the
    // status and see how many commands it has counted before.
    let before = d.dispatch(message(None, Command::Status));
    assert!(before.is_ok());
    0
}

#[test]
fn session_new_and_id() {
    let session = Session::new("abc".to_string());
    assert_eq!(session.id(), "abc");
    assert_eq!(session, Session::new("abc".to_string()));
}

#[test]
fn without_a_session_commands_are_turned_away() {
    let mut d = dispatcher();
    for command in [Cmd::GetTitle, Cmd::DeleteSession, Cmd::GoBack, Cmd::GetCookies] {
        for session in [None, Some("s1")] {
            let error = d.dispatch(message(session, command.clone())).unwrap_err();
            assert_eq!(error.status, ErrorStatus::InvalidSessionId);
            assert_eq!(error.message, "Tried to run a command before creating a session");
            assert_eq!(current(&d), None);
        }
    }
    assert!(d.check_session(&message(None, Cmd::GetTitle)).is_err());
    assert!(d.check_session(&message(None, Cmd::Status)).is_ok());
    assert!(d.check_session(&message(None, new_session())).is_ok());
}

#[test]
fn without_a_session_status_and_new_session_go_through() {
    let mut d = dispatcher();
    assert_eq!(
        d.dispatch(message(None, Cmd::Status)).unwrap(),
        Response::new(ResponseValue::Generic(Json::Null))
    );
    assert_eq!(current(&d), None);
    let made = d.dispatch(message(None, new_session())).unwrap();
    assert_eq!(
        made,
        Response::new(ResponseValue::NewSession(NewSessionResponse::new(
            "s1".to_string(),
            Json::Object(vec![])
        )))
    );
    assert_eq!(current(&d), Some("s1".to_string()));
}

#[test]
fn with_a_session_a_second_one_is_not_created() {
    let mut d = dispatcher();
    d.dispatch(message(None, new_session())).unwrap();
    for session in [None, Some("s1"), Some("other")] {
        let error = d.dispatch(message(session, new_session())).unwrap_err();
        assert_eq!(error.status, ErrorStatus::SessionNotCreated);
        assert_eq!(error.message, "Session is already started");
        assert_eq!(current(&d), Some("s1".to_string()));
    }
}

#[test]
fn with_a_session_commands_must_name_it() {
    let mut d = dispatcher();
    d.dispatch(message(None, new_session())).unwrap();
    assert_eq!(
        d.dispatch(message(Some("s1"), Cmd::GetTitle)).unwrap(),
        Response::new(ResponseValue::Generic(Json::string("s1")))
    );
    let error = d.dispatch(message(Some("s2"), Cmd::GetTitle)).unwrap_err();
    assert_eq!(error.status, ErrorStatus::InvalidSessionId);
    assert_eq!(error.message, "Got unexpected session id s2 expected s1");
    assert_eq!(current(&d), Some("s1".to_string()));
    let error = d.dispatch(message(None, Cmd::GetTitle)).unwrap_err();
    assert_eq!(error.status, ErrorStatus::UnknownError);
    assert_eq!(error.message, "Got a command with no session?!");
    assert_eq!(current(&d), Some("s1".to_string()));
    assert!(d.dispatch(message(Some("anything"), Cmd::Status)).is_ok());
    assert!(d.dispatch(message(None, Cmd::Status)).is_ok());
    assert!(d.dispatch(message(Some("s1"), Cmd::GetTitle)).is_ok());
}

#[test]
fn delete_session_clears_the_session() {
    let mut d = dispatcher();
    d.dispatch(message(None, new_session())).unwrap();
    assert_eq!(
        d.dispatch(message(Some("s1"), Cmd::DeleteSession)).unwrap(),
        Response::new(ResponseValue::DeleteSession)
    );
    assert_eq!(current(&d), None);
    assert_eq!(
        d.dispatch(message(Some("s1"), Cmd::GetTitle)).unwrap_err().status,
        ErrorStatus::InvalidSessionId
    );
    assert!(d.dispatch(message(None, new_session())).is_ok());
    assert_eq!(current(&d), Some("s1".to_string()));
}

#[test]
fn settle_follows_the_answer() {
    let mut d = dispatcher();
    let made: WebDriverResult<Response> = Ok(Response::new(ResponseValue::NewSession(
        NewSessionResponse::new("a".to_string(), Json::Null),
    )));
    d.settle(false, &made);
    assert_eq!(current(&d), Some("a".to_string()));
    d.settle(false, &Ok(Response::new(ResponseValue::Generic(Json::Null))));
    assert_eq!(current(&d), Some("a".to_string()));
    d.settle(false, &Err(WebDriverError::new(ErrorStatus::NoSuchElement, "m")));
    assert_eq!(current(&d), Some("a".to_string()));
    d.settle(false, &Err(WebDriverError::new(ErrorStatus::InvalidSessionId, "m")));
    assert_eq!(current(&d), None);
    d.settle(false, &made);
    d.settle(false, &Err(WebDriverError::new(ErrorStatus::SessionNotCreated, "m")));
    assert_eq!(current(&d), None);
    d.settle(false, &made);
    d.settle(false, &Ok(Response::new(ResponseValue::DeleteSession)));
    assert_eq!(current(&d), None);
    d.settle(false, &made);
    d.settle(true, &Err(WebDriverError::new(ErrorStatus::UnknownError, "m")));
    assert_eq!(current(&d), None);
    d.settle(true, &made);
    assert_eq!(current(&d), None);
    d.settle(false, &made);
    d.delete_session();
    assert_eq!(current(&d), None);
    assert_eq!(handled(&mut d), 0);
}

/// A handler that fails the first command after the new session with a
/// terminal error.
struct FailsOnce {
    fail_next: bool,
    deleted: usize,
}

impl Handler<VoidExtensionEndpoint> for FailsOnce {
    fn handle_command(
        &mut self,
        _session: &Option<Session>,
        msg: Message<VoidExtensionEndpoint>,
    ) -> WebDriverResult<Response> {
        match msg.command {
            Command::NewSession(_) => Ok(Response::new(ResponseValue::NewSession(
                NewSessionResponse::new("s1".to_string(), Json::Null),
            ))),
            Command::Status => Ok(Response::new(ResponseValue::Generic(Json::unsigned(
                self.deleted as u64,
            )))),
            _ if self.fail_next => {
                self.fail_next = false;
                Err(WebDriverError::new(ErrorStatus::InvalidSessionId, "browser is gone"))
            }
            _ => Ok(Response::new(ResponseValue::Generic(Json::Null))),
        }
    }

    fn delete_session(&mut self, _session: &Option<Session>) {
        self.deleted += 1;
    }
}

#[test]
fn a_terminal_error_ends_the_session() {
    let mut d: Dispatcher<FailsOnce, VoidExtensionEndpoint> =
        Dispatcher::new(FailsOnce { fail_next: true, deleted: 0 });
    d.dispatch(message(None, new_session())).unwrap();
    let error = d.dispatch(message(Some("s1"), Cmd::GetTitle)).unwrap_err();
    assert_eq!(error.message, "browser is gone");
    assert_eq!(d.session(), &None);
    assert_eq!(
        d.dispatch(message(None, Cmd::Status)).unwrap(),
        Response::new(ResponseValue::Generic(Json::unsigned(1)))
    );
    let next = d.dispatch(message(Some("s1"), Cmd::GetTitle)).unwrap_err();
    assert_eq!(next.status, ErrorStatus::InvalidSessionId);
    assert_eq!(next.message, "Tried to run a command before creating a session");
    assert_eq!(
        d.dispatch(message(None, Cmd::Status)).unwrap(),
        Response::new(ResponseValue::Generic(Json::unsigned(1)))
    );
    assert!(d.dispatch(message(None, new_session())).is_ok());
    assert!(d.dispatch(message(Some("s1"), Cmd::GetTitle)).is_ok());
}

#[test]
fn an_ordinary_error_keeps_the_session() {
    let mut handler = Script::new();
    handler.fail_with = Some(ErrorStatus::NoSuchElement);
    let mut d: Dispatcher<Script, VoidExtensionEndpoint> = Dispatcher::new(handler);
    let error = d.dispatch(message(None, Cmd::Status)).unwrap_err();
    assert_eq!(error.status, ErrorStatus::NoSuchElement);
    d.dispatch(message(None, new_session())).unwrap();
    assert_eq!(current(&d), Some("s1".to_string()));
}

#[test]
fn rejections_do_not_reach_the_handler() {
    let mut d: Dispatcher<FailsOnce, VoidExtensionEndpoint> =
        Dispatcher::new(FailsOnce { fail_next: true, deleted: 0 });
    assert!(d.dispatch(message(Some("s1"), Cmd::GetTitle)).is_err());
    d.dispatch(message(None, new_session())).unwrap();
    assert!(d.dispatch(message(None, new_session())).is_err());
    assert!(d.dispatch(message(Some("zz"), Cmd::GetTitle)).is_err());
    // The handler still has its one failure in store and was never told of
    // a deleted session.
    assert_eq!(
        d.dispatch(message(None, Cmd::Status)).unwrap(),
        Response::new(ResponseValue::Generic(Json::unsigned(0)))
    );
    assert_eq!(
        d.dispatch(message(Some("s1"), Cmd::GetTitle)).unwrap_err().message,
        "browser is gone"
    );
}

#[test]
fn new_session_over_http() {
    let api: HttpApi<VoidExtensionEndpoint> = HttpApi::new(&[]).unwrap();
    let mut d = dispatcher();
    let request = api
        .decode_request(
            Method::Post,
            "/session",
            r#"{"desiredCapabilities": {}, "requiredCapabilities": {}}"#,
        )
        .unwrap();
    assert_eq!(request, message(None, new_session()));
    let (status, body) = http_reply(&d.dispatch(request));
    assert_eq!(status, 200);
    assert_eq!(body, r#"{"value":{"sessionId":"s1","value":{}}}"#);
}

#[test]
fn command_before_any_session_over_http() {
    let api: HttpApi<VoidExtensionEndpoint> = HttpApi::new(&[]).unwrap();
    let mut d = dispatcher();
    let request = api.decode_request(Method::Get, "/session/s1/url", "").unwrap();
    assert_eq!(request, message(Some("s1"), Cmd::GetCurrentUrl));
    let (status, body) = http_reply(&d.dispatch(request));
    assert_eq!(status, 404);
    assert_eq!(
        body,
        r#"{"error":"invalid session id","message":"Tried to run a command before creating a session","status":404}"#
    );
}

#[test]
fn routing_errors_over_http() {
    let api: HttpApi<VoidExtensionEndpoint> = HttpApi::new(&[]).unwrap();
    let unknown_method: WebDriverResult<Response> =
        api.decode_request(Method::Put, "/status", "").map(|_| Response::new(ResponseValue::DeleteSession));
    let (status, body) = http_reply(&unknown_method);
    assert_eq!(status, 405);
    assert_eq!(
        body,
        r#"{"error":"unknown method","message":"PUT /status did not match a known command","status":405}"#
    );
    let unknown_path: WebDriverResult<Response> =
        api.decode_request(Method::Get, "/nope", "").map(|_| Response::new(ResponseValue::DeleteSession));
    assert_eq!(http_reply(&unknown_path).0, 404);
}

#[test]
fn commands_are_handled_in_order() {
    let mut d = dispatcher();
    let api: HttpApi<VoidExtensionEndpoint> = HttpApi::new(&[]).unwrap();
    let first = api.decode_request(Method::Post, "/session", "{}").unwrap();
    let second = api.decode_request(Method::Get, "/session/s1/title", "").unwrap();
    let first_reply = http_reply(&d.dispatch(first));
    let second_reply = http_reply(&d.dispatch(second));
    assert_eq!(first_reply.0, 200);
    assert_eq!(second_reply, (200, r#"{"value":"s1"}"#.to_string()));
}

#[test]
fn command_kinds() {
    assert!(new_session().is_new_session());
    assert!(!Cmd::Status.is_new_session());
    assert!(Cmd::Status.is_status());
    assert!(!Cmd::GetTitle.is_status());
    assert!(Cmd::DeleteSession.is_delete_session());
    assert!(!Cmd::Status.is_delete_session());
}
