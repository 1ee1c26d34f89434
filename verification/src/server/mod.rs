//! The server side: routing of requests, the session's state, and the
//! dispatch of commands to the handler.

pub mod httpapi;
pub mod message;

use crate::error::{ErrorStatus, WebDriverError, WebDriverErrorView, WebDriverResult};
use crate::json::json_text;
use crate::protocol::endpoints::{ExtensionEndpoint, VoidExtensionEndpoint};
use crate::protocol::response::{Response, ResponseValue, ResponseValueView, ResponseView};
use crate::server::message::{Message, MessageView};
use crate::text::owned;
use std::marker::PhantomData;
use vstd::prelude::*;
use vstd::string::StringExecFns;

verus! {

/// The one session that a dispatcher may hold.
#[derive(Clone, Debug, PartialEq)]
pub struct Session {
    id: String,
}

impl View for Session {
    type V = Seq<char>;

    closed spec fn view(&self) -> Seq<char> {
        self.id@
    }
}

impl Session {
    /// The session with the given id.
    pub fn new(id: String) -> (s: Session)
        ensures
            s@ == id@,
    {
        Session { id: id }
    }

    /// The session's id.
    pub fn id(&self) -> (r: &str)
        ensures
            r@ == self@,
    {
        self.id.as_str()
    }
}

/// The id of the session, if there is one.
pub open spec fn session_id(session: Option<Session>) -> Option<Seq<char>> {
    match session {
        Some(s) => Some(s@),
        None => None,
    }
}

/// The backend that drives the browser.
pub trait Handler<U: ExtensionEndpoint = VoidExtensionEndpoint>: Send {
    /// Performs a command that the dispatcher let through.
    fn handle_command(&mut self, session: &Option<Session>, msg: Message<U>) -> WebDriverResult<
        Response,
    >;

    /// Is told that the session has come to its end.
    fn delete_session(&mut self, session: &Option<Session>);
}

/// The error with which the dispatcher turns a message away, if it does.
/// Without a session only a new session and the status are let through.
/// With a session, a new session is turned away, the status is let
/// through, and every other command has to name the session.
pub open spec fn rejection<U: ExtensionEndpoint>(
    session: Option<Seq<char>>,
    msg: MessageView<U>,
) -> Option<WebDriverErrorView> {
    match session {
        None => if msg.command is NewSession || msg.command is Status {
            None
        } else {
            Some(
                WebDriverErrorView {
                    status: ErrorStatus::InvalidSessionId,
                    message: "Tried to run a command before creating a session"@,
                    stacktrace: None,
                },
            )
        },
        Some(id) => if msg.command is NewSession {
            Some(
                WebDriverErrorView {
                    status: ErrorStatus::SessionNotCreated,
                    message: "Session is already started"@,
                    stacktrace: None,
                },
            )
        } else if msg.command is Status {
            None
        } else {
            match msg.session_id {
                Some(named) => if named == id {
                    None
                } else {
                    Some(
                        WebDriverErrorView {
                            status: ErrorStatus::InvalidSessionId,
                            message: "Got unexpected session id "@ + named + " expected "@ + id,
                            stacktrace: None,
                        },
                    )
                },
                None => Some(
                    WebDriverErrorView {
                        status: ErrorStatus::UnknownError,
                        message: "Got a command with no session?!"@,
                        stacktrace: None,
                    },
                ),
            }
        },
    }
}

/// What the handler answered, as models.
pub open spec fn outcome(r: WebDriverResult<Response>) -> Result<ResponseView, WebDriverErrorView> {
    match r {
        Ok(response) => Ok(response@),
        Err(e) => Err(e@),
    }
}

/// Whether the session ends with a handled command: it does where the
/// command was to delete the session, whatever the answer; where the answer
/// says that the session was deleted; and where the answer is an error
/// whose kind is terminal.
pub open spec fn ends_session(
    deleting: bool,
    answer: Result<ResponseView, WebDriverErrorView>,
) -> bool {
    deleting || match answer {
        Ok(response) => response.value is DeleteSession,
        Err(e) => e.status.terminal(),
    }
}

/// The session after a handled command: none where the session ends, the
/// new one where the answer is a new session, else the one before.
pub open spec fn session_after(
    session: Option<Seq<char>>,
    deleting: bool,
    answer: Result<ResponseView, WebDriverErrorView>,
) -> Option<Seq<char>> {
    if ends_session(deleting, answer) {
        None
    } else {
        match answer {
            Ok(ResponseView { value: ResponseValueView::NewSession(made) }) => Some(made.sessionId),
            _ => session,
        }
    }
}

/// The one worker that owns the session and the handler.
pub struct Dispatcher<T: Handler<U>, U: ExtensionEndpoint> {
    handler: T,
    session: Option<Session>,
    extension_type: PhantomData<U>,
}

impl<T: Handler<U>, U: ExtensionEndpoint> Dispatcher<T, U> {
    /// The id of the current session, if there is one.
    pub closed spec fn current(&self) -> Option<Seq<char>> {
        session_id(self.session)
    }

    /// The handler.
    pub closed spec fn backend(&self) -> T {
        self.handler
    }

    /// A dispatcher without a session.
    pub fn new(handler: T) -> (d: Dispatcher<T, U>)
        ensures
            d.current() is None,
            d.backend() == handler,
    {
        Dispatcher { handler: handler, session: None, extension_type: PhantomData }
    }

    /// The current session.
    pub fn session(&self) -> (s: &Option<Session>)
        ensures
            session_id(*s) == self.current(),
    {
        &self.session
    }

    /// Tells the handler that the session has come to its end, and forgets
    /// the session.
    pub fn delete_session(&mut self)
        ensures
            final(self).current() is None,
    {
        self.handler.delete_session(&self.session);
        self.session = None;
    }

    /// Whether a message is let through to the handler.
    pub fn check_session(&self, msg: &Message<U>) -> (r: WebDriverResult<()>)
        ensures
            match r {
                Ok(_) => rejection(self.current(), msg@) is None,
                Err(e) => rejection(self.current(), msg@) == Some(e@),
            },
    {
        match &self.session {
            Some(existing_session) => {
                if msg.command.is_new_session() {
                    Err(WebDriverError::new(ErrorStatus::SessionNotCreated, "Session is already started"))
                } else if msg.command.is_status() {
                    Ok(())
                } else {
                    match &msg.session_id {
                        Some(msg_session_id) => {
                            if crate::text::str_eq(existing_session.id(), msg_session_id.as_str()) {
                                Ok(())
                            } else {
                                let mut message = owned("Got unexpected session id ");
                                message.append(msg_session_id.as_str());
                                message.append(" expected ");
                                message.append(existing_session.id());
                                Err(
                                    WebDriverError {
                                        status: ErrorStatus::InvalidSessionId,
                                        message: message,
                                        stacktrace: None,
                                    },
                                )
                            }
                        },
                        None => Err(
                            WebDriverError::new(
                                ErrorStatus::UnknownError,
                                "Got a command with no session?!",
                            ),
                        ),
                    }
                }
            },
            None => {
                if msg.command.is_new_session() || msg.command.is_status() {
                    Ok(())
                } else {
                    Err(
                        WebDriverError::new(
                            ErrorStatus::InvalidSessionId,
                            "Tried to run a command before creating a session",
                        ),
                    )
                }
            },
        }
    }

    /// Takes the handler's answer to a command into the session's state.
    /// `deleting` says whether the command was to delete the session.
    pub fn settle(&mut self, deleting: bool, answer: &WebDriverResult<Response>)
        ensures
            final(self).current() == session_after(old(self).current(), deleting, outcome(*answer)),
    {
        let ends = deleting || match answer {
            Ok(response) => match &response.value {
                ResponseValue::DeleteSession => true,
                _ => false,
            },
            Err(e) => e.delete_session(),
        };
        if ends {
            self.delete_session();
        } else {
            match answer {
                Ok(response) => match &response.value {
                    ResponseValue::NewSession(new_session) => {
                        self.session = Some(Session::new(new_session.sessionId.clone()));
                    },
                    _ => {},
                },
                Err(_) => {},
            }
        }
    }

    /// Handles one message. A message that `rejection` turns away is
    /// answered with that error; the handler is not called and the session
    /// stays as it is. Every other message goes to the handler, and the
    /// handler's answer is returned and taken into the session's state.
    pub fn dispatch(&mut self, msg: Message<U>) -> (r: WebDriverResult<Response>)
        ensures
            match rejection(old(self).current(), msg@) {
                Some(error) => {
                    &&& r matches Err(e)
                    &&& e@ == error
                    &&& final(self).current() == old(self).current()
                    &&& final(self).backend() == old(self).backend()
                },
                None => final(self).current() == session_after(
                    old(self).current(),
                    msg@.command is DeleteSession,
                    outcome(r),
                ),
            },
    {
        match self.check_session(&msg) {
            Ok(_) => {
                let deleting = msg.command.is_delete_session();
                let resp = self.handler.handle_command(&self.session, msg);
                self.settle(deleting, &resp);
                resp
            },
            Err(e) => Err(e),
        }
    }
}

/// Without a session every command but a new session and the status is
/// turned away as naming an invalid session.
pub proof fn lemma_no_session<U: ExtensionEndpoint>(msg: MessageView<U>)
    requires
        !(msg.command is NewSession),
        !(msg.command is Status),
    ensures
        rejection(None, msg) matches Some(e) && e.status == ErrorStatus::InvalidSessionId,
{
}

/// With a session a request for a new one is turned away: the session is
/// not created.
pub proof fn lemma_second_session<U: ExtensionEndpoint>(id: Seq<char>, msg: MessageView<U>)
    requires
        msg.command is NewSession,
    ensures
        rejection(Some(id), msg) matches Some(e) && e.status == ErrorStatus::SessionNotCreated,
{
}

/// After the answer of a new session, a command that is not itself a new
/// session is let through where it names the session that was made; a
/// command other than the status that names another session is turned away
/// as naming an invalid session.
pub proof fn lemma_session_identity<U: ExtensionEndpoint>(
    before: Option<Seq<char>>,
    made: ResponseView,
    msg: MessageView<U>,
)
    requires
        made.value is NewSession,
        !(msg.command is NewSession),
        msg.session_id is Some,
    ensures
        ({
            let id = made.value->NewSession_0.sessionId;
            let now = session_after(before, false, Ok(made));
            &&& now == Some(id)
            &&& msg.session_id == Some(id) ==> rejection(now, msg) is None
            &&& msg.session_id != Some(id) && !(msg.command is Status) ==> (rejection(now, msg) matches Some(
                e,
            ) && e.status == ErrorStatus::InvalidSessionId)
        }),
{
}

/// After an error of a terminal kind there is no session, so that the next
/// command, unless it is a new session or the status, is turned away as
/// naming an invalid session.
pub proof fn lemma_terminal_error<U: ExtensionEndpoint>(
    before: Option<Seq<char>>,
    deleting: bool,
    error: WebDriverErrorView,
    next: MessageView<U>,
)
    requires
        error.status.terminal(),
        !(next.command is NewSession),
        !(next.command is Status),
    ensures
        session_after(before, deleting, Err(error)) is None,
        rejection(session_after(before, deleting, Err(error)), next) matches Some(e) && e.status
            == ErrorStatus::InvalidSessionId,
{
}

/// The HTTP status and the body that answer a request: 200 and the
/// response's object, or the error's status and the error's object.
pub fn http_reply(result: &WebDriverResult<Response>) -> (r: (u16, String))
    ensures
        match *result {
            Ok(response) => r.0 == 200 && r.1@ == json_text(response@.encode()),
            Err(e) => r.0 == e.status.status_code() && r.1@ == json_text(e@.encode()),
        },
{
    match result {
        Ok(response) => (200, response.to_json().to_text()),
        Err(e) => (e.http_status(), e.to_json_string()),
    }
}

} // verus!
