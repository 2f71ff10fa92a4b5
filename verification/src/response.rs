//! What a skill answers to the assistant.

use crate::json::JsonValue;
use crate::request::{IncomingMessage, Session};
use vstd::prelude::*;
use vstd::std_specs::convert::IntoSpec;

verus! {

/// The version of the protocol that a message is written in.
pub open spec fn protocol_version() -> Seq<char> {
    "1.0"@
}

/// What the skill says, and whether the session ends with it.
#[derive(Debug)]
pub struct Response {
    pub text: String,
    pub end_session: bool,
}

impl Response {
    /// The response that says `text`.
    pub fn with_text<T: Into<String>>(self, text: T) -> (r: Response)
        ensures
            call_ensures(T::into, (text,), r.text),
            T::obeys_into_spec() ==> r.text == text.into_spec(),
            r.end_session == self.end_session,
    {
        let mut resp = self;
        resp.text = text.into();
        resp
    }

    /// The response that ends the session.
    pub fn with_session_end(self) -> (r: Response)
        ensures
            r.text == self.text,
            r.end_session,
    {
        let mut resp = self;
        resp.end_session = true;
        resp
    }
}

impl Default for Response {
    /// The response that says nothing and keeps the session open.
    fn default() -> (r: Response)
        ensures
            r.text@ == Seq::<char>::empty(),
            !r.end_session,
    {
        Response { text: String::new(), end_session: false }
    }
}

/// A message from a skill to the assistant: the response, the session it
/// belongs to, and what the skill wants stored for the session and the user.
#[derive(Debug)]
pub struct Message<SessionState = JsonValue, UserState = JsonValue> {
    pub response: Response,
    pub session: Option<Session>,
    pub session_state: Option<SessionState>,
    pub user_state_update: Option<UserState>,
    version: &'static str,
}

/// The mathematical value of a [`Message`].
pub ghost struct MessageView<SessionState, UserState> {
    pub response: Response,
    pub session: Option<Session>,
    pub session_state: Option<SessionState>,
    pub user_state_update: Option<UserState>,
    pub version: Seq<char>,
}

impl<SessionState, UserState> View for Message<SessionState, UserState> {
    type V = MessageView<SessionState, UserState>;

    closed spec fn view(&self) -> MessageView<SessionState, UserState> {
        MessageView {
            response: self.response,
            session: self.session,
            session_state: self.session_state,
            user_state_update: self.user_state_update,
            version: self.version@,
        }
    }
}

impl<SessionState, UserState> MessageView<SessionState, UserState> {
    /// Whether the message is the one that every answer starts from: an empty
    /// response, an empty session, nothing stored, the protocol's version.
    pub open spec fn is_blank(self) -> bool {
        &&& self.response.text@ == Seq::<char>::empty()
        &&& !self.response.end_session
        &&& self.session matches Some(session) && session.is_empty()
        &&& self.session_state is None
        &&& self.user_state_update is None
        &&& self.version == protocol_version()
    }
}

impl<SessionState, UserState> Message<SessionState, UserState> {
    /// The version of the protocol that the message is written in.
    pub fn version(&self) -> (r: &'static str)
        ensures
            r@ == self@.version,
    {
        self.version
    }

    /// A message with an empty response and an empty session, which stores
    /// nothing.
    pub fn new() -> (r: Self)
        ensures
            r@.is_blank(),
    {
        Message {
            response: Response::default(),
            version: "1.0",
            session_state: None,
            user_state_update: None,
            session: Some(Session::default()),
        }
    }

    /// The message with the response `resp`.
    pub fn with_response(self, resp: Response) -> (r: Self)
        ensures
            r@ == (MessageView { response: resp, ..self@ }),
    {
        let mut mess = self;
        mess.response = resp;
        mess
    }

    /// The message for the session `session`.
    pub fn with_session(self, session: Option<Session>) -> (r: Self)
        ensures
            r@ == (MessageView { session, ..self@ }),
    {
        let mut mess = self;
        mess.session = session;
        mess
    }

    /// The message that stores `session_state` for the session.
    pub fn with_session_state(self, session_state: Option<SessionState>) -> (r: Self)
        ensures
            r@ == (MessageView { session_state, ..self@ }),
    {
        let mut mess = self;
        mess.session_state = session_state;
        mess
    }

    /// The message that stores `user_state` for the user.
    pub fn with_user_state(self, user_state: Option<UserState>) -> (r: Self)
        ensures
            r@ == (MessageView { user_state_update: user_state, ..self@ }),
    {
        let mut mess = self;
        mess.user_state_update = user_state;
        mess
    }
}

impl<SessionState: Clone, UserState> Message<SessionState, UserState> {
    /// The message that answers `req`: it belongs to the session of `req` and
    /// stores for the session a copy of what `req` brought back.
    pub fn from_request(req: &IncomingMessage<SessionState, UserState>) -> (r: Self)
        ensures
            r@.response.text@ == Seq::<char>::empty(),
            !r@.response.end_session,
            r@.session == Some(req.session),
            req.state.session is None ==> r@.session_state is None,
            req.state.session is Some ==> r@.session_state is Some && cloned::<SessionState>(
                req.state.session.unwrap(),
                r@.session_state.unwrap(),
            ),
            r@.user_state_update is None,
            r@.version == protocol_version(),
    {
        let mut mess = Self::new();
        mess.session = Some(req.session.clone());
        mess.session_state = req.state.session.clone();
        mess
    }
}

} // verus!
