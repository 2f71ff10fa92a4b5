use alice_skill::json::JsonValue;
use alice_skill::request::{IncomingMessage, Session};
use alice_skill::response::{Message, Response};

fn session() -> Session {
    Session {
        session_id: "sess-id".to_string(),
        skill_id: "skill-id".to_string(),
        user_id: "user-id".to_string(),
        message_id: 2,
        new: true,
    }
}

#[test]
fn response_default_is_empty() {
    let r = Response::default();
    assert_eq!(r.text, "");
    assert!(!r.end_session);
}

#[test]
fn with_text_sets_the_text_only() {
    let r = Response::default().with_text("hello");
    assert_eq!(r.text, "hello");
    assert!(!r.end_session);
    let r = Response::default().with_session_end().with_text(String::from("bye"));
    assert_eq!(r.text, "bye");
    assert!(r.end_session);
    let r = r.with_text('x');
    assert_eq!(r.text, "x");
}

#[test]
fn with_session_end_sets_the_flag_only() {
    let r = Response::default().with_text("hello").with_session_end();
    assert_eq!(r.text, "hello");
    assert!(r.end_session);
    let r = r.with_session_end();
    assert!(r.end_session);
}

#[test]
fn new_message_is_blank() {
    let m: Message = Message::new();
    assert_eq!(m.response.text, "");
    assert!(!m.response.end_session);
    let s = m.session.as_ref().expect("a session");
    assert_eq!(s.session_id, "");
    assert_eq!(s.skill_id, "");
    assert_eq!(s.user_id, "");
    assert_eq!(s.message_id, 0);
    assert!(!s.new);
    assert!(m.session_state.is_none());
    assert!(m.user_state_update.is_none());
    assert_eq!(m.version(), "1.0");
}

#[test]
fn builders_set_one_field_each() {
    let m: Message<i32, String> = Message::new()
        .with_response(Response::default().with_text("hi"))
        .with_session(Some(session()))
        .with_session_state(Some(7))
        .with_user_state(Some("u".to_string()));
    assert_eq!(m.response.text, "hi");
    assert_eq!(m.session.as_ref().unwrap().session_id, "sess-id");
    assert_eq!(m.session_state, Some(7));
    assert_eq!(m.user_state_update, Some("u".to_string()));
    assert_eq!(m.version(), "1.0");

    let m = m.with_session(None);
    assert!(m.session.is_none());
    assert_eq!(m.response.text, "hi");
    assert_eq!(m.session_state, Some(7));
    assert_eq!(m.user_state_update, Some("u".to_string()));

    let m = m.with_session_state(None).with_user_state(None);
    assert!(m.session_state.is_none());
    assert!(m.user_state_update.is_none());
    assert_eq!(m.response.text, "hi");
    assert_eq!(m.version(), "1.0");
}

#[test]
fn from_request_takes_session_and_session_state() {
    let mut req: IncomingMessage<Vec<u8>, String> = IncomingMessage::default();
    req.session = session();
    req.state.session = Some(vec![1, 2, 3]);
    req.state.user = Some("kept by the assistant".to_string());
    let m = Message::from_request(&req);
    let s = m.session.as_ref().expect("a session");
    assert_eq!(s.session_id, "sess-id");
    assert_eq!(s.skill_id, "skill-id");
    assert_eq!(s.user_id, "user-id");
    assert_eq!(s.message_id, 2);
    assert!(s.new);
    assert_eq!(m.session_state, Some(vec![1, 2, 3]));
    assert!(m.user_state_update.is_none());
    assert_eq!(m.response.text, "");
    assert!(!m.response.end_session);
    assert_eq!(m.version(), "1.0");
    assert_eq!(req.state.session, Some(vec![1, 2, 3]));
}

#[test]
fn from_request_without_state() {
    let req: IncomingMessage = IncomingMessage::default();
    let m = Message::from_request(&req);
    assert!(m.session_state.is_none());
    assert!(m.session.is_some());
}

#[test]
fn from_request_copies_structured_state() {
    let mut req: IncomingMessage = IncomingMessage::default();
    let state = JsonValue::Object(vec![("step".to_string(), JsonValue::Bool(true))]);
    req.state.session = Some(state.clone());
    let m = Message::from_request(&req);
    assert_eq!(m.session_state, Some(state));
}
