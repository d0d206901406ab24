use futures_channel::mpsc::UnboundedReceiver;
use jsonwebtoken::{encode, EncodingKey, Header};
use notify_hub::claims::Claims;
use notify_hub::dispatch::{send_to_user, DispatchError};
use notify_hub::envelope::{
    authentication_error, authentication_success, envelope, error_envelope, failure_message,
    message_payload, read_client_message, read_message, read_token, ClientMessage,
};
use notify_hub::ids::UserId;
use notify_hub::registry::Registry;
use notify_hub::role::UserRole;
use notify_hub::session::{
    resolve_protocols, ws_connect, ConnectionState, Frame, Reaction, WebSocketSession,
    AUTHENTICATION_GRACE_SECONDS,
};
use notify_hub::token::AuthenticationFailure;
use serde_json::Value;

const SECRET: &[u8] = b"session-secret";
const NOW: u64 = 1_000;
const USER: &str = "0a0b0c0d-0000-4000-8000-00000000002a";

fn parsed(text: &str) -> Value {
    serde_json::from_str(text).expect("valid JSON")
}

fn identity(n: u128, role: UserRole) -> Claims {
    Claims { id: UserId::from_u128(n), username: format!("user{}", n), role, exp: 5_000 }
}

fn token_for(user: &str, role: &str, exp: u64, secret: &[u8]) -> String {
    let payload = parsed(&format!(
        r#"{{"id":"{}","username":"ada","role":"{}","exp":{}}}"#,
        user, role, exp
    ));
    encode(&Header::default(), &payload, &EncodingKey::from_secret(secret)).expect("signable")
}

fn frames(rx: &mut UnboundedReceiver<String>) -> Vec<String> {
    let mut all = Vec::new();
    while let Ok(frame) = rx.try_recv() {
        all.push(frame);
    }
    all
}

fn asks_nothing(reaction: &Reaction) -> bool {
    reaction.reply.is_none()
        && reaction.pong.is_none()
        && !reaction.close
        && reaction.outbound.is_none()
}

fn success(user: &str, role: &str) -> Value {
    parsed(&format!(
        r#"{{"type":"authentication_success","payload":{{"user_id":"{}","role":"{}"}}}}"#,
        user, role
    ))
}

fn failure(message: &str) -> Value {
    parsed(&format!(r#"{{"type":"authentication_error","payload":{{"message":"{}"}}}}"#, message))
}

fn error(message: &str) -> Value {
    parsed(&format!(r#"{{"type":"error","payload":{{"message":"{}"}}}}"#, message))
}

#[test]
fn a_new_session_is_upgrading() {
    let session = WebSocketSession::new();
    assert_eq!(session.state(), ConnectionState::Upgrading);
    assert_eq!(session.user_id(), None);
    assert_eq!(session.connection(), None);
}

#[test]
fn pre_resolved_identity_registers_and_receives() {
    let mut registry = Registry::new();
    let mut session = ws_connect(Some(identity(1, UserRole::Member)), None, SECRET, NOW);
    assert_eq!(session.state(), ConnectionState::Authenticating);
    assert_eq!(registry.count(), 0);

    let reaction = session.started(&mut registry);
    assert_eq!(session.state(), ConnectionState::Authenticated);
    assert_eq!(session.user_id(), Some(UserId::from_u128(1)));
    assert_eq!(
        reaction.reply,
        Some(success("00000000-0000-0000-0000-000000000001", "Member"))
    );
    assert!(!reaction.close);
    assert!(reaction.pong.is_none());
    let mut rx = reaction.outbound.expect("the relay opens");

    assert_eq!(registry.count(), 1);
    let entry = registry.lookup(UserId::from_u128(1)).expect("registered");
    assert_eq!(entry.role, UserRole::Member);
    assert_eq!(Some(entry.connection), session.connection());

    assert_eq!(send_to_user(&registry, &UserId::from_u128(1), parsed(r#"{"type":"ping"}"#)), Ok(()));
    assert_eq!(frames(&mut rx), vec![r#"{"type":"ping"}"#.to_string()]);
}

#[test]
fn pre_resolved_identity_wins_over_a_bad_token() {
    let header = format!("token-{}", token_for(USER, "Admin", 5_000, b"wrong"));
    let session =
        ws_connect(Some(identity(3, UserRole::Sponsor)), Some(header.as_bytes()), SECRET, NOW);
    let mut registry = Registry::new();
    let mut session = session;
    let reaction = session.started(&mut registry);
    assert_eq!(session.user_id(), Some(UserId::from_u128(3)));
    assert!(reaction.outbound.is_some());
    assert_eq!(registry.lookup(UserId::from_u128(3)).expect("registered").role, UserRole::Sponsor);
}

#[test]
fn protocol_token_authenticates() {
    let header = format!("chat, token-{}", token_for(USER, "Admin", 5_000, SECRET));
    let mut registry = Registry::new();
    let mut session = ws_connect(None, Some(header.as_bytes()), SECRET, NOW);
    assert_eq!(session.state(), ConnectionState::Authenticating);
    let reaction = session.started(&mut registry);
    assert_eq!(session.state(), ConnectionState::Authenticated);
    assert_eq!(reaction.reply, Some(success(USER, "Admin")));
    assert!(reaction.outbound.is_some());
    let user = UserId::parse(USER).expect("a UUID");
    assert_eq!(registry.lookup(user).expect("registered").role, UserRole::Admin);
}

#[test]
fn first_accepted_protocol_token_wins() {
    let other = "0a0b0c0d-0000-4000-8000-00000000002b";
    let header = format!(
        "token-{}, token-{}, token-{}",
        token_for(USER, "Admin", 5_000, b"wrong"),
        token_for(other, "Member", 5_000, SECRET),
        token_for(USER, "Sponsor", 5_000, SECRET),
    );
    let mut registry = Registry::new();
    let mut session = ws_connect(None, Some(header.as_bytes()), SECRET, NOW);
    let reaction = session.started(&mut registry);
    assert_eq!(reaction.reply, Some(success(other, "Member")));
    assert_eq!(registry.count(), 1);
}

#[test]
fn token_signed_with_another_secret_closes_the_connection() {
    let mut registry = Registry::new();
    let mut bystander = ws_connect(Some(identity(9, UserRole::Member)), None, SECRET, NOW);
    let _relay = bystander.started(&mut registry);
    assert_eq!(registry.count(), 1);

    let header = format!("token-{}", token_for(USER, "Admin", 5_000, b"another-secret"));
    let mut session = ws_connect(None, Some(header.as_bytes()), SECRET, NOW);
    assert_eq!(session.state(), ConnectionState::Authenticating);
    let reaction = session.started(&mut registry);
    assert_eq!(session.state(), ConnectionState::Closed);
    assert!(reaction.close);
    assert!(reaction.outbound.is_none());
    assert_eq!(reaction.reply, Some(failure("Invalid credentials")));
    assert_eq!(registry.count(), 1);
    assert!(registry.lookup(UserId::parse(USER).expect("a UUID")).is_none());
    session.stopped(&mut registry);
    assert_eq!(registry.count(), 1);
}

#[test]
fn expired_protocol_token_closes_the_connection() {
    let header = format!("token-{}", token_for(USER, "Admin", 100, SECRET));
    let mut registry = Registry::new();
    let mut session = ws_connect(None, Some(header.as_bytes()), SECRET, NOW);
    let reaction = session.started(&mut registry);
    assert_eq!(session.state(), ConnectionState::Closed);
    assert!(reaction.close);
    assert_eq!(reaction.reply, Some(failure("Credentials expired")));
    assert_eq!(registry.count(), 0);
}

#[test]
fn refusal_reports_the_first_token() {
    let header = format!(
        "token-{}, token-garbage",
        token_for(USER, "Admin", 100, SECRET),
    );
    let mut registry = Registry::new();
    let mut session = ws_connect(None, Some(header.as_bytes()), SECRET, NOW);
    let reaction = session.started(&mut registry);
    assert_eq!(reaction.reply, Some(failure("Credentials expired")));
}

#[test]
fn without_credentials_the_first_message_is_awaited() {
    let mut registry = Registry::new();
    for protocols in [None, Some(&b"chat, superchat"[..]), Some(&b""[..])] {
        let mut session = ws_connect(None, protocols, SECRET, NOW);
        assert_eq!(session.state(), ConnectionState::Authenticating);
        let reaction = session.started(&mut registry);
        assert!(asks_nothing(&reaction));
        assert_eq!(session.state(), ConnectionState::Authenticating);
        assert_eq!(registry.count(), 0);
    }
}

#[test]
fn in_band_authentication_registers() {
    let mut registry = Registry::new();
    let mut session = ws_connect(None, None, SECRET, NOW);
    session.started(&mut registry);
    let text = format!(
        r#"{{"type":"authenticate","payload":{{"token":"{}"}}}}"#,
        token_for(USER, "Sponsor", 5_000, SECRET)
    );
    let reaction = session.handle(Frame::Text(text), &mut registry, SECRET, NOW);
    assert_eq!(session.state(), ConnectionState::Authenticated);
    assert_eq!(reaction.reply, Some(success(USER, "Sponsor")));
    assert!(!reaction.close);
    let mut rx = reaction.outbound.expect("the relay opens");
    let user = UserId::parse(USER).expect("a UUID");
    assert_eq!(registry.count(), 1);
    assert_eq!(send_to_user(&registry, &user, parsed("[1]")), Ok(()));
    assert_eq!(frames(&mut rx), vec!["[1]".to_string()]);
}

#[test]
fn in_band_authentication_with_a_bad_token_closes() {
    let mut registry = Registry::new();
    let mut session = ws_connect(None, None, SECRET, NOW);
    session.started(&mut registry);
    let text = format!(
        r#"{{"type":"authenticate","payload":{{"token":"{}"}}}}"#,
        token_for(USER, "Sponsor", 5_000, b"wrong")
    );
    let reaction = session.handle(Frame::Text(text), &mut registry, SECRET, NOW);
    assert_eq!(session.state(), ConnectionState::Closed);
    assert!(reaction.close);
    assert_eq!(reaction.reply, Some(failure("Invalid credentials")));
    assert_eq!(registry.count(), 0);
}

#[test]
fn in_band_authentication_without_a_token_closes() {
    for text in [
        r#"{"type":"authenticate"}"#,
        r#"{"type":"authenticate","payload":{}}"#,
        r#"{"type":"authenticate","payload":{"token":5}}"#,
        r#"{"type":"authenticate","payload":"token"}"#,
    ] {
        let mut registry = Registry::new();
        let mut session = ws_connect(None, None, SECRET, NOW);
        session.started(&mut registry);
        let reaction = session.handle(Frame::Text(text.to_string()), &mut registry, SECRET, NOW);
        assert_eq!(session.state(), ConnectionState::Closed, "{}", text);
        assert!(reaction.close);
        assert_eq!(reaction.reply, Some(failure("Authentication required")));
        assert_eq!(registry.count(), 0);
    }
}

#[test]
fn messages_before_authentication_get_an_error() {
    let mut registry = Registry::new();
    let mut session = ws_connect(None, None, SECRET, NOW);
    session.started(&mut registry);
    let reaction =
        session.handle(Frame::Text(r#"{"type":"chat"}"#.to_string()), &mut registry, SECRET, NOW);
    assert_eq!(reaction.reply, Some(error("Not authenticated")));
    assert!(!reaction.close);
    assert!(reaction.outbound.is_none());
    assert_eq!(session.state(), ConnectionState::Authenticating);
    assert_eq!(registry.count(), 0);
}

#[test]
fn malformed_text_gets_an_error_and_the_connection_stays() {
    let mut registry = Registry::new();
    let mut live = ws_connect(Some(identity(1, UserRole::Member)), None, SECRET, NOW);
    live.started(&mut registry);
    let mut waiting = ws_connect(None, None, SECRET, NOW);
    waiting.started(&mut registry);
    for text in ["not json", "", "[]", "{}", r#"{"type":5}"#, r#"{"payload":{}}"#, "null"] {
        for session in [&mut live, &mut waiting] {
            let before = session.state();
            let reaction =
                session.handle(Frame::Text(text.to_string()), &mut registry, SECRET, NOW);
            assert_eq!(reaction.reply, Some(error("Invalid message format")), "{}", text);
            assert!(!reaction.close);
            assert_eq!(session.state(), before);
        }
    }
    assert_eq!(registry.count(), 1);
}

#[test]
fn messages_after_authentication_are_accepted() {
    let mut registry = Registry::new();
    let mut session = ws_connect(Some(identity(1, UserRole::Member)), None, SECRET, NOW);
    session.started(&mut registry);
    for text in [r#"{"type":"chat","payload":{"text":"hi"}}"#, r#"{"type":"authenticate"}"#] {
        let reaction = session.handle(Frame::Text(text.to_string()), &mut registry, SECRET, NOW);
        assert!(asks_nothing(&reaction));
        assert_eq!(session.state(), ConnectionState::Authenticated);
    }
    assert_eq!(registry.count(), 1);
}

#[test]
fn ping_is_answered_with_pong() {
    let mut registry = Registry::new();
    let mut session = ws_connect(None, None, SECRET, NOW);
    session.started(&mut registry);
    let reaction = session.handle(Frame::Ping(vec![1, 2, 3]), &mut registry, SECRET, NOW);
    assert_eq!(reaction.pong, Some(vec![1, 2, 3]));
    assert!(reaction.reply.is_none());
    assert!(!reaction.close);
}

#[test]
fn other_frames_ask_nothing() {
    let mut registry = Registry::new();
    let mut session = ws_connect(Some(identity(1, UserRole::Member)), None, SECRET, NOW);
    session.started(&mut registry);
    for frame in [Frame::Pong(vec![1]), Frame::Binary(vec![0, 159]), Frame::Continuation, Frame::Nop]
    {
        let reaction = session.handle(frame, &mut registry, SECRET, NOW);
        assert!(asks_nothing(&reaction));
        assert_eq!(session.state(), ConnectionState::Authenticated);
    }
}

#[test]
fn close_frame_and_protocol_error_ask_to_close() {
    for frame in [Frame::Close, Frame::ProtocolError] {
        let mut registry = Registry::new();
        let mut session = ws_connect(Some(identity(1, UserRole::Member)), None, SECRET, NOW);
        session.started(&mut registry);
        let reaction = session.handle(frame, &mut registry, SECRET, NOW);
        assert!(reaction.close);
        assert!(reaction.reply.is_none());
        assert_eq!(registry.count(), 1);
        session.stopped(&mut registry);
        assert_eq!(session.state(), ConnectionState::Closed);
        assert_eq!(registry.count(), 0);
    }
}

#[test]
fn disconnect_unregisters() {
    let mut registry = Registry::new();
    let mut first = ws_connect(Some(identity(1, UserRole::Member)), None, SECRET, NOW);
    let mut rx = first.started(&mut registry).outbound.expect("the relay opens");
    let mut second = ws_connect(Some(identity(2, UserRole::Member)), None, SECRET, NOW);
    second.started(&mut registry);
    assert_eq!(registry.count(), 2);

    first.stopped(&mut registry);
    assert_eq!(first.state(), ConnectionState::Closed);
    assert!(registry.lookup(UserId::from_u128(1)).is_none());
    assert_eq!(registry.count(), 1);
    assert!(matches!(rx.try_recv(), Err(e) if e.is_closed()));
    assert_eq!(
        send_to_user(&registry, &UserId::from_u128(1), parsed("1")),
        Err(DispatchError::TargetNotConnected)
    );

    // Stopping again changes nothing.
    first.stopped(&mut registry);
    assert_eq!(registry.count(), 1);
    assert!(registry.contains(UserId::from_u128(2)));
}

#[test]
fn second_connection_replaces_and_survives_the_first_teardown() {
    let mut registry = Registry::new();
    let mut first = ws_connect(Some(identity(1, UserRole::Member)), None, SECRET, NOW);
    let mut first_rx = first.started(&mut registry).outbound.expect("the relay opens");
    let mut second = ws_connect(Some(identity(1, UserRole::Member)), None, SECRET, NOW);
    let mut second_rx = second.started(&mut registry).outbound.expect("the relay opens");
    assert_eq!(registry.count(), 1);
    assert_ne!(first.connection(), second.connection());

    first.stopped(&mut registry);
    assert_eq!(registry.count(), 1);
    assert_eq!(
        Some(registry.lookup(UserId::from_u128(1)).expect("kept").connection),
        second.connection()
    );
    assert_eq!(send_to_user(&registry, &UserId::from_u128(1), parsed("7")), Ok(()));
    assert!(frames(&mut first_rx).is_empty());
    assert_eq!(frames(&mut second_rx), vec!["7".to_string()]);

    second.stopped(&mut registry);
    assert_eq!(registry.count(), 0);
}

#[test]
fn grace_period_closes_a_waiting_connection() {
    let mut registry = Registry::new();
    let mut session = ws_connect(None, None, SECRET, NOW);
    session.started(&mut registry);
    let reaction = session.grace_expired();
    assert_eq!(session.state(), ConnectionState::Closed);
    assert!(reaction.close);
    assert_eq!(reaction.reply, Some(failure("Authentication required")));
    assert!(asks_nothing(&session.grace_expired()));
}

#[test]
fn grace_period_leaves_an_authenticated_connection() {
    let mut registry = Registry::new();
    let mut session = ws_connect(Some(identity(1, UserRole::Member)), None, SECRET, NOW);
    session.started(&mut registry);
    assert!(asks_nothing(&session.grace_expired()));
    assert_eq!(session.state(), ConnectionState::Authenticated);
    assert_eq!(registry.count(), 1);
}

#[test]
fn a_closed_connection_ignores_everything() {
    let mut registry = Registry::new();
    let mut session = ws_connect(None, None, SECRET, NOW);
    session.started(&mut registry);
    session.stopped(&mut registry);
    let token = token_for(USER, "Admin", 5_000, SECRET);
    let text = format!(r#"{{"type":"authenticate","payload":{{"token":"{}"}}}}"#, token);
    for frame in [
        Frame::Text(text),
        Frame::Text("garbage".to_string()),
        Frame::Ping(vec![1]),
        Frame::Close,
        Frame::ProtocolError,
        Frame::Nop,
    ] {
        assert!(asks_nothing(&session.handle(frame, &mut registry, SECRET, NOW)));
        assert_eq!(session.state(), ConnectionState::Closed);
    }
    assert!(asks_nothing(&session.started(&mut registry)));
    assert_eq!(registry.count(), 0);
}

#[test]
fn started_on_an_upgrading_session_asks_nothing() {
    let mut registry = Registry::new();
    let mut session = WebSocketSession::new();
    assert!(asks_nothing(&session.started(&mut registry)));
    assert_eq!(session.state(), ConnectionState::Upgrading);
    let reaction =
        session.handle(Frame::Text(r#"{"type":"chat"}"#.to_string()), &mut registry, SECRET, NOW);
    assert_eq!(reaction.reply, Some(error("Not authenticated")));
}

#[test]
fn handle_message_follows_the_message() {
    let mut registry = Registry::new();
    let mut session = ws_connect(None, None, SECRET, NOW);
    session.started(&mut registry);
    let reaction = session.handle_message(ClientMessage::Malformed, &mut registry, SECRET, NOW);
    assert_eq!(reaction.reply, Some(error("Invalid message format")));
    let token = token_for(USER, "Member", 5_000, SECRET).into_bytes();
    let reaction = session.handle_message(
        ClientMessage::Authenticate { token: Some(token) },
        &mut registry,
        SECRET,
        NOW,
    );
    assert!(reaction.outbound.is_some());
    assert_eq!(session.state(), ConnectionState::Authenticated);
}

#[test]
fn reactions_are_built_as_asked() {
    assert!(asks_nothing(&Reaction::none()));
    let reaction = Reaction::reply_with(parsed("[1]"));
    assert_eq!(reaction.reply, Some(parsed("[1]")));
    assert!(!reaction.close && reaction.pong.is_none() && reaction.outbound.is_none());
}

#[test]
fn envelopes_have_the_wire_shape() {
    assert_eq!(
        envelope("ping", Value::Null),
        parsed(r#"{"type":"ping","payload":null}"#)
    );
    assert_eq!(
        envelope("new_post", parsed(r#"{"id":[1,2]}"#)),
        parsed(r#"{"type":"new_post","payload":{"id":[1,2]}}"#)
    );
    assert_eq!(message_payload("hi"), parsed(r#"{"message":"hi"}"#));
    assert_eq!(
        authentication_success(UserId::from_u128(0x2a), UserRole::Admin),
        success("00000000-0000-0000-0000-00000000002a", "Admin")
    );
    assert_eq!(
        authentication_error(AuthenticationFailure::BadCredential),
        failure("Invalid credentials")
    );
    assert_eq!(
        authentication_error(AuthenticationFailure::ExpiredCredential),
        failure("Credentials expired")
    );
    assert_eq!(
        authentication_error(AuthenticationFailure::MissingCredential),
        failure("Authentication required")
    );
    assert_eq!(failure_message(AuthenticationFailure::BadCredential), "Invalid credentials");
    assert_eq!(error_envelope("Not authenticated"), error("Not authenticated"));
}

#[test]
fn client_messages_are_read() {
    assert!(matches!(read_client_message("nope"), ClientMessage::Malformed));
    assert!(matches!(read_client_message(r#"{"payload":1}"#), ClientMessage::Malformed));
    assert!(matches!(read_client_message(r#"{"type":null}"#), ClientMessage::Malformed));
    match read_client_message(r#"{"type":"chat","payload":{"token":"t"}}"#) {
        ClientMessage::Application { kind } => assert_eq!(kind, "chat"),
        other => panic!("unexpected {:?}", other),
    }
    match read_client_message(r#"{"type":"Authenticate","payload":{"token":"t"}}"#) {
        ClientMessage::Application { kind } => assert_eq!(kind, "Authenticate"),
        other => panic!("unexpected {:?}", other),
    }
    match read_client_message(r#"{"payload":{"token":"a.b.c","x":1},"type":"authenticate"}"#) {
        ClientMessage::Authenticate { token } => assert_eq!(token, Some(b"a.b.c".to_vec())),
        other => panic!("unexpected {:?}", other),
    }
    match read_message(&parsed(r#"{"type":"authenticate","payload":{"token":"é"}}"#)) {
        ClientMessage::Authenticate { token } => assert_eq!(token, Some("é".as_bytes().to_vec())),
        other => panic!("unexpected {:?}", other),
    }
    match read_message(&parsed(r#"{"type":"authenticate"}"#)) {
        ClientMessage::Authenticate { token } => assert_eq!(token, None),
        other => panic!("unexpected {:?}", other),
    }
    assert_eq!(read_token(&parsed(r#"{"payload":{"token":"abc"}}"#)), Some(b"abc".to_vec()));
    assert_eq!(read_token(&parsed(r#"{"payload":{"token":null}}"#)), None);
    assert_eq!(read_token(&parsed(r#"{"token":"abc"}"#)), None);
}

#[test]
fn protocol_negotiation_in_isolation() {
    assert!(resolve_protocols(None, SECRET, NOW).is_none());
    assert!(resolve_protocols(Some(b"chat"), SECRET, NOW).is_none());
    let good = format!("token-{}", token_for(USER, "Member", 5_000, SECRET));
    match resolve_protocols(Some(good.as_bytes()), SECRET, NOW) {
        Some(Ok(claims)) => {
            assert_eq!(claims.id.to_text(), USER);
            assert_eq!(claims.role, UserRole::Member);
            assert_eq!(claims.exp, 5_000);
        }
        other => panic!("unexpected {:?}", other),
    }
    let bad = format!("token-{}", token_for(USER, "Member", 5_000, b"wrong"));
    assert!(matches!(
        resolve_protocols(Some(bad.as_bytes()), SECRET, NOW),
        Some(Err(AuthenticationFailure::BadCredential))
    ));
    let late = format!("token-x, token-{}", token_for(USER, "Member", 5_000, SECRET));
    assert!(matches!(resolve_protocols(Some(late.as_bytes()), SECRET, NOW), Some(Ok(_))));
    assert!(matches!(
        resolve_protocols(Some(b"token-"), SECRET, NOW),
        Some(Err(AuthenticationFailure::BadCredential))
    ));
}

#[test]
fn credentials_are_resolved_once() {
    assert_eq!(AUTHENTICATION_GRACE_SECONDS, 10);
    let mut registry = Registry::new();
    let mut session = WebSocketSession::new();
    session.resolve_credentials(None, None, SECRET, NOW);
    assert_eq!(session.state(), ConnectionState::Authenticating);
    // The connection awaits its first message: a later identity changes nothing.
    session.resolve_credentials(Some(identity(1, UserRole::Admin)), None, SECRET, NOW);
    assert!(asks_nothing(&session.started(&mut registry)));
    assert_eq!(session.state(), ConnectionState::Authenticating);
    assert_eq!(registry.count(), 0);

    let mut session = WebSocketSession::new();
    session.resolve_credentials(Some(identity(1, UserRole::Admin)), None, SECRET, NOW);
    session.started(&mut registry);
    session.resolve_credentials(Some(identity(2, UserRole::Member)), None, SECRET, NOW);
    assert_eq!(session.user_id(), Some(UserId::from_u128(1)));
    assert_eq!(registry.count(), 1);
}
