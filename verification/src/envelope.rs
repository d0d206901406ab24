//! The wire envelope `{"type": .., "payload": ..}`: the envelopes that the
//! hub itself sends, and the reading of the messages that clients send.

use vstd::prelude::*;
use vstd::slice::slice_to_vec;
use crate::ids::{uuid_text, UserId};
use crate::json;
use crate::json::{json_parsed, json_view, JsonView};
use crate::role::UserRole;
use crate::text::text_eq;
use crate::token::AuthenticationFailure;

verus! {

/// The envelope with the discriminator `kind` and the payload `payload`.
pub open spec fn envelope_view(kind: Seq<char>, payload: JsonView) -> JsonView {
    JsonView::Object(
        Map::<Seq<char>, JsonView>::empty().insert("type"@, JsonView::Text(kind)).insert(
            "payload"@,
            payload,
        ),
    )
}

/// The payload `{"message": message}`.
pub open spec fn message_view(message: Seq<char>) -> JsonView {
    JsonView::Object(Map::<Seq<char>, JsonView>::empty().insert("message"@, JsonView::Text(message)))
}

/// The payload that confirms an identity: the user as a UUID and the name
/// of the role.
pub open spec fn identity_view(user_id: UserId, role: UserRole) -> JsonView {
    JsonView::Object(
        Map::<Seq<char>, JsonView>::empty().insert(
            "user_id"@,
            JsonView::Text(uuid_text(user_id.value)),
        ).insert("role"@, JsonView::Text(role.label())),
    )
}

/// The envelope that confirms a successful authentication.
pub open spec fn success_view(user_id: UserId, role: UserRole) -> JsonView {
    envelope_view("authentication_success"@, identity_view(user_id, role))
}

/// What a client is told of a failed authentication.
pub open spec fn failure_text(failure: AuthenticationFailure) -> Seq<char> {
    match failure {
        AuthenticationFailure::BadCredential => "Invalid credentials"@,
        AuthenticationFailure::ExpiredCredential => "Credentials expired"@,
        AuthenticationFailure::MissingCredential => "Authentication required"@,
    }
}

/// The envelope that reports a failed authentication.
pub open spec fn failure_view(failure: AuthenticationFailure) -> JsonView {
    envelope_view("authentication_error"@, message_view(failure_text(failure)))
}

/// The envelope that reports an error with one message.
pub open spec fn error_view(message: Seq<char>) -> JsonView {
    envelope_view("error"@, message_view(message))
}

/// Builds the envelope with the discriminator `kind` and the payload
/// `payload`.
pub fn envelope(kind: &str, payload: serde_json::Value) -> (v: serde_json::Value)
    ensures
        json_view(v) == envelope_view(kind@, json_view(payload)),
{
    let mut v = json::null();
    json::set_member(&mut v, "type", json::text(kind));
    json::set_member(&mut v, "payload", payload);
    v
}

/// Builds the payload `{"message": message}`.
pub fn message_payload(message: &str) -> (v: serde_json::Value)
    ensures
        json_view(v) == message_view(message@),
{
    let mut v = json::null();
    json::set_member(&mut v, "message", json::text(message));
    v
}

/// Builds the envelope that confirms a successful authentication.
pub fn authentication_success(user_id: UserId, role: UserRole) -> (v: serde_json::Value)
    ensures
        json_view(v) == success_view(user_id, role),
{
    let mut payload = json::null();
    json::set_member(&mut payload, "user_id", json::text(user_id.to_text().as_str()));
    json::set_member(&mut payload, "role", json::text(role.as_str()));
    envelope("authentication_success", payload)
}

/// What a client is told of a failed authentication.
pub fn failure_message(failure: AuthenticationFailure) -> (message: &'static str)
    ensures
        message@ == failure_text(failure),
{
    match failure {
        AuthenticationFailure::BadCredential => "Invalid credentials",
        AuthenticationFailure::ExpiredCredential => "Credentials expired",
        AuthenticationFailure::MissingCredential => "Authentication required",
    }
}

/// Builds the envelope that reports a failed authentication.
pub fn authentication_error(failure: AuthenticationFailure) -> (v: serde_json::Value)
    ensures
        json_view(v) == failure_view(failure),
{
    envelope("authentication_error", message_payload(failure_message(failure)))
}

/// Builds the envelope that reports an error with one message.
pub fn error_envelope(message: &str) -> (v: serde_json::Value)
    ensures
        json_view(v) == error_view(message@),
{
    envelope("error", message_payload(message))
}

/// What one text frame from a client says.
#[derive(Debug)]
pub enum ClientMessage {
    /// A request to authenticate. The token is absent where the message
    /// holds none.
    Authenticate { token: Option<Vec<u8>> },
    /// Any other well-formed message, with its discriminator.
    Application { kind: String },
    /// A frame that is no JSON, or no object with a string under `type`.
    Malformed,
}

/// What a [`ClientMessage`] holds.
pub enum ClientMessageView {
    Authenticate { token: Option<Seq<u8>> },
    Application { kind: Seq<char> },
    Malformed,
}

impl View for ClientMessage {
    type V = ClientMessageView;

    open spec fn view(&self) -> ClientMessageView {
        match self {
            ClientMessage::Authenticate { token } => ClientMessageView::Authenticate {
                token: match token {
                    Some(t) => Some(t@),
                    None => None,
                },
            },
            ClientMessage::Application { kind } => ClientMessageView::Application { kind: kind@ },
            ClientMessage::Malformed => ClientMessageView::Malformed,
        }
    }
}

/// The token of an authenticate message: the string under `token` in the
/// object under `payload`, as UTF-8.
pub open spec fn token_member(v: JsonView) -> Option<Seq<u8>> {
    match v.member("payload"@) {
        Some(payload) => match payload.member_text("token"@) {
            Some(text) => Some(vstd::utf8::encode_utf8(text)),
            None => None,
        },
        None => None,
    }
}

/// What the JSON value `v` says as a client's message.
pub open spec fn message_in(v: JsonView) -> ClientMessageView {
    match v.member_text("type"@) {
        Some(kind) => if kind == "authenticate"@ {
            ClientMessageView::Authenticate { token: token_member(v) }
        } else {
            ClientMessageView::Application { kind }
        },
        None => ClientMessageView::Malformed,
    }
}

/// What the text frame `text` says.
pub open spec fn client_message(text: Seq<char>) -> ClientMessageView {
    match json_parsed(text) {
        Some(v) => message_in(v),
        None => ClientMessageView::Malformed,
    }
}

/// Reads the token of an authenticate message.
pub fn read_token(v: &serde_json::Value) -> (token: Option<Vec<u8>>)
    ensures
        match token {
            Some(t) => token_member(json_view(*v)) == Some(t@),
            None => token_member(json_view(*v)) is None,
        },
{
    match json::member(v, "payload") {
        Some(payload) => match json::member_text(payload, "token") {
            Some(text) => Some(slice_to_vec(text.as_bytes())),
            None => None,
        },
        None => None,
    }
}

/// Reads a client's message from a JSON value.
pub fn read_message(v: &serde_json::Value) -> (message: ClientMessage)
    ensures
        message@ == message_in(json_view(*v)),
{
    match json::member_text(v, "type") {
        Some(kind) => if text_eq(kind, "authenticate") {
            ClientMessage::Authenticate { token: read_token(v) }
        } else {
            ClientMessage::Application { kind: kind.to_owned() }
        },
        None => ClientMessage::Malformed,
    }
}

/// Reads a client's message from a text frame.
pub fn read_client_message(text: &str) -> (message: ClientMessage)
    ensures
        message@ == client_message(text@),
{
    match json::parse(text) {
        Ok(v) => read_message(&v),
        Err(_) => ClientMessage::Malformed,
    }
}

} // verus!
