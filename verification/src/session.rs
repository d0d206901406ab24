//! The life of one connection: from the upgrade request through
//! authentication to registration, relay and teardown.
//!
//! A session decides; it performs no I/O. Whoever drives the socket tells it
//! what happened ([`WebSocketSession::started`], [`WebSocketSession::handle`],
//! [`WebSocketSession::grace_expired`], [`WebSocketSession::stopped`]) and
//! carries out the [`Reaction`] it gets back.

use vstd::prelude::*;
use futures_channel::mpsc::UnboundedReceiver;
use crate::channel;
use crate::claims::{optional_view, Claims, ClaimsView};
use crate::envelope::{authentication_error, authentication_success, error_envelope};
use crate::envelope::{client_message, read_client_message, ClientMessage, ClientMessageView};
use crate::envelope::{error_view, failure_view, success_view};
use crate::header::{offered_tokens, protocol_tokens, views};
use crate::ids::{ConnectionId, UserId};
use crate::json::{json_view, JsonView};
use crate::registry::{released, Registry, RegistryEntry};
use crate::role::UserRole;
use crate::token::{authenticate, signed_claims, verdict, AuthenticationFailure};

verus! {

/// The seconds that a connection without credentials is given to
/// authenticate with its first message.
pub const AUTHENTICATION_GRACE_SECONDS: u64 = 10;

/// The states of a connection as the outside sees them.
#[derive(Clone, Copy, Debug, PartialEq, Eq, Structural)]
pub enum ConnectionState {
    /// An upgrade was requested; no credential has been looked at.
    Upgrading,
    /// Credentials are being resolved, or are awaited from the client.
    Authenticating,
    /// The connection is registered and relays messages.
    Authenticated,
    /// The connection is over.
    Closed,
}

/// Where a connection stands, with what it knows at that point.
#[derive(Debug)]
pub enum Stage {
    /// An upgrade was requested; no credential has been looked at.
    Upgrading,
    /// A credential was accepted; the connection is yet to be registered.
    Resolved(Claims),
    /// A credential was presented and not accepted; the connection is yet
    /// to be told and closed.
    Refused(AuthenticationFailure),
    /// No credential was presented; the client's first message must bring
    /// one.
    Awaiting,
    /// The connection is registered.
    Live { user_id: UserId, role: UserRole, connection: ConnectionId },
    /// The connection is over.
    Closed,
}

/// What a [`Stage`] holds.
pub enum StageView {
    Upgrading,
    Resolved(ClaimsView),
    Refused(AuthenticationFailure),
    Awaiting,
    Live { user_id: UserId, role: UserRole, connection: ConnectionId },
    Closed,
}

impl View for Stage {
    type V = StageView;

    open spec fn view(&self) -> StageView {
        match self {
            Stage::Upgrading => StageView::Upgrading,
            Stage::Resolved(c) => StageView::Resolved(c@),
            Stage::Refused(f) => StageView::Refused(*f),
            Stage::Awaiting => StageView::Awaiting,
            Stage::Live { user_id, role, connection } => StageView::Live {
                user_id: *user_id,
                role: *role,
                connection: *connection,
            },
            Stage::Closed => StageView::Closed,
        }
    }
}

impl StageView {
    /// The state that the outside sees at this stage.
    pub open spec fn state(self) -> ConnectionState {
        match self {
            StageView::Upgrading => ConnectionState::Upgrading,
            StageView::Resolved(_) => ConnectionState::Authenticating,
            StageView::Refused(_) => ConnectionState::Authenticating,
            StageView::Awaiting => ConnectionState::Authenticating,
            StageView::Live { .. } => ConnectionState::Authenticated,
            StageView::Closed => ConnectionState::Closed,
        }
    }
}

/// One frame that arrived from the client, or the failure to read one.
#[derive(Debug)]
pub enum Frame {
    Text(String),
    Binary(Vec<u8>),
    Ping(Vec<u8>),
    Pong(Vec<u8>),
    Close,
    Continuation,
    Nop,
    /// The bytes that arrived were no frame.
    ProtocolError,
}

/// What a [`Frame`] holds.
pub enum FrameView {
    Text(Seq<char>),
    Binary(Seq<u8>),
    Ping(Seq<u8>),
    Pong(Seq<u8>),
    Close,
    Continuation,
    Nop,
    ProtocolError,
}

impl View for Frame {
    type V = FrameView;

    open spec fn view(&self) -> FrameView {
        match self {
            Frame::Text(t) => FrameView::Text(t@),
            Frame::Binary(b) => FrameView::Binary(b@),
            Frame::Ping(b) => FrameView::Ping(b@),
            Frame::Pong(b) => FrameView::Pong(b@),
            Frame::Close => FrameView::Close,
            Frame::Continuation => FrameView::Continuation,
            Frame::Nop => FrameView::Nop,
            Frame::ProtocolError => FrameView::ProtocolError,
        }
    }
}

/// What is to be done for a connection after an event.
pub struct Reaction {
    /// An envelope to send to the client.
    pub reply: Option<serde_json::Value>,
    /// The payload of a pong to send to the client.
    pub pong: Option<Vec<u8>>,
    /// Whether the connection is to be closed.
    pub close: bool,
    /// The receiving half of the connection's outbound channel, handed out
    /// once, when the connection is registered: whatever arrives on it is to
    /// be written to the socket, in order.
    pub outbound: Option<UnboundedReceiver<String>>,
}

/// What a [`Reaction`] holds.
pub struct ReactionView {
    pub reply: Option<JsonView>,
    pub pong: Option<Seq<u8>>,
    pub close: bool,
    pub opens_relay: bool,
}

impl View for Reaction {
    type V = ReactionView;

    open spec fn view(&self) -> ReactionView {
        ReactionView {
            reply: match self.reply {
                Some(v) => Some(json_view(v)),
                None => None,
            },
            pong: match self.pong {
                Some(p) => Some(p@),
                None => None,
            },
            close: self.close,
            opens_relay: self.outbound is Some,
        }
    }
}

/// One step of a connection: the stage it reaches, what is to be done, and
/// whether the step registers the connection.
pub struct Step {
    pub stage: StageView,
    pub reaction: ReactionView,
    pub registers: bool,
}

/// The reaction that asks for nothing.
pub open spec fn nothing() -> ReactionView {
    ReactionView { reply: None, pong: None, close: false, opens_relay: false }
}

/// The step that leaves the connection at `stage` and asks for nothing.
pub open spec fn stay(stage: StageView) -> Step {
    Step { stage, reaction: nothing(), registers: false }
}

/// The step that leaves the connection at `stage` and sends `reply`.
pub open spec fn answer(stage: StageView, reply: JsonView) -> Step {
    Step {
        stage,
        reaction: ReactionView { reply: Some(reply), pong: None, close: false, opens_relay: false },
        registers: false,
    }
}

/// The step that registers the connection for the identity `c` under the
/// next connection identifier, confirms the identity to the client and
/// opens the relay.
pub open spec fn welcome(c: ClaimsView, issued: u64) -> Step {
    Step {
        stage: StageView::Live {
            user_id: c.id,
            role: c.role,
            connection: ConnectionId { value: issued },
        },
        reaction: ReactionView {
            reply: Some(success_view(c.id, c.role)),
            pong: None,
            close: false,
            opens_relay: true,
        },
        registers: true,
    }
}

/// The step that tells the client why it was not authenticated and closes
/// the connection, which was never registered.
pub open spec fn turn_away(failure: AuthenticationFailure) -> Step {
    Step {
        stage: StageView::Closed,
        reaction: ReactionView {
            reply: Some(failure_view(failure)),
            pong: None,
            close: true,
            opens_relay: false,
        },
        registers: false,
    }
}

/// The step that asks for the connection to be closed and leaves it at
/// `stage` until the teardown.
pub open spec fn hang_up(stage: StageView) -> Step {
    Step {
        stage,
        reaction: ReactionView { reply: None, pong: None, close: true, opens_relay: false },
        registers: false,
    }
}

/// The identity of the first of `tokens` that is accepted, if any is.
pub open spec fn first_accepted(tokens: Seq<Seq<u8>>, secret: Seq<u8>, now: u64) -> Option<
    ClaimsView,
>
    decreases tokens.len(),
{
    if tokens.len() == 0 {
        None
    } else {
        match verdict(signed_claims(tokens.first(), secret), now) {
            Ok(c) => Some(c),
            Err(_) => first_accepted(tokens.drop_first(), secret, now),
        }
    }
}

/// Why the token `token` is not accepted; `BadCredential` stands in where
/// it is.
pub open spec fn failure_of(token: Seq<u8>, secret: Seq<u8>, now: u64) -> AuthenticationFailure {
    match verdict(signed_claims(token, secret), now) {
        Ok(_) => AuthenticationFailure::BadCredential,
        Err(f) => f,
    }
}

/// What the tokens offered in a protocol negotiation come to. With no
/// token offered the negotiation settles nothing. Otherwise the tokens are
/// tried in order and the first that is accepted wins; if none is, the
/// negotiation fails for the first token's fault.
pub open spec fn negotiated(tokens: Seq<Seq<u8>>, secret: Seq<u8>, now: u64) -> Option<
    Result<ClaimsView, AuthenticationFailure>,
> {
    if tokens.len() == 0 {
        None
    } else {
        match first_accepted(tokens, secret, now) {
            Some(c) => Some(Ok(c)),
            None => Some(Err(failure_of(tokens.first(), secret, now))),
        }
    }
}

/// The tokens that a request offers in its protocol header, if it has one.
pub open spec fn tokens_offered(protocols: Option<Seq<u8>>) -> Seq<Seq<u8>> {
    match protocols {
        Some(header) => offered_tokens(header),
        None => Seq::<Seq<u8>>::empty(),
    }
}

/// The stage that credentials lead to. The ways of presenting a credential
/// are taken in order, and the first that is used at all decides. An
/// identity that was resolved beforehand is taken as it is. Next come the
/// tokens of the protocol negotiation, which admit the connection or have
/// it refused. With neither, the client's first message is awaited.
pub open spec fn resolved(
    identity: Option<ClaimsView>,
    protocols: Option<Seq<u8>>,
    secret: Seq<u8>,
    now: u64,
) -> StageView {
    match identity {
        Some(c) => StageView::Resolved(c),
        None => match negotiated(tokens_offered(protocols), secret, now) {
            Some(Ok(c)) => StageView::Resolved(c),
            Some(Err(f)) => StageView::Refused(f),
            None => StageView::Awaiting,
        },
    }
}

/// The stage after the credentials of the upgrade request were resolved:
/// only a connection that is still upgrading moves.
pub open spec fn credentials_step(
    stage: StageView,
    identity: Option<ClaimsView>,
    protocols: Option<Seq<u8>>,
    secret: Seq<u8>,
    now: u64,
) -> StageView {
    match stage {
        StageView::Upgrading => resolved(identity, protocols, secret, now),
        _ => stage,
    }
}

/// The view of what a way of presenting a credential came to.
pub open spec fn resolution_view(resolution: Option<Result<Claims, AuthenticationFailure>>) -> Option<
    Result<ClaimsView, AuthenticationFailure>,
> {
    match resolution {
        Some(Ok(c)) => Some(Ok(c@)),
        Some(Err(f)) => Some(Err(f)),
        None => None,
    }
}

/// The step taken when the connection starts.
pub open spec fn start_step(stage: StageView, issued: u64) -> Step {
    match stage {
        StageView::Resolved(c) => welcome(c, issued),
        StageView::Refused(f) => turn_away(f),
        _ => stay(stage),
    }
}

/// The step taken for a text frame that says `message`.
pub open spec fn message_step(
    stage: StageView,
    message: ClientMessageView,
    secret: Seq<u8>,
    now: u64,
    issued: u64,
) -> Step {
    match stage {
        StageView::Closed => stay(stage),
        StageView::Live { .. } => match message {
            ClientMessageView::Malformed => answer(stage, error_view("Invalid message format"@)),
            _ => stay(stage),
        },
        StageView::Awaiting => match message {
            ClientMessageView::Malformed => answer(stage, error_view("Invalid message format"@)),
            ClientMessageView::Application { .. } => answer(stage, error_view("Not authenticated"@)),
            ClientMessageView::Authenticate { token: None } => turn_away(
                AuthenticationFailure::MissingCredential,
            ),
            ClientMessageView::Authenticate { token: Some(token) } => match verdict(
                signed_claims(token, secret),
                now,
            ) {
                Ok(c) => welcome(c, issued),
                Err(f) => turn_away(f),
            },
        },
        _ => match message {
            ClientMessageView::Malformed => answer(stage, error_view("Invalid message format"@)),
            _ => answer(stage, error_view("Not authenticated"@)),
        },
    }
}

/// The step taken for the frame `frame`.
pub open spec fn frame_step(
    stage: StageView,
    frame: FrameView,
    secret: Seq<u8>,
    now: u64,
    issued: u64,
) -> Step {
    match frame {
        FrameView::Text(text) => message_step(stage, client_message(text), secret, now, issued),
        FrameView::Ping(payload) => match stage {
            StageView::Closed => stay(stage),
            _ => Step {
                stage,
                reaction: ReactionView {
                    reply: None,
                    pong: Some(payload),
                    close: false,
                    opens_relay: false,
                },
                registers: false,
            },
        },
        FrameView::Close => match stage {
            StageView::Closed => stay(stage),
            _ => hang_up(stage),
        },
        FrameView::ProtocolError => match stage {
            StageView::Closed => stay(stage),
            _ => hang_up(stage),
        },
        _ => stay(stage),
    }
}

/// The step taken when the time allowed for the client's first message has
/// run out.
pub open spec fn timeout_step(stage: StageView) -> Step {
    match stage {
        StageView::Awaiting => turn_away(AuthenticationFailure::MissingCredential),
        _ => stay(stage),
    }
}

/// Whether the registry went from `before` to `after` as the step asks: a
/// step that registers puts one entry in, for the stage's user, role and
/// connection, and leaves the other users' entries alone; any other step
/// changes nothing.
pub open spec fn registry_follows(
    before: Map<u128, RegistryEntry>,
    after: Map<u128, RegistryEntry>,
    step: Step,
) -> bool {
    if step.registers {
        &&& step.stage matches StageView::Live { user_id, role, connection }
        &&& after.contains_key(user_id.value)
        &&& after[user_id.value].user_id == user_id
        &&& after[user_id.value].role == role
        &&& after[user_id.value].connection == connection
        &&& after.remove(user_id.value) == before.remove(user_id.value)
    } else {
        after == before
    }
}

/// The entries after the teardown of a connection at `stage`: a registered
/// connection gives up its entry, unless a later connection of the same
/// user has replaced it.
pub open spec fn torn_down(entries: Map<u128, RegistryEntry>, stage: StageView) -> Map<
    u128,
    RegistryEntry,
> {
    match stage {
        StageView::Live { user_id, role, connection } => released(entries, user_id, connection),
        _ => entries,
    }
}

/// The number of identifiers handed out after a step.
pub open spec fn issued_after(issued: u64, step: Step) -> u64 {
    if step.registers && issued < u64::MAX {
        (issued + 1) as u64
    } else {
        issued
    }
}

/// One connection.
pub struct WebSocketSession {
    stage: Stage,
}

impl View for WebSocketSession {
    type V = StageView;

    closed spec fn view(&self) -> StageView {
        self.stage@
    }
}

impl Reaction {
    /// The reaction that asks for nothing.
    pub fn none() -> (reaction: Reaction)
        ensures
            reaction@ == nothing(),
    {
        Reaction { reply: None, pong: None, close: false, outbound: None }
    }

    /// The reaction that sends one envelope.
    pub fn reply_with(reply: serde_json::Value) -> (reaction: Reaction)
        ensures
            reaction@ == (ReactionView {
                reply: Some(json_view(reply)),
                pong: None,
                close: false,
                opens_relay: false,
            }),
    {
        Reaction { reply: Some(reply), pong: None, close: false, outbound: None }
    }
}

impl WebSocketSession {
    /// A connection for which an upgrade was requested.
    pub fn new() -> (session: WebSocketSession)
        ensures
            session@ == StageView::Upgrading,
    {
        WebSocketSession { stage: Stage::Upgrading }
    }

    /// Resolves the credentials of the upgrade request. A connection that
    /// is still upgrading moves on: to be registered at its start, to be
    /// refused at its start, or to wait for the client's first message. Any
    /// other connection stays as it is.
    ///
    /// `identity` is the identity that the request carries where it was
    /// authenticated beforehand, `protocols` the value of its protocol
    /// header where it has one, `secret` the shared signing secret and `now`
    /// the time in seconds since the Unix epoch.
    pub fn resolve_credentials(
        &mut self,
        identity: Option<Claims>,
        protocols: Option<&[u8]>,
        secret: &[u8],
        now: u64,
    )
        ensures
            final(self)@ == credentials_step(
                old(self)@,
                optional_view(identity),
                match protocols {
                    Some(header) => Some(header@),
                    None => None,
                },
                secret@,
                now,
            ),
    {
        let upgrading = match &self.stage {
            Stage::Upgrading => true,
            _ => false,
        };
        if upgrading {
            self.stage = match identity {
                Some(claims) => Stage::Resolved(claims),
                None => match resolve_protocols(protocols, secret, now) {
                    Some(Ok(claims)) => Stage::Resolved(claims),
                    Some(Err(failure)) => Stage::Refused(failure),
                    None => Stage::Awaiting,
                },
            };
        }
    }

    /// The state of the connection.
    pub fn state(&self) -> (state: ConnectionState)
        ensures
            state == self@.state(),
    {
        match &self.stage {
            Stage::Upgrading => ConnectionState::Upgrading,
            Stage::Resolved(_) => ConnectionState::Authenticating,
            Stage::Refused(_) => ConnectionState::Authenticating,
            Stage::Awaiting => ConnectionState::Authenticating,
            Stage::Live { .. } => ConnectionState::Authenticated,
            Stage::Closed => ConnectionState::Closed,
        }
    }

    /// The user of a registered connection.
    pub fn user_id(&self) -> (user: Option<UserId>)
        ensures
            user == match self@ {
                StageView::Live { user_id, .. } => Some(user_id),
                _ => None,
            },
    {
        match &self.stage {
            Stage::Live { user_id, .. } => Some(*user_id),
            _ => None,
        }
    }

    /// The connection identifier of a registered connection.
    pub fn connection(&self) -> (id: Option<ConnectionId>)
        ensures
            id == match self@ {
                StageView::Live { connection, .. } => Some(connection),
                _ => None,
            },
    {
        match &self.stage {
            Stage::Live { connection, .. } => Some(*connection),
            _ => None,
        }
    }

    /// Registers the connection for `user_id` with a fresh channel.
    fn enter(&mut self, user_id: UserId, role: UserRole, registry: &mut Registry) -> (reaction:
        Reaction)
        ensures
            final(self)@ == (StageView::Live {
                user_id,
                role,
                connection: ConnectionId { value: old(registry).issued() },
            }),
            reaction@ == (ReactionView {
                reply: Some(success_view(user_id, role)),
                pong: None,
                close: false,
                opens_relay: true,
            }),
            final(registry)@.contains_key(user_id.value),
            final(registry)@[user_id.value].user_id == user_id,
            final(registry)@[user_id.value].role == role,
            final(registry)@[user_id.value].connection == (ConnectionId {
                value: old(registry).issued(),
            }),
            final(registry)@.remove(user_id.value) == old(registry)@.remove(user_id.value),
            final(registry).issued() == if old(registry).issued() < u64::MAX {
                (old(registry).issued() + 1) as u64
            } else {
                u64::MAX
            },
    {
        let (sender, receiver) = channel::open();
        let connection = registry.register(user_id, role, sender);
        self.stage = Stage::Live { user_id, role, connection };
        Reaction {
            reply: Some(authentication_success(user_id, role)),
            pong: None,
            close: false,
            outbound: Some(receiver),
        }
    }

    /// Closes the connection, which was never registered, and tells the
    /// client why.
    fn refuse(&mut self, failure: AuthenticationFailure) -> (reaction: Reaction)
        ensures
            final(self)@ == StageView::Closed,
            reaction@ == turn_away(failure).reaction,
    {
        self.stage = Stage::Closed;
        Reaction {
            reply: Some(authentication_error(failure)),
            pong: None,
            close: true,
            outbound: None,
        }
    }

    /// The connection has started: a connection whose credential was
    /// accepted is registered and welcomed, one whose credential was refused
    /// is told so and closed, and one without credentials waits for the
    /// client's first message.
    pub fn started(&mut self, registry: &mut Registry) -> (reaction: Reaction)
        ensures
            final(self)@ == start_step(old(self)@, old(registry).issued()).stage,
            reaction@ == start_step(old(self)@, old(registry).issued()).reaction,
            registry_follows(
                old(registry)@,
                final(registry)@,
                start_step(old(self)@, old(registry).issued()),
            ),
            final(registry).issued() == issued_after(
                old(registry).issued(),
                start_step(old(self)@, old(registry).issued()),
            ),
    {
        let identity = match &self.stage {
            Stage::Resolved(claims) => Some((claims.id, claims.role)),
            _ => None,
        };
        let failure = match &self.stage {
            Stage::Refused(failure) => Some(*failure),
            _ => None,
        };
        match identity {
            Some((user_id, role)) => self.enter(user_id, role, registry),
            None => match failure {
                Some(failure) => self.refuse(failure),
                None => Reaction::none(),
            },
        }
    }

    /// A text frame arrived that says `message`.
    pub fn handle_message(
        &mut self,
        message: ClientMessage,
        registry: &mut Registry,
        secret: &[u8],
        now: u64,
    ) -> (reaction: Reaction)
        ensures
            final(self)@ == message_step(
                old(self)@,
                message@,
                secret@,
                now,
                old(registry).issued(),
            ).stage,
            reaction@ == message_step(
                old(self)@,
                message@,
                secret@,
                now,
                old(registry).issued(),
            ).reaction,
            registry_follows(
                old(registry)@,
                final(registry)@,
                message_step(old(self)@, message@, secret@, now, old(registry).issued()),
            ),
            final(registry).issued() == issued_after(
                old(registry).issued(),
                message_step(old(self)@, message@, secret@, now, old(registry).issued()),
            ),
    {
        let closed = match &self.stage {
            Stage::Closed => true,
            _ => false,
        };
        let live = match &self.stage {
            Stage::Live { .. } => true,
            _ => false,
        };
        let awaiting = match &self.stage {
            Stage::Awaiting => true,
            _ => false,
        };
        if closed {
            return Reaction::none();
        }
        match message {
            ClientMessage::Malformed => Reaction::reply_with(error_envelope("Invalid message format")),
            ClientMessage::Application { kind: _ } => if live {
                Reaction::none()
            } else {
                Reaction::reply_with(error_envelope("Not authenticated"))
            },
            ClientMessage::Authenticate { token } => if live {
                Reaction::none()
            } else if awaiting {
                match token {
                    None => self.refuse(AuthenticationFailure::MissingCredential),
                    Some(token) => match authenticate(token.as_slice(), secret, now) {
                        Ok(claims) => self.enter(claims.id, claims.role, registry),
                        Err(failure) => self.refuse(failure),
                    },
                }
            } else {
                Reaction::reply_with(error_envelope("Not authenticated"))
            },
        }
    }

    /// A frame arrived, or the bytes that arrived were no frame.
    ///
    /// A ping is answered with a pong of the same payload. A close frame
    /// and a protocol error ask for the connection to be closed. A text
    /// frame is read as a client's message: one that is malformed is
    /// answered with an error envelope and the connection stays open; on a
    /// connection that awaits credentials an authenticate message is judged
    /// and the connection registered or closed, and any other message is
    /// answered with an error envelope. Other frames, and any frame on a
    /// closed connection, ask for nothing.
    pub fn handle(&mut self, frame: Frame, registry: &mut Registry, secret: &[u8], now: u64) -> (reaction:
        Reaction)
        ensures
            final(self)@ == frame_step(
                old(self)@,
                frame@,
                secret@,
                now,
                old(registry).issued(),
            ).stage,
            reaction@ == frame_step(
                old(self)@,
                frame@,
                secret@,
                now,
                old(registry).issued(),
            ).reaction,
            registry_follows(
                old(registry)@,
                final(registry)@,
                frame_step(old(self)@, frame@, secret@, now, old(registry).issued()),
            ),
            final(registry).issued() == issued_after(
                old(registry).issued(),
                frame_step(old(self)@, frame@, secret@, now, old(registry).issued()),
            ),
    {
        let closed = match &self.stage {
            Stage::Closed => true,
            _ => false,
        };
        match frame {
            Frame::Text(text) => {
                let message = read_client_message(text.as_str());
                self.handle_message(message, registry, secret, now)
            },
            Frame::Ping(payload) => if closed {
                Reaction::none()
            } else {
                Reaction { reply: None, pong: Some(payload), close: false, outbound: None }
            },
            Frame::Close => if closed {
                Reaction::none()
            } else {
                Reaction { reply: None, pong: None, close: true, outbound: None }
            },
            Frame::ProtocolError => if closed {
                Reaction::none()
            } else {
                Reaction { reply: None, pong: None, close: true, outbound: None }
            },
            _ => Reaction::none(),
        }
    }

    /// The time allowed for the client's first message has run out: a
    /// connection that still awaits credentials is told so and closed.
    pub fn grace_expired(&mut self) -> (reaction: Reaction)
        ensures
            final(self)@ == timeout_step(old(self)@).stage,
            reaction@ == timeout_step(old(self)@).reaction,
    {
        let awaiting = match &self.stage {
            Stage::Awaiting => true,
            _ => false,
        };
        if awaiting {
            self.refuse(AuthenticationFailure::MissingCredential)
        } else {
            Reaction::none()
        }
    }

    /// The connection is over, for whatever reason. A registered connection
    /// gives up its entry, unless a later connection of the same user has
    /// replaced it. Stopping again changes nothing.
    pub fn stopped(&mut self, registry: &mut Registry)
        ensures
            final(self)@ == StageView::Closed,
            final(registry)@ == torn_down(old(registry)@, old(self)@),
            final(registry).issued() == old(registry).issued(),
    {
        let held = match &self.stage {
            Stage::Live { user_id, role: _, connection } => Some((*user_id, *connection)),
            _ => None,
        };
        match held {
            Some((user_id, connection)) => {
                registry.unregister_connection(user_id, connection);
            },
            None => {},
        }
        self.stage = Stage::Closed;
    }
}

/// Tries the tokens offered in a protocol header, in order. `None` means
/// that no token was offered.
pub fn resolve_protocols(protocols: Option<&[u8]>, secret: &[u8], now: u64) -> (resolution: Option<
    Result<Claims, AuthenticationFailure>,
>)
    ensures
        resolution_view(resolution) == negotiated(
            tokens_offered(
                match protocols {
                    Some(header) => Some(header@),
                    None => None,
                },
            ),
            secret@,
            now,
        ),
{
    let tokens = match protocols {
        Some(header) => protocol_tokens(header),
        None => Vec::new(),
    };
    let ghost offered = views(tokens@);
    if tokens.len() == 0 {
        return None;
    }
    let mut first_failure = AuthenticationFailure::BadCredential;
    let mut i: usize = 0;
    assert(offered.skip(0) =~= offered);
    while i < tokens.len()
        invariant
            i <= tokens.len(),
            offered == views(tokens@),
            first_accepted(offered, secret@, now) == first_accepted(
                offered.skip(i as int),
                secret@,
                now,
            ),
            i > 0 ==> first_failure == failure_of(offered.first(), secret@, now),
            offered.len() > 0,
            offered == tokens_offered(
                match protocols {
                    Some(header) => Some(header@),
                    None => None,
                },
            ),
        decreases tokens.len() - i,
    {
        proof {
            let rest = offered.skip(i as int);
            assert(rest.drop_first() =~= offered.skip(i + 1));
        }
        match authenticate(tokens[i].as_slice(), secret, now) {
            Ok(claims) => {
                return Some(Ok(claims));
            },
            Err(failure) => {
                if i == 0 {
                    first_failure = failure;
                }
            },
        }
        i += 1;
    }
    Some(Err(first_failure))
}

/// Takes an upgrade request: makes its connection and resolves its
/// credentials.
///
/// `identity` is the identity that the request carries where it was
/// authenticated beforehand, `protocols` the value of its protocol header
/// where it has one, `secret` the shared signing secret and `now` the time
/// in seconds since the Unix epoch.
pub fn ws_connect(identity: Option<Claims>, protocols: Option<&[u8]>, secret: &[u8], now: u64) -> (session:
    WebSocketSession)
    ensures
        session@ == resolved(
            optional_view(identity),
            match protocols {
                Some(header) => Some(header@),
                None => None,
            },
            secret@,
            now,
        ),
{
    let mut session = WebSocketSession::new();
    session.resolve_credentials(identity, protocols, secret, now);
    session
}

/// A connection is registered only on the strength of an accepted
/// credential: at its start if the credential was resolved with the upgrade,
/// or on an authenticate message whose token is accepted while credentials
/// are awaited. No other step registers it.
pub proof fn law_registration_needs_a_credential(
    stage: StageView,
    frame: FrameView,
    secret: Seq<u8>,
    now: u64,
    issued: u64,
)
    ensures
        start_step(stage, issued).registers <==> stage is Resolved,
        frame_step(stage, frame, secret, now, issued).registers <==> {
            &&& stage is Awaiting
            &&& frame matches FrameView::Text(text)
            &&& client_message(text) matches ClientMessageView::Authenticate { token: Some(token) }
            &&& verdict(signed_claims(token, secret), now) is Ok
        },
        !timeout_step(stage).registers,
{
}

/// A step registers the connection exactly when it takes it to the
/// authenticated state from another, and the relay opens with that step
/// and no other.
pub proof fn law_registered_means_authenticated(
    stage: StageView,
    frame: FrameView,
    secret: Seq<u8>,
    now: u64,
    issued: u64,
)
    ensures
        ({
            let step = start_step(stage, issued);
            &&& step.registers <==> (step.stage.state() == ConnectionState::Authenticated
                && stage.state() != ConnectionState::Authenticated)
            &&& step.registers == step.reaction.opens_relay
        }),
        ({
            let step = frame_step(stage, frame, secret, now, issued);
            &&& step.registers <==> (step.stage.state() == ConnectionState::Authenticated
                && stage.state() != ConnectionState::Authenticated)
            &&& step.registers == step.reaction.opens_relay
        }),
{
}

/// A failed authentication closes the connection, tells the client, and
/// registers nothing.
pub proof fn law_failed_authentication_closes(
    stage: StageView,
    token: Option<Seq<u8>>,
    secret: Seq<u8>,
    now: u64,
    issued: u64,
)
    requires
        stage is Awaiting,
        token matches Some(t) ==> verdict(signed_claims(t, secret), now) is Err,
    ensures
        ({
            let step = message_step(
                stage,
                ClientMessageView::Authenticate { token },
                secret,
                now,
                issued,
            );
            &&& step.stage == StageView::Closed
            &&& !step.registers
            &&& step.reaction.close
            &&& step.reaction.reply is Some
        }),
{
}

/// A closed connection stays closed: no event moves it, asks for anything
/// or touches the registry, and its teardown removes nothing.
pub proof fn law_closed_is_final(
    frame: FrameView,
    identity: Option<ClaimsView>,
    protocols: Option<Seq<u8>>,
    secret: Seq<u8>,
    now: u64,
    issued: u64,
    entries: Map<u128, RegistryEntry>,
)
    ensures
        credentials_step(StageView::Closed, identity, protocols, secret, now) == StageView::Closed,
        start_step(StageView::Closed, issued) == stay(StageView::Closed),
        frame_step(StageView::Closed, frame, secret, now, issued) == stay(StageView::Closed),
        timeout_step(StageView::Closed) == stay(StageView::Closed),
        torn_down(entries, StageView::Closed) == entries,
{
}

/// After its teardown a connection has no entry of its own: the entry of
/// its user, if there is one, belongs to another connection.
pub proof fn law_teardown_leaves_no_entry(
    entries: Map<u128, RegistryEntry>,
    user_id: UserId,
    role: UserRole,
    connection: ConnectionId,
)
    ensures
        ({
            let after = torn_down(entries, StageView::Live { user_id, role, connection });
            after.contains_key(user_id.value) ==> after[user_id.value].connection != connection
        }),
{
}

} // verus!
