use vstd::prelude::*;

use crate::actor::ActorMessage;
use crate::events::{BusDelivery, ServerEvent};
use crate::message::{ClientMessage, ClientPayload, ServerMessage, ServerPayload};
use crate::security::{genenrate_token, token_for, TokenError, TOKEN_VALIDITY_SECS};

verus! {

/// The capacity of an actor's mailbox, in messages. A sender waits while
/// the mailbox of the receiver is full, which holds fast senders back. Two
/// actors that wait on each other's full mailbox wait for ever: a
/// notification is therefore better dropped than waited for.
pub const MAILBOX_CAPACITY: usize = 128;

/// How long a new connection may take to log in, in seconds.
pub const AUTH_TIMEOUT_SECS: u64 = 10;

/// The id of the player that a login is answered with.
pub const LOGIN_PLAYER_ID: u64 = 1;

/// What the handler of a connection waits for: the next frame of the
/// client, or the next delivery from the bus.
#[derive(Debug, Clone)]
pub enum ConnectionEvent {
    /// A frame of the client, decoded.
    Frame(ClientMessage),
    /// The stream of the client failed, or held a frame that does not
    /// decode.
    FrameError,
    /// The client closed the stream.
    StreamClosed,
    Bus(BusDelivery),
}

/// What the handler of a connection is to do after an event.
#[derive(Debug, Clone)]
pub enum ConnectionAction {
    /// Put the message into the mailbox of the player's actor. A closed
    /// mailbox ends the connection with an error.
    ForwardToActor(ActorMessage),
    /// Write the message to the client.
    SendToClient(ServerMessage),
    /// Nothing; wait for the next event.
    Nothing,
    /// Leave the loop, put the message into the mailbox of the player's
    /// actor, and end.
    Disconnect(ActorMessage),
}

/// The message to the client that an event of the bus asks for: the
/// payload addressed to this player, under the sequence number 0. Events
/// for other players, and events of other kinds, ask for none.
pub fn handle_server_event(player_id: u64, server_event: ServerEvent) -> (message: Option<
    ServerMessage,
>)
    ensures
        message == match server_event {
            ServerEvent::SendMessageToPlayer { player_id: target, payload } if target
                == player_id => Some(ServerMessage { sequence: 0, payload }),
            _ => None,
        },
{
    match server_event {
        ServerEvent::SendMessageToPlayer { player_id: target_player_id, payload } => {
            if player_id == target_player_id {
                Some(ServerMessage { sequence: 0, payload })
            } else {
                None
            }
        },
        _ => None,
    }
}

/// What the handler of the connection of `player_id` does after an event.
/// Frames go to the player's actor; events of the bus for this player go
/// to the client; missed events are passed over; and the connection ends
/// when the stream fails or closes, or the bus is gone.
pub fn process(player_id: u64, event: ConnectionEvent) -> (action: ConnectionAction)
    ensures
        action == match event {
            ConnectionEvent::Frame(frame) => ConnectionAction::ForwardToActor(
                ActorMessage::ClientMessage(frame),
            ),
            ConnectionEvent::FrameError => ConnectionAction::Disconnect(ActorMessage::Disconnect),
            ConnectionEvent::StreamClosed => ConnectionAction::Disconnect(ActorMessage::Disconnect),
            ConnectionEvent::Bus(BusDelivery::Event(server_event)) => match server_event {
                ServerEvent::SendMessageToPlayer { player_id: target, payload } if target
                    == player_id => ConnectionAction::SendToClient(
                    ServerMessage { sequence: 0, payload },
                ),
                _ => ConnectionAction::Nothing,
            },
            ConnectionEvent::Bus(BusDelivery::Lagged(_)) => ConnectionAction::Nothing,
            ConnectionEvent::Bus(BusDelivery::Closed) => ConnectionAction::Disconnect(
                ActorMessage::Disconnect,
            ),
        },
{
    match event {
        ConnectionEvent::Frame(frame) => ConnectionAction::ForwardToActor(
            ActorMessage::ClientMessage(frame),
        ),
        ConnectionEvent::FrameError => ConnectionAction::Disconnect(ActorMessage::Disconnect),
        ConnectionEvent::StreamClosed => ConnectionAction::Disconnect(ActorMessage::Disconnect),
        ConnectionEvent::Bus(BusDelivery::Event(server_event)) => {
            match handle_server_event(player_id, server_event) {
                Some(message) => ConnectionAction::SendToClient(message),
                None => ConnectionAction::Nothing,
            }
        },
        ConnectionEvent::Bus(BusDelivery::Lagged(_)) => ConnectionAction::Nothing,
        ConnectionEvent::Bus(BusDelivery::Closed) => ConnectionAction::Disconnect(
            ActorMessage::Disconnect,
        ),
    }
}

/// What a connection that has not logged in yet waits for.
#[derive(Debug, Clone)]
pub enum AuthEvent {
    /// A frame of the client, decoded.
    Frame(ClientMessage),
    /// The stream of the client failed, or held a frame that does not
    /// decode.
    FrameError,
    /// The client closed the stream.
    StreamClosed,
    /// `AUTH_TIMEOUT_SECS` have passed since the connection was made.
    TimedOut,
}

/// Why a connection was given up before it logged in.
#[derive(Debug, Clone, Copy, PartialEq, Eq, Structural)]
pub enum AuthError {
    /// The stream failed.
    ReadFailed,
    /// The client closed the stream.
    ConnectionClosed,
    /// The client took too long.
    TimedOut,
    /// The login was right, but no token could be issued.
    Token(TokenError),
}

impl AuthError {
    /// The text of this error.
    pub fn message(&self) -> (text: String)
        ensures
            text@ == match self {
                AuthError::ReadFailed => "读取消息失败"@,
                AuthError::ConnectionClosed => "连接关闭"@,
                AuthError::TimedOut => "认证超时"@,
                AuthError::Token(_) => "生成token失败"@,
            },
    {
        match self {
            AuthError::ReadFailed => "读取消息失败".to_string(),
            AuthError::ConnectionClosed => "连接关闭".to_string(),
            AuthError::TimedOut => "认证超时".to_string(),
            AuthError::Token(_) => "生成token失败".to_string(),
        }
    }
}

/// What the handler of a connection is to do after an event before login.
#[derive(Debug, Clone)]
pub enum AuthStep {
    /// The client is logged in as `player_id`: write `reply` to it.
    Accepted { player_id: u64, reply: ServerMessage },
    /// The login failed: write `reply` to the client and wait for the
    /// next event.
    Refused { reply: ServerMessage },
    /// Give the connection up.
    Failed(AuthError),
}

/// Whether a name and a password are those of the one account.
pub open spec fn credentials_match(username: Seq<char>, password: Seq<char>) -> bool {
    username == "account"@ && password == "password"@
}

/// The reply to every frame that does not log in.
pub open spec fn login_failed() -> AuthStep {
    AuthStep::Refused { reply: ServerMessage { sequence: 0, payload: ServerPayload::LoginFailed } }
}

pub fn check_credentials(username: &String, password: &String) -> (right: bool)
    ensures
        right == credentials_match(username@, password@),
{
    let account = "account".to_string();
    let secret = "password".to_string();
    *username == account && *password == secret
}

/// The answer to a login with the right name and password, given what
/// issuing the token came to: with a token the client is logged in as
/// `LOGIN_PLAYER_ID` and sent the token; without one the connection is
/// given up.
pub fn login_reply(token: Result<String, TokenError>) -> (step: AuthStep)
    ensures
        step == match token {
            Ok(text) => AuthStep::Accepted {
                player_id: LOGIN_PLAYER_ID,
                reply: ServerMessage { sequence: 0, payload: ServerPayload::LoginSuccess(text) },
            },
            Err(e) => AuthStep::Failed(AuthError::Token(e)),
        },
{
    match token {
        Ok(text) => AuthStep::Accepted {
            player_id: LOGIN_PLAYER_ID,
            reply: ServerMessage { sequence: 0, payload: ServerPayload::LoginSuccess(text) },
        },
        Err(e) => AuthStep::Failed(AuthError::Token(e)),
    }
}

/// What the handler of a connection does after an event before login. A
/// login with the right name and password is answered with a token; any
/// other frame is answered with a refusal, and the client may try again;
/// a failed or closed stream, and the timeout, give the connection up.
pub fn authenticate(event: AuthEvent) -> (step: AuthStep)
    ensures
        match event {
            AuthEvent::Frame(frame) => match frame.payload {
                ClientPayload::Login { username, password } if credentials_match(
                    username@,
                    password@,
                ) => match step {
                    AuthStep::Accepted { player_id, reply } => {
                        &&& player_id == LOGIN_PLAYER_ID
                        &&& reply.sequence == 0
                        &&& reply.payload matches ServerPayload::LoginSuccess(text)
                        &&& exists|now: u64|
                            now + TOKEN_VALIDITY_SECS <= usize::MAX && text@ == #[trigger] token_for(
                                LOGIN_PLAYER_ID,
                                now,
                            )
                    },
                    AuthStep::Refused { .. } => false,
                    AuthStep::Failed(e) => e == AuthError::Token(TokenError::ExpiryOutOfRange),
                },
                _ => step == login_failed(),
            },
            AuthEvent::FrameError => step == AuthStep::Failed(AuthError::ReadFailed),
            AuthEvent::StreamClosed => step == AuthStep::Failed(AuthError::ConnectionClosed),
            AuthEvent::TimedOut => step == AuthStep::Failed(AuthError::TimedOut),
        },
{
    match event {
        AuthEvent::Frame(frame) => {
            match frame.payload {
                ClientPayload::Login { username, password } => {
                    if check_credentials(&username, &password) {
                        login_reply(genenrate_token(LOGIN_PLAYER_ID))
                    } else {
                        AuthStep::Refused {
                            reply: ServerMessage { sequence: 0, payload: ServerPayload::LoginFailed },
                        }
                    }
                },
                _ => AuthStep::Refused {
                    reply: ServerMessage { sequence: 0, payload: ServerPayload::LoginFailed },
                },
            }
        },
        AuthEvent::FrameError => AuthStep::Failed(AuthError::ReadFailed),
        AuthEvent::StreamClosed => AuthStep::Failed(AuthError::ConnectionClosed),
        AuthEvent::TimedOut => AuthStep::Failed(AuthError::TimedOut),
    }
}

} // verus!
