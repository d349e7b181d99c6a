use game_server::actor::ActorMessage;
use game_server::connection::{
    authenticate, check_credentials, handle_server_event, login_reply, process, AuthError,
    AuthEvent, AuthStep, ConnectionAction, ConnectionEvent, AUTH_TIMEOUT_SECS, LOGIN_PLAYER_ID,
    MAILBOX_CAPACITY,
};
use game_server::events::{BusDelivery, ServerEvent};
use game_server::message::{ClientMessage, ClientPayload, ServerPayload};
use game_server::security::{validate_token, TokenError};

fn login(username: &str, password: &str) -> AuthEvent {
    AuthEvent::Frame(ClientMessage {
        sequence: 1,
        payload: ClientPayload::Login {
            username: username.to_string(),
            password: password.to_string(),
        },
    })
}

fn is_refused(step: &AuthStep) -> bool {
    match step {
        AuthStep::Refused { reply } => {
            reply.sequence == 0 && matches!(reply.payload, ServerPayload::LoginFailed)
        }
        _ => false,
    }
}

#[test]
fn the_limits_of_a_connection() {
    assert_eq!(MAILBOX_CAPACITY, 128);
    assert_eq!(AUTH_TIMEOUT_SECS, 10);
    assert_eq!(LOGIN_PLAYER_ID, 1);
}

#[test]
fn a_frame_goes_to_the_actor() {
    let frame = ClientMessage { sequence: 8, payload: ClientPayload::Ping };
    match process(3, ConnectionEvent::Frame(frame)) {
        ConnectionAction::ForwardToActor(ActorMessage::ClientMessage(message)) => {
            assert_eq!(message.sequence, 8);
            assert!(matches!(message.payload, ClientPayload::Ping));
        }
        other => panic!("unexpected action {:?}", other),
    }
}

#[test]
fn the_end_of_the_stream_disconnects() {
    for event in [
        ConnectionEvent::FrameError,
        ConnectionEvent::StreamClosed,
        ConnectionEvent::Bus(BusDelivery::Closed),
    ] {
        assert!(matches!(
            process(3, event),
            ConnectionAction::Disconnect(ActorMessage::Disconnect)
        ));
    }
}

#[test]
fn missed_events_are_passed_over() {
    assert!(matches!(
        process(3, ConnectionEvent::Bus(BusDelivery::Lagged(40))),
        ConnectionAction::Nothing
    ));
}

#[test]
fn an_event_for_this_player_goes_to_the_client() {
    let event = ServerEvent::SendMessageToPlayer {
        player_id: 3,
        payload: ServerPayload::Chat { content: "x".to_string() },
    };
    match process(3, ConnectionEvent::Bus(BusDelivery::Event(event.clone()))) {
        ConnectionAction::SendToClient(message) => {
            assert_eq!(message.sequence, 0);
            assert!(matches!(message.payload, ServerPayload::Chat { content } if content == "x"));
        }
        other => panic!("unexpected action {:?}", other),
    }
    let message = handle_server_event(3, event).unwrap();
    assert_eq!(message.sequence, 0);
    assert!(matches!(message.payload, ServerPayload::Chat { content } if content == "x"));
}

#[test]
fn events_for_others_are_passed_over() {
    let for_another = ServerEvent::SendMessageToPlayer { player_id: 4, payload: ServerPayload::Pong };
    assert!(handle_server_event(3, for_another.clone()).is_none());
    assert!(matches!(
        process(3, ConnectionEvent::Bus(BusDelivery::Event(for_another))),
        ConnectionAction::Nothing
    ));
    for event in [
        ServerEvent::PlayerReadyForMatchmaking { player_id: 3 },
        ServerEvent::MatchFound { players: [3, 4] },
        ServerEvent::RoomCreated { room_id: 3, players: [3, 4] },
        ServerEvent::CloseRoom { room_id: 3 },
        ServerEvent::RequestSpriteTeam { player_id: 3, room_id: 3 },
    ] {
        assert!(handle_server_event(3, event.clone()).is_none());
        assert!(matches!(
            process(3, ConnectionEvent::Bus(BusDelivery::Event(event))),
            ConnectionAction::Nothing
        ));
    }
}

#[test]
fn the_right_login_is_answered_with_a_valid_token() {
    match authenticate(login("account", "password")) {
        AuthStep::Accepted { player_id, reply } => {
            assert_eq!(player_id, 1);
            assert_eq!(reply.sequence, 0);
            match reply.payload {
                ServerPayload::LoginSuccess(token) => {
                    assert_eq!(validate_token(&token).unwrap().sub(), 1);
                }
                other => panic!("unexpected payload {:?}", other),
            }
        }
        other => panic!("unexpected step {:?}", other),
    }
}

#[test]
fn a_wrong_login_is_refused_and_may_be_tried_again() {
    assert!(is_refused(&authenticate(login("account", "wrong"))));
    assert!(is_refused(&authenticate(login("someone", "password"))));
    assert!(is_refused(&authenticate(login("", ""))));
    assert!(is_refused(&authenticate(login("password", "account"))));
    assert!(is_refused(&authenticate(login("account ", "password"))));
}

#[test]
fn a_frame_that_is_no_login_is_refused() {
    for payload in [ClientPayload::Ping, ClientPayload::Register] {
        let event = AuthEvent::Frame(ClientMessage { sequence: 1, payload });
        assert!(is_refused(&authenticate(event)));
    }
}

#[test]
fn a_connection_that_fails_before_login_is_given_up() {
    assert!(matches!(
        authenticate(AuthEvent::FrameError),
        AuthStep::Failed(AuthError::ReadFailed)
    ));
    assert!(matches!(
        authenticate(AuthEvent::StreamClosed),
        AuthStep::Failed(AuthError::ConnectionClosed)
    ));
    assert!(matches!(authenticate(AuthEvent::TimedOut), AuthStep::Failed(AuthError::TimedOut)));
}

#[test]
fn credentials_are_compared_whole() {
    assert!(check_credentials(&"account".to_string(), &"password".to_string()));
    assert!(!check_credentials(&"Account".to_string(), &"password".to_string()));
    assert!(!check_credentials(&"account".to_string(), &"passwor".to_string()));
}

#[test]
fn the_login_reply_goes_by_the_token() {
    match login_reply(Ok("abc".to_string())) {
        AuthStep::Accepted { player_id, reply } => {
            assert_eq!(player_id, 1);
            assert_eq!(reply.sequence, 0);
            assert!(matches!(reply.payload, ServerPayload::LoginSuccess(token) if token == "abc"));
        }
        other => panic!("unexpected step {:?}", other),
    }
    assert!(matches!(
        login_reply(Err(TokenError::SigningFailed)),
        AuthStep::Failed(AuthError::Token(TokenError::SigningFailed))
    ));
    assert!(matches!(
        login_reply(Err(TokenError::ExpiryOutOfRange)),
        AuthStep::Failed(AuthError::Token(TokenError::ExpiryOutOfRange))
    ));
}

#[test]
fn auth_errors_have_their_texts() {
    assert_eq!(AuthError::ReadFailed.message(), "读取消息失败");
    assert_eq!(AuthError::ConnectionClosed.message(), "连接关闭");
    assert_eq!(AuthError::TimedOut.message(), "认证超时");
    assert_eq!(AuthError::Token(TokenError::SigningFailed).message(), "生成token失败");
}
