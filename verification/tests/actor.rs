use game_server::actor::{
    get_sprite_team, preset_sprite, ActorMessage, PlayerAction, PlayerActor, StatRolls,
    SystemMessage,
};
use game_server::events::ServerEvent;
use game_server::message::{ClientAction, ClientMessage, ClientPayload, RoomAction, ServerPayload};
use game_server::room::RoomActorMessage;
use game_server::room_manager::RoomManager;
use game_server::security::{genenrate_token, issue_token_at, validate_token};
use game_server::sprites::attributes::{Attribute, SkillType};
use game_server::sprites::Sprite;

fn client(sequence: u64, payload: ClientPayload) -> ActorMessage {
    ActorMessage::ClientMessage(ClientMessage { sequence, payload })
}

fn authenticated(sequence: u64, action: ClientAction) -> ActorMessage {
    client(
        sequence,
        ClientPayload::Authenticated { token: genenrate_token(1).unwrap(), action },
    )
}

fn enter(room_id: u64) -> ActorMessage {
    ActorMessage::SystemNotification(SystemMessage::EnterRoom {
        room_id,
        opponent_name: "Opponent".to_string(),
    })
}

fn assert_preset_team(team: &[Sprite]) {
    assert_eq!(team.len(), 6);
    for (i, sprite) in team.iter().enumerate() {
        assert_eq!(sprite.id, i as u64);
        assert_eq!(sprite.level, 100);
        assert_eq!(sprite.exp, 9999);
        assert_eq!(sprite.max_exp, 10000);
        assert!((350..=450).contains(&sprite.hp));
        assert_eq!(sprite.max_hp, sprite.hp);
        assert!((350..=400).contains(&sprite.phy_atk));
        assert!((240..=290).contains(&sprite.phy_def));
        assert!((340..=390).contains(&sprite.mag_atk));
        assert!((230..=280).contains(&sprite.mag_def));
        assert!((300..=400).contains(&sprite.speed));
        assert_eq!(sprite.skills.len(), 2);
        for (k, skill) in sprite.skills.iter().enumerate() {
            assert_eq!(skill.id, k as u64 + 1);
            assert_eq!(skill.name, "普通攻击");
            assert_eq!(skill.description, "普通物理攻击");
            assert!(matches!(skill.skill_type, SkillType::Physical));
            assert_eq!(skill.attribute, Attribute::Huo);
            assert_eq!((skill.pp, skill.max_pp, skill.power), (10, 10, 100));
            assert!(skill.special_effect.is_none());
            assert!(!skill.is_preemptive);
        }
    }
}

#[test]
fn a_preset_team_has_six_sprites_with_stats_in_their_bands() {
    for player_id in 0..20 {
        assert_preset_team(&get_sprite_team(player_id));
    }
}

#[test]
fn preset_teams_are_drawn_afresh() {
    let stats = |team: &[Sprite]| -> Vec<u16> {
        team.iter()
            .flat_map(|s| [s.hp, s.phy_atk, s.phy_def, s.mag_atk, s.mag_def, s.speed])
            .collect()
    };
    let first = stats(&get_sprite_team(1));
    let differs = (0..20).any(|_| stats(&get_sprite_team(1)) != first);
    assert!(differs);
}

#[test]
fn a_preset_sprite_takes_its_stats_from_the_rolls() {
    let rolls = StatRolls { hp: 0, phy_atk: 50, phy_def: 51, mag_atk: 101, mag_def: 255, speed: 255 };
    let sprite = preset_sprite(3, rolls);
    assert_eq!(sprite.id, 3);
    assert_eq!(sprite.hp, 350);
    assert_eq!(sprite.max_hp, 350);
    assert_eq!(sprite.phy_atk, 400);
    assert_eq!(sprite.phy_def, 240);
    assert_eq!(sprite.mag_atk, 390);
    assert_eq!(sprite.mag_def, 230);
    assert_eq!(sprite.speed, 353);
    let rolls = StatRolls { hp: 100, phy_atk: 0, phy_def: 0, mag_atk: 0, mag_def: 0, speed: 100 };
    let sprite = preset_sprite(0, rolls);
    assert_eq!(sprite.hp, 450);
    assert_eq!(sprite.speed, 400);
    let rolls = StatRolls { hp: 101, phy_atk: 0, phy_def: 0, mag_atk: 0, mag_def: 0, speed: 0 };
    assert_eq!(preset_sprite(0, rolls).hp, 350);
}

#[test]
fn a_new_actor_has_accepted_nothing_and_is_in_no_room() {
    let actor = PlayerActor::new(9);
    assert_eq!(actor.session().player_id(), 9);
    assert_eq!(actor.session().last_client_sequence(), 0);
    assert_eq!(actor.session().server_sequence(), 0);
    assert_eq!(actor.room_id(), None);
}

#[test]
fn only_the_next_sequence_number_is_accepted() {
    let mut actor = PlayerActor::new(1);
    assert!(!actor.check_client_sequence(0));
    assert!(!actor.check_client_sequence(2));
    assert_eq!(actor.session().last_client_sequence(), 0);
    assert!(actor.check_client_sequence(1));
    assert_eq!(actor.session().last_client_sequence(), 1);
    assert!(!actor.check_client_sequence(1));
    assert!(!actor.check_client_sequence(3));
    assert!(actor.check_client_sequence(2));
    assert!(actor.check_client_sequence(3));
    assert!(!actor.check_client_sequence(1));
    assert!(!actor.check_client_sequence(2));
    assert!(!actor.check_client_sequence(3));
    assert!(!actor.check_client_sequence(u64::MAX));
    assert_eq!(actor.session().last_client_sequence(), 3);
}

#[test]
fn a_replayed_message_is_dropped() {
    let rooms: RoomManager<u8> = RoomManager::new();
    let mut actor = PlayerActor::new(1);
    let chat = || ClientAction::Chat { content: "hi".to_string() };
    assert!(matches!(actor.run(authenticated(1, chat()), &rooms), PlayerAction::Publish(_)));
    assert!(matches!(actor.run(authenticated(1, chat()), &rooms), PlayerAction::Nothing));
    assert!(matches!(actor.run(authenticated(3, chat()), &rooms), PlayerAction::Nothing));
    assert!(matches!(actor.run(authenticated(0, chat()), &rooms), PlayerAction::Nothing));
    assert_eq!(actor.session().last_client_sequence(), 1);
    assert!(matches!(actor.run(authenticated(2, chat()), &rooms), PlayerAction::Publish(_)));
    assert_eq!(actor.session().last_client_sequence(), 2);
}

#[test]
fn a_login_frame_sent_twice_is_accepted_once() {
    let rooms: RoomManager<u8> = RoomManager::new();
    let mut actor = PlayerActor::new(1);
    let login = || ClientPayload::Login {
        username: "account".to_string(),
        password: "password".to_string(),
    };
    assert!(matches!(actor.run(client(1, login()), &rooms), PlayerAction::Nothing));
    assert_eq!(actor.session().last_client_sequence(), 1);
    assert!(matches!(actor.run(client(1, login()), &rooms), PlayerAction::Nothing));
    assert_eq!(actor.session().last_client_sequence(), 1);
}

#[test]
fn payloads_without_a_token_are_counted_and_ignored() {
    let rooms: RoomManager<u8> = RoomManager::new();
    let mut actor = PlayerActor::new(1);
    assert!(matches!(actor.run(client(1, ClientPayload::Ping), &rooms), PlayerAction::Nothing));
    assert!(matches!(actor.run(client(2, ClientPayload::Register), &rooms), PlayerAction::Nothing));
    assert_eq!(actor.session().last_client_sequence(), 2);
}

#[test]
fn chat_is_published_to_the_player_itself() {
    let rooms: RoomManager<u8> = RoomManager::new();
    let mut actor = PlayerActor::new(4);
    let answer = actor.run(authenticated(1, ClientAction::Chat { content: "hello".to_string() }), &rooms);
    match answer {
        PlayerAction::Publish(ServerEvent::SendMessageToPlayer {
            player_id,
            payload: ServerPayload::Chat { content },
        }) => {
            assert_eq!(player_id, 4);
            assert_eq!(content, "玩家 4 说: hello");
        }
        other => panic!("unexpected answer {:?}", other),
    }
}

#[test]
fn an_invalid_token_is_answered_with_auth_failed() {
    let rooms: RoomManager<u8> = RoomManager::new();
    let mut actor = PlayerActor::new(4);
    for (sequence, token) in [(1, "garbage".to_string()), (2, issue_token_at(4, 1_000).unwrap())] {
        let answer = actor.run(
            client(
                sequence,
                ClientPayload::Authenticated {
                    token,
                    action: ClientAction::Chat { content: "hello".to_string() },
                },
            ),
            &rooms,
        );
        assert!(matches!(
            answer,
            PlayerAction::Publish(ServerEvent::SendMessageToPlayer {
                player_id: 4,
                payload: ServerPayload::AuthFailed,
            })
        ));
    }
    assert_eq!(actor.session().last_client_sequence(), 2);
}

#[test]
fn dispatch_goes_by_the_verdict() {
    let rooms: RoomManager<u8> = RoomManager::new();
    let mut actor = PlayerActor::new(4);
    let good = validate_token(&genenrate_token(4).unwrap());
    assert!(good.is_ok());
    let answer = actor.dispatch(good, ClientAction::Move { x: 0, y: 0, z: 0 }, &rooms);
    assert!(matches!(answer, PlayerAction::Nothing));
    let bad = validate_token("no token");
    let answer = actor.dispatch(bad, ClientAction::Move { x: 0, y: 0, z: 0 }, &rooms);
    assert!(matches!(
        answer,
        PlayerAction::Publish(ServerEvent::SendMessageToPlayer {
            player_id: 4,
            payload: ServerPayload::AuthFailed,
        })
    ));
}

#[test]
fn a_team_request_is_answered_with_a_preset_team() {
    let rooms: RoomManager<u8> = RoomManager::new();
    let mut actor = PlayerActor::new(4);
    match actor.run(authenticated(1, ClientAction::SpriteTeamRequest), &rooms) {
        PlayerAction::Publish(ServerEvent::SendMessageToPlayer {
            player_id,
            payload: ServerPayload::SpriteTeam(team),
        }) => {
            assert_eq!(player_id, 4);
            assert_preset_team(&team);
        }
        other => panic!("unexpected answer {:?}", other),
    }
}

#[test]
fn a_move_is_ignored() {
    let rooms: RoomManager<u8> = RoomManager::new();
    let mut actor = PlayerActor::new(4);
    let answer = actor.run(authenticated(1, ClientAction::Move { x: 1, y: 2, z: 3 }), &rooms);
    assert!(matches!(answer, PlayerAction::Nothing));
    assert_eq!(actor.session().last_client_sequence(), 1);
}

#[test]
fn a_room_action_without_a_room_is_dropped() {
    let mut rooms: RoomManager<u8> = RoomManager::new();
    rooms.create_room([4, 5], 0, 0);
    let mut actor = PlayerActor::new(4);
    let attack = ClientAction::RoomAction(RoomAction::SkillAttack { player_id: 4, skill_id: 2 });
    assert!(matches!(actor.run(authenticated(1, attack), &rooms), PlayerAction::Nothing));
}

#[test]
fn a_room_action_goes_to_the_room_in_the_players_own_name() {
    let mut rooms: RoomManager<u8> = RoomManager::new();
    let (room_id, _) = rooms.create_room([4, 5], 0, 0);
    let mut actor = PlayerActor::new(4);
    actor.run(enter(room_id), &rooms);
    let cases = [
        (
            RoomAction::SkillAttack { player_id: 99, skill_id: 2 },
            RoomAction::SkillAttack { player_id: 4, skill_id: 2 },
        ),
        (
            RoomAction::SwitchSprite { player_id: 99, sprite_index: 3 },
            RoomAction::SwitchSprite { player_id: 4, sprite_index: 3 },
        ),
        (
            RoomAction::UseItem { player_id: 99, item_id: 8 },
            RoomAction::UseItem { player_id: 4, item_id: 8 },
        ),
        (RoomAction::Escape(99), RoomAction::Escape(4)),
        (RoomAction::CatchSprite, RoomAction::CatchSprite),
    ];
    for (sequence, (sent, expected)) in cases.into_iter().enumerate() {
        let answer = actor.run(authenticated(sequence as u64 + 1, ClientAction::RoomAction(sent)), &rooms);
        match answer {
            PlayerAction::SendToRoom {
                room_id: to,
                message: RoomActorMessage::RoomAction(forwarded),
                must_reach,
            } => {
                assert_eq!(to, room_id);
                assert!(!must_reach);
                assert_eq!(format!("{:?}", forwarded), format!("{:?}", expected));
            }
            other => panic!("unexpected answer {:?}", other),
        }
    }
}

#[test]
fn a_room_action_for_a_room_that_is_gone_is_dropped() {
    let mut rooms: RoomManager<u8> = RoomManager::new();
    let (room_id, _) = rooms.create_room([4, 5], 0, 0);
    let mut actor = PlayerActor::new(4);
    actor.run(enter(room_id), &rooms);
    rooms.remove_room(room_id);
    let attack = RoomAction::SkillAttack { player_id: 4, skill_id: 2 };
    let answer = actor.handle_room_action(attack, &rooms);
    assert!(matches!(answer, PlayerAction::Nothing));
    assert_eq!(actor.room_id(), Some(room_id));
}

#[test]
fn entering_a_room_sends_the_team_to_it() {
    let mut rooms: RoomManager<u8> = RoomManager::new();
    let (room_id, _) = rooms.create_room([4, 5], 0, 0);
    let mut actor = PlayerActor::new(4);
    match actor.run(enter(room_id), &rooms) {
        PlayerAction::SendToRoom {
            room_id: to,
            message: RoomActorMessage::SpriteTeam { player_id, sprite_team },
            must_reach,
        } => {
            assert_eq!(to, room_id);
            assert_eq!(player_id, 4);
            assert!(must_reach);
            assert_preset_team(&sprite_team);
        }
        other => panic!("unexpected answer {:?}", other),
    }
    assert_eq!(actor.room_id(), Some(room_id));
    assert_eq!(actor.session().last_client_sequence(), 0);
}

#[test]
fn entering_a_room_that_is_gone_is_remembered_and_sends_nothing() {
    let rooms: RoomManager<u8> = RoomManager::new();
    let mut actor = PlayerActor::new(4);
    assert!(matches!(actor.run(enter(12), &rooms), PlayerAction::Nothing));
    assert_eq!(actor.room_id(), Some(12));
}

#[test]
fn an_escape_notice_changes_nothing() {
    let rooms: RoomManager<u8> = RoomManager::new();
    let mut actor = PlayerActor::new(4);
    for fled in [4, 5] {
        let notice = ActorMessage::SystemNotification(SystemMessage::Escape(fled));
        assert!(matches!(actor.run(notice, &rooms), PlayerAction::Nothing));
    }
    assert_eq!(actor.room_id(), None);
}

#[test]
fn disconnect_unregisters_the_player() {
    let rooms: RoomManager<u8> = RoomManager::new();
    let mut actor = PlayerActor::new(4);
    assert!(matches!(
        actor.run(ActorMessage::Disconnect, &rooms),
        PlayerAction::Disconnect { player_id: 4 }
    ));
}

#[test]
fn acted_by_replaces_the_player() {
    let action = RoomAction::SkillAttack { player_id: 1, skill_id: 6 }.acted_by(2);
    assert!(matches!(action, RoomAction::SkillAttack { player_id: 2, skill_id: 6 }));
    assert!(matches!(RoomAction::Escape(1).acted_by(2), RoomAction::Escape(2)));
    assert!(matches!(RoomAction::CatchSprite.acted_by(2), RoomAction::CatchSprite));
}
