use game_server::actor::{ActorMessage, SystemMessage};
use game_server::coordinator::{CoordinatorStep, GameCoordinator};
use game_server::events::{BusDelivery, ServerEvent};
use game_server::room::{PKState, RoomActorMessage};
use game_server::room_manager::RoomManager;
use game_server::session::SessionManager;

fn invited(notification: &(u64, ActorMessage)) -> (u64, u64, String) {
    match &notification.1 {
        ActorMessage::SystemNotification(SystemMessage::EnterRoom { room_id, opponent_name }) => {
            (notification.0, *room_id, opponent_name.clone())
        }
        other => panic!("unexpected notification {:?}", other),
    }
}

#[test]
fn the_coordinator_answers_matches_and_closings() {
    let coordinator = GameCoordinator::new();
    assert!(matches!(
        coordinator.run(BusDelivery::Event(ServerEvent::MatchFound { players: [3, 4] })),
        CoordinatorStep::CreateRoom { players: [3, 4] }
    ));
    assert!(matches!(
        coordinator.run(BusDelivery::Event(ServerEvent::CloseRoom { room_id: 8 })),
        CoordinatorStep::CloseRoom { room_id: 8 }
    ));
    assert!(matches!(coordinator.run(BusDelivery::Closed), CoordinatorStep::Stop));
    assert!(matches!(coordinator.run(BusDelivery::Lagged(3)), CoordinatorStep::Idle));
    for event in [
        ServerEvent::PlayerReadyForMatchmaking { player_id: 3 },
        ServerEvent::RoomCreated { room_id: 3, players: [3, 4] },
        ServerEvent::RequestSpriteTeam { player_id: 3, room_id: 3 },
    ] {
        assert!(matches!(coordinator.run(BusDelivery::Event(event)), CoordinatorStep::Idle));
    }
}

#[test]
fn a_match_opens_a_room_and_invites_both_players() {
    let coordinator = GameCoordinator::new();
    let mut rooms: RoomManager<&str> = RoomManager::new();
    let mut sessions: SessionManager<u8> = SessionManager::new();
    sessions.register(3, 0);
    sessions.register(4, 0);
    let plan = coordinator.handle_match([3, 4], "room", &mut rooms, &sessions, 1_000);
    assert_eq!(plan.room_id, 1);
    assert_eq!(plan.room.room_id(), 1);
    assert_eq!(plan.room.players(), [3, 4]);
    assert_eq!(plan.room.game_state().pk_state, PKState::WaitingSpriteTeams { deadline: 61_000 });
    assert_eq!(rooms.room_count(), 1);
    assert_eq!(rooms.get_room_sender(1), Some(&"room"));
    let invitations: Vec<_> = plan.notifications.iter().map(invited).collect();
    assert_eq!(
        invitations,
        vec![(3, 1, "Opponent".to_string()), (4, 1, "Opponent".to_string())]
    );
    assert!(matches!(
        plan.announcement,
        ServerEvent::RoomCreated { room_id: 1, players: [3, 4] }
    ));
}

#[test]
fn a_player_who_is_gone_is_passed_over_and_the_room_is_opened() {
    let coordinator = GameCoordinator::new();
    let mut rooms: RoomManager<u8> = RoomManager::new();
    let mut sessions: SessionManager<u8> = SessionManager::new();
    sessions.register(4, 0);
    let plan = coordinator.handle_match([3, 4], 0, &mut rooms, &sessions, 0);
    assert_eq!(plan.notifications.iter().map(invited).map(|n| n.0).collect::<Vec<_>>(), vec![4]);
    assert_eq!(rooms.room_count(), 1);

    sessions.unregister(4);
    sessions.register(3, 0);
    let plan = coordinator.handle_match([3, 4], 0, &mut rooms, &sessions, 0);
    assert_eq!(plan.room_id, 2);
    assert_eq!(plan.notifications.iter().map(invited).map(|n| n.0).collect::<Vec<_>>(), vec![3]);

    sessions.unregister(3);
    let plan = coordinator.handle_match([3, 4], 0, &mut rooms, &sessions, 0);
    assert!(plan.notifications.is_empty());
    assert!(matches!(plan.announcement, ServerEvent::RoomCreated { room_id: 3, players: [3, 4] }));
    assert_eq!(rooms.room_count(), 3);
}

#[test]
fn closing_a_room_forgets_it_and_hands_back_close() {
    let coordinator = GameCoordinator::new();
    let mut rooms: RoomManager<&str> = RoomManager::new();
    let sessions: SessionManager<u8> = SessionManager::new();
    coordinator.handle_match([3, 4], "room", &mut rooms, &sessions, 0);
    match coordinator.handle_close_room(1, &mut rooms) {
        Some((handle, message)) => {
            assert_eq!(handle, "room");
            assert!(matches!(message, RoomActorMessage::Close));
        }
        None => panic!("the room is open"),
    }
    assert_eq!(rooms.room_count(), 0);
    assert!(coordinator.handle_close_room(1, &mut rooms).is_none());
    assert!(coordinator.handle_close_room(7, &mut rooms).is_none());
}
