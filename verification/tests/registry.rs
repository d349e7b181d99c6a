use game_server::actor::{ActorMessage, SystemMessage};
use game_server::room::{PKState, RoomActorMessage};
use game_server::room_manager::RoomManager;
use game_server::session::SessionManager;

#[test]
fn sessions_register_and_unregister() {
    let mut sessions: SessionManager<&str> = SessionManager::new();
    assert_eq!(sessions.session_count(), 0);
    assert!(sessions.get_session(1).is_none());
    sessions.register(1, "one");
    sessions.register(2, "two");
    assert_eq!(sessions.session_count(), 2);
    assert_eq!(sessions.get_session(1), Some(&"one"));
    assert_eq!(sessions.get_session(2), Some(&"two"));
    sessions.unregister(1);
    assert!(sessions.get_session(1).is_none());
    assert_eq!(sessions.get_session(2), Some(&"two"));
    assert_eq!(sessions.session_count(), 1);
    sessions.unregister(1);
    assert_eq!(sessions.session_count(), 1);
}

#[test]
fn registering_again_replaces_the_handle() {
    let mut sessions: SessionManager<&str> = SessionManager::new();
    sessions.register(1, "stale");
    sessions.register(1, "fresh");
    assert_eq!(sessions.session_count(), 1);
    assert_eq!(sessions.get_session(1), Some(&"fresh"));
}

#[test]
fn a_message_to_an_absent_player_is_dropped() {
    let mut sessions: SessionManager<u8> = SessionManager::new();
    sessions.register(5, 50);
    assert!(sessions.send_message(6, ActorMessage::Disconnect).is_none());
    match sessions.send_message(5, ActorMessage::SystemNotification(SystemMessage::Escape(9))) {
        Some((handle, message)) => {
            assert_eq!(*handle, 50);
            assert!(matches!(
                message,
                ActorMessage::SystemNotification(SystemMessage::Escape(9))
            ));
        }
        None => panic!("the player is registered"),
    }
}

#[test]
fn player_ids_start_at_one_and_rise() {
    let mut sessions: SessionManager<u8> = SessionManager::new();
    assert_eq!(sessions.next_player_id(), 1);
    assert_eq!(sessions.allocate_player_id(), 1);
    assert_eq!(sessions.allocate_player_id(), 2);
    sessions.register(1, 0);
    sessions.unregister(1);
    assert_eq!(sessions.allocate_player_id(), 3);
    assert_eq!(sessions.next_player_id(), 4);
}

#[test]
fn rooms_get_rising_ids_that_are_not_used_again() {
    let mut rooms: RoomManager<&str> = RoomManager::new();
    assert_eq!(rooms.get_latest_room_id(), 0);
    assert_eq!(rooms.next_room_id(), 1);
    assert_eq!(rooms.room_count(), 0);
    let (first, _) = rooms.create_room([1, 2], "a", 0);
    let (second, _) = rooms.create_room([3, 4], "b", 0);
    assert_eq!((first, second), (1, 2));
    assert_eq!(rooms.get_latest_room_id(), 2);
    assert_eq!(rooms.room_count(), 2);
    assert!(rooms.remove_room(1).is_some());
    let (third, _) = rooms.create_room([5, 6], "c", 0);
    assert_eq!(third, 3);
    assert_eq!(rooms.get_latest_room_id(), 3);
    assert_eq!(rooms.room_count(), 2);
    assert!(rooms.get_room_sender(1).is_none());
    assert_eq!(rooms.get_room_sender(2), Some(&"b"));
    assert_eq!(rooms.get_room_sender(3), Some(&"c"));
}

#[test]
fn a_created_room_waits_for_the_teams_of_its_players() {
    let mut rooms: RoomManager<u8> = RoomManager::new();
    let (room_id, room) = rooms.create_room([7, 8], 1, 2_000);
    assert_eq!(room_id, 1);
    assert_eq!(room.room_id(), 1);
    assert_eq!(room.players(), [7, 8]);
    assert_eq!(room.game_state().pk_state, PKState::WaitingSpriteTeams { deadline: 62_000 });
}

#[test]
fn removing_a_room_hands_back_its_handle_with_close() {
    let mut rooms: RoomManager<&str> = RoomManager::new();
    rooms.create_room([1, 2], "a", 0);
    match rooms.remove_room(1) {
        Some((handle, message)) => {
            assert_eq!(handle, "a");
            assert!(matches!(message, RoomActorMessage::Close));
        }
        None => panic!("the room is open"),
    }
    assert!(rooms.get_room_sender(1).is_none());
    assert!(rooms.remove_room(1).is_none());
    assert!(rooms.remove_room(2).is_none());
    assert_eq!(rooms.room_count(), 0);
}

#[test]
fn room_count_is_created_less_removed() {
    let mut rooms: RoomManager<u8> = RoomManager::new();
    let mut created = 0usize;
    let mut removed = 0usize;
    for round in 0..5u64 {
        rooms.create_room([round, round + 1], 0, 0);
        rooms.create_room([round, round + 2], 0, 0);
        created += 2;
        if rooms.remove_room(round + 1).is_some() {
            removed += 1;
        }
        if rooms.remove_room(100 + round).is_some() {
            removed += 1;
        }
        assert_eq!(rooms.room_count(), created - removed);
    }
    assert_eq!((created, removed), (10, 5));
    for room_id in 1..=rooms.get_latest_room_id() {
        rooms.remove_room(room_id);
    }
    assert_eq!(rooms.room_count(), 0);
}
