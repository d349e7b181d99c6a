use game_server::status::PlayerSession;

#[test]
fn session_new_keeps_its_arguments() {
    let session = PlayerSession::new(7, 3, 9);
    assert_eq!(session.player_id(), 7);
    assert_eq!(session.last_client_sequence(), 3);
    assert_eq!(session.server_sequence(), 9);
}

#[test]
fn session_default_is_all_zero() {
    let session = PlayerSession::default();
    assert_eq!(session.player_id(), 0);
    assert_eq!(session.last_client_sequence(), 0);
    assert_eq!(session.server_sequence(), 0);
}

#[test]
fn session_increments_count_by_one() {
    let mut session = PlayerSession::new(1, 0, 0);
    session.last_client_sequence_increment();
    session.last_client_sequence_increment();
    session.server_sequence_increment();
    assert_eq!(session.last_client_sequence(), 2);
    assert_eq!(session.server_sequence(), 1);
    assert_eq!(session.player_id(), 1);
}

#[test]
fn session_increment_reaches_the_last_number() {
    let mut session = PlayerSession::new(1, u64::MAX - 1, u64::MAX - 1);
    session.last_client_sequence_increment();
    session.server_sequence_increment();
    assert_eq!(session.last_client_sequence(), u64::MAX);
    assert_eq!(session.server_sequence(), u64::MAX);
}
