use game_lib::game::GameSession;
use game_lib::{GRAVITY, JUMP_VELOCITY, MAX_VELOCITY, RECT_INTERVAL, UPDATE_INTERVAL};

#[test]
fn test_physics_constants() {
    assert!(GRAVITY > 0, "Gravity should be positive");
    assert!(JUMP_VELOCITY < 0, "Jump velocity should be negative (upward)");
    assert!(UPDATE_INTERVAL > 0, "Update interval should be positive");
    assert!(MAX_VELOCITY > GRAVITY, "Max velocity should be greater than gravity");
}

#[test]
fn test_constant_values() {
    assert_eq!(GRAVITY, 1);
    assert_eq!(JUMP_VELOCITY, -3);
    assert_eq!(UPDATE_INTERVAL, 1);
    assert_eq!(MAX_VELOCITY, 8);
    assert_eq!(RECT_INTERVAL, 1000);
}

#[test]
fn test_new_game_session() {
    let session = GameSession::new();
    assert_eq!(session.get_level(), 1);
    assert!(!session.is_running());
}

#[test]
fn test_game_state_transitions() {
    let mut session = GameSession::new();
    assert!(!session.is_running());

    session.start();
    assert!(session.is_running());

    session.end();
    assert!(!session.is_running());
}

#[test]
fn test_level_progression() {
    let mut session = GameSession::new();
    assert_eq!(session.get_level(), 1);

    session.increase_level();
    assert_eq!(session.get_level(), 2);

    // Test multiple level increases
    for _ in 0..5 {
        session.increase_level();
    }
    assert_eq!(session.get_level(), 7);
}

#[test]
fn test_new_session_has_no_score() {
    let session = GameSession::new();
    assert_eq!(session.get_score(), 0);
}

#[test]
fn test_score_counts_up() {
    let mut session = GameSession::new();
    session.start();
    session.increase_score();
    session.increase_score();
    session.increase_score();
    assert_eq!(session.get_score(), 3);
    assert_eq!(session.get_level(), 1);
}

#[test]
fn test_start_resets_score_and_level() {
    let mut session = GameSession::new();
    session.start();
    session.increase_score();
    session.increase_level();
    session.end();
    assert_eq!(session.get_score(), 1);
    assert_eq!(session.get_level(), 2);

    session.start();
    assert!(session.is_running());
    assert_eq!(session.get_score(), 0);
    assert_eq!(session.get_level(), 1);
}

#[test]
fn test_session_can_score() {
    let mut session = GameSession::new();
    session.start();
    assert!(session.can_score());
    for _ in 0..4 {
        session.increase_score();
        assert!(session.can_score());
    }
    assert_eq!(session.get_score(), 4);

    // At the highest level the point that would bring a level cannot be
    // taken; any other point can.
    for _ in 0..(u16::MAX - 1) {
        session.increase_level();
    }
    assert_eq!(session.get_level(), u16::MAX);
    assert!(!session.can_score());
    session.increase_score();
    assert_eq!(session.get_score(), 5);
    assert!(session.can_score());
}
