use pebbles_game::game::{DifficultyLevel, PebblesAction, PebblesInit, Player};
use pebbles_game::store::GameStore;

#[test]
fn test_pebbles_game() {
    let mut store = GameStore::new();

    // Initialize the game; the first draw is odd, so the program moves
    // first, and its Easy draw of 1 removes (1 % 3) + 1 == 2 pebbles.
    let init_data = PebblesInit {
        difficulty: DifficultyLevel::Easy,
        pebbles_count: 10,
        max_pebbles_per_turn: 3,
    };
    store.initialize(init_data, 1, 1).unwrap();

    // Check initial state
    let state = store.state_snapshot().expect("Failed to get state");
    assert_eq!(state.pebbles_count, 10);
    assert_eq!(state.max_pebbles_per_turn, 3);
    assert_eq!(state.pebbles_remaining, 8);
    assert_eq!(state.difficulty, DifficultyLevel::Easy);

    // User makes a move; the reply draw of 2 removes (2 % 3) + 1 == 3.
    let action = PebblesAction::Turn(2);
    store.handle_action(action, 0, 2).unwrap();

    // Check state after user's move
    let state = store.state_snapshot().expect("Failed to get state");
    assert_eq!(state.pebbles_remaining, 3);

    // User gives up
    let action = PebblesAction::GiveUp;
    store.handle_action(action, 0, 0).unwrap();

    // Check state after user gives up
    let state = store.state_snapshot().expect("Failed to get state");
    assert_eq!(state.winner, Some(Player::Program));

    // Restart the game; the even first draw hands the user the first move.
    let action = PebblesAction::Restart {
        difficulty: DifficultyLevel::Hard,
        pebbles_count: 15,
        max_pebbles_per_turn: 4,
    };
    store.handle_action(action, 0, 0).unwrap();

    // Check state after restart
    let state = store.state_snapshot().expect("Failed to get state");
    assert_eq!(state.pebbles_count, 15);
    assert_eq!(state.max_pebbles_per_turn, 4);
    assert_eq!(state.pebbles_remaining, 15);
    assert_eq!(state.difficulty, DifficultyLevel::Hard);
    assert_eq!(state.winner, None);
}
