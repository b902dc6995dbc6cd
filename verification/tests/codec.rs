use pebbles_game::codec::{decode_state, encode_state};
use pebbles_game::game::{DifficultyLevel, GameState, Player};

fn sample_live() -> GameState {
    GameState {
        pebbles_count: 10,
        max_pebbles_per_turn: 3,
        pebbles_remaining: 8,
        difficulty: DifficultyLevel::Easy,
        first_player: Player::Program,
        winner: None,
    }
}

fn sample_concluded() -> GameState {
    GameState {
        pebbles_count: 15,
        max_pebbles_per_turn: 4,
        pebbles_remaining: 0,
        difficulty: DifficultyLevel::Hard,
        first_player: Player::User,
        winner: Some(Player::Program),
    }
}

fn assert_same(a: &GameState, b: &GameState) {
    assert_eq!(a.pebbles_count, b.pebbles_count);
    assert_eq!(a.max_pebbles_per_turn, b.max_pebbles_per_turn);
    assert_eq!(a.pebbles_remaining, b.pebbles_remaining);
    assert_eq!(a.difficulty, b.difficulty);
    assert_eq!(a.first_player, b.first_player);
    assert_eq!(a.winner, b.winner);
}

#[test]
fn snapshot_round_trip_live() {
    let state = sample_live();
    let bytes = encode_state(&state);
    assert_eq!(bytes.len(), 15);
    let decoded = decode_state(&bytes).unwrap();
    assert_same(&state, &decoded);
}

#[test]
fn snapshot_round_trip_concluded() {
    let state = sample_concluded();
    let bytes = encode_state(&state);
    assert_eq!(bytes.len(), 16);
    let decoded = decode_state(&bytes).unwrap();
    assert_same(&state, &decoded);
}

#[test]
fn snapshot_round_trip_extreme_counters() {
    let state = GameState {
        pebbles_count: u32::MAX,
        max_pebbles_per_turn: u32::MAX,
        pebbles_remaining: 1,
        difficulty: DifficultyLevel::Hard,
        first_player: Player::Program,
        winner: Some(Player::User),
    };
    let bytes = encode_state(&state);
    let decoded = decode_state(&bytes).unwrap();
    assert_same(&state, &decoded);
}

#[test]
fn encoding_layout_is_fixed() {
    let bytes = encode_state(&sample_live());
    assert_eq!(&bytes[0..4], &[10, 0, 0, 0]);
    assert_eq!(&bytes[4..8], &[3, 0, 0, 0]);
    assert_eq!(&bytes[8..12], &[8, 0, 0, 0]);
    assert_eq!(&bytes[12..], &[0, 1, 0]);
}

#[test]
fn decode_rejects_malformed_bytes() {
    assert!(decode_state(&[]).is_none());
    assert!(decode_state(&[0u8; 14]).is_none());
    // A difficulty byte out of range.
    let mut bytes = encode_state(&sample_live());
    bytes[12] = 2;
    assert!(decode_state(&bytes).is_none());
    // A winner tag out of range.
    let mut bytes = encode_state(&sample_live());
    bytes[14] = 7;
    assert!(decode_state(&bytes).is_none());
    // A trailing byte after a live snapshot.
    let mut bytes = encode_state(&sample_live());
    bytes.push(0);
    assert!(decode_state(&bytes).is_none());
    // A concluded snapshot cut short.
    let mut bytes = encode_state(&sample_concluded());
    bytes.pop();
    assert!(decode_state(&bytes).is_none());
}
