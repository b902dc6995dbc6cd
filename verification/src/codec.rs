//! A byte codec for state snapshots: fixed little-endian layout — the
//! three counters as four bytes each, then one byte for the difficulty,
//! one for the first player, and one or two for the winner. Decoding
//! accepts exactly the encodings, so a snapshot survives a round trip
//! unchanged.

use vstd::prelude::*;
use vstd::bytes::{
    lemma_auto_spec_u32_to_from_le_bytes, spec_u32_from_le_bytes, spec_u32_to_le_bytes,
    u32_from_le_bytes, u32_to_le_bytes,
};
use vstd::slice::{slice_index_get, slice_subrange};
use crate::game::{DifficultyLevel, GameState, Player};

verus! {

/// One byte per difficulty policy.
pub open spec fn difficulty_byte(difficulty: DifficultyLevel) -> u8 {
    match difficulty {
        DifficultyLevel::Easy => 0u8,
        DifficultyLevel::Hard => 1u8,
    }
}

/// One byte per player.
pub open spec fn player_byte(player: Player) -> u8 {
    match player {
        Player::User => 0u8,
        Player::Program => 1u8,
    }
}

/// The winner field: a zero byte while the game is live, else a one byte
/// followed by the winning player's byte.
pub open spec fn winner_bytes(winner: Option<Player>) -> Seq<u8> {
    match winner {
        None => seq![0u8],
        Some(player) => seq![1u8, player_byte(player)],
    }
}

/// The encoding of a snapshot: 15 bytes for a live game, 16 once a winner
/// is recorded.
pub open spec fn encode_state_spec(g: GameState) -> Seq<u8> {
    spec_u32_to_le_bytes(g.pebbles_count) + spec_u32_to_le_bytes(g.max_pebbles_per_turn)
        + spec_u32_to_le_bytes(g.pebbles_remaining) + seq![difficulty_byte(g.difficulty)]
        + seq![player_byte(g.first_player)] + winner_bytes(g.winner)
}

/// The snapshot a byte string encodes, if any: `None` on any string that
/// is not exactly an encoding.
pub open spec fn decode_state_spec(bytes: Seq<u8>) -> Option<GameState> {
    if bytes.len() < 15 {
        None
    } else if !(bytes[12] == 0 || bytes[12] == 1) {
        None
    } else if !(bytes[13] == 0 || bytes[13] == 1) {
        None
    } else {
        let base = GameState {
            pebbles_count: spec_u32_from_le_bytes(bytes.subrange(0, 4)),
            max_pebbles_per_turn: spec_u32_from_le_bytes(bytes.subrange(4, 8)),
            pebbles_remaining: spec_u32_from_le_bytes(bytes.subrange(8, 12)),
            difficulty: if bytes[12] == 0 {
                DifficultyLevel::Easy
            } else {
                DifficultyLevel::Hard
            },
            first_player: if bytes[13] == 0 {
                Player::User
            } else {
                Player::Program
            },
            winner: None,
        };
        if bytes[14] == 0 {
            if bytes.len() == 15 {
                Some(base)
            } else {
                None
            }
        } else if bytes[14] == 1 && bytes.len() == 16 && (bytes[15] == 0 || bytes[15] == 1) {
            Some(
                GameState {
                    winner: Some(
                        if bytes[15] == 0 {
                            Player::User
                        } else {
                            Player::Program
                        },
                    ),
                    ..base
                },
            )
        } else {
            None
        }
    }
}

/// Serialize a snapshot.
pub fn encode_state(g: &GameState) -> (bytes: Vec<u8>)
    ensures
        bytes@ == encode_state_spec(*g),
{
    let mut bytes = u32_to_le_bytes(g.pebbles_count);
    let mut rest = u32_to_le_bytes(g.max_pebbles_per_turn);
    bytes.append(&mut rest);
    let mut rest = u32_to_le_bytes(g.pebbles_remaining);
    bytes.append(&mut rest);
    bytes.push(
        match g.difficulty {
            DifficultyLevel::Easy => 0u8,
            DifficultyLevel::Hard => 1u8,
        },
    );
    bytes.push(
        match g.first_player {
            Player::User => 0u8,
            Player::Program => 1u8,
        },
    );
    match g.winner {
        None => bytes.push(0u8),
        Some(player) => {
            bytes.push(1u8);
            bytes.push(
                match player {
                    Player::User => 0u8,
                    Player::Program => 1u8,
                },
            );
        },
    }
    proof {
        assert(bytes@ =~= encode_state_spec(*g));
    }
    bytes
}

/// Parse a snapshot; `None` on anything but an exact encoding.
pub fn decode_state(bytes: &[u8]) -> (r: Option<GameState>)
    ensures
        r == decode_state_spec(bytes@),
{
    if bytes.len() < 15 {
        return None;
    }
    let difficulty_code = *slice_index_get(bytes, 12);
    let first_player_code = *slice_index_get(bytes, 13);
    if difficulty_code > 1 || first_player_code > 1 {
        return None;
    }
    let pebbles_count = u32_from_le_bytes(slice_subrange(bytes, 0, 4));
    let max_pebbles_per_turn = u32_from_le_bytes(slice_subrange(bytes, 4, 8));
    let pebbles_remaining = u32_from_le_bytes(slice_subrange(bytes, 8, 12));
    let difficulty = if difficulty_code == 0 {
        DifficultyLevel::Easy
    } else {
        DifficultyLevel::Hard
    };
    let first_player = if first_player_code == 0 {
        Player::User
    } else {
        Player::Program
    };
    let winner_code = *slice_index_get(bytes, 14);
    let winner: Option<Player> = if winner_code == 0 {
        if bytes.len() != 15 {
            return None;
        }
        None
    } else if winner_code == 1 {
        if bytes.len() != 16 {
            return None;
        }
        let winner_player_code = *slice_index_get(bytes, 15);
        if winner_player_code == 0 {
            Some(Player::User)
        } else if winner_player_code == 1 {
            Some(Player::Program)
        } else {
            return None;
        }
    } else {
        return None;
    };
    Some(
        GameState {
            pebbles_count,
            max_pebbles_per_turn,
            pebbles_remaining,
            difficulty,
            first_player,
            winner,
        },
    )
}

/// Law: a snapshot serialized and deserialized reproduces identical field
/// values, for every snapshot.
pub proof fn lemma_state_round_trip(g: GameState)
    ensures
        decode_state_spec(encode_state_spec(g)) == Some(g),
{
    lemma_auto_spec_u32_to_from_le_bytes();
    let bytes = encode_state_spec(g);
    assert(bytes.subrange(0, 4) =~= spec_u32_to_le_bytes(g.pebbles_count));
    assert(bytes.subrange(4, 8) =~= spec_u32_to_le_bytes(g.max_pebbles_per_turn));
    assert(bytes.subrange(8, 12) =~= spec_u32_to_le_bytes(g.pebbles_remaining));
    assert(decode_state_spec(bytes) == Some(g));
}

/// Law: decoding accepts nothing but the encodings — whenever a byte
/// string decodes to a snapshot, it is that snapshot's encoding, byte for
/// byte.
pub proof fn lemma_decode_exact(bytes: Seq<u8>, g: GameState)
    requires
        decode_state_spec(bytes) == Some(g),
    ensures
        encode_state_spec(g) == bytes,
{
    lemma_auto_spec_u32_to_from_le_bytes();
    assert(bytes.subrange(0, 4).len() == 4);
    assert(bytes.subrange(4, 8).len() == 4);
    assert(bytes.subrange(8, 12).len() == 4);
    let encoded = encode_state_spec(g);
    assert forall|i: int| 0 <= i < encoded.len() implies encoded[i] == bytes[i] by {
        if i < 4 {
            assert(encoded[i] == spec_u32_to_le_bytes(g.pebbles_count)[i]);
            assert(bytes[i] == bytes.subrange(0, 4)[i]);
        } else if i < 8 {
            assert(encoded[i] == spec_u32_to_le_bytes(g.max_pebbles_per_turn)[i - 4]);
            assert(bytes[i] == bytes.subrange(4, 8)[i - 4]);
        } else if i < 12 {
            assert(encoded[i] == spec_u32_to_le_bytes(g.pebbles_remaining)[i - 8]);
            assert(bytes[i] == bytes.subrange(8, 12)[i - 8]);
        }
    }
    assert(encoded =~= bytes);
}

} // verus!
