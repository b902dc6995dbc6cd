//! The data model: difficulty policies, players, the live game state, the
//! inbound actions and outbound events, and the error taxonomy.

use vstd::prelude::*;

verus! {

/// Selects the move engine policy. Immutable for the life of one game;
/// only a restart changes it.
#[derive(Clone, Copy, Debug, PartialEq, Eq, Structural)]
pub enum DifficultyLevel {
    Easy,
    Hard,
}

/// One of the two sides: the human participant or the automated opponent.
#[derive(Clone, Copy, Debug, PartialEq, Eq, Structural)]
pub enum Player {
    User,
    Program,
}

/// Configuration delivered once to start the first game.
#[derive(Clone, Copy, Debug)]
pub struct PebblesInit {
    pub difficulty: DifficultyLevel,
    pub pebbles_count: u32,
    pub max_pebbles_per_turn: u32,
}

/// An inbound operation on a running game.
#[derive(Clone, Copy, Debug)]
pub enum PebblesAction {
    Turn(u32),
    GiveUp,
    Restart { difficulty: DifficultyLevel, pebbles_count: u32, max_pebbles_per_turn: u32 },
}

/// An outbound event: the automated opponent's move, or the end of the game.
#[derive(Clone, Copy, Debug, PartialEq, Eq, Structural)]
pub enum PebblesEvent {
    CounterTurn(u32),
    Won(Player),
}

/// Why an operation was rejected. Every rejection is atomic: the stored
/// game is left exactly as it was.
#[derive(Clone, Copy, Debug, PartialEq, Eq, Structural)]
pub enum GameError {
    /// `pebbles_count` or `max_pebbles_per_turn` was zero.
    InvalidConfiguration,
    /// A turn removed zero pebbles, more than the per-turn maximum, or was
    /// made after the game had concluded.
    InvalidMove,
    /// An operation other than initialization arrived before any game existed.
    NotInitialized,
    /// The move engine was invoked on an empty pool.
    InvalidEngineCall,
}

/// The single mutable game instance.
#[derive(Clone, Copy, Debug)]
pub struct GameState {
    /// The configured starting pool size; play never changes it.
    pub pebbles_count: u32,
    /// Upper bound (inclusive) on pebbles removable in one turn; at least 1.
    pub max_pebbles_per_turn: u32,
    /// The live counter: starts at `pebbles_count`, never increases, floor 0.
    pub pebbles_remaining: u32,
    pub difficulty: DifficultyLevel,
    /// Who moved first, recorded when the game was created.
    pub first_player: Player,
    /// `None` while the game is live; set when the pool empties or the
    /// human concedes.
    pub winner: Option<Player>,
}

impl GameState {
    /// Well-formedness: both configured counts are at least 1 and the pool
    /// never exceeds its starting size. Established at creation and kept by
    /// every operation.
    pub open spec fn valid(self) -> bool {
        &&& self.pebbles_count >= 1
        &&& self.max_pebbles_per_turn >= 1
        &&& self.pebbles_remaining <= self.pebbles_count
    }

    /// A game still in progress: no winner recorded yet.
    pub open spec fn live(self) -> bool {
        self.winner is None
    }
}

} // verus!
