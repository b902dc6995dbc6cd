//! The game store: owns the single live game instance. Absent until the
//! first initialization, then present and mutated in place by every
//! operation; a restart replaces the whole value in the same slot.

use vstd::prelude::*;
use crate::game::{GameError, GameState, PebblesAction, PebblesEvent, PebblesInit};
use crate::sequencer::{give_up, give_up_spec, restart, start_game, start_spec, turn_rejected, turn_spec, user_turn};

verus! {

/// Holds the one game. Every operation other than initialization fails
/// with `NotInitialized` while the slot is empty.
pub struct GameStore {
    pub game: Option<GameState>,
}

impl GameStore {
    /// The slot holds a game.
    pub open spec fn initialized(self) -> bool {
        self.game is Some
    }

    /// Well-formedness: whatever game the slot holds is valid.
    pub open spec fn wf(self) -> bool {
        self.game matches Some(g) ==> g.valid()
    }

    /// An empty store: no game yet.
    pub fn new() -> (store: GameStore)
        ensures
            store.game is None,
            store.wf(),
    {
        GameStore { game: None }
    }

    /// A read-only snapshot of the live game, or `NotInitialized`.
    pub fn state_snapshot(&self) -> (r: Result<GameState, GameError>)
        ensures
            self.game matches Some(g) ==> r == Ok::<GameState, GameError>(g),
            self.game is None ==> r == Err::<GameState, GameError>(GameError::NotInitialized),
    {
        match &self.game {
            Some(g) => Ok(*g),
            None => Err(GameError::NotInitialized),
        }
    }

    /// Create the first game in the slot. Valid only while the slot is
    /// empty; a rejected configuration leaves it empty.
    pub fn initialize(&mut self, init: PebblesInit, first_draw: u32, move_draw: u32) -> (r:
        Result<Vec<PebblesEvent>, GameError>)
        requires
            old(self).game is None,
        ensures
            final(self).wf(),
            (init.pebbles_count == 0 || init.max_pebbles_per_turn == 0) <==> (r matches Err(e)
                && e == GameError::InvalidConfiguration),
            (init.pebbles_count >= 1 && init.max_pebbles_per_turn >= 1) ==> r is Ok,
            r matches Err(e) ==> *final(self) == *old(self),
            r matches Ok(events) ==> ({
                &&& final(self).game == Some(start_spec(init, first_draw, move_draw).0)
                &&& events@ == start_spec(init, first_draw, move_draw).1
            }),
    {
        match start_game(init, first_draw, move_draw) {
            Ok((game, events)) => {
                self.game = Some(game);
                Ok(events)
            },
            Err(e) => Err(e),
        }
    }

    /// Dispatch one inbound action against the live game. `Turn` consumes
    /// `move_draw` for the automated reply; `Restart` consumes both draws.
    /// Every rejection leaves the store exactly as it was.
    pub fn handle_action(&mut self, action: PebblesAction, first_draw: u32, move_draw: u32) -> (r:
        Result<Vec<PebblesEvent>, GameError>)
        requires
            old(self).wf(),
        ensures
            final(self).wf(),
            old(self).game is None ==> (r matches Err(e) && e == GameError::NotInitialized
                && *final(self) == *old(self)),
            r matches Err(e) ==> *final(self) == *old(self),
            old(self).game matches Some(g) ==> match action {
                PebblesAction::Turn(pebbles) => {
                    &&& turn_rejected(g, pebbles) <==> (r matches Err(e) && e
                        == GameError::InvalidMove)
                    &&& !turn_rejected(g, pebbles) ==> (r matches Ok(events)
                        && final(self).game == Some(turn_spec(g, pebbles, move_draw).0)
                        && events@ == turn_spec(g, pebbles, move_draw).1)
                },
                PebblesAction::GiveUp => r matches Ok(events) && final(self).game == Some(
                    give_up_spec(g).0,
                ) && events@ == give_up_spec(g).1,
                PebblesAction::Restart { difficulty, pebbles_count, max_pebbles_per_turn } => {
                    let init = PebblesInit { difficulty, pebbles_count, max_pebbles_per_turn };
                    &&& (pebbles_count == 0 || max_pebbles_per_turn == 0) <==> (r matches Err(e)
                        && e == GameError::InvalidConfiguration)
                    &&& (pebbles_count >= 1 && max_pebbles_per_turn >= 1) ==> r is Ok
                    &&& r matches Ok(events) ==> (final(self).game == Some(
                        start_spec(init, first_draw, move_draw).0,
                    ) && events@ == start_spec(init, first_draw, move_draw).1)
                },
            },
    {
        let game = match &mut self.game {
            Some(game) => game,
            None => {
                return Err(GameError::NotInitialized);
            },
        };
        match action {
            PebblesAction::Turn(pebbles) => user_turn(game, pebbles, move_draw),
            PebblesAction::GiveUp => Ok(give_up(game)),
            PebblesAction::Restart { difficulty, pebbles_count, max_pebbles_per_turn } => restart(
                game,
                difficulty,
                pebbles_count,
                max_pebbles_per_turn,
                first_draw,
                move_draw,
            ),
        }
    }
}

} // verus!
