//! The turn sequencer: creates a game, validates and applies the human's
//! move, runs the automated opponent's turn, and handles concession and
//! restart. Each operation returns the events it emits, in order.

use vstd::prelude::*;
use crate::engine::{choose_move, chosen_move_spec};
use crate::game::{
    DifficultyLevel, GameError, GameState, PebblesAction, PebblesEvent, PebblesInit, Player,
};

verus! {

/// Which side moves first, decided by the parity of one random draw.
pub open spec fn first_player_spec(draw: u32) -> Player {
    if draw as int % 2 == 0 {
        Player::User
    } else {
        Player::Program
    }
}

/// Subtraction on the pool: saturates at zero, never underflows.
pub open spec fn pool_after_removal(pebbles_remaining: u32, amount: u32) -> u32 {
    if amount <= pebbles_remaining {
        (pebbles_remaining - amount) as u32
    } else {
        0u32
    }
}

/// A freshly constructed game: full pool, no winner.
pub open spec fn fresh_state(init: PebblesInit, first_player: Player) -> GameState {
    GameState {
        pebbles_count: init.pebbles_count,
        max_pebbles_per_turn: init.max_pebbles_per_turn,
        pebbles_remaining: init.pebbles_count,
        difficulty: init.difficulty,
        first_player,
        winner: None,
    }
}

/// The state after the automated opponent removes `amount` pebbles: the
/// pool shrinks (saturating), and an emptied pool concludes the game in the
/// program's favour.
pub open spec fn after_program_move(g: GameState, amount: u32) -> GameState {
    let remaining = pool_after_removal(g.pebbles_remaining, amount);
    GameState {
        pebbles_remaining: remaining,
        winner: if remaining == 0 {
            Some(Player::Program)
        } else {
            g.winner
        },
        ..g
    }
}

/// One full automated turn: the engine's choice applied to the pool,
/// paired with the events emitted — always a `CounterTurn`, followed by
/// `Won(Program)` exactly when the move empties the pool.
pub open spec fn program_turn_spec(g: GameState, draw: u32) -> (GameState, Seq<PebblesEvent>)
    recommends
        g.valid(),
        g.pebbles_remaining >= 1,
{
    let amount = chosen_move_spec(g.difficulty, g.pebbles_remaining, g.max_pebbles_per_turn, draw);
    let next = after_program_move(g, amount);
    let events = if next.pebbles_remaining == 0 {
        seq![PebblesEvent::CounterTurn(amount), PebblesEvent::Won(Player::Program)]
    } else {
        seq![PebblesEvent::CounterTurn(amount)]
    };
    (next, events)
}

/// Starting a game from the given configuration and two draws: the first
/// draw picks who begins; when the program begins it plays at once, before
/// the state becomes observable.
pub open spec fn start_spec(init: PebblesInit, first_draw: u32, move_draw: u32) -> (
    GameState,
    Seq<PebblesEvent>,
)
    recommends
        init.pebbles_count >= 1,
        init.max_pebbles_per_turn >= 1,
{
    let first_player = first_player_spec(first_draw);
    let g = fresh_state(init, first_player);
    if first_player == Player::Program {
        program_turn_spec(g, move_draw)
    } else {
        (g, Seq::<PebblesEvent>::empty())
    }
}

/// A human move is rejected when it removes nothing, removes more than the
/// per-turn maximum, or arrives after the game has concluded.
pub open spec fn turn_rejected(g: GameState, pebbles: u32) -> bool {
    pebbles == 0 || pebbles > g.max_pebbles_per_turn || g.winner is Some
}

/// The state after the human removes `pebbles`: the pool shrinks
/// (saturating), and an emptied pool concludes the game in the user's
/// favour.
pub open spec fn after_user_move(g: GameState, pebbles: u32) -> GameState {
    let remaining = pool_after_removal(g.pebbles_remaining, pebbles);
    GameState {
        pebbles_remaining: remaining,
        winner: if remaining == 0 {
            Some(Player::User)
        } else {
            g.winner
        },
        ..g
    }
}

/// One accepted human turn: the human's removal, then — unless the human
/// emptied the pool and won — the automated reply.
pub open spec fn turn_spec(g: GameState, pebbles: u32, draw: u32) -> (
    GameState,
    Seq<PebblesEvent>,
)
    recommends
        g.valid(),
        !turn_rejected(g, pebbles),
{
    let after_user = after_user_move(g, pebbles);
    if after_user.pebbles_remaining == 0 {
        (after_user, seq![PebblesEvent::Won(Player::User)])
    } else {
        program_turn_spec(after_user, draw)
    }
}

/// Concession: the program wins unconditionally; nothing else changes.
pub open spec fn give_up_spec(g: GameState) -> (GameState, Seq<PebblesEvent>) {
    (
        GameState { winner: Some(Player::Program), ..g },
        seq![PebblesEvent::Won(Player::Program)],
    )
}

/// Pick the first player from one random draw: even draws favour the user.
pub fn pick_first_player(draw: u32) -> (p: Player)
    ensures
        p == first_player_spec(draw),
{
    if draw % 2 == 0 {
        Player::User
    } else {
        Player::Program
    }
}

/// One automated turn, applied in place. Defensive: an empty pool is
/// reported as `InvalidEngineCall` and leaves the state untouched; callers
/// are expected to check for a win first and never hit it.
pub fn program_turn(game: &mut GameState, draw: u32) -> (r: Result<Vec<PebblesEvent>, GameError>)
    requires
        old(game).valid(),
    ensures
        final(game).valid(),
        old(game).pebbles_remaining == 0 ==> (r matches Err(e)
            && e == GameError::InvalidEngineCall && *final(game) == *old(game)),
        old(game).pebbles_remaining >= 1 ==> (r matches Ok(events)
            && *final(game) == program_turn_spec(*old(game), draw).0
            && events@ == program_turn_spec(*old(game), draw).1),
{
    let amount = match choose_move(
        game.difficulty,
        game.pebbles_remaining,
        game.max_pebbles_per_turn,
        draw,
    ) {
        Ok(amount) => amount,
        Err(e) => {
            return Err(e);
        },
    };
    game.pebbles_remaining = game.pebbles_remaining.saturating_sub(amount);
    let mut events: Vec<PebblesEvent> = Vec::new();
    events.push(PebblesEvent::CounterTurn(amount));
    if game.pebbles_remaining == 0 {
        game.winner = Some(Player::Program);
        events.push(PebblesEvent::Won(Player::Program));
    }
    Ok(events)
}

/// Start a game. Rejects a zero pool size or a zero per-turn maximum
/// before constructing anything; otherwise returns the fresh state — after
/// the program's immediate first move, when the first draw selects it —
/// together with the emitted events.
pub fn start_game(init: PebblesInit, first_draw: u32, move_draw: u32) -> (r: Result<
    (GameState, Vec<PebblesEvent>),
    GameError,
>)
    ensures
        (init.pebbles_count == 0 || init.max_pebbles_per_turn == 0) <==> (r matches Err(e)
            && e == GameError::InvalidConfiguration),
        (init.pebbles_count >= 1 && init.max_pebbles_per_turn >= 1) ==> r is Ok,
        r matches Ok(out) ==> out.0 == start_spec(init, first_draw, move_draw).0
            && out.1@ == start_spec(init, first_draw, move_draw).1 && out.0.valid(),
{
    if init.pebbles_count == 0 || init.max_pebbles_per_turn == 0 {
        return Err(GameError::InvalidConfiguration);
    }
    let first_player = pick_first_player(first_draw);
    let mut game = GameState {
        pebbles_count: init.pebbles_count,
        max_pebbles_per_turn: init.max_pebbles_per_turn,
        pebbles_remaining: init.pebbles_count,
        difficulty: init.difficulty,
        first_player,
        winner: None,
    };
    let mut events: Vec<PebblesEvent> = Vec::new();
    if matches!(first_player, Player::Program) {
        match program_turn(&mut game, move_draw) {
            Ok(mut turn_events) => {
                events.append(&mut turn_events);
            },
            Err(e) => {
                return Err(e);
            },
        }
    }
    Ok((game, events))
}

/// One human turn, applied in place. Rejections are atomic: the state is
/// left exactly as it was.
pub fn user_turn(game: &mut GameState, pebbles: u32, draw: u32) -> (r: Result<
    Vec<PebblesEvent>,
    GameError,
>)
    requires
        old(game).valid(),
    ensures
        final(game).valid(),
        turn_rejected(*old(game), pebbles) <==> (r matches Err(e) && e
            == GameError::InvalidMove),
        turn_rejected(*old(game), pebbles) ==> *final(game) == *old(game),
        !turn_rejected(*old(game), pebbles) ==> (r matches Ok(events)
            && *final(game) == turn_spec(*old(game), pebbles, draw).0
            && events@ == turn_spec(*old(game), pebbles, draw).1),
{
    if pebbles == 0 || pebbles > game.max_pebbles_per_turn || game.winner.is_some() {
        return Err(GameError::InvalidMove);
    }
    game.pebbles_remaining = game.pebbles_remaining.saturating_sub(pebbles);
    if game.pebbles_remaining == 0 {
        game.winner = Some(Player::User);
        let mut events: Vec<PebblesEvent> = Vec::new();
        events.push(PebblesEvent::Won(Player::User));
        Ok(events)
    } else {
        match program_turn(game, draw) {
            Ok(events) => Ok(events),
            Err(e) => Err(e),
        }
    }
}

/// Concession, applied in place: records the program as winner whatever
/// the position, and emits the one `Won(Program)` event.
pub fn give_up(game: &mut GameState) -> (events: Vec<PebblesEvent>)
    ensures
        *final(game) == give_up_spec(*old(game)).0,
        events@ == give_up_spec(*old(game)).1,
{
    game.winner = Some(Player::Program);
    let mut events: Vec<PebblesEvent> = Vec::new();
    events.push(PebblesEvent::Won(Player::Program));
    events
}

/// Restart, applied in place: validates the new configuration like a fresh
/// start, then replaces the whole state — new bounds, full pool, re-rolled
/// first player, no winner — and plays the program's immediate first move
/// when the re-roll selects it. Rejections are atomic.
pub fn restart(
    game: &mut GameState,
    difficulty: DifficultyLevel,
    pebbles_count: u32,
    max_pebbles_per_turn: u32,
    first_draw: u32,
    move_draw: u32,
) -> (r: Result<Vec<PebblesEvent>, GameError>)
    ensures
        final(game).valid() || *final(game) == *old(game),
        (pebbles_count == 0 || max_pebbles_per_turn == 0) <==> (r matches Err(e)
            && e == GameError::InvalidConfiguration),
        (pebbles_count >= 1 && max_pebbles_per_turn >= 1) ==> r is Ok,
        r matches Err(e) ==> *final(game) == *old(game),
        r matches Ok(events) ==> ({
            let init = PebblesInit { difficulty, pebbles_count, max_pebbles_per_turn };
            &&& *final(game) == start_spec(init, first_draw, move_draw).0
            &&& events@ == start_spec(init, first_draw, move_draw).1
            &&& final(game).valid()
        }),
{
    let init = PebblesInit { difficulty, pebbles_count, max_pebbles_per_turn };
    match start_game(init, first_draw, move_draw) {
        Ok((new_game, events)) => {
            *game = new_game;
            Ok(events)
        },
        Err(e) => Err(e),
    }
}

/// Law: play never grows the pool. An accepted turn — the human's removal
/// together with whatever automated reply follows — only takes pebbles
/// away; only a restart refills the pool.
pub proof fn lemma_pool_never_grows(g: GameState, pebbles: u32, draw: u32)
    requires
        g.valid(),
        !turn_rejected(g, pebbles),
    ensures
        turn_spec(g, pebbles, draw).0.pebbles_remaining <= g.pebbles_remaining,
{
}

/// Law: an accepted turn emits at most one `CounterTurn` and at most one
/// `Won`; when both appear the `CounterTurn` comes first, and a `Won`
/// standing alone is the user's.
pub proof fn lemma_turn_event_order(g: GameState, pebbles: u32, draw: u32)
    requires
        g.valid(),
        !turn_rejected(g, pebbles),
    ensures
        ({
            let events = turn_spec(g, pebbles, draw).1;
            &&& 1 <= events.len() <= 2
            &&& (events[0] is CounterTurn || events[0] == PebblesEvent::Won(Player::User))
            &&& events.len() == 2 ==> events[0] is CounterTurn && events[1]
                == PebblesEvent::Won(Player::Program)
        }),
{
}

/// Law: a start emits nothing when the user begins, and otherwise one
/// `CounterTurn`, followed by `Won(Program)` exactly when that first move
/// already empties the pool.
pub proof fn lemma_start_event_order(init: PebblesInit, first_draw: u32, move_draw: u32)
    requires
        init.pebbles_count >= 1,
        init.max_pebbles_per_turn >= 1,
    ensures
        ({
            let events = start_spec(init, first_draw, move_draw).1;
            &&& events.len() <= 2
            &&& first_player_spec(first_draw) == Player::User ==> events.len() == 0
            &&& events.len() >= 1 ==> events[0] is CounterTurn
            &&& events.len() == 2 ==> events[1] == PebblesEvent::Won(Player::Program)
        }),
{
}

/// Law: once a winner is recorded, no operation short of a restart
/// replaces it with a different one: a turn is rejected outright (and so,
/// by `user_turn`'s contract, leaves the state untouched), and a
/// concession over a program win records the very state it found. The one
/// exception, left out by the hypotheses, is a concession over a user win,
/// which re-records the program as winner.
pub proof fn lemma_winner_stable(g: GameState, action: PebblesAction)
    requires
        g.winner is Some,
        !(action matches PebblesAction::GiveUp && g.winner == Some(Player::User)),
    ensures
        action matches PebblesAction::Turn(pebbles) ==> turn_rejected(g, pebbles),
        action matches PebblesAction::GiveUp ==> give_up_spec(g).0 == g,
{
    if (action matches PebblesAction::GiveUp) {
        match g.winner {
            Some(Player::Program) => {
                assert(give_up_spec(g).0 == g);
            },
            Some(Player::User) => {
                assert(false);
            },
            None => {
                assert(false);
            },
        }
    }
}

/// Law: after a valid start, the pool equals the configured count less the
/// program's first move when the program begins, and the count itself when
/// the user begins; it never exceeds the count.
pub proof fn lemma_start_pool(init: PebblesInit, first_draw: u32, move_draw: u32)
    requires
        init.pebbles_count >= 1,
        init.max_pebbles_per_turn >= 1,
    ensures
        ({
            let g = start_spec(init, first_draw, move_draw).0;
            let first_move = chosen_move_spec(
                init.difficulty,
                init.pebbles_count,
                init.max_pebbles_per_turn,
                move_draw,
            );
            &&& first_player_spec(first_draw) == Player::User ==> g.pebbles_remaining
                == init.pebbles_count
            &&& first_player_spec(first_draw) == Player::Program ==> g.pebbles_remaining
                == pool_after_removal(init.pebbles_count, first_move)
            &&& g.pebbles_remaining <= init.pebbles_count
        }),
{
}

} // verus!
