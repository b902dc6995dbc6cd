//! The move engine: pure decision logic that picks how many pebbles the
//! automated opponent removes, under the Easy (random draw) or Hard
//! (residue strategy) policy.

use vstd::prelude::*;
use vstd::arithmetic::div_mod::{
    lemma_fundamental_div_mod, lemma_mod_bound, lemma_mod_multiples_vanish, lemma_small_mod,
};
use crate::game::{DifficultyLevel, GameError};

verus! {

/// The amount the Easy policy removes, given one random draw: uniform over
/// [1, max_pebbles_per_turn] when the draw is uniform.
pub open spec fn easy_move_spec(draw: u32, max_pebbles_per_turn: u32) -> u32
    recommends
        max_pebbles_per_turn >= 1,
{
    (draw as int % max_pebbles_per_turn as int + 1) as u32
}

/// The amount the Hard policy removes: the residue move
/// `(pebbles_remaining - 1) mod (max_pebbles_per_turn + 1)`, or 1 when that
/// residue is zero and the position offers no such move.
pub open spec fn hard_move_spec(pebbles_remaining: u32, max_pebbles_per_turn: u32) -> u32
    recommends
        pebbles_remaining >= 1,
        max_pebbles_per_turn >= 1,
{
    let winning_move = (pebbles_remaining as int - 1) % (max_pebbles_per_turn as int + 1);
    if winning_move == 0 {
        1u32
    } else {
        winning_move as u32
    }
}

/// The engine's choice under the given policy.
pub open spec fn chosen_move_spec(
    difficulty: DifficultyLevel,
    pebbles_remaining: u32,
    max_pebbles_per_turn: u32,
    draw: u32,
) -> u32 {
    match difficulty {
        DifficultyLevel::Easy => easy_move_spec(draw, max_pebbles_per_turn),
        DifficultyLevel::Hard => hard_move_spec(pebbles_remaining, max_pebbles_per_turn),
    }
}

/// The Easy policy's move, computed from one random draw.
pub fn easy_move(draw: u32, max_pebbles_per_turn: u32) -> (amount: u32)
    requires
        max_pebbles_per_turn >= 1,
    ensures
        amount == easy_move_spec(draw, max_pebbles_per_turn),
        1 <= amount <= max_pebbles_per_turn,
{
    proof {
        lemma_mod_bound(draw as int, max_pebbles_per_turn as int);
    }
    draw % max_pebbles_per_turn + 1
}

/// The Hard policy's move. The divisor `max_pebbles_per_turn + 1` is formed
/// in 64 bits so the bound may take any nonzero `u32` value.
pub fn hard_move(pebbles_remaining: u32, max_pebbles_per_turn: u32) -> (amount: u32)
    requires
        pebbles_remaining >= 1,
        max_pebbles_per_turn >= 1,
    ensures
        amount == hard_move_spec(pebbles_remaining, max_pebbles_per_turn),
        1 <= amount <= max_pebbles_per_turn,
{
    proof {
        lemma_mod_bound(pebbles_remaining as int - 1, max_pebbles_per_turn as int + 1);
    }
    let divisor: u64 = max_pebbles_per_turn as u64 + 1;
    let winning_move: u64 = (pebbles_remaining as u64 - 1) % divisor;
    if winning_move == 0 {
        1
    } else {
        winning_move as u32
    }
}

/// The move engine. Guards its own precondition: an empty pool is reported
/// as `InvalidEngineCall`, never turned into a move.
pub fn choose_move(
    difficulty: DifficultyLevel,
    pebbles_remaining: u32,
    max_pebbles_per_turn: u32,
    draw: u32,
) -> (r: Result<u32, GameError>)
    requires
        max_pebbles_per_turn >= 1,
    ensures
        pebbles_remaining == 0 ==> r == Err::<u32, GameError>(GameError::InvalidEngineCall),
        pebbles_remaining >= 1 ==> (r matches Ok(amount)
            && amount == chosen_move_spec(difficulty, pebbles_remaining, max_pebbles_per_turn, draw)
            && 1 <= amount <= max_pebbles_per_turn),
{
    if pebbles_remaining == 0 {
        Err(GameError::InvalidEngineCall)
    } else {
        match difficulty {
            DifficultyLevel::Easy => Ok(easy_move(draw, max_pebbles_per_turn)),
            DifficultyLevel::Hard => Ok(hard_move(pebbles_remaining, max_pebbles_per_turn)),
        }
    }
}

/// Law: on a nonempty pool the engine's choice always lies in
/// [1, max_pebbles_per_turn], under either policy.
pub proof fn lemma_chosen_move_bounds(
    difficulty: DifficultyLevel,
    pebbles_remaining: u32,
    max_pebbles_per_turn: u32,
    draw: u32,
)
    requires
        pebbles_remaining >= 1,
        max_pebbles_per_turn >= 1,
    ensures
        1 <= chosen_move_spec(difficulty, pebbles_remaining, max_pebbles_per_turn, draw)
            <= max_pebbles_per_turn,
{
    lemma_mod_bound(draw as int, max_pebbles_per_turn as int);
    lemma_mod_bound(pebbles_remaining as int - 1, max_pebbles_per_turn as int + 1);
}

/// Law: whenever the Hard position has a nonzero residue move, taking it
/// leaves the opponent on a pool congruent to 1 modulo
/// (max_pebbles_per_turn + 1) — the losing residue of this strategy.
pub proof fn lemma_hard_move_residue(pebbles_remaining: u32, max_pebbles_per_turn: u32)
    requires
        pebbles_remaining >= 1,
        max_pebbles_per_turn >= 1,
    ensures
        ({
            let p = hard_move_spec(pebbles_remaining, max_pebbles_per_turn);
            let m = max_pebbles_per_turn as int + 1;
            (pebbles_remaining as int - 1) % m != 0
                ==> (pebbles_remaining as int - p) % m == 1
        }),
{
    let n = pebbles_remaining as int;
    let m = max_pebbles_per_turn as int + 1;
    lemma_mod_bound(n - 1, m);
    if (n - 1) % m != 0 {
        let q = (n - 1) / m;
        lemma_fundamental_div_mod(n - 1, m);
        assert(n - hard_move_spec(pebbles_remaining, max_pebbles_per_turn) == m * q + 1);
        lemma_mod_multiples_vanish(q, 1, m);
        lemma_small_mod(1nat, m as nat);
    }
}

/// Law: every amount in [1, max_pebbles_per_turn] is the Easy move of some
/// draw — the draw one less than the amount yields exactly it.
pub proof fn lemma_easy_move_attains(max_pebbles_per_turn: u32, amount: u32)
    requires
        1 <= amount <= max_pebbles_per_turn,
    ensures
        easy_move_spec((amount - 1) as u32, max_pebbles_per_turn) == amount,
{
    lemma_small_mod((amount - 1) as nat, max_pebbles_per_turn as nat);
}

} // verus!
