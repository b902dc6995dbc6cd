use pebbles_game::engine::{choose_move, easy_move, hard_move};
use pebbles_game::game::{DifficultyLevel, GameError};

#[test]
fn easy_move_follows_the_draw() {
    // (draw % max) + 1, exactly.
    assert_eq!(easy_move(0, 3), 1);
    assert_eq!(easy_move(1, 3), 2);
    assert_eq!(easy_move(2, 3), 3);
    assert_eq!(easy_move(3, 3), 1);
    assert_eq!(easy_move(7, 1), 1);
    assert_eq!(easy_move(u32::MAX, 5), (u32::MAX % 5) + 1);
}

#[test]
fn easy_move_uniform_over_consecutive_draws() {
    // Over any block of draws that is a multiple of the bound long, every
    // amount in [1, max] comes up equally often.
    let max = 7u32;
    let mut counts = vec![0u32; (max + 1) as usize];
    for draw in 0..(max * 100) {
        let amount = easy_move(draw, max);
        assert!(1 <= amount && amount <= max);
        counts[amount as usize] += 1;
    }
    for amount in 1..=max {
        assert_eq!(counts[amount as usize], 100);
    }
}

#[test]
fn hard_move_takes_the_residue() {
    // winning_move = (remaining - 1) % (max + 1), taken when nonzero.
    assert_eq!(hard_move(7, 3), 2);
    assert_eq!(hard_move(15, 4), 4);
    assert_eq!(hard_move(10, 3), 1);
    assert_eq!(hard_move(2, 3), 1);
}

#[test]
fn hard_move_concedes_one_from_losing_residue() {
    // (remaining - 1) divisible by max + 1: no winning residue, take 1.
    assert_eq!(hard_move(1, 3), 1);
    assert_eq!(hard_move(5, 3), 1);
    assert_eq!(hard_move(9, 3), 1);
}

#[test]
fn hard_move_handles_the_largest_bound() {
    // The divisor max + 1 exceeds u32::MAX here; the move must still come
    // out as the plain residue.
    assert_eq!(hard_move(10, u32::MAX), 9);
    assert_eq!(hard_move(1, u32::MAX), 1);
}

#[test]
fn engine_rejects_an_empty_pool() {
    assert_eq!(
        choose_move(DifficultyLevel::Hard, 0, 3, 0),
        Err(GameError::InvalidEngineCall)
    );
    assert_eq!(
        choose_move(DifficultyLevel::Easy, 0, 3, 5),
        Err(GameError::InvalidEngineCall)
    );
}

#[test]
fn engine_dispatches_by_difficulty() {
    assert_eq!(choose_move(DifficultyLevel::Easy, 10, 3, 4), Ok(2));
    assert_eq!(choose_move(DifficultyLevel::Hard, 7, 3, 4), Ok(2));
}
