//! A two-player pebbles game: a pool of pebbles shrinks as the human and an
//! automated opponent alternately remove between 1 and a configured maximum
//! per turn; whoever removes the last pebble wins.
//!
//! The crate holds the full decision logic: the move engine with its two
//! difficulty policies, the turn sequencer that validates and applies moves,
//! the store that owns the single live game, and a byte codec for state
//! snapshots. Randomness enters only as plain `u32` draws handed in by the
//! caller, so every path is deterministic in its arguments.

pub mod codec;
pub mod engine;
pub mod game;
pub mod sequencer;
pub mod store;
