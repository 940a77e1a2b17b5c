//! A small competitive mining game: a player and three scripted bots mine
//! gold over timed rounds, donate gold to win each round's ranking, and take
//! damage scaled by their rank. This crate holds the verified core: the miner
//! entity with its economy, the per-slot bot decision policies, and the round
//! lifecycle state machine with its end-of-round scoring.
//!
//! Everything time-related is driven by the caller: the simulation clock
//! advances only through explicit elapsed-milliseconds arguments, so a
//! front end reads a real clock and hands the core plain durations.
use vstd::prelude::*;

mod game_state;
mod miner;
mod pet;
mod policy;
mod ranking;

pub use game_state::{GameState, MainState, BOT_COUNT};
pub use miner::{Miner, MinerType};
pub use pet::Pet;
pub use policy::{FALLBACK_SHARE_MAX, FALLBACK_SHARE_MIN};

verus! {

/// Number of rounds after which a finished scoring pass ends the game.
pub const MAX_ROUNDS: usize = 15;

/// Length of one round, in milliseconds.
pub const ROUND_DURATION_MS: u64 = 60_000;

/// A round's final stretch begins at 80% of its duration; bots prioritise
/// donations over upgrades from this point on.
pub const END_OF_ROUND_THRESHOLD_MS: u64 = 48_000;

/// Health every miner starts with.
pub const STARTING_HEALTH: u32 = 10;

/// Highest reachable upgrade level for both the pickaxe and the mine.
pub const MAX_LEVEL: u8 = 4;

/// Gold granted to the player by the debug cheat.
pub const CHEAT_GOLD_AMOUNT: u64 = 1000;

/// Milliseconds skipped by the debug time-skip cheat.
pub const CHEAT_TIME_SKIP_MS: u64 = 10_000;

} // verus!
