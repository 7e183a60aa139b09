//! A two-outcome wagering game played against a pooled house reserve.
//!
//! The crate holds the bet lifecycle and settlement rules only: opening a
//! wager against the reserve, binding it to a randomness request, turning the
//! fulfilled random value into an outcome, and paying out. Record storage,
//! the randomness source and the movement of funds are the caller's.

use vstd::prelude::*;

pub mod custody;
pub mod errors;
pub mod game;
pub mod laws;
pub mod outcome;
pub mod state;
pub mod treasury;

verus! {

/// Number of lamports in one SOL.
pub const LAMPORTS_PER_SOL: u64 = 1_000_000_000;

/// Smallest stake accepted: 0.05 SOL.
pub const MIN_BET: u64 = 5 * LAMPORTS_PER_SOL / 100;

/// Largest stake accepted: 10 SOL.
pub const MAX_BET: u64 = 10 * LAMPORTS_PER_SOL;

/// Seconds that must pass between two wagers in the same room.
pub const COOLDOWN_SECONDS: i64 = 30;

/// Longest room identifier accepted, in bytes.
pub const MAX_ROOM_ID_LEN: usize = 32;

/// What a winning side bet pays, as a multiple of the stake.
pub const SIDE_MULTIPLIER: u64 = 2;

/// What a winning tie bet pays, as a multiple of the stake.
pub const TIE_MULTIPLIER: u64 = 6;

/// Number of buckets a random value is reduced to.
pub const BUCKETS: u64 = 200;

/// Buckets below this bound are a tie.
pub const TIE_BOUND: u64 = 10;

/// Buckets from `TIE_BOUND` up to this bound are a win for the first side.
pub const OPTION1_BOUND: u64 = 105;

} // verus!
