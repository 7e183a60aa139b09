//! From a fulfilled random value to an outcome, and from an outcome to a payout.
//!
//! A random value is 32 bytes. While all of them are zero the value counts as
//! not yet fulfilled. Its first eight bytes, read as a little-endian integer
//! and reduced modulo `BUCKETS`, select the outcome: a tie below `TIE_BOUND`,
//! the first side below `OPTION1_BOUND`, the second side from there on. Only
//! the exact matching choice wins; a win pays `TIE_MULTIPLIER` times the stake
//! for a tie and `SIDE_MULTIPLIER` times the stake for a side.

use vstd::prelude::*;
use crate::state::{GameResult, PlayerChoice};
use crate::{BUCKETS, OPTION1_BOUND, SIDE_MULTIPLIER, TIE_BOUND, TIE_MULTIPLIER};

verus! {

/// The first eight bytes of `bytes`, read as a little-endian integer.
pub open spec fn low_u64(bytes: Seq<u8>) -> int
    recommends
        bytes.len() >= 8,
{
    bytes[0] + bytes[1] * 0x100 + bytes[2] * 0x1_0000 + bytes[3] * 0x100_0000 + bytes[4]
        * 0x1_0000_0000 + bytes[5] * 0x100_0000_0000 + bytes[6] * 0x1_0000_0000_0000 + bytes[7]
        * 0x100_0000_0000_0000
}

/// Whether every byte of `bytes` is zero.
pub open spec fn all_zero(bytes: Seq<u8>) -> bool {
    forall|i: int| 0 <= i < bytes.len() ==> bytes[i] == 0
}

/// Whether the randomness source has nothing to report yet: no value at all,
/// or the all-zero value.
pub open spec fn is_pending(randomness: Option<[u8; 32]>) -> bool {
    match randomness {
        None => true,
        Some(value) => all_zero(value@),
    }
}

/// The bucket a random integer falls into.
pub open spec fn bucket_of(r: int) -> int {
    r % (BUCKETS as int)
}

/// The outcome a bucket stands for.
pub open spec fn outcome_of_bucket(bucket: int) -> GameResult {
    if bucket < TIE_BOUND {
        GameResult::Tie
    } else if bucket < OPTION1_BOUND {
        GameResult::Option1Wins
    } else {
        GameResult::Option2Wins
    }
}

/// The outcome a fulfilled random value stands for.
pub open spec fn outcome_of(value: [u8; 32]) -> GameResult {
    outcome_of_bucket(bucket_of(low_u64(value@)))
}

/// What a winning bet on `choice` pays, as a multiple of the stake.
pub open spec fn payout_multiplier(choice: PlayerChoice) -> nat {
    match choice {
        PlayerChoice::Tie => TIE_MULTIPLIER as nat,
        _ => SIDE_MULTIPLIER as nat,
    }
}

/// What the treasury must hold before a stake on `choice` is accepted.
pub open spec fn required_reserve(amount: nat, choice: PlayerChoice) -> nat {
    amount * payout_multiplier(choice)
}

/// Whether a bet on `choice` wins under `outcome`.
pub open spec fn player_won(outcome: GameResult, choice: PlayerChoice) -> bool {
    match (outcome, choice) {
        (GameResult::Tie, PlayerChoice::Tie) => true,
        (GameResult::Option1Wins, PlayerChoice::Option1) => true,
        (GameResult::Option2Wins, PlayerChoice::Option2) => true,
        _ => false,
    }
}

/// What a stake of `amount` on `choice` is paid under `outcome`.
pub open spec fn payout_of(amount: nat, outcome: GameResult, choice: PlayerChoice) -> nat {
    if player_won(outcome, choice) {
        amount * payout_multiplier(choice)
    } else {
        0
    }
}

/// The reserve a stake requires is six times the stake for a tie bet and
/// twice the stake for a side bet.
pub proof fn lemma_required_reserve(amount: nat, choice: PlayerChoice)
    ensures
        choice == PlayerChoice::Tie ==> required_reserve(amount, choice) == 6 * amount,
        choice != PlayerChoice::Tie ==> required_reserve(amount, choice) == 2 * amount,
{
    let m = payout_multiplier(choice);
    if choice == PlayerChoice::Tie {
        assert(amount * m == 6 * amount) by (nonlinear_arith)
            requires
                m == 6,
        ;
    } else {
        assert(amount * m == 2 * amount) by (nonlinear_arith)
            requires
                m == 2,
        ;
    }
}

/// Reads the first eight bytes of a random value as a little-endian integer.
pub fn random_u64(value: &[u8; 32]) -> (r: u64)
    ensures
        r == low_u64(value@),
{
    let b0: u64 = value[0] as u64;
    let b1: u64 = value[1] as u64;
    let b2: u64 = value[2] as u64;
    let b3: u64 = value[3] as u64;
    let b4: u64 = value[4] as u64;
    let b5: u64 = value[5] as u64;
    let b6: u64 = value[6] as u64;
    let b7: u64 = value[7] as u64;
    b0 + b1 * 0x100 + b2 * 0x1_0000 + b3 * 0x100_0000 + b4 * 0x1_0000_0000 + b5
        * 0x100_0000_0000 + b6 * 0x1_0000_0000_0000 + b7 * 0x100_0000_0000_0000
}

/// The low-order half of a 64-byte random value: what a randomness source
/// that answers with 64 bytes hands to this crate.
pub fn low_half(value: &[u8; 64]) -> (low: [u8; 32])
    ensures
        low@ == value@.subrange(0, 32),
        low_u64(low@) == low_u64(value@),
{
    let mut low = [0u8; 32];
    let mut i: usize = 0;
    while i < 32
        invariant
            i <= 32,
            forall|j: int| 0 <= j < i ==> low@[j] == value@[j],
        decreases 32 - i,
    {
        low[i] = value[i];
        i += 1;
    }
    assert(low@ =~= value@.subrange(0, 32));
    low
}

/// Tells whether a random value is still the all-zero placeholder.
pub fn is_all_zero(value: &[u8; 32]) -> (r: bool)
    ensures
        r == all_zero(value@),
{
    let mut i: usize = 0;
    while i < 32
        invariant
            i <= 32,
            forall|j: int| 0 <= j < i ==> value@[j] == 0,
        decreases 32 - i,
    {
        if value[i] != 0 {
            return false;
        }
        i += 1;
    }
    true
}

/// The integer that decides the game, once the random value is fulfilled.
pub fn fulfilled_value(randomness: &Option<[u8; 32]>) -> (r: Option<u64>)
    ensures
        r is None <==> is_pending(*randomness),
        r matches Some(x) ==> randomness matches Some(value) && x == low_u64(value@),
{
    match randomness {
        None => None,
        Some(value) => {
            if is_all_zero(value) {
                None
            } else {
                Some(random_u64(value))
            }
        },
    }
}

/// Reduces a random integer to its bucket.
pub fn bucket(r: u64) -> (b: u64)
    ensures
        b == bucket_of(r as int),
        b < BUCKETS,
{
    r % BUCKETS
}

/// Maps a random integer to the outcome of the game.
pub fn game_result(r: u64) -> (outcome: GameResult)
    ensures
        outcome == outcome_of_bucket(bucket_of(r as int)),
{
    let b = bucket(r);
    if b < TIE_BOUND {
        GameResult::Tie
    } else if b < OPTION1_BOUND {
        GameResult::Option1Wins
    } else {
        GameResult::Option2Wins
    }
}

/// Tells whether a bet on `choice` wins under `outcome`.
pub fn has_won(outcome: GameResult, choice: PlayerChoice) -> (won: bool)
    ensures
        won == player_won(outcome, choice),
{
    match (outcome, choice) {
        (GameResult::Tie, PlayerChoice::Tie) => true,
        (GameResult::Option1Wins, PlayerChoice::Option1) => true,
        (GameResult::Option2Wins, PlayerChoice::Option2) => true,
        _ => false,
    }
}

/// The multiple of the stake that a winning bet on `choice` pays.
pub fn multiplier(choice: PlayerChoice) -> (m: u64)
    ensures
        m == payout_multiplier(choice),
{
    match choice {
        PlayerChoice::Tie => TIE_MULTIPLIER,
        _ => SIDE_MULTIPLIER,
    }
}

/// The balance the treasury must hold to accept `amount` on `choice`, or
/// `None` where that product does not fit in 64 bits.
pub fn reserve_needed(amount: u64, choice: PlayerChoice) -> (r: Option<u64>)
    ensures
        r is Some <==> required_reserve(amount as nat, choice) <= u64::MAX,
        r matches Some(needed) ==> needed == required_reserve(amount as nat, choice),
{
    amount.checked_mul(multiplier(choice))
}

/// The payout of a stake of `amount` on `choice` under `outcome`, or `None`
/// where it does not fit in 64 bits.
pub fn payout(amount: u64, outcome: GameResult, choice: PlayerChoice) -> (r: Option<u64>)
    ensures
        r is Some <==> payout_of(amount as nat, outcome, choice) <= u64::MAX,
        r matches Some(paid) ==> paid == payout_of(amount as nat, outcome, choice),
{
    if has_won(outcome, choice) {
        amount.checked_mul(multiplier(choice))
    } else {
        Some(0)
    }
}

} // verus!
