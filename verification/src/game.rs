//! The lifecycle of a wager: escrow, commit and settle.
//!
//! A wager moves `Waiting -> Processing -> Finished` and never back. Opening
//! it credits the stake to the treasury; `request_outcome` binds it to a
//! randomness request; settling it reads the fulfilled random value, fixes the
//! outcome and debits the payout. Opening and committing can be done in one
//! step (`create_and_play_coinflip`), and settling can be done in one step
//! (`resolve_outcome`) or in two (`finalize_game`, then `claim_rewards`).
//!
//! Every operation validates before it writes: on an error the treasury and
//! the wager are left exactly as they were.

use vstd::prelude::*;
use crate::errors::{
    CoinflipError,
    ConstraintError,
    GameError,
    HouseError,
    InvalidAmount,
    InvalidInput,
    ProgramError,
    RateLimitError,
    StillProcessing,
};
use crate::outcome::{
    fulfilled_value,
    game_result,
    has_won,
    is_pending,
    lemma_required_reserve,
    outcome_of,
    payout,
    payout_of,
    player_won,
    required_reserve,
    reserve_needed,
};
use crate::state::{
    same_identity,
    Coinflip,
    GameResult,
    HouseTreasury,
    PlayerChoice,
    Status,
    TreasuryView,
    WagerView,
};
use crate::{COOLDOWN_SECONDS, MAX_BET, MAX_ROOM_ID_LEN, MIN_BET};

verus! {

/// Why `open_wager` refuses, if it does. `prior` is the wager that the room
/// held last, if it ever held one; `room_len` is the length of the room
/// identifier in bytes.
pub open spec fn open_wager_rejection(
    house: TreasuryView,
    prior: Option<WagerView>,
    room_len: nat,
    amount: nat,
    choice: PlayerChoice,
    now: int,
) -> Option<CoinflipError> {
    if house.paused {
        Some(CoinflipError::Program(ProgramError::ProgramPaused))
    } else if amount < MIN_BET {
        Some(CoinflipError::InvalidAmount(InvalidAmount::TooLow))
    } else if amount > MAX_BET {
        Some(CoinflipError::InvalidAmount(InvalidAmount::TooHigh))
    } else if room_len > MAX_ROOM_ID_LEN {
        Some(CoinflipError::InvalidInput(InvalidInput::RoomIdTooLong))
    } else if prior matches Some(p) && now - p.last_play_time < COOLDOWN_SECONDS {
        Some(CoinflipError::RateLimit(RateLimitError::TooManyRequests))
    } else if prior matches Some(p) && p.is_live() {
        Some(CoinflipError::Constraint(ConstraintError::RoomOccupied))
    } else if house.balance < required_reserve(amount, choice) {
        Some(CoinflipError::House(HouseError::InsufficientFunds))
    } else if house.balance + amount > u64::MAX {
        Some(CoinflipError::Program(ProgramError::ArithmeticOverflow))
    } else {
        None
    }
}

/// The wager that a room held last, as a mathematical value.
pub open spec fn prior_view(prior: Option<&Coinflip>) -> Option<WagerView> {
    match prior {
        Some(p) => Some(p@),
        None => None,
    }
}

/// Why `request_outcome` refuses, if it does.
pub open spec fn request_outcome_rejection(
    house: TreasuryView,
    coinflip: WagerView,
    caller: Seq<u8>,
) -> Option<CoinflipError> {
    if house.paused {
        Some(CoinflipError::Program(ProgramError::ProgramPaused))
    } else if caller != coinflip.player {
        Some(CoinflipError::Constraint(ConstraintError::Unauthorized))
    } else if coinflip.status != Status::Waiting {
        Some(CoinflipError::Constraint(ConstraintError::WrongStatus))
    } else {
        None
    }
}

/// Why `finalize_game` refuses, if it does. A finished wager is refused
/// whatever the randomness source reports; a wager that is not finished is
/// told to ask again while no random value has arrived.
pub open spec fn finalize_game_rejection(
    house: TreasuryView,
    coinflip: WagerView,
    randomness: Option<[u8; 32]>,
) -> Option<CoinflipError> {
    if house.paused {
        Some(CoinflipError::Program(ProgramError::ProgramPaused))
    } else if coinflip.status == Status::Finished {
        Some(CoinflipError::Constraint(ConstraintError::WrongStatus))
    } else if is_pending(randomness) {
        Some(CoinflipError::StillProcessing(StillProcessing::StillProcessing))
    } else if coinflip.status != Status::Processing {
        Some(CoinflipError::Constraint(ConstraintError::WrongStatus))
    } else {
        None
    }
}

/// Why `resolve_outcome` refuses, if it does: for the reasons of
/// `finalize_game`, or because the treasury does not hold the payout.
pub open spec fn resolve_outcome_rejection(
    house: TreasuryView,
    coinflip: WagerView,
    randomness: Option<[u8; 32]>,
) -> Option<CoinflipError> {
    match finalize_game_rejection(house, coinflip, randomness) {
        Some(e) => Some(e),
        None => if payout_of(
            coinflip.amount,
            outcome_of(randomness.unwrap()),
            coinflip.player_choice,
        ) > house.balance {
            Some(CoinflipError::Program(ProgramError::ArithmeticOverflow))
        } else {
            None
        },
    }
}

/// Why `claim_rewards` refuses, if it does.
pub open spec fn claim_rewards_rejection(
    house: TreasuryView,
    coinflip: WagerView,
    caller: Seq<u8>,
) -> Option<CoinflipError> {
    if house.paused {
        Some(CoinflipError::Program(ProgramError::ProgramPaused))
    } else if caller != coinflip.player {
        Some(CoinflipError::Constraint(ConstraintError::Unauthorized))
    } else if coinflip.status != Status::Finished || coinflip.result is None {
        Some(CoinflipError::Constraint(ConstraintError::WrongStatus))
    } else if coinflip.claimed {
        Some(CoinflipError::Constraint(ConstraintError::AlreadyClaimed))
    } else if !player_won(coinflip.result.unwrap(), coinflip.player_choice) {
        Some(CoinflipError::Game(GameError::PlayerDidNotWin))
    } else if payout_of(coinflip.amount, coinflip.result.unwrap(), coinflip.player_choice)
        > house.balance {
        Some(CoinflipError::Program(ProgramError::ArithmeticOverflow))
    } else {
        None
    }
}

/// Tells whether fewer than `COOLDOWN_SECONDS` lie between `last` and `now`.
pub fn in_cooldown(last: i64, now: i64) -> (r: bool)
    ensures
        r == (now - last < COOLDOWN_SECONDS),
{
    (now as i128) - (last as i128) < (COOLDOWN_SECONDS as i128)
}

/// Tells whether a wager still occupies its room.
pub fn occupies_room(coinflip: &Coinflip) -> (r: bool)
    ensures
        r == coinflip@.is_live(),
{
    match coinflip.status {
        Status::Finished => match coinflip.result {
            Some(outcome) => has_won(outcome, coinflip.player_choice) && !coinflip.claimed,
            None => false,
        },
        _ => true,
    }
}

/// Escrow: accepts a stake of `amount` on `choice` in the room `room_id` and
/// credits it to the treasury. The new wager is `Waiting`. The caller moves
/// the stake from the player into the treasury's custody and stores the wager
/// under the room identifier.
pub fn open_wager(
    house: &mut HouseTreasury,
    prior: Option<&Coinflip>,
    player: [u8; 32],
    room_id: &str,
    amount: u64,
    choice: PlayerChoice,
    now: i64,
) -> (r: Result<Coinflip, CoinflipError>)
    ensures
        match open_wager_rejection(
            old(house)@,
            prior_view(prior),
            room_id.len() as nat,
            amount as nat,
            choice,
            now as int,
        ) {
            Some(e) => r == Err::<Coinflip, CoinflipError>(e) && *final(house) == *old(house),
            None => {
                &&& r matches Ok(wager)
                &&& wager@ == WagerView::opened(player@, amount as nat, choice, now as int)
                &&& wager@.well_formed()
                &&& final(house)@ == old(house)@.credited(amount as nat)
            },
        },
{
    if house.paused {
        return Err(CoinflipError::Program(ProgramError::ProgramPaused));
    }
    if amount < MIN_BET {
        return Err(CoinflipError::InvalidAmount(InvalidAmount::TooLow));
    }
    if amount > MAX_BET {
        return Err(CoinflipError::InvalidAmount(InvalidAmount::TooHigh));
    }
    if room_id.len() > MAX_ROOM_ID_LEN {
        return Err(CoinflipError::InvalidInput(InvalidInput::RoomIdTooLong));
    }
    if let Some(p) = prior {
        if in_cooldown(p.last_play_time, now) {
            return Err(CoinflipError::RateLimit(RateLimitError::TooManyRequests));
        }
        if occupies_room(p) {
            return Err(CoinflipError::Constraint(ConstraintError::RoomOccupied));
        }
    }
    proof {
        lemma_required_reserve(amount as nat, choice);
    }
    let needed = match reserve_needed(amount, choice) {
        Some(needed) => needed,
        None => {
            return Err(CoinflipError::Program(ProgramError::ArithmeticOverflow));
        },
    };
    if house.balance < needed {
        return Err(CoinflipError::House(HouseError::InsufficientFunds));
    }
    let balance = match house.balance.checked_add(amount) {
        Some(balance) => balance,
        None => {
            return Err(CoinflipError::Program(ProgramError::ArithmeticOverflow));
        },
    };
    house.balance = balance;
    let wager = Coinflip {
        player,
        amount,
        player_choice: choice,
        force: [0u8; 32],
        result: None,
        status: Status::Waiting,
        last_play_time: now,
        claimed: false,
    };
    assert(wager.force@ =~= Seq::new(32, |i: int| 0u8));
    Ok(wager)
}

/// Commit: binds a waiting wager to the randomness request made with the
/// commitment `force`. The wager becomes `Processing`. The caller sends the
/// request to the randomness source.
pub fn request_outcome(
    house: &HouseTreasury,
    coinflip: &mut Coinflip,
    caller: &[u8; 32],
    force: [u8; 32],
) -> (r: Result<(), CoinflipError>)
    ensures
        match request_outcome_rejection(house@, old(coinflip)@, caller@) {
            Some(e) => r == Err::<(), CoinflipError>(e) && *final(coinflip) == *old(coinflip),
            None => r is Ok && final(coinflip)@ == old(coinflip)@.committed(force@),
        },
        old(coinflip)@.well_formed() ==> final(coinflip)@.well_formed(),
{
    if house.paused {
        return Err(CoinflipError::Program(ProgramError::ProgramPaused));
    }
    if !same_identity(caller, &coinflip.player) {
        return Err(CoinflipError::Constraint(ConstraintError::Unauthorized));
    }
    match coinflip.status {
        Status::Waiting => {},
        _ => {
            return Err(CoinflipError::Constraint(ConstraintError::WrongStatus));
        },
    }
    coinflip.force = force;
    coinflip.status = Status::Processing;
    Ok(())
}

/// Escrow and commit in one step: what `open_wager` followed by
/// `request_outcome` on behalf of the player does, or nothing at all.
pub fn create_and_play_coinflip(
    house: &mut HouseTreasury,
    prior: Option<&Coinflip>,
    player: [u8; 32],
    room_id: &str,
    amount: u64,
    choice: PlayerChoice,
    force: [u8; 32],
    now: i64,
) -> (r: Result<Coinflip, CoinflipError>)
    ensures
        match open_wager_rejection(
            old(house)@,
            prior_view(prior),
            room_id.len() as nat,
            amount as nat,
            choice,
            now as int,
        ) {
            Some(e) => r == Err::<Coinflip, CoinflipError>(e) && *final(house) == *old(house),
            None => {
                &&& r matches Ok(wager)
                &&& wager@ == WagerView::opened(player@, amount as nat, choice, now as int).committed(
                    force@,
                )
                &&& wager@.well_formed()
                &&& final(house)@ == old(house)@.credited(amount as nat)
            },
        },
{
    let mut wager = open_wager(house, prior, player, room_id, amount, choice, now)?;
    wager.force = force;
    wager.status = Status::Processing;
    Ok(wager)
}

/// First half of a two-step settlement: fixes the outcome of a processing
/// wager from the fulfilled random value and returns it. No funds move.
pub fn finalize_game(
    house: &HouseTreasury,
    coinflip: &mut Coinflip,
    randomness: Option<[u8; 32]>,
) -> (r: Result<GameResult, CoinflipError>)
    ensures
        match finalize_game_rejection(house@, old(coinflip)@, randomness) {
            Some(e) => r == Err::<GameResult, CoinflipError>(e) && *final(coinflip) == *old(
                coinflip,
            ),
            None => {
                &&& r == Ok::<GameResult, CoinflipError>(outcome_of(randomness.unwrap()))
                &&& final(coinflip)@ == old(coinflip)@.finalized(outcome_of(randomness.unwrap()))
            },
        },
        old(coinflip)@.well_formed() ==> final(coinflip)@.well_formed(),
{
    if house.paused {
        return Err(CoinflipError::Program(ProgramError::ProgramPaused));
    }
    match coinflip.status {
        Status::Finished => {
            return Err(CoinflipError::Constraint(ConstraintError::WrongStatus));
        },
        _ => {},
    }
    let value = match fulfilled_value(&randomness) {
        Some(value) => value,
        None => {
            return Err(CoinflipError::StillProcessing(StillProcessing::StillProcessing));
        },
    };
    match coinflip.status {
        Status::Processing => {},
        _ => {
            return Err(CoinflipError::Constraint(ConstraintError::WrongStatus));
        },
    }
    let outcome = game_result(value);
    coinflip.result = Some(outcome);
    coinflip.status = Status::Finished;
    coinflip.claimed = false;
    Ok(outcome)
}

/// Second half of a two-step settlement: pays a finished wager that the
/// player won, once. Returns the payout, which has been debited from the
/// treasury. The caller moves it from the treasury's custody to the player.
pub fn claim_rewards(house: &mut HouseTreasury, coinflip: &mut Coinflip, caller: &[u8; 32]) -> (r:
    Result<u64, CoinflipError>)
    ensures
        match claim_rewards_rejection(old(house)@, old(coinflip)@, caller@) {
            Some(e) => {
                &&& r == Err::<u64, CoinflipError>(e)
                &&& *final(house) == *old(house)
                &&& *final(coinflip) == *old(coinflip)
            },
            None => {
                &&& r matches Ok(paid)
                &&& paid == payout_of(
                    old(coinflip)@.amount,
                    old(coinflip).result.unwrap(),
                    old(coinflip).player_choice,
                )
                &&& final(house)@ == old(house)@.debited(paid as nat)
                &&& final(coinflip)@ == old(coinflip)@.paid()
            },
        },
        old(coinflip)@.well_formed() ==> final(coinflip)@.well_formed(),
{
    if house.paused {
        return Err(CoinflipError::Program(ProgramError::ProgramPaused));
    }
    if !same_identity(caller, &coinflip.player) {
        return Err(CoinflipError::Constraint(ConstraintError::Unauthorized));
    }
    match coinflip.status {
        Status::Finished => {},
        _ => {
            return Err(CoinflipError::Constraint(ConstraintError::WrongStatus));
        },
    }
    let outcome = match coinflip.result {
        Some(outcome) => outcome,
        None => {
            return Err(CoinflipError::Constraint(ConstraintError::WrongStatus));
        },
    };
    if coinflip.claimed {
        return Err(CoinflipError::Constraint(ConstraintError::AlreadyClaimed));
    }
    if !has_won(outcome, coinflip.player_choice) {
        return Err(CoinflipError::Game(GameError::PlayerDidNotWin));
    }
    let paid = match payout(coinflip.amount, outcome, coinflip.player_choice) {
        Some(paid) => paid,
        None => {
            return Err(CoinflipError::Program(ProgramError::ArithmeticOverflow));
        },
    };
    let balance = match house.balance.checked_sub(paid) {
        Some(balance) => balance,
        None => {
            return Err(CoinflipError::Program(ProgramError::ArithmeticOverflow));
        },
    };
    house.balance = balance;
    coinflip.claimed = true;
    Ok(paid)
}

/// Settle in one step: fixes the outcome of a processing wager from the
/// fulfilled random value and pays it at once. Returns the payout, which has
/// been debited from the treasury. The caller moves it from the treasury's
/// custody to the player.
pub fn resolve_outcome(
    house: &mut HouseTreasury,
    coinflip: &mut Coinflip,
    randomness: Option<[u8; 32]>,
) -> (r: Result<u64, CoinflipError>)
    ensures
        match resolve_outcome_rejection(old(house)@, old(coinflip)@, randomness) {
            Some(e) => {
                &&& r == Err::<u64, CoinflipError>(e)
                &&& *final(house) == *old(house)
                &&& *final(coinflip) == *old(coinflip)
            },
            None => {
                &&& r matches Ok(paid)
                &&& paid == payout_of(
                    old(coinflip)@.amount,
                    outcome_of(randomness.unwrap()),
                    old(coinflip).player_choice,
                )
                &&& final(house)@ == old(house)@.debited(paid as nat)
                &&& final(coinflip)@ == old(coinflip)@.settled(outcome_of(randomness.unwrap()))
            },
        },
        old(coinflip)@.well_formed() ==> final(coinflip)@.well_formed(),
{
    if house.paused {
        return Err(CoinflipError::Program(ProgramError::ProgramPaused));
    }
    match coinflip.status {
        Status::Finished => {
            return Err(CoinflipError::Constraint(ConstraintError::WrongStatus));
        },
        _ => {},
    }
    let value = match fulfilled_value(&randomness) {
        Some(value) => value,
        None => {
            return Err(CoinflipError::StillProcessing(StillProcessing::StillProcessing));
        },
    };
    match coinflip.status {
        Status::Processing => {},
        _ => {
            return Err(CoinflipError::Constraint(ConstraintError::WrongStatus));
        },
    }
    let outcome = game_result(value);
    let paid = match payout(coinflip.amount, outcome, coinflip.player_choice) {
        Some(paid) => paid,
        None => {
            return Err(CoinflipError::Program(ProgramError::ArithmeticOverflow));
        },
    };
    let balance = match house.balance.checked_sub(paid) {
        Some(balance) => balance,
        None => {
            return Err(CoinflipError::Program(ProgramError::ArithmeticOverflow));
        },
    };
    house.balance = balance;
    coinflip.result = Some(outcome);
    coinflip.status = Status::Finished;
    coinflip.claimed = true;
    Ok(paid)
}

} // verus!
