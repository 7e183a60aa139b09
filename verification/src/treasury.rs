//! Administration of the house treasury: creation, funding, withdrawal and
//! the pause switch.
//!
//! Every operation validates before it writes: on an error the treasury is
//! left exactly as it was.

use vstd::prelude::*;
use crate::errors::{CoinflipError, ConstraintError, HouseError, InvalidAmount, ProgramError};
use crate::state::{same_identity, HouseTreasury, TreasuryView};

verus! {

/// Why `initialize_house` refuses, if it does.
pub open spec fn initialize_house_rejection(exists: bool) -> Option<CoinflipError> {
    if exists {
        Some(CoinflipError::Constraint(ConstraintError::AlreadyInitialized))
    } else {
        None
    }
}

/// Why `fund_treasury` refuses, if it does.
pub open spec fn fund_treasury_rejection(house: TreasuryView, amount: nat) -> Option<
    CoinflipError,
> {
    if house.paused {
        Some(CoinflipError::Program(ProgramError::ProgramPaused))
    } else if amount == 0 {
        Some(CoinflipError::InvalidAmount(InvalidAmount::ZeroAmount))
    } else if house.balance + amount > u64::MAX {
        Some(CoinflipError::Program(ProgramError::ArithmeticOverflow))
    } else {
        None
    }
}

/// Why `withdraw_house_funds` refuses, if it does.
pub open spec fn withdraw_house_funds_rejection(
    house: TreasuryView,
    caller: Seq<u8>,
    amount: nat,
) -> Option<CoinflipError> {
    if house.paused {
        Some(CoinflipError::Program(ProgramError::ProgramPaused))
    } else if caller != house.authority {
        Some(CoinflipError::Constraint(ConstraintError::Unauthorized))
    } else if amount == 0 {
        Some(CoinflipError::InvalidAmount(InvalidAmount::ZeroAmount))
    } else if house.balance < amount {
        Some(CoinflipError::House(HouseError::InsufficientFunds))
    } else {
        None
    }
}

/// Why `toggle_pause` refuses, if it does.
pub open spec fn toggle_pause_rejection(house: TreasuryView, caller: Seq<u8>) -> Option<
    CoinflipError,
> {
    if caller != house.authority {
        Some(CoinflipError::Constraint(ConstraintError::Unauthorized))
    } else {
        None
    }
}

/// Creates the treasury for `authority`: empty and not paused. Refused where
/// a treasury exists already; `existing` is that treasury.
pub fn initialize_house(existing: Option<&HouseTreasury>, authority: [u8; 32]) -> (r: Result<
    HouseTreasury,
    CoinflipError,
>)
    ensures
        match initialize_house_rejection(existing is Some) {
            Some(e) => r == Err::<HouseTreasury, CoinflipError>(e),
            None => r matches Ok(house) && house@ == TreasuryView::created(authority@),
        },
{
    match existing {
        Some(_) => Err(CoinflipError::Constraint(ConstraintError::AlreadyInitialized)),
        None => Ok(HouseTreasury { authority, balance: 0, paused: false }),
    }
}

/// Credits `amount` to the treasury. Anyone may fund it. The caller moves the
/// same amount into the treasury's custody.
pub fn fund_treasury(house: &mut HouseTreasury, amount: u64) -> (r: Result<(), CoinflipError>)
    ensures
        match fund_treasury_rejection(old(house)@, amount as nat) {
            Some(e) => r == Err::<(), CoinflipError>(e) && *final(house) == *old(house),
            None => r is Ok && final(house)@ == old(house)@.credited(amount as nat),
        },
{
    if house.paused {
        return Err(CoinflipError::Program(ProgramError::ProgramPaused));
    }
    if amount == 0 {
        return Err(CoinflipError::InvalidAmount(InvalidAmount::ZeroAmount));
    }
    match house.balance.checked_add(amount) {
        None => Err(CoinflipError::Program(ProgramError::ArithmeticOverflow)),
        Some(balance) => {
            house.balance = balance;
            Ok(())
        },
    }
}

/// Debits `amount` from the treasury on behalf of its authority. The caller
/// moves the same amount out of the treasury's custody.
pub fn withdraw_house_funds(house: &mut HouseTreasury, caller: &[u8; 32], amount: u64) -> (r:
    Result<(), CoinflipError>)
    ensures
        match withdraw_house_funds_rejection(old(house)@, caller@, amount as nat) {
            Some(e) => r == Err::<(), CoinflipError>(e) && *final(house) == *old(house),
            None => r is Ok && final(house)@ == old(house)@.debited(amount as nat),
        },
{
    if house.paused {
        return Err(CoinflipError::Program(ProgramError::ProgramPaused));
    }
    if !same_identity(caller, &house.authority) {
        return Err(CoinflipError::Constraint(ConstraintError::Unauthorized));
    }
    if amount == 0 {
        return Err(CoinflipError::InvalidAmount(InvalidAmount::ZeroAmount));
    }
    match house.balance.checked_sub(amount) {
        None => Err(CoinflipError::House(HouseError::InsufficientFunds)),
        Some(balance) => {
            house.balance = balance;
            Ok(())
        },
    }
}

/// Flips the pause switch on behalf of the treasury's authority. Works
/// whether the treasury is paused or not.
pub fn toggle_pause(house: &mut HouseTreasury, caller: &[u8; 32]) -> (r: Result<(), CoinflipError>)
    ensures
        match toggle_pause_rejection(old(house)@, caller@) {
            Some(e) => r == Err::<(), CoinflipError>(e) && *final(house) == *old(house),
            None => r is Ok && final(house)@ == old(house)@.toggled(),
        },
{
    if !same_identity(caller, &house.authority) {
        return Err(CoinflipError::Constraint(ConstraintError::Unauthorized));
    }
    house.paused = !house.paused;
    Ok(())
}

} // verus!
