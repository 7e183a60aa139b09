//! Movement of lamports between two accounts that the program holds itself.

use vstd::prelude::*;
use crate::errors::{CoinflipError, HouseError, ProgramError};

verus! {

/// Why `transfer_lamports` refuses, if it does.
pub open spec fn transfer_rejection(from: u64, to: u64, amount: u64) -> Option<CoinflipError> {
    if from < amount {
        Some(CoinflipError::House(HouseError::InsufficientFunds))
    } else if to + amount > u64::MAX {
        Some(CoinflipError::Program(ProgramError::ArithmeticOverflow))
    } else {
        None
    }
}

/// Moves `amount` lamports from one account to another. Both accounts
/// change or neither does, and what they hold together stays the same.
pub fn transfer_lamports(from: &mut u64, to: &mut u64, amount: u64) -> (r: Result<
    (),
    CoinflipError,
>)
    ensures
        match transfer_rejection(*old(from), *old(to), amount) {
            Some(e) => {
                &&& r == Err::<(), CoinflipError>(e)
                &&& *final(from) == *old(from)
                &&& *final(to) == *old(to)
            },
            None => {
                &&& r is Ok
                &&& *final(from) == *old(from) - amount
                &&& *final(to) == *old(to) + amount
            },
        },
        *final(from) + *final(to) == *old(from) + *old(to),
{
    let debited = match (*from).checked_sub(amount) {
        Some(debited) => debited,
        None => {
            return Err(CoinflipError::House(HouseError::InsufficientFunds));
        },
    };
    let credited = match (*to).checked_add(amount) {
        Some(credited) => credited,
        None => {
            return Err(CoinflipError::Program(ProgramError::ArithmeticOverflow));
        },
    };
    *from = debited;
    *to = credited;
    Ok(())
}

} // verus!
