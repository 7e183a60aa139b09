use coinflip::custody::transfer_lamports;
use coinflip::errors::{
    CoinflipError, ConstraintError, HouseError, InvalidAmount, ProgramError, StillProcessing,
};
use coinflip::state::{same_identity, HouseTreasury, Status};
use coinflip::treasury::{fund_treasury, initialize_house, toggle_pause, withdraw_house_funds};

const OPERATOR: [u8; 32] = [7u8; 32];
const STRANGER: [u8; 32] = [8u8; 32];

fn house_with(balance: u64) -> HouseTreasury {
    HouseTreasury { authority: OPERATOR, balance, paused: false }
}

#[test]
fn default_status_is_waiting() {
    assert_eq!(Status::default(), Status::Waiting);
}

#[test]
fn same_identity_compares_every_byte() {
    let mut other = OPERATOR;
    assert!(same_identity(&OPERATOR, &other));
    other[31] = 0;
    assert!(!same_identity(&OPERATOR, &other));
    let mut other = OPERATOR;
    other[0] = 0;
    assert!(!same_identity(&OPERATOR, &other));
    assert!(!same_identity(&OPERATOR, &STRANGER));
}

#[test]
fn only_still_processing_is_retryable() {
    assert!(CoinflipError::StillProcessing(StillProcessing::StillProcessing).is_retryable());
    assert!(!CoinflipError::Program(ProgramError::ProgramPaused).is_retryable());
    assert!(!CoinflipError::House(HouseError::InsufficientFunds).is_retryable());
}

#[test]
fn initialize_house_creates_an_empty_open_treasury() {
    let house = initialize_house(None, OPERATOR).unwrap();
    assert_eq!(house, HouseTreasury { authority: OPERATOR, balance: 0, paused: false });
}

#[test]
fn initialize_house_twice_fails() {
    let house = initialize_house(None, OPERATOR).unwrap();
    assert_eq!(
        initialize_house(Some(&house), STRANGER),
        Err(CoinflipError::Constraint(ConstraintError::AlreadyInitialized))
    );
}

#[test]
fn fund_treasury_adds_to_the_balance() {
    let mut house = house_with(5);
    assert_eq!(fund_treasury(&mut house, 100), Ok(()));
    assert_eq!(house, house_with(105));
}

#[test]
fn fund_treasury_rejects_zero() {
    let mut house = house_with(5);
    assert_eq!(
        fund_treasury(&mut house, 0),
        Err(CoinflipError::InvalidAmount(InvalidAmount::ZeroAmount))
    );
    assert_eq!(house, house_with(5));
}

#[test]
fn fund_treasury_rejects_overflow() {
    let mut house = house_with(u64::MAX);
    assert_eq!(
        fund_treasury(&mut house, 1),
        Err(CoinflipError::Program(ProgramError::ArithmeticOverflow))
    );
    assert_eq!(house, house_with(u64::MAX));
    let mut house = house_with(u64::MAX - 1);
    assert_eq!(fund_treasury(&mut house, 1), Ok(()));
    assert_eq!(house.balance, u64::MAX);
}

#[test]
fn fund_treasury_rejected_while_paused() {
    let mut house = HouseTreasury { paused: true, ..house_with(5) };
    let before = house;
    assert_eq!(
        fund_treasury(&mut house, 100),
        Err(CoinflipError::Program(ProgramError::ProgramPaused))
    );
    assert_eq!(
        fund_treasury(&mut house, 0),
        Err(CoinflipError::Program(ProgramError::ProgramPaused))
    );
    assert_eq!(house, before);
}

#[test]
fn withdraw_takes_from_the_balance() {
    let mut house = house_with(100);
    assert_eq!(withdraw_house_funds(&mut house, &OPERATOR, 40), Ok(()));
    assert_eq!(house, house_with(60));
    assert_eq!(withdraw_house_funds(&mut house, &OPERATOR, 60), Ok(()));
    assert_eq!(house, house_with(0));
}

#[test]
fn withdraw_more_than_balance_fails_and_changes_nothing() {
    let mut house = house_with(100);
    assert_eq!(
        withdraw_house_funds(&mut house, &OPERATOR, 101),
        Err(CoinflipError::House(HouseError::InsufficientFunds))
    );
    assert_eq!(house, house_with(100));
}

#[test]
fn withdraw_rejects_zero() {
    let mut house = house_with(100);
    assert_eq!(
        withdraw_house_funds(&mut house, &OPERATOR, 0),
        Err(CoinflipError::InvalidAmount(InvalidAmount::ZeroAmount))
    );
    assert_eq!(house, house_with(100));
}

#[test]
fn withdraw_rejects_a_stranger() {
    let mut house = house_with(100);
    assert_eq!(
        withdraw_house_funds(&mut house, &STRANGER, 10),
        Err(CoinflipError::Constraint(ConstraintError::Unauthorized))
    );
    assert_eq!(house, house_with(100));
}

#[test]
fn withdraw_rejected_while_paused() {
    let mut house = HouseTreasury { paused: true, ..house_with(100) };
    let before = house;
    assert_eq!(
        withdraw_house_funds(&mut house, &OPERATOR, 10),
        Err(CoinflipError::Program(ProgramError::ProgramPaused))
    );
    assert_eq!(
        withdraw_house_funds(&mut house, &STRANGER, 10),
        Err(CoinflipError::Program(ProgramError::ProgramPaused))
    );
    assert_eq!(house, before);
}

#[test]
fn toggle_pause_flips_the_switch() {
    let mut house = house_with(100);
    assert_eq!(toggle_pause(&mut house, &OPERATOR), Ok(()));
    assert_eq!(house, HouseTreasury { paused: true, ..house_with(100) });
    assert_eq!(toggle_pause(&mut house, &OPERATOR), Ok(()));
    assert_eq!(house, house_with(100));
}

#[test]
fn toggle_pause_rejects_a_stranger() {
    let mut house = house_with(100);
    assert_eq!(
        toggle_pause(&mut house, &STRANGER),
        Err(CoinflipError::Constraint(ConstraintError::Unauthorized))
    );
    assert_eq!(house, house_with(100));
}

#[test]
fn transfer_lamports_moves_the_amount() {
    let (mut from, mut to) = (100u64, 5u64);
    assert_eq!(transfer_lamports(&mut from, &mut to, 40), Ok(()));
    assert_eq!((from, to), (60, 45));
    assert_eq!(transfer_lamports(&mut from, &mut to, 60), Ok(()));
    assert_eq!((from, to), (0, 105));
}

#[test]
fn transfer_lamports_rejects_what_the_source_lacks() {
    let (mut from, mut to) = (100u64, 5u64);
    assert_eq!(
        transfer_lamports(&mut from, &mut to, 101),
        Err(CoinflipError::House(HouseError::InsufficientFunds))
    );
    assert_eq!((from, to), (100, 5));
}

#[test]
fn transfer_lamports_rejects_overflow_of_the_target() {
    let (mut from, mut to) = (100u64, u64::MAX - 9);
    assert_eq!(
        transfer_lamports(&mut from, &mut to, 10),
        Err(CoinflipError::Program(ProgramError::ArithmeticOverflow))
    );
    assert_eq!((from, to), (100, u64::MAX - 9));
    assert_eq!(transfer_lamports(&mut from, &mut to, 9), Ok(()));
    assert_eq!((from, to), (91, u64::MAX));
}
