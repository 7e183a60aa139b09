use coinflip::errors::{CoinflipError, ConstraintError, GameError, HouseError};
use coinflip::game::{
    claim_rewards, create_and_play_coinflip, finalize_game, open_wager, request_outcome,
    resolve_outcome,
};
use coinflip::state::{GameResult, PlayerChoice, Status};
use coinflip::treasury::{fund_treasury, initialize_house, toggle_pause, withdraw_house_funds};
use coinflip::LAMPORTS_PER_SOL;

const OPERATOR: [u8; 32] = [1u8; 32];
const PLAYER: [u8; 32] = [2u8; 32];
const FORCE: [u8; 32] = [5u8; 32];
const SOL: u64 = LAMPORTS_PER_SOL;

fn value_in_bucket(bucket: u8) -> Option<[u8; 32]> {
    let mut value = [0u8; 32];
    value[0] = bucket;
    value[9] = 0xaa;
    Some(value)
}

#[test]
fn side_bet_that_wins_is_paid_double() {
    let mut house = initialize_house(None, OPERATOR).unwrap();
    fund_treasury(&mut house, 100 * SOL).unwrap();
    let mut wager =
        open_wager(&mut house, None, PLAYER, "table-1", 10 * SOL, PlayerChoice::Option1, 1_700)
            .unwrap();
    assert_eq!(house.balance, 110 * SOL);
    request_outcome(&house, &mut wager, &PLAYER, FORCE).unwrap();
    assert_eq!(resolve_outcome(&mut house, &mut wager, value_in_bucket(50)), Ok(20 * SOL));
    assert_eq!(house.balance, 90 * SOL);
    assert_eq!(wager.status, Status::Finished);
    assert_eq!(wager.result, Some(GameResult::Option1Wins));
}

#[test]
fn side_bet_on_a_tie_is_paid_nothing() {
    let mut house = initialize_house(None, OPERATOR).unwrap();
    fund_treasury(&mut house, 100 * SOL).unwrap();
    let mut wager =
        open_wager(&mut house, None, PLAYER, "table-1", 10 * SOL, PlayerChoice::Option1, 1_700)
            .unwrap();
    request_outcome(&house, &mut wager, &PLAYER, FORCE).unwrap();
    assert_eq!(resolve_outcome(&mut house, &mut wager, value_in_bucket(5)), Ok(0));
    assert_eq!(house.balance, 110 * SOL);
    assert_eq!(wager.status, Status::Finished);
    assert_eq!(wager.result, Some(GameResult::Tie));
}

#[test]
fn withdraw_beyond_the_balance_leaves_it_unchanged() {
    let mut house = initialize_house(None, OPERATOR).unwrap();
    fund_treasury(&mut house, 100 * SOL).unwrap();
    assert_eq!(
        withdraw_house_funds(&mut house, &OPERATOR, 100 * SOL + 1),
        Err(CoinflipError::House(HouseError::InsufficientFunds))
    );
    assert_eq!(house.balance, 100 * SOL);
}

#[test]
fn two_step_settlement_of_a_winning_side_bet() {
    let mut house = initialize_house(None, OPERATOR).unwrap();
    fund_treasury(&mut house, 100 * SOL).unwrap();
    let mut wager = create_and_play_coinflip(
        &mut house,
        None,
        PLAYER,
        "table-2",
        10 * SOL,
        PlayerChoice::Option1,
        FORCE,
        1_700,
    )
    .unwrap();
    assert_eq!(house.balance, 110 * SOL);
    assert_eq!(wager.status, Status::Processing);
    assert_eq!(
        finalize_game(&house, &mut wager, value_in_bucket(50)),
        Ok(GameResult::Option1Wins)
    );
    assert_eq!(house.balance, 110 * SOL);
    assert_eq!(claim_rewards(&mut house, &mut wager, &PLAYER), Ok(20 * SOL));
    assert_eq!(house.balance, 90 * SOL);
    assert_eq!(
        claim_rewards(&mut house, &mut wager, &PLAYER),
        Err(CoinflipError::Constraint(ConstraintError::AlreadyClaimed))
    );
    assert_eq!(house.balance, 90 * SOL);
}

#[test]
fn two_step_settlement_of_a_side_bet_on_a_tie() {
    let mut house = initialize_house(None, OPERATOR).unwrap();
    fund_treasury(&mut house, 100 * SOL).unwrap();
    let mut wager = create_and_play_coinflip(
        &mut house,
        None,
        PLAYER,
        "table-2",
        10 * SOL,
        PlayerChoice::Option1,
        FORCE,
        1_700,
    )
    .unwrap();
    assert_eq!(finalize_game(&house, &mut wager, value_in_bucket(5)), Ok(GameResult::Tie));
    assert_eq!(
        claim_rewards(&mut house, &mut wager, &PLAYER),
        Err(CoinflipError::Game(GameError::PlayerDidNotWin))
    );
    assert_eq!(house.balance, 110 * SOL);
}

#[test]
fn pause_stops_the_lifecycle_until_it_is_lifted() {
    let mut house = initialize_house(None, OPERATOR).unwrap();
    fund_treasury(&mut house, 100 * SOL).unwrap();
    let mut wager = create_and_play_coinflip(
        &mut house,
        None,
        PLAYER,
        "table-3",
        SOL,
        PlayerChoice::Option2,
        FORCE,
        1_700,
    )
    .unwrap();
    toggle_pause(&mut house, &OPERATOR).unwrap();
    let (house_before, wager_before) = (house, wager);
    assert!(resolve_outcome(&mut house, &mut wager, value_in_bucket(150)).is_err());
    assert!(fund_treasury(&mut house, SOL).is_err());
    assert_eq!((house, wager), (house_before, wager_before));
    toggle_pause(&mut house, &OPERATOR).unwrap();
    assert_eq!(resolve_outcome(&mut house, &mut wager, value_in_bucket(150)), Ok(2 * SOL));
    assert_eq!(house.balance, 99 * SOL);
}
