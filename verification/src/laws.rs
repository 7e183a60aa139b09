//! What holds of the operations taken together.
//!
//! Each law is stated over the views and the spec functions that the
//! contracts of the operations use, so that it holds of every run of them.

use vstd::prelude::*;
use crate::errors::{CoinflipError, HouseError, ProgramError, RateLimitError};
use crate::game::{
    claim_rewards_rejection,
    finalize_game_rejection,
    open_wager_rejection,
    request_outcome_rejection,
    resolve_outcome_rejection,
};
use crate::outcome::{
    bucket_of,
    lemma_required_reserve,
    low_u64,
    outcome_of,
    outcome_of_bucket,
    payout_multiplier,
    payout_of,
    player_won,
    required_reserve,
};
use crate::state::{GameResult, PlayerChoice, Status, TreasuryView, WagerView};
use crate::treasury::{fund_treasury_rejection, withdraw_house_funds_rejection};
use crate::{BUCKETS, COOLDOWN_SECONDS, MAX_BET, MAX_ROOM_ID_LEN, MIN_BET};

verus! {

/// Solvency: where nothing else stands in the way (the treasury is not
/// paused, the stake and the room identifier are within bounds, the room is
/// free and past its cooldown, and the credited balance fits in 64 bits), a
/// wager is accepted exactly when the treasury holds the stake times the
/// multiplier of the choice, and is refused for insufficient funds otherwise.
pub proof fn law_open_wager_solvency(
    house: TreasuryView,
    prior: Option<WagerView>,
    room_len: nat,
    amount: nat,
    choice: PlayerChoice,
    now: int,
)
    requires
        MIN_BET <= amount <= MAX_BET,
        !house.paused,
        room_len <= MAX_ROOM_ID_LEN,
        prior matches Some(p) ==> now - p.last_play_time >= COOLDOWN_SECONDS && !p.is_live(),
        house.balance + amount <= u64::MAX,
    ensures
        open_wager_rejection(house, prior, room_len, amount, choice, now) is None
            <==> house.balance >= amount * payout_multiplier(choice),
        house.balance < amount * payout_multiplier(choice) ==> open_wager_rejection(
            house,
            prior,
            room_len,
            amount,
            choice,
            now,
        ) == Some(CoinflipError::House(HouseError::InsufficientFunds)),
{
}

/// Escrow: the treasury that has accepted a stake holds exactly that much
/// more than before, and nothing else about it has changed.
pub proof fn law_open_wager_credits_the_stake(house: TreasuryView, amount: nat)
    ensures
        house.credited(amount).balance == house.balance + amount,
        house.credited(amount).authority == house.authority,
        house.credited(amount).paused == house.paused,
{
}

/// The reserve that a stake within bounds requires is at least twice the
/// stake and at most six times the largest stake, which fits in 64 bits.
pub proof fn law_required_reserve_fits(amount: nat, choice: PlayerChoice)
    requires
        amount <= MAX_BET,
    ensures
        2 * amount <= required_reserve(amount, choice) <= 6 * MAX_BET <= u64::MAX,
{
    lemma_required_reserve(amount, choice);
}

/// Determinism: two random values that agree on their first eight bytes give
/// the same integer, the same bucket and the same outcome.
pub proof fn law_outcome_depends_on_low_bytes(a: [u8; 32], b: [u8; 32])
    requires
        forall|i: int| 0 <= i < 8 ==> a@[i] == b@[i],
    ensures
        low_u64(a@) == low_u64(b@),
        bucket_of(low_u64(a@)) == bucket_of(low_u64(b@)),
        outcome_of(a) == outcome_of(b),
{
}

/// The integer read from a random value fits in 64 bits.
pub proof fn law_low_u64_range(value: [u8; 32])
    ensures
        0 <= low_u64(value@) <= u64::MAX,
{
}

/// Every integer falls into one of the `BUCKETS` buckets.
pub proof fn law_bucket_range(r: int)
    ensures
        0 <= bucket_of(r) < BUCKETS,
{
}

/// The buckets are split three ways with no gap and no overlap: 0 to 9 are a
/// tie, 10 to 104 a win for the first side, 105 to 199 a win for the second.
pub proof fn law_buckets_partition(bucket: int)
    requires
        0 <= bucket < BUCKETS,
    ensures
        outcome_of_bucket(bucket) == GameResult::Tie <==> 0 <= bucket <= 9,
        outcome_of_bucket(bucket) == GameResult::Option1Wins <==> 10 <= bucket <= 104,
        outcome_of_bucket(bucket) == GameResult::Option2Wins <==> 105 <= bucket <= 199,
{
}

/// A payout is six times the stake for a tie bet on a tie, twice the stake
/// for a side bet on the side that won, and nothing in every other case.
pub proof fn law_payout_values(amount: nat, outcome: GameResult, choice: PlayerChoice)
    ensures
        outcome == GameResult::Tie && choice == PlayerChoice::Tie ==> payout_of(
            amount,
            outcome,
            choice,
        ) == 6 * amount,
        (outcome == GameResult::Option1Wins && choice == PlayerChoice::Option1) || (outcome
            == GameResult::Option2Wins && choice == PlayerChoice::Option2) ==> payout_of(
            amount,
            outcome,
            choice,
        ) == 2 * amount,
        !player_won(outcome, choice) ==> payout_of(amount, outcome, choice) == 0,
        payout_of(amount, outcome, choice) == 0 || payout_of(amount, outcome, choice) == 2
            * amount || payout_of(amount, outcome, choice) == 6 * amount,
{
    lemma_required_reserve(amount, choice);
}

/// Conservation on settlement: wherever `resolve_outcome` goes through, the
/// treasury held the payout that the outcome and the choice call for, and
/// ends with exactly that much less.
pub proof fn law_resolve_conserves(
    house: TreasuryView,
    coinflip: WagerView,
    randomness: Option<[u8; 32]>,
)
    requires
        resolve_outcome_rejection(house, coinflip, randomness) is None,
    ensures
        randomness is Some,
        payout_of(coinflip.amount, outcome_of(randomness.unwrap()), coinflip.player_choice)
            <= house.balance,
        house.debited(
            payout_of(coinflip.amount, outcome_of(randomness.unwrap()), coinflip.player_choice),
        ).balance == house.balance - payout_of(
            coinflip.amount,
            outcome_of(randomness.unwrap()),
            coinflip.player_choice,
        ),
{
}

/// Where a wager is accepted, the treasury holds, right after the stake has
/// come in, at least what the wager pays under any outcome.
pub proof fn law_accepted_wager_is_covered(
    house: TreasuryView,
    prior: Option<WagerView>,
    room_len: nat,
    amount: nat,
    choice: PlayerChoice,
    now: int,
    outcome: GameResult,
)
    requires
        open_wager_rejection(house, prior, room_len, amount, choice, now) is None,
    ensures
        payout_of(amount, outcome, choice) <= house.credited(amount).balance,
{
    lemma_required_reserve(amount, choice);
}

/// Terminality: a wager that is finished is refused by `request_outcome`,
/// by `finalize_game` and by `resolve_outcome`, whatever the treasury, the
/// caller and the randomness source say.
pub proof fn law_finished_is_terminal(
    house: TreasuryView,
    coinflip: WagerView,
    randomness: Option<[u8; 32]>,
    caller: Seq<u8>,
)
    requires
        coinflip.status == Status::Finished,
    ensures
        request_outcome_rejection(house, coinflip, caller) is Some,
        finalize_game_rejection(house, coinflip, randomness) is Some,
        resolve_outcome_rejection(house, coinflip, randomness) is Some,
{
}

/// No double payment after a one-step settlement: once `resolve_outcome` has
/// gone through, a second `resolve_outcome`, a `finalize_game` and a
/// `claim_rewards` on the settled wager are all refused.
pub proof fn law_resolve_twice_fails(
    house: TreasuryView,
    coinflip: WagerView,
    randomness: Option<[u8; 32]>,
    later_house: TreasuryView,
    later_randomness: Option<[u8; 32]>,
    caller: Seq<u8>,
)
    requires
        resolve_outcome_rejection(house, coinflip, randomness) is None,
    ensures
        resolve_outcome_rejection(
            later_house,
            coinflip.settled(outcome_of(randomness.unwrap())),
            later_randomness,
        ) is Some,
        finalize_game_rejection(
            later_house,
            coinflip.settled(outcome_of(randomness.unwrap())),
            later_randomness,
        ) is Some,
        claim_rewards_rejection(
            later_house,
            coinflip.settled(outcome_of(randomness.unwrap())),
            caller,
        ) is Some,
{
}

/// No double payment after a two-step settlement: once `claim_rewards` has
/// gone through, a second claim on the paid wager is refused, and so is a
/// one-step settlement.
pub proof fn law_claim_twice_fails(
    house: TreasuryView,
    coinflip: WagerView,
    caller: Seq<u8>,
    later_house: TreasuryView,
    later_caller: Seq<u8>,
    later_randomness: Option<[u8; 32]>,
)
    requires
        claim_rewards_rejection(house, coinflip, caller) is None,
    ensures
        claim_rewards_rejection(later_house, coinflip.paid(), later_caller) is Some,
        resolve_outcome_rejection(later_house, coinflip.paid(), later_randomness) is Some,
{
}

/// Cooldown: a wager in a room that was last played fewer than
/// `COOLDOWN_SECONDS` ago is refused for its rate, provided the treasury is
/// not paused and the stake and the room identifier are within bounds.
pub proof fn law_cooldown(
    house: TreasuryView,
    prior: WagerView,
    room_len: nat,
    amount: nat,
    choice: PlayerChoice,
    now: int,
)
    requires
        !house.paused,
        MIN_BET <= amount <= MAX_BET,
        room_len <= MAX_ROOM_ID_LEN,
        now - prior.last_play_time < COOLDOWN_SECONDS,
    ensures
        open_wager_rejection(house, Some(prior), room_len, amount, choice, now) == Some(
            CoinflipError::RateLimit(RateLimitError::TooManyRequests),
        ),
{
}

/// Two wagers in one room: the second of two `open_wager` calls that are
/// fewer than `COOLDOWN_SECONDS` apart is refused for its rate, whatever has
/// become of the first wager in between, as long as it is the same bet.
pub proof fn law_two_wagers_too_close(
    player: Seq<u8>,
    first_amount: nat,
    first_choice: PlayerChoice,
    first_time: int,
    later: WagerView,
    house: TreasuryView,
    room_len: nat,
    amount: nat,
    choice: PlayerChoice,
    now: int,
)
    requires
        later.same_bet(WagerView::opened(player, first_amount, first_choice, first_time)),
        now - first_time < COOLDOWN_SECONDS,
        !house.paused,
        MIN_BET <= amount <= MAX_BET,
        room_len <= MAX_ROOM_ID_LEN,
    ensures
        open_wager_rejection(house, Some(later), room_len, amount, choice, now) == Some(
            CoinflipError::RateLimit(RateLimitError::TooManyRequests),
        ),
{
}

/// Pause: while the treasury is paused, funding, withdrawal and every step
/// of a wager's lifecycle are refused as paused, whatever their arguments.
pub proof fn law_paused_rejects_everything(
    house: TreasuryView,
    coinflip: WagerView,
    prior: Option<WagerView>,
    caller: Seq<u8>,
    room_len: nat,
    amount: nat,
    choice: PlayerChoice,
    now: int,
    randomness: Option<[u8; 32]>,
)
    requires
        house.paused,
    ensures
        fund_treasury_rejection(house, amount) == Some(
            CoinflipError::Program(ProgramError::ProgramPaused),
        ),
        withdraw_house_funds_rejection(house, caller, amount) == Some(
            CoinflipError::Program(ProgramError::ProgramPaused),
        ),
        open_wager_rejection(house, prior, room_len, amount, choice, now) == Some(
            CoinflipError::Program(ProgramError::ProgramPaused),
        ),
        request_outcome_rejection(house, coinflip, caller) == Some(
            CoinflipError::Program(ProgramError::ProgramPaused),
        ),
        finalize_game_rejection(house, coinflip, randomness) == Some(
            CoinflipError::Program(ProgramError::ProgramPaused),
        ),
        resolve_outcome_rejection(house, coinflip, randomness) == Some(
            CoinflipError::Program(ProgramError::ProgramPaused),
        ),
        claim_rewards_rejection(house, coinflip, caller) == Some(
            CoinflipError::Program(ProgramError::ProgramPaused),
        ),
{
}

/// A wager only moves forward: committing takes it from waiting to
/// processing, settling in one step or two takes it from an earlier status
/// to finished, and claiming leaves it finished.
pub proof fn law_status_advances(
    house: TreasuryView,
    coinflip: WagerView,
    caller: Seq<u8>,
    force: Seq<u8>,
    randomness: Option<[u8; 32]>,
)
    ensures
        request_outcome_rejection(house, coinflip, caller) is None ==> coinflip.committed(
            force,
        ).status.rank() == coinflip.status.rank() + 1,
        finalize_game_rejection(house, coinflip, randomness) is None ==> coinflip.finalized(
            outcome_of(randomness.unwrap()),
        ).status.rank() == coinflip.status.rank() + 1,
        resolve_outcome_rejection(house, coinflip, randomness) is None ==> coinflip.settled(
            outcome_of(randomness.unwrap()),
        ).status.rank() == coinflip.status.rank() + 1,
        claim_rewards_rejection(house, coinflip, caller) is None ==> coinflip.paid().status
            == Status::Finished,
{
}

/// No step of the lifecycle touches what was bet: the player, the stake, the
/// choice and the time of play stay as they were when the wager was opened.
pub proof fn law_bet_is_immutable(coinflip: WagerView, force: Seq<u8>, outcome: GameResult)
    ensures
        coinflip.same_bet(coinflip.committed(force)),
        coinflip.same_bet(coinflip.finalized(outcome)),
        coinflip.same_bet(coinflip.settled(outcome)),
        coinflip.same_bet(coinflip.paid()),
{
}

/// Every step of the lifecycle keeps a well-formed wager well-formed, and a
/// newly opened wager with a stake within bounds is well-formed.
pub proof fn law_well_formed_is_kept(
    house: TreasuryView,
    coinflip: WagerView,
    caller: Seq<u8>,
    force: Seq<u8>,
    randomness: Option<[u8; 32]>,
)
    requires
        coinflip.well_formed(),
    ensures
        request_outcome_rejection(house, coinflip, caller) is None ==> coinflip.committed(
            force,
        ).well_formed(),
        finalize_game_rejection(house, coinflip, randomness) is None ==> coinflip.finalized(
            outcome_of(randomness.unwrap()),
        ).well_formed(),
        resolve_outcome_rejection(house, coinflip, randomness) is None ==> coinflip.settled(
            outcome_of(randomness.unwrap()),
        ).well_formed(),
        claim_rewards_rejection(house, coinflip, caller) is None ==> coinflip.paid().well_formed(),
{
}

/// The wager that `open_wager` creates is accepted by `request_outcome` on
/// behalf of its player under any treasury that is not paused; committing it
/// gives the wager that `create_and_play_coinflip` creates in one step.
pub proof fn law_opened_wager_can_be_committed(
    house: TreasuryView,
    player: Seq<u8>,
    amount: nat,
    choice: PlayerChoice,
    now: int,
)
    requires
        !house.paused,
    ensures
        request_outcome_rejection(house, WagerView::opened(player, amount, choice, now), player)
            is None,
        forall|force: Seq<u8>|
            (#[trigger] WagerView::opened(player, amount, choice, now).committed(force)).status
                == Status::Processing,
{
}

} // verus!
