//! The two persistent records and the small enums they are built from.

use vstd::prelude::*;
use crate::outcome::player_won;
use crate::{MAX_BET, MIN_BET};

verus! {

/// Where a wager stands in its lifecycle.
#[derive(Debug, Clone, Copy, PartialEq, Eq, Structural)]
pub enum Status {
    Waiting,
    Processing,
    Finished,
}

impl Status {
    /// Position of a status in the lifecycle; a wager only moves to a higher one.
    pub open spec fn rank(self) -> nat {
        match self {
            Status::Waiting => 0,
            Status::Processing => 1,
            Status::Finished => 2,
        }
    }
}

impl Default for Status {
    fn default() -> (s: Status)
        ensures
            s == Status::Waiting,
    {
        Status::Waiting
    }
}

/// How a game came out.
#[derive(Debug, Clone, Copy, PartialEq, Eq, Structural)]
pub enum GameResult {
    Option1Wins,
    Option2Wins,
    Tie,
}

/// The side a player bets on.
#[derive(Debug, Clone, Copy, PartialEq, Eq, Structural)]
pub enum PlayerChoice {
    Option1,
    Option2,
    Tie,
}

/// Tells whether two identities are the same.
pub fn same_identity(a: &[u8; 32], b: &[u8; 32]) -> (same: bool)
    ensures
        same == (a@ == b@),
{
    let mut i: usize = 0;
    while i < 32
        invariant
            i <= 32,
            forall|j: int| 0 <= j < i ==> a@[j] == b@[j],
        decreases 32 - i,
    {
        if a[i] != b[i] {
            return false;
        }
        i += 1;
    }
    assert(a@ =~= b@);
    true
}

/// The pooled bankroll that backs every wager.
#[derive(Debug, Clone, Copy, PartialEq, Eq)]
pub struct HouseTreasury {
    /// Identity allowed to administer the treasury.
    pub authority: [u8; 32],
    /// Lamports the treasury accounts for.
    pub balance: u64,
    /// While set, every operation but the pause switch is rejected.
    pub paused: bool,
}

/// One wager, from stake placement to settlement.
#[derive(Debug, Clone, Copy, PartialEq, Eq)]
pub struct Coinflip {
    /// Identity of the bettor.
    pub player: [u8; 32],
    /// Lamports staked.
    pub amount: u64,
    /// The side the player bets on.
    pub player_choice: PlayerChoice,
    /// Commitment sent with the randomness request.
    pub force: [u8; 32],
    /// The outcome, once the game is finished.
    pub result: Option<GameResult>,
    /// Lifecycle state.
    pub status: Status,
    /// Time at which the stake was placed, in seconds.
    pub last_play_time: i64,
    /// Set once the wager has been paid out or settled in one step.
    pub claimed: bool,
}

/// The treasury as a mathematical value.
pub struct TreasuryView {
    /// Identity allowed to administer the treasury.
    pub authority: Seq<u8>,
    /// Lamports the treasury accounts for.
    pub balance: nat,
    /// Whether the treasury is paused.
    pub paused: bool,
}

impl View for HouseTreasury {
    type V = TreasuryView;

    open spec fn view(&self) -> TreasuryView {
        TreasuryView {
            authority: self.authority@,
            balance: self.balance as nat,
            paused: self.paused,
        }
    }
}

impl TreasuryView {
    /// The treasury that `initialize_house` creates: empty and not paused.
    pub open spec fn created(authority: Seq<u8>) -> TreasuryView {
        TreasuryView { authority, balance: 0, paused: false }
    }

    /// The treasury after `amount` has been added to its balance.
    pub open spec fn credited(self, amount: nat) -> TreasuryView {
        TreasuryView { balance: self.balance + amount, ..self }
    }

    /// The treasury after `amount` has been taken from its balance.
    pub open spec fn debited(self, amount: nat) -> TreasuryView
        recommends
            amount <= self.balance,
    {
        TreasuryView { balance: (self.balance - amount) as nat, ..self }
    }

    /// The treasury after its pause switch has been flipped.
    pub open spec fn toggled(self) -> TreasuryView {
        TreasuryView { paused: !self.paused, ..self }
    }
}

/// A wager as a mathematical value.
pub struct WagerView {
    /// Identity of the bettor.
    pub player: Seq<u8>,
    /// Lamports staked.
    pub amount: nat,
    /// The side the player bets on.
    pub player_choice: PlayerChoice,
    /// Commitment sent with the randomness request.
    pub force: Seq<u8>,
    /// The outcome, once the game is finished.
    pub result: Option<GameResult>,
    /// Lifecycle state.
    pub status: Status,
    /// Time at which the stake was placed, in seconds.
    pub last_play_time: int,
    /// Whether the wager has been paid out or settled in one step.
    pub claimed: bool,
}

impl View for Coinflip {
    type V = WagerView;

    open spec fn view(&self) -> WagerView {
        WagerView {
            player: self.player@,
            amount: self.amount as nat,
            player_choice: self.player_choice,
            force: self.force@,
            result: self.result,
            status: self.status,
            last_play_time: self.last_play_time as int,
            claimed: self.claimed,
        }
    }
}

impl WagerView {
    /// The wager that a stake of `amount` on `choice` opens at the time `now`:
    /// waiting, with an all-zero commitment and no outcome.
    pub open spec fn opened(player: Seq<u8>, amount: nat, choice: PlayerChoice, now: int)
        -> WagerView {
        WagerView {
            player,
            amount,
            player_choice: choice,
            force: Seq::new(32, |i: int| 0u8),
            result: None,
            status: Status::Waiting,
            last_play_time: now,
            claimed: false,
        }
    }

    /// The wager once it is bound to the randomness request made with `force`.
    pub open spec fn committed(self, force: Seq<u8>) -> WagerView {
        WagerView { force, status: Status::Processing, ..self }
    }

    /// The wager once its outcome is fixed and its payout is still to be
    /// claimed.
    pub open spec fn finalized(self, outcome: GameResult) -> WagerView {
        WagerView { result: Some(outcome), status: Status::Finished, claimed: false, ..self }
    }

    /// The wager once its payout has been claimed.
    pub open spec fn paid(self) -> WagerView {
        WagerView { claimed: true, ..self }
    }

    /// The wager once its outcome is fixed and paid in one step.
    pub open spec fn settled(self, outcome: GameResult) -> WagerView {
        self.finalized(outcome).paid()
    }

    /// What holds of every wager that the operations of this crate produce:
    /// the stake is within bounds, the outcome is known exactly when the game
    /// is finished, and only a finished game has been paid out.
    pub open spec fn well_formed(self) -> bool {
        &&& MIN_BET <= self.amount <= MAX_BET
        &&& (self.result is Some <==> self.status == Status::Finished)
        &&& (self.claimed ==> self.status == Status::Finished)
    }

    /// Whether the wager still occupies its room: the game is not finished,
    /// or the player has won and has not been paid yet.
    pub open spec fn is_live(self) -> bool {
        match self.result {
            Some(outcome) => self.status != Status::Finished || (player_won(
                outcome,
                self.player_choice,
            ) && !self.claimed),
            None => self.status != Status::Finished,
        }
    }

    /// Whether two states of a wager agree on what was bet: the player, the
    /// stake, the choice and the time of play.
    pub open spec fn same_bet(self, other: WagerView) -> bool {
        &&& self.player == other.player
        &&& self.amount == other.amount
        &&& self.player_choice == other.player_choice
        &&& self.last_play_time == other.last_play_time
    }
}

} // verus!
