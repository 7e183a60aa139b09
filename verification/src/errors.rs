//! Why an operation was rejected.

use vstd::prelude::*;

verus! {

/// The random value for a wager has not arrived yet. Expected and retryable.
#[derive(Debug, Clone, Copy, PartialEq, Eq, Structural)]
pub enum StillProcessing {
    StillProcessing,
}

/// An amount outside what an operation accepts.
#[derive(Debug, Clone, Copy, PartialEq, Eq, Structural)]
pub enum InvalidAmount {
    TooLow,
    TooHigh,
    ZeroAmount,
}

/// The treasury cannot cover what an operation asks of it.
#[derive(Debug, Clone, Copy, PartialEq, Eq, Structural)]
pub enum HouseError {
    InsufficientFunds,
}

/// Failures that concern the program as a whole.
#[derive(Debug, Clone, Copy, PartialEq, Eq, Structural)]
pub enum ProgramError {
    ProgramPaused,
    ArithmeticOverflow,
}

/// A room was played again before its cooldown had passed.
#[derive(Debug, Clone, Copy, PartialEq, Eq, Structural)]
pub enum RateLimitError {
    TooManyRequests,
}

/// An argument that is malformed whatever the state.
#[derive(Debug, Clone, Copy, PartialEq, Eq, Structural)]
pub enum InvalidInput {
    RoomIdTooLong,
}

/// A claim on a wager that the player lost.
#[derive(Debug, Clone, Copy, PartialEq, Eq, Structural)]
pub enum GameError {
    PlayerDidNotWin,
}

/// A record or a caller that an operation does not accept.
#[derive(Debug, Clone, Copy, PartialEq, Eq, Structural)]
pub enum ConstraintError {
    /// A treasury already exists.
    AlreadyInitialized,
    /// The caller is not the identity the operation is reserved for.
    Unauthorized,
    /// The wager is not in the state the operation starts from.
    WrongStatus,
    /// The room still holds a wager that has not been settled.
    RoomOccupied,
    /// The wager has been paid out already.
    AlreadyClaimed,
}

/// Every way an operation of this crate can fail.
#[derive(Debug, Clone, Copy, PartialEq, Eq, Structural)]
pub enum CoinflipError {
    StillProcessing(StillProcessing),
    InvalidAmount(InvalidAmount),
    House(HouseError),
    Program(ProgramError),
    RateLimit(RateLimitError),
    InvalidInput(InvalidInput),
    Game(GameError),
    Constraint(ConstraintError),
}

impl CoinflipError {
    /// Whether the failure is the expected "ask again later" of a poll.
    pub open spec fn spec_is_retryable(self) -> bool {
        self is StillProcessing
    }

    /// Whether the failure is the expected "ask again later" of a poll.
    #[verifier::when_used_as_spec(spec_is_retryable)]
    pub fn is_retryable(self) -> (r: bool)
        ensures
            r == self.spec_is_retryable(),
    {
        match self {
            CoinflipError::StillProcessing(_) => true,
            _ => false,
        }
    }
}

} // verus!
