//! The error kinds surfaced by every operation of the engine.

use vstd::prelude::*;

verus! {

/// Why an operation was rejected. Every failure is deterministic in the
/// operation's inputs and leaves all state unmodified.
#[derive(Clone, Copy, Debug, PartialEq, Eq, Structural)]
pub enum ErrorCode {
    /// The caller lacks the required role.
    Unauthorized,
    /// The market question exceeds 200 characters.
    QuestionTooLong,
    /// The market description exceeds 1000 characters.
    DescriptionTooLong,
    /// The market category exceeds 50 characters.
    CategoryTooLong,
    /// The resolution time is not strictly in the future.
    InvalidResolutionTime,
    /// The seed liquidity is below the minimum floor.
    InsufficientInitialLiquidity,
    /// The market is already resolved.
    MarketResolved,
    /// The market's resolution time has passed, so trading is closed.
    MarketExpired,
    /// A trade amount of zero was supplied.
    InvalidAmount,
    /// An arithmetic step would overflow; never silently wrapped.
    MathOverflow,
    /// A division by zero was attempted; never silently absorbed.
    DivideByZero,
    /// The trade would drain the bought side of the pool, or mint no shares.
    InsufficientLiquidity,
    /// The shares minted fall below the caller's slippage floor.
    SlippageExceeded,
    /// The market's resolution time has not been reached yet.
    MarketNotExpired,
    /// The market is not resolved yet.
    MarketNotResolved,
    /// The claimant holds no shares of the winning side, or the payout
    /// would round down to nothing.
    NoWinningShares,
    /// The claimant's position was already settled.
    AlreadyClaimed,
    /// The market vault holds nothing to sweep.
    NoRemainingFunds,
    /// A fee withdrawal exceeds the accumulated fee balance.
    InsufficientFunds,
}

} // verus!
