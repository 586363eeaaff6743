//! The engine's data model: deployment configuration, markets, and positions.
//!
//! Identities are opaque non-zero account numbers; the number `0` is reserved
//! to mean "no account", so a zeroed position record is one that has never
//! been used.

use vstd::prelude::*;

use crate::precision_squared;

verus! {

/// Per-deployment parameters: the operator identity, the running market
/// counter, and the protocol fee rate in basis points. Created once; only
/// market creation mutates it (the counter).
#[derive(Clone, Copy, Debug, PartialEq, Eq, Structural)]
pub struct Config {
    /// The operator: the only identity allowed to create and resolve markets,
    /// withdraw fees, and sweep residual funds.
    pub authority: u64,
    /// How many markets this deployment has created.
    pub market_count: u64,
    /// Protocol fee rate in basis points (e.g. 200 = 2%), skimmed off every
    /// buy before pricing.
    pub fee_percentage: u16,
}

impl Config {
    /// The configuration invariant: a real operator, and a fee rate strictly
    /// below 100%.
    pub open spec fn wf(self) -> bool {
        &&& self.authority != 0
        &&& self.fee_percentage < 10_000
    }
}

/// One constant-product pool per question.
///
/// `yes_liquidity` and `no_liquidity` are *virtual* pricing reserves: the
/// funds themselves live in an external custodial vault. `total_yes_shares`
/// and `total_no_shares` count the shares still outstanding (unclaimed), not
/// the lifetime totals: settlement decrements them.
#[derive(Clone, Debug, PartialEq, Eq)]
pub struct Market {
    /// Caller-chosen identifier, unique per deployment.
    pub market_id: u64,
    /// The operator that created the market.
    pub authority: u64,
    /// The question being predicted; at most 200 characters.
    pub question: String,
    /// Free-form details; at most 1000 characters.
    pub description: String,
    /// Grouping label; at most 50 characters.
    pub category: String,
    /// Trading closes at this time; resolution is allowed from it onward.
    pub resolution_time: i64,
    /// When the market was created; strictly before `resolution_time`.
    pub created_at: i64,
    /// The seed amount both reserves started from.
    pub initial_liquidity: u64,
    /// Virtual YES-side reserve, in base units.
    pub yes_liquidity: u64,
    /// Virtual NO-side reserve, in base units.
    pub no_liquidity: u64,
    /// The constant-product invariant, scaled by `PRECISION` squared.
    pub k_constant: u128,
    /// Sum of the gross amounts of every buy; monotonically non-decreasing.
    pub total_volume: u64,
    /// Whether the outcome has been fixed; a one-way transition.
    pub resolved: bool,
    /// The fixed outcome; `Some` exactly when `resolved`.
    pub outcome: Option<bool>,
    /// YES shares still outstanding (minted and not yet claimed).
    pub total_yes_shares: u128,
    /// NO shares still outstanding (minted and not yet claimed).
    pub total_no_shares: u128,
}

impl Market {
    /// The market invariant, established at creation and preserved by every
    /// operation: both reserves stay positive, and their product tracks the
    /// stored constant `k_constant` to within one unit of each reserve —
    /// `yes * no * PRECISION^2 <= k < (yes + 1) * (no + 1) * PRECISION^2`.
    pub open spec fn wf(self) -> bool {
        &&& 1 <= self.yes_liquidity
        &&& 1 <= self.no_liquidity
        &&& self.yes_liquidity * self.no_liquidity * precision_squared() <= self.k_constant
        &&& self.k_constant < (self.yes_liquidity + 1) * (self.no_liquidity + 1)
            * precision_squared()
        &&& self.created_at < self.resolution_time
        &&& self.resolved ==> self.outcome is Some
        &&& self.question@.len() <= 200
        &&& self.description@.len() <= 1000
        &&& self.category@.len() <= 50
    }
}

/// One record per (user, market): shares held per outcome and the claim
/// status. Created on a user's first buy; once claimed it stays behind as a
/// zeroed tombstone.
#[derive(Clone, Copy, Debug, PartialEq, Eq, Structural)]
pub struct UserPosition {
    /// The owning identity, or `0` while the record is still unused.
    pub user: u64,
    /// The market this position belongs to.
    pub market_id: u64,
    /// YES shares held.
    pub yes_shares: u64,
    /// NO shares held.
    pub no_shares: u64,
    /// Whether this position has been settled; permanent once set.
    pub claimed: bool,
}

impl UserPosition {
    /// The position invariant: a settled position holds no shares.
    pub open spec fn wf(self) -> bool {
        self.claimed ==> self.yes_shares == 0 && self.no_shares == 0
    }

    /// A never-used record: no owner, no shares, not claimed. A fresh buy
    /// adopts such a record for the buyer.
    pub open spec fn is_fresh(self) -> bool {
        &&& self.user == 0
        &&& self.yes_shares == 0
        &&& self.no_shares == 0
        &&& !self.claimed
    }

    /// The position belongs to this market, and its share counts are part of
    /// the market's outstanding totals. Buys and claims preserve this.
    pub open spec fn consistent_with(self, m: Market) -> bool {
        &&& self.market_id == m.market_id
        &&& self.yes_shares <= m.total_yes_shares
        &&& self.no_shares <= m.total_no_shares
    }
}

/// What a successful buy did: the shares minted and the post-trade reserves.
#[derive(Clone, Copy, Debug, PartialEq, Eq, Structural)]
pub struct BuySharesEvent {
    /// The market traded against.
    pub market_id: u64,
    /// The buyer.
    pub user: u64,
    /// Which side was bought.
    pub is_yes: bool,
    /// Shares minted to the buyer.
    pub shares: u64,
    /// YES reserve after the trade.
    pub yes_liquidity: u64,
    /// NO reserve after the trade.
    pub no_liquidity: u64,
    /// The externally supplied time of the trade.
    pub timestamp: i64,
}

} // verus!
