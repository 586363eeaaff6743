//! A binary-outcome prediction market priced by a constant-product automated
//! market maker.
//!
//! Users buy YES or NO exposure against a shared liquidity pool; an operator
//! resolves the market to a boolean outcome at or after a deadline; winners
//! redeem a pro-rata slice of the market's custodial vault. This crate holds
//! the pricing and settlement engine: fixed-point constant-product pricing,
//! cumulative share accounting, and the payout arithmetic that distributes a
//! shrinking vault fairly across claims made in arbitrary order.
//!
//! Identities (the operator, buyers, claimants) are opaque non-zero account
//! numbers, and all value transfers are delegated to the surrounding system:
//! each operation returns the amounts to move, it never moves them itself.

use vstd::prelude::*;

pub mod errors;
pub mod math;
pub mod state;
pub mod market;
pub mod pricing;
pub mod settlement;
pub mod laws;

verus! {

/// Fixed-point scale used by all pricing arithmetic: nine decimal digits.
pub const PRECISION: u128 = 1_000_000_000;

/// The fee rate denominator: fee rates are expressed in basis points.
pub const BPS_DENOMINATOR: u64 = 10_000;

/// The smallest seed amount accepted at market creation, to deter dust markets.
pub const MIN_INITIAL_LIQUIDITY: u64 = 10_000_000;

/// `PRECISION * PRECISION` as a mathematical integer; the constant-product
/// invariant is stored scaled by this factor.
pub open spec fn precision_squared() -> int {
    (PRECISION * PRECISION) as int
}

} // verus!
