//! The settlement engine: resolution, claims, fee withdrawal, and the
//! residual sweep.
//!
//! A claim pays `winning_shares * vault_balance / total_outstanding`, rounded
//! down, against the custodial balance observed fresh at call time — never a
//! cached one. It then decrements the outstanding total by exactly the shares
//! settled, so the payout-per-share rate carried into the next claim never
//! falls: claims may arrive in any order and the vault is still distributed
//! pro rata (see [`crate::laws`]).

use vstd::prelude::*;
use vstd::arithmetic::div_mod::{
    lemma_div_is_ordered, lemma_div_multiples_vanish, lemma_div_pos_is_pos,
    lemma_fundamental_div_mod, lemma_mod_bound,
};
use vstd::arithmetic::mul::{lemma_mul_inequality, lemma_mul_nonnegative};

use crate::errors::ErrorCode;
use crate::math::mul_div_u128;
use crate::state::{Config, Market, UserPosition};

verus! {

/// A claimant's payout: their winning shares' pro-rata slice of the vault,
/// rounded down (the vault keeps the remainder as dust).
pub open spec fn spec_payout(winning: int, vault: int, total: int) -> int {
    winning * vault / total
}

/// The shares a position holds on the winning side.
pub open spec fn winning_shares_of(m: Market, p: UserPosition) -> int {
    if m.outcome == Some(true) {
        p.yes_shares as int
    } else {
        p.no_shares as int
    }
}

/// The market's outstanding total on the winning side.
pub open spec fn total_winning_shares_of(m: Market) -> int {
    if m.outcome == Some(true) {
        m.total_yes_shares as int
    } else {
        m.total_no_shares as int
    }
}

/// Why a claim is rejected, or `None` when it pays out. The conditions are
/// tested in this order, and a rejected claim changes nothing: the claimant
/// must own the position, the market must be resolved, the position not yet
/// settled, and the claim must hold winning shares worth at least one unit of
/// the vault.
pub open spec fn claim_error(
    m: Market,
    p: UserPosition,
    caller: u64,
    vault_balance: u64,
) -> Option<ErrorCode> {
    if p.user != caller {
        Some(ErrorCode::Unauthorized)
    } else if !m.resolved {
        Some(ErrorCode::MarketNotResolved)
    } else if p.claimed {
        Some(ErrorCode::AlreadyClaimed)
    } else if m.outcome is None {
        Some(ErrorCode::MarketNotResolved)
    } else {
        let winning = winning_shares_of(m, p);
        let total = total_winning_shares_of(m);
        if winning == 0 {
            Some(ErrorCode::NoWinningShares)
        } else if total == 0 {
            Some(ErrorCode::NoWinningShares)
        } else if spec_payout(winning, vault_balance as int, total) == 0 {
            Some(ErrorCode::NoWinningShares)
        } else {
            None
        }
    }
}

/// A payout of shares that are part of the outstanding total never exceeds
/// the vault, and never exceeds the claimant's exact pro-rata slice.
pub proof fn lemma_payout_no_overpay(winning: int, vault: int, total: int)
    requires
        1 <= winning <= total,
        0 <= vault,
    ensures
        0 <= spec_payout(winning, vault, total) <= vault,
        spec_payout(winning, vault, total) * total <= winning * vault,
{
    lemma_mul_nonnegative(winning, vault);
    lemma_div_pos_is_pos(winning * vault, total);
    lemma_mul_inequality(winning, total, vault);
    lemma_div_is_ordered(winning * vault, total * vault, total);
    lemma_div_multiples_vanish(vault, total);
    assert(total * vault / total == vault);
    lemma_fundamental_div_mod(winning * vault, total);
    lemma_mod_bound(winning * vault, total);
    assert(spec_payout(winning, vault, total) * total <= winning * vault) by (nonlinear_arith)
        requires
            winning * vault == total * spec_payout(winning, vault, total) + (winning * vault)
                % total,
            0 <= (winning * vault) % total,
    ;
}

/// Settles the caller's position against a resolved market.
///
/// `vault_balance` must be the market vault's balance observed at call time.
/// On success, the returned payout is what the caller must be transferred out
/// of the vault; the winning side's outstanding total shrinks by exactly the
/// shares settled and the position becomes a zeroed, permanently claimed
/// tombstone. A rejected claim changes nothing and moves no funds.
pub fn claim_winnings(
    market: &mut Market,
    position: &mut UserPosition,
    caller: u64,
    vault_balance: u64,
) -> (r: Result<u64, ErrorCode>)
    requires
        old(market).wf(),
        old(position).wf(),
        old(position).consistent_with(*old(market)),
    ensures
        final(market).wf(),
        final(position).wf(),
        final(position).consistent_with(*final(market)),
        match claim_error(*old(market), *old(position), caller, vault_balance) {
            Some(e) => {
                &&& r == Err::<u64, ErrorCode>(e)
                &&& *final(market) == *old(market)
                &&& *final(position) == *old(position)
            },
            None => {
                let winning = winning_shares_of(*old(market), *old(position));
                let total = total_winning_shares_of(*old(market));
                let payout = spec_payout(winning, vault_balance as int, total);
                &&& r == Ok::<u64, ErrorCode>(payout as u64)
                &&& 1 <= payout <= vault_balance
                &&& *final(market) == (Market {
                    total_yes_shares: (if old(market).outcome == Some(true) {
                        old(market).total_yes_shares - winning
                    } else {
                        old(market).total_yes_shares as int
                    }) as u128,
                    total_no_shares: (if old(market).outcome == Some(true) {
                        old(market).total_no_shares as int
                    } else {
                        old(market).total_no_shares - winning
                    }) as u128,
                    ..*old(market)
                })
                &&& *final(position) == (UserPosition {
                    yes_shares: 0,
                    no_shares: 0,
                    claimed: true,
                    ..*old(position)
                })
            },
        },
{
    if position.user != caller {
        return Err(ErrorCode::Unauthorized);
    }
    if !market.resolved {
        return Err(ErrorCode::MarketNotResolved);
    }
    if position.claimed {
        return Err(ErrorCode::AlreadyClaimed);
    }
    let outcome_yes = match market.outcome {
        Some(o) => o,
        None => {
            return Err(ErrorCode::MarketNotResolved);
        },
    };

    let winning: u64 = if outcome_yes { position.yes_shares } else { position.no_shares };
    if winning == 0 {
        return Err(ErrorCode::NoWinningShares);
    }
    let total: u128 = if outcome_yes {
        market.total_yes_shares
    } else {
        market.total_no_shares
    };
    if total == 0 {
        return Err(ErrorCode::NoWinningShares);
    }

    proof {
        lemma_mul_inequality(winning as int, u64::MAX as int, vault_balance as int);
        lemma_mul_inequality(vault_balance as int, u64::MAX as int, u64::MAX as int);
        lemma_mul_nonnegative(winning as int, vault_balance as int);
    }
    let payout_wide = match mul_div_u128(winning as u128, vault_balance as u128, total) {
        Ok(v) => v,
        Err(e) => {
            return Err(e);
        },
    };
    proof {
        lemma_payout_no_overpay(winning as int, vault_balance as int, total as int);
    }
    if payout_wide == 0 {
        return Err(ErrorCode::NoWinningShares);
    }
    let payout = payout_wide as u64;

    if outcome_yes {
        market.total_yes_shares = market.total_yes_shares - winning as u128;
    } else {
        market.total_no_shares = market.total_no_shares - winning as u128;
    }
    position.yes_shares = 0;
    position.no_shares = 0;
    position.claimed = true;

    Ok(payout)
}

/// Fixes the market's outcome. Only the operator may resolve, only once, and
/// only from the resolution time onward; the transition is one-way.
pub fn resolve_market(
    config: &Config,
    market: &mut Market,
    caller: u64,
    outcome_yes: bool,
    now: i64,
) -> (r: Result<(), ErrorCode>)
    requires
        old(market).wf(),
    ensures
        final(market).wf(),
        old(market).resolved ==> final(market).resolved,
        if caller != config.authority {
            r == Err::<(), ErrorCode>(ErrorCode::Unauthorized) && *final(market) == *old(market)
        } else if old(market).resolved {
            r == Err::<(), ErrorCode>(ErrorCode::MarketResolved) && *final(market) == *old(
                market,
            )
        } else if now < old(market).resolution_time {
            r == Err::<(), ErrorCode>(ErrorCode::MarketNotExpired) && *final(market) == *old(
                market,
            )
        } else {
            r == Ok::<(), ErrorCode>(()) && *final(market) == (Market {
                resolved: true,
                outcome: Some(outcome_yes),
                ..*old(market)
            })
        },
{
    if caller != config.authority {
        return Err(ErrorCode::Unauthorized);
    }
    if market.resolved {
        return Err(ErrorCode::MarketResolved);
    }
    if now < market.resolution_time {
        return Err(ErrorCode::MarketNotExpired);
    }
    market.resolved = true;
    market.outcome = Some(outcome_yes);
    Ok(())
}

/// Approves a fee withdrawal: the operator may draw any amount up to the fee
/// accumulator's balance. Returns the amount the caller must transfer from
/// the fee accumulator to the operator; pricing state is never involved.
pub fn withdraw_fees(config: &Config, caller: u64, amount: u64, fee_vault_balance: u64) -> (r:
    Result<u64, ErrorCode>)
    ensures
        r == if caller != config.authority {
            Err::<u64, ErrorCode>(ErrorCode::Unauthorized)
        } else if amount > fee_vault_balance {
            Err::<u64, ErrorCode>(ErrorCode::InsufficientFunds)
        } else {
            Ok::<u64, ErrorCode>(amount)
        },
{
    if caller != config.authority {
        return Err(ErrorCode::Unauthorized);
    }
    if amount > fee_vault_balance {
        return Err(ErrorCode::InsufficientFunds);
    }
    Ok(amount)
}

/// Approves sweeping a resolved market's residual vault balance to the
/// operator, returning the full amount to transfer.
///
/// Nothing here checks that every winning position has claimed: the
/// surrounding system must gate this behind a claim-window deadline, or the
/// operator can pre-empt legitimate unclaimed payouts.
pub fn sweep_funds(config: &Config, market: &Market, caller: u64, vault_balance: u64) -> (r:
    Result<u64, ErrorCode>)
    ensures
        r == if caller != config.authority {
            Err::<u64, ErrorCode>(ErrorCode::Unauthorized)
        } else if !market.resolved {
            Err::<u64, ErrorCode>(ErrorCode::MarketNotResolved)
        } else if vault_balance == 0 {
            Err::<u64, ErrorCode>(ErrorCode::NoRemainingFunds)
        } else {
            Ok::<u64, ErrorCode>(vault_balance)
        },
{
    if caller != config.authority {
        return Err(ErrorCode::Unauthorized);
    }
    if !market.resolved {
        return Err(ErrorCode::MarketNotResolved);
    }
    if vault_balance == 0 {
        return Err(ErrorCode::NoRemainingFunds);
    }
    Ok(vault_balance)
}

} // verus!
