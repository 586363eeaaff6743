//! The pricing engine: buying YES or NO exposure against the pool.
//!
//! A buy skims the protocol fee off the gross amount, adds only the remaining
//! *net* amount to the bought side's reserve, and reprices the opposite
//! reserve from the stored constant product. The shares minted are exactly
//! the opposite reserve's decrease, so over the whole market's life no share
//! is minted without an equal reserve movement backing it.

use vstd::prelude::*;
use vstd::arithmetic::div_mod::{lemma_div_denominator, lemma_fundamental_div_mod, lemma_mod_bound};
use vstd::arithmetic::mul::lemma_mul_is_associative;

use crate::errors::ErrorCode;
use crate::math::{checked_add_u128, checked_add_u64, checked_div_u128, checked_div_u64, checked_mul_u64};
use crate::state::{BuySharesEvent, Config, Market, UserPosition};
use crate::{precision_squared, BPS_DENOMINATOR, PRECISION};

verus! {

/// The protocol fee on a gross trade amount: `gross * fee_bps / 10000`,
/// rounded down.
pub open spec fn spec_fee(gross: u64, fee_bps: u16) -> int {
    (gross * fee_bps) / (BPS_DENOMINATOR as int)
}

/// What remains of a gross trade amount once the fee is skimmed; only this
/// net amount ever touches the pool.
pub open spec fn spec_net(gross: u64, fee_bps: u16) -> int {
    gross - spec_fee(gross, fee_bps)
}

/// The reserve of the side being bought.
pub open spec fn pool_in(m: Market, is_yes: bool) -> int {
    if is_yes {
        m.yes_liquidity as int
    } else {
        m.no_liquidity as int
    }
}

/// The reserve of the side opposite the one being bought.
pub open spec fn pool_out(m: Market, is_yes: bool) -> int {
    if is_yes {
        m.no_liquidity as int
    } else {
        m.yes_liquidity as int
    }
}

/// The opposite reserve after the bought side grows to `new_in`: the stored
/// constant divided by the new reserve, de-scaled to integer reserve units.
pub open spec fn spec_new_out(k: u128, new_in: int) -> int {
    (k as int) / (new_in * precision_squared())
}

/// Shares minted by a buy of `net` on the given side: the opposite reserve's
/// exact decrease.
pub open spec fn spec_shares_minted(m: Market, is_yes: bool, net: int) -> int {
    pool_out(m, is_yes) - spec_new_out(m.k_constant, pool_in(m, is_yes) + net)
}

/// Why a buy is rejected, or `None` when it goes through. The conditions are
/// tested in this order, and a rejected buy changes nothing:
/// trading must still be open, the amount positive, every arithmetic step in
/// range, the trade must leave the opposite reserve positive while minting at
/// least one share, and the shares minted must reach the caller's floor.
pub open spec fn buy_error(
    config: Config,
    m: Market,
    p: UserPosition,
    is_yes: bool,
    gross: u64,
    min_shares_out: u64,
    now: i64,
) -> Option<ErrorCode> {
    if m.resolved {
        Some(ErrorCode::MarketResolved)
    } else if now >= m.resolution_time {
        Some(ErrorCode::MarketExpired)
    } else if gross == 0 {
        Some(ErrorCode::InvalidAmount)
    } else if gross * config.fee_percentage > u64::MAX {
        Some(ErrorCode::MathOverflow)
    } else {
        let net = spec_net(gross, config.fee_percentage);
        let new_in = pool_in(m, is_yes) + net;
        if new_in > u64::MAX {
            Some(ErrorCode::MathOverflow)
        } else {
            let new_out = spec_new_out(m.k_constant, new_in);
            if new_out >= pool_out(m, is_yes) || new_out == 0 {
                Some(ErrorCode::InsufficientLiquidity)
            } else {
                let shares = pool_out(m, is_yes) - new_out;
                if shares < min_shares_out {
                    Some(ErrorCode::SlippageExceeded)
                } else if m.total_volume + gross > u64::MAX {
                    Some(ErrorCode::MathOverflow)
                } else if (if is_yes {
                    p.yes_shares + shares > u64::MAX
                } else {
                    p.no_shares + shares > u64::MAX
                }) {
                    Some(ErrorCode::MathOverflow)
                } else if (if is_yes {
                    m.total_yes_shares + shares > u128::MAX
                } else {
                    m.total_no_shares + shares > u128::MAX
                }) {
                    Some(ErrorCode::MathOverflow)
                } else {
                    None
                }
            }
        }
    }
}

/// The market record after a successful buy: reserves repriced from the net
/// amount, gross volume accumulated, and the bought side's outstanding share
/// total grown by the shares minted. Everything else is untouched.
pub open spec fn market_after_buy(m: Market, is_yes: bool, gross: u64, fee_bps: u16) -> Market {
    let net = spec_net(gross, fee_bps);
    let new_in = pool_in(m, is_yes) + net;
    let new_out = spec_new_out(m.k_constant, new_in);
    let shares = pool_out(m, is_yes) - new_out;
    Market {
        yes_liquidity: (if is_yes { new_in } else { new_out }) as u64,
        no_liquidity: (if is_yes { new_out } else { new_in }) as u64,
        total_volume: (m.total_volume + gross) as u64,
        total_yes_shares: (if is_yes {
            m.total_yes_shares + shares
        } else {
            m.total_yes_shares as int
        }) as u128,
        total_no_shares: (if is_yes {
            m.total_no_shares as int
        } else {
            m.total_no_shares + shares
        }) as u128,
        ..m
    }
}

/// The position record after a successful buy: adopted by the buyer if it was
/// fresh, with the minted shares added on the bought side.
pub open spec fn position_after_buy(
    p: UserPosition,
    caller: u64,
    market_id: u64,
    is_yes: bool,
    shares: int,
) -> UserPosition {
    UserPosition {
        user: caller,
        market_id,
        yes_shares: (if is_yes { p.yes_shares + shares } else { p.yes_shares as int }) as u64,
        no_shares: (if is_yes { p.no_shares as int } else { p.no_shares + shares }) as u64,
        claimed: p.claimed,
    }
}

/// The fee is a strict slice of a positive gross amount, so the net amount
/// that reaches the pool is always at least one unit.
pub proof fn lemma_fee_bounds(gross: u64, fee_bps: u16)
    requires
        fee_bps < 10_000,
        gross * fee_bps <= u64::MAX,
    ensures
        0 <= spec_fee(gross, fee_bps) <= gross,
        gross >= 1 ==> spec_fee(gross, fee_bps) < gross,
{
    let d = BPS_DENOMINATOR as int;
    let scaled = gross * fee_bps;
    lemma_fundamental_div_mod(scaled, d);
    lemma_mod_bound(scaled, d);
    assert(scaled >= 0) by (nonlinear_arith)
        requires
            gross >= 0,
            fee_bps >= 0,
            scaled == gross * fee_bps,
    ;
    assert(gross >= 1 ==> scaled <= gross * 10_000 - gross) by (nonlinear_arith)
        requires
            fee_bps < 10_000,
            gross >= 0,
            scaled == gross * fee_bps,
    ;
    assert(d * (scaled / d) <= scaled);
    assert(gross >= 1 ==> spec_fee(gross, fee_bps) < gross) by (nonlinear_arith)
        requires
            d == 10_000,
            d * spec_fee(gross, fee_bps) <= scaled,
            gross >= 1 ==> scaled <= gross * 10_000 - gross,
    ;
    assert(spec_fee(gross, fee_bps) <= gross);
}

/// The heart of the constant-product argument: growing the bought reserve to
/// `new_in` and repricing the other side as `k / (new_in * PRECISION^2)`
/// keeps the product of the reserves within one unit of each reserve below
/// the stored constant, and never raises the repriced reserve above where it
/// was.
pub proof fn lemma_pool_step_wf(in_res: int, out_res: int, k: int, net: int)
    requires
        1 <= in_res,
        1 <= out_res,
        in_res * out_res * precision_squared() <= k,
        k < (in_res + 1) * (out_res + 1) * precision_squared(),
        1 <= net,
        in_res + net <= u64::MAX,
    ensures
        ({
            let new_in = in_res + net;
            let new_out = k / (new_in * precision_squared());
            &&& 0 <= new_out <= out_res
            &&& new_in * new_out * precision_squared() <= k
            &&& k < (new_in + 1) * (new_out + 1) * precision_squared()
        }),
{
    let pp = precision_squared();
    let new_in = in_res + net;
    let d = new_in * pp;
    assert(pp == 1_000_000_000_000_000_000);
    assert(d > 0) by (nonlinear_arith)
        requires
            new_in >= 2,
            pp > 0,
            d == new_in * pp,
    ;
    let q = k / d;
    lemma_fundamental_div_mod(k, d);
    lemma_mod_bound(k, d);
    assert(k >= 0) by (nonlinear_arith)
        requires
            in_res >= 1,
            out_res >= 1,
            pp > 0,
            in_res * out_res * pp <= k,
    ;
    assert(q >= 0) by (nonlinear_arith)
        requires
            k >= 0,
            d > 0,
            k == d * q + k % d,
            k % d < d,
    ;
    assert(q <= out_res) by (nonlinear_arith)
        requires
            d == new_in * pp,
            new_in >= in_res + 1,
            in_res >= 1,
            out_res >= 1,
            pp > 0,
            q >= 0,
            d * q <= k,
            k < (in_res + 1) * (out_res + 1) * pp,
    ;
    assert(new_in * q * pp <= k) by (nonlinear_arith)
        requires
            d == new_in * pp,
            d * q <= k,
    ;
    assert(k < (new_in + 1) * (q + 1) * pp) by (nonlinear_arith)
        requires
            d == new_in * pp,
            k < d * q + d,
            new_in >= 1,
            pp > 0,
            q >= 0,
    ;
}

/// Buys `is_yes` exposure for `amount_lamports` gross.
///
/// The fee (`gross * fee_bps / 10000`) goes to the fee accumulator and only
/// the net remainder moves the pool: the bought reserve grows by net, the
/// opposite reserve is repriced from the stored constant, and the buyer is
/// minted the opposite reserve's exact decrease, credited both to the
/// position and to the market's outstanding total for that side.
///
/// The caller must separately move `fee` to the fee accumulator and
/// `gross - fee` to the market vault. A rejected buy changes nothing.
pub fn buy_shares(
    config: &Config,
    market: &mut Market,
    position: &mut UserPosition,
    caller: u64,
    is_yes: bool,
    amount_lamports: u64,
    min_shares_out: u64,
    now: i64,
) -> (r: Result<BuySharesEvent, ErrorCode>)
    requires
        config.wf(),
        old(market).wf(),
        old(position).wf(),
        caller != 0,
        old(position).is_fresh() || (old(position).user == caller && !old(position).claimed
            && old(position).consistent_with(*old(market))),
    ensures
        final(market).wf(),
        final(position).wf(),
        final(market).total_volume >= old(market).total_volume,
        match buy_error(
            *config,
            *old(market),
            *old(position),
            is_yes,
            amount_lamports,
            min_shares_out,
            now,
        ) {
            Some(e) => {
                &&& r == Err::<BuySharesEvent, ErrorCode>(e)
                &&& *final(market) == *old(market)
                &&& *final(position) == *old(position)
            },
            None => {
                let net = spec_net(amount_lamports, config.fee_percentage);
                let shares = spec_shares_minted(*old(market), is_yes, net);
                &&& *final(market) == market_after_buy(
                    *old(market),
                    is_yes,
                    amount_lamports,
                    config.fee_percentage,
                )
                &&& *final(position) == position_after_buy(
                    *old(position),
                    caller,
                    old(market).market_id,
                    is_yes,
                    shares,
                )
                &&& r == Ok::<BuySharesEvent, ErrorCode>(BuySharesEvent {
                    market_id: old(market).market_id,
                    user: caller,
                    is_yes,
                    shares: shares as u64,
                    yes_liquidity: final(market).yes_liquidity,
                    no_liquidity: final(market).no_liquidity,
                    timestamp: now,
                })
                &&& 1 <= shares
                &&& final(position).consistent_with(*final(market))
                &&& final(market).total_volume == old(market).total_volume + amount_lamports
            },
        },
{
    if market.resolved {
        return Err(ErrorCode::MarketResolved);
    }
    if now >= market.resolution_time {
        return Err(ErrorCode::MarketExpired);
    }
    if amount_lamports == 0 {
        return Err(ErrorCode::InvalidAmount);
    }

    let fee_scaled = match checked_mul_u64(amount_lamports, config.fee_percentage as u64) {
        Ok(v) => v,
        Err(e) => {
            return Err(e);
        },
    };
    let fee = match checked_div_u64(fee_scaled, BPS_DENOMINATOR) {
        Ok(v) => v,
        Err(e) => {
            return Err(e);
        },
    };
    proof {
        lemma_fee_bounds(amount_lamports, config.fee_percentage);
    }
    let net = amount_lamports - fee;

    let in_res: u64 = if is_yes { market.yes_liquidity } else { market.no_liquidity };
    let out_res: u64 = if is_yes { market.no_liquidity } else { market.yes_liquidity };

    let new_in_wide = match checked_add_u128(in_res as u128, net as u128) {
        Ok(v) => v,
        Err(e) => {
            return Err(e);
        },
    };
    if new_in_wide > u64::MAX as u128 {
        return Err(ErrorCode::MathOverflow);
    }
    let new_in = new_in_wide as u64;

    let new_in_scaled = new_in_wide * PRECISION;
    let quotient = match checked_div_u128(market.k_constant, new_in_scaled) {
        Ok(v) => v,
        Err(e) => {
            return Err(e);
        },
    };
    let new_out_wide = match checked_div_u128(quotient, PRECISION) {
        Ok(v) => v,
        Err(e) => {
            return Err(e);
        },
    };
    proof {
        lemma_div_denominator(
            market.k_constant as int,
            new_in_scaled as int,
            PRECISION as int,
        );
        lemma_mul_is_associative(new_in as int, PRECISION as int, PRECISION as int);
        assert(new_in_scaled * PRECISION == new_in * precision_squared());
        assert(new_out_wide == spec_new_out(market.k_constant, new_in as int));
    }

    if new_out_wide >= out_res as u128 || new_out_wide == 0 {
        return Err(ErrorCode::InsufficientLiquidity);
    }
    let new_out = new_out_wide as u64;
    let shares = out_res - new_out;
    if shares < min_shares_out {
        return Err(ErrorCode::SlippageExceeded);
    }

    let new_volume = match checked_add_u64(market.total_volume, amount_lamports) {
        Ok(v) => v,
        Err(e) => {
            return Err(e);
        },
    };
    let new_pos_yes: u64;
    let new_pos_no: u64;
    if is_yes {
        new_pos_yes = match checked_add_u64(position.yes_shares, shares) {
            Ok(v) => v,
            Err(e) => {
                return Err(e);
            },
        };
        new_pos_no = position.no_shares;
    } else {
        new_pos_yes = position.yes_shares;
        new_pos_no = match checked_add_u64(position.no_shares, shares) {
            Ok(v) => v,
            Err(e) => {
                return Err(e);
            },
        };
    }
    let new_total_yes: u128;
    let new_total_no: u128;
    if is_yes {
        new_total_yes = match checked_add_u128(market.total_yes_shares, shares as u128) {
            Ok(v) => v,
            Err(e) => {
                return Err(e);
            },
        };
        new_total_no = market.total_no_shares;
    } else {
        new_total_yes = market.total_yes_shares;
        new_total_no = match checked_add_u128(market.total_no_shares, shares as u128) {
            Ok(v) => v,
            Err(e) => {
                return Err(e);
            },
        };
    }

    proof {
        if is_yes {
            lemma_pool_step_wf(
                market.yes_liquidity as int,
                market.no_liquidity as int,
                market.k_constant as int,
                net as int,
            );
        } else {
            assert(market.no_liquidity * market.yes_liquidity * precision_squared()
                == market.yes_liquidity * market.no_liquidity * precision_squared())
                by (nonlinear_arith);
            assert((market.no_liquidity + 1) * (market.yes_liquidity + 1) * precision_squared()
                == (market.yes_liquidity + 1) * (market.no_liquidity + 1) * precision_squared())
                by (nonlinear_arith);
            lemma_pool_step_wf(
                market.no_liquidity as int,
                market.yes_liquidity as int,
                market.k_constant as int,
                net as int,
            );
            assert(new_in * new_out * precision_squared()
                == new_out * new_in * precision_squared()) by (nonlinear_arith);
            assert((new_in + 1) * (new_out + 1) * precision_squared()
                == (new_out + 1) * (new_in + 1) * precision_squared()) by (nonlinear_arith);
        }
    }

    market.yes_liquidity = if is_yes { new_in } else { new_out };
    market.no_liquidity = if is_yes { new_out } else { new_in };
    market.total_volume = new_volume;
    market.total_yes_shares = new_total_yes;
    market.total_no_shares = new_total_no;

    if position.user == 0 {
        position.user = caller;
        position.market_id = market.market_id;
    }
    position.yes_shares = new_pos_yes;
    position.no_shares = new_pos_no;

    Ok(BuySharesEvent {
        market_id: market.market_id,
        user: caller,
        is_yes,
        shares,
        yes_liquidity: market.yes_liquidity,
        no_liquidity: market.no_liquidity,
        timestamp: now,
    })
}

} // verus!
