//! The engine's global guarantees, stated and proved over whole sequences of
//! operations rather than single calls.
//!
//! The pool laws speak of reserves as mathematical integers and fold
//! [`pool_step`] — exactly the reserve movement a successful
//! [`crate::pricing::buy_shares`] performs with the net amount
//! ([`lemma_buy_moves_reserves_as_pool_step`]). The settlement laws fold
//! [`claim_state_after`] — exactly the (vault, outstanding-total) movement a
//! successful [`crate::settlement::claim_winnings`] performs.

use vstd::prelude::*;
use vstd::arithmetic::div_mod::{lemma_div_multiples_vanish, lemma_fundamental_div_mod, lemma_mod_bound};

use crate::precision_squared;
use crate::pricing::{
    lemma_pool_step_wf, market_after_buy, pool_in, pool_out, spec_net, spec_new_out,
};
use crate::errors::ErrorCode;
use crate::settlement::{claim_error, lemma_payout_no_overpay, spec_payout};
use crate::state::{Market, UserPosition};

verus! {

// ---------------------------------------------------------------------------
// Pricing laws
// ---------------------------------------------------------------------------

/// The pool-level well-formedness the pricing engine maintains: both reserves
/// positive and their product within one unit of each reserve of the stored
/// constant `k` (scaled by `PRECISION` squared).
pub open spec fn pool_wf(yes: int, no: int, k: int) -> bool {
    &&& 1 <= yes
    &&& 1 <= no
    &&& yes * no * precision_squared() <= k
    &&& k < (yes + 1) * (no + 1) * precision_squared()
}

/// One buy's reserve movement: the bought side grows by the net amount, the
/// opposite side is repriced from the constant.
pub open spec fn pool_step(yes: int, no: int, k: int, is_yes: bool, net: int) -> (int, int) {
    let in_res = if is_yes { yes } else { no };
    let new_in = in_res + net;
    let new_out = k / (new_in * precision_squared());
    if is_yes {
        (new_in, new_out)
    } else {
        (new_out, new_in)
    }
}

/// The conditions under which the pricing engine lets a buy of `net` through:
/// a positive net amount, a bought reserve that still fits its word, and a
/// repriced reserve that stays positive while strictly shrinking.
pub open spec fn trade_accepted(yes: int, no: int, k: int, is_yes: bool, net: int) -> bool {
    let in_res = if is_yes { yes } else { no };
    let out_res = if is_yes { no } else { yes };
    let new_out = k / ((in_res + net) * precision_squared());
    &&& 1 <= net
    &&& in_res + net <= u64::MAX
    &&& 1 <= new_out < out_res
}

/// Whether a whole sequence of `(is_yes, net)` buys is accepted, each against
/// the pool state the previous ones left behind.
pub open spec fn trades_accepted(yes: int, no: int, k: int, trades: Seq<(bool, int)>) -> bool
    decreases trades.len(),
{
    trades.len() == 0 || {
        &&& trade_accepted(yes, no, k, trades[0].0, trades[0].1)
        &&& {
            let p = pool_step(yes, no, k, trades[0].0, trades[0].1);
            trades_accepted(p.0, p.1, k, trades.drop_first())
        }
    }
}

/// The reserves after a sequence of buys, each applied to the pool state the
/// previous ones left behind.
pub open spec fn pool_after_trades(yes: int, no: int, k: int, trades: Seq<(bool, int)>) -> (
    int,
    int,
)
    decreases trades.len(),
{
    if trades.len() == 0 {
        (yes, no)
    } else {
        let p = pool_step(yes, no, k, trades[0].0, trades[0].1);
        pool_after_trades(p.0, p.1, k, trades.drop_first())
    }
}

/// One accepted buy, on either side, preserves the pool well-formedness.
pub proof fn lemma_pool_step_preserves_wf(yes: int, no: int, k: int, is_yes: bool, net: int)
    requires
        pool_wf(yes, no, k),
        trade_accepted(yes, no, k, is_yes, net),
    ensures
        ({
            let p = pool_step(yes, no, k, is_yes, net);
            pool_wf(p.0, p.1, k)
        }),
{
    let pp = precision_squared();
    if is_yes {
        lemma_pool_step_wf(yes, no, k, net);
    } else {
        assert(no * yes * pp == yes * no * pp) by (nonlinear_arith);
        assert((no + 1) * (yes + 1) * pp == (yes + 1) * (no + 1) * pp) by (nonlinear_arith);
        lemma_pool_step_wf(no, yes, k, net);
        let new_in = no + net;
        let new_out = k / (new_in * pp);
        assert(new_out * new_in * pp == new_in * new_out * pp) by (nonlinear_arith);
        assert((new_out + 1) * (new_in + 1) * pp == (new_in + 1) * (new_out + 1) * pp)
            by (nonlinear_arith);
    }
}

/// Invariant preservation: for any sequence of accepted buys, the product of
/// the reserves stays within the rounding tolerance of the stored constant —
/// `yes * no * PRECISION^2 <= k < (yes + 1) * (no + 1) * PRECISION^2` — and
/// both reserves stay positive.
pub proof fn lemma_buys_preserve_invariant(yes: int, no: int, k: int, trades: Seq<(bool, int)>)
    requires
        pool_wf(yes, no, k),
        trades_accepted(yes, no, k, trades),
    ensures
        ({
            let p = pool_after_trades(yes, no, k, trades);
            pool_wf(p.0, p.1, k)
        }),
    decreases trades.len(),
{
    if trades.len() > 0 {
        lemma_pool_step_preserves_wf(yes, no, k, trades[0].0, trades[0].1);
        let p = pool_step(yes, no, k, trades[0].0, trades[0].1);
        lemma_buys_preserve_invariant(p.0, p.1, k, trades.drop_first());
    }
}

/// A successful buy moves the market's reserves exactly as `pool_step` does
/// with the net (post-fee) amount: the fold in
/// [`lemma_buys_preserve_invariant`] is the fold the executable engine
/// performs.
pub proof fn lemma_buy_moves_reserves_as_pool_step(
    m: Market,
    is_yes: bool,
    gross: u64,
    fee_bps: u16,
)
    requires
        0 <= spec_net(gross, fee_bps),
        pool_in(m, is_yes) + spec_net(gross, fee_bps) <= u64::MAX,
        0 <= spec_new_out(m.k_constant, pool_in(m, is_yes) + spec_net(gross, fee_bps))
            <= u64::MAX,
    ensures
        ({
            let m2 = market_after_buy(m, is_yes, gross, fee_bps);
            let p = pool_step(
                m.yes_liquidity as int,
                m.no_liquidity as int,
                m.k_constant as int,
                is_yes,
                spec_net(gross, fee_bps),
            );
            (m2.yes_liquidity as int, m2.no_liquidity as int) == p
        }),
{
}

/// Fee neutrality: the post-trade reserves are a function of the net
/// (post-fee) amount alone. Two buys whose gross amounts and fee rates differ
/// but whose net amounts agree leave identical reserves behind.
pub proof fn lemma_fee_neutrality(
    m: Market,
    is_yes: bool,
    gross1: u64,
    fee_bps1: u16,
    gross2: u64,
    fee_bps2: u16,
)
    requires
        spec_net(gross1, fee_bps1) == spec_net(gross2, fee_bps2),
    ensures
        market_after_buy(m, is_yes, gross1, fee_bps1).yes_liquidity == market_after_buy(
            m,
            is_yes,
            gross2,
            fee_bps2,
        ).yes_liquidity,
        market_after_buy(m, is_yes, gross1, fee_bps1).no_liquidity == market_after_buy(
            m,
            is_yes,
            gross2,
            fee_bps2,
        ).no_liquidity,
{
}

// ---------------------------------------------------------------------------
// Volume accounting
// ---------------------------------------------------------------------------

/// The sum of a sequence of gross trade amounts.
pub open spec fn sum_gross(grosses: Seq<u64>) -> int
    decreases grosses.len(),
{
    if grosses.len() == 0 {
        0
    } else {
        grosses[0] + sum_gross(grosses.drop_first())
    }
}

/// The cumulative volume after a sequence of buys, each adding its gross
/// amount — the movement a successful buy's contract states.
pub open spec fn volume_after_buys(volume: int, grosses: Seq<u64>) -> int
    decreases grosses.len(),
{
    if grosses.len() == 0 {
        volume
    } else {
        volume_after_buys(volume + grosses[0], grosses.drop_first())
    }
}

/// Monotonic volume: after any sequence of buys the cumulative volume is the
/// starting volume plus the sum of the gross amounts — for a fresh market,
/// exactly the sum of the gross amounts.
pub proof fn lemma_volume_is_sum_of_gross(volume: int, grosses: Seq<u64>)
    ensures
        volume_after_buys(volume, grosses) == volume + sum_gross(grosses),
    decreases grosses.len(),
{
    if grosses.len() > 0 {
        lemma_volume_is_sum_of_gross(volume + grosses[0], grosses.drop_first());
    }
}

// ---------------------------------------------------------------------------
// Settlement laws
// ---------------------------------------------------------------------------

/// The (vault, outstanding-total) state after a sequence of claims, each
/// paying its pro-rata slice of the vault left by the previous ones and
/// retiring its shares from the total — the movement a successful claim's
/// contract states.
pub open spec fn claim_state_after(vault: int, total: int, claims: Seq<int>) -> (int, int)
    decreases claims.len(),
{
    if claims.len() == 0 {
        (vault, total)
    } else {
        let paid = spec_payout(claims[0], vault, total);
        claim_state_after(vault - paid, total - claims[0], claims.drop_first())
    }
}

/// Whether each claim in the sequence holds between one share and the whole
/// outstanding total left by the previous claims.
pub open spec fn claims_valid(total: int, claims: Seq<int>) -> bool
    decreases claims.len(),
{
    claims.len() == 0 || (1 <= claims[0] <= total && claims_valid(
        total - claims[0],
        claims.drop_first(),
    ))
}

/// Idempotence: a position that has already been settled — as every
/// successful claim leaves it — is rejected with `AlreadyClaimed` by any
/// later claim, whatever vault balance that claim observes; and a rejected
/// claim changes nothing and moves no funds.
pub proof fn lemma_claim_is_idempotent(
    m: Market,
    p: UserPosition,
    caller: u64,
    vault_balance: u64,
)
    requires
        p.user == caller,
        m.resolved,
        p.claimed,
    ensures
        claim_error(m, p, caller, vault_balance) == Some(ErrorCode::AlreadyClaimed),
{
}

/// One claim never overpays, and the payout-per-share rate carried to later
/// claimants never falls: the remaining vault still covers the remaining
/// shares at no less than the pre-claim rate, and at most one unit of value
/// is lost to rounding.
pub proof fn lemma_claim_step_rate(shares: int, vault: int, total: int)
    requires
        1 <= shares <= total,
        0 <= vault,
    ensures
        ({
            let paid = spec_payout(shares, vault, total);
            &&& 0 <= paid <= vault
            &&& (vault - paid) * total >= vault * (total - shares)
            &&& (vault - paid) * total <= vault * (total - shares) + total
        }),
{
    let paid = spec_payout(shares, vault, total);
    lemma_payout_no_overpay(shares, vault, total);
    lemma_fundamental_div_mod(shares * vault, total);
    lemma_mod_bound(shares * vault, total);
    assert((vault - paid) * total >= vault * (total - shares)) by (nonlinear_arith)
        requires
            paid * total <= shares * vault,
    ;
    assert((vault - paid) * total <= vault * (total - shares) + total) by (nonlinear_arith)
        requires
            shares * vault == total * paid + (shares * vault) % total,
            (shares * vault) % total < total,
    ;
}

/// The claimant holding the whole outstanding total sweeps the vault exactly.
pub proof fn lemma_final_claim_takes_all(vault: int, total: int)
    requires
        1 <= total,
        0 <= vault,
    ensures
        spec_payout(total, vault, total) == vault,
{
    lemma_div_multiples_vanish(vault, total);
}

/// No-overpay settlement: for any valid sequence of claims, in any order,
/// the vault only ever shrinks (no claim is paid out of thin air), the
/// remaining vault still covers the remaining outstanding shares at no less
/// than the starting rate, the cumulative rounding loss is bounded by one
/// unit per claim — and once every outstanding share has claimed, the vault
/// is exactly empty: the payouts sum precisely to the vault observed at the
/// first claim.
pub proof fn lemma_claims_never_overpay(vault: int, total: int, claims: Seq<int>)
    requires
        0 <= vault,
        0 <= total,
        claims_valid(total, claims),
    ensures
        ({
            let after = claim_state_after(vault, total, claims);
            &&& 0 <= after.0 <= vault
            &&& 0 <= after.1 <= total
            &&& after.0 * total >= vault * after.1
            &&& after.0 * total <= vault * after.1 + claims.len() * total
            &&& (after.1 == 0 && total > 0) ==> after.0 == 0
        }),
    decreases claims.len(),
{
    if claims.len() > 0 {
        let s = claims[0];
        let paid = spec_payout(s, vault, total);
        lemma_claim_step_rate(s, vault, total);
        let vault2 = vault - paid;
        let total2 = total - s;
        lemma_claims_never_overpay(vault2, total2, claims.drop_first());
        let after = claim_state_after(vault2, total2, claims.drop_first());
        let n2 = claims.drop_first().len() as int;
        if total2 == 0 {
            // The first claim held the whole total, so no later claim is
            // valid: it swept the vault exactly.
            assert(claims.drop_first().len() == 0);
            lemma_final_claim_takes_all(vault, total);
        } else {
            assert(after.0 * total >= vault * after.1) by (nonlinear_arith)
                requires
                    after.0 * total2 >= vault2 * after.1,
                    vault2 * total >= vault * total2,
                    1 <= total2 <= total,
                    0 <= after.1 <= total2,
                    0 <= vault2,
                    0 <= after.0,
            ;
            assert(after.0 * total <= vault * after.1 + (n2 + 1) * total) by (nonlinear_arith)
                requires
                    after.0 * total2 <= vault2 * after.1 + n2 * total2,
                    vault2 * total <= vault * total2 + total,
                    1 <= total2 <= total,
                    0 <= after.1 <= total2,
                    0 <= vault2,
                    0 <= after.0,
                    0 <= n2,
            ;
            if after.1 == 0 && total > 0 {
                assert(after.0 == 0);
            }
        }
    }
}

} // verus!
