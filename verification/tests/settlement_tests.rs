use prediction_market::errors::ErrorCode;
use prediction_market::market::initialize;
use prediction_market::settlement::{claim_winnings, resolve_market, sweep_funds, withdraw_fees};
use prediction_market::state::{Config, Market, UserPosition};

const PRECISION_SQUARED: u128 = 1_000_000_000_000_000_000;

fn resolved_market(outcome_yes: bool, total_yes: u128, total_no: u128) -> Market {
    Market {
        market_id: 7,
        authority: 1,
        question: String::new(),
        description: String::new(),
        category: String::new(),
        resolution_time: 100,
        created_at: 0,
        initial_liquidity: 10_000_000,
        yes_liquidity: 10_000_000,
        no_liquidity: 10_000_000,
        k_constant: 100_000_000_000_000 * PRECISION_SQUARED,
        total_volume: 0,
        resolved: true,
        outcome: Some(outcome_yes),
        total_yes_shares: total_yes,
        total_no_shares: total_no,
    }
}

fn position(user: u64, yes_shares: u64, no_shares: u64) -> UserPosition {
    UserPosition { user, market_id: 7, yes_shares, no_shares, claimed: false }
}

#[test]
fn two_equal_winners_split_vault_exactly() {
    let mut market = resolved_market(true, 100, 0);
    let mut alice = position(10, 50, 0);
    let mut bob = position(11, 50, 0);
    // Vault holds 1000; Alice claims first: 50 * 1000 / 100 = 500.
    let paid_a = claim_winnings(&mut market, &mut alice, 10, 1000).unwrap();
    assert_eq!(paid_a, 500);
    assert_eq!(market.total_yes_shares, 50);
    assert!(alice.claimed);
    assert_eq!(alice.yes_shares, 0);
    // Bob claims against the shrunken vault: 50 * 500 / 50 = 500.
    let paid_b = claim_winnings(&mut market, &mut bob, 11, 500).unwrap();
    assert_eq!(paid_b, 500);
    assert_eq!(market.total_yes_shares, 0);
    // Total distributed = 1000: zero dust.
    assert_eq!(paid_a + paid_b, 1000);
}

#[test]
fn claim_order_does_not_change_totals() {
    // Uneven claimants with rounding: whoever claims last sweeps the vault,
    // so the sum is the full vault either way.
    for first_is_alice in [true, false] {
        let mut market = resolved_market(true, 3, 0);
        let mut alice = position(10, 1, 0);
        let mut bob = position(11, 2, 0);
        let mut vault: u64 = 1000;
        let mut paid_total: u64 = 0;
        let order: [(&mut UserPosition, u64); 2] = if first_is_alice {
            [(&mut alice, 10), (&mut bob, 11)]
        } else {
            [(&mut bob, 11), (&mut alice, 10)]
        };
        for (pos, caller) in order {
            let paid = claim_winnings(&mut market, pos, caller, vault).unwrap();
            vault -= paid;
            paid_total += paid;
        }
        assert_eq!(paid_total, 1000);
        assert_eq!(vault, 0);
        assert_eq!(market.total_yes_shares, 0);
    }
}

#[test]
fn claiming_twice_fails_with_already_claimed() {
    let mut market = resolved_market(true, 100, 0);
    let mut alice = position(10, 50, 0);
    claim_winnings(&mut market, &mut alice, 10, 1000).unwrap();
    let market_after = market.clone();
    let alice_after = alice;
    let second = claim_winnings(&mut market, &mut alice, 10, 500);
    assert_eq!(second, Err(ErrorCode::AlreadyClaimed));
    assert_eq!(market, market_after);
    assert_eq!(alice, alice_after);
}

#[test]
fn losing_side_cannot_claim() {
    let mut market = resolved_market(false, 100, 80);
    let mut alice = position(10, 50, 0);
    let r = claim_winnings(&mut market, &mut alice, 10, 1000);
    assert_eq!(r, Err(ErrorCode::NoWinningShares));
}

#[test]
fn dust_only_claim_rejected() {
    // 1 share of 100 against a vault of 50: payout rounds to zero and the
    // claim is refused rather than silently tombstoned for nothing.
    let mut market = resolved_market(true, 100, 0);
    let mut alice = position(10, 1, 0);
    let r = claim_winnings(&mut market, &mut alice, 10, 50);
    assert_eq!(r, Err(ErrorCode::NoWinningShares));
    assert!(!alice.claimed);
    assert_eq!(alice.yes_shares, 1);
    assert_eq!(market.total_yes_shares, 100);
}

#[test]
fn claim_before_resolution_rejected() {
    let mut market = resolved_market(true, 100, 0);
    market.resolved = false;
    market.outcome = None;
    let mut alice = position(10, 50, 0);
    let r = claim_winnings(&mut market, &mut alice, 10, 1000);
    assert_eq!(r, Err(ErrorCode::MarketNotResolved));
}

#[test]
fn claim_by_non_owner_rejected() {
    let mut market = resolved_market(true, 100, 0);
    let mut alice = position(10, 50, 0);
    let r = claim_winnings(&mut market, &mut alice, 99, 1000);
    assert_eq!(r, Err(ErrorCode::Unauthorized));
}

#[test]
fn resolve_fixes_outcome_once() {
    let config = initialize(1);
    let mut market = resolved_market(true, 0, 0);
    market.resolved = false;
    market.outcome = None;
    let r = resolve_market(&config, &mut market, 1, true, 100);
    assert_eq!(r, Ok(()));
    assert!(market.resolved);
    assert_eq!(market.outcome, Some(true));
    let again = resolve_market(&config, &mut market, 1, false, 200);
    assert_eq!(again, Err(ErrorCode::MarketResolved));
    assert_eq!(market.outcome, Some(true));
}

#[test]
fn resolve_before_deadline_rejected() {
    let config = initialize(1);
    let mut market = resolved_market(true, 0, 0);
    market.resolved = false;
    market.outcome = None;
    let r = resolve_market(&config, &mut market, 1, true, 99);
    assert_eq!(r, Err(ErrorCode::MarketNotExpired));
    assert!(!market.resolved);
}

#[test]
fn resolve_by_non_authority_rejected() {
    let config = initialize(1);
    let mut market = resolved_market(true, 0, 0);
    market.resolved = false;
    market.outcome = None;
    let r = resolve_market(&config, &mut market, 2, true, 100);
    assert_eq!(r, Err(ErrorCode::Unauthorized));
}

#[test]
fn withdraw_fees_bounded_by_balance() {
    let config = Config { authority: 1, market_count: 0, fee_percentage: 200 };
    assert_eq!(withdraw_fees(&config, 1, 300, 500), Ok(300));
    assert_eq!(withdraw_fees(&config, 1, 500, 500), Ok(500));
    assert_eq!(withdraw_fees(&config, 1, 501, 500), Err(ErrorCode::InsufficientFunds));
    assert_eq!(withdraw_fees(&config, 2, 1, 500), Err(ErrorCode::Unauthorized));
}

#[test]
fn sweep_requires_resolution_and_funds() {
    let config = initialize(1);
    let mut market = resolved_market(true, 0, 0);
    assert_eq!(sweep_funds(&config, &market, 1, 777), Ok(777));
    assert_eq!(sweep_funds(&config, &market, 1, 0), Err(ErrorCode::NoRemainingFunds));
    assert_eq!(sweep_funds(&config, &market, 2, 777), Err(ErrorCode::Unauthorized));
    market.resolved = false;
    market.outcome = None;
    assert_eq!(sweep_funds(&config, &market, 1, 777), Err(ErrorCode::MarketNotResolved));
}
