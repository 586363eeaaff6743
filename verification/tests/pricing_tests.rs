use prediction_market::errors::ErrorCode;
use prediction_market::market::{create_market, initialize};
use prediction_market::pricing::buy_shares;
use prediction_market::state::{Config, Market, UserPosition};

const PRECISION_SQUARED: u128 = 1_000_000_000_000_000_000;

fn setup() -> (Config, Market) {
    let mut config = initialize(1);
    let market = create_market(
        &mut config,
        1,
        7,
        "Will it rain tomorrow?".to_string(),
        "Resolved from the official weather report.".to_string(),
        "weather".to_string(),
        100,
        0,
        10_000_000,
    )
    .unwrap();
    (config, market)
}

fn fresh_position() -> UserPosition {
    UserPosition { user: 0, market_id: 0, yes_shares: 0, no_shares: 0, claimed: false }
}

#[test]
fn buy_yes_scenario_exact_amounts() {
    let (config, mut market) = setup();
    let mut position = fresh_position();
    let event = buy_shares(&config, &mut market, &mut position, 42, true, 1_000_000, 0, 50)
        .unwrap();
    // fee = 1_000_000 * 200 / 10_000 = 20_000, net = 980_000.
    assert_eq!(market.yes_liquidity, 10_980_000);
    // new_no = k / (new_yes * PRECISION^2) = 10^32 / (10_980_000 * 10^18).
    assert_eq!(market.no_liquidity, 9_107_468);
    assert_eq!(event.shares, 10_000_000 - 9_107_468);
    assert_eq!(event.shares, 892_532);
    assert_eq!(market.total_volume, 1_000_000);
    assert_eq!(market.total_yes_shares, 892_532);
    assert_eq!(market.total_no_shares, 0);
    assert_eq!(position.user, 42);
    assert_eq!(position.market_id, 7);
    assert_eq!(position.yes_shares, 892_532);
    assert_eq!(position.no_shares, 0);
    assert!(!position.claimed);
    assert_eq!(event.yes_liquidity, 10_980_000);
    assert_eq!(event.no_liquidity, 9_107_468);
    assert_eq!(event.user, 42);
    assert!(event.is_yes);
    assert_eq!(event.timestamp, 50);
}

#[test]
fn invariant_holds_across_buys() {
    let (config, mut market) = setup();
    let mut position = fresh_position();
    let k = market.k_constant;
    for (is_yes, gross) in [(true, 1_000_000u64), (false, 2_500_000), (true, 40_000), (false, 1)] {
        buy_shares(&config, &mut market, &mut position, 42, is_yes, gross, 0, 50).unwrap();
        let yes = market.yes_liquidity as u128;
        let no = market.no_liquidity as u128;
        assert!(yes >= 1 && no >= 1);
        assert!(yes * no * PRECISION_SQUARED <= k);
        assert!(k < (yes + 1) * (no + 1) * PRECISION_SQUARED);
        assert_eq!(market.k_constant, k);
    }
}

#[test]
fn fee_neutrality_same_net_same_reserves() {
    // 2% fee on 1_000_000 gross and no fee on 980_000 gross give the same
    // net amount, so the post-trade reserves must be identical.
    let (config_with_fee, mut market_a) = setup();
    let (_, mut market_b) = setup();
    let config_no_fee = Config { fee_percentage: 0, ..config_with_fee };
    let mut pos_a = fresh_position();
    let mut pos_b = fresh_position();
    buy_shares(&config_with_fee, &mut market_a, &mut pos_a, 42, true, 1_000_000, 0, 50).unwrap();
    buy_shares(&config_no_fee, &mut market_b, &mut pos_b, 42, true, 980_000, 0, 50).unwrap();
    assert_eq!(market_a.yes_liquidity, market_b.yes_liquidity);
    assert_eq!(market_a.no_liquidity, market_b.no_liquidity);
    assert_eq!(pos_a.yes_shares, pos_b.yes_shares);
    // The gross amounts differed, so the recorded volumes differ.
    assert_eq!(market_a.total_volume, 1_000_000);
    assert_eq!(market_b.total_volume, 980_000);
}

#[test]
fn total_volume_is_sum_of_gross_amounts() {
    let (config, mut market) = setup();
    let mut position = fresh_position();
    let grosses = [1_000_000u64, 333, 2_000_000, 10_000];
    for gross in grosses {
        buy_shares(&config, &mut market, &mut position, 42, true, gross, 0, 50).unwrap();
    }
    assert_eq!(market.total_volume, grosses.iter().sum::<u64>());
}

#[test]
fn slippage_floor_rejects_and_mutates_nothing() {
    let (config, mut market) = setup();
    let mut position = fresh_position();
    let before = market.clone();
    let r = buy_shares(&config, &mut market, &mut position, 42, true, 1_000_000, 892_533, 50);
    assert_eq!(r, Err(ErrorCode::SlippageExceeded));
    assert_eq!(market, before);
    assert_eq!(position, fresh_position());
    // One share below the true mint succeeds.
    let event = buy_shares(&config, &mut market, &mut position, 42, true, 1_000_000, 892_532, 50)
        .unwrap();
    assert_eq!(event.shares, 892_532);
}

#[test]
fn buy_on_resolved_market_rejected() {
    let (config, mut market) = setup();
    market.resolved = true;
    market.outcome = Some(true);
    let mut position = fresh_position();
    let r = buy_shares(&config, &mut market, &mut position, 42, true, 1_000, 0, 50);
    assert_eq!(r, Err(ErrorCode::MarketResolved));
}

#[test]
fn buy_after_deadline_rejected() {
    let (config, mut market) = setup();
    let mut position = fresh_position();
    let r = buy_shares(&config, &mut market, &mut position, 42, true, 1_000, 0, 100);
    assert_eq!(r, Err(ErrorCode::MarketExpired));
}

#[test]
fn buy_of_zero_rejected() {
    let (config, mut market) = setup();
    let mut position = fresh_position();
    let r = buy_shares(&config, &mut market, &mut position, 42, true, 0, 0, 50);
    assert_eq!(r, Err(ErrorCode::InvalidAmount));
}

#[test]
fn buy_fee_computation_overflow_rejected() {
    let (config, mut market) = setup();
    let mut position = fresh_position();
    let before = market.clone();
    let r = buy_shares(&config, &mut market, &mut position, 42, true, u64::MAX, 0, 50);
    assert_eq!(r, Err(ErrorCode::MathOverflow));
    assert_eq!(market, before);
}

#[test]
fn buy_that_would_drain_pool_rejected() {
    // A pool of 10/10 whose constant sits near the upper tolerance: adding one
    // net unit reprices the NO side to 120 / 11 = 10, no shrink, no shares.
    let config = Config { authority: 1, market_count: 1, fee_percentage: 200 };
    let mut market = Market {
        market_id: 9,
        authority: 1,
        question: String::new(),
        description: String::new(),
        category: String::new(),
        resolution_time: 100,
        created_at: 0,
        initial_liquidity: 10,
        yes_liquidity: 10,
        no_liquidity: 10,
        k_constant: 120 * PRECISION_SQUARED,
        total_volume: 0,
        resolved: false,
        outcome: None,
        total_yes_shares: 0,
        total_no_shares: 0,
    };
    let mut position = fresh_position();
    let r = buy_shares(&config, &mut market, &mut position, 42, true, 1, 0, 50);
    assert_eq!(r, Err(ErrorCode::InsufficientLiquidity));
    assert_eq!(market.yes_liquidity, 10);
    assert_eq!(market.no_liquidity, 10);
}

#[test]
fn buy_that_would_zero_opposite_reserve_rejected() {
    // A buy so large the repriced reserve rounds to zero is refused rather
    // than leaving a dead pool behind.
    let (config, mut market) = setup();
    let mut position = fresh_position();
    let r = buy_shares(&config, &mut market, &mut position, 42, true, 200_000_000_000_000, 0, 50);
    assert_eq!(r, Err(ErrorCode::InsufficientLiquidity));
    assert_eq!(market.yes_liquidity, 10_000_000);
    assert_eq!(market.no_liquidity, 10_000_000);
}

#[test]
fn buy_reserve_overflow_rejected() {
    // A full-width YES reserve cannot absorb any further net amount.
    let config = Config { authority: 1, market_count: 1, fee_percentage: 200 };
    let mut market = Market {
        market_id: 9,
        authority: 1,
        question: String::new(),
        description: String::new(),
        category: String::new(),
        resolution_time: 100,
        created_at: 0,
        initial_liquidity: 1,
        yes_liquidity: u64::MAX,
        no_liquidity: 1,
        k_constant: 20_000_000_000_000_000_000_000_000_000_000_000_000u128,
        total_volume: 0,
        resolved: false,
        outcome: None,
        total_yes_shares: 0,
        total_no_shares: 0,
    };
    let mut position = fresh_position();
    let r = buy_shares(&config, &mut market, &mut position, 42, true, 100, 0, 50);
    assert_eq!(r, Err(ErrorCode::MathOverflow));
}

#[test]
fn buys_accumulate_into_existing_position() {
    let (config, mut market) = setup();
    let mut position = fresh_position();
    let first = buy_shares(&config, &mut market, &mut position, 42, true, 1_000_000, 0, 50)
        .unwrap();
    let second = buy_shares(&config, &mut market, &mut position, 42, false, 500_000, 0, 60)
        .unwrap();
    assert_eq!(position.yes_shares, first.shares);
    assert_eq!(position.no_shares, second.shares);
    assert_eq!(market.total_yes_shares, first.shares as u128);
    assert_eq!(market.total_no_shares, second.shares as u128);
    assert_eq!(position.user, 42);
}
