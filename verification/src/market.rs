//! Deployment initialization and market creation.

use vstd::prelude::*;
use vstd::string::StrSliceExecFns;

use crate::errors::ErrorCode;
use crate::math::checked_mul_u128;
use crate::state::{Config, Market};
use crate::{MIN_INITIAL_LIQUIDITY, PRECISION};

verus! {

/// Sets up a deployment: the given operator, no markets yet, and the default
/// fee rate of 200 basis points (2%).
pub fn initialize(authority: u64) -> (c: Config)
    requires
        authority != 0,
    ensures
        c == (Config { authority, market_count: 0, fee_percentage: 200u16 }),
        c.wf(),
{
    Config { authority, market_count: 0, fee_percentage: 200 }
}

/// Why a creation request is rejected, or `None` when it is accepted: only
/// the operator may create markets, the texts are length-bounded, the
/// resolution time must lie strictly in the future, the seed must meet the
/// minimum floor, and the scaled invariant constant must fit in 128 bits.
pub open spec fn create_market_error(
    config: Config,
    caller: u64,
    question: Seq<char>,
    description: Seq<char>,
    category: Seq<char>,
    resolution_time: i64,
    now: i64,
    seed: u64,
) -> Option<ErrorCode> {
    if caller != config.authority {
        Some(ErrorCode::Unauthorized)
    } else if question.len() > 200 {
        Some(ErrorCode::QuestionTooLong)
    } else if description.len() > 1000 {
        Some(ErrorCode::DescriptionTooLong)
    } else if category.len() > 50 {
        Some(ErrorCode::CategoryTooLong)
    } else if resolution_time <= now {
        Some(ErrorCode::InvalidResolutionTime)
    } else if seed < MIN_INITIAL_LIQUIDITY {
        Some(ErrorCode::InsufficientInitialLiquidity)
    } else if seed * PRECISION * seed * PRECISION > u128::MAX {
        Some(ErrorCode::MathOverflow)
    } else {
        None
    }
}

/// Creates a market seeded with `initial_liquidity_lamports` on each side:
/// both reserves start equal, and the invariant constant is their product
/// scaled by `PRECISION` squared, so `k = seed^2 * PRECISION^2` exactly.
///
/// The caller must separately move `2 * initial_liquidity_lamports` from the
/// creator into the market's custodial vault: the reserves set here are
/// virtual pricing quantities.
///
/// On success the configuration's market counter advances by one; on any
/// rejection both the configuration and the would-be market are untouched.
pub fn create_market(
    config: &mut Config,
    caller: u64,
    market_id: u64,
    question: String,
    description: String,
    category: String,
    resolution_time: i64,
    now: i64,
    initial_liquidity_lamports: u64,
) -> (r: Result<Market, ErrorCode>)
    requires
        old(config).market_count < u64::MAX,
    ensures
        match create_market_error(
            *old(config),
            caller,
            question@,
            description@,
            category@,
            resolution_time,
            now,
            initial_liquidity_lamports,
        ) {
            Some(e) => {
                &&& r == Err::<Market, ErrorCode>(e)
                &&& *final(config) == *old(config)
            },
            None => {
                &&& r matches Ok(m)
                &&& m.market_id == market_id
                &&& m.authority == old(config).authority
                &&& m.question == question
                &&& m.description == description
                &&& m.category == category
                &&& m.resolution_time == resolution_time
                &&& m.created_at == now
                &&& m.initial_liquidity == initial_liquidity_lamports
                &&& m.yes_liquidity == initial_liquidity_lamports
                &&& m.no_liquidity == initial_liquidity_lamports
                &&& m.k_constant == initial_liquidity_lamports * PRECISION
                    * initial_liquidity_lamports * PRECISION
                &&& m.total_volume == 0
                &&& !m.resolved
                &&& m.outcome is None
                &&& m.total_yes_shares == 0
                &&& m.total_no_shares == 0
                &&& m.wf()
                &&& *final(config) == (Config {
                    market_count: (old(config).market_count + 1) as u64,
                    ..*old(config)
                })
            },
        },
{
    if caller != config.authority {
        return Err(ErrorCode::Unauthorized);
    }
    if question.as_str().unicode_len() > 200 {
        return Err(ErrorCode::QuestionTooLong);
    }
    if description.as_str().unicode_len() > 1000 {
        return Err(ErrorCode::DescriptionTooLong);
    }
    if category.as_str().unicode_len() > 50 {
        return Err(ErrorCode::CategoryTooLong);
    }
    if resolution_time <= now {
        return Err(ErrorCode::InvalidResolutionTime);
    }
    if initial_liquidity_lamports < MIN_INITIAL_LIQUIDITY {
        return Err(ErrorCode::InsufficientInitialLiquidity);
    }

    let seed = initial_liquidity_lamports as u128;
    // `seed * PRECISION` fits in 128 bits outright; the two later factors can
    // genuinely overflow and are rejected.
    let seeded = seed * PRECISION;
    let k_partial = match checked_mul_u128(seeded, seed) {
        Ok(v) => v,
        Err(e) => {
            proof {
                lemma_k_overflow_collapses(seed as int, PRECISION as int);
            }
            return Err(e);
        },
    };
    let k_constant = match checked_mul_u128(k_partial, PRECISION) {
        Ok(v) => v,
        Err(e) => {
            return Err(e);
        },
    };

    let market = Market {
        market_id,
        authority: config.authority,
        question,
        description,
        category,
        resolution_time,
        created_at: now,
        initial_liquidity: initial_liquidity_lamports,
        yes_liquidity: initial_liquidity_lamports,
        no_liquidity: initial_liquidity_lamports,
        k_constant,
        total_volume: 0,
        resolved: false,
        outcome: None,
        total_yes_shares: 0,
        total_no_shares: 0,
    };

    proof {
        lemma_seed_market_wf(initial_liquidity_lamports as int, k_constant as int);
    }

    config.market_count = config.market_count + 1;
    Ok(market)
}

/// If the seed squared times one `PRECISION` factor already exceeds 128 bits,
/// so does the fully scaled constant: the overflow test on the partial
/// product rejects exactly the seeds the full product would reject.
proof fn lemma_k_overflow_collapses(seed: int, p: int) by (nonlinear_arith)
    requires
        seed >= 0,
        p >= 1,
        seed * p * seed > u128::MAX,
    ensures
        seed * p * seed * p > u128::MAX,
{
}

/// A market seeded with equal reserves and `k = seed^2 * PRECISION^2` meets
/// the constant-product bound exactly.
proof fn lemma_seed_market_wf(seed: int, k: int) by (nonlinear_arith)
    requires
        seed >= 1,
        k == seed * crate::PRECISION * seed * crate::PRECISION,
    ensures
        seed * seed * crate::precision_squared() <= k,
        k < (seed + 1) * (seed + 1) * crate::precision_squared(),
{
}

} // verus!
