//! Liquidity pools: a creator's declared balances and market-making
//! parameters for one approved market.

use crate::address::Address;
use crate::error::{ListingError, ProcessError};
use crate::processor::admin::{
    lemma_matched_bump, match_pda, matched_bump, pda_bump, updated,
};
use crate::state::{
    blank_reserved, new_reserved, Account, LiquidityPool, ListingConfig, MarketType, PerpMarket,
    SpotMarket,
};
use crate::utils::{creator_pool_seeds, derive_creator_pool_pda};
use vstd::prelude::*;

verus! {

/// The densest order book that a pool may ask for.
pub const MAX_ORDER_DENSITY: u16 = 100;

/// The widest spread that a pool may ask for, in basis points.
pub const MAX_SPREAD_BPS: u64 = 10000;

/// The record that the market account of a pool holds, as far as it could be
/// read.
#[derive(Debug, Clone, Copy, PartialEq, Eq)]
pub enum MarketRecord {
    Spot(SpotMarket),
    Perp(PerpMarket),
    /// The account holds no market of the kind that was named.
    Unreadable,
}

/// The parameters of a pool are valid if its price range is strictly
/// increasing, its order density lies in 1..=100 and its spread in 1..=10000
/// basis points.
pub open spec fn pool_params_valid(pool: LiquidityPool) -> bool {
    &&& pool.price_lower_e6 < pool.price_upper_e6
    &&& 1 <= pool.order_density <= MAX_ORDER_DENSITY
    &&& 1 <= pool.spread_bps <= MAX_SPREAD_BPS
}

/// The kind of market that a number stands for.
pub open spec fn market_type_of(code: u8) -> Option<MarketType> {
    if code == 0 {
        Some(MarketType::Spot)
    } else if code == 1 {
        Some(MarketType::Perp)
    } else {
        None
    }
}

/// The numbers 0 and 1 stand for the two kinds of market, and for nothing else.
pub proof fn lemma_market_type_codes(kind: MarketType, code: u8)
    ensures
        market_type_of(kind.spec_code()) == Some(kind),
        market_type_of(code) matches Some(k) ==> k.spec_code() == code,
        market_type_of(code) is Some <==> code <= 1,
{
}

/// The index that a market record carries; 0 where it carries none.
pub open spec fn record_index(market: MarketRecord) -> u16 {
    match market {
        MarketRecord::Spot(m) => m.market_index,
        MarketRecord::Perp(m) => m.market_index,
        MarketRecord::Unreadable => 0,
    }
}

/// What a market record says of a market of the given kind: whether it is
/// active, and its index; `None` where the record is not of that kind.
pub open spec fn market_summary(market: MarketRecord, kind: MarketType) -> Option<(bool, u16)> {
    match (market, kind) {
        (MarketRecord::Spot(m), MarketType::Spot) => Some((m.is_active, m.market_index)),
        (MarketRecord::Perp(m), MarketType::Perp) => Some((m.is_active, m.market_index)),
        _ => None,
    }
}

/// The pool that `creator` starts for a market: active, with both balances at
/// zero.
pub open spec fn new_pool(
    kind: MarketType,
    market_index: u16,
    creator: Address,
    market: Address,
    price_lower_e6: u64,
    price_upper_e6: u64,
    order_density: u16,
    spread_bps: u64,
    now: i64,
    bump: u8,
) -> LiquidityPool {
    LiquidityPool {
        discriminator: LiquidityPool::DISCRIMINATOR,
        version: 1,
        market_type: kind,
        market_index,
        nonce: 0,
        creator,
        market,
        base_amount_e6: 0,
        quote_amount_e6: 0,
        lp_token_supply_e6: 0,
        price_lower_e6,
        price_upper_e6,
        order_density,
        spread_bps,
        is_active: true,
        created_at: now,
        unlock_time: 0,
        retire_at: 0,
        bump,
        reserved: blank_reserved(),
    }
}

/// What starting a pool leads to. Asked, in this order: the creator signed,
/// the protocol is not paused, the kind of market is known, the market account
/// holds a market of that kind, the market is active, the pool's account is the
/// one at the address derived from kind, index and creator, that account is
/// still empty, and the parameters are valid. `bump` is the bump seed of that
/// address, or `None` where the pool's account is not at it.
pub open spec fn initialize_pool_outcome(
    bump: Option<u8>,
    creator: Account,
    pool_account: Account,
    market_account: Account,
    market: MarketRecord,
    config: ListingConfig,
    market_type: u8,
    price_lower_e6: u64,
    price_upper_e6: u64,
    order_density: u16,
    spread_bps: u64,
    now: i64,
) -> Result<LiquidityPool, ProcessError> {
    if !creator.is_signer {
        Err(ProcessError::MissingRequiredSignature)
    } else if config.is_paused {
        Err(ProcessError::Listing(ListingError::ListingPaused))
    } else if market_type_of(market_type) is None {
        Err(ProcessError::Listing(ListingError::InvalidMarketType))
    } else if market_summary(market, market_type_of(market_type)->Some_0) is None {
        Err(ProcessError::InvalidAccountData)
    } else {
        let kind = market_type_of(market_type)->Some_0;
        let (is_active, market_index) = market_summary(market, kind)->Some_0;
        if !is_active {
            Err(ProcessError::Listing(ListingError::MarketNotFound))
        } else if bump is None {
            Err(ProcessError::Listing(ListingError::InvalidPda))
        } else if !pool_account.data_is_empty {
            Err(ProcessError::Listing(ListingError::AlreadyInitialized))
        } else if price_lower_e6 >= price_upper_e6 {
            Err(ProcessError::Listing(ListingError::InvalidPriceRange))
        } else if !(1 <= order_density <= MAX_ORDER_DENSITY) {
            Err(ProcessError::Listing(ListingError::InvalidOrderDensity))
        } else if !(1 <= spread_bps <= MAX_SPREAD_BPS) {
            Err(ProcessError::Listing(ListingError::InvalidSpread))
        } else {
            Ok(
                new_pool(
                    kind,
                    market_index,
                    creator.key,
                    market_account.key,
                    price_lower_e6,
                    price_upper_e6,
                    order_density,
                    spread_bps,
                    now,
                    bump->Some_0,
                ),
            )
        }
    }
}

/// Starts a liquidity pool for an active market, given the address that was
/// derived for the pool.
pub fn initialize_liquidity_pool_at(
    derived: &Option<(Address, u8)>,
    creator: &Account,
    pool_account: &Account,
    market_account: &Account,
    market: &MarketRecord,
    config: &ListingConfig,
    market_type: u8,
    price_lower_e6: u64,
    price_upper_e6: u64,
    order_density: u16,
    spread_bps: u64,
    now: i64,
) -> (res: Result<LiquidityPool, ProcessError>)
    ensures
        res == initialize_pool_outcome(
            matched_bump(*derived, pool_account.key),
            *creator,
            *pool_account,
            *market_account,
            *market,
            *config,
            market_type,
            price_lower_e6,
            price_upper_e6,
            order_density,
            spread_bps,
            now,
        ),
        res matches Ok(pool) ==> pool_params_valid(pool) && pool.is_active && pool.base_amount_e6
            == 0 && pool.quote_amount_e6 == 0,
{
    if !creator.is_signer {
        return Err(ProcessError::MissingRequiredSignature);
    }
    if config.is_paused {
        return Err(ProcessError::Listing(ListingError::ListingPaused));
    }
    let kind = if market_type == 0 {
        MarketType::Spot
    } else if market_type == 1 {
        MarketType::Perp
    } else {
        return Err(ProcessError::Listing(ListingError::InvalidMarketType));
    };
    let (is_active, market_index): (bool, u16) = match (market, kind) {
        (MarketRecord::Spot(m), MarketType::Spot) => (m.is_active, m.market_index),
        (MarketRecord::Perp(m), MarketType::Perp) => (m.is_active, m.market_index),
        _ => {
            return Err(ProcessError::InvalidAccountData);
        },
    };
    if !is_active {
        return Err(ProcessError::Listing(ListingError::MarketNotFound));
    }
    let bump: u8 = match match_pda(derived, &pool_account.key) {
        Ok(bump) => bump,
        Err(e) => {
            return Err(e);
        },
    };
    if !pool_account.data_is_empty {
        return Err(ProcessError::Listing(ListingError::AlreadyInitialized));
    }
    if price_lower_e6 >= price_upper_e6 {
        return Err(ProcessError::Listing(ListingError::InvalidPriceRange));
    }
    if order_density == 0 || order_density > MAX_ORDER_DENSITY {
        return Err(ProcessError::Listing(ListingError::InvalidOrderDensity));
    }
    if spread_bps == 0 || spread_bps > MAX_SPREAD_BPS {
        return Err(ProcessError::Listing(ListingError::InvalidSpread));
    }
    Ok(
        LiquidityPool {
            discriminator: LiquidityPool::DISCRIMINATOR,
            version: 1,
            market_type: kind,
            market_index,
            nonce: 0,
            creator: creator.key,
            market: market_account.key,
            base_amount_e6: 0,
            quote_amount_e6: 0,
            lp_token_supply_e6: 0,
            price_lower_e6,
            price_upper_e6,
            order_density,
            spread_bps,
            is_active: true,
            created_at: now,
            unlock_time: 0,
            retire_at: 0,
            bump,
            reserved: new_reserved(),
        },
    )
}

/// Starts a liquidity pool for an active market. The pool's account has to be
/// the one at the address derived from the kind of market, the index that the
/// market record carries, and the creator.
pub fn process_initialize_liquidity_pool(
    program_id: &Address,
    creator: &Account,
    pool_account: &Account,
    market_account: &Account,
    market: &MarketRecord,
    config: &ListingConfig,
    market_type: u8,
    price_lower_e6: u64,
    price_upper_e6: u64,
    order_density: u16,
    spread_bps: u64,
    now: i64,
) -> (res: Result<LiquidityPool, ProcessError>)
    ensures
        res == initialize_pool_outcome(
            pda_bump(
                pool_account.key,
                creator_pool_seeds(market_type, record_index(*market), creator.key),
                *program_id,
            ),
            *creator,
            *pool_account,
            *market_account,
            *market,
            *config,
            market_type,
            price_lower_e6,
            price_upper_e6,
            order_density,
            spread_bps,
            now,
        ),
        res matches Ok(pool) ==> pool_params_valid(pool) && pool.is_active && pool.base_amount_e6
            == 0 && pool.quote_amount_e6 == 0,
{
    let market_index: u16 = match market {
        MarketRecord::Spot(m) => m.market_index,
        MarketRecord::Perp(m) => m.market_index,
        MarketRecord::Unreadable => 0,
    };
    let derived = derive_creator_pool_pda(market_type, market_index, &creator.key, program_id);
    proof {
        lemma_matched_bump(
            derived,
            pool_account.key,
            creator_pool_seeds(market_type, market_index, creator.key),
            *program_id,
        );
    }
    initialize_liquidity_pool_at(
        &derived,
        creator,
        pool_account,
        market_account,
        market,
        config,
        market_type,
        price_lower_e6,
        price_upper_e6,
        order_density,
        spread_bps,
        now,
    )
}

/// Whether `operator` may work on `pool`, and if not, why: the operator signed,
/// the pool is active, and the operator is its creator.
pub open spec fn pool_verdict(operator: Account, pool: LiquidityPool) -> Result<(), ProcessError> {
    if !operator.is_signer {
        Err(ProcessError::MissingRequiredSignature)
    } else if !pool.is_active {
        Err(ProcessError::Listing(ListingError::PoolNotActive))
    } else if pool.creator != operator.key {
        Err(ProcessError::Listing(ListingError::Unauthorized))
    } else {
        Ok(())
    }
}

fn check_pool(operator: &Account, pool: &LiquidityPool) -> (res: Result<(), ProcessError>)
    ensures
        res == pool_verdict(*operator, *pool),
{
    if !operator.is_signer {
        return Err(ProcessError::MissingRequiredSignature);
    }
    if !pool.is_active {
        return Err(ProcessError::Listing(ListingError::PoolNotActive));
    }
    if pool.creator != operator.key {
        return Err(ProcessError::Listing(ListingError::Unauthorized));
    }
    Ok(())
}

/// Whether an operation on a pool did what `outcome` says: on success the pool
/// is the one that `outcome` gives, on failure the error is the one that
/// `outcome` gives and the pool is untouched.
pub open spec fn pool_result(
    outcome: Result<LiquidityPool, ProcessError>,
    before: LiquidityPool,
    after: LiquidityPool,
    res: Result<(), ProcessError>,
) -> bool {
    match outcome {
        Ok(pool) => res is Ok && after == pool,
        Err(e) => res == Err::<(), ProcessError>(e) && after == before,
    }
}

/// What adding to a pool's declared balances leads to.
pub open spec fn fund_outcome(
    funder: Account,
    pool: LiquidityPool,
    base_amount_e6: u64,
    quote_amount_e6: u64,
) -> Result<LiquidityPool, ProcessError> {
    if pool_verdict(funder, pool) is Err {
        Err(pool_verdict(funder, pool)->Err_0)
    } else if base_amount_e6 == 0 && quote_amount_e6 == 0 {
        Err(ProcessError::Listing(ListingError::InvalidAmount))
    } else if pool.base_amount_e6 + base_amount_e6 > u64::MAX || pool.quote_amount_e6
        + quote_amount_e6 > u64::MAX {
        Err(ProcessError::Listing(ListingError::Overflow))
    } else {
        Ok(
            LiquidityPool {
                base_amount_e6: (pool.base_amount_e6 + base_amount_e6) as u64,
                quote_amount_e6: (pool.quote_amount_e6 + quote_amount_e6) as u64,
                ..pool
            },
        )
    }
}

/// Adds to the declared balances of a pool, at its creator's word.
pub fn process_fund_liquidity_pool(
    funder: &Account,
    pool: &mut LiquidityPool,
    base_amount_e6: u64,
    quote_amount_e6: u64,
) -> (res: Result<(), ProcessError>)
    ensures
        pool_result(
            fund_outcome(*funder, *old(pool), base_amount_e6, quote_amount_e6),
            *old(pool),
            *final(pool),
            res,
        ),
{
    match check_pool(funder, pool) {
        Ok(()) => {},
        Err(e) => {
            return Err(e);
        },
    }
    if base_amount_e6 == 0 && quote_amount_e6 == 0 {
        return Err(ProcessError::Listing(ListingError::InvalidAmount));
    }
    if base_amount_e6 > u64::MAX - pool.base_amount_e6 {
        return Err(ProcessError::Listing(ListingError::Overflow));
    }
    if quote_amount_e6 > u64::MAX - pool.quote_amount_e6 {
        return Err(ProcessError::Listing(ListingError::Overflow));
    }
    pool.base_amount_e6 = pool.base_amount_e6 + base_amount_e6;
    pool.quote_amount_e6 = pool.quote_amount_e6 + quote_amount_e6;
    Ok(())
}

/// What a revision of a pool's parameters leads to. What is not given stays as
/// it is; the parameters that result must be valid.
pub open spec fn adjust_outcome(
    operator: Account,
    pool: LiquidityPool,
    price_lower_e6: Option<u64>,
    price_upper_e6: Option<u64>,
    order_density: Option<u16>,
    spread_bps: Option<u64>,
) -> Result<LiquidityPool, ProcessError> {
    let lower = updated(pool.price_lower_e6, price_lower_e6);
    let upper = updated(pool.price_upper_e6, price_upper_e6);
    if pool_verdict(operator, pool) is Err {
        Err(pool_verdict(operator, pool)->Err_0)
    } else if (price_lower_e6 is Some || price_upper_e6 is Some) && lower >= upper {
        Err(ProcessError::Listing(ListingError::InvalidPriceRange))
    } else if order_density matches Some(density) && !(1 <= density <= MAX_ORDER_DENSITY) {
        Err(ProcessError::Listing(ListingError::InvalidOrderDensity))
    } else if spread_bps matches Some(spread) && !(1 <= spread <= MAX_SPREAD_BPS) {
        Err(ProcessError::Listing(ListingError::InvalidSpread))
    } else {
        Ok(
            LiquidityPool {
                price_lower_e6: lower,
                price_upper_e6: upper,
                order_density: updated(pool.order_density, order_density),
                spread_bps: updated(pool.spread_bps, spread_bps),
                ..pool
            },
        )
    }
}

/// Revises the price range, the order density and the spread of a pool, at its
/// creator's word.
pub fn process_adjust_liquidity_pool(
    operator: &Account,
    pool: &mut LiquidityPool,
    price_lower_e6: Option<u64>,
    price_upper_e6: Option<u64>,
    order_density: Option<u16>,
    spread_bps: Option<u64>,
) -> (res: Result<(), ProcessError>)
    ensures
        pool_result(
            adjust_outcome(
                *operator,
                *old(pool),
                price_lower_e6,
                price_upper_e6,
                order_density,
                spread_bps,
            ),
            *old(pool),
            *final(pool),
            res,
        ),
        res is Ok && pool_params_valid(*old(pool)) ==> pool_params_valid(*final(pool)),
{
    match check_pool(operator, pool) {
        Ok(()) => {},
        Err(e) => {
            return Err(e);
        },
    }
    let mut lower: u64 = pool.price_lower_e6;
    if let Some(price) = price_lower_e6 {
        lower = price;
    }
    let mut upper: u64 = pool.price_upper_e6;
    if let Some(price) = price_upper_e6 {
        upper = price;
    }
    if price_lower_e6.is_some() || price_upper_e6.is_some() {
        if lower >= upper {
            return Err(ProcessError::Listing(ListingError::InvalidPriceRange));
        }
    }
    if let Some(density) = order_density {
        if density == 0 || density > MAX_ORDER_DENSITY {
            return Err(ProcessError::Listing(ListingError::InvalidOrderDensity));
        }
    }
    if let Some(spread) = spread_bps {
        if spread == 0 || spread > MAX_SPREAD_BPS {
            return Err(ProcessError::Listing(ListingError::InvalidSpread));
        }
    }
    pool.price_lower_e6 = lower;
    pool.price_upper_e6 = upper;
    if let Some(density) = order_density {
        pool.order_density = density;
    }
    if let Some(spread) = spread_bps {
        pool.spread_bps = spread;
    }
    Ok(())
}

/// Decides whether the orders of a pool may be refreshed: by its creator, while
/// it is active. The pool itself stays as it is.
pub fn process_refresh_liquidity_orders(operator: &Account, pool: &LiquidityPool) -> (res: Result<
    (),
    ProcessError,
>)
    ensures
        res == pool_verdict(*operator, *pool),
{
    check_pool(operator, pool)
}

/// What taking from a pool's declared balances leads to.
pub open spec fn withdraw_outcome(
    withdrawer: Account,
    pool: LiquidityPool,
    base_amount_e6: u64,
    quote_amount_e6: u64,
) -> Result<LiquidityPool, ProcessError> {
    if pool_verdict(withdrawer, pool) is Err {
        Err(pool_verdict(withdrawer, pool)->Err_0)
    } else if base_amount_e6 == 0 && quote_amount_e6 == 0 {
        Err(ProcessError::Listing(ListingError::InvalidAmount))
    } else if base_amount_e6 > pool.base_amount_e6 || quote_amount_e6 > pool.quote_amount_e6 {
        Err(ProcessError::Listing(ListingError::InsufficientBalance))
    } else {
        Ok(
            LiquidityPool {
                base_amount_e6: (pool.base_amount_e6 - base_amount_e6) as u64,
                quote_amount_e6: (pool.quote_amount_e6 - quote_amount_e6) as u64,
                ..pool
            },
        )
    }
}

/// Takes from the declared balances of a pool, at its creator's word.
pub fn process_withdraw_liquidity_profit(
    withdrawer: &Account,
    pool: &mut LiquidityPool,
    base_amount_e6: u64,
    quote_amount_e6: u64,
) -> (res: Result<(), ProcessError>)
    ensures
        pool_result(
            withdraw_outcome(*withdrawer, *old(pool), base_amount_e6, quote_amount_e6),
            *old(pool),
            *final(pool),
            res,
        ),
{
    match check_pool(withdrawer, pool) {
        Ok(()) => {},
        Err(e) => {
            return Err(e);
        },
    }
    if base_amount_e6 == 0 && quote_amount_e6 == 0 {
        return Err(ProcessError::Listing(ListingError::InvalidAmount));
    }
    if base_amount_e6 > pool.base_amount_e6 || quote_amount_e6 > pool.quote_amount_e6 {
        return Err(ProcessError::Listing(ListingError::InsufficientBalance));
    }
    pool.base_amount_e6 = pool.base_amount_e6 - base_amount_e6;
    pool.quote_amount_e6 = pool.quote_amount_e6 - quote_amount_e6;
    Ok(())
}

/// What retiring a pool leads to: the pool is no longer active. A pool with
/// anything left in either balance cannot be retired.
pub open spec fn retire_outcome(operator: Account, pool: LiquidityPool) -> Result<
    LiquidityPool,
    ProcessError,
> {
    if pool_verdict(operator, pool) is Err {
        Err(pool_verdict(operator, pool)->Err_0)
    } else if pool.base_amount_e6 > 0 || pool.quote_amount_e6 > 0 {
        Err(ProcessError::Listing(ListingError::PoolHasRemainingFunds))
    } else {
        Ok(LiquidityPool { is_active: false, ..pool })
    }
}

/// Retires a pool, at its creator's word.
pub fn process_retire_liquidity_pool(operator: &Account, pool: &mut LiquidityPool) -> (res: Result<
    (),
    ProcessError,
>)
    ensures
        pool_result(retire_outcome(*operator, *old(pool)), *old(pool), *final(pool), res),
        res is Ok ==> old(pool).base_amount_e6 == 0 && old(pool).quote_amount_e6 == 0,
{
    match check_pool(operator, pool) {
        Ok(()) => {},
        Err(e) => {
            return Err(e);
        },
    }
    if pool.base_amount_e6 > 0 || pool.quote_amount_e6 > 0 {
        return Err(ProcessError::Listing(ListingError::PoolHasRemainingFunds));
    }
    pool.is_active = false;
    Ok(())
}

/// A pool whose balances were brought to zero by a withdrawal can be retired,
/// and a pool with anything left cannot.
pub proof fn lemma_retire_needs_empty_pool(operator: Account, pool: LiquidityPool)
    requires
        pool_verdict(operator, pool) is Ok,
    ensures
        retire_outcome(operator, pool) is Ok <==> pool.base_amount_e6 == 0 && pool.quote_amount_e6
            == 0,
        withdraw_outcome(operator, pool, pool.base_amount_e6, pool.quote_amount_e6) matches Ok(
            emptied,
        ) ==> retire_outcome(operator, emptied) is Ok,
{
}

} // verus!
