//! Liquidity pools in the ledger.

use crate::address::{spec_find_program_address, Address};
use crate::error::{ListingError, ProcessError};
use crate::ledger::{is_pool, pool_index, pool_keys_unique, Ledger};
use crate::processor::pool::{
    adjust_outcome, fund_outcome, market_summary, market_type_of, new_pool, pool_params_valid,
    pool_verdict, process_adjust_liquidity_pool, process_fund_liquidity_pool,
    process_initialize_liquidity_pool, process_refresh_liquidity_orders,
    process_retire_liquidity_pool, process_withdraw_liquidity_profit, retire_outcome,
    withdraw_outcome, MarketRecord, MAX_ORDER_DENSITY, MAX_SPREAD_BPS,
};
use crate::state::{Account, LiquidityPool, MarketType};
use crate::utils::{
    creator_pool_seeds, derive_creator_pool_pda, derive_perp_market_pda, derive_spot_market_pda,
    perp_market_seeds, spot_market_seeds,
};
use vstd::prelude::*;

verus! {

/// The market of the kind that `market_type` stands for with index
/// `market_index`, as the ledger holds it.
pub open spec fn market_in_ledger(ledger: Ledger, market_type: u8, market_index: u16) -> MarketRecord {
    if market_type == 0 && market_index < ledger.spot_markets@.len() {
        MarketRecord::Spot(ledger.spot_markets@[market_index as int])
    } else if market_type == 1 && market_index < ledger.perp_markets@.len() {
        MarketRecord::Perp(ledger.perp_markets@[market_index as int])
    } else {
        MarketRecord::Unreadable
    }
}

/// The seeds of the address of the market of the given kind and index.
pub open spec fn market_seeds(kind: MarketType, market_index: u16) -> Seq<Seq<u8>> {
    match kind {
        MarketType::Spot => spot_market_seeds(market_index),
        MarketType::Perp => perp_market_seeds(market_index),
    }
}

/// Whether `key` is the address under which the ledger knows the market of the
/// given kind and index: the derived address, or the program's own where none
/// can be derived.
pub open spec fn is_market_key(ledger: Ledger, kind: MarketType, market_index: u16, key: Address) -> bool {
    match spec_find_program_address(market_seeds(kind, market_index), ledger.program_id@) {
        Some((address, _)) => key@ == address,
        None => key == ledger.program_id,
    }
}

/// What the ledger asks before a pool is started, in this order: the creator
/// signed, the protocol is not paused, the kind of market is known, the ledger
/// holds the market, the market is active, an address can be derived for the
/// pool, the creator has no pool for this market yet, and the parameters are
/// valid. On success the result is the kind of market and the bump seed of the
/// pool's address.
pub open spec fn pool_gate(
    ledger: Ledger,
    creator: Account,
    market_type: u8,
    market_index: u16,
    price_lower_e6: u64,
    price_upper_e6: u64,
    order_density: u16,
    spread_bps: u64,
) -> Result<(MarketType, u8), ProcessError> {
    let derived = spec_find_program_address(
        creator_pool_seeds(market_type, market_index, creator.key),
        ledger.program_id@,
    );
    let market = market_in_ledger(ledger, market_type, market_index);
    if !creator.is_signer {
        Err(ProcessError::MissingRequiredSignature)
    } else if ledger.config.is_paused {
        Err(ProcessError::Listing(ListingError::ListingPaused))
    } else if market_type_of(market_type) is None {
        Err(ProcessError::Listing(ListingError::InvalidMarketType))
    } else if market_summary(market, market_type_of(market_type)->Some_0) is None {
        Err(ProcessError::InvalidAccountData)
    } else if !market_summary(market, market_type_of(market_type)->Some_0)->Some_0.0 {
        Err(ProcessError::Listing(ListingError::MarketNotFound))
    } else if derived is None {
        Err(ProcessError::Listing(ListingError::InvalidPda))
    } else if pool_index(
        ledger.pools@,
        market_type_of(market_type)->Some_0,
        market_index,
        creator.key,
    ) is Some {
        Err(ProcessError::Listing(ListingError::AlreadyInitialized))
    } else if price_lower_e6 >= price_upper_e6 {
        Err(ProcessError::Listing(ListingError::InvalidPriceRange))
    } else if !(1 <= order_density <= MAX_ORDER_DENSITY) {
        Err(ProcessError::Listing(ListingError::InvalidOrderDensity))
    } else if !(1 <= spread_bps <= MAX_SPREAD_BPS) {
        Err(ProcessError::Listing(ListingError::InvalidSpread))
    } else {
        Ok((market_type_of(market_type)->Some_0, derived->Some_0.1))
    }
}

impl Ledger {
    /// Whether, from `before` to `self`, nothing has changed but the pools.
    pub open spec fn same_but_pools(&self, before: Ledger) -> bool {
        &&& self.same_funds(before)
        &&& self.same_proposals(before)
        &&& self.same_listings(before)
    }

    /// Whether an operation on the pool at position `i` did what `outcome`
    /// says: on success that pool is the one that `outcome` gives and no other
    /// has changed, on failure nothing has changed.
    pub open spec fn pool_changed(
        &self,
        before: Ledger,
        i: int,
        outcome: Result<LiquidityPool, ProcessError>,
        res: Result<(), ProcessError>,
    ) -> bool {
        &&& self.same_but_pools(before)
        &&& match outcome {
            Ok(pool) => res is Ok && self.pools@ == before.pools@.update(i, pool),
            Err(e) => res == Err::<(), ProcessError>(e) && self.pools@ == before.pools@,
        }
    }

    /// The position of the pool that `creator` runs for the market of the given
    /// kind and index.
    pub fn find_pool(&self, kind: MarketType, market_index: u16, creator: &Address) -> (found:
        Option<usize>)
        ensures
            match found {
                Some(i) => is_pool(self.pools@, kind, market_index, *creator, i as int),
                None => forall|i: int| !is_pool(self.pools@, kind, market_index, *creator, i),
            },
            pool_keys_unique(self.pools@) ==> (match found {
                Some(i) => Some(i as int),
                None => None,
            }) == pool_index(self.pools@, kind, market_index, *creator),
    {
        let mut i: usize = 0;
        while i < self.pools.len()
            invariant
                i <= self.pools@.len(),
                forall|j: int| 0 <= j < i ==> !is_pool(self.pools@, kind, market_index, *creator, j),
            decreases self.pools@.len() - i,
        {
            if self.pools[i].market_type == kind && self.pools[i].market_index == market_index
                && self.pools[i].creator == *creator {
                proof {
                    if pool_keys_unique(self.pools@) {
                        let j = choose|j: int| is_pool(self.pools@, kind, market_index, *creator, j);
                        assert(is_pool(self.pools@, kind, market_index, *creator, i as int));
                        if j < i {
                            assert(self.pools@[j].creator == self.pools@[i as int].creator);
                        } else if i < j {
                            assert(self.pools@[i as int].creator == self.pools@[j].creator);
                        }
                    }
                }
                return Some(i);
            }
            i = i + 1;
        }
        None
    }

    fn market_record(&self, market_type: u8, market_index: u16) -> (market: MarketRecord)
        ensures
            market == market_in_ledger(*self, market_type, market_index),
    {
        if market_type == 0 && (market_index as usize) < self.spot_markets.len() {
            MarketRecord::Spot(self.spot_markets[market_index as usize])
        } else if market_type == 1 && (market_index as usize) < self.perp_markets.len() {
            MarketRecord::Perp(self.perp_markets[market_index as usize])
        } else {
            MarketRecord::Unreadable
        }
    }

    /// Starts a pool that `creator` runs for the market of the kind that
    /// `market_type` stands for with index `market_index`. On success the result
    /// is the position of the new pool.
    pub fn initialize_liquidity_pool(
        &mut self,
        creator: &Account,
        market_type: u8,
        market_index: u16,
        price_lower_e6: u64,
        price_upper_e6: u64,
        order_density: u16,
        spread_bps: u64,
        now: i64,
    ) -> (res: Result<usize, ProcessError>)
        requires
            old(self).wf(),
        ensures
            final(self).wf(),
            final(self).same_but_pools(*old(self)),
            match pool_gate(
                *old(self),
                *creator,
                market_type,
                market_index,
                price_lower_e6,
                price_upper_e6,
                order_density,
                spread_bps,
            ) {
                Ok((kind, bump)) => {
                    &&& res == Ok::<usize, ProcessError>(old(self).pools@.len() as usize)
                    &&& final(self).pools@ == old(self).pools@.push(final(self).pools@.last())
                    &&& final(self).pools@.last() == new_pool(
                        kind,
                        market_index,
                        creator.key,
                        final(self).pools@.last().market,
                        price_lower_e6,
                        price_upper_e6,
                        order_density,
                        spread_bps,
                        now,
                        bump,
                    )
                    &&& is_market_key(*old(self), kind, market_index, final(self).pools@.last().market)
                },
                Err(e) => res == Err::<usize, ProcessError>(e) && *final(self) == *old(self),
            },
    {
        let kind = if market_type == 1 {
            MarketType::Perp
        } else {
            MarketType::Spot
        };
        let existing = self.find_pool(kind, market_index, &creator.key);
        let slot = self.vacant_account(
            derive_creator_pool_pda(market_type, market_index, &creator.key, &self.program_id),
            existing.is_none(),
        );
        let market_account = match kind {
            MarketType::Spot => self.vacant_account(
                derive_spot_market_pda(market_index, &self.program_id),
                false,
            ),
            MarketType::Perp => self.vacant_account(
                derive_perp_market_pda(market_index, &self.program_id),
                false,
            ),
        };
        let market = self.market_record(market_type, market_index);
        let pool = match process_initialize_liquidity_pool(
            &self.program_id,
            creator,
            &slot,
            &market_account,
            &market,
            &self.config,
            market_type,
            price_lower_e6,
            price_upper_e6,
            order_density,
            spread_bps,
            now,
        ) {
            Ok(pool) => pool,
            Err(e) => {
                return Err(e);
            },
        };
        let position = self.pools.len();
        proof {
            let after = self.pools@.push(pool);
            assert(after.last() == pool);
            assert forall|a: int, b: int| 0 <= a < b < after.len() implies !(
            #[trigger] after[a].creator == #[trigger] after[b].creator && after[a].market_type
                == after[b].market_type && after[a].market_index == after[b].market_index) by {
                if b == after.len() - 1 {
                    assert(!is_pool(self.pools@, kind, market_index, creator.key, a));
                } else {
                    assert(self.pools@[a].creator == self.pools@[a].creator);
                    assert(self.pools@[b].creator == self.pools@[b].creator);
                }
            }
        }
        self.pools.push(pool);
        Ok(position)
    }

    /// Stores what an operation has left of the pool at position `i`.
    fn store_pool(&mut self, i: usize, pool: LiquidityPool)
        requires
            old(self).wf(),
            i < old(self).pools@.len(),
            pool_params_valid(pool),
            pool.creator == old(self).pools@[i as int].creator,
            pool.market_type == old(self).pools@[i as int].market_type,
            pool.market_index == old(self).pools@[i as int].market_index,
        ensures
            final(self).wf(),
            final(self).same_but_pools(*old(self)),
            final(self).pools@ == old(self).pools@.update(i as int, pool),
    {
        proof {
            let after = self.pools@.update(i as int, pool);
            assert forall|a: int, b: int| 0 <= a < b < after.len() implies !(
            #[trigger] after[a].creator == #[trigger] after[b].creator && after[a].market_type
                == after[b].market_type && after[a].market_index == after[b].market_index) by {
                assert(self.pools@[a].creator == self.pools@[a].creator);
                assert(self.pools@[b].creator == self.pools@[b].creator);
            }
        }
        self.pools.set(i, pool);
    }

    /// Adds to the declared balances of the pool that `funder` runs for a
    /// market.
    pub fn fund_liquidity_pool(
        &mut self,
        funder: &Account,
        kind: MarketType,
        market_index: u16,
        base_amount_e6: u64,
        quote_amount_e6: u64,
    ) -> (res: Result<(), ProcessError>)
        requires
            old(self).wf(),
        ensures
            final(self).wf(),
            match pool_index(old(self).pools@, kind, market_index, funder.key) {
                Some(i) => final(self).pool_changed(
                    *old(self),
                    i,
                    fund_outcome(*funder, old(self).pools@[i], base_amount_e6, quote_amount_e6),
                    res,
                ),
                None => res == Err::<(), ProcessError>(ProcessError::InvalidAccountData)
                    && *final(self) == *old(self),
            },
    {
        let i = match self.find_pool(kind, market_index, &funder.key) {
            Some(i) => i,
            None => {
                return Err(ProcessError::InvalidAccountData);
            },
        };
        let mut pool = self.pools[i];
        let res = process_fund_liquidity_pool(funder, &mut pool, base_amount_e6, quote_amount_e6);
        if res.is_ok() {
            self.store_pool(i, pool);
        }
        res
    }

    /// Revises the parameters of the pool that `operator` runs for a market.
    pub fn adjust_liquidity_pool(
        &mut self,
        operator: &Account,
        kind: MarketType,
        market_index: u16,
        price_lower_e6: Option<u64>,
        price_upper_e6: Option<u64>,
        order_density: Option<u16>,
        spread_bps: Option<u64>,
    ) -> (res: Result<(), ProcessError>)
        requires
            old(self).wf(),
        ensures
            final(self).wf(),
            match pool_index(old(self).pools@, kind, market_index, operator.key) {
                Some(i) => final(self).pool_changed(
                    *old(self),
                    i,
                    adjust_outcome(
                        *operator,
                        old(self).pools@[i],
                        price_lower_e6,
                        price_upper_e6,
                        order_density,
                        spread_bps,
                    ),
                    res,
                ),
                None => res == Err::<(), ProcessError>(ProcessError::InvalidAccountData)
                    && *final(self) == *old(self),
            },
    {
        let i = match self.find_pool(kind, market_index, &operator.key) {
            Some(i) => i,
            None => {
                return Err(ProcessError::InvalidAccountData);
            },
        };
        let mut pool = self.pools[i];
        let res = process_adjust_liquidity_pool(
            operator,
            &mut pool,
            price_lower_e6,
            price_upper_e6,
            order_density,
            spread_bps,
        );
        if res.is_ok() {
            self.store_pool(i, pool);
        }
        res
    }

    /// Decides whether the orders of the pool that `operator` runs for a market
    /// may be refreshed. The ledger stays as it is.
    pub fn refresh_liquidity_orders(&self, operator: &Account, kind: MarketType, market_index: u16) -> (res:
        Result<(), ProcessError>)
        requires
            self.wf(),
        ensures
            match pool_index(self.pools@, kind, market_index, operator.key) {
                Some(i) => res == pool_verdict(*operator, self.pools@[i]),
                None => res == Err::<(), ProcessError>(ProcessError::InvalidAccountData),
            },
    {
        match self.find_pool(kind, market_index, &operator.key) {
            Some(i) => process_refresh_liquidity_orders(operator, &self.pools[i]),
            None => Err(ProcessError::InvalidAccountData),
        }
    }

    /// Takes from the declared balances of the pool that `withdrawer` runs for
    /// a market.
    pub fn withdraw_liquidity_profit(
        &mut self,
        withdrawer: &Account,
        kind: MarketType,
        market_index: u16,
        base_amount_e6: u64,
        quote_amount_e6: u64,
    ) -> (res: Result<(), ProcessError>)
        requires
            old(self).wf(),
        ensures
            final(self).wf(),
            match pool_index(old(self).pools@, kind, market_index, withdrawer.key) {
                Some(i) => final(self).pool_changed(
                    *old(self),
                    i,
                    withdraw_outcome(
                        *withdrawer,
                        old(self).pools@[i],
                        base_amount_e6,
                        quote_amount_e6,
                    ),
                    res,
                ),
                None => res == Err::<(), ProcessError>(ProcessError::InvalidAccountData)
                    && *final(self) == *old(self),
            },
    {
        let i = match self.find_pool(kind, market_index, &withdrawer.key) {
            Some(i) => i,
            None => {
                return Err(ProcessError::InvalidAccountData);
            },
        };
        let mut pool = self.pools[i];
        let res = process_withdraw_liquidity_profit(
            withdrawer,
            &mut pool,
            base_amount_e6,
            quote_amount_e6,
        );
        if res.is_ok() {
            self.store_pool(i, pool);
        }
        res
    }

    /// Retires the pool that `operator` runs for a market. A pool with anything
    /// left in either balance cannot be retired.
    pub fn retire_liquidity_pool(&mut self, operator: &Account, kind: MarketType, market_index: u16) -> (res:
        Result<(), ProcessError>)
        requires
            old(self).wf(),
        ensures
            final(self).wf(),
            match pool_index(old(self).pools@, kind, market_index, operator.key) {
                Some(i) => final(self).pool_changed(
                    *old(self),
                    i,
                    retire_outcome(*operator, old(self).pools@[i]),
                    res,
                ),
                None => res == Err::<(), ProcessError>(ProcessError::InvalidAccountData)
                    && *final(self) == *old(self),
            },
    {
        let i = match self.find_pool(kind, market_index, &operator.key) {
            Some(i) => i,
            None => {
                return Err(ProcessError::InvalidAccountData);
            },
        };
        let mut pool = self.pools[i];
        let res = process_retire_liquidity_pool(operator, &mut pool);
        if res.is_ok() {
            self.store_pool(i, pool);
        }
        res
    }
}

} // verus!
