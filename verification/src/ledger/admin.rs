//! The administrator's operations in the ledger: changes of the configuration
//! and of registry entries and markets.

use crate::address::Address;
use crate::error::ProcessError;
use crate::ledger::Ledger;
use crate::processor::admin::{
    admin_change, process_set_paused, process_update_admin, process_update_review_periods,
    process_update_stake_config, updated,
};
use crate::processor::perp::{
    process_update_perp_params, process_update_perp_status,
    update_perp_params_outcome,
};
use crate::processor::spot::{
    process_update_spot_params, process_update_spot_status, update_spot_params_outcome,
};
use crate::processor::token::process_update_token_status;
use crate::state::{Account, ListingConfig, PerpMarket, SpotMarket, TokenRegistry};
use crate::utils::admin_verdict;
use vstd::prelude::*;

verus! {

impl Ledger {
    /// Whether, from `before` to `self`, nothing has changed but the
    /// configuration.
    pub open spec fn same_but_config(&self, before: Ledger) -> bool {
        &&& self.program_id == before.program_id
        &&& self.treasury == before.treasury
        &&& self.same_proposals(before)
        &&& self.same_listings(before)
        &&& self.pools@ == before.pools@
    }

    /// Stores a configuration in which the administrator changed what neither
    /// counts records nor staked value nor names the treasury.
    fn store_config(&mut self, config: ListingConfig)
        requires
            old(self).wf(),
            config.treasury == old(self).config.treasury,
            config.total_staked_lamports == old(self).config.total_staked_lamports,
            config.total_tokens == old(self).config.total_tokens,
            config.total_spot_markets == old(self).config.total_spot_markets,
            config.total_perp_markets == old(self).config.total_perp_markets,
        ensures
            final(self).wf(),
            final(self).config == config,
            final(self).same_but_config(*old(self)),
    {
        self.config = config;
    }

    /// Hands the administration to `new_admin`.
    pub fn update_admin(&mut self, admin: &Account, new_admin: Address) -> (res: Result<
        (),
        ProcessError,
    >)
        requires
            old(self).wf(),
        ensures
            final(self).wf(),
            final(self).same_but_config(*old(self)),
            admin_change(
                *admin,
                old(self).config,
                (ListingConfig { admin: new_admin, ..old(self).config }),
                final(self).config,
                res,
            ),
    {
        let mut config = self.config;
        let res = process_update_admin(admin, &mut config, new_admin);
        self.store_config(config);
        res
    }

    /// Changes the stakes that new proposals take.
    pub fn update_stake_config(
        &mut self,
        admin: &Account,
        token_stake_amount: Option<u64>,
        spot_stake_amount: Option<u64>,
        perp_stake_amount: Option<u64>,
    ) -> (res: Result<(), ProcessError>)
        requires
            old(self).wf(),
        ensures
            final(self).wf(),
            final(self).same_but_config(*old(self)),
            admin_change(
                *admin,
                old(self).config,
                (ListingConfig {
                    token_stake_amount: updated(
                        old(self).config.token_stake_amount,
                        token_stake_amount,
                    ),
                    spot_stake_amount: updated(old(self).config.spot_stake_amount, spot_stake_amount),
                    perp_stake_amount: updated(old(self).config.perp_stake_amount, perp_stake_amount),
                    ..old(self).config
                }),
                final(self).config,
                res,
            ),
    {
        let mut config = self.config;
        let res = process_update_stake_config(
            admin,
            &mut config,
            token_stake_amount,
            spot_stake_amount,
            perp_stake_amount,
        );
        self.store_config(config);
        res
    }

    /// Changes the review periods of new proposals and the lock period of
    /// stakes.
    pub fn update_review_periods(
        &mut self,
        admin: &Account,
        token_review_period: Option<u32>,
        spot_review_period: Option<u32>,
        perp_review_period: Option<u32>,
        stake_lock_period: Option<u32>,
    ) -> (res: Result<(), ProcessError>)
        requires
            old(self).wf(),
        ensures
            final(self).wf(),
            final(self).same_but_config(*old(self)),
            admin_change(
                *admin,
                old(self).config,
                (ListingConfig {
                    token_review_period_seconds: updated(
                        old(self).config.token_review_period_seconds,
                        token_review_period,
                    ),
                    spot_review_period_seconds: updated(
                        old(self).config.spot_review_period_seconds,
                        spot_review_period,
                    ),
                    perp_review_period_seconds: updated(
                        old(self).config.perp_review_period_seconds,
                        perp_review_period,
                    ),
                    stake_lock_period_seconds: updated(
                        old(self).config.stake_lock_period_seconds,
                        stake_lock_period,
                    ),
                    ..old(self).config
                }),
                final(self).config,
                res,
            ),
    {
        let mut config = self.config;
        let res = process_update_review_periods(
            admin,
            &mut config,
            token_review_period,
            spot_review_period,
            perp_review_period,
            stake_lock_period,
        );
        self.store_config(config);
        res
    }

    /// Stops or resumes the taking of new proposals.
    pub fn set_paused(&mut self, admin: &Account, paused: bool) -> (res: Result<(), ProcessError>)
        requires
            old(self).wf(),
        ensures
            final(self).wf(),
            final(self).same_but_config(*old(self)),
            admin_change(
                *admin,
                old(self).config,
                (ListingConfig { is_paused: paused, ..old(self).config }),
                final(self).config,
                res,
            ),
    {
        let mut config = self.config;
        let res = process_set_paused(admin, &mut config, paused);
        self.store_config(config);
        res
    }

    /// Switches the registered token with index `token_index` on or off, on the
    /// administrator's word.
    pub fn update_token_status(&mut self, admin: &Account, token_index: u16, is_active: bool) -> (res:
        Result<(), ProcessError>)
        requires
            old(self).wf(),
        ensures
            final(self).wf(),
            final(self).same_funds(*old(self)),
            final(self).same_proposals(*old(self)),
            final(self).spot_markets@ == old(self).spot_markets@,
            final(self).perp_markets@ == old(self).perp_markets@,
            final(self).pools@ == old(self).pools@,
            if token_index < old(self).tokens@.len() {
                &&& res == admin_verdict(*admin, old(self).config)
                &&& final(self).tokens@ == if res is Ok {
                    old(self).tokens@.update(
                        token_index as int,
                        TokenRegistry { is_active, ..old(self).tokens@[token_index as int] },
                    )
                } else {
                    old(self).tokens@
                }
            } else {
                &&& res == Err::<(), ProcessError>(ProcessError::InvalidAccountData)
                &&& final(self).tokens@ == old(self).tokens@
            },
    {
        if token_index as usize >= self.tokens.len() {
            return Err(ProcessError::InvalidAccountData);
        }
        let mut entry = self.tokens[token_index as usize];
        let res = process_update_token_status(admin, &mut entry, &self.config, is_active);
        if res.is_ok() {
            self.tokens.set(token_index as usize, entry);
        }
        res
    }

    /// Switches the spot market with index `market_index` on or off and pauses
    /// or resumes its trading, on the administrator's word.
    pub fn update_spot_status(
        &mut self,
        admin: &Account,
        market_index: u16,
        is_active: Option<bool>,
        is_paused: Option<bool>,
    ) -> (res: Result<(), ProcessError>)
        requires
            old(self).wf(),
        ensures
            final(self).wf(),
            final(self).same_funds(*old(self)),
            final(self).same_proposals(*old(self)),
            final(self).tokens@ == old(self).tokens@,
            final(self).perp_markets@ == old(self).perp_markets@,
            final(self).pools@ == old(self).pools@,
            if market_index < old(self).spot_markets@.len() {
                &&& res == admin_verdict(*admin, old(self).config)
                &&& final(self).spot_markets@ == if res is Ok {
                    old(self).spot_markets@.update(
                        market_index as int,
                        SpotMarket {
                            is_active: updated(
                                old(self).spot_markets@[market_index as int].is_active,
                                is_active,
                            ),
                            is_paused: updated(
                                old(self).spot_markets@[market_index as int].is_paused,
                                is_paused,
                            ),
                            ..old(self).spot_markets@[market_index as int]
                        },
                    )
                } else {
                    old(self).spot_markets@
                }
            } else {
                &&& res == Err::<(), ProcessError>(ProcessError::InvalidAccountData)
                &&& final(self).spot_markets@ == old(self).spot_markets@
            },
    {
        if market_index as usize >= self.spot_markets.len() {
            return Err(ProcessError::InvalidAccountData);
        }
        let mut market = self.spot_markets[market_index as usize];
        let res = process_update_spot_status(admin, &mut market, &self.config, is_active, is_paused);
        if res.is_ok() {
            self.spot_markets.set(market_index as usize, market);
        }
        res
    }

    /// Changes the fees and the order size bounds of the spot market with index
    /// `market_index`, on the administrator's word.
    pub fn update_spot_params(
        &mut self,
        admin: &Account,
        market_index: u16,
        taker_fee_bps: Option<u16>,
        maker_fee_bps: Option<i16>,
        min_order_size_e6: Option<u64>,
        max_order_size_e6: Option<u64>,
    ) -> (res: Result<(), ProcessError>)
        requires
            old(self).wf(),
        ensures
            final(self).wf(),
            final(self).same_funds(*old(self)),
            final(self).same_proposals(*old(self)),
            final(self).tokens@ == old(self).tokens@,
            final(self).perp_markets@ == old(self).perp_markets@,
            final(self).pools@ == old(self).pools@,
            if market_index < old(self).spot_markets@.len() {
                match update_spot_params_outcome(
                    *admin,
                    old(self).spot_markets@[market_index as int],
                    old(self).config,
                    taker_fee_bps,
                    maker_fee_bps,
                    min_order_size_e6,
                    max_order_size_e6,
                ) {
                    Ok(market) => res is Ok && final(self).spot_markets@ == old(self).spot_markets@.update(
                        market_index as int,
                        market,
                    ),
                    Err(e) => res == Err::<(), ProcessError>(e) && final(self).spot_markets@
                        == old(self).spot_markets@,
                }
            } else {
                &&& res == Err::<(), ProcessError>(ProcessError::InvalidAccountData)
                &&& final(self).spot_markets@ == old(self).spot_markets@
            },
    {
        if market_index as usize >= self.spot_markets.len() {
            return Err(ProcessError::InvalidAccountData);
        }
        let mut market = self.spot_markets[market_index as usize];
        let res = process_update_spot_params(
            admin,
            &mut market,
            &self.config,
            taker_fee_bps,
            maker_fee_bps,
            min_order_size_e6,
            max_order_size_e6,
        );
        if res.is_ok() {
            self.spot_markets.set(market_index as usize, market);
        }
        res
    }

    /// Switches the perpetual market with index `market_index` on or off and
    /// pauses or resumes its trading, on the administrator's word.
    pub fn update_perp_status(
        &mut self,
        admin: &Account,
        market_index: u16,
        is_active: Option<bool>,
        is_paused: Option<bool>,
    ) -> (res: Result<(), ProcessError>)
        requires
            old(self).wf(),
        ensures
            final(self).wf(),
            final(self).same_funds(*old(self)),
            final(self).same_proposals(*old(self)),
            final(self).tokens@ == old(self).tokens@,
            final(self).spot_markets@ == old(self).spot_markets@,
            final(self).pools@ == old(self).pools@,
            if market_index < old(self).perp_markets@.len() {
                &&& res == admin_verdict(*admin, old(self).config)
                &&& final(self).perp_markets@ == if res is Ok {
                    old(self).perp_markets@.update(
                        market_index as int,
                        PerpMarket {
                            is_active: updated(
                                old(self).perp_markets@[market_index as int].is_active,
                                is_active,
                            ),
                            is_paused: updated(
                                old(self).perp_markets@[market_index as int].is_paused,
                                is_paused,
                            ),
                            ..old(self).perp_markets@[market_index as int]
                        },
                    )
                } else {
                    old(self).perp_markets@
                }
            } else {
                &&& res == Err::<(), ProcessError>(ProcessError::InvalidAccountData)
                &&& final(self).perp_markets@ == old(self).perp_markets@
            },
    {
        if market_index as usize >= self.perp_markets.len() {
            return Err(ProcessError::InvalidAccountData);
        }
        let mut market = self.perp_markets[market_index as usize];
        let res = process_update_perp_status(admin, &mut market, &self.config, is_active, is_paused);
        if res.is_ok() {
            self.perp_markets.set(market_index as usize, market);
        }
        res
    }

    /// Changes the risk parameters of the perpetual market with index
    /// `market_index`, on the administrator's word.
    pub fn update_perp_params(
        &mut self,
        admin: &Account,
        market_index: u16,
        max_leverage: Option<u8>,
        initial_margin_rate_e6: Option<u32>,
        maintenance_margin_rate_e6: Option<u32>,
        taker_fee_bps: Option<u16>,
        maker_fee_bps: Option<i16>,
        max_open_interest_e6: Option<u64>,
    ) -> (res: Result<(), ProcessError>)
        requires
            old(self).wf(),
        ensures
            final(self).wf(),
            final(self).same_funds(*old(self)),
            final(self).same_proposals(*old(self)),
            final(self).tokens@ == old(self).tokens@,
            final(self).spot_markets@ == old(self).spot_markets@,
            final(self).pools@ == old(self).pools@,
            if market_index < old(self).perp_markets@.len() {
                match update_perp_params_outcome(
                    *admin,
                    old(self).perp_markets@[market_index as int],
                    old(self).config,
                    max_leverage,
                    initial_margin_rate_e6,
                    maintenance_margin_rate_e6,
                    taker_fee_bps,
                    maker_fee_bps,
                    max_open_interest_e6,
                ) {
                    Ok(market) => res is Ok && final(self).perp_markets@ == old(self).perp_markets@.update(
                        market_index as int,
                        market,
                    ),
                    Err(e) => res == Err::<(), ProcessError>(e) && final(self).perp_markets@
                        == old(self).perp_markets@,
                }
            } else {
                &&& res == Err::<(), ProcessError>(ProcessError::InvalidAccountData)
                &&& final(self).perp_markets@ == old(self).perp_markets@
            },
    {
        if market_index as usize >= self.perp_markets.len() {
            return Err(ProcessError::InvalidAccountData);
        }
        let mut market = self.perp_markets[market_index as usize];
        let res = process_update_perp_params(
            admin,
            &mut market,
            &self.config,
            max_leverage,
            initial_margin_rate_e6,
            maintenance_margin_rate_e6,
            taker_fee_bps,
            maker_fee_bps,
            max_open_interest_e6,
        );
        if res.is_ok() {
            self.perp_markets.set(market_index as usize, market);
        }
        res
    }
}

} // verus!
