//! Perpetual market proposals and the perpetual markets in the ledger.

use crate::address::{spec_find_program_address, Address};
use crate::error::{ListingError, ProcessError};
use crate::ledger::{
    is_perp_proposal, lemma_total_escrowed_nonnegative, lemma_total_escrowed_part,
    lemma_total_escrowed_push, lemma_total_escrowed_update, spot_lives, perp_keys_unique,
    perp_lives, perp_proposal_index, token_active, token_lives, Ledger,
};
use crate::lifecycle::{
    approve_verdict, cancel_outcome, claim_outcome, escrowed, finalize_verdict, object_outcome,
    propose_outcome, refund_on_cancel, reject_outcome, slash_on_reject, stake_result, stake_state,
    VetoRule,
};
use crate::processor::perp::{
    new_perp_proposal, process_approve_perp_market, process_cancel_perp_proposal,
    process_claim_perp_stake, process_finalize_perp_market, process_object_perp_market,
    process_propose_perp_market, process_reject_perp_market, perp_market_entry, perp_market_valid,
};
use crate::state::{Account, ListingConfig, PerpMarket, PerpMarketProposal, ProposalStatus};
use crate::utils::{
    derive_perp_market_pda, derive_perp_proposal_pda, margin_verdict, oracle_exists,
    perp_market_seeds, sizes_verdict,
    perp_proposal_seeds, valid_fee_rates, valid_market_symbol, PriceReading,
};
use vstd::prelude::*;

verus! {

/// What the ledger asks of a perpetual market proposal before its stake is taken, in
/// this order: the proposer signed, the protocol is not paused, an address can
/// be derived for the proposal, no proposal of this proposer has this nonce,
/// the symbol is valid for a perpetual market, base and quote are active tokens
/// of the registry and differ, the oracle account is the proposed oracle and
/// can serve as one, and the sizes, fees, leverage and margin rates are valid. On success
/// the result is the bump seed of the proposal's address.
pub open spec fn perp_proposal_gate(
    ledger: Ledger,
    proposer: Account,
    oracle_account: Account,
    oracle_feed: Option<PriceReading>,
    nonce: u64,
    symbol: [u8; 16],
    base_token_index: u16,
    quote_token_index: u16,
    oracle: Address,
    tick_size_e6: u64,
    lot_size_e6: u64,
    max_leverage: u8,
    initial_margin_rate_e6: u32,
    maintenance_margin_rate_e6: u32,
    taker_fee_bps: u16,
    maker_fee_bps: i16,
) -> Result<u8, ProcessError> {
    let derived = spec_find_program_address(
        perp_proposal_seeds(proposer.key, nonce),
        ledger.program_id@,
    );
    if !proposer.is_signer {
        Err(ProcessError::MissingRequiredSignature)
    } else if ledger.config.is_paused {
        Err(ProcessError::Listing(ListingError::ListingPaused))
    } else if derived is None {
        Err(ProcessError::Listing(ListingError::InvalidPda))
    } else if perp_proposal_index(ledger.perp_proposals@, proposer.key, nonce) is Some {
        Err(ProcessError::Listing(ListingError::AlreadyInitialized))
    } else if !valid_market_symbol(symbol@, false) {
        Err(ProcessError::Listing(ListingError::InvalidSymbol))
    } else if !token_active(ledger.tokens@, base_token_index) {
        Err(ProcessError::Listing(ListingError::TokenNotRegistered))
    } else if !token_active(ledger.tokens@, quote_token_index) {
        Err(ProcessError::Listing(ListingError::TokenNotRegistered))
    } else if base_token_index == quote_token_index {
        Err(ProcessError::Listing(ListingError::SameTokenPair))
    } else if oracle_account.key != oracle {
        Err(ProcessError::Listing(ListingError::InvalidOracle))
    } else if !oracle_exists(oracle_account, oracle_feed) {
        Err(ProcessError::Listing(ListingError::InvalidOracle))
    } else if sizes_verdict(tick_size_e6, lot_size_e6) is Err {
        Err(sizes_verdict(tick_size_e6, lot_size_e6)->Err_0)
    } else if !valid_fee_rates(taker_fee_bps, maker_fee_bps) {
        Err(ProcessError::Listing(ListingError::InvalidFeeRate))
    } else if !(1 <= max_leverage <= 100) {
        Err(ProcessError::Listing(ListingError::InvalidLeverage))
    } else if margin_verdict(initial_margin_rate_e6, maintenance_margin_rate_e6) is Err {
        Err(margin_verdict(initial_margin_rate_e6, maintenance_margin_rate_e6)->Err_0)
    } else {
        Ok(derived->Some_0.1)
    }
}

/// What the approval of a perpetual market proposal leads to in the ledger, once it was
/// decided that the proposal may be approved: the market gets the number of
/// perpetual markets so far as its index.
pub open spec fn perp_admission(
    ledger: Ledger,
    proposal: PerpMarketProposal,
    now: i64,
) -> Result<(PerpMarketProposal, ListingConfig, PerpMarket), ProcessError> {
    let derived = spec_find_program_address(
        perp_market_seeds(ledger.config.total_perp_markets),
        ledger.program_id@,
    );
    if ledger.config.total_perp_markets + 1 > u16::MAX {
        Err(ProcessError::Listing(ListingError::Overflow))
    } else if derived is None {
        Err(ProcessError::Listing(ListingError::InvalidPda))
    } else {
        Ok(
            (
                PerpMarketProposal { status: ProposalStatus::Approved, ..proposal },
                ListingConfig {
                    total_perp_markets: (ledger.config.total_perp_markets + 1) as u16,
                    ..ledger.config
                },
                perp_market_entry(proposal, ledger.config.total_perp_markets, now, derived->Some_0.1),
            ),
        )
    }
}

impl Ledger {
    /// Whether, from `before` to `self`, nothing has changed but the
    /// configuration, the treasury and the perpetual market proposals.
    pub open spec fn same_but_perp_proposals(&self, before: Ledger) -> bool {
        &&& self.program_id == before.program_id
        &&& self.pools@ == before.pools@
        &&& self.spot_proposals@ == before.spot_proposals@
        &&& self.token_proposals@ == before.token_proposals@
        &&& self.perp_markets@ == before.perp_markets@
        &&& self.spot_markets@ == before.spot_markets@
        &&& self.tokens@ == before.tokens@
    }

    /// Whether, from `before` to `self`, of the perpetual market proposals only the stake,
    /// state and objections of the one at position `i` may have changed.
    pub open spec fn perp_life_changed(&self, before: Ledger, i: int) -> bool {
        &&& self.same_but_perp_proposals(before)
        &&& self.perp_proposals@ == before.perp_proposals@.update(
            i,
            before.perp_proposals@[i].with_lifecycle(self.perp_proposals@[i].lifecycle()),
        )
    }

    /// Whether, from `before` to `self`, the perpetual market proposal at position `i` was
    /// approved as `outcome` says: on success it and the configuration are the
    /// ones that `outcome` gives, the new market stands at the end of the
    /// markets and its index is the result; on failure nothing has changed.
    pub open spec fn perp_admitted(
        &self,
        before: Ledger,
        i: int,
        outcome: Result<(PerpMarketProposal, ListingConfig, PerpMarket), ProcessError>,
        res: Result<u16, ProcessError>,
    ) -> bool {
        match outcome {
            Ok((proposal, config, entry)) => {
                &&& res == Ok::<u16, ProcessError>(entry.market_index)
                &&& self.program_id == before.program_id
                &&& self.pools@ == before.pools@
                &&& self.treasury == before.treasury
                &&& self.config == config
                &&& self.perp_proposals@ == before.perp_proposals@.update(i, proposal)
                &&& self.perp_markets@ == before.perp_markets@.push(entry)
                &&& self.spot_proposals@ == before.spot_proposals@
                &&& self.token_proposals@ == before.token_proposals@
                &&& self.spot_markets@ == before.spot_markets@
                &&& self.tokens@ == before.tokens@
            },
            Err(e) => res == Err::<u16, ProcessError>(e) && *self == before,
        }
    }

    /// What being well formed says of the perpetual market proposal at position `i`.
    pub proof fn lemma_perp_proposal_at(&self, i: int)
        requires
            self.wf(),
            0 <= i < self.perp_proposals@.len(),
        ensures
            self.perp_proposals@[i].stake_claimed ==> self.perp_proposals@[i].status
                == ProposalStatus::Approved,
            escrowed(self.perp_proposals@[i].lifecycle()) <= self.config.total_staked_lamports,
            self.perp_proposals@[i] == self.perp_proposals@[i].with_lifecycle(
                self.perp_proposals@[i].lifecycle(),
            ),
    {
        let lives = perp_lives(self.perp_proposals@);
        assert(lives[i] == self.perp_proposals@[i].lifecycle());
        lemma_total_escrowed_update(lives, i, lives[i]);
        lemma_total_escrowed_part(lives, i);
        lemma_total_escrowed_nonnegative(spot_lives(self.spot_proposals@));
        lemma_total_escrowed_nonnegative(token_lives(self.token_proposals@));
    }

    /// The position of the perpetual market proposal that `proposer` made under `nonce`.
    pub fn find_perp_proposal(&self, proposer: &Address, nonce: u64) -> (found: Option<usize>)
        ensures
            match found {
                Some(i) => is_perp_proposal(self.perp_proposals@, *proposer, nonce, i as int),
                None => forall|i: int| !is_perp_proposal(self.perp_proposals@, *proposer, nonce, i),
            },
            perp_keys_unique(self.perp_proposals@) ==> (match found {
                Some(i) => Some(i as int),
                None => None,
            }) == perp_proposal_index(self.perp_proposals@, *proposer, nonce),
    {
        let mut i: usize = 0;
        while i < self.perp_proposals.len()
            invariant
                i <= self.perp_proposals@.len(),
                forall|j: int| 0 <= j < i ==> !is_perp_proposal(
                    self.perp_proposals@,
                    *proposer,
                    nonce,
                    j,
                ),
            decreases self.perp_proposals@.len() - i,
        {
            if self.perp_proposals[i].proposer == *proposer && self.perp_proposals[i].nonce
                == nonce {
                proof {
                    if perp_keys_unique(self.perp_proposals@) {
                        let j = choose|j: int|
                            is_perp_proposal(self.perp_proposals@, *proposer, nonce, j);
                        assert(is_perp_proposal(self.perp_proposals@, *proposer, nonce, i as int));
                        if j < i {
                            assert(self.perp_proposals@[j].proposer
                                == self.perp_proposals@[i as int].proposer);
                        } else if i < j {
                            assert(self.perp_proposals@[i as int].proposer
                                == self.perp_proposals@[j].proposer);
                        }
                    }
                }
                return Some(i);
            }
            i = i + 1;
        }
        None
    }

    /// Makes a proposal to open a perpetual market and stores it. The stake moves from
    /// `proposer` to the treasury. On success the result is the position of the
    /// new proposal.
    pub fn propose_perp_market(
        &mut self,
        proposer: &mut Account,
        oracle_account: &Account,
        oracle_feed: &Option<PriceReading>,
        nonce: u64,
        symbol: [u8; 16],
        base_token_index: u16,
        quote_token_index: u16,
        oracle: Address,
        tick_size_e6: u64,
        lot_size_e6: u64,
        max_leverage: u8,
        initial_margin_rate_e6: u32,
        maintenance_margin_rate_e6: u32,
        taker_fee_bps: u16,
        maker_fee_bps: i16,
        min_order_size_e6: u64,
        max_order_size_e6: u64,
        max_open_interest_e6: u64,
        insurance_fund_deposit_e6: u64,
        now: i64,
    ) -> (res: Result<usize, ProcessError>)
        requires
            old(self).wf(),
        ensures
            final(self).wf(),
            final(self).same_but_perp_proposals(*old(self)),
            match perp_proposal_gate(
                *old(self),
                *old(proposer),
                *oracle_account,
                *oracle_feed,
                nonce,
                symbol,
                base_token_index,
                quote_token_index,
                oracle,
                tick_size_e6,
                lot_size_e6,
                max_leverage,
                initial_margin_rate_e6,
                maintenance_margin_rate_e6,
                taker_fee_bps,
                maker_fee_bps,
            ) {
                Ok(bump) => match propose_outcome(
                    *old(proposer),
                    old(self).treasury,
                    old(self).config,
                    old(self).config.perp_stake_amount,
                    old(self).config.perp_review_period_seconds,
                    now,
                ) {
                    Ok(state) => {
                        &&& res == Ok::<usize, ProcessError>(old(self).perp_proposals@.len() as usize)
                        &&& *final(proposer) == state.payer
                        &&& final(self).treasury == state.treasury
                        &&& final(self).config == state.config
                        &&& final(self).perp_proposals@ == old(self).perp_proposals@.push(
                            new_perp_proposal(
                                old(proposer).key,
                                nonce,
                                symbol,
                                base_token_index,
                                quote_token_index,
                                oracle,
                                tick_size_e6,
                                lot_size_e6,
                                max_leverage,
                                initial_margin_rate_e6,
                                maintenance_margin_rate_e6,
                                taker_fee_bps,
                                maker_fee_bps,
                                min_order_size_e6,
                                max_order_size_e6,
                                max_open_interest_e6,
                                insurance_fund_deposit_e6,
                                state.life,
                                bump,
                            ),
                        )
                    },
                    Err(e) => res == Err::<usize, ProcessError>(e) && *final(self) == *old(self)
                        && *final(proposer) == *old(proposer),
                },
                Err(e) => res == Err::<usize, ProcessError>(e) && *final(self) == *old(self)
                    && *final(proposer) == *old(proposer),
            },
    {
        let existing = self.find_perp_proposal(&proposer.key, nonce);
        let slot = self.vacant_account(
            derive_perp_proposal_pda(&proposer.key, nonce, &self.program_id),
            existing.is_none(),
        );
        let base = self.token_or_blank(base_token_index);
        let quote = self.token_or_blank(quote_token_index);
        let mut config = self.config;
        let mut treasury = self.treasury;
        let proposal = match process_propose_perp_market(
            &self.program_id,
            proposer,
            &slot,
            &mut config,
            &base,
            &quote,
            oracle_account,
            oracle_feed,
            &mut treasury,
            nonce,
            symbol,
            base_token_index,
            quote_token_index,
            oracle,
            tick_size_e6,
            lot_size_e6,
            max_leverage,
            initial_margin_rate_e6,
            maintenance_margin_rate_e6,
            taker_fee_bps,
            maker_fee_bps,
            min_order_size_e6,
            max_order_size_e6,
            max_open_interest_e6,
            insurance_fund_deposit_e6,
            now,
        ) {
            Ok(proposal) => proposal,
            Err(e) => {
                return Err(e);
            },
        };
        let position = self.perp_proposals.len();
        proof {
            let lives = perp_lives(self.perp_proposals@);
            let after = self.perp_proposals@.push(proposal);
            lemma_total_escrowed_push(lives, proposal.lifecycle());
            assert(perp_lives(after) =~= lives.push(proposal.lifecycle()));
            assert forall|k: int| 0 <= k < lives.push(proposal.lifecycle()).len() && (
            #[trigger] lives.push(proposal.lifecycle())[k]).stake_claimed implies lives.push(
                proposal.lifecycle(),
            )[k].status == ProposalStatus::Approved by {
                if k < lives.len() {
                    assert(lives[k].stake_claimed);
                }
            }
            assert forall|a: int, b: int| 0 <= a < b < after.len() implies !(
            #[trigger] after[a].proposer == #[trigger] after[b].proposer && after[a].nonce
                == after[b].nonce) by {
                if b == after.len() - 1 {
                    assert(!is_perp_proposal(self.perp_proposals@, proposer.key, nonce, a));
                } else {
                    assert(self.perp_proposals@[a].proposer == self.perp_proposals@[a].proposer);
                    assert(self.perp_proposals@[b].proposer == self.perp_proposals@[b].proposer);
                }
            }
        }
        self.config = config;
        self.treasury = treasury;
        self.perp_proposals.push(proposal);
        Ok(position)
    }

    /// Records an objection against the perpetual market proposal that `proposer` made
    /// under `nonce`. The stake moves from `objector` to the treasury.
    pub fn object_perp_market(
        &mut self,
        objector: &mut Account,
        proposer: &Address,
        nonce: u64,
        stake_amount: u64,
        now: i64,
    ) -> (res: Result<(), ProcessError>)
        requires
            old(self).wf(),
        ensures
            final(self).wf(),
            match perp_proposal_index(old(self).perp_proposals@, *proposer, nonce) {
                Some(i) => {
                    &&& final(self).perp_life_changed(*old(self), i)
                    &&& stake_result(
                        object_outcome(
                            stake_state(
                                *old(objector),
                                old(self).treasury,
                                old(self).config,
                                old(self).perp_proposals@[i].lifecycle(),
                            ),
                            stake_amount,
                            now,
                        ),
                        stake_state(
                            *old(objector),
                            old(self).treasury,
                            old(self).config,
                            old(self).perp_proposals@[i].lifecycle(),
                        ),
                        stake_state(
                            *final(objector),
                            final(self).treasury,
                            final(self).config,
                            final(self).perp_proposals@[i].lifecycle(),
                        ),
                        res,
                    )
                },
                None => res == Err::<(), ProcessError>(ProcessError::InvalidAccountData)
                    && *final(self) == *old(self) && *final(objector) == *old(objector),
            },
    {
        let i = match self.find_perp_proposal(proposer, nonce) {
            Some(i) => i,
            None => {
                return Err(ProcessError::InvalidAccountData);
            },
        };
        let mut proposal = self.perp_proposals[i];
        let mut config = self.config;
        let mut treasury = self.treasury;
        proof {
            self.lemma_perp_proposal_at(i as int);
        }
        let res = process_object_perp_market(
            objector,
            &mut proposal,
            &mut config,
            &mut treasury,
            stake_amount,
            now,
        );
        if res.is_ok() {
            self.store_perp_life(i, proposal, config, treasury);
        } else {
            assert(self.perp_proposals@.update(i as int, self.perp_proposals@[i as int])
                =~= self.perp_proposals@);
        }
        res
    }

    /// Rejects the perpetual market proposal that `proposer` made under `nonce`, on the
    /// administrator's word. Its stake stays in the treasury and stays counted.
    /// On success the result is the part of the stake that `slash_percentage`
    /// forfeits.
    pub fn reject_perp_market(
        &mut self,
        admin: &Account,
        proposer: &Address,
        nonce: u64,
        reason_code: u8,
        slash_percentage: u8,
    ) -> (res: Result<u64, ProcessError>)
        requires
            old(self).wf(),
        ensures
            final(self).wf(),
            final(self).config == old(self).config,
            final(self).treasury == old(self).treasury,
            match perp_proposal_index(old(self).perp_proposals@, *proposer, nonce) {
                Some(i) => match reject_outcome(
                    *admin,
                    old(self).config,
                    old(self).perp_proposals@[i].lifecycle(),
                    slash_percentage,
                ) {
                    Ok(life) => {
                        &&& res == Ok::<u64, ProcessError>(
                            slash_on_reject(
                                old(self).perp_proposals@[i].stake_amount,
                                slash_percentage,
                            ) as u64,
                        )
                        &&& final(self).perp_life_changed(*old(self), i)
                        &&& final(self).perp_proposals@[i].lifecycle() == life
                    },
                    Err(e) => res == Err::<u64, ProcessError>(e) && *final(self) == *old(self),
                },
                None => res == Err::<u64, ProcessError>(ProcessError::InvalidAccountData)
                    && *final(self) == *old(self),
            },
    {
        let i = match self.find_perp_proposal(proposer, nonce) {
            Some(i) => i,
            None => {
                return Err(ProcessError::InvalidAccountData);
            },
        };
        let mut proposal = self.perp_proposals[i];
        let config = self.config;
        let treasury = self.treasury;
        proof {
            self.lemma_perp_proposal_at(i as int);
        }
        let res = process_reject_perp_market(admin, &mut proposal, &config, reason_code, slash_percentage);
        if res.is_ok() {
            self.store_perp_life(i, proposal, config, treasury);
        }
        res
    }

    /// Withdraws the perpetual market proposal that `caller` made under `nonce`. 95% of
    /// its stake moves from the treasury back to `caller`. On success the result
    /// is the amount that went back.
    pub fn cancel_perp_proposal(&mut self, caller: &mut Account, nonce: u64) -> (res: Result<
        u64,
        ProcessError,
    >)
        requires
            old(self).wf(),
        ensures
            final(self).wf(),
            match perp_proposal_index(old(self).perp_proposals@, old(caller).key, nonce) {
                Some(i) => {
                    &&& final(self).perp_life_changed(*old(self), i)
                    &&& stake_result(
                        cancel_outcome(
                            stake_state(
                                *old(caller),
                                old(self).treasury,
                                old(self).config,
                                old(self).perp_proposals@[i].lifecycle(),
                            ),
                            old(caller).key,
                        ),
                        stake_state(
                            *old(caller),
                            old(self).treasury,
                            old(self).config,
                            old(self).perp_proposals@[i].lifecycle(),
                        ),
                        stake_state(
                            *final(caller),
                            final(self).treasury,
                            final(self).config,
                            final(self).perp_proposals@[i].lifecycle(),
                        ),
                        res,
                    )
                    &&& res matches Ok(refund) ==> refund == refund_on_cancel(
                        old(self).perp_proposals@[i].stake_amount,
                    )
                    // The treasury and the count of staked value always cover the refund.
                    &&& res != Err::<u64, ProcessError>(ProcessError::InsufficientFunds)
                    &&& res != Err::<u64, ProcessError>(
                        ProcessError::Listing(ListingError::Overflow),
                    )
                },
                None => res == Err::<u64, ProcessError>(ProcessError::InvalidAccountData)
                    && *final(self) == *old(self) && *final(caller) == *old(caller),
            },
    {
        let i = match self.find_perp_proposal(&caller.key, nonce) {
            Some(i) => i,
            None => {
                return Err(ProcessError::InvalidAccountData);
            },
        };
        let mut proposal = self.perp_proposals[i];
        let mut config = self.config;
        let mut treasury = self.treasury;
        proof {
            self.lemma_perp_proposal_at(i as int);
        }
        let res = process_cancel_perp_proposal(caller, &mut proposal, &mut config, &mut treasury);
        if res.is_ok() {
            self.store_perp_life(i, proposal, config, treasury);
        } else {
            assert(self.perp_proposals@.update(i as int, self.perp_proposals@[i as int])
                =~= self.perp_proposals@);
        }
        res
    }

    /// Gives the stake of the approved perpetual market proposal that `caller` made under
    /// `nonce` back to `caller`, who presents the market with index
    /// `market_index`; the lock period counts from that market's approval.
    pub fn claim_perp_stake(
        &mut self,
        caller: &mut Account,
        nonce: u64,
        market_index: u16,
        now: i64,
    ) -> (res: Result<(), ProcessError>)
        requires
            old(self).wf(),
        ensures
            final(self).wf(),
            match perp_proposal_index(old(self).perp_proposals@, old(caller).key, nonce) {
                Some(i) => if market_index < old(self).perp_markets@.len() {
                    &&& final(self).perp_life_changed(*old(self), i)
                    &&& stake_result(
                        claim_outcome(
                            stake_state(
                                *old(caller),
                                old(self).treasury,
                                old(self).config,
                                old(self).perp_proposals@[i].lifecycle(),
                            ),
                            old(caller).key,
                            old(self).perp_markets@[market_index as int].proposer,
                            old(self).perp_markets@[market_index as int].approved_at,
                            now,
                        ),
                        stake_state(
                            *old(caller),
                            old(self).treasury,
                            old(self).config,
                            old(self).perp_proposals@[i].lifecycle(),
                        ),
                        stake_state(
                            *final(caller),
                            final(self).treasury,
                            final(self).config,
                            final(self).perp_proposals@[i].lifecycle(),
                        ),
                        res,
                    )
                    // The treasury always covers the stake.
                    &&& res != Err::<(), ProcessError>(ProcessError::InsufficientFunds)
                } else {
                    res == Err::<(), ProcessError>(ProcessError::InvalidAccountData)
                        && *final(self) == *old(self) && *final(caller) == *old(caller)
                },
                None => res == Err::<(), ProcessError>(ProcessError::InvalidAccountData)
                    && *final(self) == *old(self) && *final(caller) == *old(caller),
            },
    {
        let i = match self.find_perp_proposal(&caller.key, nonce) {
            Some(i) => i,
            None => {
                return Err(ProcessError::InvalidAccountData);
            },
        };
        if market_index as usize >= self.perp_markets.len() {
            return Err(ProcessError::InvalidAccountData);
        }
        let entry = self.perp_markets[market_index as usize];
        let mut proposal = self.perp_proposals[i];
        let mut config = self.config;
        let mut treasury = self.treasury;
        proof {
            self.lemma_perp_proposal_at(i as int);
        }
        let res = process_claim_perp_stake(
            caller,
            &mut proposal,
            &entry,
            &mut config,
            &mut treasury,
            now,
        );
        if res.is_ok() {
            self.store_perp_life(i, proposal, config, treasury);
        } else {
            assert(self.perp_proposals@.update(i as int, self.perp_proposals@[i as int])
                =~= self.perp_proposals@);
        }
        res
    }

    /// Approves the perpetual market proposal that `proposer` made under `nonce`, on the
    /// administrator's word, and adds its market. On success the result
    /// is the index of the new market.
    pub fn approve_perp_market(&mut self, admin: &Account, proposer: &Address, nonce: u64, now: i64) -> (res:
        Result<u16, ProcessError>)
        requires
            old(self).wf(),
        ensures
            final(self).wf(),
            match perp_proposal_index(old(self).perp_proposals@, *proposer, nonce) {
                Some(i) => final(self).perp_admitted(
                    *old(self),
                    i,
                    match approve_verdict(
                        *admin,
                        old(self).config,
                        old(self).perp_proposals@[i].lifecycle(),
                    ) {
                        Ok(_) => perp_admission(*old(self), old(self).perp_proposals@[i], now),
                        Err(e) => Err(e),
                    },
                    res,
                ),
                None => res == Err::<u16, ProcessError>(ProcessError::InvalidAccountData)
                    && *final(self) == *old(self),
            },
    {
        let i = match self.find_perp_proposal(proposer, nonce) {
            Some(i) => i,
            None => {
                return Err(ProcessError::InvalidAccountData);
            },
        };
        let slot = self.vacant_account(
            derive_perp_market_pda(self.config.total_perp_markets, &self.program_id),
            true,
        );
        let mut proposal = self.perp_proposals[i];
        let mut config = self.config;
        match process_approve_perp_market(&self.program_id, admin, &mut proposal, &slot, &mut config, now) {
            Ok(entry) => Ok(self.store_perp_admission(i, proposal, config, entry)),
            Err(e) => Err(e),
        }
    }

    /// Approves the perpetual market proposal that `proposer` made under `nonce` at the
    /// end of its review, at the word of anyone who signs, and adds its market.
    /// Objections block it once their stakes exceed half of its stake. On
    /// success the result is the index of the new market.
    pub fn finalize_perp_market(
        &mut self,
        caller: &Account,
        proposer: &Address,
        nonce: u64,
        now: i64,
    ) -> (res: Result<u16, ProcessError>)
        requires
            old(self).wf(),
        ensures
            final(self).wf(),
            match perp_proposal_index(old(self).perp_proposals@, *proposer, nonce) {
                Some(i) => final(self).perp_admitted(
                    *old(self),
                    i,
                    match finalize_verdict(
                        *caller,
                        old(self).perp_proposals@[i].lifecycle(),
                        VetoRule::MajorityOfStake,
                        now,
                    ) {
                        Ok(_) => perp_admission(*old(self), old(self).perp_proposals@[i], now),
                        Err(e) => Err(e),
                    },
                    res,
                ),
                None => res == Err::<u16, ProcessError>(ProcessError::InvalidAccountData)
                    && *final(self) == *old(self),
            },
    {
        let i = match self.find_perp_proposal(proposer, nonce) {
            Some(i) => i,
            None => {
                return Err(ProcessError::InvalidAccountData);
            },
        };
        let slot = self.vacant_account(
            derive_perp_market_pda(self.config.total_perp_markets, &self.program_id),
            true,
        );
        let mut proposal = self.perp_proposals[i];
        let mut config = self.config;
        match process_finalize_perp_market(&self.program_id, caller, &mut proposal, &slot, &mut config, now) {
            Ok(entry) => Ok(self.store_perp_admission(i, proposal, config, entry)),
            Err(e) => Err(e),
        }
    }

    /// Stores what the approval of the perpetual market proposal at position `i` has left.
    fn store_perp_admission(
        &mut self,
        i: usize,
        proposal: PerpMarketProposal,
        config: ListingConfig,
        entry: PerpMarket,
    ) -> (index: u16)
        requires
            old(self).wf(),
            i < old(self).perp_proposals@.len(),
            old(self).perp_proposals@[i as int].status == ProposalStatus::Pending,
            proposal == (PerpMarketProposal {
                status: ProposalStatus::Approved,
                ..old(self).perp_proposals@[i as int]
            }),
            old(self).config.total_perp_markets < u16::MAX,
            config == (ListingConfig {
                total_perp_markets: (old(self).config.total_perp_markets + 1) as u16,
                ..old(self).config
            }),
            entry.market_index == old(self).config.total_perp_markets,
            perp_market_valid(entry),
        ensures
            final(self).wf(),
            index == entry.market_index,
            final(self).program_id == old(self).program_id,
            final(self).pools@ == old(self).pools@,
            final(self).treasury == old(self).treasury,
            final(self).config == config,
            final(self).perp_proposals@ == old(self).perp_proposals@.update(i as int, proposal),
            final(self).perp_markets@ == old(self).perp_markets@.push(entry),
            final(self).spot_proposals@ == old(self).spot_proposals@,
            final(self).token_proposals@ == old(self).token_proposals@,
            final(self).spot_markets@ == old(self).spot_markets@,
            final(self).tokens@ == old(self).tokens@,
    {
        proof {
            self.lemma_perp_proposal_at(i as int);
            let lives = perp_lives(self.perp_proposals@);
            lemma_total_escrowed_update(lives, i as int, proposal.lifecycle());
            assert(perp_lives(self.perp_proposals@.update(i as int, proposal)) =~= lives.update(
                i as int,
                proposal.lifecycle(),
            ));
        }
        self.config = config;
        self.perp_proposals.set(i, proposal);
        self.perp_markets.push(entry);
        entry.market_index
    }

    /// Stores what an operation on the stake of the perpetual market proposal at position
    /// `i` has left.
    fn store_perp_life(
        &mut self,
        i: usize,
        proposal: PerpMarketProposal,
        config: ListingConfig,
        treasury: Account,
    )
        requires
            old(self).wf(),
            i < old(self).perp_proposals@.len(),
            proposal == old(self).perp_proposals@[i as int].with_lifecycle(proposal.lifecycle()),
            treasury.key == config.treasury,
            treasury.lamports >= config.total_staked_lamports,
            proposal.stake_claimed ==> proposal.status == ProposalStatus::Approved,
            config.total_staked_lamports - escrowed(proposal.lifecycle()) == old(
                self,
            ).config.total_staked_lamports - escrowed(old(self).perp_proposals@[i as int].lifecycle()),
            config.total_perp_markets == old(self).config.total_perp_markets,
            config.total_spot_markets == old(self).config.total_spot_markets,
            config.total_tokens == old(self).config.total_tokens,
        ensures
            final(self).wf(),
            final(self).perp_life_changed(*old(self), i as int),
            final(self).config == config,
            final(self).treasury == treasury,
            final(self).perp_proposals@[i as int] == proposal,
    {
        proof {
            let lives = perp_lives(self.perp_proposals@);
            lemma_total_escrowed_update(lives, i as int, proposal.lifecycle());
            assert(perp_lives(self.perp_proposals@.update(i as int, proposal)) =~= lives.update(
                i as int,
                proposal.lifecycle(),
            ));
        }
        self.config = config;
        self.treasury = treasury;
        self.perp_proposals.set(i, proposal);
    }
}

} // verus!
