//! Spot market proposals and the spot markets in the ledger.

use crate::address::{spec_find_program_address, Address};
use crate::error::{ListingError, ProcessError};
use crate::ledger::{
    is_spot_proposal, lemma_total_escrowed_nonnegative, lemma_total_escrowed_part,
    lemma_total_escrowed_push, lemma_total_escrowed_update, perp_lives, spot_keys_unique,
    spot_lives, spot_proposal_index, token_active, token_lives, Ledger,
};
use crate::lifecycle::{
    approve_verdict, cancel_outcome, claim_outcome, escrowed, finalize_verdict, object_outcome,
    propose_outcome, refund_on_cancel, reject_outcome, slash_on_reject, stake_result, stake_state,
    VetoRule,
};
use crate::processor::spot::{
    new_spot_proposal, process_approve_spot_market, process_cancel_spot_proposal,
    process_claim_spot_stake, process_finalize_spot_market, process_object_spot_market,
    process_propose_spot_market, process_reject_spot_market, spot_market_entry, spot_market_valid,
};
use crate::state::{Account, ListingConfig, SpotMarket, SpotMarketProposal, ProposalStatus};
use crate::utils::{
    derive_spot_market_pda, derive_spot_proposal_pda, sizes_verdict, spot_market_seeds,
    spot_proposal_seeds, valid_fee_rates, valid_market_symbol,
};
use vstd::prelude::*;

verus! {

/// What the ledger asks of a spot market proposal before its stake is taken, in
/// this order: the proposer signed, the protocol is not paused, an address can
/// be derived for the proposal, no proposal of this proposer has this nonce,
/// the symbol is valid for a spot market, base and quote are active tokens of
/// the registry and differ, and the sizes and fees are valid. On success
/// the result is the bump seed of the proposal's address.
pub open spec fn spot_proposal_gate(
    ledger: Ledger,
    proposer: Account,
    nonce: u64,
    symbol: [u8; 16],
    base_token_index: u16,
    quote_token_index: u16,
    tick_size_e6: u64,
    lot_size_e6: u64,
    taker_fee_bps: u16,
    maker_fee_bps: i16,
) -> Result<u8, ProcessError> {
    let derived = spec_find_program_address(
        spot_proposal_seeds(proposer.key, nonce),
        ledger.program_id@,
    );
    if !proposer.is_signer {
        Err(ProcessError::MissingRequiredSignature)
    } else if ledger.config.is_paused {
        Err(ProcessError::Listing(ListingError::ListingPaused))
    } else if derived is None {
        Err(ProcessError::Listing(ListingError::InvalidPda))
    } else if spot_proposal_index(ledger.spot_proposals@, proposer.key, nonce) is Some {
        Err(ProcessError::Listing(ListingError::AlreadyInitialized))
    } else if !valid_market_symbol(symbol@, true) {
        Err(ProcessError::Listing(ListingError::InvalidSymbol))
    } else if !token_active(ledger.tokens@, base_token_index) {
        Err(ProcessError::Listing(ListingError::TokenNotRegistered))
    } else if !token_active(ledger.tokens@, quote_token_index) {
        Err(ProcessError::Listing(ListingError::TokenNotRegistered))
    } else if base_token_index == quote_token_index {
        Err(ProcessError::Listing(ListingError::SameTokenPair))
    } else if sizes_verdict(tick_size_e6, lot_size_e6) is Err {
        Err(sizes_verdict(tick_size_e6, lot_size_e6)->Err_0)
    } else if !valid_fee_rates(taker_fee_bps, maker_fee_bps) {
        Err(ProcessError::Listing(ListingError::InvalidFeeRate))
    } else {
        Ok(derived->Some_0.1)
    }
}

/// What the approval of a spot market proposal leads to in the ledger, once it was
/// decided that the proposal may be approved: the market gets the number of
/// spot markets so far as its index.
pub open spec fn spot_admission(
    ledger: Ledger,
    proposal: SpotMarketProposal,
    now: i64,
) -> Result<(SpotMarketProposal, ListingConfig, SpotMarket), ProcessError> {
    let derived = spec_find_program_address(
        spot_market_seeds(ledger.config.total_spot_markets),
        ledger.program_id@,
    );
    if ledger.config.total_spot_markets + 1 > u16::MAX {
        Err(ProcessError::Listing(ListingError::Overflow))
    } else if derived is None {
        Err(ProcessError::Listing(ListingError::InvalidPda))
    } else {
        Ok(
            (
                SpotMarketProposal { status: ProposalStatus::Approved, ..proposal },
                ListingConfig {
                    total_spot_markets: (ledger.config.total_spot_markets + 1) as u16,
                    ..ledger.config
                },
                spot_market_entry(proposal, ledger.config.total_spot_markets, now, derived->Some_0.1),
            ),
        )
    }
}

impl Ledger {
    /// Whether, from `before` to `self`, nothing has changed but the
    /// configuration, the treasury and the spot market proposals.
    pub open spec fn same_but_spot_proposals(&self, before: Ledger) -> bool {
        &&& self.program_id == before.program_id
        &&& self.pools@ == before.pools@
        &&& self.token_proposals@ == before.token_proposals@
        &&& self.perp_proposals@ == before.perp_proposals@
        &&& self.spot_markets@ == before.spot_markets@
        &&& self.tokens@ == before.tokens@
        &&& self.perp_markets@ == before.perp_markets@
    }

    /// Whether, from `before` to `self`, of the spot market proposals only the stake,
    /// state and objections of the one at position `i` may have changed.
    pub open spec fn spot_life_changed(&self, before: Ledger, i: int) -> bool {
        &&& self.same_but_spot_proposals(before)
        &&& self.spot_proposals@ == before.spot_proposals@.update(
            i,
            before.spot_proposals@[i].with_lifecycle(self.spot_proposals@[i].lifecycle()),
        )
    }

    /// Whether, from `before` to `self`, the spot market proposal at position `i` was
    /// approved as `outcome` says: on success it and the configuration are the
    /// ones that `outcome` gives, the new market stands at the end of the
    /// markets and its index is the result; on failure nothing has changed.
    pub open spec fn spot_admitted(
        &self,
        before: Ledger,
        i: int,
        outcome: Result<(SpotMarketProposal, ListingConfig, SpotMarket), ProcessError>,
        res: Result<u16, ProcessError>,
    ) -> bool {
        match outcome {
            Ok((proposal, config, entry)) => {
                &&& res == Ok::<u16, ProcessError>(entry.market_index)
                &&& self.program_id == before.program_id
                &&& self.pools@ == before.pools@
                &&& self.treasury == before.treasury
                &&& self.config == config
                &&& self.spot_proposals@ == before.spot_proposals@.update(i, proposal)
                &&& self.spot_markets@ == before.spot_markets@.push(entry)
                &&& self.token_proposals@ == before.token_proposals@
                &&& self.perp_proposals@ == before.perp_proposals@
                &&& self.tokens@ == before.tokens@
                &&& self.perp_markets@ == before.perp_markets@
            },
            Err(e) => res == Err::<u16, ProcessError>(e) && *self == before,
        }
    }

    /// What being well formed says of the spot market proposal at position `i`.
    pub proof fn lemma_spot_proposal_at(&self, i: int)
        requires
            self.wf(),
            0 <= i < self.spot_proposals@.len(),
        ensures
            self.spot_proposals@[i].stake_claimed ==> self.spot_proposals@[i].status
                == ProposalStatus::Approved,
            escrowed(self.spot_proposals@[i].lifecycle()) <= self.config.total_staked_lamports,
            self.spot_proposals@[i] == self.spot_proposals@[i].with_lifecycle(
                self.spot_proposals@[i].lifecycle(),
            ),
    {
        let lives = spot_lives(self.spot_proposals@);
        assert(lives[i] == self.spot_proposals@[i].lifecycle());
        lemma_total_escrowed_update(lives, i, lives[i]);
        lemma_total_escrowed_part(lives, i);
        lemma_total_escrowed_nonnegative(token_lives(self.token_proposals@));
        lemma_total_escrowed_nonnegative(perp_lives(self.perp_proposals@));
    }

    /// The position of the spot market proposal that `proposer` made under `nonce`.
    pub fn find_spot_proposal(&self, proposer: &Address, nonce: u64) -> (found: Option<usize>)
        ensures
            match found {
                Some(i) => is_spot_proposal(self.spot_proposals@, *proposer, nonce, i as int),
                None => forall|i: int| !is_spot_proposal(self.spot_proposals@, *proposer, nonce, i),
            },
            spot_keys_unique(self.spot_proposals@) ==> (match found {
                Some(i) => Some(i as int),
                None => None,
            }) == spot_proposal_index(self.spot_proposals@, *proposer, nonce),
    {
        let mut i: usize = 0;
        while i < self.spot_proposals.len()
            invariant
                i <= self.spot_proposals@.len(),
                forall|j: int| 0 <= j < i ==> !is_spot_proposal(
                    self.spot_proposals@,
                    *proposer,
                    nonce,
                    j,
                ),
            decreases self.spot_proposals@.len() - i,
        {
            if self.spot_proposals[i].proposer == *proposer && self.spot_proposals[i].nonce
                == nonce {
                proof {
                    if spot_keys_unique(self.spot_proposals@) {
                        let j = choose|j: int|
                            is_spot_proposal(self.spot_proposals@, *proposer, nonce, j);
                        assert(is_spot_proposal(self.spot_proposals@, *proposer, nonce, i as int));
                        if j < i {
                            assert(self.spot_proposals@[j].proposer
                                == self.spot_proposals@[i as int].proposer);
                        } else if i < j {
                            assert(self.spot_proposals@[i as int].proposer
                                == self.spot_proposals@[j].proposer);
                        }
                    }
                }
                return Some(i);
            }
            i = i + 1;
        }
        None
    }

    /// Makes a proposal to open a spot market and stores it. The stake moves from
    /// `proposer` to the treasury. On success the result is the position of the
    /// new proposal.
    pub fn propose_spot_market(
        &mut self,
        proposer: &mut Account,
        nonce: u64,
        symbol: [u8; 16],
        base_token_index: u16,
        quote_token_index: u16,
        tick_size_e6: u64,
        lot_size_e6: u64,
        taker_fee_bps: u16,
        maker_fee_bps: i16,
        min_order_size_e6: u64,
        max_order_size_e6: u64,
        now: i64,
    ) -> (res: Result<usize, ProcessError>)
        requires
            old(self).wf(),
        ensures
            final(self).wf(),
            final(self).same_but_spot_proposals(*old(self)),
            match spot_proposal_gate(
                *old(self),
                *old(proposer),
                nonce,
                symbol,
                base_token_index,
                quote_token_index,
                tick_size_e6,
                lot_size_e6,
                taker_fee_bps,
                maker_fee_bps,
            ) {
                Ok(bump) => match propose_outcome(
                    *old(proposer),
                    old(self).treasury,
                    old(self).config,
                    old(self).config.spot_stake_amount,
                    old(self).config.spot_review_period_seconds,
                    now,
                ) {
                    Ok(state) => {
                        &&& res == Ok::<usize, ProcessError>(old(self).spot_proposals@.len() as usize)
                        &&& *final(proposer) == state.payer
                        &&& final(self).treasury == state.treasury
                        &&& final(self).config == state.config
                        &&& final(self).spot_proposals@ == old(self).spot_proposals@.push(
                            new_spot_proposal(
                                old(proposer).key,
                                nonce,
                                symbol,
                                base_token_index,
                                quote_token_index,
                                tick_size_e6,
                                lot_size_e6,
                                taker_fee_bps,
                                maker_fee_bps,
                                min_order_size_e6,
                                max_order_size_e6,
                                state.life,
                                bump,
                            ),
                        )
                    },
                    Err(e) => res == Err::<usize, ProcessError>(e) && *final(self) == *old(self)
                        && *final(proposer) == *old(proposer),
                },
                Err(e) => res == Err::<usize, ProcessError>(e) && *final(self) == *old(self)
                    && *final(proposer) == *old(proposer),
            },
    {
        let existing = self.find_spot_proposal(&proposer.key, nonce);
        let slot = self.vacant_account(
            derive_spot_proposal_pda(&proposer.key, nonce, &self.program_id),
            existing.is_none(),
        );
        let base = self.token_or_blank(base_token_index);
        let quote = self.token_or_blank(quote_token_index);
        let mut config = self.config;
        let mut treasury = self.treasury;
        let proposal = match process_propose_spot_market(
            &self.program_id,
            proposer,
            &slot,
            &mut config,
            &base,
            &quote,
            &mut treasury,
            nonce,
            symbol,
            base_token_index,
            quote_token_index,
            tick_size_e6,
            lot_size_e6,
            taker_fee_bps,
            maker_fee_bps,
            min_order_size_e6,
            max_order_size_e6,
            now,
        ) {
            Ok(proposal) => proposal,
            Err(e) => {
                return Err(e);
            },
        };
        let position = self.spot_proposals.len();
        proof {
            let lives = spot_lives(self.spot_proposals@);
            let after = self.spot_proposals@.push(proposal);
            lemma_total_escrowed_push(lives, proposal.lifecycle());
            assert(spot_lives(after) =~= lives.push(proposal.lifecycle()));
            assert forall|k: int| 0 <= k < lives.push(proposal.lifecycle()).len() && (
            #[trigger] lives.push(proposal.lifecycle())[k]).stake_claimed implies lives.push(
                proposal.lifecycle(),
            )[k].status == ProposalStatus::Approved by {
                if k < lives.len() {
                    assert(lives[k].stake_claimed);
                }
            }
            assert forall|a: int, b: int| 0 <= a < b < after.len() implies !(
            #[trigger] after[a].proposer == #[trigger] after[b].proposer && after[a].nonce
                == after[b].nonce) by {
                if b == after.len() - 1 {
                    assert(!is_spot_proposal(self.spot_proposals@, proposer.key, nonce, a));
                } else {
                    assert(self.spot_proposals@[a].proposer == self.spot_proposals@[a].proposer);
                    assert(self.spot_proposals@[b].proposer == self.spot_proposals@[b].proposer);
                }
            }
        }
        self.config = config;
        self.treasury = treasury;
        self.spot_proposals.push(proposal);
        Ok(position)
    }

    /// Records an objection against the spot market proposal that `proposer` made
    /// under `nonce`. The stake moves from `objector` to the treasury.
    pub fn object_spot_market(
        &mut self,
        objector: &mut Account,
        proposer: &Address,
        nonce: u64,
        stake_amount: u64,
        now: i64,
    ) -> (res: Result<(), ProcessError>)
        requires
            old(self).wf(),
        ensures
            final(self).wf(),
            match spot_proposal_index(old(self).spot_proposals@, *proposer, nonce) {
                Some(i) => {
                    &&& final(self).spot_life_changed(*old(self), i)
                    &&& stake_result(
                        object_outcome(
                            stake_state(
                                *old(objector),
                                old(self).treasury,
                                old(self).config,
                                old(self).spot_proposals@[i].lifecycle(),
                            ),
                            stake_amount,
                            now,
                        ),
                        stake_state(
                            *old(objector),
                            old(self).treasury,
                            old(self).config,
                            old(self).spot_proposals@[i].lifecycle(),
                        ),
                        stake_state(
                            *final(objector),
                            final(self).treasury,
                            final(self).config,
                            final(self).spot_proposals@[i].lifecycle(),
                        ),
                        res,
                    )
                },
                None => res == Err::<(), ProcessError>(ProcessError::InvalidAccountData)
                    && *final(self) == *old(self) && *final(objector) == *old(objector),
            },
    {
        let i = match self.find_spot_proposal(proposer, nonce) {
            Some(i) => i,
            None => {
                return Err(ProcessError::InvalidAccountData);
            },
        };
        let mut proposal = self.spot_proposals[i];
        let mut config = self.config;
        let mut treasury = self.treasury;
        proof {
            self.lemma_spot_proposal_at(i as int);
        }
        let res = process_object_spot_market(
            objector,
            &mut proposal,
            &mut config,
            &mut treasury,
            stake_amount,
            now,
        );
        if res.is_ok() {
            self.store_spot_life(i, proposal, config, treasury);
        } else {
            assert(self.spot_proposals@.update(i as int, self.spot_proposals@[i as int])
                =~= self.spot_proposals@);
        }
        res
    }

    /// Rejects the spot market proposal that `proposer` made under `nonce`, on the
    /// administrator's word. Its stake stays in the treasury and stays counted.
    /// On success the result is the part of the stake that `slash_percentage`
    /// forfeits.
    pub fn reject_spot_market(
        &mut self,
        admin: &Account,
        proposer: &Address,
        nonce: u64,
        reason_code: u8,
        slash_percentage: u8,
    ) -> (res: Result<u64, ProcessError>)
        requires
            old(self).wf(),
        ensures
            final(self).wf(),
            final(self).config == old(self).config,
            final(self).treasury == old(self).treasury,
            match spot_proposal_index(old(self).spot_proposals@, *proposer, nonce) {
                Some(i) => match reject_outcome(
                    *admin,
                    old(self).config,
                    old(self).spot_proposals@[i].lifecycle(),
                    slash_percentage,
                ) {
                    Ok(life) => {
                        &&& res == Ok::<u64, ProcessError>(
                            slash_on_reject(
                                old(self).spot_proposals@[i].stake_amount,
                                slash_percentage,
                            ) as u64,
                        )
                        &&& final(self).spot_life_changed(*old(self), i)
                        &&& final(self).spot_proposals@[i].lifecycle() == life
                    },
                    Err(e) => res == Err::<u64, ProcessError>(e) && *final(self) == *old(self),
                },
                None => res == Err::<u64, ProcessError>(ProcessError::InvalidAccountData)
                    && *final(self) == *old(self),
            },
    {
        let i = match self.find_spot_proposal(proposer, nonce) {
            Some(i) => i,
            None => {
                return Err(ProcessError::InvalidAccountData);
            },
        };
        let mut proposal = self.spot_proposals[i];
        let config = self.config;
        let treasury = self.treasury;
        proof {
            self.lemma_spot_proposal_at(i as int);
        }
        let res = process_reject_spot_market(admin, &mut proposal, &config, reason_code, slash_percentage);
        if res.is_ok() {
            self.store_spot_life(i, proposal, config, treasury);
        }
        res
    }

    /// Withdraws the spot market proposal that `caller` made under `nonce`. 95% of
    /// its stake moves from the treasury back to `caller`. On success the result
    /// is the amount that went back.
    pub fn cancel_spot_proposal(&mut self, caller: &mut Account, nonce: u64) -> (res: Result<
        u64,
        ProcessError,
    >)
        requires
            old(self).wf(),
        ensures
            final(self).wf(),
            match spot_proposal_index(old(self).spot_proposals@, old(caller).key, nonce) {
                Some(i) => {
                    &&& final(self).spot_life_changed(*old(self), i)
                    &&& stake_result(
                        cancel_outcome(
                            stake_state(
                                *old(caller),
                                old(self).treasury,
                                old(self).config,
                                old(self).spot_proposals@[i].lifecycle(),
                            ),
                            old(caller).key,
                        ),
                        stake_state(
                            *old(caller),
                            old(self).treasury,
                            old(self).config,
                            old(self).spot_proposals@[i].lifecycle(),
                        ),
                        stake_state(
                            *final(caller),
                            final(self).treasury,
                            final(self).config,
                            final(self).spot_proposals@[i].lifecycle(),
                        ),
                        res,
                    )
                    &&& res matches Ok(refund) ==> refund == refund_on_cancel(
                        old(self).spot_proposals@[i].stake_amount,
                    )
                    // The treasury and the count of staked value always cover the refund.
                    &&& res != Err::<u64, ProcessError>(ProcessError::InsufficientFunds)
                    &&& res != Err::<u64, ProcessError>(
                        ProcessError::Listing(ListingError::Overflow),
                    )
                },
                None => res == Err::<u64, ProcessError>(ProcessError::InvalidAccountData)
                    && *final(self) == *old(self) && *final(caller) == *old(caller),
            },
    {
        let i = match self.find_spot_proposal(&caller.key, nonce) {
            Some(i) => i,
            None => {
                return Err(ProcessError::InvalidAccountData);
            },
        };
        let mut proposal = self.spot_proposals[i];
        let mut config = self.config;
        let mut treasury = self.treasury;
        proof {
            self.lemma_spot_proposal_at(i as int);
        }
        let res = process_cancel_spot_proposal(caller, &mut proposal, &mut config, &mut treasury);
        if res.is_ok() {
            self.store_spot_life(i, proposal, config, treasury);
        } else {
            assert(self.spot_proposals@.update(i as int, self.spot_proposals@[i as int])
                =~= self.spot_proposals@);
        }
        res
    }

    /// Gives the stake of the approved spot market proposal that `caller` made under
    /// `nonce` back to `caller`, who presents the market with index
    /// `market_index`; the lock period counts from that market's approval.
    pub fn claim_spot_stake(
        &mut self,
        caller: &mut Account,
        nonce: u64,
        market_index: u16,
        now: i64,
    ) -> (res: Result<(), ProcessError>)
        requires
            old(self).wf(),
        ensures
            final(self).wf(),
            match spot_proposal_index(old(self).spot_proposals@, old(caller).key, nonce) {
                Some(i) => if market_index < old(self).spot_markets@.len() {
                    &&& final(self).spot_life_changed(*old(self), i)
                    &&& stake_result(
                        claim_outcome(
                            stake_state(
                                *old(caller),
                                old(self).treasury,
                                old(self).config,
                                old(self).spot_proposals@[i].lifecycle(),
                            ),
                            old(caller).key,
                            old(self).spot_markets@[market_index as int].proposer,
                            old(self).spot_markets@[market_index as int].approved_at,
                            now,
                        ),
                        stake_state(
                            *old(caller),
                            old(self).treasury,
                            old(self).config,
                            old(self).spot_proposals@[i].lifecycle(),
                        ),
                        stake_state(
                            *final(caller),
                            final(self).treasury,
                            final(self).config,
                            final(self).spot_proposals@[i].lifecycle(),
                        ),
                        res,
                    )
                    // The treasury always covers the stake.
                    &&& res != Err::<(), ProcessError>(ProcessError::InsufficientFunds)
                } else {
                    res == Err::<(), ProcessError>(ProcessError::InvalidAccountData)
                        && *final(self) == *old(self) && *final(caller) == *old(caller)
                },
                None => res == Err::<(), ProcessError>(ProcessError::InvalidAccountData)
                    && *final(self) == *old(self) && *final(caller) == *old(caller),
            },
    {
        let i = match self.find_spot_proposal(&caller.key, nonce) {
            Some(i) => i,
            None => {
                return Err(ProcessError::InvalidAccountData);
            },
        };
        if market_index as usize >= self.spot_markets.len() {
            return Err(ProcessError::InvalidAccountData);
        }
        let entry = self.spot_markets[market_index as usize];
        let mut proposal = self.spot_proposals[i];
        let mut config = self.config;
        let mut treasury = self.treasury;
        proof {
            self.lemma_spot_proposal_at(i as int);
        }
        let res = process_claim_spot_stake(
            caller,
            &mut proposal,
            &entry,
            &mut config,
            &mut treasury,
            now,
        );
        if res.is_ok() {
            self.store_spot_life(i, proposal, config, treasury);
        } else {
            assert(self.spot_proposals@.update(i as int, self.spot_proposals@[i as int])
                =~= self.spot_proposals@);
        }
        res
    }

    /// Approves the spot market proposal that `proposer` made under `nonce`, on the
    /// administrator's word, and adds its market. On success the result
    /// is the index of the new market.
    pub fn approve_spot_market(&mut self, admin: &Account, proposer: &Address, nonce: u64, now: i64) -> (res:
        Result<u16, ProcessError>)
        requires
            old(self).wf(),
        ensures
            final(self).wf(),
            match spot_proposal_index(old(self).spot_proposals@, *proposer, nonce) {
                Some(i) => final(self).spot_admitted(
                    *old(self),
                    i,
                    match approve_verdict(
                        *admin,
                        old(self).config,
                        old(self).spot_proposals@[i].lifecycle(),
                    ) {
                        Ok(_) => spot_admission(*old(self), old(self).spot_proposals@[i], now),
                        Err(e) => Err(e),
                    },
                    res,
                ),
                None => res == Err::<u16, ProcessError>(ProcessError::InvalidAccountData)
                    && *final(self) == *old(self),
            },
    {
        let i = match self.find_spot_proposal(proposer, nonce) {
            Some(i) => i,
            None => {
                return Err(ProcessError::InvalidAccountData);
            },
        };
        let slot = self.vacant_account(
            derive_spot_market_pda(self.config.total_spot_markets, &self.program_id),
            true,
        );
        let mut proposal = self.spot_proposals[i];
        let mut config = self.config;
        match process_approve_spot_market(&self.program_id, admin, &mut proposal, &slot, &mut config, now) {
            Ok(entry) => Ok(self.store_spot_admission(i, proposal, config, entry)),
            Err(e) => Err(e),
        }
    }

    /// Approves the spot market proposal that `proposer` made under `nonce` at the
    /// end of its review, at the word of anyone who signs, and adds its market.
    /// Objections block it once their stakes exceed half of its stake. On
    /// success the result is the index of the new market.
    pub fn finalize_spot_market(
        &mut self,
        caller: &Account,
        proposer: &Address,
        nonce: u64,
        now: i64,
    ) -> (res: Result<u16, ProcessError>)
        requires
            old(self).wf(),
        ensures
            final(self).wf(),
            match spot_proposal_index(old(self).spot_proposals@, *proposer, nonce) {
                Some(i) => final(self).spot_admitted(
                    *old(self),
                    i,
                    match finalize_verdict(
                        *caller,
                        old(self).spot_proposals@[i].lifecycle(),
                        VetoRule::MajorityOfStake,
                        now,
                    ) {
                        Ok(_) => spot_admission(*old(self), old(self).spot_proposals@[i], now),
                        Err(e) => Err(e),
                    },
                    res,
                ),
                None => res == Err::<u16, ProcessError>(ProcessError::InvalidAccountData)
                    && *final(self) == *old(self),
            },
    {
        let i = match self.find_spot_proposal(proposer, nonce) {
            Some(i) => i,
            None => {
                return Err(ProcessError::InvalidAccountData);
            },
        };
        let slot = self.vacant_account(
            derive_spot_market_pda(self.config.total_spot_markets, &self.program_id),
            true,
        );
        let mut proposal = self.spot_proposals[i];
        let mut config = self.config;
        match process_finalize_spot_market(&self.program_id, caller, &mut proposal, &slot, &mut config, now) {
            Ok(entry) => Ok(self.store_spot_admission(i, proposal, config, entry)),
            Err(e) => Err(e),
        }
    }

    /// Stores what the approval of the spot market proposal at position `i` has left.
    fn store_spot_admission(
        &mut self,
        i: usize,
        proposal: SpotMarketProposal,
        config: ListingConfig,
        entry: SpotMarket,
    ) -> (index: u16)
        requires
            old(self).wf(),
            i < old(self).spot_proposals@.len(),
            old(self).spot_proposals@[i as int].status == ProposalStatus::Pending,
            proposal == (SpotMarketProposal {
                status: ProposalStatus::Approved,
                ..old(self).spot_proposals@[i as int]
            }),
            old(self).config.total_spot_markets < u16::MAX,
            config == (ListingConfig {
                total_spot_markets: (old(self).config.total_spot_markets + 1) as u16,
                ..old(self).config
            }),
            entry.market_index == old(self).config.total_spot_markets,
            spot_market_valid(entry),
        ensures
            final(self).wf(),
            index == entry.market_index,
            final(self).program_id == old(self).program_id,
            final(self).pools@ == old(self).pools@,
            final(self).treasury == old(self).treasury,
            final(self).config == config,
            final(self).spot_proposals@ == old(self).spot_proposals@.update(i as int, proposal),
            final(self).spot_markets@ == old(self).spot_markets@.push(entry),
            final(self).token_proposals@ == old(self).token_proposals@,
            final(self).perp_proposals@ == old(self).perp_proposals@,
            final(self).tokens@ == old(self).tokens@,
            final(self).perp_markets@ == old(self).perp_markets@,
    {
        proof {
            self.lemma_spot_proposal_at(i as int);
            let lives = spot_lives(self.spot_proposals@);
            lemma_total_escrowed_update(lives, i as int, proposal.lifecycle());
            assert(spot_lives(self.spot_proposals@.update(i as int, proposal)) =~= lives.update(
                i as int,
                proposal.lifecycle(),
            ));
        }
        self.config = config;
        self.spot_proposals.set(i, proposal);
        self.spot_markets.push(entry);
        entry.market_index
    }

    /// Stores what an operation on the stake of the spot market proposal at position
    /// `i` has left.
    fn store_spot_life(
        &mut self,
        i: usize,
        proposal: SpotMarketProposal,
        config: ListingConfig,
        treasury: Account,
    )
        requires
            old(self).wf(),
            i < old(self).spot_proposals@.len(),
            proposal == old(self).spot_proposals@[i as int].with_lifecycle(proposal.lifecycle()),
            treasury.key == config.treasury,
            treasury.lamports >= config.total_staked_lamports,
            proposal.stake_claimed ==> proposal.status == ProposalStatus::Approved,
            config.total_staked_lamports - escrowed(proposal.lifecycle()) == old(
                self,
            ).config.total_staked_lamports - escrowed(old(self).spot_proposals@[i as int].lifecycle()),
            config.total_spot_markets == old(self).config.total_spot_markets,
            config.total_tokens == old(self).config.total_tokens,
            config.total_perp_markets == old(self).config.total_perp_markets,
        ensures
            final(self).wf(),
            final(self).spot_life_changed(*old(self), i as int),
            final(self).config == config,
            final(self).treasury == treasury,
            final(self).spot_proposals@[i as int] == proposal,
    {
        proof {
            let lives = spot_lives(self.spot_proposals@);
            lemma_total_escrowed_update(lives, i as int, proposal.lifecycle());
            assert(spot_lives(self.spot_proposals@.update(i as int, proposal)) =~= lives.update(
                i as int,
                proposal.lifecycle(),
            ));
        }
        self.config = config;
        self.treasury = treasury;
        self.spot_proposals.set(i, proposal);
    }
}

} // verus!
