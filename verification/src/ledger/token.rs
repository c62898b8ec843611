//! Token proposals and the registry of tokens in the ledger.

use crate::address::{spec_find_program_address, Address};
use crate::error::{ListingError, ProcessError};
use crate::ledger::{
    is_token_proposal, lemma_total_escrowed_nonnegative, lemma_total_escrowed_part,
    lemma_total_escrowed_push, lemma_total_escrowed_update, perp_lives, spot_lives,
    token_keys_unique, token_lives, token_proposal_index, Ledger,
};
use crate::lifecycle::{
    approve_verdict, cancel_outcome, claim_outcome, escrowed, finalize_verdict, object_outcome,
    propose_outcome, refund_on_cancel, reject_outcome, slash_on_reject, stake_result, stake_state,
    VetoRule,
};
use crate::processor::token::{
    new_token_proposal, process_approve_token, process_cancel_token_proposal,
    process_claim_token_stake, process_finalize_token, process_object_token,
    process_propose_token, process_reject_token, registry_entry, token_terms_valid,
};
use crate::state::{Account, ListingConfig, ProposalStatus, TokenProposal, TokenRegistry};
use crate::utils::{
    derive_token_proposal_pda, derive_token_registry_pda, token_proposal_seeds,
    token_registry_seeds, valid_symbol,
};
use vstd::prelude::*;

verus! {

/// What the ledger asks of a token proposal before its stake is taken, in this
/// order: the proposer signed, the protocol is not paused, an address can be
/// derived for the proposal, no proposal of this proposer has this nonce, and
/// the symbol and the decimals are valid. On success the result is the bump
/// seed of the proposal's address.
pub open spec fn token_proposal_gate(
    ledger: Ledger,
    proposer: Account,
    nonce: u64,
    symbol: [u8; 8],
    decimals: u8,
) -> Result<u8, ProcessError> {
    let derived = spec_find_program_address(
        token_proposal_seeds(proposer.key, nonce),
        ledger.program_id@,
    );
    if !proposer.is_signer {
        Err(ProcessError::MissingRequiredSignature)
    } else if ledger.config.is_paused {
        Err(ProcessError::Listing(ListingError::ListingPaused))
    } else if derived is None {
        Err(ProcessError::Listing(ListingError::InvalidPda))
    } else if token_proposal_index(ledger.token_proposals@, proposer.key, nonce) is Some {
        Err(ProcessError::Listing(ListingError::AlreadyInitialized))
    } else if !valid_symbol(symbol@) {
        Err(ProcessError::Listing(ListingError::InvalidSymbol))
    } else if decimals > 18 {
        Err(ProcessError::Listing(ListingError::InvalidDecimals))
    } else {
        Ok(derived->Some_0.1)
    }
}

/// What the approval of a token proposal leads to in the ledger, once it was
/// decided that the proposal may be approved: the token gets the number of
/// tokens registered so far as its index.
pub open spec fn token_admission(
    ledger: Ledger,
    proposal: TokenProposal,
    now: i64,
) -> Result<(TokenProposal, ListingConfig, TokenRegistry), ProcessError> {
    let derived = spec_find_program_address(
        token_registry_seeds(ledger.config.total_tokens),
        ledger.program_id@,
    );
    if ledger.config.total_tokens + 1 > u16::MAX {
        Err(ProcessError::Listing(ListingError::Overflow))
    } else if derived is None {
        Err(ProcessError::Listing(ListingError::InvalidPda))
    } else {
        Ok(
            (
                TokenProposal { status: ProposalStatus::Approved, ..proposal },
                ListingConfig {
                    total_tokens: (ledger.config.total_tokens + 1) as u16,
                    ..ledger.config
                },
                registry_entry(proposal, ledger.config.total_tokens, now, derived->Some_0.1),
            ),
        )
    }
}

impl Ledger {
    /// Whether, from `before` to `self`, nothing has changed but the
    /// configuration, the treasury and the token proposals.
    pub open spec fn same_but_token_proposals(&self, before: Ledger) -> bool {
        &&& self.program_id == before.program_id
        &&& self.pools@ == before.pools@
        &&& self.spot_proposals@ == before.spot_proposals@
        &&& self.perp_proposals@ == before.perp_proposals@
        &&& self.tokens@ == before.tokens@
        &&& self.spot_markets@ == before.spot_markets@
        &&& self.perp_markets@ == before.perp_markets@
    }

    /// Whether, from `before` to `self`, of the token proposals only the stake,
    /// state and objections of the one at position `i` may have changed.
    pub open spec fn token_life_changed(&self, before: Ledger, i: int) -> bool {
        &&& self.same_but_token_proposals(before)
        &&& self.token_proposals@ == before.token_proposals@.update(
            i,
            before.token_proposals@[i].with_lifecycle(self.token_proposals@[i].lifecycle()),
        )
    }

    /// Whether, from `before` to `self`, the token proposal at position `i` was
    /// approved as `outcome` says: on success it and the configuration are the
    /// ones that `outcome` gives, the new registry entry stands at the end of the
    /// registry and its index is the result; on failure nothing has changed.
    pub open spec fn token_admitted(
        &self,
        before: Ledger,
        i: int,
        outcome: Result<(TokenProposal, ListingConfig, TokenRegistry), ProcessError>,
        res: Result<u16, ProcessError>,
    ) -> bool {
        match outcome {
            Ok((proposal, config, entry)) => {
                &&& res == Ok::<u16, ProcessError>(entry.token_index)
                &&& self.program_id == before.program_id
                &&& self.pools@ == before.pools@
                &&& self.treasury == before.treasury
                &&& self.config == config
                &&& self.token_proposals@ == before.token_proposals@.update(i, proposal)
                &&& self.tokens@ == before.tokens@.push(entry)
                &&& self.spot_proposals@ == before.spot_proposals@
                &&& self.perp_proposals@ == before.perp_proposals@
                &&& self.spot_markets@ == before.spot_markets@
                &&& self.perp_markets@ == before.perp_markets@
            },
            Err(e) => res == Err::<u16, ProcessError>(e) && *self == before,
        }
    }

    /// What being well formed says of the token proposal at position `i`.
    pub proof fn lemma_token_proposal_at(&self, i: int)
        requires
            self.wf(),
            0 <= i < self.token_proposals@.len(),
        ensures
            self.token_proposals@[i].stake_claimed ==> self.token_proposals@[i].status
                == ProposalStatus::Approved,
            escrowed(self.token_proposals@[i].lifecycle()) <= self.config.total_staked_lamports,
            self.token_proposals@[i] == self.token_proposals@[i].with_lifecycle(
                self.token_proposals@[i].lifecycle(),
            ),
    {
        let lives = token_lives(self.token_proposals@);
        assert(lives[i] == self.token_proposals@[i].lifecycle());
        lemma_total_escrowed_update(lives, i, lives[i]);
        lemma_total_escrowed_part(lives, i);
        lemma_total_escrowed_nonnegative(spot_lives(self.spot_proposals@));
        lemma_total_escrowed_nonnegative(perp_lives(self.perp_proposals@));
    }

    /// The position of the token proposal that `proposer` made under `nonce`.
    pub fn find_token_proposal(&self, proposer: &Address, nonce: u64) -> (found: Option<usize>)
        ensures
            match found {
                Some(i) => is_token_proposal(self.token_proposals@, *proposer, nonce, i as int),
                None => forall|i: int| !is_token_proposal(self.token_proposals@, *proposer, nonce, i),
            },
            token_keys_unique(self.token_proposals@) ==> (match found {
                Some(i) => Some(i as int),
                None => None,
            }) == token_proposal_index(self.token_proposals@, *proposer, nonce),
    {
        let mut i: usize = 0;
        while i < self.token_proposals.len()
            invariant
                i <= self.token_proposals@.len(),
                forall|j: int| 0 <= j < i ==> !is_token_proposal(
                    self.token_proposals@,
                    *proposer,
                    nonce,
                    j,
                ),
            decreases self.token_proposals@.len() - i,
        {
            if self.token_proposals[i].proposer == *proposer && self.token_proposals[i].nonce
                == nonce {
                proof {
                    if token_keys_unique(self.token_proposals@) {
                        let j = choose|j: int|
                            is_token_proposal(self.token_proposals@, *proposer, nonce, j);
                        assert(is_token_proposal(self.token_proposals@, *proposer, nonce, i as int));
                        if j < i {
                            assert(self.token_proposals@[j].proposer
                                == self.token_proposals@[i as int].proposer);
                        } else if i < j {
                            assert(self.token_proposals@[i as int].proposer
                                == self.token_proposals@[j].proposer);
                        }
                    }
                }
                return Some(i);
            }
            i = i + 1;
        }
        None
    }

    /// Makes a proposal to register a token and stores it. The stake moves from
    /// `proposer` to the treasury. On success the result is the position of the
    /// new proposal.
    pub fn propose_token(
        &mut self,
        proposer: &mut Account,
        nonce: u64,
        symbol: [u8; 8],
        mint: Address,
        decimals: u8,
        oracle: Option<Address>,
        now: i64,
    ) -> (res: Result<usize, ProcessError>)
        requires
            old(self).wf(),
        ensures
            final(self).wf(),
            final(self).same_but_token_proposals(*old(self)),
            match token_proposal_gate(*old(self), *old(proposer), nonce, symbol, decimals) {
                Ok(bump) => match propose_outcome(
                    *old(proposer),
                    old(self).treasury,
                    old(self).config,
                    old(self).config.token_stake_amount,
                    old(self).config.token_review_period_seconds,
                    now,
                ) {
                    Ok(state) => {
                        &&& res == Ok::<usize, ProcessError>(old(self).token_proposals@.len() as usize)
                        &&& *final(proposer) == state.payer
                        &&& final(self).treasury == state.treasury
                        &&& final(self).config == state.config
                        &&& final(self).token_proposals@ == old(self).token_proposals@.push(
                            new_token_proposal(
                                old(proposer).key,
                                nonce,
                                symbol,
                                mint,
                                decimals,
                                oracle,
                                state.life,
                                bump,
                            ),
                        )
                    },
                    Err(e) => res == Err::<usize, ProcessError>(e) && *final(self) == *old(self)
                        && *final(proposer) == *old(proposer),
                },
                Err(e) => res == Err::<usize, ProcessError>(e) && *final(self) == *old(self)
                    && *final(proposer) == *old(proposer),
            },
    {
        let existing = self.find_token_proposal(&proposer.key, nonce);
        let slot = self.vacant_account(
            derive_token_proposal_pda(&proposer.key, nonce, &self.program_id),
            existing.is_none(),
        );
        let mint_account = self.vacant_account(Some((mint, 0)), false);
        let mut config = self.config;
        let mut treasury = self.treasury;
        let proposal = match process_propose_token(
            &self.program_id,
            proposer,
            &slot,
            &mut config,
            &mut treasury,
            &mint_account,
            nonce,
            symbol,
            mint,
            decimals,
            oracle,
            now,
        ) {
            Ok(proposal) => proposal,
            Err(e) => {
                return Err(e);
            },
        };
        let position = self.token_proposals.len();
        proof {
            let lives = token_lives(self.token_proposals@);
            let after = self.token_proposals@.push(proposal);
            lemma_total_escrowed_push(lives, proposal.lifecycle());
            assert(token_lives(after) =~= lives.push(proposal.lifecycle()));
            assert forall|k: int| 0 <= k < lives.push(proposal.lifecycle()).len() && (
            #[trigger] lives.push(proposal.lifecycle())[k]).stake_claimed implies lives.push(
                proposal.lifecycle(),
            )[k].status == ProposalStatus::Approved by {
                if k < lives.len() {
                    assert(lives[k].stake_claimed);
                }
            }
            assert forall|a: int, b: int| 0 <= a < b < after.len() implies !(
            #[trigger] after[a].proposer == #[trigger] after[b].proposer && after[a].nonce
                == after[b].nonce) by {
                if b == after.len() - 1 {
                    assert(!is_token_proposal(self.token_proposals@, proposer.key, nonce, a));
                } else {
                    assert(self.token_proposals@[a].proposer == self.token_proposals@[a].proposer);
                    assert(self.token_proposals@[b].proposer == self.token_proposals@[b].proposer);
                }
            }
        }
        self.config = config;
        self.treasury = treasury;
        self.token_proposals.push(proposal);
        Ok(position)
    }

    /// Records an objection against the token proposal that `proposer` made
    /// under `nonce`. The stake moves from `objector` to the treasury.
    pub fn object_token(
        &mut self,
        objector: &mut Account,
        proposer: &Address,
        nonce: u64,
        stake_amount: u64,
        now: i64,
    ) -> (res: Result<(), ProcessError>)
        requires
            old(self).wf(),
        ensures
            final(self).wf(),
            match token_proposal_index(old(self).token_proposals@, *proposer, nonce) {
                Some(i) => {
                    &&& final(self).token_life_changed(*old(self), i)
                    &&& stake_result(
                        object_outcome(
                            stake_state(
                                *old(objector),
                                old(self).treasury,
                                old(self).config,
                                old(self).token_proposals@[i].lifecycle(),
                            ),
                            stake_amount,
                            now,
                        ),
                        stake_state(
                            *old(objector),
                            old(self).treasury,
                            old(self).config,
                            old(self).token_proposals@[i].lifecycle(),
                        ),
                        stake_state(
                            *final(objector),
                            final(self).treasury,
                            final(self).config,
                            final(self).token_proposals@[i].lifecycle(),
                        ),
                        res,
                    )
                },
                None => res == Err::<(), ProcessError>(ProcessError::InvalidAccountData)
                    && *final(self) == *old(self) && *final(objector) == *old(objector),
            },
    {
        let i = match self.find_token_proposal(proposer, nonce) {
            Some(i) => i,
            None => {
                return Err(ProcessError::InvalidAccountData);
            },
        };
        let mut proposal = self.token_proposals[i];
        let mut config = self.config;
        let mut treasury = self.treasury;
        proof {
            self.lemma_token_proposal_at(i as int);
        }
        let res = process_object_token(
            objector,
            &mut proposal,
            &mut config,
            &mut treasury,
            stake_amount,
            now,
        );
        if res.is_ok() {
            self.store_token_life(i, proposal, config, treasury);
        } else {
            assert(self.token_proposals@.update(i as int, self.token_proposals@[i as int])
                =~= self.token_proposals@);
        }
        res
    }

    /// Rejects the token proposal that `proposer` made under `nonce`, on the
    /// administrator's word. Its stake stays in the treasury and stays counted.
    /// On success the result is the part of the stake that `slash_percentage`
    /// forfeits.
    pub fn reject_token(
        &mut self,
        admin: &Account,
        proposer: &Address,
        nonce: u64,
        reason_code: u8,
        slash_percentage: u8,
    ) -> (res: Result<u64, ProcessError>)
        requires
            old(self).wf(),
        ensures
            final(self).wf(),
            final(self).config == old(self).config,
            final(self).treasury == old(self).treasury,
            match token_proposal_index(old(self).token_proposals@, *proposer, nonce) {
                Some(i) => match reject_outcome(
                    *admin,
                    old(self).config,
                    old(self).token_proposals@[i].lifecycle(),
                    slash_percentage,
                ) {
                    Ok(life) => {
                        &&& res == Ok::<u64, ProcessError>(
                            slash_on_reject(
                                old(self).token_proposals@[i].stake_amount,
                                slash_percentage,
                            ) as u64,
                        )
                        &&& final(self).token_life_changed(*old(self), i)
                        &&& final(self).token_proposals@[i].lifecycle() == life
                    },
                    Err(e) => res == Err::<u64, ProcessError>(e) && *final(self) == *old(self),
                },
                None => res == Err::<u64, ProcessError>(ProcessError::InvalidAccountData)
                    && *final(self) == *old(self),
            },
    {
        let i = match self.find_token_proposal(proposer, nonce) {
            Some(i) => i,
            None => {
                return Err(ProcessError::InvalidAccountData);
            },
        };
        let mut proposal = self.token_proposals[i];
        let config = self.config;
        let treasury = self.treasury;
        proof {
            self.lemma_token_proposal_at(i as int);
        }
        let res = process_reject_token(admin, &mut proposal, &config, reason_code, slash_percentage);
        if res.is_ok() {
            self.store_token_life(i, proposal, config, treasury);
        }
        res
    }

    /// Withdraws the token proposal that `caller` made under `nonce`. 95% of
    /// its stake moves from the treasury back to `caller`. On success the result
    /// is the amount that went back.
    pub fn cancel_token_proposal(&mut self, caller: &mut Account, nonce: u64) -> (res: Result<
        u64,
        ProcessError,
    >)
        requires
            old(self).wf(),
        ensures
            final(self).wf(),
            match token_proposal_index(old(self).token_proposals@, old(caller).key, nonce) {
                Some(i) => {
                    &&& final(self).token_life_changed(*old(self), i)
                    &&& stake_result(
                        cancel_outcome(
                            stake_state(
                                *old(caller),
                                old(self).treasury,
                                old(self).config,
                                old(self).token_proposals@[i].lifecycle(),
                            ),
                            old(caller).key,
                        ),
                        stake_state(
                            *old(caller),
                            old(self).treasury,
                            old(self).config,
                            old(self).token_proposals@[i].lifecycle(),
                        ),
                        stake_state(
                            *final(caller),
                            final(self).treasury,
                            final(self).config,
                            final(self).token_proposals@[i].lifecycle(),
                        ),
                        res,
                    )
                    &&& res matches Ok(refund) ==> refund == refund_on_cancel(
                        old(self).token_proposals@[i].stake_amount,
                    )
                    // The treasury and the count of staked value always cover the refund.
                    &&& res != Err::<u64, ProcessError>(ProcessError::InsufficientFunds)
                    &&& res != Err::<u64, ProcessError>(
                        ProcessError::Listing(ListingError::Overflow),
                    )
                },
                None => res == Err::<u64, ProcessError>(ProcessError::InvalidAccountData)
                    && *final(self) == *old(self) && *final(caller) == *old(caller),
            },
    {
        let i = match self.find_token_proposal(&caller.key, nonce) {
            Some(i) => i,
            None => {
                return Err(ProcessError::InvalidAccountData);
            },
        };
        let mut proposal = self.token_proposals[i];
        let mut config = self.config;
        let mut treasury = self.treasury;
        proof {
            self.lemma_token_proposal_at(i as int);
        }
        let res = process_cancel_token_proposal(caller, &mut proposal, &mut config, &mut treasury);
        if res.is_ok() {
            self.store_token_life(i, proposal, config, treasury);
        } else {
            assert(self.token_proposals@.update(i as int, self.token_proposals@[i as int])
                =~= self.token_proposals@);
        }
        res
    }

    /// Gives the stake of the approved token proposal that `caller` made under
    /// `nonce` back to `caller`, who presents the registry entry with index
    /// `token_index`; the lock period counts from that entry's approval.
    pub fn claim_token_stake(
        &mut self,
        caller: &mut Account,
        nonce: u64,
        token_index: u16,
        now: i64,
    ) -> (res: Result<(), ProcessError>)
        requires
            old(self).wf(),
        ensures
            final(self).wf(),
            match token_proposal_index(old(self).token_proposals@, old(caller).key, nonce) {
                Some(i) => if token_index < old(self).tokens@.len() {
                    &&& final(self).token_life_changed(*old(self), i)
                    &&& stake_result(
                        claim_outcome(
                            stake_state(
                                *old(caller),
                                old(self).treasury,
                                old(self).config,
                                old(self).token_proposals@[i].lifecycle(),
                            ),
                            old(caller).key,
                            old(self).tokens@[token_index as int].proposer,
                            old(self).tokens@[token_index as int].approved_at,
                            now,
                        ),
                        stake_state(
                            *old(caller),
                            old(self).treasury,
                            old(self).config,
                            old(self).token_proposals@[i].lifecycle(),
                        ),
                        stake_state(
                            *final(caller),
                            final(self).treasury,
                            final(self).config,
                            final(self).token_proposals@[i].lifecycle(),
                        ),
                        res,
                    )
                    // The treasury always covers the stake.
                    &&& res != Err::<(), ProcessError>(ProcessError::InsufficientFunds)
                } else {
                    res == Err::<(), ProcessError>(ProcessError::InvalidAccountData)
                        && *final(self) == *old(self) && *final(caller) == *old(caller)
                },
                None => res == Err::<(), ProcessError>(ProcessError::InvalidAccountData)
                    && *final(self) == *old(self) && *final(caller) == *old(caller),
            },
    {
        let i = match self.find_token_proposal(&caller.key, nonce) {
            Some(i) => i,
            None => {
                return Err(ProcessError::InvalidAccountData);
            },
        };
        if token_index as usize >= self.tokens.len() {
            return Err(ProcessError::InvalidAccountData);
        }
        let entry = self.tokens[token_index as usize];
        let mut proposal = self.token_proposals[i];
        let mut config = self.config;
        let mut treasury = self.treasury;
        proof {
            self.lemma_token_proposal_at(i as int);
        }
        let res = process_claim_token_stake(
            caller,
            &mut proposal,
            &entry,
            &mut config,
            &mut treasury,
            now,
        );
        if res.is_ok() {
            self.store_token_life(i, proposal, config, treasury);
        } else {
            assert(self.token_proposals@.update(i as int, self.token_proposals@[i as int])
                =~= self.token_proposals@);
        }
        res
    }

    /// Approves the token proposal that `proposer` made under `nonce`, on the
    /// administrator's word, and adds its registry entry. On success the result
    /// is the index of the new entry.
    pub fn approve_token(&mut self, admin: &Account, proposer: &Address, nonce: u64, now: i64) -> (res:
        Result<u16, ProcessError>)
        requires
            old(self).wf(),
        ensures
            final(self).wf(),
            match token_proposal_index(old(self).token_proposals@, *proposer, nonce) {
                Some(i) => final(self).token_admitted(
                    *old(self),
                    i,
                    match approve_verdict(
                        *admin,
                        old(self).config,
                        old(self).token_proposals@[i].lifecycle(),
                    ) {
                        Ok(_) => token_admission(*old(self), old(self).token_proposals@[i], now),
                        Err(e) => Err(e),
                    },
                    res,
                ),
                None => res == Err::<u16, ProcessError>(ProcessError::InvalidAccountData)
                    && *final(self) == *old(self),
            },
    {
        let i = match self.find_token_proposal(proposer, nonce) {
            Some(i) => i,
            None => {
                return Err(ProcessError::InvalidAccountData);
            },
        };
        let slot = self.vacant_account(
            derive_token_registry_pda(self.config.total_tokens, &self.program_id),
            true,
        );
        let mut proposal = self.token_proposals[i];
        let mut config = self.config;
        match process_approve_token(&self.program_id, admin, &mut proposal, &slot, &mut config, now) {
            Ok(entry) => Ok(self.store_token_admission(i, proposal, config, entry)),
            Err(e) => Err(e),
        }
    }

    /// Approves the token proposal that `proposer` made under `nonce` at the
    /// end of its review, at the word of anyone who signs, and adds its registry
    /// entry. A single objection blocks it. On success the result is the index
    /// of the new entry.
    pub fn finalize_token(
        &mut self,
        caller: &Account,
        proposer: &Address,
        nonce: u64,
        now: i64,
    ) -> (res: Result<u16, ProcessError>)
        requires
            old(self).wf(),
        ensures
            final(self).wf(),
            match token_proposal_index(old(self).token_proposals@, *proposer, nonce) {
                Some(i) => final(self).token_admitted(
                    *old(self),
                    i,
                    match finalize_verdict(
                        *caller,
                        old(self).token_proposals@[i].lifecycle(),
                        VetoRule::AnyObjection,
                        now,
                    ) {
                        Ok(_) => token_admission(*old(self), old(self).token_proposals@[i], now),
                        Err(e) => Err(e),
                    },
                    res,
                ),
                None => res == Err::<u16, ProcessError>(ProcessError::InvalidAccountData)
                    && *final(self) == *old(self),
            },
    {
        let i = match self.find_token_proposal(proposer, nonce) {
            Some(i) => i,
            None => {
                return Err(ProcessError::InvalidAccountData);
            },
        };
        let slot = self.vacant_account(
            derive_token_registry_pda(self.config.total_tokens, &self.program_id),
            true,
        );
        let mut proposal = self.token_proposals[i];
        let mut config = self.config;
        match process_finalize_token(&self.program_id, caller, &mut proposal, &slot, &mut config, now) {
            Ok(entry) => Ok(self.store_token_admission(i, proposal, config, entry)),
            Err(e) => Err(e),
        }
    }

    /// Stores what the approval of the token proposal at position `i` has left.
    fn store_token_admission(
        &mut self,
        i: usize,
        proposal: TokenProposal,
        config: ListingConfig,
        entry: TokenRegistry,
    ) -> (index: u16)
        requires
            old(self).wf(),
            i < old(self).token_proposals@.len(),
            old(self).token_proposals@[i as int].status == ProposalStatus::Pending,
            proposal == (TokenProposal {
                status: ProposalStatus::Approved,
                ..old(self).token_proposals@[i as int]
            }),
            old(self).config.total_tokens < u16::MAX,
            config == (ListingConfig {
                total_tokens: (old(self).config.total_tokens + 1) as u16,
                ..old(self).config
            }),
            entry.token_index == old(self).config.total_tokens,
            token_terms_valid(entry.symbol, entry.decimals),
        ensures
            final(self).wf(),
            index == entry.token_index,
            final(self).program_id == old(self).program_id,
            final(self).pools@ == old(self).pools@,
            final(self).treasury == old(self).treasury,
            final(self).config == config,
            final(self).token_proposals@ == old(self).token_proposals@.update(i as int, proposal),
            final(self).tokens@ == old(self).tokens@.push(entry),
            final(self).spot_proposals@ == old(self).spot_proposals@,
            final(self).perp_proposals@ == old(self).perp_proposals@,
            final(self).spot_markets@ == old(self).spot_markets@,
            final(self).perp_markets@ == old(self).perp_markets@,
    {
        proof {
            self.lemma_token_proposal_at(i as int);
            let lives = token_lives(self.token_proposals@);
            lemma_total_escrowed_update(lives, i as int, proposal.lifecycle());
            assert(token_lives(self.token_proposals@.update(i as int, proposal)) =~= lives.update(
                i as int,
                proposal.lifecycle(),
            ));
        }
        self.config = config;
        self.token_proposals.set(i, proposal);
        self.tokens.push(entry);
        entry.token_index
    }

    /// Stores what an operation on the stake of the token proposal at position
    /// `i` has left.
    fn store_token_life(
        &mut self,
        i: usize,
        proposal: TokenProposal,
        config: ListingConfig,
        treasury: Account,
    )
        requires
            old(self).wf(),
            i < old(self).token_proposals@.len(),
            proposal == old(self).token_proposals@[i as int].with_lifecycle(proposal.lifecycle()),
            treasury.key == config.treasury,
            treasury.lamports >= config.total_staked_lamports,
            proposal.stake_claimed ==> proposal.status == ProposalStatus::Approved,
            config.total_staked_lamports - escrowed(proposal.lifecycle()) == old(
                self,
            ).config.total_staked_lamports - escrowed(old(self).token_proposals@[i as int].lifecycle()),
            config.total_tokens == old(self).config.total_tokens,
            config.total_spot_markets == old(self).config.total_spot_markets,
            config.total_perp_markets == old(self).config.total_perp_markets,
        ensures
            final(self).wf(),
            final(self).token_life_changed(*old(self), i as int),
            final(self).config == config,
            final(self).treasury == treasury,
            final(self).token_proposals@[i as int] == proposal,
    {
        proof {
            let lives = token_lives(self.token_proposals@);
            lemma_total_escrowed_update(lives, i as int, proposal.lifecycle());
            assert(token_lives(self.token_proposals@.update(i as int, proposal)) =~= lives.update(
                i as int,
                proposal.lifecycle(),
            ));
        }
        self.config = config;
        self.treasury = treasury;
        self.token_proposals.set(i, proposal);
    }
}

} // verus!
