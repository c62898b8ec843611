//! Proposals to register a token, and the registry entries that they become.

use crate::address::Address;
use crate::error::{ListingError, ProcessError};
use crate::lifecycle::{
    approve_verdict, cancel, cancel_outcome, check_approve, check_finalize, claim, claim_outcome,
    finalize_verdict, object, object_outcome, propose_outcome, proposed, refund_on_cancel, reject,
    reject_outcome, slash_on_reject, stake_proposal, stake_result, stake_state, VetoRule,
};
use crate::processor::admin::{lemma_matched_bump, match_pda, matched_bump, pda_bump};
use crate::state::{
    blank_reserved, new_reserved, Account, Lifecycle, ListingConfig, ProposalStatus,
    TokenProposal, TokenRegistry,
};
use crate::utils::{
    admin_verdict, derive_token_proposal_pda, derive_token_registry_pda, token_proposal_seeds,
    token_registry_seeds, valid_symbol, validate_decimals, validate_symbol, verify_admin,
};
use vstd::prelude::*;

verus! {

/// Whether an approval did what `outcome` says: on success the proposal and the
/// configuration are the ones that `outcome` gives and the result is the new
/// record, on failure the error is the one that `outcome` gives and nothing
/// has changed.
pub open spec fn admitted<P, R>(
    outcome: Result<(P, ListingConfig, R), ProcessError>,
    proposal_before: P,
    proposal_after: P,
    config_before: ListingConfig,
    config_after: ListingConfig,
    res: Result<R, ProcessError>,
) -> bool {
    match outcome {
        Ok((proposal, config, record)) => res == Ok::<R, ProcessError>(record) && proposal_after
            == proposal && config_after == config,
        Err(e) => res == Err::<R, ProcessError>(e) && proposal_after == proposal_before
            && config_after == config_before,
    }
}

/// What is asked of the symbol and the decimals of a token, in a proposal and
/// in the registry.
pub open spec fn token_terms_valid(symbol: [u8; 8], decimals: u8) -> bool {
    valid_symbol(symbol@) && decimals <= 18
}

/// The token proposal that `proposer` makes under `nonce`.
pub open spec fn new_token_proposal(
    proposer: Address,
    nonce: u64,
    symbol: [u8; 8],
    mint: Address,
    decimals: u8,
    oracle: Option<Address>,
    life: Lifecycle,
    bump: u8,
) -> TokenProposal {
    TokenProposal {
        discriminator: TokenProposal::DISCRIMINATOR,
        version: 1,
        proposer,
        nonce,
        symbol,
        mint,
        decimals,
        oracle,
        stake_amount: life.stake_amount,
        status: life.status,
        created_at: life.created_at,
        review_deadline: life.review_deadline,
        objection_count: life.objection_count,
        objection_stake: life.objection_stake,
        stake_claimed: life.stake_claimed,
        bump,
        reserved: blank_reserved(),
    }
}

/// What is asked of a token proposal before its stake is taken, in this order:
/// the proposer signed, the protocol is not paused, the treasury is the
/// configured one, the proposal's account is the one at the address derived
/// from proposer and nonce, that account is still empty, the symbol and the
/// decimals are valid, and the mint account is the proposed mint. On success
/// the result is the bump seed of the proposal's address. `bump` is that bump
/// seed, or `None` where the proposal's account is not at its address.
pub open spec fn propose_token_checks(
    bump: Option<u8>,
    proposer: Account,
    proposal_account: Account,
    config: ListingConfig,
    treasury_account: Account,
    token_mint: Account,
    symbol: [u8; 8],
    mint: Address,
    decimals: u8,
) -> Result<u8, ProcessError> {
    if !proposer.is_signer {
        Err(ProcessError::MissingRequiredSignature)
    } else if config.is_paused {
        Err(ProcessError::Listing(ListingError::ListingPaused))
    } else if treasury_account.key != config.treasury {
        Err(ProcessError::Listing(ListingError::InvalidAccount))
    } else if bump is None {
        Err(ProcessError::Listing(ListingError::InvalidPda))
    } else if !proposal_account.data_is_empty {
        Err(ProcessError::Listing(ListingError::AlreadyInitialized))
    } else if !valid_symbol(symbol@) {
        Err(ProcessError::Listing(ListingError::InvalidSymbol))
    } else if decimals > 18 {
        Err(ProcessError::Listing(ListingError::InvalidDecimals))
    } else if token_mint.key != mint {
        Err(ProcessError::Listing(ListingError::InvalidAccount))
    } else {
        Ok(bump->Some_0)
    }
}

/// Makes a proposal to register a token, given the address that was derived for
/// the proposal: checks it, takes the stake that the configuration asks for
/// token proposals, and opens the review window.
pub fn propose_token_at(
    derived: &Option<(Address, u8)>,
    proposer: &mut Account,
    proposal_account: &Account,
    config: &mut ListingConfig,
    treasury_account: &mut Account,
    token_mint: &Account,
    nonce: u64,
    symbol: [u8; 8],
    mint: Address,
    decimals: u8,
    oracle: Option<Address>,
    now: i64,
) -> (res: Result<TokenProposal, ProcessError>)
    ensures
        proposed(
            propose_token_checks(
                matched_bump(*derived, proposal_account.key),
                *old(proposer),
                *proposal_account,
                *old(config),
                *old(treasury_account),
                *token_mint,
                symbol,
                mint,
                decimals,
            ),
            propose_outcome(
                *old(proposer),
                *old(treasury_account),
                *old(config),
                old(config).token_stake_amount,
                old(config).token_review_period_seconds,
                now,
            ),
            |life: Lifecycle, bump: u8|
                new_token_proposal(old(proposer).key, nonce, symbol, mint, decimals, oracle, life, bump),
            (*old(proposer), *old(treasury_account), *old(config)),
            (*final(proposer), *final(treasury_account), *final(config)),
            res,
        ),
{
    if !proposer.is_signer {
        return Err(ProcessError::MissingRequiredSignature);
    }
    if config.is_paused {
        return Err(ProcessError::Listing(ListingError::ListingPaused));
    }
    if treasury_account.key != config.treasury {
        return Err(ProcessError::Listing(ListingError::InvalidAccount));
    }
    let bump: u8 = match match_pda(derived, &proposal_account.key) {
        Ok(bump) => bump,
        Err(e) => {
            return Err(e);
        },
    };
    if !proposal_account.data_is_empty {
        return Err(ProcessError::Listing(ListingError::AlreadyInitialized));
    }
    match validate_symbol(&symbol) {
        Ok(()) => {},
        Err(e) => {
            return Err(e);
        },
    }
    match validate_decimals(decimals) {
        Ok(()) => {},
        Err(e) => {
            return Err(e);
        },
    }
    if token_mint.key != mint {
        return Err(ProcessError::Listing(ListingError::InvalidAccount));
    }
    let stake_amount: u64 = config.token_stake_amount;
    let review_period: u32 = config.token_review_period_seconds;
    let life = match stake_proposal(
        proposer,
        treasury_account,
        config,
        stake_amount,
        review_period,
        now,
    ) {
        Ok(life) => life,
        Err(e) => {
            return Err(e);
        },
    };
    Ok(
        TokenProposal {
            discriminator: TokenProposal::DISCRIMINATOR,
            version: 1,
            proposer: proposer.key,
            nonce,
            symbol,
            mint,
            decimals,
            oracle,
            stake_amount: life.stake_amount,
            status: life.status,
            created_at: life.created_at,
            review_deadline: life.review_deadline,
            objection_count: life.objection_count,
            objection_stake: life.objection_stake,
            stake_claimed: life.stake_claimed,
            bump,
            reserved: new_reserved(),
        },
    )
}

/// Makes a proposal to register a token: derives the address of the proposal from
/// proposer and nonce, checks the proposal, takes the stake that the
/// configuration asks for token proposals, and opens the review window.
pub fn process_propose_token(
    program_id: &Address,
    proposer: &mut Account,
    proposal_account: &Account,
    config: &mut ListingConfig,
    treasury_account: &mut Account,
    token_mint: &Account,
    nonce: u64,
    symbol: [u8; 8],
    mint: Address,
    decimals: u8,
    oracle: Option<Address>,
    now: i64,
) -> (res: Result<TokenProposal, ProcessError>)
    ensures
        proposed(
            propose_token_checks(
                pda_bump(proposal_account.key, token_proposal_seeds(old(proposer).key, nonce), *program_id),
                *old(proposer),
                *proposal_account,
                *old(config),
                *old(treasury_account),
                *token_mint,
                symbol,
                mint,
                decimals,
            ),
            propose_outcome(
                *old(proposer),
                *old(treasury_account),
                *old(config),
                old(config).token_stake_amount,
                old(config).token_review_period_seconds,
                now,
            ),
            |life: Lifecycle, bump: u8|
                new_token_proposal(old(proposer).key, nonce, symbol, mint, decimals, oracle, life, bump),
            (*old(proposer), *old(treasury_account), *old(config)),
            (*final(proposer), *final(treasury_account), *final(config)),
            res,
        ),
{
    let derived = derive_token_proposal_pda(&proposer.key, nonce, program_id);
    proof {
        lemma_matched_bump(
            derived,
            proposal_account.key,
            token_proposal_seeds(proposer.key, nonce),
            *program_id,
        );
    }
    propose_token_at(
        &derived,
        proposer,
        proposal_account,
        config,
        treasury_account,
        token_mint,
        nonce,
        symbol,
        mint,
        decimals,
        oracle,
        now,
    )
}

/// Records an objection against a token proposal and takes its stake.
pub fn process_object_token(
    objector: &mut Account,
    proposal: &mut TokenProposal,
    config: &mut ListingConfig,
    treasury_account: &mut Account,
    stake_amount: u64,
    now: i64,
) -> (res: Result<(), ProcessError>)
    ensures
        stake_result(
            object_outcome(
                stake_state(
                    *old(objector),
                    *old(treasury_account),
                    *old(config),
                    old(proposal).lifecycle(),
                ),
                stake_amount,
                now,
            ),
            stake_state(
                *old(objector),
                *old(treasury_account),
                *old(config),
                old(proposal).lifecycle(),
            ),
            stake_state(
                *final(objector),
                *final(treasury_account),
                *final(config),
                final(proposal).lifecycle(),
            ),
            res,
        ),
        *final(proposal) == old(proposal).with_lifecycle(final(proposal).lifecycle()),
{
    let mut life = proposal.get_lifecycle();
    let res = object(objector, treasury_account, config, &mut life, stake_amount, now);
    proposal.set_lifecycle(life);
    res
}

/// The registry entry that an approved token proposal becomes.
pub open spec fn registry_entry(
    proposal: TokenProposal,
    token_index: u16,
    now: i64,
    bump: u8,
) -> TokenRegistry {
    TokenRegistry {
        discriminator: TokenRegistry::DISCRIMINATOR,
        version: 1,
        token_index,
        symbol: proposal.symbol,
        mint: proposal.mint,
        decimals: proposal.decimals,
        oracle: proposal.oracle,
        is_active: true,
        proposer: proposal.proposer,
        approved_at: now,
        bump,
        reserved: blank_reserved(),
    }
}

/// What the approval of a token proposal leads to, once it was decided that
/// the proposal may be approved: the token gets the next index, which is the
/// number of tokens registered so far, and that number grows by one; the
/// registry account must be the empty account at the address derived from the
/// index; the proposal is approved and the registry entry is made from it. `bump` is the bump
/// seed of that address, or `None` where the account is not at it.
pub open spec fn admit_token(
    bump: Option<u8>,
    proposal: TokenProposal,
    registry_account: Account,
    config: ListingConfig,
    now: i64,
) -> Result<(TokenProposal, ListingConfig, TokenRegistry), ProcessError> {
    if config.total_tokens + 1 > u16::MAX {
        Err(ProcessError::Listing(ListingError::Overflow))
    } else if bump is None {
        Err(ProcessError::Listing(ListingError::InvalidPda))
    } else if !registry_account.data_is_empty {
        Err(ProcessError::Listing(ListingError::AlreadyInitialized))
    } else {
        Ok(
            (
                TokenProposal { status: ProposalStatus::Approved, ..proposal },
                ListingConfig { total_tokens: (config.total_tokens + 1) as u16, ..config },
                registry_entry(proposal, config.total_tokens, now, bump->Some_0),
            ),
        )
    }
}

fn register_token(
    derived: &Option<(Address, u8)>,
    proposal: &mut TokenProposal,
    registry_account: &Account,
    config: &mut ListingConfig,
    now: i64,
) -> (res: Result<TokenRegistry, ProcessError>)
    ensures
        admitted(
            admit_token(
                matched_bump(*derived, registry_account.key),
                *old(proposal),
                *registry_account,
                *old(config),
                now,
            ),
            *old(proposal),
            *final(proposal),
            *old(config),
            *final(config),
            res,
        ),
{
    let token_index: u16 = config.total_tokens;
    if token_index == u16::MAX {
        return Err(ProcessError::Listing(ListingError::Overflow));
    }
    let bump: u8 = match match_pda(derived, &registry_account.key) {
        Ok(bump) => bump,
        Err(e) => {
            return Err(e);
        },
    };
    if !registry_account.data_is_empty {
        return Err(ProcessError::Listing(ListingError::AlreadyInitialized));
    }
    let registry = TokenRegistry {
        discriminator: TokenRegistry::DISCRIMINATOR,
        version: 1,
        token_index,
        symbol: proposal.symbol,
        mint: proposal.mint,
        decimals: proposal.decimals,
        oracle: proposal.oracle,
        is_active: true,
        proposer: proposal.proposer,
        approved_at: now,
        bump,
        reserved: new_reserved(),
    };
    config.total_tokens = token_index + 1;
    proposal.status = ProposalStatus::Approved;
    Ok(registry)
}

/// What the administrator's approval of a token proposal leads to. Objections
/// do not stand in its way.
pub open spec fn approve_token_outcome(
    bump: Option<u8>,
    admin: Account,
    proposal: TokenProposal,
    registry_account: Account,
    config: ListingConfig,
    now: i64,
) -> Result<(TokenProposal, ListingConfig, TokenRegistry), ProcessError> {
    match approve_verdict(admin, config, proposal.lifecycle()) {
        Ok(_) => admit_token(bump, proposal, registry_account, config, now),
        Err(e) => Err(e),
    }
}

/// Approves a token proposal on the administrator's word and makes its
/// registry entry, given the address that was derived for the
/// registry entry.
pub fn approve_token_at(
    derived: &Option<(Address, u8)>,
    admin: &Account,
    proposal: &mut TokenProposal,
    registry_account: &Account,
    config: &mut ListingConfig,
    now: i64,
) -> (res: Result<TokenRegistry, ProcessError>)
    ensures
        admitted(
            approve_token_outcome(
                matched_bump(*derived, registry_account.key),
                *admin,
                *old(proposal),
                *registry_account,
                *old(config),
                now,
            ),
            *old(proposal),
            *final(proposal),
            *old(config),
            *final(config),
            res,
        ),
{
    let life = proposal.get_lifecycle();
    match check_approve(admin, config, &life) {
        Ok(()) => {},
        Err(e) => {
            return Err(e);
        },
    }
    register_token(derived, proposal, registry_account, config, now)
}

/// Approves a token proposal on the administrator's word and makes its
/// registry entry. The registry entry gets the next index, and its
/// account has to be the one at the address derived from that index.
pub fn process_approve_token(
    program_id: &Address,
    admin: &Account,
    proposal: &mut TokenProposal,
    registry_account: &Account,
    config: &mut ListingConfig,
    now: i64,
) -> (res: Result<TokenRegistry, ProcessError>)
    ensures
        admitted(
            approve_token_outcome(
                pda_bump(registry_account.key, token_registry_seeds(old(config).total_tokens), *program_id),
                *admin,
                *old(proposal),
                *registry_account,
                *old(config),
                now,
            ),
            *old(proposal),
            *final(proposal),
            *old(config),
            *final(config),
            res,
        ),
{
    let derived = derive_token_registry_pda(config.total_tokens, program_id);
    proof {
        lemma_matched_bump(
            derived,
            registry_account.key,
            token_registry_seeds(config.total_tokens),
            *program_id,
        );
    }
    approve_token_at(&derived, admin, proposal, registry_account, config, now)
}

/// Rejects a token proposal on the administrator's word. The reason code is
/// taken as given and has no part in the outcome. On success the result is the
/// part of the stake that `slash_percentage` forfeits.
pub fn process_reject_token(
    admin: &Account,
    proposal: &mut TokenProposal,
    config: &ListingConfig,
    reason_code: u8,
    slash_percentage: u8,
) -> (res: Result<u64, ProcessError>)
    ensures
        match reject_outcome(*admin, *config, old(proposal).lifecycle(), slash_percentage) {
            Ok(life) => *final(proposal) == old(proposal).with_lifecycle(life) && res == Ok::<
                u64,
                ProcessError,
            >(slash_on_reject(old(proposal).stake_amount, slash_percentage) as u64),
            Err(e) => *final(proposal) == *old(proposal) && res == Err::<u64, ProcessError>(e),
        },
{
    let mut life = proposal.get_lifecycle();
    let res = reject(admin, config, &mut life, slash_percentage);
    proposal.set_lifecycle(life);
    res
}

/// Withdraws a token proposal at its proposer's word. On success the result is
/// the amount that went back to the proposer.
pub fn process_cancel_token_proposal(
    proposer: &mut Account,
    proposal: &mut TokenProposal,
    config: &mut ListingConfig,
    treasury_account: &mut Account,
) -> (res: Result<u64, ProcessError>)
    ensures
        stake_result(
            cancel_outcome(
                stake_state(
                    *old(proposer),
                    *old(treasury_account),
                    *old(config),
                    old(proposal).lifecycle(),
                ),
                old(proposal).proposer,
            ),
            stake_state(
                *old(proposer),
                *old(treasury_account),
                *old(config),
                old(proposal).lifecycle(),
            ),
            stake_state(
                *final(proposer),
                *final(treasury_account),
                *final(config),
                final(proposal).lifecycle(),
            ),
            res,
        ),
        *final(proposal) == old(proposal).with_lifecycle(final(proposal).lifecycle()),
        res matches Ok(refund) ==> refund == refund_on_cancel(old(proposal).stake_amount),
{
    let mut life = proposal.get_lifecycle();
    let owner = proposal.proposer;
    let res = cancel(proposer, treasury_account, config, &mut life, &owner);
    proposal.set_lifecycle(life);
    res
}

/// What the approval of a token proposal at the end of its review leads to.
/// Anyone who signs may ask for it; a single objection blocks it.
pub open spec fn finalize_token_outcome(
    bump: Option<u8>,
    caller: Account,
    proposal: TokenProposal,
    registry_account: Account,
    config: ListingConfig,
    now: i64,
) -> Result<(TokenProposal, ListingConfig, TokenRegistry), ProcessError> {
    match finalize_verdict(caller, proposal.lifecycle(), VetoRule::AnyObjection, now) {
        Ok(_) => admit_token(bump, proposal, registry_account, config, now),
        Err(e) => Err(e),
    }
}

/// Approves a token proposal whose review has ended without an objection, and
/// makes its registry entry, given the address that was derived for the
/// registry entry.
pub fn finalize_token_at(
    derived: &Option<(Address, u8)>,
    caller: &Account,
    proposal: &mut TokenProposal,
    registry_account: &Account,
    config: &mut ListingConfig,
    now: i64,
) -> (res: Result<TokenRegistry, ProcessError>)
    ensures
        admitted(
            finalize_token_outcome(
                matched_bump(*derived, registry_account.key),
                *caller,
                *old(proposal),
                *registry_account,
                *old(config),
                now,
            ),
            *old(proposal),
            *final(proposal),
            *old(config),
            *final(config),
            res,
        ),
{
    let life = proposal.get_lifecycle();
    match check_finalize(caller, &life, VetoRule::AnyObjection, now) {
        Ok(()) => {},
        Err(e) => {
            return Err(e);
        },
    }
    register_token(derived, proposal, registry_account, config, now)
}

/// Approves a token proposal whose review has ended without an objection, and
/// makes its registry entry. The registry entry gets the next index, and its
/// account has to be the one at the address derived from that index.
pub fn process_finalize_token(
    program_id: &Address,
    caller: &Account,
    proposal: &mut TokenProposal,
    registry_account: &Account,
    config: &mut ListingConfig,
    now: i64,
) -> (res: Result<TokenRegistry, ProcessError>)
    ensures
        admitted(
            finalize_token_outcome(
                pda_bump(registry_account.key, token_registry_seeds(old(config).total_tokens), *program_id),
                *caller,
                *old(proposal),
                *registry_account,
                *old(config),
                now,
            ),
            *old(proposal),
            *final(proposal),
            *old(config),
            *final(config),
            res,
        ),
{
    let derived = derive_token_registry_pda(config.total_tokens, program_id);
    proof {
        lemma_matched_bump(
            derived,
            registry_account.key,
            token_registry_seeds(config.total_tokens),
            *program_id,
        );
    }
    finalize_token_at(&derived, caller, proposal, registry_account, config, now)
}

/// Gives the stake of an approved token proposal back to its proposer, who
/// presents a registry entry made from a proposal of theirs; the lock period
/// counts from that entry's approval.
pub fn process_claim_token_stake(
    proposer: &mut Account,
    proposal: &mut TokenProposal,
    registry: &TokenRegistry,
    config: &mut ListingConfig,
    treasury_account: &mut Account,
    now: i64,
) -> (res: Result<(), ProcessError>)
    ensures
        stake_result(
            claim_outcome(
                stake_state(
                    *old(proposer),
                    *old(treasury_account),
                    *old(config),
                    old(proposal).lifecycle(),
                ),
                old(proposal).proposer,
                registry.proposer,
                registry.approved_at,
                now,
            ),
            stake_state(
                *old(proposer),
                *old(treasury_account),
                *old(config),
                old(proposal).lifecycle(),
            ),
            stake_state(
                *final(proposer),
                *final(treasury_account),
                *final(config),
                final(proposal).lifecycle(),
            ),
            res,
        ),
        *final(proposal) == old(proposal).with_lifecycle(final(proposal).lifecycle()),
{
    let mut life = proposal.get_lifecycle();
    let owner = proposal.proposer;
    let res = claim(
        proposer,
        treasury_account,
        config,
        &mut life,
        &owner,
        &registry.proposer,
        registry.approved_at,
        now,
    );
    proposal.set_lifecycle(life);
    res
}

/// Switches a registered token on or off, on the administrator's word.
pub fn process_update_token_status(
    admin: &Account,
    registry: &mut TokenRegistry,
    config: &ListingConfig,
    is_active: bool,
) -> (res: Result<(), ProcessError>)
    ensures
        res == admin_verdict(*admin, *config),
        *final(registry) == if res is Ok {
            TokenRegistry { is_active, ..*old(registry) }
        } else {
            *old(registry)
        },
{
    match verify_admin(admin, config) {
        Ok(()) => {},
        Err(e) => {
            return Err(e);
        },
    }
    registry.is_active = is_active;
    Ok(())
}

} // verus!
