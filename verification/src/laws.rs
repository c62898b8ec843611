//! What holds of the protocol as a whole, proved from the contracts of its
//! operations.

use crate::address::Address;
use crate::error::{ListingError, ProcessError};
use crate::ledger::token::token_proposal_gate;
use crate::ledger::{
    perp_lives, spot_lives, token_lives, token_proposal_index, total_escrowed, Ledger,
};
use crate::lifecycle::{
    approve_verdict, cancel_outcome, claim_outcome, escrowed, finalize_verdict, object_outcome,
    propose_outcome, refund_on_cancel, reject_outcome, unlock_time, StakeState, VetoRule,
};
use crate::processor::admin::pda_bump;
use crate::processor::perp::{finalize_perp_outcome, perp_market_valid, propose_perp_checks};
use crate::processor::pool::pool_params_valid;
use crate::processor::spot::{finalize_spot_outcome, propose_spot_checks, spot_market_valid};
use crate::processor::token::{finalize_token_outcome, propose_token_checks, token_terms_valid};
use crate::state::{
    Account, Lifecycle, ListingConfig, PerpMarketProposal, ProposalStatus, SpotMarketProposal,
    TokenProposal, TokenRegistry,
};
use crate::utils::{is_derived, moved, pda_matches, PriceReading};
use vstd::prelude::*;

verus! {

// ---------------------------------------------------------------------------
// Conservation of staked value
// ---------------------------------------------------------------------------
/// Conservation, in a ledger. Between any two operations, the global count of
/// staked value is the sum, over all proposals of the three kinds, of what each
/// accounts for: every objection's stake, and of the proposer's stake the whole
/// while the proposal is pending, rejected, or approved and unclaimed, the 5%
/// forfeit once it is cancelled, and nothing once it is claimed. The treasury's
/// balance covers that count. Every operation of the ledger keeps the ledger
/// well formed, so this holds after every sequence of operations.
pub proof fn law_conservation(ledger: Ledger)
    requires
        ledger.wf(),
    ensures
        ledger.config.total_staked_lamports == total_escrowed(
            token_lives(ledger.token_proposals@),
        ) + total_escrowed(spot_lives(ledger.spot_proposals@)) + total_escrowed(
            perp_lives(ledger.perp_proposals@),
        ),
        ledger.config.total_staked_lamports <= ledger.treasury.lamports,
{
}

/// What a proposal accounts for, state by state.
pub proof fn law_escrowed_by_state(life: Lifecycle)
    ensures
        life.status == ProposalStatus::Pending ==> escrowed(life) == life.stake_amount
            + life.objection_stake,
        life.status == ProposalStatus::Rejected ==> escrowed(life) == life.stake_amount
            + life.objection_stake,
        life.status == ProposalStatus::Approved && !life.stake_claimed ==> escrowed(life)
            == life.stake_amount + life.objection_stake,
        life.status == ProposalStatus::Approved && life.stake_claimed ==> escrowed(life)
            == life.objection_stake,
        life.status == ProposalStatus::Cancelled ==> escrowed(life) == life.stake_amount
            - life.stake_amount * 95 / 100 + life.objection_stake,
        0 <= life.objection_stake <= escrowed(life) <= life.stake_amount + life.objection_stake,
{
}

/// Whether, from `before` to `after`, the global count of staked value, the
/// treasury's balance and what the proposal accounts for all changed by the
/// same amount `delta`, which the payer's balance changed by the other way.
pub open spec fn counted(before: StakeState, after: StakeState, delta: int) -> bool {
    &&& after.config.total_staked_lamports - before.config.total_staked_lamports == delta
    &&& after.treasury.lamports - before.treasury.lamports == delta
    &&& escrowed(after.life) - escrowed(before.life) == delta
    &&& before.payer.lamports - after.payer.lamports == delta
}

/// Conservation, step by step. A proposal adds its stake, an objection adds its
/// stake, a cancellation takes away the refund of 95% and leaves the forfeit
/// counted once, and a claim takes away the whole stake; each of them changes
/// the global count, the treasury's balance and what the proposal accounts
/// for by exactly the amount that the payer's balance changes by.
pub proof fn law_stake_movements_are_counted(
    s: StakeState,
    stake_amount: u64,
    review_period: u32,
    proposer: Address,
    entry_proposer: Address,
    approved_at: i64,
    now: i64,
)
    ensures
        propose_outcome(s.payer, s.treasury, s.config, stake_amount, review_period, now) matches Ok(
            t,
        ) ==> {
            &&& t.config.total_staked_lamports - s.config.total_staked_lamports == stake_amount
            &&& t.treasury.lamports - s.treasury.lamports == stake_amount
            &&& s.payer.lamports - t.payer.lamports == stake_amount
            &&& escrowed(t.life) == stake_amount
        },
        object_outcome(s, stake_amount, now) matches Ok(t) ==> counted(s, t, stake_amount as int),
        cancel_outcome(s, proposer) matches Ok(t) ==> counted(
            s,
            t,
            -refund_on_cancel(s.life.stake_amount),
        ),
        claim_outcome(s, proposer, entry_proposer, approved_at, now) matches Ok(t) ==> counted(
            s,
            t,
            -(s.life.stake_amount as int),
        ),
{
}

/// A rejection moves no stake and leaves what the proposal accounts for as it
/// is: the stake of a rejected proposal stays counted.
pub proof fn law_rejection_keeps_the_count(
    admin: Account,
    config: ListingConfig,
    life: Lifecycle,
    slash_percentage: u8,
)
    ensures
        reject_outcome(admin, config, life, slash_percentage) matches Ok(after) ==> escrowed(after)
            == escrowed(life) && after.status == ProposalStatus::Rejected,
{
}

// ---------------------------------------------------------------------------
// The states of a proposal
// ---------------------------------------------------------------------------
/// A proposal is decided once. On a proposal that is approved, rejected or
/// cancelled, no objection, no approval, no rejection and no withdrawal
/// succeeds; a claim succeeds on an approved proposal only; and what succeeds
/// on a pending proposal leaves it pending (an objection), rejected (a
/// rejection) or cancelled (a withdrawal).
pub proof fn law_proposals_are_decided_once(
    s: StakeState,
    admin: Account,
    caller: Account,
    rule: VetoRule,
    stake_amount: u64,
    slash_percentage: u8,
    proposer: Address,
    entry_proposer: Address,
    approved_at: i64,
    now: i64,
)
    ensures
        s.life.status != ProposalStatus::Pending ==> {
            &&& object_outcome(s, stake_amount, now) is Err
            &&& approve_verdict(admin, s.config, s.life) is Err
            &&& finalize_verdict(caller, s.life, rule, now) is Err
            &&& reject_outcome(admin, s.config, s.life, slash_percentage) is Err
            &&& cancel_outcome(s, proposer) is Err
        },
        s.life.status != ProposalStatus::Approved ==> claim_outcome(
            s,
            proposer,
            entry_proposer,
            approved_at,
            now,
        ) is Err,
        object_outcome(s, stake_amount, now) matches Ok(t) ==> t.life.status
            == ProposalStatus::Pending,
        reject_outcome(admin, s.config, s.life, slash_percentage) matches Ok(life) ==> life.status
            == ProposalStatus::Rejected,
        cancel_outcome(s, proposer) matches Ok(t) ==> t.life.status == ProposalStatus::Cancelled,
        claim_outcome(s, proposer, entry_proposer, approved_at, now) matches Ok(t) ==> t.life.status
            == ProposalStatus::Approved && t.life.stake_claimed,
{
}

/// The stake and the review deadline of a proposal are those of the moment it
/// was made. Whatever stakes and review periods the configuration asks for
/// later, objections are accepted until the same deadline and a withdrawal
/// gives back the same amount.
pub proof fn law_open_proposals_keep_their_terms(
    s: StakeState,
    later: ListingConfig,
    stake_amount: u64,
    proposer: Address,
    now: i64,
)
    requires
        later == (ListingConfig {
            token_stake_amount: later.token_stake_amount,
            spot_stake_amount: later.spot_stake_amount,
            perp_stake_amount: later.perp_stake_amount,
            token_review_period_seconds: later.token_review_period_seconds,
            spot_review_period_seconds: later.spot_review_period_seconds,
            perp_review_period_seconds: later.perp_review_period_seconds,
            ..s.config
        }),
    ensures
        match (
            object_outcome(s, stake_amount, now),
            object_outcome(StakeState { config: later, ..s }, stake_amount, now),
        ) {
            (Ok(t), Ok(u)) => t.life == u.life && t.payer == u.payer && t.treasury == u.treasury,
            (Err(e), Err(f)) => e == f,
            _ => false,
        },
        match (cancel_outcome(s, proposer), cancel_outcome(StakeState { config: later, ..s }, proposer)) {
            (Ok(t), Ok(u)) => t.life == u.life && t.payer == u.payer && t.treasury == u.treasury,
            (Err(e), Err(f)) => e == f,
            _ => false,
        },
{
}

// ---------------------------------------------------------------------------
// Validity of what is listed
// ---------------------------------------------------------------------------
/// In a ledger, after any sequence of operations, every token, every market
/// and every pool holds terms within the bounds that a proposal is held to:
/// symbols are well formed, decimals are at most 18, tick and lot sizes are
/// above zero, fees, leverage and margin rates are within their bounds with the
/// maintenance margin below the initial margin, and every pool has a strictly
/// increasing price range, a density from 1 to 100 and a spread from 1 to
/// 10000 basis points.
pub proof fn law_listed_terms_are_valid(ledger: Ledger, i: int)
    requires
        ledger.wf(),
    ensures
        0 <= i < ledger.tokens@.len() ==> token_terms_valid(
            ledger.tokens@[i].symbol,
            ledger.tokens@[i].decimals,
        ),
        0 <= i < ledger.spot_markets@.len() ==> spot_market_valid(ledger.spot_markets@[i]),
        0 <= i < ledger.perp_markets@.len() ==> perp_market_valid(ledger.perp_markets@[i]),
        0 <= i < ledger.perp_markets@.len() ==> 0 < ledger.perp_markets@[i].maintenance_margin_rate_e6
            < ledger.perp_markets@[i].initial_margin_rate_e6 <= 1_000_000,
        0 <= i < ledger.pools@.len() ==> pool_params_valid(ledger.pools@[i]),
        0 <= i < ledger.pools@.len() ==> ledger.pools@[i].price_lower_e6
            < ledger.pools@[i].price_upper_e6,
{
}

// ---------------------------------------------------------------------------
// Index density
// ---------------------------------------------------------------------------
/// Index density. In a ledger, after any sequence of operations, the registry
/// entries and the markets of each kind carry the indices 0, 1, 2, ... in the
/// order of their approval, without gap or repeat, and the counters of the
/// configuration count them.
pub proof fn law_index_density(ledger: Ledger)
    requires
        ledger.wf(),
    ensures
        ledger.tokens@.len() == ledger.config.total_tokens,
        ledger.spot_markets@.len() == ledger.config.total_spot_markets,
        ledger.perp_markets@.len() == ledger.config.total_perp_markets,
        forall|i: int| 0 <= i < ledger.tokens@.len() ==> (#[trigger] ledger.tokens@[i]).token_index == i,
        forall|i: int|
            0 <= i < ledger.spot_markets@.len() ==> (#[trigger] ledger.spot_markets@[i]).market_index
                == i,
        forall|i: int|
            0 <= i < ledger.perp_markets@.len() ==> (#[trigger] ledger.perp_markets@[i]).market_index
                == i,
        forall|i: int, j: int|
            0 <= i < j < ledger.tokens@.len() ==> (#[trigger] ledger.tokens@[i]).token_index != (
            #[trigger] ledger.tokens@[j]).token_index,
{
}

/// Every approval, by the administrator or at the end of a review, gives the
/// new record the counter's value as its index and raises the counter by one.
pub proof fn law_approval_takes_the_next_index(
    bump: Option<u8>,
    caller: Account,
    token: TokenProposal,
    spot: SpotMarketProposal,
    perp: PerpMarketProposal,
    record_account: Account,
    config: ListingConfig,
    now: i64,
)
    ensures
        finalize_token_outcome(bump, caller, token, record_account, config, now) matches Ok(
            (_, after, entry),
        ) ==> entry.token_index == config.total_tokens && after.total_tokens == config.total_tokens
            + 1 && after.total_spot_markets == config.total_spot_markets
            && after.total_perp_markets == config.total_perp_markets,
        finalize_spot_outcome(bump, caller, spot, record_account, config, now) matches Ok(
            (_, after, market),
        ) ==> market.market_index == config.total_spot_markets && after.total_spot_markets
            == config.total_spot_markets + 1 && after.total_tokens == config.total_tokens
            && after.total_perp_markets == config.total_perp_markets,
        finalize_perp_outcome(bump, caller, perp, record_account, config, now) matches Ok(
            (_, after, market),
        ) ==> market.market_index == config.total_perp_markets && after.total_perp_markets
            == config.total_perp_markets + 1 && after.total_tokens == config.total_tokens
            && after.total_spot_markets == config.total_spot_markets,
{
}

/// The address that is derived for a record passes the check of a program
/// address, with the record's seeds and the bump seed that came with it.
pub proof fn law_derived_addresses_verify(
    found: Option<(Address, u8)>,
    seeds: Seq<Seq<u8>>,
    program_id: Address,
)
    requires
        is_derived(found, seeds, program_id),
    ensures
        found matches Some((address, bump)) ==> pda_matches(seeds, bump, program_id, address) && pda_bump(
            address,
            seeds,
            program_id,
        ) == Some(bump),
{
}

// ---------------------------------------------------------------------------
// The veto at the end of a review
// ---------------------------------------------------------------------------
/// Veto correctness, as a rule. For a pending proposal whose review deadline
/// has passed, asked for by someone who signs: a market proposal is blocked
/// exactly when the objections' stakes exceed half of its stake, so it is
/// blocked at half plus one and passes at half; a token proposal is blocked
/// exactly when there is an objection, whatever the stakes.
pub proof fn law_veto(caller: Account, life: Lifecycle, now: i64)
    requires
        caller.is_signer,
        life.status == ProposalStatus::Pending,
        now > life.review_deadline,
    ensures
        finalize_verdict(caller, life, VetoRule::MajorityOfStake, now) is Ok
            <==> life.objection_stake <= life.stake_amount / 2,
        life.objection_stake == life.stake_amount / 2 + 1 ==> finalize_verdict(
            caller,
            life,
            VetoRule::MajorityOfStake,
            now,
        ) == Err::<(), ProcessError>(ProcessError::Listing(ListingError::ProposalNotPending)),
        life.objection_stake == life.stake_amount / 2 ==> finalize_verdict(
            caller,
            life,
            VetoRule::MajorityOfStake,
            now,
        ) is Ok,
        finalize_verdict(caller, life, VetoRule::AnyObjection, now) is Ok <==> life.objection_count
            == 0,
        life.objection_count >= 1 ==> finalize_verdict(caller, life, VetoRule::AnyObjection, now)
            == Err::<(), ProcessError>(ProcessError::Listing(ListingError::ProposalNotPending)),
{
}

/// Veto correctness, for spot markets. The approval at the end of the review
/// fails at half of the stake plus one. At half it succeeds, given room in the
/// counter and an empty market account, which has to be the one at the address
/// derived from the next index (`bump` is the bump seed of that address where
/// it is).
pub proof fn law_spot_veto(
    bump: Option<u8>,
    caller: Account,
    proposal: SpotMarketProposal,
    market_account: Account,
    config: ListingConfig,
    now: i64,
)
    requires
        caller.is_signer,
        proposal.status == ProposalStatus::Pending,
        now > proposal.review_deadline,
        config.total_spot_markets < u16::MAX,
        market_account.data_is_empty,
    ensures
        proposal.objection_stake == proposal.stake_amount / 2 + 1 ==> finalize_spot_outcome(
            bump,
            caller,
            proposal,
            market_account,
            config,
            now,
        ) is Err,
        proposal.objection_stake == proposal.stake_amount / 2 ==> (finalize_spot_outcome(
            bump,
            caller,
            proposal,
            market_account,
            config,
            now,
        ) is Ok <==> bump is Some),
{
}

/// Veto correctness, for perpetual markets: as for spot markets.
pub proof fn law_perp_veto(
    bump: Option<u8>,
    caller: Account,
    proposal: PerpMarketProposal,
    market_account: Account,
    config: ListingConfig,
    now: i64,
)
    requires
        caller.is_signer,
        proposal.status == ProposalStatus::Pending,
        now > proposal.review_deadline,
        config.total_perp_markets < u16::MAX,
        market_account.data_is_empty,
    ensures
        proposal.objection_stake == proposal.stake_amount / 2 + 1 ==> finalize_perp_outcome(
            bump,
            caller,
            proposal,
            market_account,
            config,
            now,
        ) is Err,
        proposal.objection_stake == proposal.stake_amount / 2 ==> (finalize_perp_outcome(
            bump,
            caller,
            proposal,
            market_account,
            config,
            now,
        ) is Ok <==> bump is Some),
{
}

/// Veto correctness, for tokens: a token proposal with an objection is never
/// approved at the end of its review, whatever the stakes and whatever else is
/// presented.
pub proof fn law_token_veto(
    bump: Option<u8>,
    caller: Account,
    proposal: TokenProposal,
    registry_account: Account,
    config: ListingConfig,
    now: i64,
)
    requires
        proposal.objection_count >= 1,
    ensures
        finalize_token_outcome(bump, caller, proposal, registry_account, config, now) is Err,
{
}

// ---------------------------------------------------------------------------
// The lock on an approved stake
// ---------------------------------------------------------------------------
/// Lock gating. For an approved, unclaimed proposal whose proposer signs and
/// presents a record of theirs, with a treasury that holds the stake: one
/// second before the lock period has passed the claim fails because the lock
/// has not ended; at the moment it has passed, and at any later moment, the
/// claim succeeds; and on what a successful claim leaves, any further claim
/// fails because the stake was claimed.
pub proof fn law_lock_gating(s: StakeState, approved_at: i64, later: i64)
    requires
        s.payer.is_signer,
        s.treasury.key == s.config.treasury,
        s.life.status == ProposalStatus::Approved,
        !s.life.stake_claimed,
        unlock_time(approved_at, s.config) <= i64::MAX,
        moved(s.treasury, s.payer, s.life.stake_amount) is Ok,
        s.config.total_staked_lamports >= s.life.stake_amount,
        later >= unlock_time(approved_at, s.config),
    ensures
        unlock_time(approved_at, s.config) - 1 >= i64::MIN ==> claim_outcome(
            s,
            s.payer.key,
            s.payer.key,
            approved_at,
            (unlock_time(approved_at, s.config) - 1) as i64,
        ) == Err::<StakeState, ProcessError>(
            ProcessError::Listing(ListingError::StakeLockPeriodNotEnded),
        ),
        claim_outcome(
            s,
            s.payer.key,
            s.payer.key,
            approved_at,
            unlock_time(approved_at, s.config) as i64,
        ) is Ok,
        claim_outcome(s, s.payer.key, s.payer.key, approved_at, later) matches Ok(after)
            && after.life.stake_claimed && claim_outcome(
            after,
            s.payer.key,
            s.payer.key,
            approved_at,
            later,
        ) == Err::<StakeState, ProcessError>(
            ProcessError::Listing(ListingError::StakeAlreadyClaimed),
        ),
{
}

// ---------------------------------------------------------------------------
// Proposing twice
// ---------------------------------------------------------------------------
/// Rejection of a second proposal, for tokens. When the proposer signs, the
/// protocol is not paused and the treasury is the configured one, a proposal
/// whose account, the one at the address derived from proposer and nonce
/// (`bump` is the bump seed of that address), already holds data fails as
/// already initialized, whatever else it holds.
pub proof fn law_token_proposed_once(
    bump: Option<u8>,
    proposer: Account,
    proposal_account: Account,
    config: ListingConfig,
    treasury_account: Account,
    token_mint: Account,
    symbol: [u8; 8],
    mint: Address,
    decimals: u8,
)
    requires
        proposer.is_signer,
        !config.is_paused,
        treasury_account.key == config.treasury,
        !proposal_account.data_is_empty,
    ensures
        bump is Some ==> propose_token_checks(
            bump,
            proposer,
            proposal_account,
            config,
            treasury_account,
            token_mint,
            symbol,
            mint,
            decimals,
        ) == Err::<u8, ProcessError>(ProcessError::Listing(ListingError::AlreadyInitialized)),
{
}

/// Rejection of a second proposal, for spot markets: as for tokens.
pub proof fn law_spot_proposed_once(
    bump: Option<u8>,
    proposer: Account,
    proposal_account: Account,
    config: ListingConfig,
    base_token_registry: TokenRegistry,
    quote_token_registry: TokenRegistry,
    treasury_account: Account,
    symbol: [u8; 16],
    base_token_index: u16,
    quote_token_index: u16,
    tick_size_e6: u64,
    lot_size_e6: u64,
    taker_fee_bps: u16,
    maker_fee_bps: i16,
)
    requires
        proposer.is_signer,
        !config.is_paused,
        treasury_account.key == config.treasury,
        !proposal_account.data_is_empty,
    ensures
        bump is Some ==> propose_spot_checks(
            bump,
            proposer,
            proposal_account,
            config,
            base_token_registry,
            quote_token_registry,
            treasury_account,
            symbol,
            base_token_index,
            quote_token_index,
            tick_size_e6,
            lot_size_e6,
            taker_fee_bps,
            maker_fee_bps,
        ) == Err::<u8, ProcessError>(ProcessError::Listing(ListingError::AlreadyInitialized)),
{
}

/// Rejection of a second proposal, for perpetual markets: as for tokens.
pub proof fn law_perp_proposed_once(
    bump: Option<u8>,
    proposer: Account,
    proposal_account: Account,
    config: ListingConfig,
    base_token_registry: TokenRegistry,
    quote_token_registry: TokenRegistry,
    oracle_account: Account,
    oracle_feed: Option<PriceReading>,
    treasury_account: Account,
    symbol: [u8; 16],
    base_token_index: u16,
    quote_token_index: u16,
    oracle: Address,
    tick_size_e6: u64,
    lot_size_e6: u64,
    max_leverage: u8,
    initial_margin_rate_e6: u32,
    maintenance_margin_rate_e6: u32,
    taker_fee_bps: u16,
    maker_fee_bps: i16,
)
    requires
        proposer.is_signer,
        !config.is_paused,
        treasury_account.key == config.treasury,
        !proposal_account.data_is_empty,
    ensures
        bump is Some ==> propose_perp_checks(
            bump,
            proposer,
            proposal_account,
            config,
            base_token_registry,
            quote_token_registry,
            oracle_account,
            oracle_feed,
            treasury_account,
            symbol,
            base_token_index,
            quote_token_index,
            oracle,
            tick_size_e6,
            lot_size_e6,
            max_leverage,
            initial_margin_rate_e6,
            maintenance_margin_rate_e6,
            taker_fee_bps,
            maker_fee_bps,
        ) == Err::<u8, ProcessError>(ProcessError::Listing(ListingError::AlreadyInitialized)),
{
}

/// Rejection of a second proposal, in a ledger: once a proposer has a token
/// proposal under a nonce, whatever state it is in, a signed proposal under the
/// same nonce fails while the protocol is not paused, whatever it holds, and
/// it fails as already initialized unless no address can be derived for it.
pub proof fn law_ledger_keeps_one_proposal_per_nonce(
    ledger: Ledger,
    proposer: Account,
    nonce: u64,
    symbol: [u8; 8],
    decimals: u8,
)
    requires
        ledger.wf(),
        proposer.is_signer,
        !ledger.config.is_paused,
        token_proposal_index(ledger.token_proposals@, proposer.key, nonce) is Some,
    ensures
        token_proposal_gate(ledger, proposer, nonce, symbol, decimals) is Err,
        token_proposal_gate(ledger, proposer, nonce, symbol, decimals) != Err::<u8, ProcessError>(
            ProcessError::Listing(ListingError::InvalidPda),
        ) ==> token_proposal_gate(ledger, proposer, nonce, symbol, decimals) == Err::<
            u8,
            ProcessError,
        >(ProcessError::Listing(ListingError::AlreadyInitialized)),
{
}

} // verus!
