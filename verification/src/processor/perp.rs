//! Proposals to open a perpetual market, and the markets that they become.

use crate::address::Address;
use crate::error::{ListingError, ProcessError};
use crate::lifecycle::{
    approve_verdict, cancel, cancel_outcome, check_approve, check_finalize, claim, claim_outcome,
    finalize_verdict, object, object_outcome, propose_outcome, proposed, refund_on_cancel, reject,
    reject_outcome, slash_on_reject, stake_proposal, stake_result, stake_state, VetoRule,
};
use crate::processor::admin::{
    lemma_matched_bump, match_pda, matched_bump, pda_bump, updated,
};
use crate::processor::spot::token_listed;
use crate::processor::token::admitted;
use crate::state::{
    blank_reserved, new_reserved, Account, Lifecycle, ListingConfig, PerpMarket,
    PerpMarketProposal, ProposalStatus, TokenRegistry,
};
use crate::utils::{
    admin_verdict, derive_perp_market_pda, derive_perp_proposal_pda, margin_verdict,
    oracle_exists, perp_market_seeds, perp_proposal_seeds, sizes_verdict, valid_fee_rates,
    valid_market_symbol, validate_fee_rates, validate_leverage, validate_margin_rates,
    validate_market_symbol, validate_oracle_exists, validate_sizes, verify_admin, PriceReading,
};
use vstd::prelude::*;

verus! {

/// What is asked of the terms of a perpetual market, in a proposal and in the
/// market: a symbol with `-`, two different tokens, a tick size and a lot size
/// above zero, fees within their bounds, a leverage from 1 to 100, and margin
/// rates within their bounds with the maintenance rate below the initial rate.
pub open spec fn perp_terms_valid(
    symbol: [u8; 16],
    base_token_index: u16,
    quote_token_index: u16,
    tick_size_e6: u64,
    lot_size_e6: u64,
    max_leverage: u8,
    initial_margin_rate_e6: u32,
    maintenance_margin_rate_e6: u32,
    taker_fee_bps: u16,
    maker_fee_bps: i16,
) -> bool {
    &&& valid_market_symbol(symbol@, false)
    &&& base_token_index != quote_token_index
    &&& tick_size_e6 > 0
    &&& lot_size_e6 > 0
    &&& valid_fee_rates(taker_fee_bps, maker_fee_bps)
    &&& 1 <= max_leverage <= 100
    &&& margin_verdict(initial_margin_rate_e6, maintenance_margin_rate_e6) is Ok
}

/// Whether the terms of a perpetual market proposal are valid.
pub open spec fn perp_proposal_valid(p: PerpMarketProposal) -> bool {
    perp_terms_valid(
        p.symbol,
        p.base_token_index,
        p.quote_token_index,
        p.tick_size_e6,
        p.lot_size_e6,
        p.max_leverage,
        p.initial_margin_rate_e6,
        p.maintenance_margin_rate_e6,
        p.taker_fee_bps,
        p.maker_fee_bps,
    )
}

/// Whether the terms of a perpetual market are valid.
pub open spec fn perp_market_valid(m: PerpMarket) -> bool {
    perp_terms_valid(
        m.symbol,
        m.base_token_index,
        m.quote_token_index,
        m.tick_size_e6,
        m.lot_size_e6,
        m.max_leverage,
        m.initial_margin_rate_e6,
        m.maintenance_margin_rate_e6,
        m.taker_fee_bps,
        m.maker_fee_bps,
    )
}

/// The perpetual market proposal that `proposer` makes under `nonce`.
pub open spec fn new_perp_proposal(
    proposer: Address,
    nonce: u64,
    symbol: [u8; 16],
    base_token_index: u16,
    quote_token_index: u16,
    oracle: Address,
    tick_size_e6: u64,
    lot_size_e6: u64,
    max_leverage: u8,
    initial_margin_rate_e6: u32,
    maintenance_margin_rate_e6: u32,
    taker_fee_bps: u16,
    maker_fee_bps: i16,
    min_order_size_e6: u64,
    max_order_size_e6: u64,
    max_open_interest_e6: u64,
    insurance_fund_deposit_e6: u64,
    life: Lifecycle,
    bump: u8,
) -> PerpMarketProposal {
    PerpMarketProposal {
        discriminator: PerpMarketProposal::DISCRIMINATOR,
        version: 1,
        proposer,
        nonce,
        symbol,
        base_token_index,
        quote_token_index,
        oracle,
        tick_size_e6,
        lot_size_e6,
        max_leverage,
        initial_margin_rate_e6,
        maintenance_margin_rate_e6,
        taker_fee_bps,
        maker_fee_bps,
        min_order_size_e6,
        max_order_size_e6,
        max_open_interest_e6,
        insurance_fund_deposit_e6,
        stake_amount: life.stake_amount,
        status: life.status,
        created_at: life.created_at,
        review_deadline: life.review_deadline,
        objection_count: life.objection_count,
        objection_stake: life.objection_stake,
        stake_claimed: life.stake_claimed,
        bump,
        reserved: blank_reserved(),
    }
}

/// What is asked of a perpetual market proposal before its stake is taken, in this
/// order: the proposer signed, the protocol is not paused, the treasury is the
/// configured one, the proposal's account is the one at the address derived
/// from proposer and nonce, that account is still empty, the symbol is valid
/// for a perpetual market, base and quote are active registered tokens and
/// differ, the oracle account is the proposed oracle and can serve as one, and
/// the sizes, fees, leverage and margin rates are valid. On success the result
/// is the bump seed of the proposal's address. `bump` is that bump seed, or
/// `None` where the proposal's account is not at its address.
pub open spec fn propose_perp_checks(
    bump: Option<u8>,
    proposer: Account,
    proposal_account: Account,
    config: ListingConfig,
    base_token_registry: TokenRegistry,
    quote_token_registry: TokenRegistry,
    oracle_account: Account,
    oracle_feed: Option<PriceReading>,
    treasury_account: Account,
    symbol: [u8; 16],
    base_token_index: u16,
    quote_token_index: u16,
    oracle: Address,
    tick_size_e6: u64,
    lot_size_e6: u64,
    max_leverage: u8,
    initial_margin_rate_e6: u32,
    maintenance_margin_rate_e6: u32,
    taker_fee_bps: u16,
    maker_fee_bps: i16,
) -> Result<u8, ProcessError> {
    if !proposer.is_signer {
        Err(ProcessError::MissingRequiredSignature)
    } else if config.is_paused {
        Err(ProcessError::Listing(ListingError::ListingPaused))
    } else if treasury_account.key != config.treasury {
        Err(ProcessError::Listing(ListingError::InvalidAccount))
    } else if bump is None {
        Err(ProcessError::Listing(ListingError::InvalidPda))
    } else if !proposal_account.data_is_empty {
        Err(ProcessError::Listing(ListingError::AlreadyInitialized))
    } else if !valid_market_symbol(symbol@, false) {
        Err(ProcessError::Listing(ListingError::InvalidSymbol))
    } else if !token_listed(base_token_registry, base_token_index) {
        Err(ProcessError::Listing(ListingError::TokenNotRegistered))
    } else if !token_listed(quote_token_registry, quote_token_index) {
        Err(ProcessError::Listing(ListingError::TokenNotRegistered))
    } else if base_token_index == quote_token_index {
        Err(ProcessError::Listing(ListingError::SameTokenPair))
    } else if oracle_account.key != oracle {
        Err(ProcessError::Listing(ListingError::InvalidOracle))
    } else if !oracle_exists(oracle_account, oracle_feed) {
        Err(ProcessError::Listing(ListingError::InvalidOracle))
    } else if sizes_verdict(tick_size_e6, lot_size_e6) is Err {
        Err(sizes_verdict(tick_size_e6, lot_size_e6)->Err_0)
    } else if !valid_fee_rates(taker_fee_bps, maker_fee_bps) {
        Err(ProcessError::Listing(ListingError::InvalidFeeRate))
    } else if !(1 <= max_leverage <= 100) {
        Err(ProcessError::Listing(ListingError::InvalidLeverage))
    } else if margin_verdict(initial_margin_rate_e6, maintenance_margin_rate_e6) is Err {
        Err(margin_verdict(initial_margin_rate_e6, maintenance_margin_rate_e6)->Err_0)
    } else {
        Ok(bump->Some_0)
    }
}

/// Makes a proposal to open a perpetual market, given the address that was derived for
/// the proposal: checks it, takes the stake that the configuration asks for
/// perpetual market proposals, and opens the review window.
pub fn propose_perp_market_at(
    derived: &Option<(Address, u8)>,
    proposer: &mut Account,
    proposal_account: &Account,
    config: &mut ListingConfig,
    base_token_registry: &TokenRegistry,
    quote_token_registry: &TokenRegistry,
    oracle_account: &Account,
    oracle_feed: &Option<PriceReading>,
    treasury_account: &mut Account,
    nonce: u64,
    symbol: [u8; 16],
    base_token_index: u16,
    quote_token_index: u16,
    oracle: Address,
    tick_size_e6: u64,
    lot_size_e6: u64,
    max_leverage: u8,
    initial_margin_rate_e6: u32,
    maintenance_margin_rate_e6: u32,
    taker_fee_bps: u16,
    maker_fee_bps: i16,
    min_order_size_e6: u64,
    max_order_size_e6: u64,
    max_open_interest_e6: u64,
    insurance_fund_deposit_e6: u64,
    now: i64,
) -> (res: Result<PerpMarketProposal, ProcessError>)
    ensures
        proposed(
            propose_perp_checks(
                matched_bump(*derived, proposal_account.key),
                *old(proposer),
                *proposal_account,
                *old(config),
                *base_token_registry,
                *quote_token_registry,
                *oracle_account,
                *oracle_feed,
                *old(treasury_account),
                symbol,
                base_token_index,
                quote_token_index,
                oracle,
                tick_size_e6,
                lot_size_e6,
                max_leverage,
                initial_margin_rate_e6,
                maintenance_margin_rate_e6,
                taker_fee_bps,
                maker_fee_bps,
            ),
            propose_outcome(
                *old(proposer),
                *old(treasury_account),
                *old(config),
                old(config).perp_stake_amount,
                old(config).perp_review_period_seconds,
                now,
            ),
            |life: Lifecycle, bump: u8|
                new_perp_proposal(
                    old(proposer).key,
                    nonce,
                    symbol,
                    base_token_index,
                    quote_token_index,
                    oracle,
                    tick_size_e6,
                    lot_size_e6,
                    max_leverage,
                    initial_margin_rate_e6,
                    maintenance_margin_rate_e6,
                    taker_fee_bps,
                    maker_fee_bps,
                    min_order_size_e6,
                    max_order_size_e6,
                    max_open_interest_e6,
                    insurance_fund_deposit_e6,
                    life,
                    bump,
                ),
            (*old(proposer), *old(treasury_account), *old(config)),
            (*final(proposer), *final(treasury_account), *final(config)),
            res,
        ),
{
    if !proposer.is_signer {
        return Err(ProcessError::MissingRequiredSignature);
    }
    if config.is_paused {
        return Err(ProcessError::Listing(ListingError::ListingPaused));
    }
    if treasury_account.key != config.treasury {
        return Err(ProcessError::Listing(ListingError::InvalidAccount));
    }
    let bump: u8 = match match_pda(derived, &proposal_account.key) {
        Ok(bump) => bump,
        Err(e) => {
            return Err(e);
        },
    };
    if !proposal_account.data_is_empty {
        return Err(ProcessError::Listing(ListingError::AlreadyInitialized));
    }
    match validate_market_symbol(&symbol, false) {
        Ok(()) => {},
        Err(e) => {
            return Err(e);
        },
    }
    if base_token_registry.token_index != base_token_index || !base_token_registry.is_active {
        return Err(ProcessError::Listing(ListingError::TokenNotRegistered));
    }
    if quote_token_registry.token_index != quote_token_index || !quote_token_registry.is_active {
        return Err(ProcessError::Listing(ListingError::TokenNotRegistered));
    }
    if base_token_index == quote_token_index {
        return Err(ProcessError::Listing(ListingError::SameTokenPair));
    }
    if oracle_account.key != oracle {
        return Err(ProcessError::Listing(ListingError::InvalidOracle));
    }
    match validate_oracle_exists(oracle_account, oracle_feed) {
        Ok(()) => {},
        Err(e) => {
            return Err(e);
        },
    }
    match validate_sizes(tick_size_e6, lot_size_e6) {
        Ok(()) => {},
        Err(e) => {
            return Err(e);
        },
    }
    match validate_fee_rates(taker_fee_bps, maker_fee_bps) {
        Ok(()) => {},
        Err(e) => {
            return Err(e);
        },
    }
    match validate_leverage(max_leverage) {
        Ok(()) => {},
        Err(e) => {
            return Err(e);
        },
    }
    match validate_margin_rates(initial_margin_rate_e6, maintenance_margin_rate_e6) {
        Ok(()) => {},
        Err(e) => {
            return Err(e);
        },
    }
    let stake_amount: u64 = config.perp_stake_amount;
    let review_period: u32 = config.perp_review_period_seconds;
    let life = match stake_proposal(
        proposer,
        treasury_account,
        config,
        stake_amount,
        review_period,
        now,
    ) {
        Ok(life) => life,
        Err(e) => {
            return Err(e);
        },
    };
    Ok(
        PerpMarketProposal {
            discriminator: PerpMarketProposal::DISCRIMINATOR,
            version: 1,
            proposer: proposer.key,
            nonce,
            symbol,
            base_token_index,
            quote_token_index,
            oracle,
            tick_size_e6,
            lot_size_e6,
            max_leverage,
            initial_margin_rate_e6,
            maintenance_margin_rate_e6,
            taker_fee_bps,
            maker_fee_bps,
            min_order_size_e6,
            max_order_size_e6,
            max_open_interest_e6,
            insurance_fund_deposit_e6,
            stake_amount: life.stake_amount,
            status: life.status,
            created_at: life.created_at,
            review_deadline: life.review_deadline,
            objection_count: life.objection_count,
            objection_stake: life.objection_stake,
            stake_claimed: life.stake_claimed,
            bump,
            reserved: new_reserved(),
        },
    )
}

/// Makes a proposal to open a perpetual market: derives the address of the proposal from
/// proposer and nonce, checks the proposal, takes the stake that the
/// configuration asks for perpetual market proposals, and opens the review window.
pub fn process_propose_perp_market(
    program_id: &Address,
    proposer: &mut Account,
    proposal_account: &Account,
    config: &mut ListingConfig,
    base_token_registry: &TokenRegistry,
    quote_token_registry: &TokenRegistry,
    oracle_account: &Account,
    oracle_feed: &Option<PriceReading>,
    treasury_account: &mut Account,
    nonce: u64,
    symbol: [u8; 16],
    base_token_index: u16,
    quote_token_index: u16,
    oracle: Address,
    tick_size_e6: u64,
    lot_size_e6: u64,
    max_leverage: u8,
    initial_margin_rate_e6: u32,
    maintenance_margin_rate_e6: u32,
    taker_fee_bps: u16,
    maker_fee_bps: i16,
    min_order_size_e6: u64,
    max_order_size_e6: u64,
    max_open_interest_e6: u64,
    insurance_fund_deposit_e6: u64,
    now: i64,
) -> (res: Result<PerpMarketProposal, ProcessError>)
    ensures
        proposed(
            propose_perp_checks(
                pda_bump(proposal_account.key, perp_proposal_seeds(old(proposer).key, nonce), *program_id),
                *old(proposer),
                *proposal_account,
                *old(config),
                *base_token_registry,
                *quote_token_registry,
                *oracle_account,
                *oracle_feed,
                *old(treasury_account),
                symbol,
                base_token_index,
                quote_token_index,
                oracle,
                tick_size_e6,
                lot_size_e6,
                max_leverage,
                initial_margin_rate_e6,
                maintenance_margin_rate_e6,
                taker_fee_bps,
                maker_fee_bps,
            ),
            propose_outcome(
                *old(proposer),
                *old(treasury_account),
                *old(config),
                old(config).perp_stake_amount,
                old(config).perp_review_period_seconds,
                now,
            ),
            |life: Lifecycle, bump: u8|
                new_perp_proposal(
                    old(proposer).key,
                    nonce,
                    symbol,
                    base_token_index,
                    quote_token_index,
                    oracle,
                    tick_size_e6,
                    lot_size_e6,
                    max_leverage,
                    initial_margin_rate_e6,
                    maintenance_margin_rate_e6,
                    taker_fee_bps,
                    maker_fee_bps,
                    min_order_size_e6,
                    max_order_size_e6,
                    max_open_interest_e6,
                    insurance_fund_deposit_e6,
                    life,
                    bump,
                ),
            (*old(proposer), *old(treasury_account), *old(config)),
            (*final(proposer), *final(treasury_account), *final(config)),
            res,
        ),
{
    let derived = derive_perp_proposal_pda(&proposer.key, nonce, program_id);
    proof {
        lemma_matched_bump(
            derived,
            proposal_account.key,
            perp_proposal_seeds(proposer.key, nonce),
            *program_id,
        );
    }
    propose_perp_market_at(
        &derived,
        proposer,
        proposal_account,
        config,
        base_token_registry,
        quote_token_registry,
        oracle_account,
        oracle_feed,
        treasury_account,
        nonce,
        symbol,
        base_token_index,
        quote_token_index,
        oracle,
        tick_size_e6,
        lot_size_e6,
        max_leverage,
        initial_margin_rate_e6,
        maintenance_margin_rate_e6,
        taker_fee_bps,
        maker_fee_bps,
        min_order_size_e6,
        max_order_size_e6,
        max_open_interest_e6,
        insurance_fund_deposit_e6,
        now,
    )
}

/// Records an objection against a perpetual market proposal and takes its stake.
pub fn process_object_perp_market(
    objector: &mut Account,
    proposal: &mut PerpMarketProposal,
    config: &mut ListingConfig,
    treasury_account: &mut Account,
    stake_amount: u64,
    now: i64,
) -> (res: Result<(), ProcessError>)
    ensures
        stake_result(
            object_outcome(
                stake_state(
                    *old(objector),
                    *old(treasury_account),
                    *old(config),
                    old(proposal).lifecycle(),
                ),
                stake_amount,
                now,
            ),
            stake_state(
                *old(objector),
                *old(treasury_account),
                *old(config),
                old(proposal).lifecycle(),
            ),
            stake_state(
                *final(objector),
                *final(treasury_account),
                *final(config),
                final(proposal).lifecycle(),
            ),
            res,
        ),
        *final(proposal) == old(proposal).with_lifecycle(final(proposal).lifecycle()),
{
    let mut life = proposal.get_lifecycle();
    let res = object(objector, treasury_account, config, &mut life, stake_amount, now);
    proposal.set_lifecycle(life);
    res
}

/// The perpetual market that an approved proposal becomes. Its open interest
/// and funding rate start at zero.
pub open spec fn perp_market_entry(
    proposal: PerpMarketProposal,
    market_index: u16,
    now: i64,
    bump: u8,
) -> PerpMarket {
    PerpMarket {
        discriminator: PerpMarket::DISCRIMINATOR,
        version: 1,
        market_index,
        symbol: proposal.symbol,
        base_token_index: proposal.base_token_index,
        quote_token_index: proposal.quote_token_index,
        oracle: proposal.oracle,
        tick_size_e6: proposal.tick_size_e6,
        lot_size_e6: proposal.lot_size_e6,
        max_leverage: proposal.max_leverage,
        initial_margin_rate_e6: proposal.initial_margin_rate_e6,
        maintenance_margin_rate_e6: proposal.maintenance_margin_rate_e6,
        taker_fee_bps: proposal.taker_fee_bps,
        maker_fee_bps: proposal.maker_fee_bps,
        min_order_size_e6: proposal.min_order_size_e6,
        max_order_size_e6: proposal.max_order_size_e6,
        max_open_interest_e6: proposal.max_open_interest_e6,
        current_open_interest_long_e6: 0,
        current_open_interest_short_e6: 0,
        insurance_fund_deposit_e6: proposal.insurance_fund_deposit_e6,
        funding_rate_e9: 0,
        last_funding_ts: now,
        is_active: true,
        is_paused: false,
        proposer: proposal.proposer,
        approved_at: now,
        bump,
        reserved: blank_reserved(),
    }
}

/// What the approval of a perpetual market proposal leads to, once it was decided
/// that the proposal may be approved: the market gets the next index, which is
/// the number of perpetual markets so far, and that number grows by one; the market
/// account must be the empty account at the address derived from the index;
/// the proposal is approved and the market is made from it. `bump` is the bump
/// seed of that address, or `None` where the account is not at it.
pub open spec fn admit_perp_market(
    bump: Option<u8>,
    proposal: PerpMarketProposal,
    market_account: Account,
    config: ListingConfig,
    now: i64,
) -> Result<(PerpMarketProposal, ListingConfig, PerpMarket), ProcessError> {
    if config.total_perp_markets + 1 > u16::MAX {
        Err(ProcessError::Listing(ListingError::Overflow))
    } else if bump is None {
        Err(ProcessError::Listing(ListingError::InvalidPda))
    } else if !market_account.data_is_empty {
        Err(ProcessError::Listing(ListingError::AlreadyInitialized))
    } else {
        Ok(
            (
                PerpMarketProposal { status: ProposalStatus::Approved, ..proposal },
                ListingConfig {
                    total_perp_markets: (config.total_perp_markets + 1) as u16,
                    ..config
                },
                perp_market_entry(proposal, config.total_perp_markets, now, bump->Some_0),
            ),
        )
    }
}

fn open_perp_market(
    derived: &Option<(Address, u8)>,
    proposal: &mut PerpMarketProposal,
    market_account: &Account,
    config: &mut ListingConfig,
    now: i64,
) -> (res: Result<PerpMarket, ProcessError>)
    ensures
        admitted(
            admit_perp_market(
                matched_bump(*derived, market_account.key),
                *old(proposal),
                *market_account,
                *old(config),
                now,
            ),
            *old(proposal),
            *final(proposal),
            *old(config),
            *final(config),
            res,
        ),
{
    let market_index: u16 = config.total_perp_markets;
    if market_index == u16::MAX {
        return Err(ProcessError::Listing(ListingError::Overflow));
    }
    let bump: u8 = match match_pda(derived, &market_account.key) {
        Ok(bump) => bump,
        Err(e) => {
            return Err(e);
        },
    };
    if !market_account.data_is_empty {
        return Err(ProcessError::Listing(ListingError::AlreadyInitialized));
    }
    let market = PerpMarket {
        discriminator: PerpMarket::DISCRIMINATOR,
        version: 1,
        market_index,
        symbol: proposal.symbol,
        base_token_index: proposal.base_token_index,
        quote_token_index: proposal.quote_token_index,
        oracle: proposal.oracle,
        tick_size_e6: proposal.tick_size_e6,
        lot_size_e6: proposal.lot_size_e6,
        max_leverage: proposal.max_leverage,
        initial_margin_rate_e6: proposal.initial_margin_rate_e6,
        maintenance_margin_rate_e6: proposal.maintenance_margin_rate_e6,
        taker_fee_bps: proposal.taker_fee_bps,
        maker_fee_bps: proposal.maker_fee_bps,
        min_order_size_e6: proposal.min_order_size_e6,
        max_order_size_e6: proposal.max_order_size_e6,
        max_open_interest_e6: proposal.max_open_interest_e6,
        current_open_interest_long_e6: 0,
        current_open_interest_short_e6: 0,
        insurance_fund_deposit_e6: proposal.insurance_fund_deposit_e6,
        funding_rate_e9: 0,
        last_funding_ts: now,
        is_active: true,
        is_paused: false,
        proposer: proposal.proposer,
        approved_at: now,
        bump,
        reserved: new_reserved(),
    };
    config.total_perp_markets = market_index + 1;
    proposal.status = ProposalStatus::Approved;
    Ok(market)
}

/// What the administrator's approval of a perpetual market proposal leads to.
/// Objections do not stand in its way.
pub open spec fn approve_perp_outcome(
    bump: Option<u8>,
    admin: Account,
    proposal: PerpMarketProposal,
    market_account: Account,
    config: ListingConfig,
    now: i64,
) -> Result<(PerpMarketProposal, ListingConfig, PerpMarket), ProcessError> {
    match approve_verdict(admin, config, proposal.lifecycle()) {
        Ok(_) => admit_perp_market(bump, proposal, market_account, config, now),
        Err(e) => Err(e),
    }
}

/// Approves a perpetual market proposal on the administrator's word and makes the
/// market, given the address that was derived for the
/// market.
pub fn approve_perp_market_at(
    derived: &Option<(Address, u8)>,
    admin: &Account,
    proposal: &mut PerpMarketProposal,
    market_account: &Account,
    config: &mut ListingConfig,
    now: i64,
) -> (res: Result<PerpMarket, ProcessError>)
    ensures
        admitted(
            approve_perp_outcome(
                matched_bump(*derived, market_account.key),
                *admin,
                *old(proposal),
                *market_account,
                *old(config),
                now,
            ),
            *old(proposal),
            *final(proposal),
            *old(config),
            *final(config),
            res,
        ),
{
    let life = proposal.get_lifecycle();
    match check_approve(admin, config, &life) {
        Ok(()) => {},
        Err(e) => {
            return Err(e);
        },
    }
    open_perp_market(derived, proposal, market_account, config, now)
}

/// Approves a perpetual market proposal on the administrator's word and makes the
/// market. The market gets the next index, and its
/// account has to be the one at the address derived from that index.
pub fn process_approve_perp_market(
    program_id: &Address,
    admin: &Account,
    proposal: &mut PerpMarketProposal,
    market_account: &Account,
    config: &mut ListingConfig,
    now: i64,
) -> (res: Result<PerpMarket, ProcessError>)
    ensures
        admitted(
            approve_perp_outcome(
                pda_bump(market_account.key, perp_market_seeds(old(config).total_perp_markets), *program_id),
                *admin,
                *old(proposal),
                *market_account,
                *old(config),
                now,
            ),
            *old(proposal),
            *final(proposal),
            *old(config),
            *final(config),
            res,
        ),
{
    let derived = derive_perp_market_pda(config.total_perp_markets, program_id);
    proof {
        lemma_matched_bump(
            derived,
            market_account.key,
            perp_market_seeds(config.total_perp_markets),
            *program_id,
        );
    }
    approve_perp_market_at(&derived, admin, proposal, market_account, config, now)
}

/// Rejects a perpetual market proposal on the administrator's word. The reason code
/// is taken as given and has no part in the outcome. On success the result is
/// the part of the stake that `slash_percentage` forfeits.
pub fn process_reject_perp_market(
    admin: &Account,
    proposal: &mut PerpMarketProposal,
    config: &ListingConfig,
    reason_code: u8,
    slash_percentage: u8,
) -> (res: Result<u64, ProcessError>)
    ensures
        match reject_outcome(*admin, *config, old(proposal).lifecycle(), slash_percentage) {
            Ok(life) => *final(proposal) == old(proposal).with_lifecycle(life) && res == Ok::<
                u64,
                ProcessError,
            >(slash_on_reject(old(proposal).stake_amount, slash_percentage) as u64),
            Err(e) => *final(proposal) == *old(proposal) && res == Err::<u64, ProcessError>(e),
        },
{
    let mut life = proposal.get_lifecycle();
    let res = reject(admin, config, &mut life, slash_percentage);
    proposal.set_lifecycle(life);
    res
}

/// Withdraws a perpetual market proposal at its proposer's word. On success the
/// result is the amount that went back to the proposer.
pub fn process_cancel_perp_proposal(
    proposer: &mut Account,
    proposal: &mut PerpMarketProposal,
    config: &mut ListingConfig,
    treasury_account: &mut Account,
) -> (res: Result<u64, ProcessError>)
    ensures
        stake_result(
            cancel_outcome(
                stake_state(
                    *old(proposer),
                    *old(treasury_account),
                    *old(config),
                    old(proposal).lifecycle(),
                ),
                old(proposal).proposer,
            ),
            stake_state(
                *old(proposer),
                *old(treasury_account),
                *old(config),
                old(proposal).lifecycle(),
            ),
            stake_state(
                *final(proposer),
                *final(treasury_account),
                *final(config),
                final(proposal).lifecycle(),
            ),
            res,
        ),
        *final(proposal) == old(proposal).with_lifecycle(final(proposal).lifecycle()),
        res matches Ok(refund) ==> refund == refund_on_cancel(old(proposal).stake_amount),
{
    let mut life = proposal.get_lifecycle();
    let owner = proposal.proposer;
    let res = cancel(proposer, treasury_account, config, &mut life, &owner);
    proposal.set_lifecycle(life);
    res
}

/// What the approval of a perpetual market proposal at the end of its review leads
/// to. Anyone who signs may ask for it; objections block it once their stakes
/// exceed half of the proposal's stake.
pub open spec fn finalize_perp_outcome(
    bump: Option<u8>,
    caller: Account,
    proposal: PerpMarketProposal,
    market_account: Account,
    config: ListingConfig,
    now: i64,
) -> Result<(PerpMarketProposal, ListingConfig, PerpMarket), ProcessError> {
    match finalize_verdict(caller, proposal.lifecycle(), VetoRule::MajorityOfStake, now) {
        Ok(_) => admit_perp_market(bump, proposal, market_account, config, now),
        Err(e) => Err(e),
    }
}

/// Approves a perpetual market proposal whose review has ended without a blocking
/// share of objections, and makes the market, given the address that was derived for the
/// market.
pub fn finalize_perp_market_at(
    derived: &Option<(Address, u8)>,
    caller: &Account,
    proposal: &mut PerpMarketProposal,
    market_account: &Account,
    config: &mut ListingConfig,
    now: i64,
) -> (res: Result<PerpMarket, ProcessError>)
    ensures
        admitted(
            finalize_perp_outcome(
                matched_bump(*derived, market_account.key),
                *caller,
                *old(proposal),
                *market_account,
                *old(config),
                now,
            ),
            *old(proposal),
            *final(proposal),
            *old(config),
            *final(config),
            res,
        ),
{
    let life = proposal.get_lifecycle();
    match check_finalize(caller, &life, VetoRule::MajorityOfStake, now) {
        Ok(()) => {},
        Err(e) => {
            return Err(e);
        },
    }
    open_perp_market(derived, proposal, market_account, config, now)
}

/// Approves a perpetual market proposal whose review has ended without a blocking
/// share of objections, and makes the market. The market gets the next index, and its
/// account has to be the one at the address derived from that index.
pub fn process_finalize_perp_market(
    program_id: &Address,
    caller: &Account,
    proposal: &mut PerpMarketProposal,
    market_account: &Account,
    config: &mut ListingConfig,
    now: i64,
) -> (res: Result<PerpMarket, ProcessError>)
    ensures
        admitted(
            finalize_perp_outcome(
                pda_bump(market_account.key, perp_market_seeds(old(config).total_perp_markets), *program_id),
                *caller,
                *old(proposal),
                *market_account,
                *old(config),
                now,
            ),
            *old(proposal),
            *final(proposal),
            *old(config),
            *final(config),
            res,
        ),
{
    let derived = derive_perp_market_pda(config.total_perp_markets, program_id);
    proof {
        lemma_matched_bump(
            derived,
            market_account.key,
            perp_market_seeds(config.total_perp_markets),
            *program_id,
        );
    }
    finalize_perp_market_at(&derived, caller, proposal, market_account, config, now)
}

/// Gives the stake of an approved perpetual market proposal back to its proposer,
/// who presents a market made from a proposal of theirs; the lock period
/// counts from that market's approval.
pub fn process_claim_perp_stake(
    proposer: &mut Account,
    proposal: &mut PerpMarketProposal,
    market: &PerpMarket,
    config: &mut ListingConfig,
    treasury_account: &mut Account,
    now: i64,
) -> (res: Result<(), ProcessError>)
    ensures
        stake_result(
            claim_outcome(
                stake_state(
                    *old(proposer),
                    *old(treasury_account),
                    *old(config),
                    old(proposal).lifecycle(),
                ),
                old(proposal).proposer,
                market.proposer,
                market.approved_at,
                now,
            ),
            stake_state(
                *old(proposer),
                *old(treasury_account),
                *old(config),
                old(proposal).lifecycle(),
            ),
            stake_state(
                *final(proposer),
                *final(treasury_account),
                *final(config),
                final(proposal).lifecycle(),
            ),
            res,
        ),
        *final(proposal) == old(proposal).with_lifecycle(final(proposal).lifecycle()),
{
    let mut life = proposal.get_lifecycle();
    let owner = proposal.proposer;
    let res = claim(
        proposer,
        treasury_account,
        config,
        &mut life,
        &owner,
        &market.proposer,
        market.approved_at,
        now,
    );
    proposal.set_lifecycle(life);
    res
}

/// Switches a perpetual market on or off and pauses or resumes its trading, on the
/// administrator's word. What is not given stays as it is.
pub fn process_update_perp_status(
    admin: &Account,
    market: &mut PerpMarket,
    config: &ListingConfig,
    is_active: Option<bool>,
    is_paused: Option<bool>,
) -> (res: Result<(), ProcessError>)
    ensures
        res == admin_verdict(*admin, *config),
        *final(market) == if res is Ok {
            PerpMarket {
                is_active: updated(old(market).is_active, is_active),
                is_paused: updated(old(market).is_paused, is_paused),
                ..*old(market)
            }
        } else {
            *old(market)
        },
{
    match verify_admin(admin, config) {
        Ok(()) => {},
        Err(e) => {
            return Err(e);
        },
    }
    if let Some(active) = is_active {
        market.is_active = active;
    }
    if let Some(paused) = is_paused {
        market.is_paused = paused;
    }
    Ok(())
}

/// Whether the risk parameters of a perpetual market are within the bounds
/// that hold for a proposal.
pub open spec fn perp_risk_valid(market: PerpMarket) -> bool {
    &&& 1 <= market.max_leverage <= 100
    &&& margin_verdict(market.initial_margin_rate_e6, market.maintenance_margin_rate_e6) is Ok
    &&& valid_fee_rates(market.taker_fee_bps, market.maker_fee_bps)
}

/// What a change of a perpetual market's parameters leads to. What is not given
/// stays as it is. The leverage, the fees and each margin rate that is given
/// must be within the bounds that hold for a proposal, and where a margin rate
/// is given, the maintenance rate that results must be below the initial rate
/// that results.
pub open spec fn update_perp_params_outcome(
    admin: Account,
    market: PerpMarket,
    config: ListingConfig,
    max_leverage: Option<u8>,
    initial_margin_rate_e6: Option<u32>,
    maintenance_margin_rate_e6: Option<u32>,
    taker_fee_bps: Option<u16>,
    maker_fee_bps: Option<i16>,
    max_open_interest_e6: Option<u64>,
) -> Result<PerpMarket, ProcessError> {
    let initial = updated(market.initial_margin_rate_e6, initial_margin_rate_e6);
    let maintenance = updated(market.maintenance_margin_rate_e6, maintenance_margin_rate_e6);
    if admin_verdict(admin, config) is Err {
        Err(admin_verdict(admin, config)->Err_0)
    } else if max_leverage matches Some(leverage) && !(1 <= leverage <= 100) {
        Err(ProcessError::Listing(ListingError::InvalidLeverage))
    } else if initial_margin_rate_e6 matches Some(rate) && !(1 <= rate <= 1_000_000) {
        Err(ProcessError::Listing(ListingError::InvalidInitialMarginRate))
    } else if (initial_margin_rate_e6 is Some || maintenance_margin_rate_e6 is Some) && !(1
        <= maintenance <= 1_000_000 && maintenance < initial) {
        Err(ProcessError::Listing(ListingError::InvalidMaintenanceMarginRate))
    } else if taker_fee_bps matches Some(fee) && fee > 1000 {
        Err(ProcessError::Listing(ListingError::InvalidFeeRate))
    } else if maker_fee_bps matches Some(fee) && !(-500 <= fee <= 500) {
        Err(ProcessError::Listing(ListingError::InvalidFeeRate))
    } else {
        Ok(
            PerpMarket {
                max_leverage: updated(market.max_leverage, max_leverage),
                initial_margin_rate_e6: initial,
                maintenance_margin_rate_e6: maintenance,
                taker_fee_bps: updated(market.taker_fee_bps, taker_fee_bps),
                maker_fee_bps: updated(market.maker_fee_bps, maker_fee_bps),
                max_open_interest_e6: updated(market.max_open_interest_e6, max_open_interest_e6),
                ..market
            },
        )
    }
}

/// Changes the risk parameters of a perpetual market, on the administrator's
/// word.
pub fn process_update_perp_params(
    admin: &Account,
    market: &mut PerpMarket,
    config: &ListingConfig,
    max_leverage: Option<u8>,
    initial_margin_rate_e6: Option<u32>,
    maintenance_margin_rate_e6: Option<u32>,
    taker_fee_bps: Option<u16>,
    maker_fee_bps: Option<i16>,
    max_open_interest_e6: Option<u64>,
) -> (res: Result<(), ProcessError>)
    ensures
        match update_perp_params_outcome(
            *admin,
            *old(market),
            *config,
            max_leverage,
            initial_margin_rate_e6,
            maintenance_margin_rate_e6,
            taker_fee_bps,
            maker_fee_bps,
            max_open_interest_e6,
        ) {
            Ok(after) => res is Ok && *final(market) == after,
            Err(e) => res == Err::<(), ProcessError>(e) && *final(market) == *old(market),
        },
        res is Ok && perp_risk_valid(*old(market)) ==> perp_risk_valid(*final(market)),
{
    match verify_admin(admin, config) {
        Ok(()) => {},
        Err(e) => {
            return Err(e);
        },
    }
    if let Some(leverage) = max_leverage {
        if leverage == 0 || leverage > 100 {
            return Err(ProcessError::Listing(ListingError::InvalidLeverage));
        }
    }
    let mut initial: u32 = market.initial_margin_rate_e6;
    if let Some(rate) = initial_margin_rate_e6 {
        if rate == 0 || rate > 1_000_000 {
            return Err(ProcessError::Listing(ListingError::InvalidInitialMarginRate));
        }
        initial = rate;
    }
    let mut maintenance: u32 = market.maintenance_margin_rate_e6;
    if let Some(rate) = maintenance_margin_rate_e6 {
        maintenance = rate;
    }
    if initial_margin_rate_e6.is_some() || maintenance_margin_rate_e6.is_some() {
        if maintenance == 0 || maintenance > 1_000_000 || maintenance >= initial {
            return Err(ProcessError::Listing(ListingError::InvalidMaintenanceMarginRate));
        }
    }
    if let Some(fee) = taker_fee_bps {
        if fee > 1000 {
            return Err(ProcessError::Listing(ListingError::InvalidFeeRate));
        }
    }
    if let Some(fee) = maker_fee_bps {
        if fee < -500 || fee > 500 {
            return Err(ProcessError::Listing(ListingError::InvalidFeeRate));
        }
    }
    if let Some(leverage) = max_leverage {
        market.max_leverage = leverage;
    }
    market.initial_margin_rate_e6 = initial;
    market.maintenance_margin_rate_e6 = maintenance;
    if let Some(fee) = taker_fee_bps {
        market.taker_fee_bps = fee;
    }
    if let Some(fee) = maker_fee_bps {
        market.maker_fee_bps = fee;
    }
    if let Some(max_oi) = max_open_interest_e6 {
        market.max_open_interest_e6 = max_oi;
    }
    Ok(())
}

} // verus!
