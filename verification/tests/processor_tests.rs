use listing_program::address::Address;
use listing_program::error::{ListingError, ProcessError};
use listing_program::processor::admin::{
    process_initialize, process_set_paused, process_update_admin, process_update_review_periods,
    process_update_stake_config,
};
use listing_program::processor::perp::{
    process_approve_perp_market, process_finalize_perp_market, process_object_perp_market,
    process_propose_perp_market, process_update_perp_params, process_update_perp_status,
};
use listing_program::processor::pool::{
    process_adjust_liquidity_pool, process_fund_liquidity_pool, process_initialize_liquidity_pool,
    process_refresh_liquidity_orders, process_retire_liquidity_pool,
    process_withdraw_liquidity_profit, MarketRecord,
};
use listing_program::processor::spot::{
    process_approve_spot_market, process_cancel_spot_proposal, process_claim_spot_stake,
    process_finalize_spot_market, process_object_spot_market, process_propose_spot_market,
    process_reject_spot_market, process_update_spot_params, process_update_spot_status,
};
use listing_program::processor::token::{
    process_approve_token, process_cancel_token_proposal, process_claim_token_stake,
    process_finalize_token, process_object_token, process_propose_token, process_reject_token,
    process_update_token_status,
};
use listing_program::state::{
    Account, LiquidityPool, ListingConfig, MarketType, PerpMarket, PerpMarketProposal,
    ProposalStatus, SpotMarket, SpotMarketProposal, TokenProposal, TokenRegistry,
};
use listing_program::utils::{
    derive_creator_pool_pda, derive_listing_config_pda, derive_perp_market_pda,
    derive_perp_proposal_pda, derive_spot_market_pda, derive_spot_proposal_pda,
    derive_token_proposal_pda, derive_token_registry_pda, derive_treasury_pda,
};

const NOW: i64 = 1_700_000_000;

fn listing(reason: ListingError) -> ProcessError {
    ProcessError::Listing(reason)
}

fn program() -> Address {
    Address::new_from_array([7; 32])
}

fn wallet(tag: u8, lamports: u64) -> Account {
    Account {
        key: Address::new_from_array([tag; 32]),
        owner: Address::default(),
        lamports,
        is_signer: true,
        data_is_empty: true,
    }
}

fn empty_at(found: Option<(Address, u8)>) -> Account {
    Account {
        key: found.unwrap().0,
        owner: Address::default(),
        lamports: 0,
        is_signer: false,
        data_is_empty: true,
    }
}

fn admin() -> Account {
    wallet(1, 0)
}

/// The configuration after set-up, and the treasury account.
fn set_up() -> (ListingConfig, Account) {
    let treasury = empty_at(derive_treasury_pda(&program()));
    let made = process_initialize(
        &program(),
        &admin(),
        &empty_at(derive_listing_config_pda(&program())),
        &treasury,
        Address::new_from_array([21; 32]),
        Address::new_from_array([22; 32]),
        Address::new_from_array([23; 32]),
    )
    .unwrap();
    (made.config, treasury)
}

/// A set-up in which the three stakes are small numbers, as in the worked examples.
fn set_up_with_stakes(token: u64, spot: u64, perp: u64) -> (ListingConfig, Account) {
    let (mut config, treasury) = set_up();
    process_update_stake_config(&admin(), &mut config, Some(token), Some(spot), Some(perp)).unwrap();
    (config, treasury)
}

fn symbol8(text: &[u8]) -> [u8; 8] {
    let mut symbol = [0u8; 8];
    symbol[..text.len()].copy_from_slice(text);
    symbol
}

fn symbol16(text: &[u8]) -> [u8; 16] {
    let mut symbol = [0u8; 16];
    symbol[..text.len()].copy_from_slice(text);
    symbol
}

fn mint() -> Account {
    wallet(40, 0)
}

fn propose_token(
    proposer: &mut Account,
    config: &mut ListingConfig,
    treasury: &mut Account,
    nonce: u64,
    symbol: &[u8],
) -> Result<TokenProposal, ProcessError> {
    let slot = empty_at(derive_token_proposal_pda(&proposer.key, nonce, &program()));
    process_propose_token(
        &program(),
        proposer,
        &slot,
        config,
        treasury,
        &mint(),
        nonce,
        symbol8(symbol),
        mint().key,
        9,
        None,
        NOW,
    )
}

fn approve_token(
    proposal: &mut TokenProposal,
    config: &mut ListingConfig,
    now: i64,
) -> Result<TokenRegistry, ProcessError> {
    let slot = empty_at(derive_token_registry_pda(config.total_tokens, &program()));
    process_approve_token(&program(), &admin(), proposal, &slot, config, now)
}

fn finalize_token(
    proposal: &mut TokenProposal,
    config: &mut ListingConfig,
    now: i64,
) -> Result<TokenRegistry, ProcessError> {
    let slot = empty_at(derive_token_registry_pda(config.total_tokens, &program()));
    process_finalize_token(&program(), &wallet(77, 0), proposal, &slot, config, now)
}

fn token(index: u16, is_active: bool) -> TokenRegistry {
    TokenRegistry {
        discriminator: TokenRegistry::DISCRIMINATOR,
        version: 1,
        token_index: index,
        symbol: symbol8(b"TOK"),
        mint: mint().key,
        decimals: 6,
        oracle: None,
        is_active,
        proposer: wallet(2, 0).key,
        approved_at: NOW,
        bump: 255,
        reserved: [0u8; 64],
    }
}

fn propose_spot(
    proposer: &mut Account,
    config: &mut ListingConfig,
    treasury: &mut Account,
    nonce: u64,
) -> Result<SpotMarketProposal, ProcessError> {
    let slot = empty_at(derive_spot_proposal_pda(&proposer.key, nonce, &program()));
    process_propose_spot_market(
        &program(),
        proposer,
        &slot,
        config,
        &token(0, true),
        &token(1, true),
        treasury,
        nonce,
        symbol16(b"BTC/USDC"),
        0,
        1,
        1000,
        1000,
        10,
        -5,
        1_000_000,
        1_000_000_000_000,
        NOW,
    )
}

fn finalize_spot(
    proposal: &mut SpotMarketProposal,
    config: &mut ListingConfig,
    now: i64,
) -> Result<SpotMarket, ProcessError> {
    let slot = empty_at(derive_spot_market_pda(config.total_spot_markets, &program()));
    process_finalize_spot_market(&program(), &wallet(77, 0), proposal, &slot, config, now)
}

fn propose_perp(
    proposer: &mut Account,
    config: &mut ListingConfig,
    treasury: &mut Account,
    nonce: u64,
) -> Result<PerpMarketProposal, ProcessError> {
    let slot = empty_at(derive_perp_proposal_pda(&proposer.key, nonce, &program()));
    let oracle = wallet(50, 0);
    process_propose_perp_market(
        &program(),
        proposer,
        &slot,
        config,
        &token(0, true),
        &token(1, true),
        &oracle,
        &None,
        treasury,
        nonce,
        symbol16(b"BTC-USDC"),
        0,
        1,
        oracle.key,
        1000,
        1000,
        20,
        100_000,
        50_000,
        10,
        -5,
        1_000_000,
        1_000_000_000_000,
        5_000_000_000,
        7_000_000,
        NOW,
    )
}

#[test]
fn initialize_makes_the_default_configuration() {
    let (config, treasury) = set_up();
    assert_eq!(config.admin, admin().key);
    assert_eq!(config.treasury, treasury.key);
    assert_eq!(config.vault_program, Address::new_from_array([21; 32]));
    assert_eq!(config.token_stake_amount, 1_000_000_000_000);
    assert_eq!(config.spot_stake_amount, 2_000_000_000_000);
    assert_eq!(config.perp_stake_amount, 5_000_000_000_000);
    assert_eq!(config.token_review_period_seconds, 604_800);
    assert_eq!(config.perp_review_period_seconds, 1_209_600);
    assert_eq!(config.stake_lock_period_seconds, 2_592_000);
    assert_eq!(
        (config.total_tokens, config.total_spot_markets, config.total_perp_markets),
        (0, 0, 0)
    );
    assert_eq!(config.total_staked_lamports, 0);
    assert!(!config.is_paused);
    assert_eq!(config.bump, derive_listing_config_pda(&program()).unwrap().1);
    assert_eq!(config.version, 1);
}

#[test]
fn initialize_refuses_wrong_accounts_and_a_second_run() {
    let config_slot = empty_at(derive_listing_config_pda(&program()));
    let treasury = empty_at(derive_treasury_pda(&program()));
    let a = Address::default();
    let mut unsigned = admin();
    unsigned.is_signer = false;
    assert_eq!(
        process_initialize(&program(), &unsigned, &config_slot, &treasury, a, a, a),
        Err(ProcessError::MissingRequiredSignature)
    );
    assert_eq!(
        process_initialize(&program(), &admin(), &treasury, &treasury, a, a, a),
        Err(listing(ListingError::InvalidPda))
    );
    assert_eq!(
        process_initialize(&program(), &admin(), &config_slot, &config_slot, a, a, a),
        Err(listing(ListingError::InvalidPda))
    );
    let mut taken = config_slot;
    taken.data_is_empty = false;
    assert_eq!(
        process_initialize(&program(), &admin(), &taken, &treasury, a, a, a),
        Err(listing(ListingError::AlreadyInitialized))
    );
    let mut existing = treasury;
    existing.data_is_empty = false;
    let made = process_initialize(&program(), &admin(), &config_slot, &existing, a, a, a).unwrap();
    assert!(!made.create_treasury);
    assert_eq!(made.treasury_bump, derive_treasury_pda(&program()).unwrap().1);
    let made = process_initialize(&program(), &admin(), &config_slot, &treasury, a, a, a).unwrap();
    assert!(made.create_treasury);
}

#[test]
fn administrator_changes_single_fields() {
    let (mut config, _) = set_up();
    let before = config;
    let stranger = wallet(9, 0);
    assert_eq!(
        process_set_paused(&stranger, &mut config, true),
        Err(listing(ListingError::InvalidAdmin))
    );
    assert_eq!(config, before);
    process_set_paused(&admin(), &mut config, true).unwrap();
    assert!(config.is_paused);
    process_update_stake_config(&admin(), &mut config, Some(5), None, Some(7)).unwrap();
    assert_eq!(
        (config.token_stake_amount, config.spot_stake_amount, config.perp_stake_amount),
        (5, 2_000_000_000_000, 7)
    );
    process_update_review_periods(&admin(), &mut config, None, Some(11), None, Some(13)).unwrap();
    assert_eq!(config.token_review_period_seconds, 604_800);
    assert_eq!(config.spot_review_period_seconds, 11);
    assert_eq!(config.perp_review_period_seconds, 1_209_600);
    assert_eq!(config.stake_lock_period_seconds, 13);
    process_update_admin(&admin(), &mut config, stranger.key).unwrap();
    assert_eq!(config.admin, stranger.key);
    assert_eq!(
        process_set_paused(&admin(), &mut config, false),
        Err(listing(ListingError::InvalidAdmin))
    );
    assert_eq!(process_set_paused(&stranger, &mut config, false), Ok(()));
}

#[test]
fn propose_token_takes_the_stake_and_opens_the_review() {
    let (mut config, mut treasury) = set_up_with_stakes(1000, 2000, 5000);
    let mut proposer = wallet(2, 1500);
    let proposal = propose_token(&mut proposer, &mut config, &mut treasury, 1, b"BTC").unwrap();
    assert_eq!(proposer.lamports, 500);
    assert_eq!(treasury.lamports, 1000);
    assert_eq!(config.total_staked_lamports, 1000);
    assert_eq!(proposal.proposer, proposer.key);
    assert_eq!(proposal.nonce, 1);
    assert_eq!(proposal.symbol, symbol8(b"BTC"));
    assert_eq!(proposal.decimals, 9);
    assert_eq!(proposal.stake_amount, 1000);
    assert_eq!(proposal.status, ProposalStatus::Pending);
    assert_eq!(proposal.created_at, NOW);
    assert_eq!(proposal.review_deadline, NOW + 604_800);
    assert_eq!((proposal.objection_count, proposal.objection_stake), (0, 0));
    assert!(!proposal.stake_claimed);
    assert_eq!(proposal.bump, derive_token_proposal_pda(&proposer.key, 1, &program()).unwrap().1);
    // A later change of the stake does not reach the proposal.
    process_update_stake_config(&admin(), &mut config, Some(1), None, None).unwrap();
    assert_eq!(proposal.stake_amount, 1000);
}

#[test]
fn propose_token_refusals() {
    let (mut config, mut treasury) = set_up_with_stakes(1000, 2000, 5000);
    let mut proposer = wallet(2, 1500);
    let before = (proposer, config, treasury);
    let slot = empty_at(derive_token_proposal_pda(&proposer.key, 1, &program()));
    let sym = symbol8(b"BTC");
    let m = mint();

    let mut unsigned = proposer;
    unsigned.is_signer = false;
    assert_eq!(
        process_propose_token(&program(), &mut unsigned, &slot, &mut config, &mut treasury, &m, 1, sym, m.key, 9, None, NOW),
        Err(ProcessError::MissingRequiredSignature)
    );
    let mut paused = config;
    paused.is_paused = true;
    assert_eq!(
        process_propose_token(&program(), &mut proposer, &slot, &mut paused, &mut treasury, &m, 1, sym, m.key, 9, None, NOW),
        Err(listing(ListingError::ListingPaused))
    );
    let mut other_treasury = wallet(60, 0);
    assert_eq!(
        process_propose_token(&program(), &mut proposer, &slot, &mut config, &mut other_treasury, &m, 1, sym, m.key, 9, None, NOW),
        Err(listing(ListingError::InvalidAccount))
    );
    // The slot of another nonce is not this proposal's address.
    assert_eq!(
        process_propose_token(&program(), &mut proposer, &slot, &mut config, &mut treasury, &m, 2, sym, m.key, 9, None, NOW),
        Err(listing(ListingError::InvalidPda))
    );
    assert_eq!(
        process_propose_token(&program(), &mut proposer, &slot, &mut config, &mut treasury, &m, 1, symbol8(b"btc"), m.key, 9, None, NOW),
        Err(listing(ListingError::InvalidSymbol))
    );
    assert_eq!(
        process_propose_token(&program(), &mut proposer, &slot, &mut config, &mut treasury, &m, 1, sym, m.key, 19, None, NOW),
        Err(listing(ListingError::InvalidDecimals))
    );
    assert_eq!(
        process_propose_token(&program(), &mut proposer, &slot, &mut config, &mut treasury, &m, 1, sym, wallet(41, 0).key, 9, None, NOW),
        Err(listing(ListingError::InvalidAccount))
    );
    let mut poor = wallet(2, 999);
    assert_eq!(
        process_propose_token(&program(), &mut poor, &slot, &mut config, &mut treasury, &m, 1, sym, m.key, 9, None, NOW),
        Err(listing(ListingError::InsufficientStake))
    );
    let mut counted = config;
    counted.total_staked_lamports = u64::MAX - 999;
    assert_eq!(
        process_propose_token(&program(), &mut proposer, &slot, &mut counted, &mut treasury, &m, 1, sym, m.key, 9, None, NOW),
        Err(listing(ListingError::Overflow))
    );
    assert_eq!(
        process_propose_token(&program(), &mut proposer, &slot, &mut config, &mut treasury, &m, 1, sym, m.key, 9, None, i64::MAX - 604_799),
        Err(listing(ListingError::Overflow))
    );
    let mut full = treasury;
    full.lamports = u64::MAX;
    assert_eq!(
        process_propose_token(&program(), &mut proposer, &slot, &mut config, &mut full, &m, 1, sym, m.key, 9, None, NOW),
        Err(ProcessError::ArithmeticOverflow)
    );
    // Nothing was touched by any of the refusals.
    assert_eq!((proposer, config, treasury), before);
}

#[test]
fn proposing_twice_under_one_nonce_is_refused_whatever_the_payload() {
    let (mut config, mut treasury) = set_up_with_stakes(1000, 2000, 5000);
    let mut proposer = wallet(2, 5000);
    let mut slot = empty_at(derive_token_proposal_pda(&proposer.key, 1, &program()));
    let m = mint();
    process_propose_token(&program(), &mut proposer, &slot, &mut config, &mut treasury, &m, 1, symbol8(b"BTC"), m.key, 9, None, NOW).unwrap();
    slot.data_is_empty = false;
    let before = (proposer, config, treasury);
    let taken = Err(listing(ListingError::AlreadyInitialized));
    assert_eq!(
        process_propose_token(&program(), &mut proposer, &slot, &mut config, &mut treasury, &m, 1, symbol8(b"BTC"), m.key, 9, None, NOW),
        taken
    );
    assert_eq!(
        process_propose_token(&program(), &mut proposer, &slot, &mut config, &mut treasury, &m, 1, symbol8(b"ETH"), m.key, 6, Some(m.key), NOW + 5),
        taken
    );
    // Also with a payload that would be refused on its own.
    assert_eq!(
        process_propose_token(&program(), &mut proposer, &slot, &mut config, &mut treasury, &m, 1, symbol8(b"x"), wallet(41, 0).key, 99, None, NOW),
        taken
    );
    assert_eq!((proposer, config, treasury), before);

    let mut spot_slot = empty_at(derive_spot_proposal_pda(&proposer.key, 1, &program()));
    spot_slot.data_is_empty = false;
    assert_eq!(
        process_propose_spot_market(&program(), &mut proposer, &spot_slot, &mut config, &token(0, false), &token(0, true), &mut treasury, 1, symbol16(b"bad"), 0, 0, 0, 0, 5000, 900, 0, 0, NOW),
        Err(listing(ListingError::AlreadyInitialized))
    );
    let mut perp_slot = empty_at(derive_perp_proposal_pda(&proposer.key, 1, &program()));
    perp_slot.data_is_empty = false;
    let oracle = wallet(50, 0);
    assert_eq!(
        process_propose_perp_market(&program(), &mut proposer, &perp_slot, &mut config, &token(0, false), &token(0, true), &oracle, &None, &mut treasury, 1, symbol16(b"bad"), 0, 0, m.key, 0, 0, 0, 0, 0, 5000, 900, 0, 0, 0, 0, NOW),
        Err(listing(ListingError::AlreadyInitialized))
    );
    assert_eq!((proposer, config, treasury), before);
}

#[test]
fn objections_are_counted_until_the_deadline() {
    let (mut config, mut treasury) = set_up_with_stakes(1000, 2000, 5000);
    let mut proposer = wallet(2, 1000);
    let mut proposal = propose_token(&mut proposer, &mut config, &mut treasury, 1, b"BTC").unwrap();
    let deadline = proposal.review_deadline;
    let mut objector = wallet(3, 1000);
    process_object_token(&mut objector, &mut proposal, &mut config, &mut treasury, 400, NOW + 1).unwrap();
    // At the deadline itself an objection is still accepted.
    process_object_token(&mut objector, &mut proposal, &mut config, &mut treasury, 0, deadline).unwrap();
    assert_eq!((proposal.objection_count, proposal.objection_stake), (2, 400));
    assert_eq!((objector.lamports, treasury.lamports, config.total_staked_lamports), (600, 1400, 1400));
    let before = (objector, proposal, config, treasury);
    assert_eq!(
        process_object_token(&mut objector, &mut proposal, &mut config, &mut treasury, 1, deadline + 1),
        Err(listing(ListingError::ReviewDeadlinePassed))
    );
    assert_eq!(
        process_object_token(&mut objector, &mut proposal, &mut config, &mut treasury, 601, NOW),
        Err(listing(ListingError::InsufficientStake))
    );
    let mut unsigned = objector;
    unsigned.is_signer = false;
    assert_eq!(
        process_object_token(&mut unsigned, &mut proposal, &mut config, &mut treasury, 1, NOW),
        Err(ProcessError::MissingRequiredSignature)
    );
    let mut other = wallet(60, 0);
    assert_eq!(
        process_object_token(&mut objector, &mut proposal, &mut config, &mut other, 1, NOW),
        Err(listing(ListingError::InvalidAccount))
    );
    let mut crowded = proposal;
    crowded.objection_count = u16::MAX;
    assert_eq!(
        process_object_token(&mut objector, &mut crowded, &mut config, &mut treasury, 1, NOW),
        Err(listing(ListingError::Overflow))
    );
    let mut heavy = proposal;
    heavy.objection_stake = u64::MAX;
    assert_eq!(
        process_object_token(&mut objector, &mut heavy, &mut config, &mut treasury, 1, NOW),
        Err(listing(ListingError::Overflow))
    );
    let mut rejected = proposal;
    rejected.status = ProposalStatus::Rejected;
    assert_eq!(
        process_object_token(&mut objector, &mut rejected, &mut config, &mut treasury, 1, NOW),
        Err(listing(ListingError::ProposalNotPending))
    );
    assert_eq!((objector, proposal, config, treasury), before);
}

#[test]
fn approval_by_the_administrator_ignores_objections() {
    let (mut config, mut treasury) = set_up_with_stakes(1000, 2000, 5000);
    let mut proposer = wallet(2, 1000);
    let mut proposal = propose_token(&mut proposer, &mut config, &mut treasury, 1, b"BTC").unwrap();
    let mut objector = wallet(3, 5000);
    process_object_token(&mut objector, &mut proposal, &mut config, &mut treasury, 5000, NOW).unwrap();
    let slot = empty_at(derive_token_registry_pda(0, &program()));
    assert_eq!(
        process_approve_token(&program(), &wallet(9, 0), &mut proposal, &slot, &mut config, NOW + 3),
        Err(listing(ListingError::InvalidAdmin))
    );
    let wrong = empty_at(derive_token_registry_pda(1, &program()));
    assert_eq!(
        process_approve_token(&program(), &admin(), &mut proposal, &wrong, &mut config, NOW + 3),
        Err(listing(ListingError::InvalidPda))
    );
    let mut taken = slot;
    taken.data_is_empty = false;
    assert_eq!(
        process_approve_token(&program(), &admin(), &mut proposal, &taken, &mut config, NOW + 3),
        Err(listing(ListingError::AlreadyInitialized))
    );
    assert_eq!((proposal.status, config.total_tokens), (ProposalStatus::Pending, 0));
    let entry = process_approve_token(&program(), &admin(), &mut proposal, &slot, &mut config, NOW + 3).unwrap();
    assert_eq!(proposal.status, ProposalStatus::Approved);
    assert_eq!(config.total_tokens, 1);
    assert_eq!(config.total_staked_lamports, 6000);
    assert_eq!(entry.token_index, 0);
    assert_eq!(entry.symbol, proposal.symbol);
    assert_eq!(entry.mint, proposal.mint);
    assert_eq!(entry.decimals, 9);
    assert_eq!(entry.oracle, None);
    assert!(entry.is_active);
    assert_eq!(entry.proposer, proposer.key);
    assert_eq!(entry.approved_at, NOW + 3);
    assert_eq!(entry.bump, derive_token_registry_pda(0, &program()).unwrap().1);
    // An approved proposal cannot be approved, rejected or finalized again.
    assert_eq!(approve_token(&mut proposal, &mut config, NOW + 4), Err(listing(ListingError::ProposalNotPending)));
    assert_eq!(
        process_reject_token(&admin(), &mut proposal, &config, 0, 0),
        Err(listing(ListingError::ProposalNotPending))
    );
    assert_eq!(
        finalize_token(&mut proposal, &mut config, NOW + 10_000_000),
        Err(listing(ListingError::ProposalNotPending))
    );
    let mut full = config;
    full.total_tokens = u16::MAX;
    let mut fresh = proposal;
    fresh.status = ProposalStatus::Pending;
    assert_eq!(approve_token(&mut fresh, &mut full, NOW), Err(listing(ListingError::Overflow)));
}

#[test]
fn indices_are_dense_under_interleaving() {
    let (mut config, mut treasury) = set_up_with_stakes(10, 20, 50);
    let mut proposer = wallet(2, 10_000);
    let mut a = propose_token(&mut proposer, &mut config, &mut treasury, 1, b"AAA").unwrap();
    let mut b = propose_token(&mut proposer, &mut config, &mut treasury, 2, b"BBB").unwrap();
    let mut c = propose_token(&mut proposer, &mut config, &mut treasury, 3, b"CCC").unwrap();
    let mut d = propose_token(&mut proposer, &mut config, &mut treasury, 4, b"DDD").unwrap();
    let mut e = propose_token(&mut proposer, &mut config, &mut treasury, 5, b"EEE").unwrap();
    let mut s = propose_spot(&mut proposer, &mut config, &mut treasury, 1).unwrap();
    let mut p = propose_perp(&mut proposer, &mut config, &mut treasury, 1).unwrap();
    let late = NOW + 10_000_000;
    assert_eq!(approve_token(&mut a, &mut config, NOW).unwrap().token_index, 0);
    process_reject_token(&admin(), &mut b, &config, 1, 50).unwrap();
    assert_eq!(finalize_spot(&mut s, &mut config, late).unwrap().market_index, 0);
    assert_eq!(finalize_token(&mut c, &mut config, late).unwrap().token_index, 1);
    process_cancel_token_proposal(&mut proposer, &mut d, &mut config, &mut treasury).unwrap();
    let perp_slot = empty_at(derive_perp_market_pda(0, &program()));
    assert_eq!(
        process_approve_perp_market(&program(), &admin(), &mut p, &perp_slot, &mut config, NOW).unwrap().market_index,
        0
    );
    assert_eq!(approve_token(&mut e, &mut config, NOW).unwrap().token_index, 2);
    assert_eq!(
        (config.total_tokens, config.total_spot_markets, config.total_perp_markets),
        (3, 1, 1)
    );
}

#[test]
fn rejection_keeps_the_stake_counted() {
    let (mut config, mut treasury) = set_up_with_stakes(1000, 2000, 5000);
    let mut proposer = wallet(2, 1000);
    let mut proposal = propose_token(&mut proposer, &mut config, &mut treasury, 1, b"BTC").unwrap();
    assert_eq!(
        process_reject_token(&wallet(9, 0), &mut proposal, &config, 1, 30),
        Err(listing(ListingError::InvalidAdmin))
    );
    assert_eq!(
        process_reject_token(&admin(), &mut proposal, &config, 1, 101),
        Err(listing(ListingError::InvalidAmount))
    );
    assert_eq!(proposal.status, ProposalStatus::Pending);
    assert_eq!(process_reject_token(&admin(), &mut proposal, &config, 1, 33), Ok(330));
    assert_eq!(proposal.status, ProposalStatus::Rejected);
    assert_eq!((treasury.lamports, config.total_staked_lamports, proposer.lamports), (1000, 1000, 0));
    let mut big = proposal;
    big.status = ProposalStatus::Pending;
    big.stake_amount = u64::MAX;
    assert_eq!(process_reject_token(&admin(), &mut big, &config, 1, 100), Ok(u64::MAX));
    big.status = ProposalStatus::Pending;
    assert_eq!(process_reject_token(&admin(), &mut big, &config, 1, 0), Ok(0));
}

#[test]
fn cancellation_refunds_ninety_five_percent() {
    let (mut config, mut treasury) = set_up_with_stakes(1000, 2001, 5000);
    let mut proposer = wallet(2, 5000);
    let mut token_proposal = propose_token(&mut proposer, &mut config, &mut treasury, 1, b"BTC").unwrap();
    let mut spot_proposal = propose_spot(&mut proposer, &mut config, &mut treasury, 1).unwrap();
    assert_eq!((proposer.lamports, treasury.lamports, config.total_staked_lamports), (1999, 3001, 3001));
    let mut stranger = wallet(9, 0);
    assert_eq!(
        process_cancel_token_proposal(&mut stranger, &mut token_proposal, &mut config, &mut treasury),
        Err(listing(ListingError::NotProposer))
    );
    assert_eq!(
        process_cancel_token_proposal(&mut proposer, &mut token_proposal, &mut config, &mut treasury),
        Ok(950)
    );
    assert_eq!(token_proposal.status, ProposalStatus::Cancelled);
    assert_eq!((proposer.lamports, treasury.lamports, config.total_staked_lamports), (2949, 2051, 2051));
    // 95% of 2001 is 1900.95: rounded down.
    assert_eq!(
        process_cancel_spot_proposal(&mut proposer, &mut spot_proposal, &mut config, &mut treasury),
        Ok(1900)
    );
    assert_eq!((proposer.lamports, treasury.lamports, config.total_staked_lamports), (4849, 151, 151));
    assert_eq!(
        process_cancel_spot_proposal(&mut proposer, &mut spot_proposal, &mut config, &mut treasury),
        Err(listing(ListingError::ProposalNotPending))
    );
    // A treasury or a count that cannot give the refund leaves everything as it is.
    let mut again = token_proposal;
    again.status = ProposalStatus::Pending;
    let before = (proposer, again, config, treasury);
    assert_eq!(
        process_cancel_token_proposal(&mut proposer, &mut again, &mut config, &mut treasury),
        Err(ProcessError::InsufficientFunds)
    );
    let mut rich = treasury;
    rich.lamports = 10_000;
    assert_eq!(
        process_cancel_token_proposal(&mut proposer, &mut again, &mut config, &mut rich),
        Err(listing(ListingError::Overflow))
    );
    assert_eq!((proposer, again, config, treasury), before);
}

#[test]
fn veto_thresholds_at_finalization() {
    let (mut config, mut treasury) = set_up_with_stakes(1000, 2001, 5000);
    let mut proposer = wallet(2, 100_000);
    let mut objector = wallet(3, 100_000);
    let late = NOW + 604_800 + 1;

    // Spot: half of 2001 is 1000; 1000 passes, 1001 blocks.
    let mut at_half = propose_spot(&mut proposer, &mut config, &mut treasury, 1).unwrap();
    process_object_spot_market(&mut objector, &mut at_half, &mut config, &mut treasury, 1000, NOW).unwrap();
    let mut above_half = propose_spot(&mut proposer, &mut config, &mut treasury, 2).unwrap();
    process_object_spot_market(&mut objector, &mut above_half, &mut config, &mut treasury, 1001, NOW).unwrap();
    assert_eq!(
        finalize_spot(&mut above_half, &mut config, late),
        Err(listing(ListingError::ProposalNotPending))
    );
    assert_eq!(above_half.status, ProposalStatus::Pending);
    let market = finalize_spot(&mut at_half, &mut config, late).unwrap();
    assert_eq!(at_half.status, ProposalStatus::Approved);
    assert_eq!(market.approved_at, late);
    assert!(market.is_active && !market.is_paused);
    assert_eq!(market.symbol, symbol16(b"BTC/USDC"));
    assert_eq!((market.base_token_index, market.quote_token_index), (0, 1));
    assert_eq!((market.taker_fee_bps, market.maker_fee_bps), (10, -5));
    // The administrator can still approve what objections block.
    let slot = empty_at(derive_spot_market_pda(1, &program()));
    assert_eq!(
        process_approve_spot_market(&program(), &admin(), &mut above_half, &slot, &mut config, late).unwrap().market_index,
        1
    );

    // Perp: half of 5000 is 2500.
    let perp_late = NOW + 1_209_600 + 1;
    let mut perp_ok = propose_perp(&mut proposer, &mut config, &mut treasury, 1).unwrap();
    process_object_perp_market(&mut objector, &mut perp_ok, &mut config, &mut treasury, 2500, NOW).unwrap();
    let mut perp_blocked = propose_perp(&mut proposer, &mut config, &mut treasury, 2).unwrap();
    process_object_perp_market(&mut objector, &mut perp_blocked, &mut config, &mut treasury, 2501, NOW).unwrap();
    let perp_slot = empty_at(derive_perp_market_pda(0, &program()));
    assert_eq!(
        process_finalize_perp_market(&program(), &wallet(77, 0), &mut perp_blocked, &perp_slot, &mut config, perp_late),
        Err(listing(ListingError::ProposalNotPending))
    );
    let perp = process_finalize_perp_market(&program(), &wallet(77, 0), &mut perp_ok, &perp_slot, &mut config, perp_late).unwrap();
    assert_eq!(perp.market_index, 0);
    assert_eq!((perp.current_open_interest_long_e6, perp.current_open_interest_short_e6), (0, 0));
    assert_eq!((perp.funding_rate_e9, perp.last_funding_ts), (0, perp_late));
    assert_eq!((perp.max_leverage, perp.initial_margin_rate_e6, perp.maintenance_margin_rate_e6), (20, 100_000, 50_000));
    assert_eq!((perp.max_open_interest_e6, perp.insurance_fund_deposit_e6), (5_000_000_000, 7_000_000));
    assert_eq!(perp.oracle, wallet(50, 0).key);

    // Token: one objection blocks, whatever its stake.
    let mut token_proposal = propose_token(&mut proposer, &mut config, &mut treasury, 1, b"BTC").unwrap();
    let mut unopposed = propose_token(&mut proposer, &mut config, &mut treasury, 2, b"ETH").unwrap();
    process_object_token(&mut objector, &mut token_proposal, &mut config, &mut treasury, 0, NOW).unwrap();
    assert_eq!(
        finalize_token(&mut token_proposal, &mut config, late),
        Err(listing(ListingError::ProposalNotPending))
    );
    // Not before the deadline has passed.
    assert_eq!(
        finalize_token(&mut unopposed, &mut config, late - 1),
        Err(listing(ListingError::ReviewDeadlineNotReached))
    );
    let mut unsigned = wallet(77, 0);
    unsigned.is_signer = false;
    let slot = empty_at(derive_token_registry_pda(0, &program()));
    assert_eq!(
        process_finalize_token(&program(), &unsigned, &mut unopposed, &slot, &mut config, late),
        Err(ProcessError::MissingRequiredSignature)
    );
    assert_eq!(finalize_token(&mut unopposed, &mut config, late).unwrap().token_index, 0);
}

#[test]
fn worked_example_of_two_objections() {
    let (mut config, mut treasury) = set_up_with_stakes(1000, 2000, 5000);
    let mut proposer = wallet(2, 10_000);
    let mut first = wallet(3, 10_000);
    let mut second = wallet(4, 10_000);
    let late = NOW + 604_800 + 1;

    let mut token_proposal = propose_token(&mut proposer, &mut config, &mut treasury, 1, b"BTC").unwrap();
    process_object_token(&mut first, &mut token_proposal, &mut config, &mut treasury, 400, NOW).unwrap();
    process_object_token(&mut second, &mut token_proposal, &mut config, &mut treasury, 700, NOW).unwrap();
    assert_eq!((token_proposal.objection_count, token_proposal.objection_stake), (2, 1100));
    assert_eq!(
        finalize_token(&mut token_proposal, &mut config, late),
        Err(listing(ListingError::ProposalNotPending))
    );

    let mut spot_proposal = propose_spot(&mut proposer, &mut config, &mut treasury, 1).unwrap();
    assert_eq!(spot_proposal.stake_amount, 2000);
    process_object_spot_market(&mut first, &mut spot_proposal, &mut config, &mut treasury, 400, NOW).unwrap();
    process_object_spot_market(&mut second, &mut spot_proposal, &mut config, &mut treasury, 700, NOW).unwrap();
    assert_eq!(
        finalize_spot(&mut spot_proposal, &mut config, late),
        Err(listing(ListingError::ProposalNotPending))
    );
    assert_eq!(config.total_staked_lamports, 1000 + 1100 + 2000 + 1100);
    assert_eq!(treasury.lamports, 5200);
}

#[test]
fn stake_is_locked_then_claimed_once() {
    let (mut config, mut treasury) = set_up_with_stakes(1000, 2000, 5000);
    let mut proposer = wallet(2, 1000);
    let mut proposal = propose_token(&mut proposer, &mut config, &mut treasury, 1, b"BTC").unwrap();
    let approved_at = NOW + 100;
    let entry = approve_token(&mut proposal, &mut config, approved_at).unwrap();
    let unlock = approved_at + 2_592_000;
    let before = (proposer, proposal, config, treasury);
    assert_eq!(
        process_claim_token_stake(&mut proposer, &mut proposal, &entry, &mut config, &mut treasury, unlock - 1),
        Err(listing(ListingError::StakeLockPeriodNotEnded))
    );
    assert_eq!((proposer, proposal, config, treasury), before);
    assert_eq!(
        process_claim_token_stake(&mut proposer, &mut proposal, &entry, &mut config, &mut treasury, unlock),
        Ok(())
    );
    assert!(proposal.stake_claimed);
    assert_eq!((proposer.lamports, treasury.lamports, config.total_staked_lamports), (1000, 0, 0));
    assert_eq!(
        process_claim_token_stake(&mut proposer, &mut proposal, &entry, &mut config, &mut treasury, unlock),
        Err(listing(ListingError::StakeAlreadyClaimed))
    );
    assert_eq!((proposer.lamports, treasury.lamports, config.total_staked_lamports), (1000, 0, 0));
}

#[test]
fn claim_refusals() {
    let (mut config, mut treasury) = set_up_with_stakes(1000, 2000, 5000);
    let mut proposer = wallet(2, 5000);
    let mut proposal = propose_spot(&mut proposer, &mut config, &mut treasury, 1).unwrap();
    let late = NOW + 100_000_000;
    let pending_market = SpotMarket {
        discriminator: SpotMarket::DISCRIMINATOR,
        version: 1,
        market_index: 0,
        symbol: symbol16(b"BTC/USDC"),
        base_token_index: 0,
        quote_token_index: 1,
        tick_size_e6: 1,
        lot_size_e6: 1,
        taker_fee_bps: 0,
        maker_fee_bps: 0,
        min_order_size_e6: 0,
        max_order_size_e6: 0,
        is_active: true,
        is_paused: false,
        proposer: proposer.key,
        approved_at: NOW,
        bump: 0,
        reserved: [0u8; 64],
    };
    assert_eq!(
        process_claim_spot_stake(&mut proposer, &mut proposal, &pending_market, &mut config, &mut treasury, late),
        Err(listing(ListingError::ProposalNotPending))
    );
    let market = finalize_spot(&mut proposal, &mut config, NOW + 604_801).unwrap();
    let mut stranger = wallet(9, 0);
    assert_eq!(
        process_claim_spot_stake(&mut stranger, &mut proposal, &market, &mut config, &mut treasury, late),
        Err(listing(ListingError::NotProposer))
    );
    let mut foreign = market;
    foreign.proposer = stranger.key;
    assert_eq!(
        process_claim_spot_stake(&mut proposer, &mut proposal, &foreign, &mut config, &mut treasury, late),
        Err(listing(ListingError::NotProposer))
    );
    let mut unsigned = proposer;
    unsigned.is_signer = false;
    assert_eq!(
        process_claim_spot_stake(&mut unsigned, &mut proposal, &market, &mut config, &mut treasury, late),
        Err(ProcessError::MissingRequiredSignature)
    );
    let mut far = market;
    far.approved_at = i64::MAX;
    assert_eq!(
        process_claim_spot_stake(&mut proposer, &mut proposal, &far, &mut config, &mut treasury, late),
        Err(listing(ListingError::Overflow))
    );
    let mut other = wallet(60, 9999);
    assert_eq!(
        process_claim_spot_stake(&mut proposer, &mut proposal, &market, &mut config, &mut other, late),
        Err(listing(ListingError::InvalidAccount))
    );
    assert_eq!(
        process_claim_spot_stake(&mut proposer, &mut proposal, &market, &mut config, &mut treasury, late),
        Ok(())
    );
    assert_eq!((proposer.lamports, treasury.lamports, config.total_staked_lamports), (5000, 0, 0));
}

#[test]
fn total_staked_follows_every_stake_movement() {
    let (mut config, mut treasury) = set_up_with_stakes(1000, 2000, 5000);
    let mut proposer = wallet(2, 100_000);
    let mut objector = wallet(3, 100_000);
    let start = proposer.lamports + objector.lamports + treasury.lamports;
    let mut pending = propose_token(&mut proposer, &mut config, &mut treasury, 1, b"AAA").unwrap();
    let mut cancelled = propose_token(&mut proposer, &mut config, &mut treasury, 2, b"BBB").unwrap();
    let mut rejected = propose_spot(&mut proposer, &mut config, &mut treasury, 1).unwrap();
    let mut claimed = propose_spot(&mut proposer, &mut config, &mut treasury, 2).unwrap();
    let mut unclaimed = propose_perp(&mut proposer, &mut config, &mut treasury, 1).unwrap();
    assert_eq!(config.total_staked_lamports, 1000 + 1000 + 2000 + 2000 + 5000);
    process_object_token(&mut objector, &mut pending, &mut config, &mut treasury, 300, NOW).unwrap();
    process_object_token(&mut objector, &mut cancelled, &mut config, &mut treasury, 70, NOW).unwrap();
    process_cancel_token_proposal(&mut proposer, &mut cancelled, &mut config, &mut treasury).unwrap();
    process_reject_spot_market(&admin(), &mut rejected, &config, 3, 100).unwrap();
    let market = finalize_spot(&mut claimed, &mut config, NOW + 604_801).unwrap();
    process_claim_spot_stake(&mut proposer, &mut claimed, &market, &mut config, &mut treasury, NOW + 604_801 + 2_592_000).unwrap();
    let perp_slot = empty_at(derive_perp_market_pda(0, &program()));
    process_approve_perp_market(&program(), &admin(), &mut unclaimed, &perp_slot, &mut config, NOW).unwrap();
    // Pending stake and its objection, the forfeit of the cancelled proposal and its
    // objection, the rejected stake, nothing of the claimed one, the unclaimed one.
    assert_eq!(config.total_staked_lamports, (1000 + 300) + (50 + 70) + 2000 + 0 + 5000);
    assert_eq!(treasury.lamports, config.total_staked_lamports);
    assert_eq!(proposer.lamports + objector.lamports + treasury.lamports, start);
}

#[test]
fn spot_proposal_refusals() {
    let (mut config, mut treasury) = set_up_with_stakes(1000, 2000, 5000);
    let mut proposer = wallet(2, 5000);
    let before = (proposer, config, treasury);
    let slot = empty_at(derive_spot_proposal_pda(&proposer.key, 1, &program()));
    let good = symbol16(b"BTC/USDC");
    let t0 = token(0, true);
    let t1 = token(1, true);
    let (mut p, mut c, mut t) = before;
    let mut run = |symbol: [u8; 16], base: &TokenRegistry, quote: &TokenRegistry, bi: u16, qi: u16, tick: u64, lot: u64, taker: u16, maker: i16| {
        let res = process_propose_spot_market(&program(), &mut p, &slot, &mut c, base, quote, &mut t, 1, symbol, bi, qi, tick, lot, taker, maker, 1, 2, NOW)
            .map(|_| ());
        assert_eq!((p, c, t), before);
        res
    };
    assert_eq!(run(symbol16(b"BTC-USDC"), &t0, &t1, 0, 1, 1, 1, 0, 0), Err(listing(ListingError::InvalidSymbol)));
    assert_eq!(run(good, &t0, &t1, 5, 1, 1, 1, 0, 0), Err(listing(ListingError::TokenNotRegistered)));
    assert_eq!(run(good, &token(0, false), &t1, 0, 1, 1, 1, 0, 0), Err(listing(ListingError::TokenNotRegistered)));
    assert_eq!(run(good, &t0, &token(1, false), 0, 1, 1, 1, 0, 0), Err(listing(ListingError::TokenNotRegistered)));
    assert_eq!(run(good, &t0, &t0, 0, 0, 1, 1, 0, 0), Err(listing(ListingError::SameTokenPair)));
    assert_eq!(run(good, &t0, &t1, 0, 1, 0, 1, 0, 0), Err(listing(ListingError::InvalidTickSize)));
    assert_eq!(run(good, &t0, &t1, 0, 1, 1, 0, 0, 0), Err(listing(ListingError::InvalidLotSize)));
    assert_eq!(run(good, &t0, &t1, 0, 1, 1, 1, 1001, 0), Err(listing(ListingError::InvalidFeeRate)));
    assert_eq!(run(good, &t0, &t1, 0, 1, 1, 1, 0, -501), Err(listing(ListingError::InvalidFeeRate)));
    assert_eq!((proposer, config, treasury), before);
    let made = process_propose_spot_market(&program(), &mut proposer, &slot, &mut config, &t0, &t1, &mut treasury, 1, good, 0, 1, 1, 1, 1000, 500, 1, 2, NOW).unwrap();
    assert_eq!((made.taker_fee_bps, made.maker_fee_bps, made.stake_amount), (1000, 500, 2000));
    assert_eq!((made.min_order_size_e6, made.max_order_size_e6), (1, 2));
    assert_eq!(made.review_deadline, NOW + 604_800);
}

#[test]
fn perp_proposal_refusals() {
    let (mut config, mut treasury) = set_up_with_stakes(1000, 2000, 5000);
    let mut proposer = wallet(2, 5000);
    let before = (proposer, config, treasury);
    let slot = empty_at(derive_perp_proposal_pda(&proposer.key, 1, &program()));
    let good = symbol16(b"BTC-USDC");
    let oracle = wallet(50, 0);
    let mut foreign = oracle;
    foreign.owner = Address::new_from_array([8; 32]);
    let mut run = |symbol: [u8; 16], oracle_account: &Account, oracle_key: Address, leverage: u8, initial: u32, maintenance: u32| {
        process_propose_perp_market(&program(), &mut proposer, &slot, &mut config, &token(0, true), &token(1, true), oracle_account, &None, &mut treasury, 1, symbol, 0, 1, oracle_key, 1, 1, leverage, initial, maintenance, 0, 0, 1, 2, 3, 4, NOW)
    };
    assert_eq!(run(symbol16(b"BTC/USDC"), &oracle, oracle.key, 1, 2, 1), Err(listing(ListingError::InvalidSymbol)));
    assert_eq!(run(good, &oracle, wallet(51, 0).key, 1, 2, 1), Err(listing(ListingError::InvalidOracle)));
    assert_eq!(run(good, &foreign, foreign.key, 1, 2, 1), Err(listing(ListingError::InvalidOracle)));
    assert_eq!(run(good, &oracle, oracle.key, 0, 2, 1), Err(listing(ListingError::InvalidLeverage)));
    assert_eq!(run(good, &oracle, oracle.key, 101, 2, 1), Err(listing(ListingError::InvalidLeverage)));
    assert_eq!(run(good, &oracle, oracle.key, 1, 0, 1), Err(listing(ListingError::InvalidInitialMarginRate)));
    assert_eq!(run(good, &oracle, oracle.key, 1, 2, 2), Err(listing(ListingError::InvalidMaintenanceMarginRate)));
    let made = run(good, &oracle, oracle.key, 100, 1_000_000, 999_999).unwrap();
    assert_eq!(made.stake_amount, 5000);
    assert_eq!(made.review_deadline, NOW + 1_209_600);
    assert_eq!((made.max_open_interest_e6, made.insurance_fund_deposit_e6), (3, 4));
    assert_eq!((before.0.lamports - proposer.lamports, treasury.lamports), (5000, 5000));
}

#[test]
fn status_and_parameter_updates() {
    let (config, _) = set_up();
    let stranger = wallet(9, 0);
    let mut entry = token(0, true);
    assert_eq!(
        process_update_token_status(&stranger, &mut entry, &config, false),
        Err(listing(ListingError::InvalidAdmin))
    );
    assert!(entry.is_active);
    process_update_token_status(&admin(), &mut entry, &config, false).unwrap();
    assert!(!entry.is_active);

    let mut market = SpotMarket {
        discriminator: SpotMarket::DISCRIMINATOR,
        version: 1,
        market_index: 0,
        symbol: symbol16(b"BTC/USDC"),
        base_token_index: 0,
        quote_token_index: 1,
        tick_size_e6: 1,
        lot_size_e6: 1,
        taker_fee_bps: 10,
        maker_fee_bps: 0,
        min_order_size_e6: 5,
        max_order_size_e6: 50,
        is_active: true,
        is_paused: false,
        proposer: stranger.key,
        approved_at: NOW,
        bump: 0,
        reserved: [0u8; 64],
    };
    process_update_spot_status(&admin(), &mut market, &config, None, Some(true)).unwrap();
    assert!(market.is_active && market.is_paused);
    process_update_spot_status(&admin(), &mut market, &config, Some(false), None).unwrap();
    assert!(!market.is_active && market.is_paused);
    let before = market;
    assert_eq!(
        process_update_spot_params(&admin(), &mut market, &config, Some(20), Some(501), Some(1), None),
        Err(listing(ListingError::InvalidFeeRate))
    );
    assert_eq!(
        process_update_spot_params(&admin(), &mut market, &config, Some(1001), None, None, None),
        Err(listing(ListingError::InvalidFeeRate))
    );
    assert_eq!(market, before);
    process_update_spot_params(&admin(), &mut market, &config, Some(20), Some(-500), None, Some(99)).unwrap();
    assert_eq!((market.taker_fee_bps, market.maker_fee_bps), (20, -500));
    assert_eq!((market.min_order_size_e6, market.max_order_size_e6), (5, 99));
}

fn perp_market() -> PerpMarket {
    PerpMarket {
        discriminator: PerpMarket::DISCRIMINATOR,
        version: 1,
        market_index: 3,
        symbol: symbol16(b"BTC-USDC"),
        base_token_index: 0,
        quote_token_index: 1,
        oracle: wallet(50, 0).key,
        tick_size_e6: 1,
        lot_size_e6: 1,
        max_leverage: 20,
        initial_margin_rate_e6: 100_000,
        maintenance_margin_rate_e6: 50_000,
        taker_fee_bps: 10,
        maker_fee_bps: 0,
        min_order_size_e6: 5,
        max_order_size_e6: 50,
        max_open_interest_e6: 1000,
        current_open_interest_long_e6: 1,
        current_open_interest_short_e6: 2,
        insurance_fund_deposit_e6: 3,
        funding_rate_e9: 4,
        last_funding_ts: 5,
        is_active: true,
        is_paused: false,
        proposer: wallet(2, 0).key,
        approved_at: NOW,
        bump: 0,
        reserved: [0u8; 64],
    }
}

#[test]
fn perp_parameters_stay_within_bounds() {
    let (config, _) = set_up();
    let mut market = perp_market();
    let before = market;
    let a = admin();
    assert_eq!(
        process_update_perp_params(&a, &mut market, &config, Some(0), None, None, None, None, None),
        Err(listing(ListingError::InvalidLeverage))
    );
    assert_eq!(
        process_update_perp_params(&a, &mut market, &config, None, Some(1_000_001), None, None, None, None),
        Err(listing(ListingError::InvalidInitialMarginRate))
    );
    assert_eq!(
        process_update_perp_params(&a, &mut market, &config, None, None, Some(100_000), None, None, None),
        Err(listing(ListingError::InvalidMaintenanceMarginRate))
    );
    assert_eq!(
        process_update_perp_params(&a, &mut market, &config, None, None, Some(0), None, None, None),
        Err(listing(ListingError::InvalidMaintenanceMarginRate))
    );
    // A new initial rate must stay above the maintenance rate that is kept.
    assert_eq!(
        process_update_perp_params(&a, &mut market, &config, None, Some(50_000), None, None, None, None),
        Err(listing(ListingError::InvalidMaintenanceMarginRate))
    );
    assert_eq!(
        process_update_perp_params(&a, &mut market, &config, None, None, None, Some(1001), None, None),
        Err(listing(ListingError::InvalidFeeRate))
    );
    assert_eq!(
        process_update_perp_params(&wallet(9, 0), &mut market, &config, Some(5), None, None, None, None, None),
        Err(listing(ListingError::InvalidAdmin))
    );
    assert_eq!(market, before);
    process_update_perp_params(&a, &mut market, &config, Some(100), Some(40_000), Some(39_999), Some(0), Some(500), Some(7)).unwrap();
    assert_eq!((market.max_leverage, market.initial_margin_rate_e6, market.maintenance_margin_rate_e6), (100, 40_000, 39_999));
    assert_eq!((market.taker_fee_bps, market.maker_fee_bps, market.max_open_interest_e6), (0, 500, 7));
    assert_eq!(market.current_open_interest_short_e6, 2);
    process_update_perp_status(&a, &mut market, &config, Some(false), Some(true)).unwrap();
    assert!(!market.is_active && market.is_paused);
}

fn start_pool(creator: &Account, config: &ListingConfig) -> LiquidityPool {
    let market = perp_market();
    let slot = empty_at(derive_creator_pool_pda(1, 3, &creator.key, &program()));
    process_initialize_liquidity_pool(
        &program(),
        creator,
        &slot,
        &wallet(70, 0),
        &MarketRecord::Perp(market),
        config,
        1,
        100,
        200,
        10,
        25,
        NOW,
    )
    .unwrap()
}

#[test]
fn pool_starts_empty_and_active() {
    let (config, _) = set_up();
    let creator = wallet(2, 0);
    let pool = start_pool(&creator, &config);
    assert_eq!(pool.market_type, MarketType::Perp);
    assert_eq!(pool.market_index, 3);
    assert_eq!(pool.creator, creator.key);
    assert_eq!(pool.market, wallet(70, 0).key);
    assert_eq!((pool.base_amount_e6, pool.quote_amount_e6, pool.lp_token_supply_e6), (0, 0, 0));
    assert_eq!((pool.price_lower_e6, pool.price_upper_e6), (100, 200));
    assert_eq!((pool.order_density, pool.spread_bps), (10, 25));
    assert!(pool.is_active);
    assert_eq!((pool.created_at, pool.unlock_time, pool.retire_at, pool.nonce), (NOW, 0, 0, 0));
}

#[test]
fn pool_start_refusals() {
    let (config, _) = set_up();
    let creator = wallet(2, 0);
    let slot = empty_at(derive_creator_pool_pda(0, 0, &creator.key, &program()));
    let key = wallet(70, 0);
    let mut spot = SpotMarket {
        discriminator: SpotMarket::DISCRIMINATOR,
        version: 1,
        market_index: 0,
        symbol: symbol16(b"BTC/USDC"),
        base_token_index: 0,
        quote_token_index: 1,
        tick_size_e6: 1,
        lot_size_e6: 1,
        taker_fee_bps: 10,
        maker_fee_bps: 0,
        min_order_size_e6: 5,
        max_order_size_e6: 50,
        is_active: true,
        is_paused: false,
        proposer: creator.key,
        approved_at: NOW,
        bump: 0,
        reserved: [0u8; 64],
    };
    let run = |creator: &Account, slot: &Account, market: &MarketRecord, config: &ListingConfig, kind: u8, lower: u64, upper: u64, density: u16, spread: u64| {
        process_initialize_liquidity_pool(&program(), creator, slot, &key, market, config, kind, lower, upper, density, spread, NOW).map(|_| ())
    };
    let record = MarketRecord::Spot(spot);
    let mut unsigned = creator;
    unsigned.is_signer = false;
    assert_eq!(run(&unsigned, &slot, &record, &config, 0, 1, 2, 1, 1), Err(ProcessError::MissingRequiredSignature));
    let mut paused = config;
    paused.is_paused = true;
    assert_eq!(run(&creator, &slot, &record, &paused, 0, 1, 2, 1, 1), Err(listing(ListingError::ListingPaused)));
    assert_eq!(run(&creator, &slot, &record, &config, 2, 1, 2, 1, 1), Err(listing(ListingError::InvalidMarketType)));
    assert_eq!(run(&creator, &slot, &record, &config, 1, 1, 2, 1, 1), Err(ProcessError::InvalidAccountData));
    assert_eq!(run(&creator, &slot, &MarketRecord::Unreadable, &config, 0, 1, 2, 1, 1), Err(ProcessError::InvalidAccountData));
    spot.is_active = false;
    assert_eq!(run(&creator, &slot, &MarketRecord::Spot(spot), &config, 0, 1, 2, 1, 1), Err(listing(ListingError::MarketNotFound)));
    let elsewhere = empty_at(derive_creator_pool_pda(0, 1, &creator.key, &program()));
    assert_eq!(run(&creator, &elsewhere, &record, &config, 0, 1, 2, 1, 1), Err(listing(ListingError::InvalidPda)));
    let mut taken = slot;
    taken.data_is_empty = false;
    assert_eq!(run(&creator, &taken, &record, &config, 0, 1, 2, 1, 1), Err(listing(ListingError::AlreadyInitialized)));
    assert_eq!(run(&creator, &slot, &record, &config, 0, 2, 2, 1, 1), Err(listing(ListingError::InvalidPriceRange)));
    assert_eq!(run(&creator, &slot, &record, &config, 0, 1, 2, 0, 1), Err(listing(ListingError::InvalidOrderDensity)));
    assert_eq!(run(&creator, &slot, &record, &config, 0, 1, 2, 101, 1), Err(listing(ListingError::InvalidOrderDensity)));
    assert_eq!(run(&creator, &slot, &record, &config, 0, 1, 2, 100, 0), Err(listing(ListingError::InvalidSpread)));
    assert_eq!(run(&creator, &slot, &record, &config, 0, 1, 2, 100, 10_001), Err(listing(ListingError::InvalidSpread)));
    assert_eq!(run(&creator, &slot, &record, &config, 0, 0, 1, 100, 10_000), Ok(()));
}

#[test]
fn pool_with_funds_cannot_be_retired() {
    let (config, _) = set_up();
    let creator = wallet(2, 0);
    let mut pool = start_pool(&creator, &config);
    process_fund_liquidity_pool(&creator, &mut pool, 0, 1).unwrap();
    assert_eq!((pool.base_amount_e6, pool.quote_amount_e6), (0, 1));
    assert_eq!(
        process_retire_liquidity_pool(&creator, &mut pool),
        Err(listing(ListingError::PoolHasRemainingFunds))
    );
    assert!(pool.is_active);
    process_withdraw_liquidity_profit(&creator, &mut pool, 0, 1).unwrap();
    assert_eq!((pool.base_amount_e6, pool.quote_amount_e6), (0, 0));
    assert_eq!(process_retire_liquidity_pool(&creator, &mut pool), Ok(()));
    assert!(!pool.is_active);
    // A retired pool takes no further operation.
    let gone = Err(listing(ListingError::PoolNotActive));
    assert_eq!(process_retire_liquidity_pool(&creator, &mut pool), gone);
    assert_eq!(process_fund_liquidity_pool(&creator, &mut pool, 1, 1), gone);
    assert_eq!(process_withdraw_liquidity_profit(&creator, &mut pool, 1, 1), gone);
    assert_eq!(process_adjust_liquidity_pool(&creator, &mut pool, None, None, None, None), gone);
    assert_eq!(process_refresh_liquidity_orders(&creator, &pool), gone);
}

#[test]
fn pool_balances_and_parameters() {
    let (config, _) = set_up();
    let creator = wallet(2, 0);
    let stranger = wallet(9, 0);
    let mut pool = start_pool(&creator, &config);
    assert_eq!(process_fund_liquidity_pool(&stranger, &mut pool, 1, 1), Err(listing(ListingError::Unauthorized)));
    assert_eq!(process_fund_liquidity_pool(&creator, &mut pool, 0, 0), Err(listing(ListingError::InvalidAmount)));
    process_fund_liquidity_pool(&creator, &mut pool, 10, 20).unwrap();
    process_fund_liquidity_pool(&creator, &mut pool, 5, 0).unwrap();
    assert_eq!((pool.base_amount_e6, pool.quote_amount_e6), (15, 20));
    assert_eq!(process_fund_liquidity_pool(&creator, &mut pool, u64::MAX, 0), Err(listing(ListingError::Overflow)));
    assert_eq!(process_fund_liquidity_pool(&creator, &mut pool, 0, u64::MAX - 19), Err(listing(ListingError::Overflow)));
    assert_eq!(process_withdraw_liquidity_profit(&creator, &mut pool, 0, 0), Err(listing(ListingError::InvalidAmount)));
    assert_eq!(process_withdraw_liquidity_profit(&creator, &mut pool, 16, 0), Err(listing(ListingError::InsufficientBalance)));
    assert_eq!(process_withdraw_liquidity_profit(&creator, &mut pool, 0, 21), Err(listing(ListingError::InsufficientBalance)));
    assert_eq!(process_withdraw_liquidity_profit(&stranger, &mut pool, 1, 1), Err(listing(ListingError::Unauthorized)));
    assert_eq!((pool.base_amount_e6, pool.quote_amount_e6), (15, 20));
    process_withdraw_liquidity_profit(&creator, &mut pool, 15, 3).unwrap();
    assert_eq!((pool.base_amount_e6, pool.quote_amount_e6), (0, 17));

    let before = pool;
    assert_eq!(process_adjust_liquidity_pool(&creator, &mut pool, Some(200), None, None, None), Err(listing(ListingError::InvalidPriceRange)));
    assert_eq!(process_adjust_liquidity_pool(&creator, &mut pool, Some(5), Some(5), None, None), Err(listing(ListingError::InvalidPriceRange)));
    assert_eq!(process_adjust_liquidity_pool(&creator, &mut pool, None, None, Some(101), None), Err(listing(ListingError::InvalidOrderDensity)));
    assert_eq!(process_adjust_liquidity_pool(&creator, &mut pool, None, None, None, Some(0)), Err(listing(ListingError::InvalidSpread)));
    assert_eq!(process_adjust_liquidity_pool(&stranger, &mut pool, None, None, Some(5), None), Err(listing(ListingError::Unauthorized)));
    assert_eq!(pool, before);
    process_adjust_liquidity_pool(&creator, &mut pool, Some(150), None, Some(100), Some(10_000)).unwrap();
    assert_eq!((pool.price_lower_e6, pool.price_upper_e6, pool.order_density, pool.spread_bps), (150, 200, 100, 10_000));
    assert_eq!(process_refresh_liquidity_orders(&creator, &pool), Ok(()));
    assert_eq!(process_refresh_liquidity_orders(&stranger, &pool), Err(listing(ListingError::Unauthorized)));
    let mut unsigned = creator;
    unsigned.is_signer = false;
    assert_eq!(process_refresh_liquidity_orders(&unsigned, &pool), Err(ProcessError::MissingRequiredSignature));
}
