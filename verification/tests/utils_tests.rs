use listing_program::address::Address;
use listing_program::error::{ListingError, ProcessError};
use listing_program::state::{Account, ListingConfig};
use listing_program::utils::{
    derive_creator_pool_pda, derive_liquidity_pool_pda, derive_listing_config_pda,
    derive_perp_market_pda, derive_perp_proposal_pda, derive_spot_market_pda,
    derive_spot_proposal_pda, derive_token_proposal_pda, derive_token_registry_pda,
    derive_treasury_pda, transfer_lamports_from_pda, transfer_native_lamports, validate_decimals,
    validate_fee_rates, validate_leverage, validate_margin_rates, validate_market_symbol,
    validate_oracle_exists, validate_price_range, validate_pyth_oracle, validate_sizes,
    validate_symbol, verify_admin, verify_pda, PriceReading, PYTH_DEVNET_PROGRAM_ID,
    PYTH_MAINNET_PROGRAM_ID,
};
use solana_program::pubkey::Pubkey;
use std::str::FromStr;

fn refused(reason: ListingError) -> Result<(), ProcessError> {
    Err(ProcessError::Listing(reason))
}

fn account(tag: u8, lamports: u64, is_signer: bool) -> Account {
    Account {
        key: Address::new_from_array([tag; 32]),
        owner: Address::default(),
        lamports,
        is_signer,
        data_is_empty: true,
    }
}

fn config_with_admin(admin: Address) -> ListingConfig {
    ListingConfig {
        discriminator: ListingConfig::DISCRIMINATOR,
        version: 1,
        admin,
        treasury: Address::new_from_array([9; 32]),
        vault_program: Address::default(),
        fund_program: Address::default(),
        ledger_program: Address::default(),
        token_stake_amount: ListingConfig::DEFAULT_TOKEN_STAKE,
        spot_stake_amount: ListingConfig::DEFAULT_SPOT_STAKE,
        perp_stake_amount: ListingConfig::DEFAULT_PERP_STAKE,
        token_review_period_seconds: ListingConfig::DEFAULT_TOKEN_REVIEW_PERIOD,
        spot_review_period_seconds: ListingConfig::DEFAULT_SPOT_REVIEW_PERIOD,
        perp_review_period_seconds: ListingConfig::DEFAULT_PERP_REVIEW_PERIOD,
        stake_lock_period_seconds: ListingConfig::DEFAULT_STAKE_LOCK_PERIOD,
        total_tokens: 0,
        total_spot_markets: 0,
        total_perp_markets: 0,
        total_staked_lamports: 0,
        is_paused: false,
        bump: 255,
        reserved: [0u8; 64],
    }
}

#[test]
fn test_validate_symbol() {
    let mut symbol = [0u8; 8];

    symbol[..3].copy_from_slice(b"BTC");
    assert!(validate_symbol(&symbol).is_ok());

    symbol = [0u8; 8];
    symbol.copy_from_slice(b"PEPE2024");
    assert!(validate_symbol(&symbol).is_ok());

    symbol = [0u8; 8];
    symbol[0] = b'A';
    assert!(validate_symbol(&symbol).is_err());

    symbol = [0u8; 8];
    symbol[..3].copy_from_slice(b"btc");
    assert!(validate_symbol(&symbol).is_err());
}

#[test]
fn test_validate_market_symbol() {
    let mut symbol = [0u8; 16];

    symbol[..8].copy_from_slice(b"BTC/USDC");
    assert!(validate_market_symbol(&symbol, true).is_ok());

    symbol = [0u8; 16];
    symbol[..8].copy_from_slice(b"BTC-USDC");
    assert!(validate_market_symbol(&symbol, false).is_ok());

    symbol = [0u8; 16];
    symbol[..8].copy_from_slice(b"BTC-USDC");
    assert!(validate_market_symbol(&symbol, true).is_err());
}

#[test]
fn test_validate_fee_rates() {
    assert!(validate_fee_rates(10, 0).is_ok());
    assert!(validate_fee_rates(100, -50).is_ok());

    assert!(validate_fee_rates(1001, 0).is_err());

    assert!(validate_fee_rates(10, -501).is_err());
    assert!(validate_fee_rates(10, 501).is_err());
}

#[test]
fn test_validate_leverage() {
    assert!(validate_leverage(1).is_ok());
    assert!(validate_leverage(100).is_ok());
    assert!(validate_leverage(0).is_err());
    assert!(validate_leverage(101).is_err());
}

#[test]
fn test_validate_margin_rates() {
    assert!(validate_margin_rates(100_000, 50_000).is_ok());

    assert!(validate_margin_rates(100_000, 100_000).is_err());
    assert!(validate_margin_rates(100_000, 150_000).is_err());
}

#[test]
fn symbol_edge_cases() {
    assert_eq!(validate_symbol(b"AB\0\0\0\0\0\0"), Ok(()));
    assert_eq!(validate_symbol(b"A\0B\0\0\0\0\0"), refused(ListingError::InvalidSymbol));
    assert_eq!(validate_symbol(b"AB/\0\0\0\0\0"), refused(ListingError::InvalidSymbol));
    assert_eq!(validate_symbol(b"A9Z0\0\0\0\0"), Ok(()));
    assert_eq!(validate_symbol(b"AB@\0\0\0\0\0"), refused(ListingError::InvalidSymbol));
    assert_eq!(validate_symbol(b"AB[\0\0\0\0\0"), refused(ListingError::InvalidSymbol));
    // What follows the first zero byte is not looked at.
    assert_eq!(validate_symbol(b"AB\0ab\0\0\0"), Ok(()));
    // A market symbol needs five characters and the separator before the first zero byte.
    assert_eq!(validate_market_symbol(b"A/BC\0\0\0\0\0\0\0\0\0\0\0\0", true), refused(ListingError::InvalidSymbol));
    assert_eq!(validate_market_symbol(b"AB/CD\0\0\0\0\0\0\0\0\0\0\0", true), Ok(()));
    assert_eq!(validate_market_symbol(b"ABCDE\0/\0\0\0\0\0\0\0\0\0", true), refused(ListingError::InvalidSymbol));
    assert_eq!(validate_market_symbol(b"ABCDEFGHIJKLMNO-", false), Ok(()));
}

#[test]
fn validators_name_their_errors() {
    assert_eq!(validate_decimals(18), Ok(()));
    assert_eq!(validate_decimals(19), refused(ListingError::InvalidDecimals));
    assert_eq!(validate_fee_rates(1000, 500), Ok(()));
    assert_eq!(validate_fee_rates(1000, -500), Ok(()));
    assert_eq!(validate_fee_rates(1001, 0), refused(ListingError::InvalidFeeRate));
    assert_eq!(validate_leverage(0), refused(ListingError::InvalidLeverage));
    assert_eq!(validate_margin_rates(0, 1), refused(ListingError::InvalidInitialMarginRate));
    assert_eq!(validate_margin_rates(1_000_001, 1), refused(ListingError::InvalidInitialMarginRate));
    assert_eq!(validate_margin_rates(1_000_000, 999_999), Ok(()));
    assert_eq!(validate_margin_rates(10, 0), refused(ListingError::InvalidMaintenanceMarginRate));
    assert_eq!(validate_margin_rates(10, 10), refused(ListingError::InvalidMaintenanceMarginRate));
    assert_eq!(validate_sizes(0, 0), refused(ListingError::InvalidTickSize));
    assert_eq!(validate_sizes(1, 0), refused(ListingError::InvalidLotSize));
    assert_eq!(validate_sizes(1, 1), Ok(()));
    assert_eq!(validate_price_range(0, 5), refused(ListingError::InvalidPriceRange));
    assert_eq!(validate_price_range(5, 5), refused(ListingError::InvalidPriceRange));
    assert_eq!(validate_price_range(5, 6), Ok(()));
}

#[test]
fn verify_admin_checks_signature_then_identity() {
    let admin = account(1, 0, true);
    let config = config_with_admin(admin.key);
    assert_eq!(verify_admin(&admin, &config), Ok(()));
    assert_eq!(
        verify_admin(&account(1, 0, false), &config),
        Err(ProcessError::MissingRequiredSignature)
    );
    assert_eq!(verify_admin(&account(2, 0, true), &config), refused(ListingError::InvalidAdmin));
    assert_eq!(
        verify_admin(&account(2, 0, false), &config),
        Err(ProcessError::MissingRequiredSignature)
    );
}

fn key_of(address: &Address) -> Pubkey {
    Pubkey::new_from_array(address.to_bytes())
}

fn same(found: Option<(Address, u8)>, expected: (Pubkey, u8)) -> bool {
    match found {
        Some((address, bump)) => key_of(&address) == expected.0 && bump == expected.1,
        None => false,
    }
}

#[test]
fn derived_addresses_are_the_hosts() {
    let program = Address::new_from_array([7; 32]);
    let pid = key_of(&program);
    let proposer = Address::new_from_array([3; 32]);
    let nonce: u64 = 0x0102_0304_0506_0708;
    assert!(same(
        derive_listing_config_pda(&program),
        Pubkey::find_program_address(&[b"listing_config"], &pid)
    ));
    assert!(same(
        derive_treasury_pda(&program),
        Pubkey::find_program_address(&[b"listing_treasury"], &pid)
    ));
    assert!(same(
        derive_token_registry_pda(258, &program),
        Pubkey::find_program_address(&[b"token", &258u16.to_le_bytes()], &pid)
    ));
    assert!(same(
        derive_token_proposal_pda(&proposer, nonce, &program),
        Pubkey::find_program_address(
            &[b"token_proposal", &proposer.to_bytes(), &nonce.to_le_bytes()],
            &pid
        )
    ));
    assert!(same(
        derive_spot_market_pda(1, &program),
        Pubkey::find_program_address(&[b"spot_market", &1u16.to_le_bytes()], &pid)
    ));
    assert!(same(
        derive_spot_proposal_pda(&proposer, nonce, &program),
        Pubkey::find_program_address(
            &[b"spot_proposal", &proposer.to_bytes(), &nonce.to_le_bytes()],
            &pid
        )
    ));
    assert!(same(
        derive_perp_market_pda(2, &program),
        Pubkey::find_program_address(&[b"perp_market", &2u16.to_le_bytes()], &pid)
    ));
    assert!(same(
        derive_perp_proposal_pda(&proposer, nonce, &program),
        Pubkey::find_program_address(
            &[b"perp_proposal", &proposer.to_bytes(), &nonce.to_le_bytes()],
            &pid
        )
    ));
    assert!(same(
        derive_liquidity_pool_pda(&proposer, &program),
        Pubkey::find_program_address(&[b"plp4_pool", &proposer.to_bytes()], &pid)
    ));
    assert!(same(
        derive_creator_pool_pda(1, 5, &proposer, &program),
        Pubkey::find_program_address(
            &[b"plp4_pool", &[1u8], &5u16.to_le_bytes(), &proposer.to_bytes()],
            &pid
        )
    ));
    // Different inputs give different addresses.
    assert_ne!(
        derive_token_proposal_pda(&proposer, 1, &program),
        derive_token_proposal_pda(&proposer, 2, &program)
    );
}

#[test]
fn verify_pda_accepts_the_derived_address_only() {
    let program = Address::new_from_array([7; 32]);
    let seeds: Vec<Vec<u8>> = vec![b"token".to_vec(), 3u16.to_le_bytes().to_vec()];
    let (address, bump) = derive_token_registry_pda(3, &program).unwrap();
    assert_eq!(verify_pda(&seeds, bump, &program, &address), Ok(()));
    assert_eq!(
        verify_pda(&seeds, bump, &program, &Address::new_from_array([1; 32])),
        refused(ListingError::InvalidPda)
    );
    let other: Vec<Vec<u8>> = vec![b"token".to_vec(), 4u16.to_le_bytes().to_vec()];
    assert_eq!(verify_pda(&other, bump, &program, &address), refused(ListingError::InvalidPda));
    // Seeds that the host refuses: one of them is longer than 32 bytes.
    let long: Vec<Vec<u8>> = vec![vec![0u8; 33]];
    assert_eq!(verify_pda(&long, bump, &program, &address), refused(ListingError::InvalidPda));
}

fn reading(price: i64, conf: u64, expo: i32, publish_time: i64) -> Option<PriceReading> {
    Some(PriceReading { price, conf, expo, publish_time })
}

fn owned_by(owner: &str) -> Account {
    Account {
        key: Address::new_from_array([5; 32]),
        owner: Address::new_from_array(Pubkey::from_str(owner).unwrap().to_bytes()),
        lamports: 0,
        is_signer: false,
        data_is_empty: false,
    }
}

#[test]
fn pyth_oracle_is_checked_for_owner_age_and_price() {
    let invalid = refused(ListingError::InvalidOracle);
    let mainnet = owned_by(PYTH_MAINNET_PROGRAM_ID);
    let devnet = owned_by(PYTH_DEVNET_PROGRAM_ID);
    let now: i64 = 1_700_000_000;
    assert_eq!(validate_pyth_oracle(&mainnet, &reading(100, 5, -8, now), now), Ok(()));
    assert_eq!(validate_pyth_oracle(&devnet, &reading(100, 5, -8, now - 60), now), Ok(()));
    assert_eq!(validate_pyth_oracle(&devnet, &reading(100, 5, -8, now + 60), now), Ok(()));
    // Stale by one second, in the past and in the future.
    assert_eq!(validate_pyth_oracle(&mainnet, &reading(100, 5, -8, now - 61), now), invalid);
    assert_eq!(validate_pyth_oracle(&mainnet, &reading(100, 5, -8, now + 61), now), invalid);
    // Moments so far apart that their distance does not fit in 63 bits.
    assert_eq!(validate_pyth_oracle(&mainnet, &reading(100, 5, -8, i64::MIN), i64::MAX), invalid);
    assert_eq!(validate_pyth_oracle(&mainnet, &reading(100, 5, -8, i64::MAX), i64::MIN), invalid);
    // Owner that is not the Pyth program.
    assert_eq!(validate_pyth_oracle(&account(5, 0, false), &reading(100, 5, -8, now), now), invalid);
    // No feed in the account.
    assert_eq!(validate_pyth_oracle(&mainnet, &None, now), invalid);
    // Price, confidence and exponent.
    assert_eq!(validate_pyth_oracle(&mainnet, &reading(0, 0, -8, now), now), invalid);
    assert_eq!(validate_pyth_oracle(&mainnet, &reading(-100, 0, -8, now), now), invalid);
    assert_eq!(validate_pyth_oracle(&mainnet, &reading(100, 6, -8, now), now), invalid);
    assert_eq!(validate_pyth_oracle(&mainnet, &reading(119, 5, -8, now), now), Ok(()));
    assert_eq!(validate_pyth_oracle(&mainnet, &reading(119, 6, -8, now), now), invalid);
    assert_eq!(validate_pyth_oracle(&mainnet, &reading(19, 0, -8, now), now), Ok(()));
    assert_eq!(validate_pyth_oracle(&mainnet, &reading(19, 1, -8, now), now), invalid);
    assert_eq!(
        validate_pyth_oracle(&mainnet, &reading(i64::MAX, 461_168_601_842_738_790, 0, now), now),
        Ok(())
    );
    assert_eq!(
        validate_pyth_oracle(&mainnet, &reading(i64::MAX, 461_168_601_842_738_791, 0, now), now),
        invalid
    );
    assert_eq!(validate_pyth_oracle(&mainnet, &reading(100, 5, -18, now), now), Ok(()));
    assert_eq!(validate_pyth_oracle(&mainnet, &reading(100, 5, 18, now), now), Ok(()));
    assert_eq!(validate_pyth_oracle(&mainnet, &reading(100, 5, -19, now), now), invalid);
    assert_eq!(validate_pyth_oracle(&mainnet, &reading(100, 5, 19, now), now), invalid);
}

#[test]
fn oracle_exists_for_pyth_feeds_and_system_accounts() {
    let invalid = refused(ListingError::InvalidOracle);
    let feed = reading(1, 0, 0, 0);
    assert_eq!(validate_oracle_exists(&owned_by(PYTH_MAINNET_PROGRAM_ID), &feed), Ok(()));
    assert_eq!(validate_oracle_exists(&owned_by(PYTH_DEVNET_PROGRAM_ID), &feed), Ok(()));
    assert_eq!(validate_oracle_exists(&owned_by(PYTH_MAINNET_PROGRAM_ID), &None), invalid);
    // An account of the system program, whose address is all zero, needs no feed.
    assert_eq!(validate_oracle_exists(&account(5, 0, false), &None), Ok(()));
    assert_eq!(validate_oracle_exists(&owned_by("11111111111111111111111111111111"), &None), Ok(()));
    let mut stranger = account(5, 0, false);
    stranger.owner = Address::new_from_array([1; 32]);
    assert_eq!(validate_oracle_exists(&stranger, &feed), invalid);
}

#[test]
fn transfers_move_exactly_the_amount_or_nothing() {
    let mut from = account(1, 100, true);
    let mut to = account(2, 5, false);
    assert_eq!(transfer_native_lamports(&mut from, &mut to, 40), Ok(()));
    assert_eq!((from.lamports, to.lamports), (60, 45));
    assert_eq!(transfer_native_lamports(&mut from, &mut to, 61), Err(ProcessError::InsufficientFunds));
    assert_eq!((from.lamports, to.lamports), (60, 45));
    assert_eq!(transfer_lamports_from_pda(&mut to, &mut from, 45), Ok(()));
    assert_eq!((from.lamports, to.lamports), (105, 0));
    // The sender of a native transfer has to sign; a program's own account need not.
    let mut unsigned = account(3, 10, false);
    assert_eq!(
        transfer_native_lamports(&mut unsigned, &mut to, 1),
        Err(ProcessError::MissingRequiredSignature)
    );
    assert_eq!(transfer_lamports_from_pda(&mut unsigned, &mut to, 1), Ok(()));
    assert_eq!((unsigned.lamports, to.lamports), (9, 1));
    let mut full = account(4, u64::MAX, false);
    assert_eq!(
        transfer_lamports_from_pda(&mut unsigned, &mut full, 1),
        Err(ProcessError::ArithmeticOverflow)
    );
    assert_eq!((unsigned.lamports, full.lamports), (9, u64::MAX));
}

#[test]
fn error_codes_and_messages() {
    assert_eq!(ListingError::InvalidInstruction.code(), 0);
    assert_eq!(ListingError::AlreadyInitialized.code(), 2);
    assert_eq!(ListingError::ProposalNotPending.code(), 9);
    assert_eq!(ListingError::StakeLockPeriodNotEnded.code(), 25);
    assert_eq!(ListingError::PoolHasRemainingFunds.code(), 47);
    assert_eq!(ListingError::PoolHasRemainingFunds.message(), "Pool has remaining funds - withdraw first");
    assert_eq!(ListingError::SymbolTooLong.message(), "Symbol too long");
    assert_eq!(ListingError::Overflow.code(), 33);
    assert_eq!(ListingError::Underflow.code(), 46);
}
