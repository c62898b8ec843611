use listing_program::address::Address;
use listing_program::error::{ListingError, ProcessError};
use listing_program::processor::admin::{initialize_at, match_pda};
use listing_program::processor::pool::{initialize_liquidity_pool_at, MarketRecord};
use listing_program::processor::spot::{finalize_spot_market_at, propose_spot_market_at};
use listing_program::processor::token::{approve_token_at, finalize_token_at, propose_token_at};
use listing_program::state::{Account, ProposalStatus, TokenRegistry};
use listing_program::utils::{check_oracle_exists, check_pyth_oracle, expect_address, PriceReading};
use solana_program::pubkey::PubkeyError;

fn listing(reason: ListingError) -> ProcessError {
    ProcessError::Listing(reason)
}

fn key(tag: u8) -> Address {
    Address::new_from_array([tag; 32])
}

fn account(tag: u8, lamports: u64, is_signer: bool) -> Account {
    Account { key: key(tag), owner: Address::default(), lamports, is_signer, data_is_empty: true }
}

#[test]
fn match_pda_compares_with_what_was_derived() {
    assert_eq!(match_pda(&Some((key(1), 254)), &key(1)), Ok(254));
    assert_eq!(match_pda(&Some((key(1), 254)), &key(2)), Err(listing(ListingError::InvalidPda)));
    assert_eq!(match_pda(&None, &key(1)), Err(listing(ListingError::InvalidPda)));
    assert_eq!(expect_address(&Ok(key(1)), &key(1)), Ok(()));
    assert_eq!(expect_address(&Ok(key(1)), &key(2)), Err(listing(ListingError::InvalidPda)));
    assert_eq!(
        expect_address(&Err(PubkeyError::InvalidSeeds), &key(1)),
        Err(listing(ListingError::InvalidPda))
    );
}

#[test]
fn oracle_checks_with_given_program_addresses() {
    let invalid = Err(listing(ListingError::InvalidOracle));
    let feed = Some(PriceReading { price: 100, conf: 5, expo: -8, publish_time: 1000 });
    let mut oracle = account(5, 0, false);
    oracle.owner = key(10);
    assert_eq!(check_oracle_exists(&oracle, &feed, &key(10), &key(11), &key(12)), Ok(()));
    assert_eq!(check_oracle_exists(&oracle, &feed, &key(11), &key(10), &key(12)), Ok(()));
    assert_eq!(check_oracle_exists(&oracle, &None, &key(10), &key(11), &key(12)), invalid);
    assert_eq!(check_oracle_exists(&oracle, &None, &key(11), &key(12), &key(10)), Ok(()));
    assert_eq!(check_oracle_exists(&oracle, &feed, &key(11), &key(12), &key(13)), invalid);
    assert_eq!(check_pyth_oracle(&oracle, &feed, 1060, &key(10), &key(11)), Ok(()));
    assert_eq!(check_pyth_oracle(&oracle, &feed, 940, &key(11), &key(10)), Ok(()));
    assert_eq!(check_pyth_oracle(&oracle, &feed, 1061, &key(10), &key(11)), invalid);
    assert_eq!(check_pyth_oracle(&oracle, &feed, 1000, &key(11), &key(12)), invalid);
    assert_eq!(check_pyth_oracle(&oracle, &None, 1000, &key(10), &key(11)), invalid);
}

#[test]
fn set_up_and_proposals_with_given_addresses() {
    let admin = account(1, 0, true);
    let config_account = account(2, 0, false);
    let treasury_account = account(3, 0, false);
    let a = Address::default();
    assert_eq!(
        initialize_at(&None, &Some((key(3), 9)), &admin, &config_account, &treasury_account, a, a, a),
        Err(listing(ListingError::InvalidPda))
    );
    assert_eq!(
        initialize_at(&Some((key(2), 8)), &Some((key(4), 9)), &admin, &config_account, &treasury_account, a, a, a),
        Err(listing(ListingError::InvalidPda))
    );
    let made = initialize_at(&Some((key(2), 8)), &Some((key(3), 9)), &admin, &config_account, &treasury_account, a, a, a)
        .unwrap();
    assert_eq!((made.config.bump, made.treasury_bump, made.create_treasury), (8, 9, true));
    assert_eq!((made.config.admin, made.config.treasury), (key(1), key(3)));
    let mut config = made.config;
    config.token_stake_amount = 1000;
    config.spot_stake_amount = 2000;

    let mut proposer = account(20, 10_000, true);
    let mut treasury = treasury_account;
    let slot = account(21, 0, false);
    let mint = account(40, 0, false);
    let symbol = *b"BTC\0\0\0\0\0";
    assert_eq!(
        propose_token_at(&Some((key(22), 7)), &mut proposer, &slot, &mut config, &mut treasury, &mint, 1, symbol, mint.key, 6, None, 50),
        Err(listing(ListingError::InvalidPda))
    );
    let mut taken = slot;
    taken.data_is_empty = false;
    assert_eq!(
        propose_token_at(&Some((key(21), 7)), &mut proposer, &taken, &mut config, &mut treasury, &mint, 1, *b"x\0\0\0\0\0\0\0", mint.key, 99, None, 50),
        Err(listing(ListingError::AlreadyInitialized))
    );
    let mut proposal = propose_token_at(&Some((key(21), 7)), &mut proposer, &slot, &mut config, &mut treasury, &mint, 1, symbol, mint.key, 6, None, 50)
        .unwrap();
    assert_eq!((proposal.bump, proposal.stake_amount, proposal.review_deadline), (7, 1000, 50 + 604_800));
    assert_eq!((proposer.lamports, treasury.lamports, config.total_staked_lamports), (9000, 1000, 1000));

    let registry_slot = account(30, 0, false);
    assert_eq!(
        approve_token_at(&Some((key(31), 5)), &admin, &mut proposal, &registry_slot, &mut config, 60),
        Err(listing(ListingError::InvalidPda))
    );
    assert_eq!(
        finalize_token_at(&Some((key(30), 5)), &proposer, &mut proposal, &registry_slot, &mut config, 50 + 604_800),
        Err(listing(ListingError::ReviewDeadlineNotReached))
    );
    let entry = approve_token_at(&Some((key(30), 5)), &admin, &mut proposal, &registry_slot, &mut config, 60).unwrap();
    assert_eq!((entry.token_index, entry.bump, entry.approved_at), (0, 5, 60));
    assert_eq!((proposal.status, config.total_tokens), (ProposalStatus::Approved, 1));

    let quote = TokenRegistry { token_index: 1, ..entry };
    let spot_slot = account(23, 0, false);
    let mut spot = propose_spot_market_at(&Some((key(23), 1)), &mut proposer, &spot_slot, &mut config, &entry, &quote, &mut treasury, 1, *b"BTC/USDC\0\0\0\0\0\0\0\0", 0, 1, 1, 1, 10, 0, 5, 6, 50)
        .unwrap();
    assert_eq!((spot.bump, spot.stake_amount), (1, 2000));
    let market_slot = account(32, 0, false);
    let market = finalize_spot_market_at(&Some((key(32), 2)), &proposer, &mut spot, &market_slot, &mut config, 50 + 604_801).unwrap();
    assert_eq!((market.market_index, market.bump, config.total_spot_markets), (0, 2, 1));

    let pool_slot = account(33, 0, false);
    let market_account = account(32, 0, false);
    assert_eq!(
        initialize_liquidity_pool_at(&None, &proposer, &pool_slot, &market_account, &MarketRecord::Spot(market), &config, 0, 1, 2, 3, 4, 70).err(),
        Some(listing(ListingError::InvalidPda))
    );
    let pool = initialize_liquidity_pool_at(&Some((key(33), 6)), &proposer, &pool_slot, &market_account, &MarketRecord::Spot(market), &config, 0, 1, 2, 3, 4, 70)
        .unwrap();
    assert_eq!((pool.bump, pool.market, pool.creator, pool.created_at), (6, key(32), key(20), 70));
}
