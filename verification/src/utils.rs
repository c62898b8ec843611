//! The rules that proposals are held to, the derivation of record addresses,
//! the administrator check, oracle checks and the moving of native balances.

use crate::address::{
    create_program_address, lemma_address_is_its_bytes, parse_address, spec_create_program_address,
    seed_views, spec_find_program_address, spec_parse_address, system_program_id, try_find_program_address,
    zero_bytes, Address,
};
use crate::error::{ListingError, ProcessError};
use crate::state::{
    symbol_len, symbol_length, Account, ListingConfig, LIQUIDITY_POOL_SEED, LISTING_CONFIG_SEED,
    LISTING_TREASURY_SEED, PERP_MARKET_SEED, PERP_PROPOSAL_SEED, SPOT_MARKET_SEED,
    SPOT_PROPOSAL_SEED, TOKEN_PROPOSAL_SEED, TOKEN_REGISTRY_SEED,
};
use pyth_sdk_solana::{Price, PriceFeed, PriceIdentifier};
use solana_program::pubkey::PubkeyError;
use vstd::bytes::{spec_u16_to_le_bytes, spec_u64_to_le_bytes, u16_to_le_bytes, u64_to_le_bytes};
use vstd::prelude::*;
use vstd::slice::slice_to_vec;
use vstd::string::*;

verus! {

/// The address of the Pyth program on the main network.
pub const PYTH_MAINNET_PROGRAM_ID: &'static str = "FsJ3A3u2vn5cTVofAjvy6y5kwABJAqYWpe4975bi2epH";

/// The address of the Pyth program on the development network.
pub const PYTH_DEVNET_PROGRAM_ID: &'static str = "gSbePebfvPy7tRqimPoVecS2UsBvYv46ynrzWocc92s";

/// The widest confidence interval that is accepted, in percent of the price.
pub const ORACLE_MAX_CONFIDENCE_RATIO: u32 = 5;

/// The oldest price that is accepted, in seconds.
pub const ORACLE_MAX_STALENESS_SECONDS: i64 = 60;

/// The failure that carries one of the protocol's reasons.
pub open spec fn refused(reason: ListingError) -> Result<(), ProcessError> {
    Err(ProcessError::Listing(reason))
}

// ---------------------------------------------------------------------------
// Record addresses
// ---------------------------------------------------------------------------
/// Whether `found` is what the host derives from `seeds` for `program_id`: the
/// address that it finds, with the bump seed under which exactly these seeds
/// and the bump seed give that address.
pub open spec fn is_derived(
    found: Option<(Address, u8)>,
    seeds: Seq<Seq<u8>>,
    program_id: Address,
) -> bool {
    match found {
        Some((address, bump)) => {
            &&& spec_find_program_address(seeds, program_id@) == Some((address@, bump))
            &&& pda_matches(seeds, bump, program_id, address)
        },
        None => spec_find_program_address(seeds, program_id@) is None,
    }
}

/// The seeds of the global configuration's address.
pub open spec fn listing_config_seeds() -> Seq<Seq<u8>> {
    seq![LISTING_CONFIG_SEED.spec_bytes()]
}

/// The seeds of the treasury's address.
pub open spec fn treasury_seeds() -> Seq<Seq<u8>> {
    seq![LISTING_TREASURY_SEED.spec_bytes()]
}

/// The seeds of the address of the registry entry with index `token_index`.
pub open spec fn token_registry_seeds(token_index: u16) -> Seq<Seq<u8>> {
    seq![TOKEN_REGISTRY_SEED.spec_bytes(), spec_u16_to_le_bytes(token_index)]
}

/// The seeds of the address of a token proposal.
pub open spec fn token_proposal_seeds(proposer: Address, nonce: u64) -> Seq<Seq<u8>> {
    seq![TOKEN_PROPOSAL_SEED.spec_bytes(), proposer@, spec_u64_to_le_bytes(nonce)]
}

/// The seeds of the address of the spot market with index `market_index`.
pub open spec fn spot_market_seeds(market_index: u16) -> Seq<Seq<u8>> {
    seq![SPOT_MARKET_SEED.spec_bytes(), spec_u16_to_le_bytes(market_index)]
}

/// The seeds of the address of a spot market proposal.
pub open spec fn spot_proposal_seeds(proposer: Address, nonce: u64) -> Seq<Seq<u8>> {
    seq![SPOT_PROPOSAL_SEED.spec_bytes(), proposer@, spec_u64_to_le_bytes(nonce)]
}

/// The seeds of the address of the perpetual market with index `market_index`.
pub open spec fn perp_market_seeds(market_index: u16) -> Seq<Seq<u8>> {
    seq![PERP_MARKET_SEED.spec_bytes(), spec_u16_to_le_bytes(market_index)]
}

/// The seeds of the address of a perpetual market proposal.
pub open spec fn perp_proposal_seeds(proposer: Address, nonce: u64) -> Seq<Seq<u8>> {
    seq![PERP_PROPOSAL_SEED.spec_bytes(), proposer@, spec_u64_to_le_bytes(nonce)]
}

/// The seeds of the address of the pool of the market stored at `market`.
pub open spec fn liquidity_pool_seeds(market: Address) -> Seq<Seq<u8>> {
    seq![LIQUIDITY_POOL_SEED.spec_bytes(), market@]
}

/// The seeds of the address of the pool that `creator` runs for a market.
pub open spec fn creator_pool_seeds(market_type: u8, market_index: u16, creator: Address) -> Seq<
    Seq<u8>,
> {
    seq![
        LIQUIDITY_POOL_SEED.spec_bytes(),
        seq![market_type],
        spec_u16_to_le_bytes(market_index),
        creator@,
    ]
}

fn seed_of_str(text: &str) -> (seed: Vec<u8>)
    ensures
        seed@ == text.spec_bytes(),
{
    slice_to_vec(text.as_bytes())
}

fn find_one(first: Vec<u8>, program_id: &Address) -> (found: Option<(Address, u8)>)
    ensures
        is_derived(found, seq![first@], *program_id),
{
    let mut seeds: Vec<Vec<u8>> = Vec::new();
    seeds.push(first);
    assert(seed_views(seeds@) =~= seq![first@]);
    try_find_program_address(&seeds, program_id)
}

fn find_two(first: Vec<u8>, second: Vec<u8>, program_id: &Address) -> (found: Option<
    (Address, u8),
>)
    ensures
        is_derived(found, seq![first@, second@], *program_id),
{
    let mut seeds: Vec<Vec<u8>> = Vec::new();
    seeds.push(first);
    seeds.push(second);
    assert(seed_views(seeds@) =~= seq![first@, second@]);
    try_find_program_address(&seeds, program_id)
}

fn find_three(first: Vec<u8>, second: Vec<u8>, third: Vec<u8>, program_id: &Address) -> (found:
    Option<(Address, u8)>)
    ensures
        is_derived(found, seq![first@, second@, third@], *program_id),
{
    let mut seeds: Vec<Vec<u8>> = Vec::new();
    seeds.push(first);
    seeds.push(second);
    seeds.push(third);
    assert(seed_views(seeds@) =~= seq![first@, second@, third@]);
    try_find_program_address(&seeds, program_id)
}

/// The address of the global configuration, with its bump seed.
pub fn derive_listing_config_pda(program_id: &Address) -> (found: Option<(Address, u8)>)
    ensures
        is_derived(found, listing_config_seeds(), *program_id),
{
    find_one(seed_of_str(LISTING_CONFIG_SEED), program_id)
}

/// The address of the treasury, which holds the stakes, with its bump seed.
pub fn derive_treasury_pda(program_id: &Address) -> (found: Option<(Address, u8)>)
    ensures
        is_derived(found, treasury_seeds(), *program_id),
{
    find_one(seed_of_str(LISTING_TREASURY_SEED), program_id)
}

/// The address of the registry entry with index `token_index`, with its bump seed.
pub fn derive_token_registry_pda(token_index: u16, program_id: &Address) -> (found: Option<
    (Address, u8),
>)
    ensures
        is_derived(found, token_registry_seeds(token_index), *program_id),
{
    find_two(seed_of_str(TOKEN_REGISTRY_SEED), u16_to_le_bytes(token_index), program_id)
}

/// The address of the token proposal that `proposer` made under `nonce`, with
/// its bump seed.
pub fn derive_token_proposal_pda(proposer: &Address, nonce: u64, program_id: &Address) -> (found:
    Option<(Address, u8)>)
    ensures
        is_derived(found, token_proposal_seeds(*proposer, nonce), *program_id),
{
    find_three(
        seed_of_str(TOKEN_PROPOSAL_SEED),
        proposer.to_seed(),
        u64_to_le_bytes(nonce),
        program_id,
    )
}

/// The address of the spot market with index `market_index`, with its bump seed.
pub fn derive_spot_market_pda(market_index: u16, program_id: &Address) -> (found: Option<
    (Address, u8),
>)
    ensures
        is_derived(found, spot_market_seeds(market_index), *program_id),
{
    find_two(seed_of_str(SPOT_MARKET_SEED), u16_to_le_bytes(market_index), program_id)
}

/// The address of the spot market proposal that `proposer` made under `nonce`,
/// with its bump seed.
pub fn derive_spot_proposal_pda(proposer: &Address, nonce: u64, program_id: &Address) -> (found:
    Option<(Address, u8)>)
    ensures
        is_derived(found, spot_proposal_seeds(*proposer, nonce), *program_id),
{
    find_three(
        seed_of_str(SPOT_PROPOSAL_SEED),
        proposer.to_seed(),
        u64_to_le_bytes(nonce),
        program_id,
    )
}

/// The address of the perpetual market with index `market_index`, with its
/// bump seed.
pub fn derive_perp_market_pda(market_index: u16, program_id: &Address) -> (found: Option<
    (Address, u8),
>)
    ensures
        is_derived(found, perp_market_seeds(market_index), *program_id),
{
    find_two(seed_of_str(PERP_MARKET_SEED), u16_to_le_bytes(market_index), program_id)
}

/// The address of the perpetual market proposal that `proposer` made under
/// `nonce`, with its bump seed.
pub fn derive_perp_proposal_pda(proposer: &Address, nonce: u64, program_id: &Address) -> (found:
    Option<(Address, u8)>)
    ensures
        is_derived(found, perp_proposal_seeds(*proposer, nonce), *program_id),
{
    find_three(
        seed_of_str(PERP_PROPOSAL_SEED),
        proposer.to_seed(),
        u64_to_le_bytes(nonce),
        program_id,
    )
}

/// The address of the pool of the market stored at `market`, with its bump seed.
pub fn derive_liquidity_pool_pda(market: &Address, program_id: &Address) -> (found: Option<
    (Address, u8),
>)
    ensures
        is_derived(found, liquidity_pool_seeds(*market), *program_id),
{
    find_two(seed_of_str(LIQUIDITY_POOL_SEED), market.to_seed(), program_id)
}

/// The address of the pool that `creator` runs for the market of kind
/// `market_type` with index `market_index`, with its bump seed.
pub fn derive_creator_pool_pda(
    market_type: u8,
    market_index: u16,
    creator: &Address,
    program_id: &Address,
) -> (found: Option<(Address, u8)>)
    ensures
        is_derived(found, creator_pool_seeds(market_type, market_index, *creator), *program_id),
{
    let mut kind: Vec<u8> = Vec::new();
    kind.push(market_type);
    assert(kind@ =~= seq![market_type]);
    let mut seeds: Vec<Vec<u8>> = Vec::new();
    seeds.push(seed_of_str(LIQUIDITY_POOL_SEED));
    seeds.push(kind);
    seeds.push(u16_to_le_bytes(market_index));
    seeds.push(creator.to_seed());
    assert(seed_views(seeds@) =~= creator_pool_seeds(market_type, market_index, *creator));
    try_find_program_address(&seeds, program_id)
}

/// Whether `expected` is the address that the host derives from exactly
/// `seeds` followed by the bump seed.
pub open spec fn pda_matches(
    seeds: Seq<Seq<u8>>,
    bump: u8,
    program_id: Address,
    expected: Address,
) -> bool {
    spec_create_program_address(seeds.push(seq![bump]), program_id@) == Some(expected@)
}

/// Holds an address against the one that was meant to be created from seeds.
pub fn expect_address(created: &Result<Address, PubkeyError>, expected: &Address) -> (res: Result<
    (),
    ProcessError,
>)
    ensures
        res == if created matches Ok(address) && address == *expected {
            Ok(())
        } else {
            refused(ListingError::InvalidPda)
        },
{
    match created {
        Ok(derived) => {
            if *derived != *expected {
                Err(ProcessError::Listing(ListingError::InvalidPda))
            } else {
                Ok(())
            }
        },
        Err(_) => Err(ProcessError::Listing(ListingError::InvalidPda)),
    }
}

/// Checks that `expected` is the program address of `seeds` and `bump`.
pub fn verify_pda(seeds: &Vec<Vec<u8>>, bump: u8, program_id: &Address, expected: &Address) -> (res:
    Result<(), ProcessError>)
    ensures
        res == if pda_matches(seed_views(seeds@), bump, *program_id, *expected) {
            Ok(())
        } else {
            refused(ListingError::InvalidPda)
        },
{
    let mut all: Vec<Vec<u8>> = Vec::new();
    let mut i: usize = 0;
    while i < seeds.len()
        invariant
            i <= seeds.len(),
            all@.len() == i,
            forall|j: int| 0 <= j < i ==> (#[trigger] all@[j])@ == seeds@[j]@,
        decreases seeds.len() - i,
    {
        all.push(slice_to_vec(seeds[i].as_slice()));
        i = i + 1;
    }
    let mut last: Vec<u8> = Vec::new();
    last.push(bump);
    assert(last@ =~= seq![bump]);
    all.push(last);
    assert(seed_views(all@) =~= seed_views(seeds@).push(seq![bump]));
    let created = create_program_address(&all, program_id);
    proof {
        if let Ok(derived) = created {
            if derived@ == expected@ {
                lemma_address_is_its_bytes(derived, *expected);
            }
        }
    }
    expect_address(&created, expected)
}

// ---------------------------------------------------------------------------
// The administrator
// ---------------------------------------------------------------------------
/// Whether `admin` may act as the administrator, and if not, why.
pub open spec fn admin_verdict(admin: Account, config: ListingConfig) -> Result<(), ProcessError> {
    if !admin.is_signer {
        Err(ProcessError::MissingRequiredSignature)
    } else if admin.key != config.admin {
        refused(ListingError::InvalidAdmin)
    } else {
        Ok(())
    }
}

/// Checks that `admin` signed and is the administrator that `config` names.
pub fn verify_admin(admin: &Account, config: &ListingConfig) -> (res: Result<(), ProcessError>)
    ensures
        res == admin_verdict(*admin, *config),
{
    if !admin.is_signer {
        return Err(ProcessError::MissingRequiredSignature);
    }
    if admin.key != config.admin {
        return Err(ProcessError::Listing(ListingError::InvalidAdmin));
    }
    Ok(())
}

// ---------------------------------------------------------------------------
// Rules on what a proposal holds
// ---------------------------------------------------------------------------
/// Whether `c` is an upper-case letter or a digit.
pub open spec fn is_symbol_char(c: u8) -> bool {
    (0x41 <= c <= 0x5A) || (0x30 <= c <= 0x39)
}

/// A token symbol is valid if it has at least two characters before its first
/// zero byte, each an upper-case letter or a digit.
pub open spec fn valid_symbol(symbol: Seq<u8>) -> bool {
    &&& symbol_len(symbol) >= 2
    &&& forall|i: int| 0 <= i < symbol_len(symbol) ==> is_symbol_char(#[trigger] symbol[i])
}

/// Checks a token symbol: two to eight upper-case letters or digits.
pub fn validate_symbol(symbol: &[u8; 8]) -> (res: Result<(), ProcessError>)
    ensures
        res == if valid_symbol(symbol@) {
            Ok(())
        } else {
            refused(ListingError::InvalidSymbol)
        },
{
    let len = symbol_length(symbol.as_slice());
    if len < 2 {
        return Err(ProcessError::Listing(ListingError::InvalidSymbol));
    }
    let mut i: usize = 0;
    while i < len
        invariant
            i <= len <= 8,
            len == symbol_len(symbol@),
            forall|j: int| 0 <= j < i ==> is_symbol_char(#[trigger] symbol@[j]),
        decreases len - i,
    {
        let c = symbol[i];
        if !((c >= 0x41 && c <= 0x5A) || (c >= 0x30 && c <= 0x39)) {
            return Err(ProcessError::Listing(ListingError::InvalidSymbol));
        }
        i = i + 1;
    }
    Ok(())
}

/// The character that parts base and quote in a market symbol: `/` for a spot
/// market, `-` for a perpetual one.
pub open spec fn market_separator(is_spot: bool) -> u8 {
    if is_spot {
        0x2F
    } else {
        0x2D
    }
}

/// A market symbol is valid if it has at least five characters before its first
/// zero byte, among them the separator of its kind.
pub open spec fn valid_market_symbol(symbol: Seq<u8>, is_spot: bool) -> bool {
    &&& symbol_len(symbol) >= 5
    &&& exists|i: int|
        0 <= i < symbol_len(symbol) && #[trigger] symbol[i] == market_separator(is_spot)
}

/// Checks a market symbol: at least five characters, with `/` for a spot
/// market and `-` for a perpetual one.
pub fn validate_market_symbol(symbol: &[u8; 16], is_spot: bool) -> (res: Result<(), ProcessError>)
    ensures
        res == if valid_market_symbol(symbol@, is_spot) {
            Ok(())
        } else {
            refused(ListingError::InvalidSymbol)
        },
{
    let len = symbol_length(symbol.as_slice());
    if len < 5 {
        return Err(ProcessError::Listing(ListingError::InvalidSymbol));
    }
    let separator: u8 = if is_spot {
        0x2F
    } else {
        0x2D
    };
    let mut i: usize = 0;
    while i < len
        invariant
            5 <= len <= 16,
            i <= len,
            len == symbol_len(symbol@),
            separator == market_separator(is_spot),
            forall|j: int| 0 <= j < i ==> #[trigger] symbol@[j] != separator,
        decreases len - i,
    {
        if symbol[i] == separator {
            assert(symbol@[i as int] == market_separator(is_spot));
            return Ok(());
        }
        i = i + 1;
    }
    Err(ProcessError::Listing(ListingError::InvalidSymbol))
}

/// Checks the number of decimals of a token: at most 18.
pub fn validate_decimals(decimals: u8) -> (res: Result<(), ProcessError>)
    ensures
        res == if decimals <= 18 {
            Ok(())
        } else {
            refused(ListingError::InvalidDecimals)
        },
{
    if decimals > 18 {
        return Err(ProcessError::Listing(ListingError::InvalidDecimals));
    }
    Ok(())
}

/// Fees are valid if the taker pays at most 1000 basis points and the maker
/// between -500 and 500.
pub open spec fn valid_fee_rates(taker_fee_bps: u16, maker_fee_bps: i16) -> bool {
    taker_fee_bps <= 1000 && -500 <= maker_fee_bps <= 500
}

/// Checks the fee rates of a market.
pub fn validate_fee_rates(taker_fee_bps: u16, maker_fee_bps: i16) -> (res: Result<
    (),
    ProcessError,
>)
    ensures
        res == if valid_fee_rates(taker_fee_bps, maker_fee_bps) {
            Ok(())
        } else {
            refused(ListingError::InvalidFeeRate)
        },
{
    if taker_fee_bps > 1000 {
        return Err(ProcessError::Listing(ListingError::InvalidFeeRate));
    }
    if maker_fee_bps < -500 || maker_fee_bps > 500 {
        return Err(ProcessError::Listing(ListingError::InvalidFeeRate));
    }
    Ok(())
}

/// Checks the largest leverage of a market: from 1 to 100.
pub fn validate_leverage(max_leverage: u8) -> (res: Result<(), ProcessError>)
    ensures
        res == if 1 <= max_leverage <= 100 {
            Ok(())
        } else {
            refused(ListingError::InvalidLeverage)
        },
{
    if max_leverage == 0 || max_leverage > 100 {
        return Err(ProcessError::Listing(ListingError::InvalidLeverage));
    }
    Ok(())
}

/// What holds of a pair of margin rates, in millionths: each lies in
/// 1..=1,000,000, and the maintenance rate is below the initial rate.
pub open spec fn margin_verdict(initial: u32, maintenance: u32) -> Result<(), ProcessError> {
    if initial == 0 || initial > 1_000_000 {
        refused(ListingError::InvalidInitialMarginRate)
    } else if maintenance == 0 || maintenance > 1_000_000 || maintenance >= initial {
        refused(ListingError::InvalidMaintenanceMarginRate)
    } else {
        Ok(())
    }
}

/// Checks the margin rates of a perpetual market.
pub fn validate_margin_rates(initial_margin_rate_e6: u32, maintenance_margin_rate_e6: u32) -> (res:
    Result<(), ProcessError>)
    ensures
        res == margin_verdict(initial_margin_rate_e6, maintenance_margin_rate_e6),
        res is Ok <==> 0 < maintenance_margin_rate_e6 < initial_margin_rate_e6 <= 1_000_000,
{
    if initial_margin_rate_e6 == 0 || initial_margin_rate_e6 > 1_000_000 {
        return Err(ProcessError::Listing(ListingError::InvalidInitialMarginRate));
    }
    if maintenance_margin_rate_e6 == 0 || maintenance_margin_rate_e6 > 1_000_000 {
        return Err(ProcessError::Listing(ListingError::InvalidMaintenanceMarginRate));
    }
    if maintenance_margin_rate_e6 >= initial_margin_rate_e6 {
        return Err(ProcessError::Listing(ListingError::InvalidMaintenanceMarginRate));
    }
    Ok(())
}

/// What holds of a tick size and a lot size: neither is zero.
pub open spec fn sizes_verdict(tick_size_e6: u64, lot_size_e6: u64) -> Result<(), ProcessError> {
    if tick_size_e6 == 0 {
        refused(ListingError::InvalidTickSize)
    } else if lot_size_e6 == 0 {
        refused(ListingError::InvalidLotSize)
    } else {
        Ok(())
    }
}

/// Checks the tick size and the lot size of a market.
pub fn validate_sizes(tick_size_e6: u64, lot_size_e6: u64) -> (res: Result<(), ProcessError>)
    ensures
        res == sizes_verdict(tick_size_e6, lot_size_e6),
{
    if tick_size_e6 == 0 {
        return Err(ProcessError::Listing(ListingError::InvalidTickSize));
    }
    if lot_size_e6 == 0 {
        return Err(ProcessError::Listing(ListingError::InvalidLotSize));
    }
    Ok(())
}

/// Checks a price range: both bounds positive, the lower below the upper.
pub fn validate_price_range(price_lower_e6: u64, price_upper_e6: u64) -> (res: Result<
    (),
    ProcessError,
>)
    ensures
        res == if 0 < price_lower_e6 < price_upper_e6 {
            Ok(())
        } else {
            refused(ListingError::InvalidPriceRange)
        },
{
    if price_lower_e6 == 0 || price_upper_e6 == 0 {
        return Err(ProcessError::Listing(ListingError::InvalidPriceRange));
    }
    if price_lower_e6 >= price_upper_e6 {
        return Err(ProcessError::Listing(ListingError::InvalidPriceRange));
    }
    Ok(())
}

// ---------------------------------------------------------------------------
// Oracles
// ---------------------------------------------------------------------------
/// The latest price that a price feed reports.
#[derive(Debug, Clone, Copy, PartialEq, Eq, Structural)]
pub struct PriceReading {
    /// The price, to be scaled by ten to the power of `expo`.
    pub price: i64,
    /// The confidence interval around the price.
    pub conf: u64,
    pub expo: i32,
    /// When the price was published, in seconds.
    pub publish_time: i64,
}

/// The distance between two moments, in seconds.
pub open spec fn time_distance(a: i64, b: i64) -> int {
    if a >= b {
        a - b
    } else {
        b - a
    }
}

/// Calls `PriceFeed::get_price_no_older_than` on a feed that reports
/// `reading`: the reading comes back unless it was published more than `age`
/// seconds before or after `current_time`. The feed's identifier has no part in
/// the outcome. Inputs on which the feed's own subtraction would leave the range
/// of `i64` are left out.
#[verifier::external_body]
pub(crate) fn price_no_older_than(reading: &PriceReading, current_time: i64, age: u64) -> (fresh:
    Option<PriceReading>)
    requires
        time_distance(reading.publish_time, current_time) <= i64::MAX,
    ensures
        fresh == if time_distance(reading.publish_time, current_time) > age {
            None
        } else {
            Some(*reading)
        },
{
    let price = Price {
        price: reading.price,
        conf: reading.conf,
        expo: reading.expo,
        publish_time: reading.publish_time,
    };
    PriceFeed::new(PriceIdentifier::new([0u8; 32]), price, price).get_price_no_older_than(
        current_time,
        age,
    ).map(|p| PriceReading { price: p.price, conf: p.conf, expo: p.expo, publish_time: p.publish_time })
}

/// Whether `owner` is one of the two addresses of the Pyth program.
pub open spec fn is_pyth_program(owner: Address) -> bool {
    ||| spec_parse_address(PYTH_MAINNET_PROGRAM_ID@) == Some(owner@)
    ||| spec_parse_address(PYTH_DEVNET_PROGRAM_ID@) == Some(owner@)
}

/// Whether both addresses of the Pyth program can be read.
pub open spec fn pyth_programs_known() -> bool {
    spec_parse_address(PYTH_MAINNET_PROGRAM_ID@) is Some && spec_parse_address(
        PYTH_DEVNET_PROGRAM_ID@,
    ) is Some
}

/// The widest confidence interval accepted for a price: five percent of it.
pub open spec fn max_confidence(price: i64) -> int {
    price * ORACLE_MAX_CONFIDENCE_RATIO / 100
}

/// A reading is usable at `now` if it is at most sixty seconds away from `now`,
/// its price is positive, its confidence interval at most five percent of the
/// price, and its exponent between -18 and 18.
pub open spec fn reading_usable(reading: PriceReading, now: i64) -> bool {
    &&& time_distance(reading.publish_time, now) <= ORACLE_MAX_STALENESS_SECONDS
    &&& reading.price > 0
    &&& reading.conf <= max_confidence(reading.price)
    &&& -18 <= reading.expo <= 18
}

/// An account is a usable Pyth oracle at `now` if the Pyth program owns it, it
/// holds a price feed, and the feed's latest reading is usable.
pub open spec fn pyth_oracle_valid(
    oracle_account: Account,
    feed: Option<PriceReading>,
    now: i64,
) -> bool {
    &&& pyth_programs_known()
    &&& is_pyth_program(oracle_account.owner)
    &&& feed matches Some(reading) && reading_usable(reading, now)
}

/// Whether an account is a usable Pyth oracle at `now`, where `pyth_mainnet`
/// and `pyth_devnet` are the two addresses of the Pyth program.
pub open spec fn pyth_oracle_valid_for(
    oracle_account: Account,
    feed: Option<PriceReading>,
    now: i64,
    pyth_mainnet: Address,
    pyth_devnet: Address,
) -> bool {
    &&& oracle_account.owner == pyth_mainnet || oracle_account.owner == pyth_devnet
    &&& feed matches Some(reading) && reading_usable(reading, now)
}

/// Checks a Pyth price account, given the two addresses of the Pyth program:
/// its owner, and the price it reports.
pub fn check_pyth_oracle(
    oracle_account: &Account,
    feed: &Option<PriceReading>,
    current_timestamp: i64,
    pyth_mainnet: &Address,
    pyth_devnet: &Address,
) -> (res: Result<(), ProcessError>)
    ensures
        res == if pyth_oracle_valid_for(
            *oracle_account,
            *feed,
            current_timestamp,
            *pyth_mainnet,
            *pyth_devnet,
        ) {
            Ok(())
        } else {
            refused(ListingError::InvalidOracle)
        },
{
    if oracle_account.owner != *pyth_mainnet && oracle_account.owner != *pyth_devnet {
        return Err(ProcessError::Listing(ListingError::InvalidOracle));
    }
    let reading = match feed {
        Some(reading) => reading,
        None => {
            return Err(ProcessError::Listing(ListingError::InvalidOracle));
        },
    };
    let distance: i128 = if reading.publish_time >= current_timestamp {
        reading.publish_time as i128 - current_timestamp as i128
    } else {
        current_timestamp as i128 - reading.publish_time as i128
    };
    if distance > i64::MAX as i128 {
        return Err(ProcessError::Listing(ListingError::InvalidOracle));
    }
    let p = match price_no_older_than(
        reading,
        current_timestamp,
        ORACLE_MAX_STALENESS_SECONDS as u64,
    ) {
        Some(p) => p,
        None => {
            return Err(ProcessError::Listing(ListingError::InvalidOracle));
        },
    };
    if p.price <= 0 {
        return Err(ProcessError::Listing(ListingError::InvalidOracle));
    }
    let max_conf: u128 = (p.price as u128) * (ORACLE_MAX_CONFIDENCE_RATIO as u128) / 100;
    if p.conf as u128 > max_conf {
        return Err(ProcessError::Listing(ListingError::InvalidOracle));
    }
    if p.expo < -18 || p.expo > 18 {
        return Err(ProcessError::Listing(ListingError::InvalidOracle));
    }
    Ok(())
}

/// What parsing an address says of who owns an account.
proof fn lemma_parsed_owner(account: Account, text: &str, parsed: Address)
    requires
        spec_parse_address(text@) == Some(parsed@),
    ensures
        (account.owner == parsed) == (spec_parse_address(text@) == Some(account.owner@)),
{
    if account.owner@ == parsed@ {
        lemma_address_is_its_bytes(account.owner, parsed);
    }
}

/// Checks a Pyth price account: its owner, and the price it reports.
///
/// `feed` is the latest reading of the price feed that the account holds, or
/// `None` where the account holds no price feed.
pub fn validate_pyth_oracle(
    oracle_account: &Account,
    feed: &Option<PriceReading>,
    current_timestamp: i64,
) -> (res: Result<(), ProcessError>)
    ensures
        res == if pyth_oracle_valid(*oracle_account, *feed, current_timestamp) {
            Ok(())
        } else {
            refused(ListingError::InvalidOracle)
        },
{
    let pyth_mainnet = match parse_address(PYTH_MAINNET_PROGRAM_ID) {
        Ok(id) => id,
        Err(_) => {
            return Err(ProcessError::Listing(ListingError::InvalidOracle));
        },
    };
    let pyth_devnet = match parse_address(PYTH_DEVNET_PROGRAM_ID) {
        Ok(id) => id,
        Err(_) => {
            return Err(ProcessError::Listing(ListingError::InvalidOracle));
        },
    };
    proof {
        lemma_parsed_owner(*oracle_account, PYTH_MAINNET_PROGRAM_ID, pyth_mainnet);
        lemma_parsed_owner(*oracle_account, PYTH_DEVNET_PROGRAM_ID, pyth_devnet);
    }
    check_pyth_oracle(oracle_account, feed, current_timestamp, &pyth_mainnet, &pyth_devnet)
}

/// An oracle account is accepted for a listing if the system program owns it,
/// or if the Pyth program owns it and it holds a price feed.
pub open spec fn oracle_exists(oracle_account: Account, feed: Option<PriceReading>) -> bool {
    &&& pyth_programs_known()
    &&& {
        ||| oracle_account.owner@ == zero_bytes()
        ||| is_pyth_program(oracle_account.owner) && feed is Some
    }
}

/// Whether an oracle account is accepted for a listing, where `pyth_mainnet`
/// and `pyth_devnet` are the two addresses of the Pyth program and
/// `system_program` is the address of the system program.
pub open spec fn oracle_exists_for(
    oracle_account: Account,
    feed: Option<PriceReading>,
    pyth_mainnet: Address,
    pyth_devnet: Address,
    system_program: Address,
) -> bool {
    ||| oracle_account.owner == system_program
    ||| (oracle_account.owner == pyth_mainnet || oracle_account.owner == pyth_devnet) && feed
        is Some
}

/// Checks that an account can serve as the oracle of a listing, given the
/// addresses of the Pyth program and of the system program; no price is looked
/// at.
pub fn check_oracle_exists(
    oracle_account: &Account,
    feed: &Option<PriceReading>,
    pyth_mainnet: &Address,
    pyth_devnet: &Address,
    system_program: &Address,
) -> (res: Result<(), ProcessError>)
    ensures
        res == if oracle_exists_for(
            *oracle_account,
            *feed,
            *pyth_mainnet,
            *pyth_devnet,
            *system_program,
        ) {
            Ok(())
        } else {
            refused(ListingError::InvalidOracle)
        },
{
    let is_system: bool = oracle_account.owner == *system_program;
    if oracle_account.owner != *pyth_mainnet && oracle_account.owner != *pyth_devnet && !is_system {
        return Err(ProcessError::Listing(ListingError::InvalidOracle));
    }
    if !is_system {
        if feed.is_none() {
            return Err(ProcessError::Listing(ListingError::InvalidOracle));
        }
    }
    Ok(())
}

/// Checks that an account can serve as the oracle of a listing; no price is
/// looked at.
///
/// `feed` is the latest reading of the price feed that the account holds, or
/// `None` where the account holds no price feed.
pub fn validate_oracle_exists(oracle_account: &Account, feed: &Option<PriceReading>) -> (res:
    Result<(), ProcessError>)
    ensures
        res == if oracle_exists(*oracle_account, *feed) {
            Ok(())
        } else {
            refused(ListingError::InvalidOracle)
        },
{
    let pyth_mainnet = match parse_address(PYTH_MAINNET_PROGRAM_ID) {
        Ok(id) => id,
        Err(_) => {
            return Err(ProcessError::Listing(ListingError::InvalidOracle));
        },
    };
    let pyth_devnet = match parse_address(PYTH_DEVNET_PROGRAM_ID) {
        Ok(id) => id,
        Err(_) => {
            return Err(ProcessError::Listing(ListingError::InvalidOracle));
        },
    };
    let system_program = system_program_id();
    proof {
        lemma_parsed_owner(*oracle_account, PYTH_MAINNET_PROGRAM_ID, pyth_mainnet);
        lemma_parsed_owner(*oracle_account, PYTH_DEVNET_PROGRAM_ID, pyth_devnet);
        if oracle_account.owner@ == system_program@ {
            lemma_address_is_its_bytes(oracle_account.owner, system_program);
        }
    }
    check_oracle_exists(oracle_account, feed, &pyth_mainnet, &pyth_devnet, &system_program)
}

// ---------------------------------------------------------------------------
// Native balances
// ---------------------------------------------------------------------------
/// What moving `amount` from `from` to `to` leads to: the two accounts with
/// their new balances, or the reason for which nothing moves.
pub open spec fn moved(from: Account, to: Account, amount: u64) -> Result<
    (Account, Account),
    ProcessError,
> {
    if from.lamports < amount {
        Err(ProcessError::InsufficientFunds)
    } else if to.lamports + amount > u64::MAX {
        Err(ProcessError::ArithmeticOverflow)
    } else {
        Ok(
            (
                Account { lamports: (from.lamports - amount) as u64, ..from },
                Account { lamports: (to.lamports + amount) as u64, ..to },
            ),
        )
    }
}

/// Moves `amount` of the native balance of an account that the program owns
/// to another account. Nothing changes where the move is refused.
pub fn transfer_lamports_from_pda(from_pda: &mut Account, to: &mut Account, amount: u64) -> (res:
    Result<(), ProcessError>)
    ensures
        match moved(*old(from_pda), *old(to), amount) {
            Ok((from_after, to_after)) => res is Ok && *final(from_pda) == from_after && *final(to)
                == to_after,
            Err(e) => res == Err::<(), ProcessError>(e) && *final(from_pda) == *old(from_pda)
                && *final(to) == *old(to),
        },
{
    if from_pda.lamports < amount {
        return Err(ProcessError::InsufficientFunds);
    }
    if amount > u64::MAX - to.lamports {
        return Err(ProcessError::ArithmeticOverflow);
    }
    from_pda.lamports = from_pda.lamports - amount;
    to.lamports = to.lamports + amount;
    Ok(())
}

/// What a transfer that `from` has to sign leads to.
pub open spec fn moved_signed(from: Account, to: Account, amount: u64) -> Result<
    (Account, Account),
    ProcessError,
> {
    if !from.is_signer {
        Err(ProcessError::MissingRequiredSignature)
    } else {
        moved(from, to, amount)
    }
}

/// Moves `amount` of the native balance of an account that signed to another
/// account. Nothing changes where the move is refused.
pub fn transfer_native_lamports(from: &mut Account, to: &mut Account, amount: u64) -> (res: Result<
    (),
    ProcessError,
>)
    ensures
        match moved_signed(*old(from), *old(to), amount) {
            Ok((from_after, to_after)) => res is Ok && *final(from) == from_after && *final(to)
                == to_after,
            Err(e) => res == Err::<(), ProcessError>(e) && *final(from) == *old(from) && *final(to)
                == *old(to),
        },
{
    if !from.is_signer {
        return Err(ProcessError::MissingRequiredSignature);
    }
    transfer_lamports_from_pda(from, to, amount)
}

/// A move of native balance neither makes nor loses any.
pub proof fn lemma_moved_keeps_the_sum(from: Account, to: Account, amount: u64)
    requires
        moved(from, to, amount) is Ok,
    ensures
        ({
            let (from_after, to_after) = moved(from, to, amount)->Ok_0;
            &&& from_after.lamports + to_after.lamports == from.lamports + to.lamports
            &&& from_after.lamports == from.lamports - amount
        }),
{
}

} // verus!
