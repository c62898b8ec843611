//! The records that the protocol keeps: the global configuration, proposals,
//! registry entries, markets and liquidity pools.

use crate::address::Address;
use vstd::prelude::*;
use vstd::string::*;
use vstd::utf8::*;

verus! {

// Seeds of the addresses under which the records are stored.
pub const LISTING_CONFIG_SEED: &'static str = "listing_config";

pub const LISTING_TREASURY_SEED: &'static str = "listing_treasury";

pub const TOKEN_REGISTRY_SEED: &'static str = "token";

pub const TOKEN_PROPOSAL_SEED: &'static str = "token_proposal";

pub const SPOT_MARKET_SEED: &'static str = "spot_market";

pub const SPOT_PROPOSAL_SEED: &'static str = "spot_proposal";

pub const PERP_MARKET_SEED: &'static str = "perp_market";

pub const PERP_PROPOSAL_SEED: &'static str = "perp_proposal";

pub const LIQUIDITY_POOL_SEED: &'static str = "plp4_pool";

// Marks that tell the kinds of record apart.
pub const LISTING_CONFIG_DISCRIMINATOR: u64 = 0x4C495354_434F4E46;

pub const TOKEN_REGISTRY_DISCRIMINATOR: u64 = 0x544F4B45_4E524547;

pub const TOKEN_PROPOSAL_DISCRIMINATOR: u64 = 0x544F4B45_4E50524F;

pub const SPOT_MARKET_DISCRIMINATOR: u64 = 0x53504F54_4D4B5420;

pub const SPOT_PROPOSAL_DISCRIMINATOR: u64 = 0x53504F54_50524F50;

pub const PERP_MARKET_DISCRIMINATOR: u64 = 0x50455250_4D4B5420;

pub const PERP_PROPOSAL_DISCRIMINATOR: u64 = 0x50455250_50524F50;

pub const LIQUIDITY_POOL_DISCRIMINATOR: u64 = 0x504C5034_504F4F4C;

// Sizes in bytes of the stored records, field by field.
pub const LISTING_CONFIG_SIZE: usize = 8 + 1 + 32 + 32 + 32 + 32 + 32 + 8 + 8 + 8 + 4 + 4 + 4 + 4
    + 2 + 2 + 2 + 8 + 1 + 1 + 64;

pub const TOKEN_REGISTRY_SIZE: usize = 8 + 1 + 2 + 8 + 32 + 1 + 33 + 1 + 32 + 8 + 1 + 64;

pub const TOKEN_PROPOSAL_SIZE: usize = 8 + 1 + 32 + 8 + 8 + 32 + 1 + 33 + 8 + 1 + 8 + 8 + 2 + 8 + 1
    + 1 + 64;

pub const SPOT_MARKET_SIZE: usize = 8 + 1 + 2 + 16 + 2 + 2 + 8 + 8 + 2 + 2 + 8 + 8 + 1 + 1 + 32 + 8
    + 1 + 64;

pub const SPOT_PROPOSAL_SIZE: usize = 8 + 1 + 32 + 8 + 16 + 2 + 2 + 8 + 8 + 2 + 2 + 8 + 8 + 8 + 1
    + 8 + 8 + 2 + 8 + 1 + 1 + 64;

pub const PERP_MARKET_SIZE: usize = 8 + 1 + 2 + 16 + 2 + 2 + 32 + 8 + 8 + 1 + 4 + 4 + 2 + 2 + 8 + 8
    + 8 + 8 + 8 + 8 + 8 + 8 + 1 + 1 + 32 + 8 + 1 + 64;

pub const PERP_PROPOSAL_SIZE: usize = 8 + 1 + 32 + 8 + 16 + 2 + 2 + 32 + 8 + 8 + 1 + 4 + 4 + 2 + 2
    + 8 + 8 + 8 + 8 + 8 + 1 + 8 + 8 + 2 + 8 + 1 + 1 + 64;

pub const LIQUIDITY_POOL_SIZE: usize = 8 + 1 + 1 + 2 + 8 + 32 + 32 + 8 + 8 + 8 + 8 + 8 + 2 + 8 + 1
    + 8 + 8 + 8 + 1 + 64;

/// The space that every record keeps for later use, filled with zero bytes.
pub open spec fn blank_reserved() -> [u8; 64] {
    vstd::array::spec_array_fill_for_copy_type::<u8, 64>(0u8)
}

/// The space that every record keeps for later use, filled with zero bytes.
pub fn new_reserved() -> (reserved: [u8; 64])
    ensures
        reserved == blank_reserved(),
        forall|i: int| 0 <= i < 64 ==> reserved[i] == 0,
{
    [0u8; 64]
}

/// Where a proposal stands in its life.
#[derive(Debug, Clone, Copy, PartialEq, Eq, Structural)]
pub enum ProposalStatus {
    /// Under review.
    Pending,
    /// Accepted, by the administrator or by the end of an unopposed review.
    Approved,
    /// Refused by the administrator.
    Rejected,
    /// Withdrawn by its proposer.
    Cancelled,
}

impl Default for ProposalStatus {
    fn default() -> (status: Self)
        ensures
            status == ProposalStatus::Pending,
    {
        ProposalStatus::Pending
    }
}

/// The kind of market that a liquidity pool serves.
#[derive(Debug, Clone, Copy, PartialEq, Eq, Structural)]
pub enum MarketType {
    Spot,
    Perp,
}

impl MarketType {
    /// The number that stands for this kind: 0 for spot, 1 for perpetual.
    pub open spec fn spec_code(self) -> u8 {
        match self {
            MarketType::Spot => 0,
            MarketType::Perp => 1,
        }
    }

    /// The number that stands for this kind.
    pub fn code(&self) -> (code: u8)
        ensures
            code == self.spec_code(),
    {
        match self {
            MarketType::Spot => 0,
            MarketType::Perp => 1,
        }
    }
}

/// What an operation reads of an account, apart from the record stored in it.
#[derive(Debug, Clone, Copy, PartialEq, Eq)]
pub struct Account {
    /// The account's address.
    pub key: Address,
    /// The program that owns the account.
    pub owner: Address,
    /// The native balance of the account.
    pub lamports: u64,
    /// Whether the account authorised the operation.
    pub is_signer: bool,
    /// Whether the account holds no data yet.
    pub data_is_empty: bool,
}

/// The global configuration of the protocol: one record.
#[derive(Debug, Clone, Copy, PartialEq, Eq)]
pub struct ListingConfig {
    pub discriminator: u64,
    pub version: u8,
    /// The administrator.
    pub admin: Address,
    /// The account that holds every stake and every forfeit.
    pub treasury: Address,
    pub vault_program: Address,
    pub fund_program: Address,
    pub ledger_program: Address,
    /// The stake that a token proposal takes.
    pub token_stake_amount: u64,
    /// The stake that a spot market proposal takes.
    pub spot_stake_amount: u64,
    /// The stake that a perpetual market proposal takes.
    pub perp_stake_amount: u64,
    pub token_review_period_seconds: u32,
    pub spot_review_period_seconds: u32,
    pub perp_review_period_seconds: u32,
    /// How long after its approval a proposal's stake stays locked.
    pub stake_lock_period_seconds: u32,
    /// The number of registered tokens, and the index of the next one.
    pub total_tokens: u16,
    /// The number of spot markets, and the index of the next one.
    pub total_spot_markets: u16,
    /// The number of perpetual markets, and the index of the next one.
    pub total_perp_markets: u16,
    /// The stake that is counted as held in the treasury.
    pub total_staked_lamports: u64,
    /// Whether new proposals are refused.
    pub is_paused: bool,
    pub bump: u8,
    pub reserved: [u8; 64],
}

impl ListingConfig {
    pub const DISCRIMINATOR: u64 = LISTING_CONFIG_DISCRIMINATOR;

    /// 1,000 native tokens of nine decimals.
    pub const DEFAULT_TOKEN_STAKE: u64 = 1_000_000_000_000;

    /// 2,000 native tokens.
    pub const DEFAULT_SPOT_STAKE: u64 = 2_000_000_000_000;

    /// 5,000 native tokens.
    pub const DEFAULT_PERP_STAKE: u64 = 5_000_000_000_000;

    /// Seven days.
    pub const DEFAULT_TOKEN_REVIEW_PERIOD: u32 = 7 * 24 * 60 * 60;

    /// Seven days.
    pub const DEFAULT_SPOT_REVIEW_PERIOD: u32 = 7 * 24 * 60 * 60;

    /// Fourteen days.
    pub const DEFAULT_PERP_REVIEW_PERIOD: u32 = 14 * 24 * 60 * 60;

    /// Thirty days.
    pub const DEFAULT_STAKE_LOCK_PERIOD: u32 = 30 * 24 * 60 * 60;
}

/// The part of a proposal that its kind does not change: the stake, the state,
/// the review window and the objections.
#[derive(Debug, Clone, Copy, PartialEq, Eq, Structural)]
pub struct Lifecycle {
    /// The stake taken when the proposal was made.
    pub stake_amount: u64,
    pub status: ProposalStatus,
    pub created_at: i64,
    /// The last moment at which an objection is accepted.
    pub review_deadline: i64,
    pub objection_count: u16,
    pub objection_stake: u64,
    /// Whether the stake went back to the proposer.
    pub stake_claimed: bool,
}

/// A registered token.
#[derive(Debug, Clone, Copy, PartialEq, Eq)]
pub struct TokenRegistry {
    pub discriminator: u64,
    pub version: u8,
    pub token_index: u16,
    /// Up to eight characters, padded with zero bytes.
    pub symbol: [u8; 8],
    pub mint: Address,
    pub decimals: u8,
    pub oracle: Option<Address>,
    pub is_active: bool,
    pub proposer: Address,
    pub approved_at: i64,
    pub bump: u8,
    pub reserved: [u8; 64],
}

/// A proposal to register a token.
#[derive(Debug, Clone, Copy, PartialEq, Eq)]
pub struct TokenProposal {
    pub discriminator: u64,
    pub version: u8,
    pub proposer: Address,
    pub nonce: u64,
    pub symbol: [u8; 8],
    pub mint: Address,
    pub decimals: u8,
    pub oracle: Option<Address>,
    pub stake_amount: u64,
    pub status: ProposalStatus,
    pub created_at: i64,
    pub review_deadline: i64,
    pub objection_count: u16,
    pub objection_stake: u64,
    pub stake_claimed: bool,
    pub bump: u8,
    pub reserved: [u8; 64],
}

/// A spot market.
#[derive(Debug, Clone, Copy, PartialEq, Eq)]
pub struct SpotMarket {
    pub discriminator: u64,
    pub version: u8,
    pub market_index: u16,
    /// Up to sixteen characters, padded with zero bytes.
    pub symbol: [u8; 16],
    pub base_token_index: u16,
    pub quote_token_index: u16,
    pub tick_size_e6: u64,
    pub lot_size_e6: u64,
    pub taker_fee_bps: u16,
    pub maker_fee_bps: i16,
    pub min_order_size_e6: u64,
    pub max_order_size_e6: u64,
    pub is_active: bool,
    pub is_paused: bool,
    pub proposer: Address,
    pub approved_at: i64,
    pub bump: u8,
    pub reserved: [u8; 64],
}

/// A proposal to open a spot market.
#[derive(Debug, Clone, Copy, PartialEq, Eq)]
pub struct SpotMarketProposal {
    pub discriminator: u64,
    pub version: u8,
    pub proposer: Address,
    pub nonce: u64,
    pub symbol: [u8; 16],
    pub base_token_index: u16,
    pub quote_token_index: u16,
    pub tick_size_e6: u64,
    pub lot_size_e6: u64,
    pub taker_fee_bps: u16,
    pub maker_fee_bps: i16,
    pub min_order_size_e6: u64,
    pub max_order_size_e6: u64,
    pub stake_amount: u64,
    pub status: ProposalStatus,
    pub created_at: i64,
    pub review_deadline: i64,
    pub objection_count: u16,
    pub objection_stake: u64,
    pub stake_claimed: bool,
    pub bump: u8,
    pub reserved: [u8; 64],
}

/// A perpetual market.
#[derive(Debug, Clone, Copy, PartialEq, Eq)]
pub struct PerpMarket {
    pub discriminator: u64,
    pub version: u8,
    pub market_index: u16,
    pub symbol: [u8; 16],
    pub base_token_index: u16,
    pub quote_token_index: u16,
    pub oracle: Address,
    pub tick_size_e6: u64,
    pub lot_size_e6: u64,
    pub max_leverage: u8,
    pub initial_margin_rate_e6: u32,
    pub maintenance_margin_rate_e6: u32,
    pub taker_fee_bps: u16,
    pub maker_fee_bps: i16,
    pub min_order_size_e6: u64,
    pub max_order_size_e6: u64,
    pub max_open_interest_e6: u64,
    pub current_open_interest_long_e6: u64,
    pub current_open_interest_short_e6: u64,
    pub insurance_fund_deposit_e6: u64,
    pub funding_rate_e9: i64,
    pub last_funding_ts: i64,
    pub is_active: bool,
    pub is_paused: bool,
    pub proposer: Address,
    pub approved_at: i64,
    pub bump: u8,
    pub reserved: [u8; 64],
}

/// A proposal to open a perpetual market.
#[derive(Debug, Clone, Copy, PartialEq, Eq)]
pub struct PerpMarketProposal {
    pub discriminator: u64,
    pub version: u8,
    pub proposer: Address,
    pub nonce: u64,
    pub symbol: [u8; 16],
    pub base_token_index: u16,
    pub quote_token_index: u16,
    pub oracle: Address,
    pub tick_size_e6: u64,
    pub lot_size_e6: u64,
    pub max_leverage: u8,
    pub initial_margin_rate_e6: u32,
    pub maintenance_margin_rate_e6: u32,
    pub taker_fee_bps: u16,
    pub maker_fee_bps: i16,
    pub min_order_size_e6: u64,
    pub max_order_size_e6: u64,
    pub max_open_interest_e6: u64,
    pub insurance_fund_deposit_e6: u64,
    pub stake_amount: u64,
    pub status: ProposalStatus,
    pub created_at: i64,
    pub review_deadline: i64,
    pub objection_count: u16,
    pub objection_stake: u64,
    pub stake_claimed: bool,
    pub bump: u8,
    pub reserved: [u8; 64],
}

/// A liquidity pool that its creator runs for one market.
#[derive(Debug, Clone, Copy, PartialEq, Eq)]
pub struct LiquidityPool {
    pub discriminator: u64,
    pub version: u8,
    pub market_type: MarketType,
    pub market_index: u16,
    pub nonce: u64,
    pub creator: Address,
    /// The address of the market's record.
    pub market: Address,
    /// The declared balance of the base token.
    pub base_amount_e6: u64,
    /// The declared balance of the quote token.
    pub quote_amount_e6: u64,
    pub lp_token_supply_e6: u64,
    pub price_lower_e6: u64,
    pub price_upper_e6: u64,
    pub order_density: u16,
    pub spread_bps: u64,
    pub is_active: bool,
    pub created_at: i64,
    pub unlock_time: i64,
    /// When the pool retires; 0 for never.
    pub retire_at: i64,
    pub bump: u8,
    pub reserved: [u8; 64],
}

impl TokenProposal {
    pub const DISCRIMINATOR: u64 = TOKEN_PROPOSAL_DISCRIMINATOR;

    /// The stake, state, review window and objections of this proposal.
    pub open spec fn lifecycle(self) -> Lifecycle {
        Lifecycle {
            stake_amount: self.stake_amount,
            status: self.status,
            created_at: self.created_at,
            review_deadline: self.review_deadline,
            objection_count: self.objection_count,
            objection_stake: self.objection_stake,
            stake_claimed: self.stake_claimed,
        }
    }

    /// This proposal with another stake, state, review window and objections.
    pub open spec fn with_lifecycle(self, life: Lifecycle) -> TokenProposal {
        TokenProposal {
            stake_amount: life.stake_amount,
            status: life.status,
            created_at: life.created_at,
            review_deadline: life.review_deadline,
            objection_count: life.objection_count,
            objection_stake: life.objection_stake,
            stake_claimed: life.stake_claimed,
            ..self
        }
    }

    /// The stake, state, review window and objections of this proposal.
    pub fn get_lifecycle(&self) -> (life: Lifecycle)
        ensures
            life == self.lifecycle(),
    {
        Lifecycle {
            stake_amount: self.stake_amount,
            status: self.status,
            created_at: self.created_at,
            review_deadline: self.review_deadline,
            objection_count: self.objection_count,
            objection_stake: self.objection_stake,
            stake_claimed: self.stake_claimed,
        }
    }

    /// Replaces the stake, state, review window and objections of this proposal.
    pub fn set_lifecycle(&mut self, life: Lifecycle)
        ensures
            *final(self) == old(self).with_lifecycle(life),
    {
        self.stake_amount = life.stake_amount;
        self.status = life.status;
        self.created_at = life.created_at;
        self.review_deadline = life.review_deadline;
        self.objection_count = life.objection_count;
        self.objection_stake = life.objection_stake;
        self.stake_claimed = life.stake_claimed;
    }
}

impl SpotMarketProposal {
    pub const DISCRIMINATOR: u64 = SPOT_PROPOSAL_DISCRIMINATOR;

    /// The stake, state, review window and objections of this proposal.
    pub open spec fn lifecycle(self) -> Lifecycle {
        Lifecycle {
            stake_amount: self.stake_amount,
            status: self.status,
            created_at: self.created_at,
            review_deadline: self.review_deadline,
            objection_count: self.objection_count,
            objection_stake: self.objection_stake,
            stake_claimed: self.stake_claimed,
        }
    }

    /// This proposal with another stake, state, review window and objections.
    pub open spec fn with_lifecycle(self, life: Lifecycle) -> SpotMarketProposal {
        SpotMarketProposal {
            stake_amount: life.stake_amount,
            status: life.status,
            created_at: life.created_at,
            review_deadline: life.review_deadline,
            objection_count: life.objection_count,
            objection_stake: life.objection_stake,
            stake_claimed: life.stake_claimed,
            ..self
        }
    }

    /// The stake, state, review window and objections of this proposal.
    pub fn get_lifecycle(&self) -> (life: Lifecycle)
        ensures
            life == self.lifecycle(),
    {
        Lifecycle {
            stake_amount: self.stake_amount,
            status: self.status,
            created_at: self.created_at,
            review_deadline: self.review_deadline,
            objection_count: self.objection_count,
            objection_stake: self.objection_stake,
            stake_claimed: self.stake_claimed,
        }
    }

    /// Replaces the stake, state, review window and objections of this proposal.
    pub fn set_lifecycle(&mut self, life: Lifecycle)
        ensures
            *final(self) == old(self).with_lifecycle(life),
    {
        self.stake_amount = life.stake_amount;
        self.status = life.status;
        self.created_at = life.created_at;
        self.review_deadline = life.review_deadline;
        self.objection_count = life.objection_count;
        self.objection_stake = life.objection_stake;
        self.stake_claimed = life.stake_claimed;
    }
}

impl PerpMarketProposal {
    pub const DISCRIMINATOR: u64 = PERP_PROPOSAL_DISCRIMINATOR;

    /// The stake, state, review window and objections of this proposal.
    pub open spec fn lifecycle(self) -> Lifecycle {
        Lifecycle {
            stake_amount: self.stake_amount,
            status: self.status,
            created_at: self.created_at,
            review_deadline: self.review_deadline,
            objection_count: self.objection_count,
            objection_stake: self.objection_stake,
            stake_claimed: self.stake_claimed,
        }
    }

    /// This proposal with another stake, state, review window and objections.
    pub open spec fn with_lifecycle(self, life: Lifecycle) -> PerpMarketProposal {
        PerpMarketProposal {
            stake_amount: life.stake_amount,
            status: life.status,
            created_at: life.created_at,
            review_deadline: life.review_deadline,
            objection_count: life.objection_count,
            objection_stake: life.objection_stake,
            stake_claimed: life.stake_claimed,
            ..self
        }
    }

    /// The stake, state, review window and objections of this proposal.
    pub fn get_lifecycle(&self) -> (life: Lifecycle)
        ensures
            life == self.lifecycle(),
    {
        Lifecycle {
            stake_amount: self.stake_amount,
            status: self.status,
            created_at: self.created_at,
            review_deadline: self.review_deadline,
            objection_count: self.objection_count,
            objection_stake: self.objection_stake,
            stake_claimed: self.stake_claimed,
        }
    }

    /// Replaces the stake, state, review window and objections of this proposal.
    pub fn set_lifecycle(&mut self, life: Lifecycle)
        ensures
            *final(self) == old(self).with_lifecycle(life),
    {
        self.stake_amount = life.stake_amount;
        self.status = life.status;
        self.created_at = life.created_at;
        self.review_deadline = life.review_deadline;
        self.objection_count = life.objection_count;
        self.objection_stake = life.objection_stake;
        self.stake_claimed = life.stake_claimed;
    }
}

impl LiquidityPool {
    pub const DISCRIMINATOR: u64 = LIQUIDITY_POOL_DISCRIMINATOR;
}

/// The index of the first zero byte of `symbol` at or after `from`, or the
/// length of `symbol` where there is none.
pub open spec fn first_zero_from(symbol: Seq<u8>, from: int) -> int
    decreases symbol.len() - from,
{
    if from >= symbol.len() || symbol[from] == 0 {
        from
    } else {
        first_zero_from(symbol, from + 1)
    }
}

/// The number of bytes of `symbol` before its first zero byte.
pub open spec fn symbol_len(symbol: Seq<u8>) -> int {
    first_zero_from(symbol, 0)
}

/// The bytes of `symbol` before its first zero byte.
pub open spec fn symbol_text(symbol: Seq<u8>) -> Seq<u8> {
    symbol.take(symbol_len(symbol))
}

/// What `symbol_len` counts: it stops at the first zero byte and nowhere else.
pub proof fn lemma_symbol_len(symbol: Seq<u8>, from: int)
    requires
        0 <= from <= symbol.len(),
    ensures
        from <= first_zero_from(symbol, from) <= symbol.len(),
        forall|i: int| from <= i < first_zero_from(symbol, from) ==> symbol[i] != 0,
        first_zero_from(symbol, from) < symbol.len() ==> symbol[first_zero_from(symbol, from)]
            == 0,
    decreases symbol.len() - from,
{
    if from < symbol.len() && symbol[from] != 0 {
        lemma_symbol_len(symbol, from + 1);
    }
}

/// The number of bytes of a symbol before its first zero byte.
pub fn symbol_length(symbol: &[u8]) -> (len: usize)
    ensures
        len == symbol_len(symbol@),
        len <= symbol@.len(),
{
    let mut i: usize = 0;
    while i < symbol.len() && symbol[i] != 0
        invariant
            i <= symbol@.len(),
            first_zero_from(symbol@, 0) == first_zero_from(symbol@, i as int),
        decreases symbol@.len() - i,
    {
        i = i + 1;
    }
    i
}

/// Calls `std::str::from_utf8`, which accepts exactly the byte strings that are
/// valid UTF-8 and hands back the same bytes as text.
#[verifier::external_body]
pub(crate) fn str_from_utf8(bytes: &[u8]) -> (text: Option<&str>)
    ensures
        text is Some <==> valid_utf8(bytes@),
        text matches Some(s) ==> s.spec_bytes() == bytes@,
{
    std::str::from_utf8(bytes).ok()
}

/// The text of a symbol: its bytes before the first zero byte, or nothing where
/// these are not valid UTF-8.
pub open spec fn symbol_str_bytes(symbol: Seq<u8>) -> Seq<u8> {
    if valid_utf8(symbol_text(symbol)) {
        symbol_text(symbol)
    } else {
        Seq::empty()
    }
}

/// The text of a symbol.
pub fn symbol_to_str(symbol: &[u8]) -> (text: &str)
    ensures
        text.spec_bytes() == symbol_str_bytes(symbol@),
{
    let len = symbol_length(symbol);
    let prefix = vstd::slice::slice_subrange(symbol, 0, len);
    assert(prefix@ == symbol_text(symbol@));
    match str_from_utf8(prefix) {
        Some(text) => text,
        None => {
            proof {
                reveal_strlit("");
                assert("".spec_bytes() =~= Seq::<u8>::empty()) by {
                    assert(""@ =~= Seq::<char>::empty());
                    reveal_with_fuel(encode_utf8, 1);
                }
            }
            ""
        },
    }
}

impl TokenRegistry {
    pub const DISCRIMINATOR: u64 = TOKEN_REGISTRY_DISCRIMINATOR;

    /// The token's symbol as text.
    pub fn symbol_str(&self) -> (text: &str)
        ensures
            text.spec_bytes() == symbol_str_bytes(self.symbol@),
    {
        symbol_to_str(self.symbol.as_slice())
    }
}

impl SpotMarket {
    pub const DISCRIMINATOR: u64 = SPOT_MARKET_DISCRIMINATOR;

    /// The market's symbol as text.
    pub fn symbol_str(&self) -> (text: &str)
        ensures
            text.spec_bytes() == symbol_str_bytes(self.symbol@),
    {
        symbol_to_str(self.symbol.as_slice())
    }
}

impl PerpMarket {
    pub const DISCRIMINATOR: u64 = PERP_MARKET_DISCRIMINATOR;

    /// The market's symbol as text.
    pub fn symbol_str(&self) -> (text: &str)
        ensures
            text.spec_bytes() == symbol_str_bytes(self.symbol@),
    {
        symbol_to_str(self.symbol.as_slice())
    }
}

} // verus!
