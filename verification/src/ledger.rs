//! A keyed store of the protocol's records with the treasury that backs them.
//!
//! The ledger holds the global configuration, the treasury, every proposal
//! under its proposer and nonce, every registry entry and market under its
//! index, and every liquidity pool under its market and creator. Its
//! operations find the records that an operation of the protocol works on, run
//! that operation, and store what it leaves. Whatever the sequence of
//! operations, the ledger stays well formed: indices are dense, keys name one
//! record at most, and the global count of staked value is exactly what the
//! proposals account for and is backed by the treasury's balance.

pub mod admin;
pub mod perp;
pub mod pool;

pub mod spot;
pub mod token;

use crate::address::{spec_find_program_address, Address};
use crate::error::{ListingError, ProcessError};
use crate::lifecycle::escrowed;
use crate::processor::admin::{initial_config, pda_bump, process_initialize};
use crate::processor::perp::{perp_market_valid, perp_proposal_valid};
use crate::processor::pool::pool_params_valid;
use crate::processor::spot::{spot_market_valid, spot_proposal_valid, token_listed};
use crate::processor::token::token_terms_valid;
use crate::state::{
    new_reserved, Account, Lifecycle, LiquidityPool, ListingConfig, MarketType, PerpMarket,
    PerpMarketProposal, ProposalStatus, SpotMarket,
    SpotMarketProposal, TokenProposal, TokenRegistry,
};
use crate::utils::{
    derive_listing_config_pda, derive_treasury_pda, listing_config_seeds, treasury_seeds,
};
use vstd::prelude::*;

verus! {

/// The records of the protocol and the treasury that holds the stakes.
#[derive(Debug)]
pub struct Ledger {
    /// The address of the program that the record addresses are derived for.
    pub program_id: Address,
    pub config: ListingConfig,
    pub treasury: Account,
    pub token_proposals: Vec<TokenProposal>,
    pub spot_proposals: Vec<SpotMarketProposal>,
    pub perp_proposals: Vec<PerpMarketProposal>,
    /// The registry of tokens; the entry with index `i` stands at position `i`.
    pub tokens: Vec<TokenRegistry>,
    /// The spot markets; the market with index `i` stands at position `i`.
    pub spot_markets: Vec<SpotMarket>,
    /// The perpetual markets; the market with index `i` stands at position `i`.
    pub perp_markets: Vec<PerpMarket>,
    /// The liquidity pools, one at most for a market and a creator.
    pub pools: Vec<LiquidityPool>,
}

/// The stake that the treasury holds on account of a list of proposals.
pub open spec fn total_escrowed(lives: Seq<Lifecycle>) -> int
    decreases lives.len(),
{
    if lives.len() == 0 {
        0
    } else {
        total_escrowed(lives.drop_last()) + escrowed(lives.last())
    }
}

/// A stake counts as given back only on an approved proposal.
pub open spec fn settled(lives: Seq<Lifecycle>) -> bool {
    forall|i: int|
        0 <= i < lives.len() && (#[trigger] lives[i]).stake_claimed ==> lives[i].status
            == ProposalStatus::Approved
}

/// The stakes, states and objections of the token proposals.
pub open spec fn token_lives(proposals: Seq<TokenProposal>) -> Seq<Lifecycle> {
    Seq::new(proposals.len(), |i: int| proposals[i].lifecycle())
}

/// The stakes, states and objections of the spot market proposals.
pub open spec fn spot_lives(proposals: Seq<SpotMarketProposal>) -> Seq<Lifecycle> {
    Seq::new(proposals.len(), |i: int| proposals[i].lifecycle())
}

/// The stakes, states and objections of the perpetual market proposals.
pub open spec fn perp_lives(proposals: Seq<PerpMarketProposal>) -> Seq<Lifecycle> {
    Seq::new(proposals.len(), |i: int| proposals[i].lifecycle())
}

/// Whether the token proposal at position `i` is the one that `proposer` made
/// under `nonce`.
pub open spec fn is_token_proposal(
    proposals: Seq<TokenProposal>,
    proposer: Address,
    nonce: u64,
    i: int,
) -> bool {
    0 <= i < proposals.len() && proposals[i].proposer == proposer && proposals[i].nonce == nonce
}

/// The position of the token proposal that `proposer` made under `nonce`.
pub open spec fn token_proposal_index(
    proposals: Seq<TokenProposal>,
    proposer: Address,
    nonce: u64,
) -> Option<int> {
    if exists|i: int| is_token_proposal(proposals, proposer, nonce, i) {
        Some(choose|i: int| is_token_proposal(proposals, proposer, nonce, i))
    } else {
        None
    }
}

/// No two token proposals have the same proposer and nonce.
pub open spec fn token_keys_unique(proposals: Seq<TokenProposal>) -> bool {
    forall|i: int, j: int|
        0 <= i < j < proposals.len() ==> !(#[trigger] proposals[i].proposer
            == #[trigger] proposals[j].proposer && proposals[i].nonce == proposals[j].nonce)
}

/// Whether the spot market proposal at position `i` is the one that `proposer` made
/// under `nonce`.
pub open spec fn is_spot_proposal(
    proposals: Seq<SpotMarketProposal>,
    proposer: Address,
    nonce: u64,
    i: int,
) -> bool {
    0 <= i < proposals.len() && proposals[i].proposer == proposer && proposals[i].nonce == nonce
}

/// The position of the spot market proposal that `proposer` made under `nonce`.
pub open spec fn spot_proposal_index(
    proposals: Seq<SpotMarketProposal>,
    proposer: Address,
    nonce: u64,
) -> Option<int> {
    if exists|i: int| is_spot_proposal(proposals, proposer, nonce, i) {
        Some(choose|i: int| is_spot_proposal(proposals, proposer, nonce, i))
    } else {
        None
    }
}

/// No two spot market proposals have the same proposer and nonce.
pub open spec fn spot_keys_unique(proposals: Seq<SpotMarketProposal>) -> bool {
    forall|i: int, j: int|
        0 <= i < j < proposals.len() ==> !(#[trigger] proposals[i].proposer
            == #[trigger] proposals[j].proposer && proposals[i].nonce == proposals[j].nonce)
}

/// Whether the perpetual market proposal at position `i` is the one that `proposer` made
/// under `nonce`.
pub open spec fn is_perp_proposal(
    proposals: Seq<PerpMarketProposal>,
    proposer: Address,
    nonce: u64,
    i: int,
) -> bool {
    0 <= i < proposals.len() && proposals[i].proposer == proposer && proposals[i].nonce == nonce
}

/// The position of the perpetual market proposal that `proposer` made under `nonce`.
pub open spec fn perp_proposal_index(
    proposals: Seq<PerpMarketProposal>,
    proposer: Address,
    nonce: u64,
) -> Option<int> {
    if exists|i: int| is_perp_proposal(proposals, proposer, nonce, i) {
        Some(choose|i: int| is_perp_proposal(proposals, proposer, nonce, i))
    } else {
        None
    }
}

/// No two perpetual market proposals have the same proposer and nonce.
pub open spec fn perp_keys_unique(proposals: Seq<PerpMarketProposal>) -> bool {
    forall|i: int, j: int|
        0 <= i < j < proposals.len() ==> !(#[trigger] proposals[i].proposer
            == #[trigger] proposals[j].proposer && proposals[i].nonce == proposals[j].nonce)
}

/// Whether the pool at position `i` is the one that `creator` runs for the
/// market of the given kind and index.
pub open spec fn is_pool(
    pools: Seq<LiquidityPool>,
    kind: MarketType,
    market_index: u16,
    creator: Address,
    i: int,
) -> bool {
    0 <= i < pools.len() && pools[i].market_type == kind && pools[i].market_index == market_index
        && pools[i].creator == creator
}

/// The position of the pool that `creator` runs for the market of the given
/// kind and index.
pub open spec fn pool_index(
    pools: Seq<LiquidityPool>,
    kind: MarketType,
    market_index: u16,
    creator: Address,
) -> Option<int> {
    if exists|i: int| is_pool(pools, kind, market_index, creator, i) {
        Some(choose|i: int| is_pool(pools, kind, market_index, creator, i))
    } else {
        None
    }
}

/// No two pools have the same market and creator.
pub open spec fn pool_keys_unique(pools: Seq<LiquidityPool>) -> bool {
    forall|i: int, j: int|
        0 <= i < j < pools.len() ==> !(#[trigger] pools[i].creator == #[trigger] pools[j].creator
            && pools[i].market_type == pools[j].market_type && pools[i].market_index
            == pools[j].market_index)
}

/// Whether the token with index `token_index` is registered and active.
pub open spec fn token_active(tokens: Seq<TokenRegistry>, token_index: u16) -> bool {
    token_index < tokens.len() && tokens[token_index as int].is_active
}

/// Adding a proposal adds what it accounts for.
pub proof fn lemma_total_escrowed_push(lives: Seq<Lifecycle>, life: Lifecycle)
    ensures
        total_escrowed(lives.push(life)) == total_escrowed(lives) + escrowed(life),
{
    assert(lives.push(life).drop_last() =~= lives);
}

/// Changing one proposal changes the total by what that proposal accounts for
/// more or less than before.
pub proof fn lemma_total_escrowed_update(lives: Seq<Lifecycle>, i: int, life: Lifecycle)
    requires
        0 <= i < lives.len(),
    ensures
        total_escrowed(lives.update(i, life)) == total_escrowed(lives) - escrowed(lives[i])
            + escrowed(life),
    decreases lives.len(),
{
    if i == lives.len() - 1 {
        assert(lives.update(i, life).drop_last() =~= lives.drop_last());
    } else {
        lemma_total_escrowed_update(lives.drop_last(), i, life);
        assert(lives.update(i, life).drop_last() =~= lives.drop_last().update(i, life));
    }
}

/// What one proposal accounts for is part of the total.
pub proof fn lemma_total_escrowed_part(lives: Seq<Lifecycle>, i: int)
    requires
        0 <= i < lives.len(),
    ensures
        escrowed(lives[i]) <= total_escrowed(lives),
    decreases lives.len(),
{
    lemma_total_escrowed_nonnegative(lives.drop_last());
    if i < lives.len() - 1 {
        lemma_total_escrowed_part(lives.drop_last(), i);
    }
}

/// What the proposals account for is never negative.
pub proof fn lemma_total_escrowed_nonnegative(lives: Seq<Lifecycle>)
    ensures
        total_escrowed(lives) >= 0,
    decreases lives.len(),
{
    if lives.len() > 0 {
        lemma_total_escrowed_nonnegative(lives.drop_last());
    }
}

impl Ledger {
    /// The stake that the treasury holds on account of all proposals.
    pub open spec fn escrow(&self) -> int {
        total_escrowed(token_lives(self.token_proposals@)) + total_escrowed(
            spot_lives(self.spot_proposals@),
        ) + total_escrowed(perp_lives(self.perp_proposals@))
    }

    /// What holds of a ledger between operations.
    pub open spec fn wf(&self) -> bool {
        // The treasury is the configured one and backs the count of staked value.
        &&& self.treasury.key == self.config.treasury
        &&& self.treasury.lamports >= self.config.total_staked_lamports
        // The count of staked value is what the proposals account for.
        &&& self.config.total_staked_lamports == self.escrow()
        &&& settled(token_lives(self.token_proposals@))
        &&& settled(spot_lives(self.spot_proposals@))
        &&& settled(perp_lives(self.perp_proposals@))
        // Registry entries and markets stand at their indices, without gaps.
        &&& self.tokens@.len() == self.config.total_tokens
        &&& forall|i: int| 0 <= i < self.tokens@.len() ==> (#[trigger] self.tokens@[i]).token_index == i
        &&& self.spot_markets@.len() == self.config.total_spot_markets
        &&& forall|i: int|
            0 <= i < self.spot_markets@.len() ==> (#[trigger] self.spot_markets@[i]).market_index
                == i
        &&& self.perp_markets@.len() == self.config.total_perp_markets
        &&& forall|i: int|
            0 <= i < self.perp_markets@.len() ==> (#[trigger] self.perp_markets@[i]).market_index
                == i
        // A proposer and a nonce name one proposal of a kind at most.
        &&& token_keys_unique(self.token_proposals@)
        &&& spot_keys_unique(self.spot_proposals@)
        &&& perp_keys_unique(self.perp_proposals@)
        // What every record holds is valid.
        &&& forall|i: int|
            0 <= i < self.token_proposals@.len() ==> token_terms_valid(
                (#[trigger] self.token_proposals@[i]).symbol,
                self.token_proposals@[i].decimals,
            )
        &&& forall|i: int|
            0 <= i < self.tokens@.len() ==> token_terms_valid(
                (#[trigger] self.tokens@[i]).symbol,
                self.tokens@[i].decimals,
            )
        &&& forall|i: int|
            0 <= i < self.spot_proposals@.len() ==> spot_proposal_valid(
                #[trigger] self.spot_proposals@[i],
            )
        &&& forall|i: int|
            0 <= i < self.spot_markets@.len() ==> spot_market_valid(#[trigger] self.spot_markets@[i])
        &&& forall|i: int|
            0 <= i < self.perp_proposals@.len() ==> perp_proposal_valid(
                #[trigger] self.perp_proposals@[i],
            )
        &&& forall|i: int|
            0 <= i < self.perp_markets@.len() ==> perp_market_valid(#[trigger] self.perp_markets@[i])
        // A market and a creator name one pool at most, and every pool's
        // parameters are valid.
        &&& pool_keys_unique(self.pools@)
        &&& forall|i: int| 0 <= i < self.pools@.len() ==> pool_params_valid(#[trigger] self.pools@[i])
    }

    /// Whether `self` holds the same proposals as `before`.
    pub open spec fn same_proposals(&self, before: Ledger) -> bool {
        &&& self.token_proposals@ == before.token_proposals@
        &&& self.spot_proposals@ == before.spot_proposals@
        &&& self.perp_proposals@ == before.perp_proposals@
    }

    /// Whether `self` holds the same registry entries and markets as `before`.
    pub open spec fn same_listings(&self, before: Ledger) -> bool {
        &&& self.tokens@ == before.tokens@
        &&& self.spot_markets@ == before.spot_markets@
        &&& self.perp_markets@ == before.perp_markets@
    }

    /// Whether `self` has the same program, configuration and treasury as
    /// `before`.
    pub open spec fn same_funds(&self, before: Ledger) -> bool {
        &&& self.program_id == before.program_id
        &&& self.config == before.config
        &&& self.treasury == before.treasury
    }

    /// Sets up the protocol with an empty treasury and no records. The one who
    /// signs becomes the administrator.
    pub fn new(
        program_id: Address,
        admin: &Account,
        vault_program: Address,
        fund_program: Address,
        ledger_program: Address,
    ) -> (res: Result<Ledger, ProcessError>)
        ensures
            match res {
                Ok(ledger) => {
                    &&& ledger.wf()
                    &&& admin.is_signer
                    &&& ledger.program_id == program_id
                    &&& pda_bump(ledger.treasury.key, treasury_seeds(), program_id) is Some
                    &&& pda_bump(ledger.config.treasury, treasury_seeds(), program_id) is Some
                    &&& ledger.config == initial_config(
                        admin.key,
                        ledger.treasury.key,
                        vault_program,
                        fund_program,
                        ledger_program,
                        ledger.config.bump,
                    )
                    &&& ledger.treasury.lamports == 0
                    &&& ledger.token_proposals@.len() == 0
                    &&& ledger.spot_proposals@.len() == 0
                    &&& ledger.perp_proposals@.len() == 0
                    &&& ledger.pools@.len() == 0
                },
                Err(e) => {
                    ||| e == ProcessError::MissingRequiredSignature && !admin.is_signer
                    ||| e == ProcessError::Listing(ListingError::InvalidPda) && admin.is_signer && (
                    spec_find_program_address(listing_config_seeds(), program_id@) is None
                        || spec_find_program_address(treasury_seeds(), program_id@) is None)
                },
            },
    {
        if !admin.is_signer {
            return Err(ProcessError::MissingRequiredSignature);
        }
        let config_key = match derive_listing_config_pda(&program_id) {
            Some((key, _)) => key,
            None => {
                return Err(ProcessError::Listing(ListingError::InvalidPda));
            },
        };
        let treasury_key = match derive_treasury_pda(&program_id) {
            Some((key, _)) => key,
            None => {
                return Err(ProcessError::Listing(ListingError::InvalidPda));
            },
        };
        let config_account = Account {
            key: config_key,
            owner: program_id,
            lamports: 0,
            is_signer: false,
            data_is_empty: true,
        };
        let treasury = Account {
            key: treasury_key,
            owner: program_id,
            lamports: 0,
            is_signer: false,
            data_is_empty: true,
        };
        let made = match process_initialize(
            &program_id,
            admin,
            &config_account,
            &treasury,
            vault_program,
            fund_program,
            ledger_program,
        ) {
            Ok(made) => made,
            Err(e) => {
                return Err(e);
            },
        };
        let ledger = Ledger {
            program_id,
            config: made.config,
            treasury,
            token_proposals: Vec::new(),
            spot_proposals: Vec::new(),
            perp_proposals: Vec::new(),
            tokens: Vec::new(),
            spot_markets: Vec::new(),
            perp_markets: Vec::new(),
            pools: Vec::new(),
        };
        assert(token_lives(ledger.token_proposals@) =~= Seq::empty());
        assert(spot_lives(ledger.spot_proposals@) =~= Seq::empty());
        assert(perp_lives(ledger.perp_proposals@) =~= Seq::empty());
        Ok(ledger)
    }

    /// The registry entry with index `token_index`, or where there is none, an
    /// entry that is not active.
    pub(crate) fn token_or_blank(&self, token_index: u16) -> (entry: TokenRegistry)
        requires
            self.wf(),
        ensures
            token_listed(entry, token_index) == token_active(self.tokens@, token_index),
    {
        if (token_index as usize) < self.tokens.len() {
            self.tokens[token_index as usize]
        } else {
            TokenRegistry {
                discriminator: TokenRegistry::DISCRIMINATOR,
                version: 1,
                token_index,
                symbol: [0u8; 8],
                mint: self.program_id,
                decimals: 0,
                oracle: None,
                is_active: false,
                proposer: self.program_id,
                approved_at: 0,
                bump: 0,
                reserved: new_reserved(),
            }
        }
    }

    /// An account of the program as an operation sees it: at the derived address
    /// where there is one, with or without data.
    pub(crate) fn vacant_account(&self, found: Option<(Address, u8)>, vacant: bool) -> (account: Account)
        ensures
            account.data_is_empty == vacant,
            found matches Some((key, _)) ==> account.key == key,
            found is None ==> account.key == self.program_id,
    {
        let key = match found {
            Some((key, _)) => key,
            None => self.program_id,
        };
        Account { key, owner: self.program_id, lamports: 0, is_signer: false, data_is_empty: vacant }
    }
}

} // verus!
