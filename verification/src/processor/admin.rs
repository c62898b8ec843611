//! Setting up the protocol and changing its configuration.

use crate::address::{lemma_address_is_its_bytes, spec_find_program_address, Address};
use crate::error::{ListingError, ProcessError};
use crate::state::{blank_reserved, new_reserved, Account, ListingConfig};
use crate::utils::{
    admin_verdict, derive_listing_config_pda, derive_treasury_pda, is_derived,
    listing_config_seeds, treasury_seeds, verify_admin,
};
use vstd::prelude::*;

verus! {

/// The bump seed under which `key` is the program address of `seeds`, or
/// `None` where `key` is not that address.
pub open spec fn pda_bump(key: Address, seeds: Seq<Seq<u8>>, program_id: Address) -> Option<u8> {
    match spec_find_program_address(seeds, program_id@) {
        Some((address, bump)) => if address == key@ {
            Some(bump)
        } else {
            None
        },
        None => None,
    }
}

/// The bump seed that came with a derived address, where `key` is that
/// address.
pub open spec fn matched_bump(derived: Option<(Address, u8)>, key: Address) -> Option<u8> {
    match derived {
        Some((address, bump)) => if address == key {
            Some(bump)
        } else {
            None
        },
        None => None,
    }
}

/// Holding a key against what was derived from some seeds tells whether the
/// key is the program address of those seeds.
pub proof fn lemma_matched_bump(
    derived: Option<(Address, u8)>,
    key: Address,
    seeds: Seq<Seq<u8>>,
    program_id: Address,
)
    requires
        is_derived(derived, seeds, program_id),
    ensures
        matched_bump(derived, key) == pda_bump(key, seeds, program_id),
{
    if let Some((address, _)) = derived {
        if address@ == key@ {
            lemma_address_is_its_bytes(address, key);
        }
    }
}

/// Holds the address of an account against the address that was derived for
/// it: the bump seed where they agree.
pub fn match_pda(derived: &Option<(Address, u8)>, key: &Address) -> (res: Result<u8, ProcessError>)
    ensures
        res == match matched_bump(*derived, *key) {
            Some(bump) => Ok::<u8, ProcessError>(bump),
            None => Err::<u8, ProcessError>(ProcessError::Listing(ListingError::InvalidPda)),
        },
{
    match derived {
        Some((expected, bump)) => {
            if *key != *expected {
                Err(ProcessError::Listing(ListingError::InvalidPda))
            } else {
                Ok(*bump)
            }
        },
        None => Err(ProcessError::Listing(ListingError::InvalidPda)),
    }
}

/// What setting up the protocol gives: the first global configuration, and what
/// is to be done about the treasury account.
#[derive(Debug, Clone, Copy, PartialEq, Eq)]
pub struct Initialized {
    /// The configuration to store.
    pub config: ListingConfig,
    /// The bump seed of the treasury's address.
    pub treasury_bump: u8,
    /// Whether the treasury account is still to be created.
    pub create_treasury: bool,
}

/// The configuration that the protocol starts with.
pub open spec fn initial_config(
    admin: Address,
    treasury: Address,
    vault_program: Address,
    fund_program: Address,
    ledger_program: Address,
    bump: u8,
) -> ListingConfig {
    ListingConfig {
        discriminator: ListingConfig::DISCRIMINATOR,
        version: 1,
        admin,
        treasury,
        vault_program,
        fund_program,
        ledger_program,
        token_stake_amount: ListingConfig::DEFAULT_TOKEN_STAKE,
        spot_stake_amount: ListingConfig::DEFAULT_SPOT_STAKE,
        perp_stake_amount: ListingConfig::DEFAULT_PERP_STAKE,
        token_review_period_seconds: ListingConfig::DEFAULT_TOKEN_REVIEW_PERIOD,
        spot_review_period_seconds: ListingConfig::DEFAULT_SPOT_REVIEW_PERIOD,
        perp_review_period_seconds: ListingConfig::DEFAULT_PERP_REVIEW_PERIOD,
        stake_lock_period_seconds: ListingConfig::DEFAULT_STAKE_LOCK_PERIOD,
        total_tokens: 0,
        total_spot_markets: 0,
        total_perp_markets: 0,
        total_staked_lamports: 0,
        is_paused: false,
        bump,
        reserved: blank_reserved(),
    }
}

/// What setting up the protocol leads to. The one who signs becomes the
/// administrator; the configuration and the treasury must be the accounts at
/// their derived addresses, and the configuration must not exist yet.
/// `config_bump` and `treasury_bump` are the bump seeds of these two addresses,
/// or `None` where an account is not at its derived address.
pub open spec fn initialize_outcome(
    config_bump: Option<u8>,
    treasury_bump: Option<u8>,
    admin: Account,
    config_account: Account,
    treasury_account: Account,
    vault_program: Address,
    fund_program: Address,
    ledger_program: Address,
) -> Result<Initialized, ProcessError> {
    if !admin.is_signer {
        Err(ProcessError::MissingRequiredSignature)
    } else if config_bump is None || treasury_bump is None {
        Err(ProcessError::Listing(ListingError::InvalidPda))
    } else if !config_account.data_is_empty {
        Err(ProcessError::Listing(ListingError::AlreadyInitialized))
    } else {
        Ok(
            Initialized {
                config: initial_config(
                    admin.key,
                    treasury_account.key,
                    vault_program,
                    fund_program,
                    ledger_program,
                    config_bump->Some_0,
                ),
                treasury_bump: treasury_bump->Some_0,
                create_treasury: treasury_account.data_is_empty,
            },
        )
    }
}

/// Sets up the protocol, given the addresses that were derived for the
/// configuration and for the treasury: makes the first global configuration.
pub fn initialize_at(
    config_derived: &Option<(Address, u8)>,
    treasury_derived: &Option<(Address, u8)>,
    admin: &Account,
    config_account: &Account,
    treasury_account: &Account,
    vault_program: Address,
    fund_program: Address,
    ledger_program: Address,
) -> (res: Result<Initialized, ProcessError>)
    ensures
        res == initialize_outcome(
            matched_bump(*config_derived, config_account.key),
            matched_bump(*treasury_derived, treasury_account.key),
            *admin,
            *config_account,
            *treasury_account,
            vault_program,
            fund_program,
            ledger_program,
        ),
{
    if !admin.is_signer {
        return Err(ProcessError::MissingRequiredSignature);
    }
    let config_bump: u8 = match match_pda(config_derived, &config_account.key) {
        Ok(bump) => bump,
        Err(e) => {
            return Err(e);
        },
    };
    let treasury_bump: u8 = match match_pda(treasury_derived, &treasury_account.key) {
        Ok(bump) => bump,
        Err(e) => {
            return Err(e);
        },
    };
    if !config_account.data_is_empty {
        return Err(ProcessError::Listing(ListingError::AlreadyInitialized));
    }
    let config = ListingConfig {
        discriminator: ListingConfig::DISCRIMINATOR,
        version: 1,
        admin: admin.key,
        treasury: treasury_account.key,
        vault_program,
        fund_program,
        ledger_program,
        token_stake_amount: ListingConfig::DEFAULT_TOKEN_STAKE,
        spot_stake_amount: ListingConfig::DEFAULT_SPOT_STAKE,
        perp_stake_amount: ListingConfig::DEFAULT_PERP_STAKE,
        token_review_period_seconds: ListingConfig::DEFAULT_TOKEN_REVIEW_PERIOD,
        spot_review_period_seconds: ListingConfig::DEFAULT_SPOT_REVIEW_PERIOD,
        perp_review_period_seconds: ListingConfig::DEFAULT_PERP_REVIEW_PERIOD,
        stake_lock_period_seconds: ListingConfig::DEFAULT_STAKE_LOCK_PERIOD,
        total_tokens: 0,
        total_spot_markets: 0,
        total_perp_markets: 0,
        total_staked_lamports: 0,
        is_paused: false,
        bump: config_bump,
        reserved: new_reserved(),
    };
    Ok(Initialized { config, treasury_bump, create_treasury: treasury_account.data_is_empty })
}

/// Sets up the protocol: derives the addresses of the configuration and of
/// the treasury for `program_id`, and makes the first global configuration.
pub fn process_initialize(
    program_id: &Address,
    admin: &Account,
    config_account: &Account,
    treasury_account: &Account,
    vault_program: Address,
    fund_program: Address,
    ledger_program: Address,
) -> (res: Result<Initialized, ProcessError>)
    ensures
        res == initialize_outcome(
            pda_bump(config_account.key, listing_config_seeds(), *program_id),
            pda_bump(treasury_account.key, treasury_seeds(), *program_id),
            *admin,
            *config_account,
            *treasury_account,
            vault_program,
            fund_program,
            ledger_program,
        ),
{
    let config_derived = derive_listing_config_pda(program_id);
    let treasury_derived = derive_treasury_pda(program_id);
    proof {
        lemma_matched_bump(config_derived, config_account.key, listing_config_seeds(), *program_id);
        lemma_matched_bump(treasury_derived, treasury_account.key, treasury_seeds(), *program_id);
    }
    initialize_at(
        &config_derived,
        &treasury_derived,
        admin,
        config_account,
        treasury_account,
        vault_program,
        fund_program,
        ledger_program,
    )
}

/// Whether a change of the configuration by `admin` did what it should: on
/// success the configuration is `changed`, otherwise it is untouched and the
/// error is the administrator check's.
pub open spec fn admin_change(
    admin: Account,
    before: ListingConfig,
    changed: ListingConfig,
    after: ListingConfig,
    res: Result<(), ProcessError>,
) -> bool {
    &&& res == admin_verdict(admin, before)
    &&& after == if res is Ok {
        changed
    } else {
        before
    }
}

/// Hands the administration to `new_admin`.
pub fn process_update_admin(admin: &Account, config: &mut ListingConfig, new_admin: Address) -> (res:
    Result<(), ProcessError>)
    ensures
        admin_change(
            *admin,
            *old(config),
            (ListingConfig { admin: new_admin, ..*old(config) }),
            *final(config),
            res,
        ),
{
    match verify_admin(admin, config) {
        Ok(()) => {},
        Err(e) => {
            return Err(e);
        },
    }
    config.admin = new_admin;
    Ok(())
}

/// The value that an optional update leaves: the new one where one is given.
pub open spec fn updated<T>(current: T, update: Option<T>) -> T {
    match update {
        Some(value) => value,
        None => current,
    }
}

/// Changes the stakes that new proposals take; proposals already made keep
/// theirs.
pub fn process_update_stake_config(
    admin: &Account,
    config: &mut ListingConfig,
    token_stake_amount: Option<u64>,
    spot_stake_amount: Option<u64>,
    perp_stake_amount: Option<u64>,
) -> (res: Result<(), ProcessError>)
    ensures
        admin_change(
            *admin,
            *old(config),
            (ListingConfig {
                token_stake_amount: updated(old(config).token_stake_amount, token_stake_amount),
                spot_stake_amount: updated(old(config).spot_stake_amount, spot_stake_amount),
                perp_stake_amount: updated(old(config).perp_stake_amount, perp_stake_amount),
                ..*old(config)
            }),
            *final(config),
            res,
        ),
{
    match verify_admin(admin, config) {
        Ok(()) => {},
        Err(e) => {
            return Err(e);
        },
    }
    if let Some(amount) = token_stake_amount {
        config.token_stake_amount = amount;
    }
    if let Some(amount) = spot_stake_amount {
        config.spot_stake_amount = amount;
    }
    if let Some(amount) = perp_stake_amount {
        config.perp_stake_amount = amount;
    }
    Ok(())
}

/// Changes the review periods of new proposals and the lock period of stakes.
pub fn process_update_review_periods(
    admin: &Account,
    config: &mut ListingConfig,
    token_review_period: Option<u32>,
    spot_review_period: Option<u32>,
    perp_review_period: Option<u32>,
    stake_lock_period: Option<u32>,
) -> (res: Result<(), ProcessError>)
    ensures
        admin_change(
            *admin,
            *old(config),
            (ListingConfig {
                token_review_period_seconds: updated(
                    old(config).token_review_period_seconds,
                    token_review_period,
                ),
                spot_review_period_seconds: updated(
                    old(config).spot_review_period_seconds,
                    spot_review_period,
                ),
                perp_review_period_seconds: updated(
                    old(config).perp_review_period_seconds,
                    perp_review_period,
                ),
                stake_lock_period_seconds: updated(
                    old(config).stake_lock_period_seconds,
                    stake_lock_period,
                ),
                ..*old(config)
            }),
            *final(config),
            res,
        ),
{
    match verify_admin(admin, config) {
        Ok(()) => {},
        Err(e) => {
            return Err(e);
        },
    }
    if let Some(period) = token_review_period {
        config.token_review_period_seconds = period;
    }
    if let Some(period) = spot_review_period {
        config.spot_review_period_seconds = period;
    }
    if let Some(period) = perp_review_period {
        config.perp_review_period_seconds = period;
    }
    if let Some(period) = stake_lock_period {
        config.stake_lock_period_seconds = period;
    }
    Ok(())
}

/// Stops or resumes the taking of new proposals.
pub fn process_set_paused(admin: &Account, config: &mut ListingConfig, paused: bool) -> (res:
    Result<(), ProcessError>)
    ensures
        admin_change(
            *admin,
            *old(config),
            (ListingConfig { is_paused: paused, ..*old(config) }),
            *final(config),
            res,
        ),
{
    match verify_admin(admin, config) {
        Ok(()) => {},
        Err(e) => {
            return Err(e);
        },
    }
    config.is_paused = paused;
    Ok(())
}

} // verus!
