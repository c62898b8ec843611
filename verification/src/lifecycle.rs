//! The life of a proposal, whatever its kind: staking, objections, the
//! administrator's decision, withdrawal, and the return of the stake.

use crate::address::Address;
use crate::error::{ListingError, ProcessError};
use crate::state::{Account, Lifecycle, ListingConfig, ProposalStatus};
use crate::utils::{
    admin_verdict, moved, transfer_lamports_from_pda, transfer_native_lamports, verify_admin,
};
use vstd::prelude::*;

verus! {

/// The share of a withdrawn proposal's stake that goes back, in percent.
pub const CANCEL_REFUND_PERCENT: u64 = 95;

/// What an operation on a stake reads and may change: the account that pays or
/// is paid, the treasury, the global configuration, and the proposal's own
/// stake, state and objections.
#[derive(Debug, Clone, Copy, PartialEq, Eq)]
pub struct StakeState {
    pub payer: Account,
    pub treasury: Account,
    pub config: ListingConfig,
    pub life: Lifecycle,
}

/// The four parts of a `StakeState`, put together.
pub open spec fn stake_state(
    payer: Account,
    treasury: Account,
    config: ListingConfig,
    life: Lifecycle,
) -> StakeState {
    StakeState { payer, treasury, config, life }
}

/// Whether an operation did what `outcome` says: on success the state is the
/// one that `outcome` gives, on failure the error is the one that `outcome`
/// gives and the state is untouched.
pub open spec fn stake_result<T>(
    outcome: Result<StakeState, ProcessError>,
    before: StakeState,
    after: StakeState,
    res: Result<T, ProcessError>,
) -> bool {
    match outcome {
        Ok(state) => res is Ok && after == state,
        Err(e) => res is Err && res->Err_0 == e && after == before,
    }
}

/// The stake that the treasury holds on account of a proposal, as the global
/// count of staked value sees it: every objection's stake, and of the
/// proposer's stake what has not gone back. A withdrawn proposal leaves its
/// forfeit, an approved one its whole stake until it is claimed, a rejected one
/// its whole stake.
pub open spec fn escrowed(life: Lifecycle) -> int {
    life.objection_stake + match life.status {
        ProposalStatus::Pending => life.stake_amount as int,
        ProposalStatus::Rejected => life.stake_amount as int,
        ProposalStatus::Approved => if life.stake_claimed {
            0
        } else {
            life.stake_amount as int
        },
        ProposalStatus::Cancelled => life.stake_amount - refund_on_cancel(life.stake_amount),
    }
}

/// What comes back of a stake when its proposal is withdrawn: 95%, rounded down.
pub open spec fn refund_on_cancel(stake_amount: u64) -> int {
    stake_amount * CANCEL_REFUND_PERCENT / 100
}

/// What a rejection forfeits of a stake: the given percentage, rounded down.
pub open spec fn slash_on_reject(stake_amount: u64, slash_percentage: u8) -> int {
    stake_amount * slash_percentage / 100
}

/// The state of a proposal that was just made at `now`.
pub open spec fn opened(stake_amount: u64, now: i64, review_period: u32) -> Lifecycle {
    Lifecycle {
        stake_amount,
        status: ProposalStatus::Pending,
        created_at: now,
        review_deadline: (now + review_period) as i64,
        objection_count: 0,
        objection_stake: 0,
        stake_claimed: false,
    }
}

/// What making a proposal leads to, once its payload was accepted: the stake
/// moves from the proposer, who has to sign, to the treasury and is added to
/// the global count, and the review window opens.
pub open spec fn propose_outcome(
    proposer: Account,
    treasury: Account,
    config: ListingConfig,
    stake_amount: u64,
    review_period: u32,
    now: i64,
) -> Result<StakeState, ProcessError> {
    if !proposer.is_signer {
        Err(ProcessError::MissingRequiredSignature)
    } else if proposer.lamports < stake_amount {
        Err(ProcessError::Listing(ListingError::InsufficientStake))
    } else if treasury.lamports + stake_amount > u64::MAX {
        Err(ProcessError::ArithmeticOverflow)
    } else if config.total_staked_lamports + stake_amount > u64::MAX {
        Err(ProcessError::Listing(ListingError::Overflow))
    } else if now + review_period > i64::MAX {
        Err(ProcessError::Listing(ListingError::Overflow))
    } else {
        Ok(
            StakeState {
                payer: Account { lamports: (proposer.lamports - stake_amount) as u64, ..proposer },
                treasury: Account {
                    lamports: (treasury.lamports + stake_amount) as u64,
                    ..treasury
                },
                config: ListingConfig {
                    total_staked_lamports: (config.total_staked_lamports + stake_amount) as u64,
                    ..config
                },
                life: opened(stake_amount, now, review_period),
            },
        )
    }
}

/// Whether a proposal was made as `checks` and `staking` say. Where the checks
/// pass and the stake can be taken, the result is the proposal that `made`
/// gives for the new state and the bump seed that the checks found, and payer,
/// treasury and configuration are as the staking leaves them. Otherwise the
/// result is the first error and nothing has changed.
pub open spec fn proposed<P>(
    checks: Result<u8, ProcessError>,
    staking: Result<StakeState, ProcessError>,
    made: spec_fn(Lifecycle, u8) -> P,
    before: (Account, Account, ListingConfig),
    after: (Account, Account, ListingConfig),
    res: Result<P, ProcessError>,
) -> bool {
    match checks {
        Ok(bump) => match staking {
            Ok(state) => res == Ok::<P, ProcessError>(made(state.life, bump)) && after == (
                state.payer,
                state.treasury,
                state.config,
            ),
            Err(e) => res == Err::<P, ProcessError>(e) && after == before,
        },
        Err(e) => res == Err::<P, ProcessError>(e) && after == before,
    }
}

/// Takes the stake of a new proposal and opens its review window.
pub fn stake_proposal(
    proposer: &mut Account,
    treasury: &mut Account,
    config: &mut ListingConfig,
    stake_amount: u64,
    review_period: u32,
    now: i64,
) -> (res: Result<Lifecycle, ProcessError>)
    ensures
        match propose_outcome(
            *old(proposer),
            *old(treasury),
            *old(config),
            stake_amount,
            review_period,
            now,
        ) {
            Ok(state) => res == Ok::<Lifecycle, ProcessError>(state.life) && *final(proposer)
                == state.payer && *final(treasury) == state.treasury && *final(config)
                == state.config,
            Err(e) => res == Err::<Lifecycle, ProcessError>(e) && *final(proposer) == *old(
                proposer,
            ) && *final(treasury) == *old(treasury) && *final(config) == *old(config),
        },
{
    if !proposer.is_signer {
        return Err(ProcessError::MissingRequiredSignature);
    }
    if proposer.lamports < stake_amount {
        return Err(ProcessError::Listing(ListingError::InsufficientStake));
    }
    if stake_amount > u64::MAX - treasury.lamports {
        return Err(ProcessError::ArithmeticOverflow);
    }
    if stake_amount > u64::MAX - config.total_staked_lamports {
        return Err(ProcessError::Listing(ListingError::Overflow));
    }
    if now > i64::MAX - (review_period as i64) {
        return Err(ProcessError::Listing(ListingError::Overflow));
    }
    match transfer_native_lamports(proposer, treasury, stake_amount) {
        Ok(()) => {},
        Err(e) => {
            return Err(e);
        },
    }
    config.total_staked_lamports = config.total_staked_lamports + stake_amount;
    Ok(
        Lifecycle {
            stake_amount,
            status: ProposalStatus::Pending,
            created_at: now,
            review_deadline: now + (review_period as i64),
            objection_count: 0,
            objection_stake: 0,
            stake_claimed: false,
        },
    )
}

/// What an objection leads to. It is accepted from anyone who signs, while the
/// proposal is pending and its review deadline has not passed; its stake moves
/// to the treasury and is counted on the proposal and in the global count.
pub open spec fn object_outcome(s: StakeState, stake_amount: u64, now: i64) -> Result<
    StakeState,
    ProcessError,
> {
    if !s.payer.is_signer {
        Err(ProcessError::MissingRequiredSignature)
    } else if s.treasury.key != s.config.treasury {
        Err(ProcessError::Listing(ListingError::InvalidAccount))
    } else if s.life.status != ProposalStatus::Pending {
        Err(ProcessError::Listing(ListingError::ProposalNotPending))
    } else if now > s.life.review_deadline {
        Err(ProcessError::Listing(ListingError::ReviewDeadlinePassed))
    } else if s.payer.lamports < stake_amount {
        Err(ProcessError::Listing(ListingError::InsufficientStake))
    } else if s.treasury.lamports + stake_amount > u64::MAX {
        Err(ProcessError::ArithmeticOverflow)
    } else if s.config.total_staked_lamports + stake_amount > u64::MAX {
        Err(ProcessError::Listing(ListingError::Overflow))
    } else if s.life.objection_count + 1 > u16::MAX {
        Err(ProcessError::Listing(ListingError::Overflow))
    } else if s.life.objection_stake + stake_amount > u64::MAX {
        Err(ProcessError::Listing(ListingError::Overflow))
    } else {
        Ok(
            StakeState {
                payer: Account { lamports: (s.payer.lamports - stake_amount) as u64, ..s.payer },
                treasury: Account {
                    lamports: (s.treasury.lamports + stake_amount) as u64,
                    ..s.treasury
                },
                config: ListingConfig {
                    total_staked_lamports: (s.config.total_staked_lamports + stake_amount) as u64,
                    ..s.config
                },
                life: Lifecycle {
                    objection_count: (s.life.objection_count + 1) as u16,
                    objection_stake: (s.life.objection_stake + stake_amount) as u64,
                    ..s.life
                },
            },
        )
    }
}

/// Records an objection against a pending proposal and takes its stake.
pub fn object(
    objector: &mut Account,
    treasury: &mut Account,
    config: &mut ListingConfig,
    life: &mut Lifecycle,
    stake_amount: u64,
    now: i64,
) -> (res: Result<(), ProcessError>)
    ensures
        stake_result(
            object_outcome(
                stake_state(*old(objector), *old(treasury), *old(config), *old(life)),
                stake_amount,
                now,
            ),
            stake_state(*old(objector), *old(treasury), *old(config), *old(life)),
            stake_state(*final(objector), *final(treasury), *final(config), *final(life)),
            res,
        ),
{
    if !objector.is_signer {
        return Err(ProcessError::MissingRequiredSignature);
    }
    if treasury.key != config.treasury {
        return Err(ProcessError::Listing(ListingError::InvalidAccount));
    }
    if life.status != ProposalStatus::Pending {
        return Err(ProcessError::Listing(ListingError::ProposalNotPending));
    }
    if now > life.review_deadline {
        return Err(ProcessError::Listing(ListingError::ReviewDeadlinePassed));
    }
    if objector.lamports < stake_amount {
        return Err(ProcessError::Listing(ListingError::InsufficientStake));
    }
    if stake_amount > u64::MAX - treasury.lamports {
        return Err(ProcessError::ArithmeticOverflow);
    }
    if stake_amount > u64::MAX - config.total_staked_lamports {
        return Err(ProcessError::Listing(ListingError::Overflow));
    }
    if life.objection_count == u16::MAX {
        return Err(ProcessError::Listing(ListingError::Overflow));
    }
    if stake_amount > u64::MAX - life.objection_stake {
        return Err(ProcessError::Listing(ListingError::Overflow));
    }
    match transfer_native_lamports(objector, treasury, stake_amount) {
        Ok(()) => {},
        Err(e) => {
            return Err(e);
        },
    }
    config.total_staked_lamports = config.total_staked_lamports + stake_amount;
    life.objection_count = life.objection_count + 1;
    life.objection_stake = life.objection_stake + stake_amount;
    Ok(())
}

/// What the administrator's refusal of a proposal leads to: the proposal is
/// rejected. No stake moves and the global count stays as it is.
pub open spec fn reject_outcome(
    admin: Account,
    config: ListingConfig,
    life: Lifecycle,
    slash_percentage: u8,
) -> Result<Lifecycle, ProcessError> {
    if admin_verdict(admin, config) is Err {
        Err(admin_verdict(admin, config)->Err_0)
    } else if life.status != ProposalStatus::Pending {
        Err(ProcessError::Listing(ListingError::ProposalNotPending))
    } else if slash_percentage > 100 {
        Err(ProcessError::Listing(ListingError::InvalidAmount))
    } else {
        Ok(Lifecycle { status: ProposalStatus::Rejected, ..life })
    }
}

/// Rejects a pending proposal. On success the result is the part of the stake
/// that the given percentage forfeits; it stays in the treasury with the rest.
pub fn reject(admin: &Account, config: &ListingConfig, life: &mut Lifecycle, slash_percentage: u8) -> (res:
    Result<u64, ProcessError>)
    ensures
        match reject_outcome(*admin, *config, *old(life), slash_percentage) {
            Ok(after) => *final(life) == after && res == Ok::<u64, ProcessError>(
                slash_on_reject(old(life).stake_amount, slash_percentage) as u64,
            ),
            Err(e) => *final(life) == *old(life) && res == Err::<u64, ProcessError>(e),
        },
        res matches Ok(slashed) ==> slashed <= old(life).stake_amount,
{
    match verify_admin(admin, config) {
        Ok(()) => {},
        Err(e) => {
            return Err(e);
        },
    }
    if life.status != ProposalStatus::Pending {
        return Err(ProcessError::Listing(ListingError::ProposalNotPending));
    }
    if slash_percentage > 100 {
        return Err(ProcessError::Listing(ListingError::InvalidAmount));
    }
    life.status = ProposalStatus::Rejected;
    assert(life.stake_amount * slash_percentage <= life.stake_amount * 100) by (nonlinear_arith)
        requires
            slash_percentage <= 100,
    ;
    let slashed: u128 = (life.stake_amount as u128) * (slash_percentage as u128) / 100;
    Ok(slashed as u64)
}

/// What the withdrawal of a proposal by its proposer leads to: the proposal is
/// cancelled, 95% of its stake goes back from the treasury to the proposer and
/// leaves the global count, and the rest stays behind as a forfeit.
pub open spec fn cancel_outcome(s: StakeState, proposer: Address) -> Result<
    StakeState,
    ProcessError,
> {
    let refund = refund_on_cancel(s.life.stake_amount) as u64;
    if !s.payer.is_signer {
        Err(ProcessError::MissingRequiredSignature)
    } else if s.treasury.key != s.config.treasury {
        Err(ProcessError::Listing(ListingError::InvalidAccount))
    } else if proposer != s.payer.key {
        Err(ProcessError::Listing(ListingError::NotProposer))
    } else if s.life.status != ProposalStatus::Pending {
        Err(ProcessError::Listing(ListingError::ProposalNotPending))
    } else if moved(s.treasury, s.payer, refund) is Err {
        Err(moved(s.treasury, s.payer, refund)->Err_0)
    } else if s.config.total_staked_lamports < refund {
        Err(ProcessError::Listing(ListingError::Overflow))
    } else {
        Ok(
            StakeState {
                payer: moved(s.treasury, s.payer, refund)->Ok_0.1,
                treasury: moved(s.treasury, s.payer, refund)->Ok_0.0,
                config: ListingConfig {
                    total_staked_lamports: (s.config.total_staked_lamports - refund) as u64,
                    ..s.config
                },
                life: Lifecycle { status: ProposalStatus::Cancelled, ..s.life },
            },
        )
    }
}

/// The part of a stake that a withdrawal gives back.
pub fn cancel_refund(stake_amount: u64) -> (refund: u64)
    ensures
        refund == refund_on_cancel(stake_amount),
        refund <= stake_amount,
{
    let percent: u128 = CANCEL_REFUND_PERCENT as u128;
    assert(percent == 95);
    let refund: u128 = (stake_amount as u128) * percent / 100;
    refund as u64
}

/// Withdraws a pending proposal. `proposer` is the proposer that the proposal
/// names. On success the result is the amount that went back.
pub fn cancel(
    caller: &mut Account,
    treasury: &mut Account,
    config: &mut ListingConfig,
    life: &mut Lifecycle,
    proposer: &Address,
) -> (res: Result<u64, ProcessError>)
    ensures
        stake_result(
            cancel_outcome(
                stake_state(*old(caller), *old(treasury), *old(config), *old(life)),
                *proposer,
            ),
            stake_state(*old(caller), *old(treasury), *old(config), *old(life)),
            stake_state(*final(caller), *final(treasury), *final(config), *final(life)),
            res,
        ),
        res matches Ok(refund) ==> refund == refund_on_cancel(old(life).stake_amount),
{
    if !caller.is_signer {
        return Err(ProcessError::MissingRequiredSignature);
    }
    if treasury.key != config.treasury {
        return Err(ProcessError::Listing(ListingError::InvalidAccount));
    }
    if *proposer != caller.key {
        return Err(ProcessError::Listing(ListingError::NotProposer));
    }
    if life.status != ProposalStatus::Pending {
        return Err(ProcessError::Listing(ListingError::ProposalNotPending));
    }
    let refund: u64 = cancel_refund(life.stake_amount);
    if treasury.lamports < refund {
        return Err(ProcessError::InsufficientFunds);
    }
    if refund > u64::MAX - caller.lamports {
        return Err(ProcessError::ArithmeticOverflow);
    }
    if config.total_staked_lamports < refund {
        return Err(ProcessError::Listing(ListingError::Overflow));
    }
    match transfer_lamports_from_pda(treasury, caller, refund) {
        Ok(()) => {},
        Err(e) => {
            return Err(e);
        },
    }
    config.total_staked_lamports = config.total_staked_lamports - refund;
    life.status = ProposalStatus::Cancelled;
    Ok(refund)
}

/// The moment from which the stake of a proposal approved at `approved_at` can
/// be claimed.
pub open spec fn unlock_time(approved_at: i64, config: ListingConfig) -> int {
    approved_at + config.stake_lock_period_seconds
}

/// What a claim of an approved proposal's stake leads to. `proposer` is the
/// proposer that the proposal names; `entry_proposer` and `approved_at` are
/// read from the registry entry or market that the claim presents. The whole
/// stake goes back from the treasury to the proposer and leaves the global
/// count, once, and not before the lock period has passed.
pub open spec fn claim_outcome(
    s: StakeState,
    proposer: Address,
    entry_proposer: Address,
    approved_at: i64,
    now: i64,
) -> Result<StakeState, ProcessError> {
    if !s.payer.is_signer {
        Err(ProcessError::MissingRequiredSignature)
    } else if s.treasury.key != s.config.treasury {
        Err(ProcessError::Listing(ListingError::InvalidAccount))
    } else if proposer != s.payer.key {
        Err(ProcessError::Listing(ListingError::NotProposer))
    } else if s.life.status != ProposalStatus::Approved {
        Err(ProcessError::Listing(ListingError::ProposalNotPending))
    } else if s.life.stake_claimed {
        Err(ProcessError::Listing(ListingError::StakeAlreadyClaimed))
    } else if entry_proposer != s.payer.key {
        Err(ProcessError::Listing(ListingError::NotProposer))
    } else if unlock_time(approved_at, s.config) > i64::MAX {
        Err(ProcessError::Listing(ListingError::Overflow))
    } else if now < unlock_time(approved_at, s.config) {
        Err(ProcessError::Listing(ListingError::StakeLockPeriodNotEnded))
    } else if moved(s.treasury, s.payer, s.life.stake_amount) is Err {
        Err(moved(s.treasury, s.payer, s.life.stake_amount)->Err_0)
    } else if s.config.total_staked_lamports < s.life.stake_amount {
        Err(ProcessError::Listing(ListingError::Overflow))
    } else {
        Ok(
            StakeState {
                payer: moved(s.treasury, s.payer, s.life.stake_amount)->Ok_0.1,
                treasury: moved(s.treasury, s.payer, s.life.stake_amount)->Ok_0.0,
                config: ListingConfig {
                    total_staked_lamports: (s.config.total_staked_lamports
                        - s.life.stake_amount) as u64,
                    ..s.config
                },
                life: Lifecycle { stake_claimed: true, ..s.life },
            },
        )
    }
}

/// Gives the stake of an approved proposal back to its proposer.
pub fn claim(
    caller: &mut Account,
    treasury: &mut Account,
    config: &mut ListingConfig,
    life: &mut Lifecycle,
    proposer: &Address,
    entry_proposer: &Address,
    approved_at: i64,
    now: i64,
) -> (res: Result<(), ProcessError>)
    ensures
        stake_result(
            claim_outcome(
                stake_state(*old(caller), *old(treasury), *old(config), *old(life)),
                *proposer,
                *entry_proposer,
                approved_at,
                now,
            ),
            stake_state(*old(caller), *old(treasury), *old(config), *old(life)),
            stake_state(*final(caller), *final(treasury), *final(config), *final(life)),
            res,
        ),
{
    if !caller.is_signer {
        return Err(ProcessError::MissingRequiredSignature);
    }
    if treasury.key != config.treasury {
        return Err(ProcessError::Listing(ListingError::InvalidAccount));
    }
    if *proposer != caller.key {
        return Err(ProcessError::Listing(ListingError::NotProposer));
    }
    if life.status != ProposalStatus::Approved {
        return Err(ProcessError::Listing(ListingError::ProposalNotPending));
    }
    if life.stake_claimed {
        return Err(ProcessError::Listing(ListingError::StakeAlreadyClaimed));
    }
    if *entry_proposer != caller.key {
        return Err(ProcessError::Listing(ListingError::NotProposer));
    }
    if approved_at > i64::MAX - (config.stake_lock_period_seconds as i64) {
        return Err(ProcessError::Listing(ListingError::Overflow));
    }
    let unlock: i64 = approved_at + (config.stake_lock_period_seconds as i64);
    if now < unlock {
        return Err(ProcessError::Listing(ListingError::StakeLockPeriodNotEnded));
    }
    let stake_amount: u64 = life.stake_amount;
    if treasury.lamports < stake_amount {
        return Err(ProcessError::InsufficientFunds);
    }
    if stake_amount > u64::MAX - caller.lamports {
        return Err(ProcessError::ArithmeticOverflow);
    }
    if config.total_staked_lamports < stake_amount {
        return Err(ProcessError::Listing(ListingError::Overflow));
    }
    match transfer_lamports_from_pda(treasury, caller, stake_amount) {
        Ok(()) => {},
        Err(e) => {
            return Err(e);
        },
    }
    config.total_staked_lamports = config.total_staked_lamports - stake_amount;
    life.stake_claimed = true;
    Ok(())
}

/// The rule by which objections block the approval of a proposal at the end of
/// its review.
#[derive(Debug, Clone, Copy, PartialEq, Eq, Structural)]
pub enum VetoRule {
    /// Any objection blocks: the rule for token proposals.
    AnyObjection,
    /// Objections block once their stakes exceed half of the proposal's stake:
    /// the rule for market proposals.
    MajorityOfStake,
}

/// Whether the objections against a proposal block its approval at the end of
/// its review, under the given rule.
pub open spec fn vetoed(life: Lifecycle, rule: VetoRule) -> bool {
    match rule {
        VetoRule::AnyObjection => life.objection_count > 0,
        VetoRule::MajorityOfStake => life.objection_stake > life.stake_amount / 2,
    }
}

/// Whether a proposal may be approved without the administrator at `now`, and
/// if not, why: it must be pending, its review deadline must have passed, and
/// the objections must not block it.
pub open spec fn finalize_verdict(caller: Account, life: Lifecycle, rule: VetoRule, now: i64) -> Result<
    (),
    ProcessError,
> {
    if !caller.is_signer {
        Err(ProcessError::MissingRequiredSignature)
    } else if life.status != ProposalStatus::Pending {
        Err(ProcessError::Listing(ListingError::ProposalNotPending))
    } else if now <= life.review_deadline {
        Err(ProcessError::Listing(ListingError::ReviewDeadlineNotReached))
    } else if vetoed(life, rule) {
        Err(ProcessError::Listing(ListingError::ProposalNotPending))
    } else {
        Ok(())
    }
}

/// Decides whether a proposal may be approved without the administrator.
pub fn check_finalize(caller: &Account, life: &Lifecycle, rule: VetoRule, now: i64) -> (res: Result<
    (),
    ProcessError,
>)
    ensures
        res == finalize_verdict(*caller, *life, rule, now),
{
    if !caller.is_signer {
        return Err(ProcessError::MissingRequiredSignature);
    }
    if life.status != ProposalStatus::Pending {
        return Err(ProcessError::Listing(ListingError::ProposalNotPending));
    }
    if now <= life.review_deadline {
        return Err(ProcessError::Listing(ListingError::ReviewDeadlineNotReached));
    }
    let blocked: bool = match rule {
        VetoRule::AnyObjection => life.objection_count > 0,
        VetoRule::MajorityOfStake => life.objection_stake > life.stake_amount / 2,
    };
    if blocked {
        return Err(ProcessError::Listing(ListingError::ProposalNotPending));
    }
    Ok(())
}

/// Whether the administrator may approve a proposal, and if not, why.
pub open spec fn approve_verdict(admin: Account, config: ListingConfig, life: Lifecycle) -> Result<
    (),
    ProcessError,
> {
    if admin_verdict(admin, config) is Err {
        admin_verdict(admin, config)
    } else if life.status != ProposalStatus::Pending {
        Err(ProcessError::Listing(ListingError::ProposalNotPending))
    } else {
        Ok(())
    }
}

/// Decides whether the administrator may approve a proposal. Objections do not
/// stand in the way.
pub fn check_approve(admin: &Account, config: &ListingConfig, life: &Lifecycle) -> (res: Result<
    (),
    ProcessError,
>)
    ensures
        res == approve_verdict(*admin, *config, *life),
{
    match verify_admin(admin, config) {
        Ok(()) => {},
        Err(e) => {
            return Err(e);
        },
    }
    if life.status != ProposalStatus::Pending {
        return Err(ProcessError::Listing(ListingError::ProposalNotPending));
    }
    Ok(())
}

} // verus!
