//! Failure codes of the listing protocol.

use vstd::prelude::*;

verus! {

/// Reasons for which a listing operation is refused.
///
/// Each reason has a stable numeric code (see [`ListingError::code`]), which is
/// its position in this list, counted from zero.
#[derive(Debug, Clone, Copy, PartialEq, Eq, Structural)]
pub enum ListingError {
    /// Invalid instruction
    InvalidInstruction,
    /// Invalid admin
    InvalidAdmin,
    /// Account already initialized
    AlreadyInitialized,
    /// Account not initialized
    NotInitialized,
    /// Invalid PDA
    InvalidPda,
    /// Invalid symbol format
    InvalidSymbol,
    /// Symbol too long (max 8 chars)
    SymbolTooLong,
    /// Invalid decimals (must be 0-18)
    InvalidDecimals,
    /// Insufficient stake amount
    InsufficientStake,
    /// Proposal not in pending status
    ProposalNotPending,
    /// Proposal review deadline not reached
    ReviewDeadlineNotReached,
    /// Proposal review deadline passed
    ReviewDeadlinePassed,
    /// Not the proposer
    NotProposer,
    /// Token not registered
    TokenNotRegistered,
    /// Token not active
    TokenNotActive,
    /// Market already exists
    MarketAlreadyExists,
    /// Invalid market type
    InvalidMarketType,
    /// Invalid tick size
    InvalidTickSize,
    /// Invalid lot size
    InvalidLotSize,
    /// Invalid fee rate
    InvalidFeeRate,
    /// Invalid oracle
    InvalidOracle,
    /// Oracle required for perp market
    OracleRequired,
    /// Invalid leverage (must be 1-100)
    InvalidLeverage,
    /// Invalid initial margin rate
    InvalidInitialMarginRate,
    /// Invalid maintenance margin rate
    InvalidMaintenanceMarginRate,
    /// Stake lock period not ended
    StakeLockPeriodNotEnded,
    /// Stake already claimed
    StakeAlreadyClaimed,
    /// Market is paused
    MarketPaused,
    /// Listing is paused
    ListingPaused,
    /// Liquidity pool not initialized
    LiquidityPoolNotInitialized,
    /// Liquidity pool already initialized
    LiquidityPoolAlreadyInitialized,
    /// Insufficient liquidity
    InsufficientLiquidity,
    /// Invalid price range
    InvalidPriceRange,
    /// Numerical overflow
    Overflow,
    /// Invalid account owner
    InvalidAccountOwner,
    /// Quote token must be USDC
    QuoteTokenMustBeUsdc,
    /// Same token pair
    SameTokenPair,
    /// Invalid account
    InvalidAccount,
    /// Invalid amount
    InvalidAmount,
    /// Unauthorized action
    Unauthorized,
    /// Market not found
    MarketNotFound,
    /// Invalid order density
    InvalidOrderDensity,
    /// Invalid spread
    InvalidSpread,
    /// Invalid lock period
    InvalidLockPeriod,
    /// Pool not active
    PoolNotActive,
    /// Insufficient balance
    InsufficientBalance,
    /// Numerical underflow
    Underflow,
    /// Pool has remaining funds
    PoolHasRemainingFunds,
}

impl ListingError {
    /// The numeric code of this reason.
    pub open spec fn spec_code(self) -> u32 {
        match self {
            ListingError::InvalidInstruction => 0,
            ListingError::InvalidAdmin => 1,
            ListingError::AlreadyInitialized => 2,
            ListingError::NotInitialized => 3,
            ListingError::InvalidPda => 4,
            ListingError::InvalidSymbol => 5,
            ListingError::SymbolTooLong => 6,
            ListingError::InvalidDecimals => 7,
            ListingError::InsufficientStake => 8,
            ListingError::ProposalNotPending => 9,
            ListingError::ReviewDeadlineNotReached => 10,
            ListingError::ReviewDeadlinePassed => 11,
            ListingError::NotProposer => 12,
            ListingError::TokenNotRegistered => 13,
            ListingError::TokenNotActive => 14,
            ListingError::MarketAlreadyExists => 15,
            ListingError::InvalidMarketType => 16,
            ListingError::InvalidTickSize => 17,
            ListingError::InvalidLotSize => 18,
            ListingError::InvalidFeeRate => 19,
            ListingError::InvalidOracle => 20,
            ListingError::OracleRequired => 21,
            ListingError::InvalidLeverage => 22,
            ListingError::InvalidInitialMarginRate => 23,
            ListingError::InvalidMaintenanceMarginRate => 24,
            ListingError::StakeLockPeriodNotEnded => 25,
            ListingError::StakeAlreadyClaimed => 26,
            ListingError::MarketPaused => 27,
            ListingError::ListingPaused => 28,
            ListingError::LiquidityPoolNotInitialized => 29,
            ListingError::LiquidityPoolAlreadyInitialized => 30,
            ListingError::InsufficientLiquidity => 31,
            ListingError::InvalidPriceRange => 32,
            ListingError::Overflow => 33,
            ListingError::InvalidAccountOwner => 34,
            ListingError::QuoteTokenMustBeUsdc => 35,
            ListingError::SameTokenPair => 36,
            ListingError::InvalidAccount => 37,
            ListingError::InvalidAmount => 38,
            ListingError::Unauthorized => 39,
            ListingError::MarketNotFound => 40,
            ListingError::InvalidOrderDensity => 41,
            ListingError::InvalidSpread => 42,
            ListingError::InvalidLockPeriod => 43,
            ListingError::PoolNotActive => 44,
            ListingError::InsufficientBalance => 45,
            ListingError::Underflow => 46,
            ListingError::PoolHasRemainingFunds => 47,
        }
    }

    /// The text that describes this reason.
    pub open spec fn spec_message(self) -> Seq<char> {
        match self {
            ListingError::InvalidInstruction => "Invalid instruction"@,
            ListingError::InvalidAdmin => "Invalid admin"@,
            ListingError::AlreadyInitialized => "Account already initialized"@,
            ListingError::NotInitialized => "Account not initialized"@,
            ListingError::InvalidPda => "Invalid PDA"@,
            ListingError::InvalidSymbol => "Invalid symbol format"@,
            ListingError::SymbolTooLong => "Symbol too long"@,
            ListingError::InvalidDecimals => "Invalid decimals"@,
            ListingError::InsufficientStake => "Insufficient stake amount"@,
            ListingError::ProposalNotPending => "Proposal not pending"@,
            ListingError::ReviewDeadlineNotReached => "Review deadline not reached"@,
            ListingError::ReviewDeadlinePassed => "Review deadline passed"@,
            ListingError::NotProposer => "Not the proposer"@,
            ListingError::TokenNotRegistered => "Token not registered"@,
            ListingError::TokenNotActive => "Token not active"@,
            ListingError::MarketAlreadyExists => "Market already exists"@,
            ListingError::InvalidMarketType => "Invalid market type"@,
            ListingError::InvalidTickSize => "Invalid tick size"@,
            ListingError::InvalidLotSize => "Invalid lot size"@,
            ListingError::InvalidFeeRate => "Invalid fee rate"@,
            ListingError::InvalidOracle => "Invalid oracle"@,
            ListingError::OracleRequired => "Oracle required for perp market"@,
            ListingError::InvalidLeverage => "Invalid leverage"@,
            ListingError::InvalidInitialMarginRate => "Invalid initial margin rate"@,
            ListingError::InvalidMaintenanceMarginRate => "Invalid maintenance margin rate"@,
            ListingError::StakeLockPeriodNotEnded => "Stake lock period not ended"@,
            ListingError::StakeAlreadyClaimed => "Stake already claimed"@,
            ListingError::MarketPaused => "Market is paused"@,
            ListingError::ListingPaused => "Listing is paused"@,
            ListingError::LiquidityPoolNotInitialized => "Liquidity pool not initialized"@,
            ListingError::LiquidityPoolAlreadyInitialized => "Liquidity pool already initialized"@,
            ListingError::InsufficientLiquidity => "Insufficient liquidity"@,
            ListingError::InvalidPriceRange => "Invalid price range"@,
            ListingError::Overflow => "Numerical overflow"@,
            ListingError::InvalidAccountOwner => "Invalid account owner"@,
            ListingError::QuoteTokenMustBeUsdc => "Quote token must be USDC"@,
            ListingError::SameTokenPair => "Base and quote token cannot be the same"@,
            ListingError::InvalidAccount => "Invalid account"@,
            ListingError::InvalidAmount => "Invalid amount"@,
            ListingError::Unauthorized => "Unauthorized"@,
            ListingError::MarketNotFound => "Market not found"@,
            ListingError::InvalidOrderDensity => "Invalid order density (must be 1-100)"@,
            ListingError::InvalidSpread => "Invalid spread"@,
            ListingError::InvalidLockPeriod => "Invalid lock period"@,
            ListingError::PoolNotActive => "Pool not active"@,
            ListingError::InsufficientBalance => "Insufficient balance"@,
            ListingError::Underflow => "Numerical underflow"@,
            ListingError::PoolHasRemainingFunds => "Pool has remaining funds - withdraw first"@,
        }
    }

    /// The numeric code under which this reason is reported to the host.
    pub fn code(&self) -> (code: u32)
        ensures
            code == self.spec_code(),
            code < 48,
    {
        match self {
            ListingError::InvalidInstruction => 0,
            ListingError::InvalidAdmin => 1,
            ListingError::AlreadyInitialized => 2,
            ListingError::NotInitialized => 3,
            ListingError::InvalidPda => 4,
            ListingError::InvalidSymbol => 5,
            ListingError::SymbolTooLong => 6,
            ListingError::InvalidDecimals => 7,
            ListingError::InsufficientStake => 8,
            ListingError::ProposalNotPending => 9,
            ListingError::ReviewDeadlineNotReached => 10,
            ListingError::ReviewDeadlinePassed => 11,
            ListingError::NotProposer => 12,
            ListingError::TokenNotRegistered => 13,
            ListingError::TokenNotActive => 14,
            ListingError::MarketAlreadyExists => 15,
            ListingError::InvalidMarketType => 16,
            ListingError::InvalidTickSize => 17,
            ListingError::InvalidLotSize => 18,
            ListingError::InvalidFeeRate => 19,
            ListingError::InvalidOracle => 20,
            ListingError::OracleRequired => 21,
            ListingError::InvalidLeverage => 22,
            ListingError::InvalidInitialMarginRate => 23,
            ListingError::InvalidMaintenanceMarginRate => 24,
            ListingError::StakeLockPeriodNotEnded => 25,
            ListingError::StakeAlreadyClaimed => 26,
            ListingError::MarketPaused => 27,
            ListingError::ListingPaused => 28,
            ListingError::LiquidityPoolNotInitialized => 29,
            ListingError::LiquidityPoolAlreadyInitialized => 30,
            ListingError::InsufficientLiquidity => 31,
            ListingError::InvalidPriceRange => 32,
            ListingError::Overflow => 33,
            ListingError::InvalidAccountOwner => 34,
            ListingError::QuoteTokenMustBeUsdc => 35,
            ListingError::SameTokenPair => 36,
            ListingError::InvalidAccount => 37,
            ListingError::InvalidAmount => 38,
            ListingError::Unauthorized => 39,
            ListingError::MarketNotFound => 40,
            ListingError::InvalidOrderDensity => 41,
            ListingError::InvalidSpread => 42,
            ListingError::InvalidLockPeriod => 43,
            ListingError::PoolNotActive => 44,
            ListingError::InsufficientBalance => 45,
            ListingError::Underflow => 46,
            ListingError::PoolHasRemainingFunds => 47,
        }
    }

    /// A human-readable description of this reason.
    pub fn message(&self) -> (text: &'static str)
        ensures
            text@ == self.spec_message(),
    {
        match self {
            ListingError::InvalidInstruction => "Invalid instruction",
            ListingError::InvalidAdmin => "Invalid admin",
            ListingError::AlreadyInitialized => "Account already initialized",
            ListingError::NotInitialized => "Account not initialized",
            ListingError::InvalidPda => "Invalid PDA",
            ListingError::InvalidSymbol => "Invalid symbol format",
            ListingError::SymbolTooLong => "Symbol too long",
            ListingError::InvalidDecimals => "Invalid decimals",
            ListingError::InsufficientStake => "Insufficient stake amount",
            ListingError::ProposalNotPending => "Proposal not pending",
            ListingError::ReviewDeadlineNotReached => "Review deadline not reached",
            ListingError::ReviewDeadlinePassed => "Review deadline passed",
            ListingError::NotProposer => "Not the proposer",
            ListingError::TokenNotRegistered => "Token not registered",
            ListingError::TokenNotActive => "Token not active",
            ListingError::MarketAlreadyExists => "Market already exists",
            ListingError::InvalidMarketType => "Invalid market type",
            ListingError::InvalidTickSize => "Invalid tick size",
            ListingError::InvalidLotSize => "Invalid lot size",
            ListingError::InvalidFeeRate => "Invalid fee rate",
            ListingError::InvalidOracle => "Invalid oracle",
            ListingError::OracleRequired => "Oracle required for perp market",
            ListingError::InvalidLeverage => "Invalid leverage",
            ListingError::InvalidInitialMarginRate => "Invalid initial margin rate",
            ListingError::InvalidMaintenanceMarginRate => "Invalid maintenance margin rate",
            ListingError::StakeLockPeriodNotEnded => "Stake lock period not ended",
            ListingError::StakeAlreadyClaimed => "Stake already claimed",
            ListingError::MarketPaused => "Market is paused",
            ListingError::ListingPaused => "Listing is paused",
            ListingError::LiquidityPoolNotInitialized => "Liquidity pool not initialized",
            ListingError::LiquidityPoolAlreadyInitialized => "Liquidity pool already initialized",
            ListingError::InsufficientLiquidity => "Insufficient liquidity",
            ListingError::InvalidPriceRange => "Invalid price range",
            ListingError::Overflow => "Numerical overflow",
            ListingError::InvalidAccountOwner => "Invalid account owner",
            ListingError::QuoteTokenMustBeUsdc => "Quote token must be USDC",
            ListingError::SameTokenPair => "Base and quote token cannot be the same",
            ListingError::InvalidAccount => "Invalid account",
            ListingError::InvalidAmount => "Invalid amount",
            ListingError::Unauthorized => "Unauthorized",
            ListingError::MarketNotFound => "Market not found",
            ListingError::InvalidOrderDensity => "Invalid order density (must be 1-100)",
            ListingError::InvalidSpread => "Invalid spread",
            ListingError::InvalidLockPeriod => "Invalid lock period",
            ListingError::PoolNotActive => "Pool not active",
            ListingError::InsufficientBalance => "Insufficient balance",
            ListingError::Underflow => "Numerical underflow",
            ListingError::PoolHasRemainingFunds => "Pool has remaining funds - withdraw first",
        }
    }
}

/// Two reasons with the same numeric code are the same reason.
pub proof fn lemma_codes_are_distinct(a: ListingError, b: ListingError)
    requires
        a.spec_code() == b.spec_code(),
    ensures
        a == b,
{
}

/// The ways in which processing an instruction can fail.
#[derive(Debug, Clone, Copy, PartialEq, Eq, Structural)]
pub enum ProcessError {
    /// An account that has to authorise the operation did not sign.
    MissingRequiredSignature,
    /// A balance is too small for the amount that has to leave it.
    InsufficientFunds,
    /// A balance would exceed the largest representable amount.
    ArithmeticOverflow,
    /// An account does not hold the record that the operation needs.
    InvalidAccountData,
    /// The listing protocol refused the operation.
    Listing(ListingError),
}

} // verus!
