//! The typed failures of the core.
//!
//! Every operation either commits all of its mutations or returns one of
//! these and leaves every entity unchanged.  Nothing is retried internally.

use vstd::prelude::*;

verus! {

/// Terminal failure of one operation.
#[derive(Clone, Copy, PartialEq, Eq, Structural, Debug)]
pub enum RvError {
    /// Operation paused.
    Paused,
    /// Arithmetic overflow or underflow; always fatal, never saturated.
    Overflow,
    /// A basis-point parameter is outside 0..=10000.
    InvalidBps,
    /// The token mint has the wrong decimal count.
    InvalidForcaDecimals,
    /// Wrong token mint.
    InvalidMint,
    /// Counterparty custodial balance too small.
    InsufficientAllyBalance,
    /// Vault balance too small.
    InsufficientVaultBalance,
    /// Balance would fall below the reserved sub-balance.
    InsufficientUnreservedBalance,
    /// Reserved sub-balance too small.
    InsufficientReservedBalance,
    /// A zero amount is not allowed.
    ZeroAmount,
    /// Caller-asserted quote values are unusable.
    InvalidQuote,
    /// Claimable-points balance too small.
    InsufficientRP,
    /// Points balance too small.
    InsufficientPP,
    /// Nothing would be left to pay out after fees.
    AmountTooSmallAfterFee,
    /// Wrong treasury token account.
    InvalidTreasury,
    /// Wrong vault token account.
    InvalidVaultAta,
    /// Risk tier denies allocation.
    PopDenied,
    /// Rolling daily USD cap exceeded.
    SoftDailyCapExceeded,
    /// Cooldown since the previous claim has not elapsed.
    CooldownNotElapsed,
    /// Configured daily cap below the allowed minimum.
    PopCapTooLow,
    /// Configured cooldown above the allowed maximum.
    PopCooldownTooHigh,
    /// Wrong or unset authority.
    InvalidAuthority,
    /// Oracle proof accounts missing or unset.
    OracleMissing,
    /// Asserted values out of tolerance of the derived values.
    OracleOutOfTolerance,
    /// Oracle proof account identity mismatch.
    OracleKeyMismatch,
    /// Attestation record could not be parsed or holds no usable data.
    OracleParseFailed,
    /// Attested price too old.
    OracleStale,
    /// Unknown benefit mode code.
    InvalidBenefitMode,
    /// Price verification cannot be disabled once enabled.
    VerifyPricesLocked,
    /// Unknown pause reason code.
    InvalidPauseReason,
    /// Manual price is only allowed in mock-oracle mode.
    ManualForcaUsdDisabled,
    /// Mock oracle cannot be re-enabled once disabled.
    MockOracleLocked,
    /// Monthly claim count cap exceeded.
    MonthlyClaimLimitExceeded,
    /// Lifetime claimed value would pass the KYC threshold.
    KycRequired,
    /// Configured monthly claim limit below the allowed minimum.
    PopMonthlyLimitTooLow,
    /// Configured monthly claim limit above the allowed maximum.
    PopMonthlyLimitTooHigh,
    /// Configured KYC threshold below the allowed minimum.
    PopHardCutTooLow,
    /// Attested confidence interval too wide relative to the price.
    OracleConfidenceTooWide,
}

impl RvError {
    /// A short human-readable description of the failure.
    pub fn describe(&self) -> (r: &'static str) {
        match self {
            RvError::Paused => "operation paused",
            RvError::Overflow => "overflow",
            RvError::InvalidBps => "invalid bps",
            RvError::InvalidForcaDecimals => "invalid token decimals",
            RvError::InvalidMint => "invalid token mint",
            RvError::InsufficientAllyBalance => "insufficient ally balance",
            RvError::InsufficientVaultBalance => "insufficient vault balance",
            RvError::InsufficientUnreservedBalance => "insufficient unreserved balance",
            RvError::InsufficientReservedBalance => "insufficient reserved balance",
            RvError::ZeroAmount => "zero amount not allowed",
            RvError::InvalidQuote => "invalid quote values",
            RvError::InsufficientRP => "insufficient claimable-points allowance",
            RvError::InsufficientPP => "insufficient points balance",
            RvError::AmountTooSmallAfterFee => "amount too small after fees",
            RvError::InvalidTreasury => "invalid treasury token account",
            RvError::InvalidVaultAta => "invalid vault token account",
            RvError::PopDenied => "risk level denies allocation",
            RvError::SoftDailyCapExceeded => "daily cap exceeded",
            RvError::CooldownNotElapsed => "cooldown not elapsed",
            RvError::PopCapTooLow => "daily cap too low",
            RvError::PopCooldownTooHigh => "cooldown too high",
            RvError::InvalidAuthority => "invalid authority",
            RvError::OracleMissing => "oracle proof accounts missing",
            RvError::OracleOutOfTolerance => "oracle values out of tolerance",
            RvError::OracleKeyMismatch => "oracle key mismatch",
            RvError::OracleParseFailed => "oracle parsing failed",
            RvError::OracleStale => "oracle price is stale",
            RvError::InvalidBenefitMode => "invalid benefit mode value",
            RvError::VerifyPricesLocked => "price verification cannot be disabled once enabled",
            RvError::InvalidPauseReason => "invalid pause reason code",
            RvError::ManualForcaUsdDisabled => "manual price only allowed in mock-oracle mode",
            RvError::MockOracleLocked => "mock oracle cannot be re-enabled once disabled",
            RvError::MonthlyClaimLimitExceeded => "monthly claim limit exceeded",
            RvError::KycRequired => "kyc required for claim",
            RvError::PopMonthlyLimitTooLow => "monthly claim limit too low",
            RvError::PopMonthlyLimitTooHigh => "monthly claim limit too high",
            RvError::PopHardCutTooLow => "kyc threshold too low",
            RvError::OracleConfidenceTooWide => "oracle confidence interval too wide",
        }
    }
}

} // verus!
