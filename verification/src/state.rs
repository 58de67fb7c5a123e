//! The persistent entities of the ledger and their well-formedness.
//!
//! Every operation takes these as explicit snapshots and either commits a
//! fully validated new value or leaves them untouched.  Basis-point fields
//! stay within 0..=10000 and a counterparty's reserved sub-balance stays
//! within its custodial balance; both are stated here as well-formedness
//! predicates that constructors establish and operations preserve.

use vstd::prelude::*;

use crate::account::AccountId;

verus! {

/// Process-wide configuration snapshot, admin-mutated.
#[derive(Clone, Copy, PartialEq, Eq, Structural, Debug)]
pub struct VaultState {
    /// Authority for risk-profile administration.
    pub pop_admin: AccountId,
    /// Authority for economic parameters.
    pub econ_admin: AccountId,
    /// Mint of the native token.
    pub forca_mint: AccountId,
    /// Base fee C in basis points.
    pub fee_c_bps: u16,
    /// Excess (high-water-mark) tax D in basis points.
    pub tax_d_bps: u16,
    /// Margin B retained on conversion, in basis points.
    pub margin_b_bps: u16,
    /// Pause flag: every settling operation is refused while set.
    pub paused: bool,
    /// Default rolling daily USD cap (micro-USD) for new counterparties.
    pub soft_daily_cap_usd_e6: u64,
    /// Default cooldown between claims (seconds) for new counterparties.
    pub soft_cooldown_secs: u64,
    /// Manual USD-per-token micro-rate, authoritative only in mock mode.
    pub forca_usd_e6: u64,
    /// Price verification enabled (one-way: cannot be disabled again).
    pub verify_prices: bool,
    /// Tolerance band for cross-checking asserted quotes, in basis points.
    pub oracle_tolerance_bps: u16,
    /// Canonical attestation account identity.
    pub pyth_sol_usd_price_feed: AccountId,
    /// Canonical liquidity-pool account identity.
    pub canonical_pool_forca_sol: AccountId,
    /// Canonical token-side pool reserve account identity.
    pub canonical_pool_forca_reserve: AccountId,
    /// Canonical SOL-side pool reserve account identity.
    pub canonical_pool_sol_reserve: AccountId,
    /// Mock oracle in use (one-way: cannot be re-enabled once disabled).
    pub use_mock_oracle: bool,
    /// Set once the mock oracle has been disabled.
    pub mock_oracle_locked: bool,
    /// Maximum accepted attestation age in seconds.
    pub pyth_max_stale_secs: u64,
    /// Maximum accepted confidence interval in basis points of the price.
    pub pyth_max_confidence_bps: u16,
}

impl VaultState {
    /// Basis-point parameters within 0..=10000.
    pub open spec fn wf(self) -> bool {
        &&& self.fee_c_bps <= 10000
        &&& self.tax_d_bps <= 10000
        &&& self.margin_b_bps <= 10000
        &&& self.oracle_tolerance_bps <= 10000
        &&& self.pyth_max_confidence_bps <= 10000
    }
}

/// An economic counterparty ("ally") holding a custodial balance on behalf of
/// its identities.
#[derive(Clone, Copy, PartialEq, Eq, Structural, Debug)]
pub struct AllyAccount {
    /// Identity of the counterparty (its badge mint).
    pub nft_mint: AccountId,
    /// Day-to-day operations authority (allocation, consumption).
    pub ops_authority: AccountId,
    /// Custody-movement authority (deposits, withdrawals).
    pub withdraw_authority: AccountId,
    /// Treasury token account owned by the withdraw authority.
    pub treasury_ata: AccountId,
    /// Custodial vault token account.
    pub vault_ata: AccountId,
    /// Role code of the counterparty.
    pub role: u8,
    /// Custodial token balance.
    pub balance_forca: u64,
    /// Sub-balance earmarked for pending claims; never exceeds the balance.
    pub rp_reserved: u64,
    /// Benefit program code (see `BenefitMode`).
    pub benefit_mode: u8,
    /// Benefit magnitude in basis points.
    pub benefit_bps: u16,
    /// Whether the abuse guard applies to this counterparty's identities.
    pub pop_enforced: bool,
    /// Rolling daily USD cap in micro-USD.
    pub soft_daily_cap_usd_e6: u64,
    /// Cooldown between claims in seconds.
    pub soft_cooldown_secs: u64,
    /// Monthly claim-count cap; zero disables the cap.
    pub monthly_claim_limit: u16,
    /// Lifetime-claimed USD threshold above which claims need KYC; zero
    /// disables the threshold.
    pub hard_kyc_threshold_usd_e6: u64,
}

impl AllyAccount {
    /// Reserved within balance, benefit within 100%.
    pub open spec fn wf(self) -> bool {
        &&& self.rp_reserved <= self.balance_forca
        &&& self.benefit_bps <= 10000
    }
}

/// Per (identity, counterparty) points ledger with taxation watermarks.
#[derive(Clone, Copy, PartialEq, Eq, Structural, Debug)]
pub struct UserLedger {
    /// Identity this row belongs to; the zero identity marks an empty row.
    pub user: AccountId,
    /// Counterparty scope of the row.
    pub ally_nft_mint: AccountId,
    /// Claimable-points balance, token-equivalent units.
    pub rp_claimable_forca: u64,
    /// Points balance, micro-USD units.
    pub pp_balance: u64,
    /// Cumulative claim basis subject to future taxation; pulled down by
    /// conversions to model real outflow reducing the taxable base.
    pub hwm_claimed: u64,
    /// Watermark already taxed; ratchets forward on every claim.
    pub tax_hwm: u64,
    /// Lifetime claimed total, monotonic.
    pub total_claimed_forca: u64,
    /// Creation timestamp.
    pub created_ts: i64,
    /// Last-mutation timestamp.
    pub updated_ts: i64,
}

impl UserLedger {
    /// A freshly initialized row for `user` scoped to `ally_nft_mint`.
    pub open spec fn spec_fresh(user: AccountId, ally_nft_mint: AccountId, now: int) -> UserLedger {
        UserLedger {
            user,
            ally_nft_mint,
            rp_claimable_forca: 0,
            pp_balance: 0,
            hwm_claimed: 0,
            tax_hwm: 0,
            total_claimed_forca: 0,
            created_ts: now as i64,
            updated_ts: 0,
        }
    }
}

/// Per-identity risk profile.
#[derive(Clone, Copy, PartialEq, Eq, Structural, Debug)]
pub struct PopProfile {
    /// Identity the profile belongs to; the zero identity marks an empty row.
    pub user: AccountId,
    /// Risk-tier code (see `PopLevel`).
    pub level: u8,
    /// When the tier was last set.
    pub last_set_ts: i64,
}

/// Per (identity, counterparty) abuse-guard counters.
#[derive(Clone, Copy, PartialEq, Eq, Structural, Debug)]
pub struct ClaimGuard {
    /// Identity the counters belong to; the zero identity marks an empty row.
    pub user: AccountId,
    /// Counterparty scope of the counters.
    pub ally_nft_mint: AccountId,
    /// UTC day bucket currently accumulating USD usage.
    pub day: i64,
    /// Micro-USD already claimed within the day bucket.
    pub used_usd_e6: u64,
    /// Timestamp of the last admitted claim.
    pub last_claim_ts: i64,
    /// Civil-month index currently accumulating the claim count.
    pub month_index: i64,
    /// Claims admitted within the month window.
    pub month_claims: u16,
}

/// Mock attestation source for testing deployments.
#[derive(Clone, Copy, PartialEq, Eq, Structural, Debug)]
pub struct MockOracleSolUsd {
    /// Mock SOL price in micro-USD.
    pub sol_usd_e6: u64,
    /// Mock exponent.
    pub expo_i32: i32,
    /// Mock confidence, 1e-8 units.
    pub conf_e8: u64,
    /// Mock publish timestamp.
    pub publish_ts: i64,
}

/// Mock liquidity-pool source for testing deployments.
#[derive(Clone, Copy, PartialEq, Eq, Structural, Debug)]
pub struct MockPoolForcaSol {
    /// Mock token-per-SOL micro-ratio.
    pub forca_per_sol_e6: u64,
    /// Mock token-side reserve, 1e-6 units.
    pub reserve_forca_e6: u64,
    /// Mock SOL-side reserve, 1e-9 units.
    pub reserve_sol_e9: u64,
}

/// Role of a counterparty.
#[derive(Clone, Copy, PartialEq, Eq, Structural, Debug)]
pub enum AllyRole {
    Marketing,
    Dev,
    Other,
}

/// Benefit program of a counterparty.
#[derive(Clone, Copy, PartialEq, Eq, Structural, Debug)]
pub enum BenefitMode {
    /// No adjustment.
    NoBenefit,
    /// A share of the converted amount is discounted back to the identity.
    Discount,
    /// Credited points are boosted; the transfer is unchanged.
    BonusPP,
}

/// Reason attached to a pause toggle.
#[derive(Clone, Copy, PartialEq, Eq, Structural, Debug)]
pub enum PauseReason {
    NoReason,
    NonPayment,
    SecurityIncident,
    ComplianceHold,
    MarketAnomaly,
    OpsMaintenance,
}

/// Per-identity risk tier.
#[derive(Clone, Copy, PartialEq, Eq, Structural, Debug)]
pub enum PopLevel {
    /// Gated everywhere; allocation is refused outright.
    Suspicious,
    /// The default tier: allocation allowed, claims fully guarded.
    Soft,
    /// Trusted tier: bypasses the abuse guard and KYC gating.
    Strong,
}

/// Stored code of a counterparty role.
pub open spec fn spec_ally_role_code(r: AllyRole) -> u8 {
    match r {
        AllyRole::Marketing => 0,
        AllyRole::Dev => 1,
        AllyRole::Other => 2,
    }
}

pub fn ally_role_code(r: AllyRole) -> (c: u8)
    ensures
        c == spec_ally_role_code(r),
{
    match r {
        AllyRole::Marketing => 0,
        AllyRole::Dev => 1,
        AllyRole::Other => 2,
    }
}

/// Stored code of a benefit mode.
pub open spec fn spec_benefit_mode_code(m: BenefitMode) -> u8 {
    match m {
        BenefitMode::NoBenefit => 0,
        BenefitMode::Discount => 1,
        BenefitMode::BonusPP => 2,
    }
}

pub fn benefit_mode_code(m: BenefitMode) -> (c: u8)
    ensures
        c == spec_benefit_mode_code(m),
{
    match m {
        BenefitMode::NoBenefit => 0,
        BenefitMode::Discount => 1,
        BenefitMode::BonusPP => 2,
    }
}

/// Stored code of a risk tier.
pub open spec fn spec_pop_level_code(l: PopLevel) -> u8 {
    match l {
        PopLevel::Suspicious => 0,
        PopLevel::Soft => 1,
        PopLevel::Strong => 2,
    }
}

pub fn pop_level_code(l: PopLevel) -> (c: u8)
    ensures
        c == spec_pop_level_code(l),
{
    match l {
        PopLevel::Suspicious => 0,
        PopLevel::Soft => 1,
        PopLevel::Strong => 2,
    }
}

/// Stored code of a pause reason.
pub open spec fn spec_pause_reason_code(r: PauseReason) -> u16 {
    match r {
        PauseReason::NoReason => 0,
        PauseReason::NonPayment => 1,
        PauseReason::SecurityIncident => 2,
        PauseReason::ComplianceHold => 3,
        PauseReason::MarketAnomaly => 4,
        PauseReason::OpsMaintenance => 5,
    }
}

pub fn pause_reason_code(r: PauseReason) -> (c: u16)
    ensures
        c == spec_pause_reason_code(r),
{
    match r {
        PauseReason::NoReason => 0,
        PauseReason::NonPayment => 1,
        PauseReason::SecurityIncident => 2,
        PauseReason::ComplianceHold => 3,
        PauseReason::MarketAnomaly => 4,
        PauseReason::OpsMaintenance => 5,
    }
}

/// Benefit mode of a stored code, if the code is known.
pub open spec fn spec_benefit_mode_from_u8(v: u8) -> Option<BenefitMode> {
    if v == 0 {
        Some(BenefitMode::NoBenefit)
    } else if v == 1 {
        Some(BenefitMode::Discount)
    } else if v == 2 {
        Some(BenefitMode::BonusPP)
    } else {
        None
    }
}

/// Decode of a stored benefit-mode code; an unknown code is rejected.
pub fn benefit_mode_from_u8(v: u8) -> (r: Result<BenefitMode, crate::errors::RvError>)
    ensures
        (match spec_benefit_mode_from_u8(v) {
            Some(m) => r == Ok::<BenefitMode, crate::errors::RvError>(m),
            None => r == Err::<BenefitMode, crate::errors::RvError>(
                crate::errors::RvError::InvalidBenefitMode,
            ),
        }),
{
    match v {
        0 => Ok(BenefitMode::NoBenefit),
        1 => Ok(BenefitMode::Discount),
        2 => Ok(BenefitMode::BonusPP),
        _ => Err(crate::errors::RvError::InvalidBenefitMode),
    }
}

/// Pause reason of a stored code, if the code is known.
pub open spec fn spec_pause_reason_from_u16(v: u16) -> Option<PauseReason> {
    if v == 0 {
        Some(PauseReason::NoReason)
    } else if v == 1 {
        Some(PauseReason::NonPayment)
    } else if v == 2 {
        Some(PauseReason::SecurityIncident)
    } else if v == 3 {
        Some(PauseReason::ComplianceHold)
    } else if v == 4 {
        Some(PauseReason::MarketAnomaly)
    } else if v == 5 {
        Some(PauseReason::OpsMaintenance)
    } else {
        None
    }
}

/// Decode of a pause-reason code; an unknown code is rejected.
pub fn pause_reason_from_u16(v: u16) -> (r: Result<PauseReason, crate::errors::RvError>)
    ensures
        (match spec_pause_reason_from_u16(v) {
            Some(m) => r == Ok::<PauseReason, crate::errors::RvError>(m),
            None => r == Err::<PauseReason, crate::errors::RvError>(
                crate::errors::RvError::InvalidPauseReason,
            ),
        }),
{
    match v {
        0 => Ok(PauseReason::NoReason),
        1 => Ok(PauseReason::NonPayment),
        2 => Ok(PauseReason::SecurityIncident),
        3 => Ok(PauseReason::ComplianceHold),
        4 => Ok(PauseReason::MarketAnomaly),
        5 => Ok(PauseReason::OpsMaintenance),
        _ => Err(crate::errors::RvError::InvalidPauseReason),
    }
}

} // verus!
