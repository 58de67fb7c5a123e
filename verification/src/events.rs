//! Structured audit records.
//!
//! Every committed operation returns one of these records, carrying the
//! operation's inputs and all computed intermediate values (margin, fee, tax,
//! old and new watermarks, resolved price) for external logging and eventing.
//! Emitting them anywhere is the host's responsibility.

use vstd::prelude::*;

use crate::account::AccountId;

verus! {

/// Vault created with its fee parameters.
#[derive(Clone, Copy, PartialEq, Eq, Structural, Debug)]
pub struct VaultInitialized {
    pub forca_mint: AccountId,
    pub fee_c_bps: u16,
    pub tax_d_bps: u16,
    pub margin_b_bps: u16,
}

/// Pause flag toggled.
#[derive(Clone, Copy, PartialEq, Eq, Structural, Debug)]
pub struct VaultPauseEvent {
    pub paused: bool,
    pub reason_code: u16,
    pub max_duration_secs: u64,
    pub set_ts: i64,
}

/// Economic admin authority rotated.
#[derive(Clone, Copy, PartialEq, Eq, Structural, Debug)]
pub struct EconAdminUpdated {
    pub old_econ_admin: AccountId,
    pub new_econ_admin: AccountId,
    pub set_ts: i64,
}

/// Risk admin authority rotated.
#[derive(Clone, Copy, PartialEq, Eq, Structural, Debug)]
pub struct PopAdminUpdated {
    pub old_pop_admin: AccountId,
    pub new_pop_admin: AccountId,
    pub set_ts: i64,
}

/// Counterparty registered.
#[derive(Clone, Copy, PartialEq, Eq, Structural, Debug)]
pub struct AllyRegistered {
    pub ally_nft_mint: AccountId,
    pub ops_authority: AccountId,
    pub withdraw_authority: AccountId,
    pub role: u8,
    pub treasury_ata: AccountId,
    pub vault_ata: AccountId,
}

/// Custodial deposit by a counterparty.
#[derive(Clone, Copy, PartialEq, Eq, Structural, Debug)]
pub struct AllyDepositEvent {
    pub ally_nft_mint: AccountId,
    pub amount: u64,
}

/// Custodial withdrawal by a counterparty.
#[derive(Clone, Copy, PartialEq, Eq, Structural, Debug)]
pub struct AllyWithdrawEvent {
    pub ally_nft_mint: AccountId,
    pub amount: u64,
}

/// Token converted into points, with quote evidence and benefit breakdown.
#[derive(Clone, Copy, PartialEq, Eq, Structural, Debug)]
pub struct ConvertToPPEvent {
    pub user: AccountId,
    pub ally_nft_mint: AccountId,
    pub amount_forca: u64,
    pub margin_b: u64,
    pub pp_delta: u64,
    pub sol_price_usd_e6: u64,
    pub forca_per_sol_e6: u64,
    pub pyth_price_feed: AccountId,
    pub canonical_pool: AccountId,
    pub verify_prices: bool,
    pub oracle_tolerance_bps: u16,
    pub pyth_expo_i32: i32,
    pub pyth_conf_e8: u64,
    pub pyth_publish_ts: i64,
    pub cur_hwm: u64,
    pub new_hwm: u64,
    pub tax_hwm: u64,
    pub benefit_mode: u8,
    pub benefit_bps: u16,
    pub discount_forca: u64,
    pub bonus_pp_e6: u64,
}

/// Claimable points allocated to an identity.
#[derive(Clone, Copy, PartialEq, Eq, Structural, Debug)]
pub struct AllocateRPEvent {
    pub user: AccountId,
    pub ally_nft_mint: AccountId,
    pub forca_equiv_amount: u64,
}

/// Previously allocated points cancelled.
#[derive(Clone, Copy, PartialEq, Eq, Structural, Debug)]
pub struct CancelRPEvent {
    pub user: AccountId,
    pub ally_nft_mint: AccountId,
    pub cancel_amount: u64,
}

/// Points redeemed into tokens, with the fee and watermark breakdown.
#[derive(Clone, Copy, PartialEq, Eq, Structural, Debug)]
pub struct ClaimRPEvent {
    pub user: AccountId,
    pub ally_nft_mint: AccountId,
    pub amount_forca: u64,
    pub net: u64,
    pub fee_c: u64,
    pub tax_d: u64,
    pub cur_hwm: u64,
    pub new_hwm: u64,
    pub tax_hwm: u64,
}

/// Points consumed from an identity's ledger.
#[derive(Clone, Copy, PartialEq, Eq, Structural, Debug)]
pub struct ConsumePPEvent {
    pub user: AccountId,
    pub ally_nft_mint: AccountId,
    pub amount_pp_e6: u64,
}

/// Benefit program of a counterparty changed.
#[derive(Clone, Copy, PartialEq, Eq, Structural, Debug)]
pub struct AllyBenefitSet {
    pub ally_nft_mint: AccountId,
    pub mode: u8,
    pub bps: u16,
}

/// Abuse-guard enforcement toggled for a counterparty.
#[derive(Clone, Copy, PartialEq, Eq, Structural, Debug)]
pub struct AllyPopEnforcementSet {
    pub ally_nft_mint: AccountId,
    pub pop_enforced: bool,
}

/// Risk-policy overrides of a counterparty changed.
#[derive(Clone, Copy, PartialEq, Eq, Structural, Debug)]
pub struct PopParamsUpdated {
    pub ally_nft_mint: AccountId,
    pub old_soft_daily_cap_usd_e6: u64,
    pub old_soft_cooldown_secs: u64,
    pub old_monthly_claim_limit: u16,
    pub old_hard_kyc_threshold_usd_e6: u64,
    pub new_soft_daily_cap_usd_e6: u64,
    pub new_soft_cooldown_secs: u64,
    pub new_monthly_claim_limit: u16,
    pub new_hard_kyc_threshold_usd_e6: u64,
    pub signer: AccountId,
    pub set_ts: i64,
}

/// Bonus points granted to an identity.
#[derive(Clone, Copy, PartialEq, Eq, Structural, Debug)]
pub struct GrantBonusPPEvent {
    pub user: AccountId,
    pub ally_nft_mint: AccountId,
    pub amount_pp_e6: u64,
}

/// Operations authority of a counterparty rotated.
#[derive(Clone, Copy, PartialEq, Eq, Structural, Debug)]
pub struct AllyOpsAuthorityUpdated {
    pub ally_nft_mint: AccountId,
    pub old_ops_authority: AccountId,
    pub new_ops_authority: AccountId,
    pub set_ts: i64,
}

/// Withdraw authority (and treasury account) of a counterparty rotated.
#[derive(Clone, Copy, PartialEq, Eq, Structural, Debug)]
pub struct AllyWithdrawAuthorityUpdated {
    pub ally_nft_mint: AccountId,
    pub old_withdraw_authority: AccountId,
    pub new_withdraw_authority: AccountId,
    pub old_treasury_ata: AccountId,
    pub new_treasury_ata: AccountId,
    pub set_ts: i64,
}

} // verus!
