//! Administration of the process-wide configuration and the counterparty
//! records: creation, parameter changes, authority rotation, and the one-way
//! oracle-mode locks.
//!
//! The host has already checked signatures and authority identities before
//! calling; these functions validate the parameters themselves and the
//! guarded state transitions, and commit nothing on rejection.

use vstd::prelude::*;

use crate::account::AccountId;
use crate::account::TokenAccountView;
use crate::errors::RvError;
use crate::events::AllyBenefitSet;
use crate::events::AllyOpsAuthorityUpdated;
use crate::events::AllyPopEnforcementSet;
use crate::events::AllyRegistered;
use crate::events::AllyWithdrawAuthorityUpdated;
use crate::events::EconAdminUpdated;
use crate::events::PopAdminUpdated;
use crate::events::PopParamsUpdated;
use crate::events::VaultInitialized;
use crate::events::VaultPauseEvent;
use crate::state::AllyAccount;
use crate::state::AllyRole;
use crate::state::BenefitMode;
use crate::state::MockOracleSolUsd;
use crate::state::MockPoolForcaSol;
use crate::state::PopLevel;
use crate::state::PopProfile;
use crate::state::VaultState;
use crate::state::ally_role_code;
use crate::state::benefit_mode_code;
use crate::state::pop_level_code;
use crate::state::spec_ally_role_code;
use crate::state::spec_benefit_mode_code;
use crate::state::spec_pause_reason_from_u16;
use crate::state::spec_pop_level_code;
use crate::state::pause_reason_from_u16;

verus! {

/// Minimum configurable rolling daily cap, micro-USD.
pub const MIN_POP_SOFT_DAILY_CAP_USD_E6: u64 = 1_000_000;

/// Maximum configurable cooldown, seconds.
pub const MAX_POP_SOFT_COOLDOWN_SECS: u64 = 86_400;

/// Minimum non-zero monthly claim limit.
pub const MIN_POP_MONTHLY_CLAIM_LIMIT: u16 = 1;

/// Maximum monthly claim limit.
pub const MAX_POP_MONTHLY_CLAIM_LIMIT: u16 = 31;

/// Minimum non-zero KYC threshold, micro-USD.
pub const MIN_POP_HARD_KYC_THRESHOLD_USD_E6: u64 = 1_000_000;

/// Default maximum confidence interval, basis points.
pub const DEFAULT_PYTH_MAX_CONFIDENCE_BPS: u16 = 100;

/// The configuration created by vault initialization: validated fee
/// parameters and conservative oracle defaults, unpaused.
pub open spec fn spec_initialize_vault(
    pop_admin: AccountId,
    econ_admin: AccountId,
    forca_mint: AccountId,
    forca_mint_decimals: int,
    fee_c_bps: int,
    tax_d_bps: int,
    margin_b_bps: int,
) -> Result<VaultState, RvError> {
    if fee_c_bps > 10000 {
        Err(RvError::InvalidBps)
    } else if tax_d_bps > 10000 {
        Err(RvError::InvalidBps)
    } else if margin_b_bps > 10000 {
        Err(RvError::InvalidBps)
    } else if forca_mint_decimals != 6 {
        Err(RvError::InvalidForcaDecimals)
    } else {
        Ok(
            VaultState {
                pop_admin,
                econ_admin,
                forca_mint,
                fee_c_bps: fee_c_bps as u16,
                tax_d_bps: tax_d_bps as u16,
                margin_b_bps: margin_b_bps as u16,
                paused: false,
                soft_daily_cap_usd_e6: 1_000_000_000,
                soft_cooldown_secs: 0,
                forca_usd_e6: 1_000_000,
                verify_prices: false,
                oracle_tolerance_bps: 100,
                pyth_sol_usd_price_feed: AccountId::spec_zero(),
                canonical_pool_forca_sol: AccountId::spec_zero(),
                canonical_pool_forca_reserve: AccountId::spec_zero(),
                canonical_pool_sol_reserve: AccountId::spec_zero(),
                use_mock_oracle: false,
                mock_oracle_locked: false,
                pyth_max_stale_secs: 120,
                pyth_max_confidence_bps: DEFAULT_PYTH_MAX_CONFIDENCE_BPS,
            },
        )
    }
}

/// Creation of the vault configuration with its fee parameters; the token
/// mint must carry six decimals.
pub fn initialize_vault(
    pop_admin: AccountId,
    econ_admin: AccountId,
    forca_mint: AccountId,
    forca_mint_decimals: u8,
    fee_c_bps: u16,
    tax_d_bps: u16,
    margin_b_bps: u16,
) -> (r: Result<(VaultState, VaultInitialized), RvError>)
    ensures
        (match spec_initialize_vault(
            pop_admin,
            econ_admin,
            forca_mint,
            forca_mint_decimals as int,
            fee_c_bps as int,
            tax_d_bps as int,
            margin_b_bps as int,
        ) {
            Ok(st) => {
                &&& r is Ok
                &&& r->Ok_0.0 == st
                &&& r->Ok_0.1 == (VaultInitialized { forca_mint, fee_c_bps, tax_d_bps, margin_b_bps })
                &&& st.wf()
            },
            Err(e) => r == Err::<(VaultState, VaultInitialized), RvError>(e),
        }),
{
    if fee_c_bps > 10000 {
        return Err(RvError::InvalidBps);
    }
    if tax_d_bps > 10000 {
        return Err(RvError::InvalidBps);
    }
    if margin_b_bps > 10000 {
        return Err(RvError::InvalidBps);
    }
    if forca_mint_decimals != 6 {
        return Err(RvError::InvalidForcaDecimals);
    }
    let st = VaultState {
        pop_admin,
        econ_admin,
        forca_mint,
        fee_c_bps,
        tax_d_bps,
        margin_b_bps,
        paused: false,
        soft_daily_cap_usd_e6: 1_000_000_000,
        soft_cooldown_secs: 0,
        forca_usd_e6: 1_000_000,
        verify_prices: false,
        oracle_tolerance_bps: 100,
        pyth_sol_usd_price_feed: AccountId::zero(),
        canonical_pool_forca_sol: AccountId::zero(),
        canonical_pool_forca_reserve: AccountId::zero(),
        canonical_pool_sol_reserve: AccountId::zero(),
        use_mock_oracle: false,
        mock_oracle_locked: false,
        pyth_max_stale_secs: 120,
        pyth_max_confidence_bps: DEFAULT_PYTH_MAX_CONFIDENCE_BPS,
    };
    let event = VaultInitialized { forca_mint, fee_c_bps, tax_d_bps, margin_b_bps };
    Ok((st, event))
}

/// Toggle of the pause flag; the reason code must be a known one.
pub fn set_pause(
    st: &mut VaultState,
    pause: bool,
    reason_code: u16,
    max_duration_secs: u64,
    now: i64,
) -> (r: Result<VaultPauseEvent, RvError>)
    ensures
        (match spec_pause_reason_from_u16(reason_code) {
            Some(_) => {
                &&& r == Ok::<VaultPauseEvent, RvError>(
                    VaultPauseEvent { paused: pause, reason_code, max_duration_secs, set_ts: now },
                )
                &&& *final(st) == (VaultState { paused: pause, ..*old(st) })
            },
            None => {
                &&& r == Err::<VaultPauseEvent, RvError>(RvError::InvalidPauseReason)
                &&& *final(st) == *old(st)
            },
        }),
{
    match pause_reason_from_u16(reason_code) {
        Ok(_) => {},
        Err(e) => {
            return Err(e);
        },
    }
    st.paused = pause;
    Ok(VaultPauseEvent { paused: pause, reason_code, max_duration_secs, set_ts: now })
}

/// Change of the three fee parameters, each within 0..=10000.
pub fn set_params(st: &mut VaultState, fee_c_bps: u16, tax_d_bps: u16, margin_b_bps: u16) -> (r:
    Result<(), RvError>)
    ensures
        fee_c_bps > 10000 || tax_d_bps > 10000 || margin_b_bps > 10000 ==> {
            &&& r == Err::<(), RvError>(RvError::InvalidBps)
            &&& *final(st) == *old(st)
        },
        fee_c_bps <= 10000 && tax_d_bps <= 10000 && margin_b_bps <= 10000 ==> {
            &&& r is Ok
            &&& *final(st) == (VaultState { fee_c_bps, tax_d_bps, margin_b_bps, ..*old(st) })
        },
{
    if fee_c_bps > 10000 {
        return Err(RvError::InvalidBps);
    }
    if tax_d_bps > 10000 {
        return Err(RvError::InvalidBps);
    }
    if margin_b_bps > 10000 {
        return Err(RvError::InvalidBps);
    }
    st.fee_c_bps = fee_c_bps;
    st.tax_d_bps = tax_d_bps;
    st.margin_b_bps = margin_b_bps;
    Ok(())
}

/// The risk-policy overrides of a counterparty after validation: the daily
/// cap at least one dollar, the cooldown at most a day, a non-zero monthly
/// limit within its band, a non-zero KYC threshold at least one dollar.
pub open spec fn spec_set_pop_params(
    ally: AllyAccount,
    soft_daily_cap_usd_e6: int,
    soft_cooldown_secs: int,
    monthly_claim_limit: int,
    hard_kyc_threshold_usd_e6: int,
) -> Result<AllyAccount, RvError> {
    if soft_daily_cap_usd_e6 < MIN_POP_SOFT_DAILY_CAP_USD_E6 {
        Err(RvError::PopCapTooLow)
    } else if soft_cooldown_secs > MAX_POP_SOFT_COOLDOWN_SECS {
        Err(RvError::PopCooldownTooHigh)
    } else if monthly_claim_limit != 0 && monthly_claim_limit < MIN_POP_MONTHLY_CLAIM_LIMIT {
        Err(RvError::PopMonthlyLimitTooLow)
    } else if monthly_claim_limit != 0 && monthly_claim_limit > MAX_POP_MONTHLY_CLAIM_LIMIT {
        Err(RvError::PopMonthlyLimitTooHigh)
    } else if hard_kyc_threshold_usd_e6 != 0 && hard_kyc_threshold_usd_e6
        < MIN_POP_HARD_KYC_THRESHOLD_USD_E6 {
        Err(RvError::PopHardCutTooLow)
    } else {
        Ok(
            AllyAccount {
                soft_daily_cap_usd_e6: soft_daily_cap_usd_e6 as u64,
                soft_cooldown_secs: soft_cooldown_secs as u64,
                monthly_claim_limit: monthly_claim_limit as u16,
                hard_kyc_threshold_usd_e6: hard_kyc_threshold_usd_e6 as u64,
                ..ally
            },
        )
    }
}

/// Change of a counterparty's risk-policy overrides.
pub fn set_pop_params(
    ally: &mut AllyAccount,
    soft_daily_cap_usd_e6: u64,
    soft_cooldown_secs: u64,
    monthly_claim_limit: u16,
    hard_kyc_threshold_usd_e6: u64,
    signer: AccountId,
    now: i64,
) -> (r: Result<PopParamsUpdated, RvError>)
    ensures
        (match spec_set_pop_params(
            *old(ally),
            soft_daily_cap_usd_e6 as int,
            soft_cooldown_secs as int,
            monthly_claim_limit as int,
            hard_kyc_threshold_usd_e6 as int,
        ) {
            Ok(a) => {
                &&& *final(ally) == a
                &&& r == Ok::<PopParamsUpdated, RvError>(
                    PopParamsUpdated {
                        ally_nft_mint: old(ally).nft_mint,
                        old_soft_daily_cap_usd_e6: old(ally).soft_daily_cap_usd_e6,
                        old_soft_cooldown_secs: old(ally).soft_cooldown_secs,
                        old_monthly_claim_limit: old(ally).monthly_claim_limit,
                        old_hard_kyc_threshold_usd_e6: old(ally).hard_kyc_threshold_usd_e6,
                        new_soft_daily_cap_usd_e6: soft_daily_cap_usd_e6,
                        new_soft_cooldown_secs: soft_cooldown_secs,
                        new_monthly_claim_limit: monthly_claim_limit,
                        new_hard_kyc_threshold_usd_e6: hard_kyc_threshold_usd_e6,
                        signer,
                        set_ts: now,
                    },
                )
            },
            Err(e) => {
                &&& r == Err::<PopParamsUpdated, RvError>(e)
                &&& *final(ally) == *old(ally)
            },
        }),
{
    if soft_daily_cap_usd_e6 < MIN_POP_SOFT_DAILY_CAP_USD_E6 {
        return Err(RvError::PopCapTooLow);
    }
    if soft_cooldown_secs > MAX_POP_SOFT_COOLDOWN_SECS {
        return Err(RvError::PopCooldownTooHigh);
    }
    if monthly_claim_limit != 0 {
        if monthly_claim_limit < MIN_POP_MONTHLY_CLAIM_LIMIT {
            return Err(RvError::PopMonthlyLimitTooLow);
        }
        if monthly_claim_limit > MAX_POP_MONTHLY_CLAIM_LIMIT {
            return Err(RvError::PopMonthlyLimitTooHigh);
        }
    }
    if hard_kyc_threshold_usd_e6 != 0 && hard_kyc_threshold_usd_e6
        < MIN_POP_HARD_KYC_THRESHOLD_USD_E6 {
        return Err(RvError::PopHardCutTooLow);
    }
    let event = PopParamsUpdated {
        ally_nft_mint: ally.nft_mint,
        old_soft_daily_cap_usd_e6: ally.soft_daily_cap_usd_e6,
        old_soft_cooldown_secs: ally.soft_cooldown_secs,
        old_monthly_claim_limit: ally.monthly_claim_limit,
        old_hard_kyc_threshold_usd_e6: ally.hard_kyc_threshold_usd_e6,
        new_soft_daily_cap_usd_e6: soft_daily_cap_usd_e6,
        new_soft_cooldown_secs: soft_cooldown_secs,
        new_monthly_claim_limit: monthly_claim_limit,
        new_hard_kyc_threshold_usd_e6: hard_kyc_threshold_usd_e6,
        signer,
        set_ts: now,
    };
    ally.soft_daily_cap_usd_e6 = soft_daily_cap_usd_e6;
    ally.soft_cooldown_secs = soft_cooldown_secs;
    ally.monthly_claim_limit = monthly_claim_limit;
    ally.hard_kyc_threshold_usd_e6 = hard_kyc_threshold_usd_e6;
    Ok(event)
}

/// Change of the manual USD-per-token rate, usable only in mock-oracle mode.
pub fn set_forca_usd(st: &mut VaultState, forca_usd_e6: u64) -> (r: Result<(), RvError>)
    ensures
        !old(st).use_mock_oracle ==> {
            &&& r == Err::<(), RvError>(RvError::ManualForcaUsdDisabled)
            &&& *final(st) == *old(st)
        },
        old(st).use_mock_oracle ==> {
            &&& r is Ok
            &&& *final(st) == (VaultState { forca_usd_e6, ..*old(st) })
        },
{
    if !st.use_mock_oracle {
        return Err(RvError::ManualForcaUsdDisabled);
    }
    st.forca_usd_e6 = forca_usd_e6;
    Ok(())
}

/// The oracle configuration after validation and the two one-way locks:
/// price verification can never be switched off again, and once the mock
/// oracle has been left it can never be re-entered.  Entering live
/// verification requires all four canonical identities to be set.
pub open spec fn spec_set_oracle_config(
    st: VaultState,
    verify_prices: bool,
    oracle_tolerance_bps: int,
    pyth_sol_usd_price_feed: AccountId,
    canonical_pool_forca_sol: AccountId,
    canonical_pool_forca_reserve: AccountId,
    canonical_pool_sol_reserve: AccountId,
    use_mock_oracle: bool,
    pyth_max_stale_secs: int,
    pyth_max_confidence_bps: int,
) -> Result<VaultState, RvError> {
    if oracle_tolerance_bps > 10000 {
        Err(RvError::InvalidBps)
    } else if !(pyth_max_confidence_bps > 0 && pyth_max_confidence_bps <= 10000) {
        Err(RvError::InvalidBps)
    } else if st.verify_prices && !verify_prices {
        Err(RvError::VerifyPricesLocked)
    } else if st.mock_oracle_locked && use_mock_oracle {
        Err(RvError::MockOracleLocked)
    } else if verify_prices && !use_mock_oracle && (pyth_sol_usd_price_feed
        == AccountId::spec_zero() || canonical_pool_forca_sol == AccountId::spec_zero()
        || canonical_pool_forca_reserve == AccountId::spec_zero() || canonical_pool_sol_reserve
        == AccountId::spec_zero()) {
        Err(RvError::OracleMissing)
    } else {
        Ok(
            VaultState {
                verify_prices,
                oracle_tolerance_bps: oracle_tolerance_bps as u16,
                pyth_sol_usd_price_feed,
                canonical_pool_forca_sol,
                canonical_pool_forca_reserve,
                canonical_pool_sol_reserve,
                use_mock_oracle,
                mock_oracle_locked: if !use_mock_oracle {
                    true
                } else {
                    st.mock_oracle_locked
                },
                pyth_max_stale_secs: pyth_max_stale_secs as u64,
                pyth_max_confidence_bps: pyth_max_confidence_bps as u16,
                ..st
            },
        )
    }
}

/// Change of the oracle configuration, honouring the one-way locks.
pub fn set_oracle_config(
    st: &mut VaultState,
    verify_prices: bool,
    oracle_tolerance_bps: u16,
    pyth_sol_usd_price_feed: AccountId,
    canonical_pool_forca_sol: AccountId,
    canonical_pool_forca_reserve: AccountId,
    canonical_pool_sol_reserve: AccountId,
    use_mock_oracle: bool,
    pyth_max_stale_secs: u64,
    pyth_max_confidence_bps: u16,
) -> (r: Result<(), RvError>)
    ensures
        (match spec_set_oracle_config(
            *old(st),
            verify_prices,
            oracle_tolerance_bps as int,
            pyth_sol_usd_price_feed,
            canonical_pool_forca_sol,
            canonical_pool_forca_reserve,
            canonical_pool_sol_reserve,
            use_mock_oracle,
            pyth_max_stale_secs as int,
            pyth_max_confidence_bps as int,
        ) {
            Ok(new_st) => {
                &&& r is Ok
                &&& *final(st) == new_st
            },
            Err(e) => {
                &&& r == Err::<(), RvError>(e)
                &&& *final(st) == *old(st)
            },
        }),
        r is Ok && old(st).wf() ==> final(st).wf(),
{
    if oracle_tolerance_bps > 10000 {
        return Err(RvError::InvalidBps);
    }
    if !(pyth_max_confidence_bps > 0 && pyth_max_confidence_bps <= 10000) {
        return Err(RvError::InvalidBps);
    }
    if st.verify_prices && !verify_prices {
        return Err(RvError::VerifyPricesLocked);
    }
    if st.mock_oracle_locked && use_mock_oracle {
        return Err(RvError::MockOracleLocked);
    }
    if verify_prices && !use_mock_oracle {
        if pyth_sol_usd_price_feed.is_zero() {
            return Err(RvError::OracleMissing);
        }
        if canonical_pool_forca_sol.is_zero() {
            return Err(RvError::OracleMissing);
        }
        if canonical_pool_forca_reserve.is_zero() {
            return Err(RvError::OracleMissing);
        }
        if canonical_pool_sol_reserve.is_zero() {
            return Err(RvError::OracleMissing);
        }
    }
    st.verify_prices = verify_prices;
    st.oracle_tolerance_bps = oracle_tolerance_bps;
    st.pyth_sol_usd_price_feed = pyth_sol_usd_price_feed;
    st.canonical_pool_forca_sol = canonical_pool_forca_sol;
    st.canonical_pool_forca_reserve = canonical_pool_forca_reserve;
    st.canonical_pool_sol_reserve = canonical_pool_sol_reserve;
    st.use_mock_oracle = use_mock_oracle;
    if !use_mock_oracle {
        st.mock_oracle_locked = true;
    }
    st.pyth_max_stale_secs = pyth_max_stale_secs;
    st.pyth_max_confidence_bps = pyth_max_confidence_bps;
    Ok(())
}

/// Rotation of the economic admin authority to a non-zero identity.
pub fn set_econ_admin(st: &mut VaultState, new_econ_admin: AccountId, now: i64) -> (r: Result<
    EconAdminUpdated,
    RvError,
>)
    ensures
        new_econ_admin == AccountId::spec_zero() ==> {
            &&& r == Err::<EconAdminUpdated, RvError>(RvError::InvalidAuthority)
            &&& *final(st) == *old(st)
        },
        new_econ_admin != AccountId::spec_zero() ==> {
            &&& r == Ok::<EconAdminUpdated, RvError>(
                EconAdminUpdated {
                    old_econ_admin: old(st).econ_admin,
                    new_econ_admin,
                    set_ts: now,
                },
            )
            &&& *final(st) == (VaultState { econ_admin: new_econ_admin, ..*old(st) })
        },
{
    if new_econ_admin.is_zero() {
        return Err(RvError::InvalidAuthority);
    }
    let old_admin = st.econ_admin;
    st.econ_admin = new_econ_admin;
    Ok(EconAdminUpdated { old_econ_admin: old_admin, new_econ_admin, set_ts: now })
}

/// Rotation of the risk admin authority to a non-zero identity.
pub fn set_pop_admin(st: &mut VaultState, new_pop_admin: AccountId, now: i64) -> (r: Result<
    PopAdminUpdated,
    RvError,
>)
    ensures
        new_pop_admin == AccountId::spec_zero() ==> {
            &&& r == Err::<PopAdminUpdated, RvError>(RvError::InvalidAuthority)
            &&& *final(st) == *old(st)
        },
        new_pop_admin != AccountId::spec_zero() ==> {
            &&& r == Ok::<PopAdminUpdated, RvError>(
                PopAdminUpdated { old_pop_admin: old(st).pop_admin, new_pop_admin, set_ts: now },
            )
            &&& *final(st) == (VaultState { pop_admin: new_pop_admin, ..*old(st) })
        },
{
    if new_pop_admin.is_zero() {
        return Err(RvError::InvalidAuthority);
    }
    let old_admin = st.pop_admin;
    st.pop_admin = new_pop_admin;
    Ok(PopAdminUpdated { old_pop_admin: old_admin, new_pop_admin, set_ts: now })
}

/// Refill of the mock oracle and mock pool with a price, a ratio, and the
/// fixed example confidence, exponent and reserves.
pub fn set_mock_oracles(
    mock_oracle_sol: &mut MockOracleSolUsd,
    mock_pool_forca: &mut MockPoolForcaSol,
    sol_usd_e6: u64,
    forca_per_sol_e6: u64,
    now: i64,
) ensures
        *final(mock_oracle_sol) == (MockOracleSolUsd {
            sol_usd_e6,
            expo_i32: 8,
            conf_e8: 1_000,
            publish_ts: now,
        }),
        *final(mock_pool_forca) == (MockPoolForcaSol {
            forca_per_sol_e6,
            reserve_forca_e6: 1_000_000_000,
            reserve_sol_e9: 10_000_000_000,
        }),
{
    mock_oracle_sol.sol_usd_e6 = sol_usd_e6;
    mock_oracle_sol.expo_i32 = 8;
    mock_oracle_sol.conf_e8 = 1_000;
    mock_oracle_sol.publish_ts = now;
    mock_pool_forca.forca_per_sol_e6 = forca_per_sol_e6;
    mock_pool_forca.reserve_forca_e6 = 1_000_000_000;
    mock_pool_forca.reserve_sol_e9 = 10_000_000_000;
}

/// Assignment of an identity's risk tier, creating the profile on first use;
/// an existing profile must belong to the same identity.
pub fn set_pop_level(
    profile: &mut PopProfile,
    user: AccountId,
    level: PopLevel,
    now: i64,
) -> (r: Result<(), RvError>)
    ensures
        old(profile).user != AccountId::spec_zero() && old(profile).user != user ==> {
            &&& r == Err::<(), RvError>(RvError::InvalidAuthority)
            &&& *final(profile) == *old(profile)
        },
        old(profile).user == AccountId::spec_zero() || old(profile).user == user ==> {
            &&& r is Ok
            &&& *final(profile) == (PopProfile {
                user,
                level: spec_pop_level_code(level),
                last_set_ts: now,
            })
        },
{
    if profile.user.is_zero() {
        profile.user = user;
    }
    if profile.user != user {
        return Err(RvError::InvalidAuthority);
    }
    profile.level = pop_level_code(level);
    profile.last_set_ts = now;
    Ok(())
}

/// A newly registered counterparty: its treasury must be owned by the
/// withdraw authority and both token accounts must carry the configured
/// mint; risk enforcement starts on, with the process-wide default cap and
/// cooldown and no monthly or KYC override.
pub open spec fn spec_register_ally(
    st: VaultState,
    role: AllyRole,
    ally_nft_mint: AccountId,
    ops_authority: AccountId,
    withdraw_authority: AccountId,
    ally_treasury_ata: TokenAccountView,
    ally_vault_ata: TokenAccountView,
) -> Result<AllyAccount, RvError> {
    if ally_treasury_ata.owner != withdraw_authority {
        Err(RvError::InvalidAuthority)
    } else if ally_treasury_ata.mint != st.forca_mint {
        Err(RvError::InvalidMint)
    } else if ally_vault_ata.mint != st.forca_mint {
        Err(RvError::InvalidMint)
    } else {
        Ok(
            AllyAccount {
                nft_mint: ally_nft_mint,
                ops_authority,
                withdraw_authority,
                treasury_ata: ally_treasury_ata.key,
                vault_ata: ally_vault_ata.key,
                role: spec_ally_role_code(role),
                balance_forca: 0,
                rp_reserved: 0,
                benefit_mode: spec_benefit_mode_code(BenefitMode::NoBenefit),
                benefit_bps: 0,
                pop_enforced: true,
                soft_daily_cap_usd_e6: st.soft_daily_cap_usd_e6,
                soft_cooldown_secs: st.soft_cooldown_secs,
                monthly_claim_limit: 0,
                hard_kyc_threshold_usd_e6: 0,
            },
        )
    }
}

/// Registration of a counterparty with its two authorities.
pub fn register_ally(
    st: &VaultState,
    role: AllyRole,
    ally_nft_mint: AccountId,
    ops_authority: AccountId,
    withdraw_authority: AccountId,
    ally_treasury_ata: &TokenAccountView,
    ally_vault_ata: &TokenAccountView,
) -> (r: Result<(AllyAccount, AllyRegistered), RvError>)
    ensures
        (match spec_register_ally(
            *st,
            role,
            ally_nft_mint,
            ops_authority,
            withdraw_authority,
            *ally_treasury_ata,
            *ally_vault_ata,
        ) {
            Ok(a) => {
                &&& r is Ok
                &&& r->Ok_0.0 == a
                &&& r->Ok_0.1 == (AllyRegistered {
                    ally_nft_mint,
                    ops_authority,
                    withdraw_authority,
                    role: spec_ally_role_code(role),
                    treasury_ata: ally_treasury_ata.key,
                    vault_ata: ally_vault_ata.key,
                })
                &&& a.wf()
            },
            Err(e) => r == Err::<(AllyAccount, AllyRegistered), RvError>(e),
        }),
{
    if ally_treasury_ata.owner != withdraw_authority {
        return Err(RvError::InvalidAuthority);
    }
    if ally_treasury_ata.mint != st.forca_mint {
        return Err(RvError::InvalidMint);
    }
    if ally_vault_ata.mint != st.forca_mint {
        return Err(RvError::InvalidMint);
    }
    let ally = AllyAccount {
        nft_mint: ally_nft_mint,
        ops_authority,
        withdraw_authority,
        treasury_ata: ally_treasury_ata.key,
        vault_ata: ally_vault_ata.key,
        role: ally_role_code(role),
        balance_forca: 0,
        rp_reserved: 0,
        benefit_mode: benefit_mode_code(BenefitMode::NoBenefit),
        benefit_bps: 0,
        pop_enforced: true,
        soft_daily_cap_usd_e6: st.soft_daily_cap_usd_e6,
        soft_cooldown_secs: st.soft_cooldown_secs,
        monthly_claim_limit: 0,
        hard_kyc_threshold_usd_e6: 0,
    };
    let event = AllyRegistered {
        ally_nft_mint,
        ops_authority,
        withdraw_authority,
        role: ally.role,
        treasury_ata: ally.treasury_ata,
        vault_ata: ally.vault_ata,
    };
    Ok((ally, event))
}

/// Change of a counterparty's benefit program.
pub fn set_ally_benefit(ally: &mut AllyAccount, mode: BenefitMode, bps: u16) -> (r: Result<
    AllyBenefitSet,
    RvError,
>)
    ensures
        bps > 10000 ==> {
            &&& r == Err::<AllyBenefitSet, RvError>(RvError::InvalidBps)
            &&& *final(ally) == *old(ally)
        },
        bps <= 10000 ==> {
            &&& r == Ok::<AllyBenefitSet, RvError>(
                AllyBenefitSet {
                    ally_nft_mint: old(ally).nft_mint,
                    mode: spec_benefit_mode_code(mode),
                    bps,
                },
            )
            &&& *final(ally) == (AllyAccount {
                benefit_mode: spec_benefit_mode_code(mode),
                benefit_bps: bps,
                ..*old(ally)
            })
        },
        r is Ok && old(ally).wf() ==> final(ally).wf(),
{
    if bps > 10000 {
        return Err(RvError::InvalidBps);
    }
    ally.benefit_mode = benefit_mode_code(mode);
    ally.benefit_bps = bps;
    Ok(AllyBenefitSet { ally_nft_mint: ally.nft_mint, mode: ally.benefit_mode, bps })
}

/// Toggle of abuse-guard enforcement for a counterparty's identities.
pub fn set_ally_pop_enforcement(ally: &mut AllyAccount, enforce: bool) -> (r: AllyPopEnforcementSet)
    ensures
        *final(ally) == (AllyAccount { pop_enforced: enforce, ..*old(ally) }),
        r == (AllyPopEnforcementSet { ally_nft_mint: old(ally).nft_mint, pop_enforced: enforce }),
{
    ally.pop_enforced = enforce;
    AllyPopEnforcementSet { ally_nft_mint: ally.nft_mint, pop_enforced: enforce }
}

/// Rotation of a counterparty's operations authority to a non-zero identity.
pub fn set_ally_ops_authority(ally: &mut AllyAccount, new_ops_authority: AccountId, now: i64) -> (r:
    Result<AllyOpsAuthorityUpdated, RvError>)
    ensures
        new_ops_authority == AccountId::spec_zero() ==> {
            &&& r == Err::<AllyOpsAuthorityUpdated, RvError>(RvError::InvalidAuthority)
            &&& *final(ally) == *old(ally)
        },
        new_ops_authority != AccountId::spec_zero() ==> {
            &&& r == Ok::<AllyOpsAuthorityUpdated, RvError>(
                AllyOpsAuthorityUpdated {
                    ally_nft_mint: old(ally).nft_mint,
                    old_ops_authority: old(ally).ops_authority,
                    new_ops_authority,
                    set_ts: now,
                },
            )
            &&& *final(ally) == (AllyAccount { ops_authority: new_ops_authority, ..*old(ally) })
        },
{
    if new_ops_authority.is_zero() {
        return Err(RvError::InvalidAuthority);
    }
    let old_authority = ally.ops_authority;
    ally.ops_authority = new_ops_authority;
    Ok(
        AllyOpsAuthorityUpdated {
            ally_nft_mint: ally.nft_mint,
            old_ops_authority: old_authority,
            new_ops_authority,
            set_ts: now,
        },
    )
}

/// The counterparty after a withdraw-authority rotation: the new treasury
/// account must carry the configured mint and be owned by the new authority.
pub open spec fn spec_set_ally_withdraw_authority(
    st: VaultState,
    ally: AllyAccount,
    new_withdraw_authority: AccountId,
    new_treasury_ata: TokenAccountView,
) -> Result<AllyAccount, RvError> {
    if new_treasury_ata.mint != st.forca_mint {
        Err(RvError::InvalidMint)
    } else if new_withdraw_authority == AccountId::spec_zero() {
        Err(RvError::InvalidAuthority)
    } else if new_treasury_ata.owner != new_withdraw_authority {
        Err(RvError::InvalidAuthority)
    } else {
        Ok(
            AllyAccount {
                withdraw_authority: new_withdraw_authority,
                treasury_ata: new_treasury_ata.key,
                ..ally
            },
        )
    }
}

/// Rotation of a counterparty's withdraw authority and treasury account.
pub fn set_ally_withdraw_authority(
    st: &VaultState,
    ally: &mut AllyAccount,
    new_withdraw_authority: AccountId,
    new_treasury_ata: &TokenAccountView,
    now: i64,
) -> (r: Result<AllyWithdrawAuthorityUpdated, RvError>)
    ensures
        (match spec_set_ally_withdraw_authority(
            *st,
            *old(ally),
            new_withdraw_authority,
            *new_treasury_ata,
        ) {
            Ok(a) => {
                &&& *final(ally) == a
                &&& r == Ok::<AllyWithdrawAuthorityUpdated, RvError>(
                    AllyWithdrawAuthorityUpdated {
                        ally_nft_mint: old(ally).nft_mint,
                        old_withdraw_authority: old(ally).withdraw_authority,
                        new_withdraw_authority,
                        old_treasury_ata: old(ally).treasury_ata,
                        new_treasury_ata: new_treasury_ata.key,
                        set_ts: now,
                    },
                )
            },
            Err(e) => {
                &&& r == Err::<AllyWithdrawAuthorityUpdated, RvError>(e)
                &&& *final(ally) == *old(ally)
            },
        }),
{
    if new_treasury_ata.mint != st.forca_mint {
        return Err(RvError::InvalidMint);
    }
    if new_withdraw_authority.is_zero() {
        return Err(RvError::InvalidAuthority);
    }
    if new_treasury_ata.owner != new_withdraw_authority {
        return Err(RvError::InvalidAuthority);
    }
    let event = AllyWithdrawAuthorityUpdated {
        ally_nft_mint: ally.nft_mint,
        old_withdraw_authority: ally.withdraw_authority,
        new_withdraw_authority,
        old_treasury_ata: ally.treasury_ata,
        new_treasury_ata: new_treasury_ata.key,
        set_ts: now,
    };
    ally.withdraw_authority = new_withdraw_authority;
    ally.treasury_ata = new_treasury_ata.key;
    Ok(event)
}

} // verus!
