//! The settlement engine: conversion of tokens into points and redemption of
//! points back into tokens.
//!
//! A redemption (claim) levies the base fee C on the gross amount and the
//! excess tax D on the part of the new cumulative claim basis above the
//! already-taxed watermark, then ratchets both watermarks forward.  A
//! conversion retains the margin B with the counterparty, applies the benefit
//! program, credits points at the asserted (cross-checked) price, and pulls
//! the taxable watermark down by the real wallet outflow.  Either operation
//! validates completely and then commits all of its mutations, or rejects
//! with a typed failure and changes nothing.

use vstd::prelude::*;

use crate::account::AccountId;
use crate::account::TokenAccountView;
use crate::errors::RvError;
use crate::events::ClaimRPEvent;
use crate::events::ConvertToPPEvent;
use crate::guard::guard_admit;
use crate::guard::spec_guard_admit;
use crate::guard::fresh_claim_guard;
use crate::math::bps_mul_floor;
use crate::math::spec_bps_mul;
use crate::oracle::PriceAttestation;
use crate::oracle::QuoteEvidence;
use crate::oracle::resolve_forca_usd_e6;
use crate::oracle::spec_resolve_forca_usd_e6;
use crate::oracle::spec_verify_convert_quote;
use crate::oracle::verify_convert_quote;
use crate::state::AllyAccount;
use crate::state::BenefitMode;
use crate::state::ClaimGuard;
use crate::state::MockOracleSolUsd;
use crate::state::MockPoolForcaSol;
use crate::state::PopLevel;
use crate::state::PopProfile;
use crate::state::UserLedger;
use crate::state::VaultState;
use crate::state::benefit_mode_from_u8;
use crate::state::pop_level_code;
use crate::state::spec_benefit_mode_from_u8;
use crate::state::spec_pop_level_code;

verus! {

/// The fee breakdown of one claim.
#[derive(Clone, Copy, PartialEq, Eq, Structural, Debug)]
pub struct ClaimFees {
    /// Base fee C on the gross amount.
    pub fee_c: u64,
    /// Gross amount minus the base fee; the part entering the taxable basis.
    pub claim_basis: u64,
    /// Excess tax D on the basis above the taxed watermark.
    pub tax_d: u64,
    /// Paid out to the identity: `claim_basis - tax_d`.
    pub net: u64,
    /// The new value of both watermarks after the claim.
    pub new_hwm: u64,
}

/// Fee and tax of a claim of `amount`: `fee_c = floor(amount * C / 10000)`,
/// the claim basis `amount - fee_c` raises the watermark to `new_hwm`, the
/// tax applies to the excess of `new_hwm` over the taxed watermark, and the
/// claim is rejected when fees leave nothing to pay out or a watermark no
/// longer fits in 64 bits.
pub open spec fn spec_claim_fees(
    amount: int,
    fee_c_bps: int,
    tax_d_bps: int,
    hwm_claimed: int,
    tax_hwm: int,
) -> Result<ClaimFees, RvError> {
    let fee_c = spec_bps_mul(amount, fee_c_bps);
    let claim_basis = amount - fee_c;
    let new_hwm = hwm_claimed + claim_basis;
    let excess = if new_hwm > tax_hwm {
        new_hwm - tax_hwm
    } else {
        0
    };
    let tax_d = spec_bps_mul(excess, tax_d_bps);
    if tax_d > u64::MAX {
        Err(RvError::Overflow)
    } else if fee_c + tax_d > u64::MAX {
        Err(RvError::Overflow)
    } else if amount <= fee_c + tax_d {
        Err(RvError::AmountTooSmallAfterFee)
    } else if new_hwm > u64::MAX {
        Err(RvError::Overflow)
    } else {
        Ok(
            ClaimFees {
                fee_c: fee_c as u64,
                claim_basis: claim_basis as u64,
                tax_d: tax_d as u64,
                net: (claim_basis - tax_d) as u64,
                new_hwm: new_hwm as u64,
            },
        )
    }
}

/// The fee, tax and watermark arithmetic of one claim, in 128-bit
/// intermediates with explicit overflow checks.
pub fn compute_claim_fees(
    amount: u64,
    fee_c_bps: u16,
    tax_d_bps: u16,
    hwm_claimed: u64,
    tax_hwm: u64,
) -> (r: Result<ClaimFees, RvError>)
    requires
        fee_c_bps <= 10000,
        tax_d_bps <= 10000,
    ensures
        r == spec_claim_fees(
            amount as int,
            fee_c_bps as int,
            tax_d_bps as int,
            hwm_claimed as int,
            tax_hwm as int,
        ),
{
    let fee_c: u64 = bps_mul_floor(amount, fee_c_bps);
    let claim_basis: u64 = amount - fee_c;
    let new_hwm_wide: u128 = (hwm_claimed as u128) + (claim_basis as u128);
    let prev_tax: u128 = tax_hwm as u128;
    let excess: u128 = if new_hwm_wide > prev_tax {
        new_hwm_wide - prev_tax
    } else {
        0
    };
    proof {
        crate::math::lemma_mul_le(excess as int, tax_d_bps as int, 0x2_0000_0000_0000_0000, 10000);
        crate::math::lemma_div_le_dividend((excess as int) * (tax_d_bps as int), 10000);
    }
    let tax_wide: u128 = excess * (tax_d_bps as u128) / 10000;
    if tax_wide > u64::MAX as u128 {
        return Err(RvError::Overflow);
    }
    let tax_d: u64 = tax_wide as u64;
    let fee_total_wide: u128 = (fee_c as u128) + (tax_d as u128);
    if fee_total_wide > u64::MAX as u128 {
        return Err(RvError::Overflow);
    }
    if (amount as u128) <= fee_total_wide {
        return Err(RvError::AmountTooSmallAfterFee);
    }
    if new_hwm_wide > u64::MAX as u128 {
        return Err(RvError::Overflow);
    }
    Ok(
        ClaimFees {
            fee_c,
            claim_basis,
            tax_d,
            net: claim_basis - tax_d,
            new_hwm: new_hwm_wide as u64,
        },
    )
}

/// All entity states committed by a successful claim, with its audit record.
#[derive(Clone, Copy, PartialEq, Eq, Structural, Debug)]
pub struct ClaimOutcome {
    pub ally: AllyAccount,
    pub ledger: UserLedger,
    pub pop_profile: PopProfile,
    pub guard: ClaimGuard,
    pub event: ClaimRPEvent,
}

/// The full claim transition: validation, risk gating, fee and tax, and the
/// committed states.  Checks run in a fixed order and the first failure is
/// the result; the risk tier bypasses price resolution, KYC and the abuse
/// guard only at the strong tier, and the abuse guard only applies where the
/// counterparty enforces it.
pub open spec fn spec_claim_rp(
    st: VaultState,
    ally: AllyAccount,
    ledger: UserLedger,
    pop: PopProfile,
    guard: ClaimGuard,
    user: AccountId,
    user_ata: TokenAccountView,
    ally_vault_ata: TokenAccountView,
    att_key: AccountId,
    att_owner: AccountId,
    att_data: Seq<u8>,
    pool_key: AccountId,
    rf: TokenAccountView,
    rs: TokenAccountView,
    now: int,
    amount: int,
) -> Result<ClaimOutcome, RvError> {
    if amount == 0 {
        Err(RvError::ZeroAmount)
    } else if st.paused {
        Err(RvError::Paused)
    } else if ledger.rp_claimable_forca < amount {
        Err(RvError::InsufficientRP)
    } else if user_ata.mint != st.forca_mint {
        Err(RvError::InvalidMint)
    } else if ally_vault_ata.mint != st.forca_mint {
        Err(RvError::InvalidMint)
    } else if user_ata.owner != user {
        Err(RvError::InvalidAuthority)
    } else {
        let pop1 = if pop.user == AccountId::spec_zero() {
            PopProfile { user, ..pop }
        } else {
            pop
        };
        if ally_vault_ata.key != ally.vault_ata {
            Err(RvError::InvalidVaultAta)
        } else if ally.balance_forca < amount {
            Err(RvError::InsufficientVaultBalance)
        } else if ally.rp_reserved < amount {
            Err(RvError::InsufficientReservedBalance)
        } else if ledger.total_claimed_forca + amount > u64::MAX {
            Err(RvError::Overflow)
        } else {
            let new_total = ledger.total_claimed_forca + amount;
            let strong_like = pop1.level == spec_pop_level_code(PopLevel::Strong);
            let need_forca_usd = !strong_like && (ally.pop_enforced
                || ally.hard_kyc_threshold_usd_e6 > 0);
            let price_res: Result<u64, RvError> = if need_forca_usd {
                spec_resolve_forca_usd_e6(st, now, att_key, att_owner, att_data, pool_key, rf, rs)
            } else {
                Ok(0u64)
            };
            match price_res {
                Err(e) => Err(e),
                Ok(forca_usd_e6) => {
                    let kyc_gated = !strong_like && ally.hard_kyc_threshold_usd_e6 > 0;
                    let total_claimed_usd = new_total * forca_usd_e6 / 1_000_000;
                    if need_forca_usd && forca_usd_e6 == 0 {
                        Err(RvError::OracleParseFailed)
                    } else if kyc_gated && total_claimed_usd > u64::MAX {
                        Err(RvError::Overflow)
                    } else if kyc_gated && total_claimed_usd > ally.hard_kyc_threshold_usd_e6 {
                        Err(RvError::KycRequired)
                    } else {
                        let gated = ally.pop_enforced && !strong_like;
                        let guard0 = if guard.user == AccountId::spec_zero() {
                            ClaimGuard::spec_fresh(user, ally.nft_mint, now)
                        } else {
                            guard
                        };
                        let guard_res: Result<ClaimGuard, RvError> = if gated {
                            spec_guard_admit(
                                guard0,
                                ally.monthly_claim_limit as int,
                                ally.soft_daily_cap_usd_e6 as int,
                                ally.soft_cooldown_secs as int,
                                amount,
                                forca_usd_e6 as int,
                                now,
                            )
                        } else {
                            Ok(guard)
                        };
                        match guard_res {
                            Err(e) => Err(e),
                            Ok(guard1) => {
                                match spec_claim_fees(
                                    amount,
                                    st.fee_c_bps as int,
                                    st.tax_d_bps as int,
                                    ledger.hwm_claimed as int,
                                    ledger.tax_hwm as int,
                                ) {
                                    Err(e) => Err(e),
                                    Ok(fees) => {
                                        if ally.balance_forca - fees.net < ally.rp_reserved
                                            - amount {
                                            Err(RvError::InsufficientUnreservedBalance)
                                        } else {
                                            Ok(
                                                ClaimOutcome {
                                                    ally: AllyAccount {
                                                        rp_reserved: (ally.rp_reserved
                                                            - amount) as u64,
                                                        balance_forca: (ally.balance_forca
                                                            - fees.net) as u64,
                                                        ..ally
                                                    },
                                                    ledger: UserLedger {
                                                        rp_claimable_forca: (
                                                        ledger.rp_claimable_forca - amount) as u64,
                                                        hwm_claimed: fees.new_hwm,
                                                        tax_hwm: fees.new_hwm,
                                                        total_claimed_forca: new_total as u64,
                                                        updated_ts: now as i64,
                                                        ..ledger
                                                    },
                                                    pop_profile: pop1,
                                                    guard: guard1,
                                                    event: ClaimRPEvent {
                                                        user: ledger.user,
                                                        ally_nft_mint: ledger.ally_nft_mint,
                                                        amount_forca: amount as u64,
                                                        net: fees.net,
                                                        fee_c: fees.fee_c,
                                                        tax_d: fees.tax_d,
                                                        cur_hwm: ledger.hwm_claimed,
                                                        new_hwm: fees.new_hwm,
                                                        tax_hwm: fees.new_hwm,
                                                    },
                                                },
                                            )
                                        }
                                    },
                                }
                            },
                        }
                    }
                },
            }
        }
    }
}

/// Redemption of claimable points into tokens, gated by risk tier, KYC
/// threshold and the abuse guard, and settled net of the base fee and the
/// high-water-mark excess tax.  On rejection every entity is unchanged.
pub fn claim_rp(
    st: &VaultState,
    ally: &mut AllyAccount,
    ledger: &mut UserLedger,
    pop_profile: &mut PopProfile,
    guard: &mut ClaimGuard,
    user: AccountId,
    user_ata: &TokenAccountView,
    ally_vault_ata: &TokenAccountView,
    attestation: &PriceAttestation,
    pool_key: AccountId,
    pool_forca_reserve: &TokenAccountView,
    pool_sol_reserve: &TokenAccountView,
    now: i64,
    amount_forca: u64,
) -> (r: Result<ClaimRPEvent, RvError>)
    requires
        st.wf(),
    ensures
        (match spec_claim_rp(
            *st,
            *old(ally),
            *old(ledger),
            *old(pop_profile),
            *old(guard),
            user,
            *user_ata,
            *ally_vault_ata,
            attestation.key,
            attestation.owner,
            attestation.data@,
            pool_key,
            *pool_forca_reserve,
            *pool_sol_reserve,
            now as int,
            amount_forca as int,
        ) {
            Ok(o) => {
                &&& r == Ok::<ClaimRPEvent, RvError>(o.event)
                &&& *final(ally) == o.ally
                &&& *final(ledger) == o.ledger
                &&& *final(pop_profile) == o.pop_profile
                &&& *final(guard) == o.guard
            },
            Err(e) => {
                &&& r == Err::<ClaimRPEvent, RvError>(e)
                &&& *final(ally) == *old(ally)
                &&& *final(ledger) == *old(ledger)
                &&& *final(pop_profile) == *old(pop_profile)
                &&& *final(guard) == *old(guard)
            },
        }),
        r is Ok && old(ally).wf() ==> final(ally).wf(),
{
    if amount_forca == 0 {
        return Err(RvError::ZeroAmount);
    }
    if st.paused {
        return Err(RvError::Paused);
    }
    if ledger.rp_claimable_forca < amount_forca {
        return Err(RvError::InsufficientRP);
    }
    if user_ata.mint != st.forca_mint {
        return Err(RvError::InvalidMint);
    }
    if ally_vault_ata.mint != st.forca_mint {
        return Err(RvError::InvalidMint);
    }
    if user_ata.owner != user {
        return Err(RvError::InvalidAuthority);
    }
    let pop1: PopProfile = if pop_profile.user.is_zero() {
        PopProfile { user, level: pop_profile.level, last_set_ts: pop_profile.last_set_ts }
    } else {
        *pop_profile
    };
    if ally_vault_ata.key != ally.vault_ata {
        return Err(RvError::InvalidVaultAta);
    }
    if ally.balance_forca < amount_forca {
        return Err(RvError::InsufficientVaultBalance);
    }
    if ally.rp_reserved < amount_forca {
        return Err(RvError::InsufficientReservedBalance);
    }
    let new_total: u64 = match ledger.total_claimed_forca.checked_add(amount_forca) {
        Some(t) => t,
        None => {
            return Err(RvError::Overflow);
        },
    };
    let strong_like: bool = pop1.level == pop_level_code(PopLevel::Strong);
    let need_forca_usd: bool = !strong_like && (ally.pop_enforced || ally.hard_kyc_threshold_usd_e6
        > 0);
    let forca_usd_e6: u64 = if need_forca_usd {
        match resolve_forca_usd_e6(
            st,
            now,
            attestation,
            pool_key,
            pool_forca_reserve,
            pool_sol_reserve,
        ) {
            Ok(v) => v,
            Err(e) => {
                return Err(e);
            },
        }
    } else {
        0
    };
    if need_forca_usd && forca_usd_e6 == 0 {
        return Err(RvError::OracleParseFailed);
    }
    if !strong_like && ally.hard_kyc_threshold_usd_e6 > 0 {
        proof {
            crate::math::lemma_mul_le(
                new_total as int,
                forca_usd_e6 as int,
                u64::MAX as int,
                u64::MAX as int,
            );
            crate::math::lemma_div_le_dividend((new_total as int) * (forca_usd_e6 as int), 1_000_000);
        }
        let total_claimed_usd: u128 = (new_total as u128) * (forca_usd_e6 as u128) / (crate::math::MICRO_SCALE as u128);
        if total_claimed_usd > u64::MAX as u128 {
            return Err(RvError::Overflow);
        }
        if (total_claimed_usd as u64) > ally.hard_kyc_threshold_usd_e6 {
            return Err(RvError::KycRequired);
        }
    }
    let gated: bool = ally.pop_enforced && !strong_like;
    let guard1: ClaimGuard = if gated {
        let guard0: ClaimGuard = if guard.user.is_zero() {
            fresh_claim_guard(user, ally.nft_mint, now)
        } else {
            *guard
        };
        match guard_admit(
            &guard0,
            ally.monthly_claim_limit,
            ally.soft_daily_cap_usd_e6,
            ally.soft_cooldown_secs,
            amount_forca,
            forca_usd_e6,
            now,
        ) {
            Ok(g) => g,
            Err(e) => {
                return Err(e);
            },
        }
    } else {
        *guard
    };
    let fees: ClaimFees = match compute_claim_fees(
        amount_forca,
        st.fee_c_bps,
        st.tax_d_bps,
        ledger.hwm_claimed,
        ledger.tax_hwm,
    ) {
        Ok(f) => f,
        Err(e) => {
            return Err(e);
        },
    };
    let new_reserved: u64 = ally.rp_reserved - amount_forca;
    assert(fees.net <= amount_forca);
    let new_balance: u64 = ally.balance_forca - fees.net;
    if new_balance < new_reserved {
        return Err(RvError::InsufficientUnreservedBalance);
    }
    let event = ClaimRPEvent {
        user: ledger.user,
        ally_nft_mint: ledger.ally_nft_mint,
        amount_forca,
        net: fees.net,
        fee_c: fees.fee_c,
        tax_d: fees.tax_d,
        cur_hwm: ledger.hwm_claimed,
        new_hwm: fees.new_hwm,
        tax_hwm: fees.new_hwm,
    };
    ally.rp_reserved = new_reserved;
    ally.balance_forca = new_balance;
    ledger.rp_claimable_forca = ledger.rp_claimable_forca - amount_forca;
    ledger.hwm_claimed = fees.new_hwm;
    ledger.tax_hwm = fees.new_hwm;
    ledger.total_claimed_forca = new_total;
    ledger.updated_ts = now;
    *pop_profile = pop1;
    *guard = guard1;
    Ok(event)
}

/// All entity states committed by a successful conversion, with its audit
/// record.
#[derive(Clone, Copy, PartialEq, Eq, Structural, Debug)]
pub struct ConvertOutcome {
    pub ally: AllyAccount,
    pub ledger: UserLedger,
    pub event: ConvertToPPEvent,
}

/// The full conversion transition: quote cross-check, margin retention,
/// benefit program, points credit at the asserted price, and the watermark
/// pull-down by the real wallet outflow (the amount less any discount).
pub open spec fn spec_convert_to_scoped_pp(
    st: VaultState,
    ally: AllyAccount,
    ledger: UserLedger,
    user: AccountId,
    user_ata: TokenAccountView,
    ally_vault_ata: TokenAccountView,
    mock_oracle_sol: MockOracleSolUsd,
    mock_pool_forca: MockPoolForcaSol,
    att_key: AccountId,
    att_owner: AccountId,
    att_data: Seq<u8>,
    pool_key: AccountId,
    rf: TokenAccountView,
    rs: TokenAccountView,
    now: int,
    amount: int,
    sol_price_usd_e6: int,
    forca_per_sol_e6: int,
) -> Result<ConvertOutcome, RvError> {
    if st.paused {
        Err(RvError::Paused)
    } else if amount == 0 {
        Err(RvError::ZeroAmount)
    } else if !st.verify_prices {
        Err(RvError::OracleMissing)
    } else if user_ata.mint != st.forca_mint {
        Err(RvError::InvalidMint)
    } else if ally_vault_ata.mint != st.forca_mint {
        Err(RvError::InvalidMint)
    } else if ally_vault_ata.key != ally.vault_ata {
        Err(RvError::InvalidVaultAta)
    } else if user_ata.owner != user {
        Err(RvError::InvalidAuthority)
    } else {
        match spec_verify_convert_quote(
            st,
            now,
            sol_price_usd_e6,
            forca_per_sol_e6,
            mock_oracle_sol,
            mock_pool_forca,
            att_key,
            att_owner,
            att_data,
            pool_key,
            rf,
            rs,
        ) {
            Err(e) => Err(e),
            Ok(evidence) => {
                let margin = spec_bps_mul(amount, st.margin_b_bps as int);
                let base_after_margin = amount - margin;
                let mode = spec_benefit_mode_from_u8(ally.benefit_mode);
                if ally.benefit_bps > 0 && mode is None {
                    Err(RvError::InvalidBenefitMode)
                } else {
                    let use_discount = ally.benefit_bps > 0 && mode == Some(BenefitMode::Discount);
                    let use_bonus = ally.benefit_bps > 0 && mode == Some(BenefitMode::BonusPP);
                    let discount = if use_discount {
                        spec_bps_mul(base_after_margin, ally.benefit_bps as int)
                    } else {
                        0
                    };
                    let hwm_reduce_by = amount - discount;
                    let ally_receive = base_after_margin - discount;
                    let total_to_ally = ally_receive + margin;
                    if forca_per_sol_e6 == 0 {
                        Err(RvError::InvalidQuote)
                    } else {
                        let pp_delta = amount * sol_price_usd_e6 / forca_per_sol_e6;
                        if pp_delta > u64::MAX {
                            Err(RvError::Overflow)
                        } else if ally.balance_forca + total_to_ally > u64::MAX {
                            Err(RvError::Overflow)
                        } else if ally.balance_forca + total_to_ally < ally.rp_reserved {
                            Err(RvError::InsufficientUnreservedBalance)
                        } else {
                            let ledger0 = if ledger.user == AccountId::spec_zero() {
                                UserLedger::spec_fresh(user, ally.nft_mint, now)
                            } else {
                                ledger
                            };
                            let bonus = if use_bonus {
                                spec_bps_mul(pp_delta, ally.benefit_bps as int)
                            } else {
                                0
                            };
                            if pp_delta + bonus > u64::MAX {
                                Err(RvError::Overflow)
                            } else if ledger0.pp_balance + pp_delta + bonus > u64::MAX {
                                Err(RvError::Overflow)
                            } else {
                                let new_hwm = if ledger0.hwm_claimed >= hwm_reduce_by {
                                    ledger0.hwm_claimed - hwm_reduce_by
                                } else {
                                    0
                                };
                                Ok(
                                    ConvertOutcome {
                                        ally: AllyAccount {
                                            balance_forca: (ally.balance_forca
                                                + total_to_ally) as u64,
                                            ..ally
                                        },
                                        ledger: UserLedger {
                                            pp_balance: (ledger0.pp_balance + pp_delta
                                                + bonus) as u64,
                                            hwm_claimed: new_hwm as u64,
                                            updated_ts: now as i64,
                                            ..ledger0
                                        },
                                        event: ConvertToPPEvent {
                                            user,
                                            ally_nft_mint: ally.nft_mint,
                                            amount_forca: amount as u64,
                                            margin_b: margin as u64,
                                            pp_delta: pp_delta as u64,
                                            sol_price_usd_e6: sol_price_usd_e6 as u64,
                                            forca_per_sol_e6: forca_per_sol_e6 as u64,
                                            pyth_price_feed: st.pyth_sol_usd_price_feed,
                                            canonical_pool: st.canonical_pool_forca_sol,
                                            verify_prices: st.verify_prices,
                                            oracle_tolerance_bps: st.oracle_tolerance_bps,
                                            pyth_expo_i32: if st.use_mock_oracle {
                                                mock_oracle_sol.expo_i32
                                            } else {
                                                evidence.pyth_expo_i32
                                            },
                                            pyth_conf_e8: if st.use_mock_oracle {
                                                mock_oracle_sol.conf_e8
                                            } else {
                                                evidence.pyth_conf_e8
                                            },
                                            pyth_publish_ts: if st.use_mock_oracle {
                                                mock_oracle_sol.publish_ts
                                            } else {
                                                evidence.pyth_publish_ts
                                            },
                                            cur_hwm: ledger0.hwm_claimed,
                                            new_hwm: new_hwm as u64,
                                            tax_hwm: ledger0.tax_hwm,
                                            benefit_mode: if ally.benefit_bps > 0 {
                                                ally.benefit_mode
                                            } else {
                                                0
                                            },
                                            benefit_bps: if ally.benefit_bps > 0 {
                                                ally.benefit_bps
                                            } else {
                                                0
                                            },
                                            discount_forca: discount as u64,
                                            bonus_pp_e6: bonus as u64,
                                        },
                                    },
                                )
                            }
                        }
                    }
                }
            },
        }
    }
}

/// Conversion of tokens into points scoped to one counterparty: the asserted
/// quote is cross-checked, the margin is retained by the counterparty, the
/// benefit program is applied, points are credited at the asserted price, and
/// the taxable watermark falls by the real wallet outflow.  On rejection
/// every entity is unchanged.
pub fn convert_to_scoped_pp(
    st: &VaultState,
    ally: &mut AllyAccount,
    ledger: &mut UserLedger,
    user: AccountId,
    user_ata: &TokenAccountView,
    ally_vault_ata: &TokenAccountView,
    mock_oracle_sol: &MockOracleSolUsd,
    mock_pool_forca: &MockPoolForcaSol,
    attestation: &PriceAttestation,
    pool_key: AccountId,
    pool_forca_reserve: &TokenAccountView,
    pool_sol_reserve: &TokenAccountView,
    now: i64,
    amount_forca: u64,
    sol_price_usd_e6: u64,
    forca_per_sol_e6: u64,
) -> (r: Result<ConvertToPPEvent, RvError>)
    requires
        st.wf(),
        old(ally).wf(),
    ensures
        (match spec_convert_to_scoped_pp(
            *st,
            *old(ally),
            *old(ledger),
            user,
            *user_ata,
            *ally_vault_ata,
            *mock_oracle_sol,
            *mock_pool_forca,
            attestation.key,
            attestation.owner,
            attestation.data@,
            pool_key,
            *pool_forca_reserve,
            *pool_sol_reserve,
            now as int,
            amount_forca as int,
            sol_price_usd_e6 as int,
            forca_per_sol_e6 as int,
        ) {
            Ok(o) => {
                &&& r == Ok::<ConvertToPPEvent, RvError>(o.event)
                &&& *final(ally) == o.ally
                &&& *final(ledger) == o.ledger
            },
            Err(e) => {
                &&& r == Err::<ConvertToPPEvent, RvError>(e)
                &&& *final(ally) == *old(ally)
                &&& *final(ledger) == *old(ledger)
            },
        }),
        r is Ok ==> final(ally).wf(),
{
    if st.paused {
        return Err(RvError::Paused);
    }
    if amount_forca == 0 {
        return Err(RvError::ZeroAmount);
    }
    if !st.verify_prices {
        return Err(RvError::OracleMissing);
    }
    if user_ata.mint != st.forca_mint {
        return Err(RvError::InvalidMint);
    }
    if ally_vault_ata.mint != st.forca_mint {
        return Err(RvError::InvalidMint);
    }
    if ally_vault_ata.key != ally.vault_ata {
        return Err(RvError::InvalidVaultAta);
    }
    if user_ata.owner != user {
        return Err(RvError::InvalidAuthority);
    }
    let evidence: QuoteEvidence = match verify_convert_quote(
        st,
        now,
        sol_price_usd_e6,
        forca_per_sol_e6,
        mock_oracle_sol,
        mock_pool_forca,
        attestation,
        pool_key,
        pool_forca_reserve,
        pool_sol_reserve,
    ) {
        Ok(ev) => ev,
        Err(e) => {
            return Err(e);
        },
    };
    let margin: u64 = bps_mul_floor(amount_forca, st.margin_b_bps);
    let base_after_margin: u64 = amount_forca - margin;
    let mut use_discount: bool = false;
    let mut use_bonus: bool = false;
    if ally.benefit_bps > 0 {
        match benefit_mode_from_u8(ally.benefit_mode) {
            Ok(BenefitMode::Discount) => {
                use_discount = true;
            },
            Ok(BenefitMode::BonusPP) => {
                use_bonus = true;
            },
            Ok(BenefitMode::NoBenefit) => {},
            Err(e) => {
                return Err(e);
            },
        }
    }
    let discount: u64 = if use_discount {
        bps_mul_floor(base_after_margin, ally.benefit_bps)
    } else {
        0
    };
    let hwm_reduce_by: u64 = amount_forca - discount;
    let ally_receive: u64 = base_after_margin - discount;
    let total_to_ally: u64 = ally_receive + margin;
    if forca_per_sol_e6 == 0 {
        return Err(RvError::InvalidQuote);
    }
    proof {
        crate::math::lemma_mul_le(
            amount_forca as int,
            sol_price_usd_e6 as int,
            u64::MAX as int,
            u64::MAX as int,
        );
        crate::math::lemma_div_le_dividend(
            (amount_forca as int) * (sol_price_usd_e6 as int),
            forca_per_sol_e6 as int,
        );
    }
    let pp_wide: u128 = (amount_forca as u128) * (sol_price_usd_e6 as u128) / (
    forca_per_sol_e6 as u128);
    if pp_wide > u64::MAX as u128 {
        return Err(RvError::Overflow);
    }
    let pp_delta: u64 = pp_wide as u64;
    let new_balance: u64 = match ally.balance_forca.checked_add(total_to_ally) {
        Some(b) => b,
        None => {
            return Err(RvError::Overflow);
        },
    };
    if new_balance < ally.rp_reserved {
        return Err(RvError::InsufficientUnreservedBalance);
    }
    let ledger0: UserLedger = if ledger.user.is_zero() {
        UserLedger {
            user,
            ally_nft_mint: ally.nft_mint,
            rp_claimable_forca: 0,
            pp_balance: 0,
            hwm_claimed: 0,
            tax_hwm: 0,
            total_claimed_forca: 0,
            created_ts: now,
            updated_ts: 0,
        }
    } else {
        *ledger
    };
    let bonus: u64 = if use_bonus {
        bps_mul_floor(pp_delta, ally.benefit_bps)
    } else {
        0
    };
    let total_pp: u64 = match pp_delta.checked_add(bonus) {
        Some(t) => t,
        None => {
            return Err(RvError::Overflow);
        },
    };
    let new_pp_balance: u64 = match ledger0.pp_balance.checked_add(total_pp) {
        Some(b) => b,
        None => {
            return Err(RvError::Overflow);
        },
    };
    let new_hwm: u64 = if ledger0.hwm_claimed >= hwm_reduce_by {
        ledger0.hwm_claimed - hwm_reduce_by
    } else {
        0
    };
    let event = ConvertToPPEvent {
        user,
        ally_nft_mint: ally.nft_mint,
        amount_forca,
        margin_b: margin,
        pp_delta,
        sol_price_usd_e6,
        forca_per_sol_e6,
        pyth_price_feed: st.pyth_sol_usd_price_feed,
        canonical_pool: st.canonical_pool_forca_sol,
        verify_prices: st.verify_prices,
        oracle_tolerance_bps: st.oracle_tolerance_bps,
        pyth_expo_i32: if st.use_mock_oracle {
            mock_oracle_sol.expo_i32
        } else {
            evidence.pyth_expo_i32
        },
        pyth_conf_e8: if st.use_mock_oracle {
            mock_oracle_sol.conf_e8
        } else {
            evidence.pyth_conf_e8
        },
        pyth_publish_ts: if st.use_mock_oracle {
            mock_oracle_sol.publish_ts
        } else {
            evidence.pyth_publish_ts
        },
        cur_hwm: ledger0.hwm_claimed,
        new_hwm,
        tax_hwm: ledger0.tax_hwm,
        benefit_mode: if ally.benefit_bps > 0 {
            ally.benefit_mode
        } else {
            0
        },
        benefit_bps: if ally.benefit_bps > 0 {
            ally.benefit_bps
        } else {
            0
        },
        discount_forca: discount,
        bonus_pp_e6: bonus,
    };
    ally.balance_forca = new_balance;
    *ledger = ledger0;
    ledger.pp_balance = new_pp_balance;
    ledger.hwm_claimed = new_hwm;
    ledger.updated_ts = now;
    Ok(event)
}

/// Law: across one claim the taxed watermark never exceeds the claim-basis
/// watermark, and both watermarks are non-decreasing — provided they were
/// ordered before the claim, as they are on a fresh ledger and after every
/// claim (a conversion in between may pull the basis watermark below the
/// taxed one, and this law then speaks of the next ordered state).
pub proof fn lemma_claim_watermarks(
    st: VaultState,
    ally: AllyAccount,
    ledger: UserLedger,
    pop: PopProfile,
    guard: ClaimGuard,
    user: AccountId,
    user_ata: TokenAccountView,
    ally_vault_ata: TokenAccountView,
    att_key: AccountId,
    att_owner: AccountId,
    att_data: Seq<u8>,
    pool_key: AccountId,
    rf: TokenAccountView,
    rs: TokenAccountView,
    now: int,
    amount: int,
)
    requires
        st.wf(),
        0 <= amount <= u64::MAX,
        ledger.tax_hwm <= ledger.hwm_claimed,
    ensures
        (match spec_claim_rp(
            st,
            ally,
            ledger,
            pop,
            guard,
            user,
            user_ata,
            ally_vault_ata,
            att_key,
            att_owner,
            att_data,
            pool_key,
            rf,
            rs,
            now,
            amount,
        ) {
            Ok(o) => {
                &&& o.ledger.tax_hwm <= o.ledger.hwm_claimed
                &&& o.ledger.tax_hwm == o.ledger.hwm_claimed
                &&& o.ledger.hwm_claimed >= ledger.hwm_claimed
                &&& o.ledger.tax_hwm >= ledger.tax_hwm
            },
            Err(_) => true,
        }),
{
    crate::math::lemma_bps_mul_bounds(amount, st.fee_c_bps as int);
}

/// Law: whenever a claim's fee breakdown is admitted, the paid-out net is
/// exactly the claimed amount minus the base fee and the excess tax, and the
/// two fees together stay strictly below the amount.
pub proof fn lemma_claim_fees_exact(
    amount: int,
    fee_c_bps: int,
    tax_d_bps: int,
    hwm_claimed: int,
    tax_hwm: int,
)
    requires
        0 <= amount <= u64::MAX,
        0 <= fee_c_bps <= 10000,
        0 <= tax_d_bps <= 10000,
        0 <= hwm_claimed,
        0 <= tax_hwm,
    ensures
        (match spec_claim_fees(amount, fee_c_bps, tax_d_bps, hwm_claimed, tax_hwm) {
            Ok(f) => {
                &&& f.net + f.fee_c + f.tax_d == amount
                &&& f.fee_c + f.tax_d < amount
            },
            Err(_) => true,
        }),
{
    crate::math::lemma_bps_mul_bounds(amount, fee_c_bps);
}

/// Law: a conversion followed immediately by a claim settles exactly — for
/// every claim amount whose fee breakdown on the post-conversion ledger is
/// admitted, the net equals the amount minus the base fee and the excess tax,
/// and the fees stay strictly below the amount.  The breakdown is rejected
/// with `AmountTooSmallAfterFee` exactly on the amounts that do not exceed
/// the fees owed under the configured basis points.
pub proof fn lemma_convert_then_claim_round_trip(
    st: VaultState,
    ally: AllyAccount,
    ledger: UserLedger,
    user: AccountId,
    user_ata: TokenAccountView,
    ally_vault_ata: TokenAccountView,
    mock_oracle_sol: MockOracleSolUsd,
    mock_pool_forca: MockPoolForcaSol,
    att_key: AccountId,
    att_owner: AccountId,
    att_data: Seq<u8>,
    pool_key: AccountId,
    rf: TokenAccountView,
    rs: TokenAccountView,
    now: int,
    amount: int,
    sol_price_usd_e6: int,
    forca_per_sol_e6: int,
    claim_amount: int,
)
    requires
        st.wf(),
        0 <= claim_amount <= u64::MAX,
    ensures
        (match spec_convert_to_scoped_pp(
            st,
            ally,
            ledger,
            user,
            user_ata,
            ally_vault_ata,
            mock_oracle_sol,
            mock_pool_forca,
            att_key,
            att_owner,
            att_data,
            pool_key,
            rf,
            rs,
            now,
            amount,
            sol_price_usd_e6,
            forca_per_sol_e6,
        ) {
            Ok(o) => (match spec_claim_fees(
                claim_amount,
                st.fee_c_bps as int,
                st.tax_d_bps as int,
                o.ledger.hwm_claimed as int,
                o.ledger.tax_hwm as int,
            ) {
                Ok(f) => {
                    &&& f.net + f.fee_c + f.tax_d == claim_amount
                    &&& f.fee_c + f.tax_d < claim_amount
                },
                Err(e) => e == RvError::AmountTooSmallAfterFee ==> claim_amount <= spec_bps_mul(
                    claim_amount,
                    st.fee_c_bps as int,
                ) + spec_bps_mul(
                    {
                        let basis = claim_amount - spec_bps_mul(claim_amount, st.fee_c_bps as int);
                        let new_hwm = o.ledger.hwm_claimed + basis;
                        if new_hwm > o.ledger.tax_hwm {
                            new_hwm - o.ledger.tax_hwm
                        } else {
                            0
                        }
                    },
                    st.tax_d_bps as int,
                ),
            }),
            Err(_) => true,
        }),
{
    crate::math::lemma_bps_mul_bounds(claim_amount, st.fee_c_bps as int);
}

} // verus!
