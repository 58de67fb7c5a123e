//! The layered abuse guard consulted before a claim is finalized.
//!
//! Counters live per (identity, counterparty): a rolling UTC-day bucket of
//! USD claimed, a civil-month claim count, and the last-claim timestamp.  The
//! windows reset in place whenever the computed current day or month differs
//! from the stored one.  Admission checks run in a fixed order — monthly
//! count, daily USD cap, cooldown — and a rejection commits nothing.

use vstd::prelude::*;

use crate::account::AccountId;
use crate::calendar::month_index_from_ts;
use crate::calendar::spec_month_index_from_ts;
use crate::errors::RvError;
use crate::state::ClaimGuard;

verus! {

/// UTC day bucket of a timestamp: `floor(ts / 86400)`.
pub open spec fn spec_day_bucket(ts: int) -> int {
    ts / 86400
}

pub fn day_bucket(ts: i64) -> (r: i64)
    ensures
        r == spec_day_bucket(ts as int),
{
    let d = ts.checked_div_euclid(86400);
    assert(d is Some);
    d.unwrap()
}

impl ClaimGuard {
    /// Counters as first initialized on a gated claim attempt at `now`.
    pub open spec fn spec_fresh(user: AccountId, ally_nft_mint: AccountId, now: int) -> ClaimGuard {
        ClaimGuard {
            user,
            ally_nft_mint,
            day: spec_day_bucket(now) as i64,
            used_usd_e6: 0,
            last_claim_ts: 0,
            month_index: spec_month_index_from_ts(now) as i64,
            month_claims: 0,
        }
    }
}

/// Fresh counters for an identity's first gated claim attempt.
pub fn fresh_claim_guard(user: AccountId, ally_nft_mint: AccountId, now: i64) -> (r: ClaimGuard)
    ensures
        r == ClaimGuard::spec_fresh(user, ally_nft_mint, now as int),
{
    ClaimGuard {
        user,
        ally_nft_mint,
        day: day_bucket(now),
        used_usd_e6: 0,
        last_claim_ts: 0,
        month_index: month_index_from_ts(now),
        month_claims: 0,
    }
}

/// Admission of a claim of `amount` token micro-units at the USD-per-token
/// micro-rate `forca_usd_e6` and time `now`, against the stored counters and
/// the counterparty's policy.  The month and day windows are first rolled
/// forward in place; admission then requires, in order: the month's claim
/// count under the monthly cap (when one is set), the day's used USD plus
/// this claim within the daily cap, and the cooldown (when one is set)
/// elapsed since the last claim.  On admission the returned counters carry
/// the new usage; on rejection nothing is committed.
pub open spec fn spec_guard_admit(
    cg: ClaimGuard,
    monthly_claim_limit: int,
    daily_cap_usd_e6: int,
    cooldown_secs: int,
    amount: int,
    forca_usd_e6: int,
    now: int,
) -> Result<ClaimGuard, RvError> {
    let mi = spec_month_index_from_ts(now);
    let mclaims = if cg.month_index != mi {
        0
    } else {
        cg.month_claims as int
    };
    if monthly_claim_limit > 0 && mclaims >= monthly_claim_limit {
        Err(RvError::MonthlyClaimLimitExceeded)
    } else {
        let usd = amount * forca_usd_e6 / 1_000_000;
        if usd > u64::MAX {
            Err(RvError::Overflow)
        } else {
            let day = spec_day_bucket(now);
            let used = if cg.day != day {
                0
            } else {
                cg.used_usd_e6 as int
            };
            if used + usd > u64::MAX {
                Err(RvError::Overflow)
            } else if used + usd > daily_cap_usd_e6 {
                Err(RvError::SoftDailyCapExceeded)
            } else if cooldown_secs > 0 && now - cg.last_claim_ts < cooldown_secs {
                Err(RvError::CooldownNotElapsed)
            } else {
                Ok(
                    ClaimGuard {
                        day: day as i64,
                        used_usd_e6: (used + usd) as u64,
                        last_claim_ts: now as i64,
                        month_index: mi as i64,
                        month_claims: (if monthly_claim_limit > 0 {
                            mclaims + 1
                        } else {
                            mclaims
                        }) as u16,
                        ..cg
                    },
                )
            }
        }
    }
}

/// Guard admission; returns the counters to commit, or the rejection.
pub fn guard_admit(
    cg: &ClaimGuard,
    monthly_claim_limit: u16,
    daily_cap_usd_e6: u64,
    cooldown_secs: u64,
    amount: u64,
    forca_usd_e6: u64,
    now: i64,
) -> (r: Result<ClaimGuard, RvError>)
    ensures
        r == spec_guard_admit(
            *cg,
            monthly_claim_limit as int,
            daily_cap_usd_e6 as int,
            cooldown_secs as int,
            amount as int,
            forca_usd_e6 as int,
            now as int,
        ),
{
    let mi: i64 = month_index_from_ts(now);
    let mclaims: u16 = if cg.month_index != mi {
        0
    } else {
        cg.month_claims
    };
    if monthly_claim_limit > 0 && mclaims >= monthly_claim_limit {
        return Err(RvError::MonthlyClaimLimitExceeded);
    }
    proof {
        crate::math::lemma_mul_le(
            amount as int,
            forca_usd_e6 as int,
            u64::MAX as int,
            u64::MAX as int,
        );
        crate::math::lemma_div_le_dividend((amount as int) * (forca_usd_e6 as int), 1_000_000);
    }
    let usd_wide: u128 = (amount as u128) * (forca_usd_e6 as u128) / (crate::math::MICRO_SCALE as u128);
    if usd_wide > u64::MAX as u128 {
        return Err(RvError::Overflow);
    }
    let usd: u64 = usd_wide as u64;
    let day: i64 = day_bucket(now);
    let used: u64 = if cg.day != day {
        0
    } else {
        cg.used_usd_e6
    };
    let new_used_wide: u128 = (used as u128) + (usd as u128);
    if new_used_wide > u64::MAX as u128 {
        return Err(RvError::Overflow);
    }
    let new_used: u64 = new_used_wide as u64;
    if new_used > daily_cap_usd_e6 {
        return Err(RvError::SoftDailyCapExceeded);
    }
    if cooldown_secs > 0 && (now as i128) - (cg.last_claim_ts as i128) < cooldown_secs as i128 {
        return Err(RvError::CooldownNotElapsed);
    }
    Ok(
        ClaimGuard {
            day,
            used_usd_e6: new_used,
            last_claim_ts: now,
            month_index: mi,
            month_claims: if monthly_claim_limit > 0 {
                mclaims + 1
            } else {
                mclaims
            },
            ..*cg
        },
    )
}

} // verus!
