use reward_vault::account::AccountId;
use reward_vault::errors::RvError;
use reward_vault::guard::day_bucket;
use reward_vault::guard::fresh_claim_guard;
use reward_vault::guard::guard_admit;
use reward_vault::state::ClaimGuard;

fn acct(n: u64) -> AccountId {
    AccountId { w0: n, w1: 0, w2: 0, w3: 0 }
}

fn guard_at(now: i64) -> ClaimGuard {
    fresh_claim_guard(acct(1), acct(2), now)
}

#[test]
fn fresh_guard_counters() {
    let g = guard_at(86_400 * 10 + 5);
    assert_eq!(g.day, 10);
    assert_eq!(g.used_usd_e6, 0);
    assert_eq!(g.last_claim_ts, 0);
    assert_eq!(g.month_claims, 0);
}

#[test]
fn day_bucket_floors() {
    assert_eq!(day_bucket(0), 0);
    assert_eq!(day_bucket(86_399), 0);
    assert_eq!(day_bucket(86_400), 1);
    assert_eq!(day_bucket(-1), -1);
}

#[test]
fn admission_accumulates_usd() {
    let g = guard_at(1_000_000);
    // 5 tokens at $2 each: 10 USD.
    let g1 = guard_admit(&g, 0, 1_000_000_000, 0, 5_000_000, 2_000_000, 1_000_000).unwrap();
    assert_eq!(g1.used_usd_e6, 10_000_000);
    assert_eq!(g1.last_claim_ts, 1_000_000);
    let g2 = guard_admit(&g1, 0, 1_000_000_000, 0, 5_000_000, 2_000_000, 1_000_100).unwrap();
    assert_eq!(g2.used_usd_e6, 20_000_000);
}

#[test]
fn daily_cap_rejects_without_any_change() {
    let g = guard_at(1_000_000);
    // Cap of $9; a $10 claim must be rejected.
    let r = guard_admit(&g, 0, 9_000_000, 0, 5_000_000, 2_000_000, 1_000_000);
    assert_eq!(r, Err(RvError::SoftDailyCapExceeded));
}

#[test]
fn day_boundary_resets_used_usd() {
    // A claim just before a UTC day boundary, then one just after: the second
    // lands in a fresh day bucket with zero used USD.
    let day_start: i64 = 86_400 * 20_000;
    let g = guard_at(day_start - 10);
    // Fill the whole $1000 cap in the old day.
    let g1 = guard_admit(&g, 0, 1_000_000_000, 0, 1_000_000_000, 1_000_000, day_start - 1).unwrap();
    assert_eq!(g1.used_usd_e6, 1_000_000_000);
    assert_eq!(g1.day, 19_999);
    // One second into the new day the bucket is fresh even though the cap was
    // exhausted a moment ago.
    let g2 = guard_admit(&g1, 0, 1_000_000_000, 0, 1_000_000_000, 1_000_000, day_start + 1).unwrap();
    assert_eq!(g2.day, 20_000);
    assert_eq!(g2.used_usd_e6, 1_000_000_000);
}

#[test]
fn day_boundary_reset_applies_before_the_cooldown_check() {
    // With a cooldown still running, the second claim is rejected by the
    // cooldown, not by the daily cap: the fresh day really has zero used USD.
    let day_start: i64 = 86_400 * 20_000;
    let g = guard_at(day_start - 10);
    let g1 = guard_admit(&g, 0, 1_000_000_000, 7_200, 1_000_000_000, 1_000_000, day_start - 1)
        .unwrap();
    let r = guard_admit(&g1, 0, 1_000_000_000, 7_200, 1_000_000_000, 1_000_000, day_start + 1);
    assert_eq!(r, Err(RvError::CooldownNotElapsed));
}

#[test]
fn cooldown_boundary() {
    let g = guard_at(1_000_000);
    let g1 = guard_admit(&g, 0, 1_000_000_000, 3_600, 1_000_000, 1_000_000, 1_000_000).unwrap();
    let early = guard_admit(&g1, 0, 1_000_000_000, 3_600, 1_000_000, 1_000_000, 1_003_599);
    assert_eq!(early, Err(RvError::CooldownNotElapsed));
    let on_time = guard_admit(&g1, 0, 1_000_000_000, 3_600, 1_000_000, 1_000_000, 1_003_600);
    assert!(on_time.is_ok());
}

#[test]
fn monthly_limit_counts_and_rejects() {
    let now: i64 = 1_000_000;
    let g = guard_at(now);
    let g1 = guard_admit(&g, 2, 1_000_000_000, 0, 1_000_000, 1_000_000, now).unwrap();
    assert_eq!(g1.month_claims, 1);
    let g2 = guard_admit(&g1, 2, 1_000_000_000, 0, 1_000_000, 1_000_000, now + 10).unwrap();
    assert_eq!(g2.month_claims, 2);
    let r = guard_admit(&g2, 2, 1_000_000_000, 0, 1_000_000, 1_000_000, now + 20);
    assert_eq!(r, Err(RvError::MonthlyClaimLimitExceeded));
}

#[test]
fn month_rollover_resets_the_claim_count() {
    // 1970-01-31 23:59:59 and 1970-02-01 00:00:01.
    let jan: i64 = 31 * 86_400 - 1;
    let feb: i64 = 31 * 86_400 + 1;
    let g = guard_at(jan);
    let g1 = guard_admit(&g, 1, 1_000_000_000, 0, 1_000_000, 1_000_000, jan).unwrap();
    assert_eq!(g1.month_claims, 1);
    // The January limit is exhausted, but February is a fresh window.
    let r = guard_admit(&g1, 1, 1_000_000_000, 0, 1_000_000, 1_000_000, jan);
    assert_eq!(r, Err(RvError::MonthlyClaimLimitExceeded));
    let g2 = guard_admit(&g1, 1, 1_000_000_000, 0, 1_000_000, 1_000_000, feb).unwrap();
    assert_eq!(g2.month_claims, 1);
}

#[test]
fn usd_conversion_overflow_is_fatal() {
    let g = guard_at(0);
    let r = guard_admit(&g, 0, u64::MAX, 0, u64::MAX, u64::MAX, 0);
    assert_eq!(r, Err(RvError::Overflow));
}
