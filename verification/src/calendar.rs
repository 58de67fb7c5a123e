//! Civil-calendar utilities for billing-period resets.
//!
//! A UTC timestamp is reduced to a day number (floor of seconds / 86400) and
//! the day number to a (year, month) pair of the proleptic Gregorian calendar
//! by the standard civil-from-days transform, which is exact for pre-epoch
//! days as well.  The month index `year * 12 + (month - 1)` is monotonic
//! across year boundaries and keys the monthly claim-count window.

use vstd::prelude::*;

verus! {

/// Year of the civil day `days` counted from 1970-01-01 (day 0).
pub open spec fn spec_year_from_days(days: int) -> int {
    let z = days + 719468;
    let era = z / 146097;
    let doe = z - era * 146097;
    let yoe = (doe - doe / 1460 + doe / 36524 - doe / 146096) / 365;
    let y = yoe + era * 400;
    let m = spec_month_from_days(days);
    if m <= 2 {
        y + 1
    } else {
        y
    }
}

/// Month (1 = January .. 12 = December) of the civil day `days`.
pub open spec fn spec_month_from_days(days: int) -> int {
    let z = days + 719468;
    let era = z / 146097;
    let doe = z - era * 146097;
    let yoe = (doe - doe / 1460 + doe / 36524 - doe / 146096) / 365;
    let doy = doe - (365 * yoe + yoe / 4 - yoe / 100);
    let mp = (5 * doy + 2) / 153;
    if mp < 10 {
        mp + 3
    } else {
        mp - 9
    }
}

/// Months elapsed since year 0, i.e. `year * 12 + (month - 1)`, of one civil
/// day.
pub open spec fn spec_month_index_of_day(days: int) -> int {
    spec_year_from_days(days) * 12 + (spec_month_from_days(days) - 1)
}

/// Months elapsed since year 0, i.e. `year * 12 + (month - 1)` of the civil
/// day holding the timestamp `ts` (seconds since the epoch, floored to days).
pub open spec fn spec_month_index_from_ts(ts: int) -> int {
    spec_month_index_of_day(ts / 86400)
}

/// Civil-from-days transform (UTC): year and month containing day `days`.
#[verifier::rlimit(100)]
#[verifier::spinoff_prover]
pub fn year_month_from_days(days: i64) -> (r: (i64, i64))
    requires
        days <= i64::MAX - 719468,
    ensures
        r.0 == spec_year_from_days(days as int),
        r.1 == spec_month_from_days(days as int),
        1 <= r.1 <= 12,
{
    let z: i64 = days + 719468;
    let era: i64 = if z >= 0 {
        z / 146097
    } else {
        (z - 146096) / 146097
    };
    assert(era == (z as int) / 146097);
    let doe: i64 = z - era * 146097;
    assert(doe == (z as int) % 146097);
    assert(0 <= doe <= 146096);
    let yoe: i64 = (doe - doe / 1460 + doe / 36524 - doe / 146096) / 365;
    assert(0 <= yoe <= 399);
    let y: i64 = yoe + era * 400;
    let doy: i64 = doe - (365 * yoe + yoe / 4 - yoe / 100);
    assert(0 <= doy <= 365);
    let mp: i64 = (5 * doy + 2) / 153;
    assert(0 <= mp <= 11);
    let m: i64 = if mp < 10 {
        mp + 3
    } else {
        mp - 9
    };
    let year: i64 = if m <= 2 {
        y + 1
    } else {
        y
    };
    (year, m)
}

/// Civil-month index of a timestamp: months since year 0 of the UTC day
/// holding `ts`.
pub fn month_index_from_ts(ts: i64) -> (r: i64)
    ensures
        r == spec_month_index_from_ts(ts as int),
{
    let days_opt = ts.checked_div_euclid(86400);
    assert(days_opt is Some);
    let days = days_opt.unwrap();
    let (year, month) = year_month_from_days(days);
    year * 12 + (month - 1)
}

#[verifier::rlimit(100)]
#[verifier::spinoff_prover]
proof fn lemma_month_index_step(d: int)
    ensures
        spec_month_index_of_day(d) <= spec_month_index_of_day(d + 1),
{
    let z = d + 719468;
    let era1 = z / 146097;
    let era2 = (z + 1) / 146097;
    assert(era2 == era1 || (era2 == era1 + 1 && z % 146097 == 146096));
}

/// Law: the civil-month index never decreases as time grows, across month and
/// year boundaries alike.
pub proof fn lemma_month_index_monotonic(ts1: int, ts2: int)
    requires
        ts1 <= ts2,
    ensures
        spec_month_index_from_ts(ts1) <= spec_month_index_from_ts(ts2),
{
    lemma_month_index_of_day_monotonic(ts1 / 86400, ts2 / 86400);
}

proof fn lemma_month_index_of_day_monotonic(d1: int, d2: int)
    requires
        d1 <= d2,
    ensures
        spec_month_index_of_day(d1) <= spec_month_index_of_day(d2),
    decreases d2 - d1,
{
    if d1 < d2 {
        lemma_month_index_of_day_monotonic(d1, d2 - 1);
        lemma_month_index_step(d2 - 1);
    }
}

/// First civil day of month `m` of year `y`, counted from 1970-01-01 (the
/// standard days-from-civil transform at day 1).
pub open spec fn spec_first_day_of_month(y: int, m: int) -> int {
    let ys = if m <= 2 {
        y - 1
    } else {
        y
    };
    let era = ys / 400;
    let yoe = ys - era * 400;
    let mp = if m > 2 {
        m - 3
    } else {
        m + 9
    };
    let doy = (153 * mp + 2) / 5;
    let doe = yoe * 365 + yoe / 4 - yoe / 100 + doy;
    era * 146097 + doe - 719468
}

/// Law: the transform assigns every day the month that really contains it:
/// the day falls at or after that month's first day and before the first day
/// of the following month.
#[verifier::rlimit(100)]
#[verifier::spinoff_prover]
pub proof fn lemma_day_within_its_month(d: int)
    ensures
        spec_first_day_of_month(spec_year_from_days(d), spec_month_from_days(d)) <= d,
        d < (if spec_month_from_days(d) == 12 {
            spec_first_day_of_month(spec_year_from_days(d) + 1, 1)
        } else {
            spec_first_day_of_month(spec_year_from_days(d), spec_month_from_days(d) + 1)
        }),
{
}

} // verus!
