use reward_vault::math::bps_mul_floor;
use reward_vault::math::conf_bps_from_price;
use reward_vault::math::mul_div_u64;
use reward_vault::math::pow10_u128;
use reward_vault::math::scale_price_to_e6;
use reward_vault::math::within_bps;

#[test]
fn bps_mul_floor_exact_values() {
    assert_eq!(bps_mul_floor(1_000_000, 100), 10_000);
    assert_eq!(bps_mul_floor(1_000_000, 0), 0);
    assert_eq!(bps_mul_floor(1_000_000, 10_000), 1_000_000);
    assert_eq!(bps_mul_floor(999, 1), 0);
    assert_eq!(bps_mul_floor(10_001, 1), 1);
    assert_eq!(bps_mul_floor(u64::MAX, 10_000), u64::MAX);
}

#[test]
fn mul_div_exact_and_overflow() {
    assert_eq!(mul_div_u64(6, 7, 2), Some(21));
    assert_eq!(mul_div_u64(7, 3, 2), Some(10));
    assert_eq!(mul_div_u64(u64::MAX, 2, 1), None);
    assert_eq!(mul_div_u64(u64::MAX, 2, 2), Some(u64::MAX));
    assert_eq!(mul_div_u64(0, u64::MAX, 5), Some(0));
}

#[test]
fn within_bps_zero_reference_rejects_everything() {
    assert!(!within_bps(0, 0, 10_000));
    assert!(!within_bps(1, 0, 10_000));
    assert!(!within_bps(u64::MAX, 0, 10_000));
    assert!(!within_bps(0, 0, 0));
}

#[test]
fn within_bps_band_is_relative_to_reference() {
    // 1% of 1_000_000 is 10_000.
    assert!(within_bps(1_010_000, 1_000_000, 100));
    assert!(within_bps(990_000, 1_000_000, 100));
    assert!(!within_bps(1_010_001, 1_000_000, 100));
    assert!(!within_bps(989_999, 1_000_000, 100));
    assert!(within_bps(1_000_000, 1_000_000, 0));
    assert!(!within_bps(1_000_001, 1_000_000, 0));
}

#[test]
fn within_bps_is_not_symmetric() {
    // 0.5% of 200 floors to 1, but 0.5% of 199 floors to 0, so the test
    // accepts (199 vs 200) and rejects (200 vs 199).
    assert!(within_bps(199, 200, 50));
    assert!(!within_bps(200, 199, 50));
}

#[test]
fn conf_bps_ratio() {
    assert_eq!(conf_bps_from_price(0, 5), None);
    assert_eq!(conf_bps_from_price(10_000, 100), Some(100));
    assert_eq!(conf_bps_from_price(-10_000, 100), Some(100));
    assert_eq!(conf_bps_from_price(10_000, 0), Some(0));
    assert_eq!(conf_bps_from_price(3, 1), Some(3333));
}

#[test]
fn pow10_values_and_overflow() {
    assert_eq!(pow10_u128(0), Some(1));
    assert_eq!(pow10_u128(6), Some(1_000_000));
    assert_eq!(pow10_u128(38), Some(100_000_000_000_000_000_000_000_000_000_000_000_000u128));
    assert_eq!(pow10_u128(39), None);
    assert_eq!(pow10_u128(u32::MAX), None);
}

#[test]
fn scale_price_negative_exponent_floors_toward_zero() {
    // price * 10^-8 scaled to 1e-6: divide by 100.
    assert_eq!(scale_price_to_e6(15_000_000_000, -8), Some(150_000_000));
    assert_eq!(scale_price_to_e6(199, -8), Some(1));
    assert_eq!(scale_price_to_e6(99, -8), Some(0));
}

#[test]
fn scale_price_non_negative_exponent_multiplies() {
    assert_eq!(scale_price_to_e6(3, 0), Some(3_000_000));
    assert_eq!(scale_price_to_e6(3, -6), Some(3));
    assert_eq!(scale_price_to_e6(1, 13), Some(10_000_000_000_000_000_000));
    // 10^20 no longer fits in 64 bits.
    assert_eq!(scale_price_to_e6(1, 14), None);
}

#[test]
fn scale_price_negative_prices_are_rejected() {
    assert_eq!(scale_price_to_e6(-15_000_000_000, -8), None);
    assert_eq!(scale_price_to_e6(-1, 0), None);
    // A negative price whose magnitude floors to zero scales to zero.
    assert_eq!(scale_price_to_e6(-99, -8), Some(0));
}

#[test]
fn scale_price_huge_exponent_is_an_error() {
    assert_eq!(scale_price_to_e6(1, 33), None);
    assert_eq!(scale_price_to_e6(1, i32::MAX), None);
    assert_eq!(scale_price_to_e6(1, i32::MIN), None);
}
