use defai_core::arith::{mul_div, percent_of, split, BPS_DENOMINATOR};

#[test]
fn split_of_zero_total_is_zero() {
    assert_eq!(split(0, 0), Some((0, 0)));
    assert_eq!(split(0, 2500), Some((0, 0)));
    assert_eq!(split(0, 10_000), Some((0, 0)));
}

#[test]
fn split_with_zero_fee_keeps_everything() {
    assert_eq!(split(1_000, 0), Some((0, 1_000)));
    assert_eq!(split(u64::MAX, 0), Some((0, u64::MAX)));
}

#[test]
fn split_with_full_fee_takes_everything() {
    assert_eq!(split(1_000, 10_000), Some((1_000, 0)));
    assert_eq!(split(u64::MAX, 10_000), Some((u64::MAX, 0)));
}

#[test]
fn split_rounds_the_fee_down() {
    assert_eq!(split(1_000, 2_000), Some((200, 800)));
    assert_eq!(split(999, 2_000), Some((199, 800)));
    assert_eq!(split(1, 9_999), Some((0, 1)));
    assert_eq!(split(3, 3_333), Some((0, 3)));
    assert_eq!(split(10_001, 1), Some((1, 10_000)));
}

#[test]
fn split_of_largest_total_does_not_wrap() {
    let total = u64::MAX;
    let (fee, rest) = split(total, 2_500).unwrap();
    assert_eq!(fee, 4_611_686_018_427_387_903);
    assert_eq!(fee as u128, (total as u128 * 2_500) / 10_000);
    assert_eq!(fee + rest, total);
    let (fee, rest) = split(total, 9_999).unwrap();
    assert_eq!(fee as u128, (total as u128 * 9_999) / 10_000);
    assert_eq!(fee + rest, total);
}

#[test]
fn split_parts_always_add_up() {
    for total in [0u64, 1, 7, 99, 10_000, 123_456_789, u64::MAX - 1, u64::MAX] {
        for bps in [0u16, 1, 33, 500, 2_000, 9_999, 10_000] {
            let (fee, rest) = split(total, bps).unwrap();
            assert_eq!(fee as u128, (total as u128 * bps as u128) / 10_000);
            assert_eq!(fee as u128 + rest as u128, total as u128);
        }
    }
}

#[test]
fn split_fails_only_when_fee_exceeds_total() {
    assert_eq!(split(10_000, 10_001), None);
    assert_eq!(split(u64::MAX, 20_000), None);
    assert_eq!(split(1_000, 10_001), Some((1_000, 0)));
    assert_eq!(split(0, 65_535), Some((0, 0)));
    assert_eq!(split(1, 10_001), Some((1, 0)));
    assert_eq!(split(1, 20_000), None);
}

#[test]
fn mul_div_is_exact_floor() {
    assert_eq!(mul_div(10, 3, 4), Some(7));
    assert_eq!(mul_div(0, 5, 9), Some(0));
    assert_eq!(mul_div(u64::MAX, u64::MAX, u64::MAX), Some(u64::MAX));
    assert_eq!(mul_div(u64::MAX, 2, 3), Some(12_297_829_382_473_034_410));
}

#[test]
fn mul_div_reports_zero_divisor_and_overflow() {
    assert_eq!(mul_div(1, 1, 0), None);
    assert_eq!(mul_div(u64::MAX, 2, 1), None);
    assert_eq!(mul_div(u64::MAX, 30_000, BPS_DENOMINATOR), None);
}

#[test]
fn percent_of_rounds_down() {
    assert_eq!(percent_of(1_000, 60), Some(600));
    assert_eq!(percent_of(1_000, 40), Some(400));
    assert_eq!(percent_of(999, 50), Some(499));
    assert_eq!(percent_of(1, 99), Some(0));
    assert_eq!(percent_of(u64::MAX, 100), Some(u64::MAX));
    assert_eq!(percent_of(u64::MAX, 0), Some(0));
    assert_eq!(percent_of(u64::MAX, 101), None);
    assert_eq!(percent_of(100, 255), Some(255));
}
