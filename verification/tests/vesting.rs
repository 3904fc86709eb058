use defai_core::vesting::{claim, claimable, unreleased, vested, VestingError};

const DAY: i64 = 86_400;

#[test]
fn nothing_is_vested_before_the_start() {
    assert_eq!(vested(1_000, 100, 200, 0), 0);
    assert_eq!(vested(1_000, 100, 200, 100), 0);
    assert_eq!(vested(1_000, 100, 200, -5), 0);
}

#[test]
fn vesting_is_linear_between_start_and_end() {
    assert_eq!(vested(1_000, 100, 200, 150), 500);
    assert_eq!(vested(1_000, 100, 200, 101), 10);
    assert_eq!(vested(1_000, 100, 200, 199), 990);
    assert_eq!(vested(10, 0, 3, 1), 3);
    assert_eq!(vested(10, 0, 3, 2), 6);
}

#[test]
fn everything_is_vested_from_the_end_on() {
    assert_eq!(vested(1_000, 100, 200, 200), 1_000);
    assert_eq!(vested(1_000, 100, 200, 201), 1_000);
    assert_eq!(vested(1_000, 100, 200, i64::MAX), 1_000);
    assert_eq!(vested(u64::MAX, 0, 90 * DAY, 90 * DAY), u64::MAX);
}

#[test]
fn a_schedule_without_duration_is_vested_at_once() {
    assert_eq!(vested(1_000, 100, 100, 100), 1_000);
    assert_eq!(vested(1_000, 100, 50, 0), 1_000);
}

#[test]
fn vested_amount_never_decreases() {
    let mut last = 0u64;
    for now in (-10..=120).map(|d| d * DAY) {
        let v = vested(123_456_789, 0, 90 * DAY, now);
        assert!(v >= last);
        assert!(v <= 123_456_789);
        last = v;
    }
    assert_eq!(last, 123_456_789);
}

#[test]
fn large_totals_do_not_wrap() {
    let total = u64::MAX;
    let v = vested(total, 0, 90 * DAY, 45 * DAY);
    assert_eq!(v as u128, (total as u128 * (45 * DAY) as u128) / (90 * DAY) as u128);
    assert_eq!(vested(total, i64::MIN, i64::MAX, 0) as u128, (total as u128 * (1u128 << 63)) / ((1u128 << 64) - 1));
}

#[test]
fn unreleased_is_vested_less_released() {
    assert_eq!(unreleased(1_000, 0, 100, 200, 150), 500);
    assert_eq!(unreleased(1_000, 200, 100, 200, 150), 300);
    assert_eq!(unreleased(1_000, 500, 100, 200, 150), 0);
    assert_eq!(unreleased(1_000, 700, 100, 200, 150), 0);
}

#[test]
fn nothing_is_claimable_while_the_cliff_stands() {
    assert_eq!(claimable(1_000, 0, 100, 200, 60, 150), 0);
    assert_eq!(claimable(1_000, 0, 100, 200, 60, 159), 0);
    assert_eq!(claimable(1_000, 0, 100, 200, 60, 160), 600);
    assert_eq!(claimable(1_000, 100, 100, 200, 60, 160), 500);
    assert_eq!(claimable(1_000, 0, 100, 200, 0, 150), 500);
    assert_eq!(claimable(1_000, 0, 100, 200, 500, 10_000), 1_000);
    assert_eq!(claimable(1_000, 0, 100, 200, 500, 599), 0);
    assert_eq!(claimable(1_000, 0, i64::MAX, i64::MAX, i64::MAX, i64::MAX), 0);
}

#[test]
fn nothing_is_claimable_after_full_release() {
    for now in [0, 150, 200, 10_000, i64::MAX] {
        assert_eq!(unreleased(1_000, 1_000, 100, 200, now), 0);
        assert_eq!(claimable(1_000, 1_000, 100, 200, 10, now), 0);
        assert_eq!(claimable(1_000, 1_000, 100, 200, 0, now), 0);
    }
    assert_eq!(claim(1_000, 1_000, 100, 200, 10, 500), Err(VestingError::NothingToClaim));
}

#[test]
fn claim_before_the_cliff_is_refused() {
    assert_eq!(claim(1_000, 0, 0, 90 * DAY, 2 * DAY, 2 * DAY - 1), Err(VestingError::StillInCliff));
    assert_eq!(claim(1_000, 0, 0, 90 * DAY, 2 * DAY, 0), Err(VestingError::StillInCliff));
}

#[test]
fn claim_at_the_cliff_pays_what_has_vested() {
    assert_eq!(claim(9_000, 0, 0, 90 * DAY, 2 * DAY, 2 * DAY), Ok(200));
    assert_eq!(claim(9_000, 200, 0, 90 * DAY, 2 * DAY, 3 * DAY), Ok(100));
    assert_eq!(claim(9_000, 0, 0, 90 * DAY, 2 * DAY, 90 * DAY), Ok(9_000));
}

#[test]
fn claim_of_zero_is_refused() {
    assert_eq!(claim(9_000, 200, 0, 90 * DAY, 2 * DAY, 2 * DAY), Err(VestingError::NothingToClaim));
    assert_eq!(claim(0, 0, 0, 90 * DAY, 2 * DAY, 50 * DAY), Err(VestingError::NothingToClaim));
    assert_eq!(claim(9_000, 9_000, 0, 90 * DAY, 2 * DAY, 100 * DAY), Err(VestingError::NothingToClaim));
}

#[test]
fn cliff_near_the_end_of_time_does_not_wrap() {
    assert_eq!(claim(10, 0, i64::MAX - 1, i64::MAX, 2 * DAY, i64::MAX), Err(VestingError::StillInCliff));
}
