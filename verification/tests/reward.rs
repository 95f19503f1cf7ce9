use staking::data::ONE_YEAR_IN_MILLISECONDS;
use staking::reward::{accrue, saturating_mul};

#[test]
fn year_is_365_days_of_milliseconds() {
    assert_eq!(ONE_YEAR_IN_MILLISECONDS, 365 * 24 * 60 * 60 * 1000);
}

#[test]
fn saturating_mul_is_exact_in_range() {
    assert_eq!(saturating_mul(0, u128::MAX), 0);
    assert_eq!(saturating_mul(1_000_000, 1200), 1_200_000_000);
    assert_eq!(saturating_mul(u128::MAX, 1), u128::MAX);
}

#[test]
fn saturating_mul_stops_at_the_maximum() {
    assert_eq!(saturating_mul(u128::MAX, 2), u128::MAX);
    assert_eq!(saturating_mul(1u128 << 64, 1u128 << 64), u128::MAX);
    assert_eq!(saturating_mul((1u128 << 64) - 1, (1u128 << 64) + 1), u128::MAX);
}

#[test]
fn accrue_rounds_down() {
    assert_eq!(accrue(1_000_000, 1200, 500), 0);
    assert_eq!(accrue(1_000_000_000, 1200, 500), 190);
    assert_eq!(accrue(1_000_000_000, 1200, 1000), 380);
    assert_eq!(accrue(1_000_000_000_000, 1200, 1000), 380_517);
    assert_eq!(accrue(1_000_000_000_000, 1200, 999), 380_136);
}

#[test]
fn accrue_of_nothing_is_nothing() {
    assert_eq!(accrue(0, 1200, 1000), 0);
    assert_eq!(accrue(1_000_000_000_000, 0, 1000), 0);
    assert_eq!(accrue(1_000_000_000_000, 1200, 0), 0);
}

#[test]
fn accrue_over_one_year() {
    // Over a whole year the reward is the amount times the rate over 100.
    assert_eq!(accrue(1_000, 100, 31_536_000_000), 1_000);
    assert_eq!(accrue(1_000, 1200, 31_536_000_000), 12_000);
}

#[test]
fn accrue_saturates_before_dividing() {
    assert_eq!(
        accrue(u128::MAX, 1200, 1000),
        107_902_830_708_060_141_889_705_291
    );
    assert_eq!(accrue(u128::MAX, 1200, 1000), u128::MAX / 3_153_600_000_000);
    assert_eq!(accrue(u128::MAX, u64::MAX, u64::MAX), u128::MAX / 3_153_600_000_000);
}
