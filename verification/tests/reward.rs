use staking_contract::reward::{accrue, effective_height};
use staking_contract::StakingError;

#[test]
fn effective_height_is_live_height_when_running() {
    assert_eq!(effective_height(false, 150, 500), 500);
    assert_eq!(effective_height(false, 0, 0), 0);
}

#[test]
fn effective_height_is_frozen_when_paused() {
    assert_eq!(effective_height(true, 150, 500), 150);
    assert_eq!(effective_height(true, 150, 100), 150);
}

#[test]
fn accrue_over_no_heights_is_zero() {
    assert_eq!(accrue(1_000, 100, 100, 715, 1_000_000_000), Ok(0));
    assert_eq!(accrue(u128::MAX, 7, 7, u32::MAX, 1), Ok(0));
    assert_eq!(accrue(0, u64::MAX, u64::MAX, 0, 1), Ok(0));
}

#[test]
fn accrue_rounds_down() {
    assert_eq!(accrue(10, 0, 3, 1, 4), Ok(7));
    assert_eq!(accrue(1_000, 100, 150, 715, 1_000_000_000), Ok(0));
    assert_eq!(accrue(1_000, 100, 150, 500, 100_000), Ok(250));
    assert_eq!(accrue(1_000_000_000, 0, 1, 715, 1_000_000_000), Ok(715));
    assert_eq!(accrue(1_399_999, 0, 1, 715, 1_000_000_000), Ok(1));
}

#[test]
fn accrue_on_a_large_balance() {
    let balance: u128 = 10_000_000_000_000_000_000_000_000_000;
    let expected: u128 = balance * 715 / 1_000_000_000;
    assert_eq!(expected, 7_150_000_000_000_000_000_000);
    assert_eq!(accrue(balance, 0, 1, 715, 1_000_000_000), Ok(7_150_000_000_000_000_000_000));
}

#[test]
fn accrue_rejects_a_clock_that_went_back() {
    assert_eq!(accrue(1, 10, 9, 1, 1), Err(StakingError::ClockRegression));
    assert_eq!(accrue(u128::MAX, u64::MAX, 0, u32::MAX, 1), Err(StakingError::ClockRegression));
}

#[test]
fn accrue_rejects_a_product_beyond_128_bits() {
    assert_eq!(accrue(u128::MAX, 0, 1, 2, 1), Err(StakingError::ArithmeticOverflow));
    assert_eq!(accrue(u128::MAX / 2 + 1, 0, 2, 1, 1), Err(StakingError::ArithmeticOverflow));
    assert_eq!(accrue(u128::MAX / 2 + 1, 0, 2, 1, 1_000), Err(StakingError::ArithmeticOverflow));
}

#[test]
fn accrue_accepts_the_largest_product() {
    assert_eq!(accrue(u128::MAX, 0, 1, 1, 1), Ok(u128::MAX));
    assert_eq!(accrue(u128::MAX / 2, 0, 2, 1, 1), Ok(u128::MAX - 1));
}

#[test]
fn accrue_grows_with_elapsed_and_balance() {
    let mut last: u128 = 0;
    let mut elapsed: u64 = 0;
    while elapsed < 200 {
        let reward = accrue(1_000_003, 10, 10 + elapsed, 715, 1_000).unwrap();
        assert!(reward >= last);
        last = reward;
        elapsed += 1;
    }
    assert_eq!(last, 1_000_003 * 715 * 199 / 1_000);

    let mut last: u128 = 0;
    let mut balance: u128 = 0;
    while balance < 200 {
        let reward = accrue(balance, 0, 3, 7, 11).unwrap();
        assert!(reward >= last);
        last = reward;
        balance += 1;
    }
    assert_eq!(last, 199 * 7 * 3 / 11);
}
