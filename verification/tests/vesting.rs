use project_token::fixed_point::Permill;
use project_token::vesting::{VestingSchedule, VestingScheduleParams, VestingSource};

fn schedule(start: u32, duration: u32, cliff: u128, post_cliff: u128) -> VestingSchedule {
    VestingSchedule {
        linear_vesting_start_block: start,
        linear_vesting_duration: duration,
        cliff_amount: cliff,
        post_cliff_total_amount: post_cliff,
    }
}

#[test]
fn locks_whole_grant_before_start() {
    let s = schedule(10, 100, 20, 80);
    assert_eq!(s.locks(0), 100);
    assert_eq!(s.locks(9), 100);
}

#[test]
fn locks_decay_linearly_after_cliff() {
    let s = schedule(0, 100, 20, 80);
    assert_eq!(s.locks(0), 80);
    assert_eq!(s.locks(25), 60);
    assert_eq!(s.locks(50), 40);
    assert_eq!(s.locks(75), 20);
    assert_eq!(s.locks(99), 0);
    assert_eq!(s.locks(100), 0);
    assert_eq!(s.locks(u32::MAX), 0);
}

#[test]
fn locks_round_down() {
    let s = schedule(0, 3, 0, 100);
    // 2/3 of the period is left: 666_666 parts per million of 100
    assert_eq!(s.locks(1), 66);
    assert_eq!(s.locks(2), 33);
}

#[test]
fn locked_amount_never_exceeds_total() {
    let s = schedule(5, 7, 13, 1_000_003);
    for b in 0..20u32 {
        assert!(s.locks(b) <= s.total_amount());
        if b >= 12 {
            assert_eq!(s.locks(b), 0);
            assert!(s.is_finished(b));
        } else {
            assert!(!s.is_finished(b));
        }
    }
}

#[test]
fn zero_duration_unlocks_everything_at_start() {
    let s = schedule(10, 0, 30, 70);
    assert_eq!(s.locks(9), 100);
    assert_eq!(s.locks(10), 0);
    assert!(s.is_finished(10));
    assert!(!s.is_finished(9));
}

#[test]
fn end_block_saturates() {
    let s = schedule(u32::MAX - 1, 10, 0, 100);
    assert!(!s.is_finished(u32::MAX - 1));
    assert!(s.is_finished(u32::MAX));
    assert_eq!(s.locks(u32::MAX - 2), 100);
    assert_eq!(s.locks(u32::MAX), 0);
}

#[test]
fn total_amount_saturates() {
    assert_eq!(schedule(0, 1, 20, 80).total_amount(), 100);
    assert_eq!(schedule(0, 1, u128::MAX, 80).total_amount(), u128::MAX);
}

#[test]
fn from_params_splits_amount_at_cliff() {
    let params = VestingScheduleParams {
        linear_vesting_duration: 100,
        blocks_before_cliff: 5,
        cliff_amount_percentage: Permill::from_percent(30),
    };
    let s = VestingSchedule::from_params(10, 1000, params);
    assert_eq!(s, schedule(15, 100, 300, 700));
    assert_eq!(s.total_amount(), 1000);
}

#[test]
fn from_params_rounds_cliff_down() {
    let params = VestingScheduleParams {
        linear_vesting_duration: 1,
        blocks_before_cliff: 0,
        cliff_amount_percentage: Permill::from_parts(666_667),
    };
    let s = VestingSchedule::from_params(0, 10, params);
    assert_eq!(s.cliff_amount, 6);
    assert_eq!(s.post_cliff_total_amount, 4);
}

#[test]
fn from_params_start_saturates() {
    let params = VestingScheduleParams {
        linear_vesting_duration: 1,
        blocks_before_cliff: 10,
        cliff_amount_percentage: Permill::zero(),
    };
    let s = VestingSchedule::from_params(u32::MAX - 3, 10, params);
    assert_eq!(s.linear_vesting_start_block, u32::MAX);
    assert_eq!(s.cliff_amount, 0);
    assert_eq!(s.post_cliff_total_amount, 10);
}

#[test]
fn vesting_source_keys_keep_the_order_of_sources() {
    assert_eq!(VestingSource::InitialIssuance.key(), 0);
    assert_eq!(VestingSource::Sale(0).key(), 1);
    assert_eq!(VestingSource::Sale(u32::MAX).key(), 1u64 << 32);
    assert_eq!(VestingSource::from_key(0), Some(VestingSource::InitialIssuance));
    assert_eq!(VestingSource::from_key(8), Some(VestingSource::Sale(7)));
    assert_eq!(VestingSource::from_key((1u64 << 32) + 1), None);
    assert!(VestingSource::InitialIssuance < VestingSource::Sale(0));
    assert!(VestingSource::Sale(1) < VestingSource::Sale(2));
}
