use project_token::account::{AccountData, StakingStatus};
use project_token::error::Error;
use project_token::vesting::{VestingSchedule, VestingSource};

fn schedule(start: u32, duration: u32, cliff: u128, post_cliff: u128) -> VestingSchedule {
    VestingSchedule {
        linear_vesting_start_block: start,
        linear_vesting_duration: duration,
        cliff_amount: cliff,
        post_cliff_total_amount: post_cliff,
    }
}

#[test]
fn initial_issuance_scenario() {
    let account = AccountData::new_with_vesting_and_bond(
        VestingSource::InitialIssuance,
        schedule(0, 100, 20, 80),
        0,
    );
    assert_eq!(account.amount(), 100);
    // the cliff amount unlocks at the start block itself
    assert_eq!(account.unvested(0), 80);
    assert_eq!(account.transferrable(0), 20);
    assert_eq!(account.unvested(50), 40);
    assert_eq!(account.transferrable(50), 60);
    assert_eq!(account.unvested(100), 0);
    assert_eq!(account.transferrable(100), 100);
}

#[test]
fn everything_is_locked_before_the_start_block() {
    let account = AccountData::new_with_vesting_and_bond(
        VestingSource::InitialIssuance,
        schedule(1, 100, 20, 80),
        0,
    );
    assert_eq!(account.transferrable(0), 0);
    assert_eq!(account.transferrable(1), 20);
}

#[test]
fn new_with_amount_and_bond_has_no_locks() {
    let account = AccountData::new_with_amount_and_bond(70, 3);
    assert_eq!(account.amount(), 70);
    assert_eq!(account.bloat_bond(), 3);
    assert_eq!(account.split_staking_status(), None);
    assert_eq!(account.vesting_schedules_len(), 0);
    assert_eq!(account.unvested(0), 0);
    assert_eq!(account.staked(0), 0);
    assert_eq!(account.transferrable(0), 70);
    assert!(!account.is_empty());
    assert!(AccountData::default().is_empty());
    assert_eq!(AccountData::default(), AccountData::new_with_amount_and_bond(0, 0));
}

#[test]
fn transferrable_is_amount_less_the_larger_lock() {
    let mut account = AccountData::new_with_vesting_and_bond(
        VestingSource::Sale(1),
        schedule(10, 10, 0, 40),
        0,
    );
    account.increase_amount_by(60);
    assert_eq!(account.amount(), 100);
    account.stake(7, 30);
    assert_eq!(account.split_staking_status(), Some(StakingStatus { split_id: 7, amount: 30 }));
    assert_eq!(account.staked(0), 30);
    // unvested 40 > staked 30
    assert_eq!(account.transferrable(0), 60);
    // at block 15 unvested is 20 < staked 30
    assert_eq!(account.unvested(15), 20);
    assert_eq!(account.transferrable(15), 70);
    account.unstake();
    assert_eq!(account.transferrable(15), 80);
    assert_eq!(account.transferrable(20), 100);
}

#[test]
fn transferrable_saturates_at_zero() {
    let mut account = AccountData::new_with_amount_and_bond(10, 0);
    account.stake(1, 25);
    assert_eq!(account.transferrable(0), 0);
    for b in 0..5u32 {
        assert!(account.transferrable(b) <= account.amount());
    }
}

#[test]
fn unvested_sums_all_schedules_and_saturates() {
    let mut account = AccountData::new_with_amount_and_bond(0, 0);
    account.add_or_update_vesting_schedule(VestingSource::InitialIssuance, schedule(10, 0, 5, 0), None);
    account.add_or_update_vesting_schedule(VestingSource::Sale(0), schedule(20, 0, 7, 0), None);
    account.add_or_update_vesting_schedule(VestingSource::Sale(3), schedule(30, 10, 0, 10), None);
    assert_eq!(account.amount(), 22);
    assert_eq!(account.unvested(0), 22);
    assert_eq!(account.unvested(10), 17);
    assert_eq!(account.unvested(20), 10);
    assert_eq!(account.unvested(35), 5);
    assert_eq!(account.unvested(40), 0);

    let mut big = AccountData::new_with_amount_and_bond(0, 0);
    big.add_or_update_vesting_schedule(VestingSource::Sale(0), schedule(9, 0, u128::MAX, 0), None);
    big.add_or_update_vesting_schedule(VestingSource::Sale(1), schedule(9, 0, u128::MAX, 0), None);
    assert_eq!(big.unvested(0), u128::MAX);
    assert_eq!(big.amount(), u128::MAX);
}

#[test]
fn ensure_can_transfer_checks_transferrable_balance() {
    let account = AccountData::new_with_vesting_and_bond(
        VestingSource::InitialIssuance,
        schedule(0, 100, 20, 80),
        0,
    );
    assert_eq!(account.ensure_can_transfer(50, 60), Ok(()));
    assert_eq!(
        account.ensure_can_transfer(50, 61),
        Err(Error::InsufficientTransferrableBalance)
    );
    assert_eq!(account.ensure_can_transfer(0, 0), Ok(()));
}

#[test]
fn grants_from_one_source_are_merged() {
    let mut account = AccountData::new_with_vesting_and_bond(
        VestingSource::Sale(2),
        schedule(10, 100, 20, 80),
        0,
    );
    account.add_or_update_vesting_schedule(VestingSource::Sale(2), schedule(500, 7, 5, 15), None);
    assert_eq!(account.vesting_schedules_len(), 1);
    assert_eq!(
        account.vesting_schedule(VestingSource::Sale(2)),
        Some(schedule(10, 100, 25, 95))
    );
    assert_eq!(account.amount(), 120);
    assert_eq!(account.vesting_schedule(VestingSource::InitialIssuance), None);
}

#[test]
fn full_table_rejects_new_source_unless_a_schedule_is_finished() {
    let mut account = AccountData::new_with_amount_and_bond(0, 0);
    account.add_or_update_vesting_schedule(VestingSource::Sale(5), schedule(0, 10, 0, 10), None);
    account.add_or_update_vesting_schedule(VestingSource::Sale(1), schedule(0, 20, 0, 10), None);
    account.add_or_update_vesting_schedule(VestingSource::InitialIssuance, schedule(0, 30, 0, 10), None);

    // not full
    assert_eq!(
        account.ensure_can_add_or_update_vesting_schedule(25, VestingSource::Sale(9), 4),
        Ok(None)
    );
    // full, nothing finished
    assert_eq!(
        account.ensure_can_add_or_update_vesting_schedule(5, VestingSource::Sale(9), 3),
        Err(Error::MaxVestingSchedulesPerAccountPerTokenReached)
    );
    // full, nothing finished, but the source has a schedule already
    assert_eq!(
        account.ensure_can_add_or_update_vesting_schedule(5, VestingSource::Sale(1), 3),
        Ok(None)
    );
    // full, one finished
    assert_eq!(
        account.ensure_can_add_or_update_vesting_schedule(10, VestingSource::Sale(9), 3),
        Ok(Some(VestingSource::Sale(5)))
    );
    // full, two finished: the least source goes
    assert_eq!(
        account.ensure_can_add_or_update_vesting_schedule(25, VestingSource::Sale(9), 3),
        Ok(Some(VestingSource::Sale(1)))
    );
    assert_eq!(account.cleanup_candidate(30), Some(VestingSource::InitialIssuance));
    assert_eq!(account.cleanup_candidate(9), None);
}

#[test]
fn eviction_makes_room_for_a_new_source() {
    let mut account = AccountData::new_with_amount_and_bond(0, 0);
    account.add_or_update_vesting_schedule(VestingSource::Sale(1), schedule(0, 10, 0, 10), None);
    account.add_or_update_vesting_schedule(VestingSource::Sale(2), schedule(0, 50, 0, 10), None);
    let cleanup = account
        .ensure_can_add_or_update_vesting_schedule(10, VestingSource::Sale(3), 2)
        .unwrap();
    assert_eq!(cleanup, Some(VestingSource::Sale(1)));
    account.add_or_update_vesting_schedule(VestingSource::Sale(3), schedule(10, 10, 1, 2), cleanup);
    assert_eq!(account.vesting_schedules_len(), 2);
    assert_eq!(account.vesting_schedule(VestingSource::Sale(1)), None);
    assert_eq!(account.vesting_schedule(VestingSource::Sale(3)), Some(schedule(10, 10, 1, 2)));
    assert_eq!(account.amount(), 23);
}

#[test]
fn amount_changes_saturate() {
    let mut account = AccountData::new_with_amount_and_bond(10, 0);
    account.decrease_amount_by(4);
    assert_eq!(account.amount(), 6);
    account.decrease_amount_by(7);
    assert_eq!(account.amount(), 0);
    assert!(account.is_empty());
    account.increase_amount_by(u128::MAX);
    account.increase_amount_by(1);
    assert_eq!(account.amount(), u128::MAX);
}

#[test]
fn staking_status_locks_its_amount_at_any_block() {
    let status = StakingStatus { split_id: 1, amount: 42u128 };
    assert_eq!(status.locks(0u32), 42);
    assert_eq!(status.locks(u64::MAX), 42);
}

#[test]
fn clone_keeps_the_account() {
    let mut account = AccountData::new_with_vesting_and_bond(
        VestingSource::Sale(2),
        schedule(10, 100, 20, 80),
        9,
    );
    account.stake(3, 4);
    assert_eq!(account.clone(), account);
}

#[test]
fn account_round_trips_through_its_parts() {
    let mut account = AccountData::new_with_amount_and_bond(5, 9);
    account.add_or_update_vesting_schedule(VestingSource::Sale(4), schedule(0, 10, 1, 2), None);
    account.add_or_update_vesting_schedule(VestingSource::InitialIssuance, schedule(3, 4, 5, 6), None);
    account.add_or_update_vesting_schedule(VestingSource::Sale(0), schedule(7, 8, 9, 10), None);
    account.stake(2, 11);
    let schedules = account.vesting_schedules();
    assert_eq!(
        schedules,
        vec![
            (VestingSource::InitialIssuance, schedule(3, 4, 5, 6)),
            (VestingSource::Sale(0), schedule(7, 8, 9, 10)),
            (VestingSource::Sale(4), schedule(0, 10, 1, 2)),
        ]
    );
    let rebuilt = AccountData::from_parts(
        schedules,
        account.amount(),
        account.split_staking_status(),
        account.bloat_bond(),
    );
    assert_eq!(rebuilt, account);
    assert_eq!(rebuilt.amount(), 5 + 3 + 11 + 19);
}

#[test]
fn from_parts_keeps_the_last_entry_of_a_source() {
    let account = AccountData::from_parts(
        vec![
            (VestingSource::Sale(1), schedule(0, 1, 2, 3)),
            (VestingSource::Sale(1), schedule(4, 5, 6, 7)),
        ],
        13,
        None,
        0,
    );
    assert_eq!(account.vesting_schedules(), vec![(VestingSource::Sale(1), schedule(4, 5, 6, 7))]);
    assert_eq!(account.amount(), 13);
    assert_eq!(AccountData::from_parts(vec![], 0, None, 0), AccountData::default());
}
