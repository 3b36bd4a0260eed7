use project_token::discovery::{
    is_account_info_expired, lifetime_or_default, AccountInfo, DEFAULT_LIFETIME, MINIMUM_LIFETIME,
};
use project_token::locks::{are_locks_conflicting, is_among, same_lock, LockIdentifier};
use project_token::staking_events::{on_unstaked, Unstaked};
use project_token::weights::{
    extrinsic_base_weight, saturating_mul, validate_unsigned_and_then_heartbeat, RuntimeDbWeight,
    Weight, WEIGHT_REF_TIME_PER_MICROS, WEIGHT_REF_TIME_PER_MILLIS, WEIGHT_REF_TIME_PER_NANOS,
};

const VOTING: LockIdentifier = *b"voting  ";
const STAKING: LockIdentifier = *b"staking ";
const COUNCIL: LockIdentifier = *b"council ";
const FORUM: LockIdentifier = *b"forum   ";

/// Checks that the weight exists and is sane.
#[test]
fn sane() {
    let w = extrinsic_base_weight();

    // At least 10 µs.
    assert!(
        w.ref_time() >= 10u64 * WEIGHT_REF_TIME_PER_MICROS,
        "Weight should be at least 10 µs."
    );
    // At most 1 ms.
    assert!(
        w.ref_time() <= WEIGHT_REF_TIME_PER_MILLIS,
        "Weight should be at most 1 ms."
    );
}

#[test]
fn extrinsic_base_weight_value() {
    assert_eq!(extrinsic_base_weight(), Weight::from_parts(83_409_000, 0));
    assert_eq!(WEIGHT_REF_TIME_PER_NANOS * 83_409, 83_409_000);
    assert_eq!(extrinsic_base_weight().proof_size(), 0);
}

#[test]
fn weight_arithmetic_saturates() {
    let a = Weight::from_parts(10, 20);
    assert_eq!(a.saturating_add(Weight::from_parts(1, 2)), Weight::from_parts(11, 22));
    assert_eq!(
        a.saturating_add(Weight::from_parts(u64::MAX, 0)),
        Weight::from_parts(u64::MAX, 20)
    );
    assert_eq!(a.saturating_mul(3), Weight::from_parts(30, 60));
    assert_eq!(a.saturating_mul(u64::MAX), Weight::from_parts(u64::MAX, u64::MAX));
    assert_eq!(saturating_mul(0, u64::MAX), 0);
    assert_eq!(saturating_mul(1 << 32, 1 << 32), u64::MAX);
    let db = RuntimeDbWeight { read: 25, write: 100 };
    assert_eq!(db.reads(4), Weight::from_parts(100, 0));
    assert_eq!(db.writes(3), Weight::from_parts(300, 0));
    assert_eq!(db.writes(u64::MAX), Weight::from_parts(u64::MAX, 0));
}

#[test]
fn heartbeat_weight() {
    let db = RuntimeDbWeight { read: 25_000_000, write: 100_000_000 };
    assert_eq!(
        validate_unsigned_and_then_heartbeat(1, 1, db),
        Weight::from_parts(45_808_559 + 74_644 + 593_796 + 200_000_000, 10_345_712 + 64 + 25)
    );
    assert_eq!(
        validate_unsigned_and_then_heartbeat(1000, 100, db),
        Weight::from_parts(
            45_808_559 + 74_644_000 + 59_379_600 + 200_000_000,
            10_345_712 + 64_000 + 2_500
        )
    );
    let costly = RuntimeDbWeight { read: u64::MAX, write: 0 };
    assert_eq!(validate_unsigned_and_then_heartbeat(0, 0, costly).ref_time(), u64::MAX);
    assert_eq!(validate_unsigned_and_then_heartbeat(0, 0, costly).proof_size(), 10_345_712);
}

#[test]
fn rivalrous_locks_conflict() {
    let non_rivalrous = [VOTING, STAKING];
    // nothing there yet
    assert!(!are_locks_conflicting(&COUNCIL, &[], &non_rivalrous));
    // the new lock stands beside any other
    assert!(!are_locks_conflicting(&VOTING, &[COUNCIL, FORUM], &non_rivalrous));
    // the locks that are there stand beside any other
    assert!(!are_locks_conflicting(&COUNCIL, &[VOTING, STAKING], &non_rivalrous));
    // both rivalrous
    assert!(are_locks_conflicting(&COUNCIL, &[VOTING, FORUM], &non_rivalrous));
    assert!(are_locks_conflicting(&COUNCIL, &[COUNCIL], &non_rivalrous));
    assert!(are_locks_conflicting(&COUNCIL, &[FORUM], &[]));
    assert!(is_among(&non_rivalrous, &STAKING));
    assert!(!is_among(&non_rivalrous, &FORUM));
    assert!(same_lock(&FORUM, &FORUM));
    assert!(!same_lock(&FORUM, &COUNCIL));
    assert!(!same_lock(b"forum   ", b"forum  x"));
}

#[test]
fn account_info_expires_after_its_block() {
    let info = AccountInfo { identity: vec![1, 2], expires_at: 100u32 };
    assert!(is_account_info_expired(None, 0));
    assert!(!is_account_info_expired(Some(&info), 99));
    assert!(!is_account_info_expired(Some(&info), 100));
    assert!(is_account_info_expired(Some(&info), 101));
}

#[test]
fn lifetime_has_a_minimum() {
    assert_eq!(MINIMUM_LIFETIME, 600);
    assert_eq!(DEFAULT_LIFETIME, MINIMUM_LIFETIME * 24);
    assert_eq!(lifetime_or_default(None, DEFAULT_LIFETIME), 14_400);
    assert_eq!(lifetime_or_default(Some(599), DEFAULT_LIFETIME), 600);
    assert_eq!(lifetime_or_default(Some(600), DEFAULT_LIFETIME), 600);
    assert_eq!(lifetime_or_default(Some(7000), DEFAULT_LIFETIME), 7000);
}

#[test]
fn unstaked_rest_is_refunded_for_group_applications_only() {
    assert_eq!(on_unstaked(false, false), Unstaked::HandedOn);
    assert_eq!(on_unstaked(false, true), Unstaked::HandedOn);
    assert_eq!(on_unstaked(true, false), Unstaked::HandedOn);
    assert_eq!(on_unstaked(true, true), Unstaked::Refunded);
}
