use std::cmp::Ordering;

use yuque_backup::store::BackupTime;
use yuque_backup::timestamp::Timestamp;

#[test]
fn timestamps_compare_by_instant() {
    let a = Timestamp::new(1_000, 0);
    let b = Timestamp::new(1_000, 3600);
    let c = Timestamp::new(1_001, -3600);
    assert_eq!(a, b);
    assert_ne!(a, c);
    assert!(a < c);
    assert!(c > b);
    assert!(a <= b && a >= b);
    assert_eq!(a.partial_cmp(&b), Some(Ordering::Equal));
    assert_eq!(a.partial_cmp(&c), Some(Ordering::Less));
    assert_eq!(c.partial_cmp(&a), Some(Ordering::Greater));
}

#[test]
fn at_or_after_is_not_strict() {
    let a = Timestamp::utc(-5);
    let b = Timestamp::utc(7);
    assert!(a.at_or_after(&a));
    assert!(b.at_or_after(&a));
    assert!(!a.at_or_after(&b));
    assert!(Timestamp::utc(i128::MAX).at_or_after(&Timestamp::utc(i128::MIN)));
}

#[test]
fn utc_has_no_offset() {
    let t = Timestamp::utc(42);
    assert_eq!(t.unix_nanos, 42);
    assert_eq!(t.offset_seconds, 0);
    let u = Timestamp::new(42, -60);
    assert_eq!(u.unix_nanos, 42);
    assert_eq!(u.offset_seconds, -60);
}

#[test]
fn backup_times_compare_like_timestamps() {
    assert_eq!(BackupTime(Timestamp::new(9, 0)), BackupTime(Timestamp::new(9, 60)));
    assert!(BackupTime(Timestamp::utc(9)) < BackupTime(Timestamp::utc(10)));
}
