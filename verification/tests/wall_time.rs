use raft_archive::Instant;
use raft_archive::WallTime;

fn wall(secs: i64, subsec_nanos: u32) -> WallTime {
    WallTime::new(secs, subsec_nanos).unwrap()
}

#[test]
fn new_refuses_a_full_second_of_nanoseconds() {
    assert!(WallTime::new(0, 999_999_999).is_some());
    assert_eq!(WallTime::new(0, 1_000_000_000), None);
    assert_eq!(WallTime::new(-3, u32::MAX), None);
    let t = wall(-3, 7);
    assert_eq!(t.secs(), -3);
    assert_eq!(t.subsec_nanos(), 7);
}

#[test]
fn unix_nanos_counts_from_the_epoch() {
    assert_eq!(wall(1, 5).unix_nanos(), Some(1_000_000_005));
    assert_eq!(wall(0, 0).unix_nanos(), Some(0));
    assert_eq!(wall(-1, 999_999_999).unix_nanos(), Some(-1));
    assert_eq!(wall(-2, 1).unix_nanos(), Some(-1_999_999_999));
    assert_eq!(wall(1_721_829_051, 211_301_916).unix_nanos(), Some(1_721_829_051_211_301_916));
    assert_eq!(wall(9_223_372_036, 854_775_807).unix_nanos(), Some(i64::MAX));
    assert_eq!(wall(9_223_372_036, 854_775_808).unix_nanos(), None);
    assert_eq!(wall(-9_223_372_037, 145_224_192).unix_nanos(), Some(i64::MIN));
    assert_eq!(wall(-9_223_372_037, 145_224_191).unix_nanos(), None);
    assert_eq!(wall(i64::MAX, 0).unix_nanos(), None);
    assert_eq!(wall(i64::MIN, 999_999_999).unix_nanos(), None);
}

#[test]
fn from_unix_nanos_splits_into_seconds_and_nanoseconds() {
    assert_eq!(WallTime::from_unix_nanos(1_000_000_005), wall(1, 5));
    assert_eq!(WallTime::from_unix_nanos(0), wall(0, 0));
    assert_eq!(WallTime::from_unix_nanos(-1), wall(-1, 999_999_999));
    assert_eq!(WallTime::from_unix_nanos(-1_000_000_000), wall(-1, 0));
    assert_eq!(WallTime::from_unix_nanos(i64::MAX), wall(9_223_372_036, 854_775_807));
    assert_eq!(WallTime::from_unix_nanos(i64::MIN), wall(-9_223_372_037, 145_224_192));
    for nanos in [i64::MIN, -1_999_999_999, -1, 0, 1, 1_721_829_051_211_301_916, i64::MAX] {
        assert_eq!(WallTime::from_unix_nanos(nanos).unix_nanos(), Some(nanos));
    }
}

#[test]
fn checked_add_nanos_carries() {
    assert_eq!(wall(1, 999_999_999).checked_add_nanos(2), Some(wall(2, 1)));
    assert_eq!(wall(1, 0).checked_add_nanos(0), Some(wall(1, 0)));
    assert_eq!(wall(-1, 999_999_999).checked_add_nanos(1), Some(wall(0, 0)));
    assert_eq!(wall(0, 1).checked_add_nanos(u64::MAX), Some(wall(18_446_744_073, 709_551_616)));
    assert_eq!(wall(i64::MAX, 999_999_998).checked_add_nanos(1), Some(wall(i64::MAX, 999_999_999)));
    assert_eq!(wall(i64::MAX, 999_999_999).checked_add_nanos(1), None);
    assert_eq!(wall(i64::MAX - 18_446_744_073, 290_448_385).checked_add_nanos(u64::MAX), None);
    assert_eq!(
        wall(i64::MAX - 18_446_744_073, 290_448_384).checked_add_nanos(u64::MAX),
        Some(wall(i64::MAX, 999_999_999))
    );
}

#[test]
fn checked_sub_nanos_borrows() {
    assert_eq!(wall(2, 1).checked_sub_nanos(2), Some(wall(1, 999_999_999)));
    assert_eq!(wall(0, 0).checked_sub_nanos(1), Some(wall(-1, 999_999_999)));
    assert_eq!(wall(10, 100).checked_sub_nanos(1_500_000_200), Some(wall(8, 499_999_900)));
    assert_eq!(wall(i64::MIN, 1).checked_sub_nanos(1), Some(wall(i64::MIN, 0)));
    assert_eq!(wall(i64::MIN, 0).checked_sub_nanos(1), None);
    assert_eq!(wall(i64::MIN + 18_446_744_073, 709_551_614).checked_sub_nanos(u64::MAX), None);
    assert_eq!(
        wall(i64::MIN + 18_446_744_073, 709_551_615).checked_sub_nanos(u64::MAX),
        Some(wall(i64::MIN, 0))
    );
}

#[test]
fn wall_times_are_apart_by_their_totals() {
    assert_eq!(wall(1, 0).signed_nanos_since(&wall(0, 999_999_999)), 1);
    assert_eq!(wall(1, 1).signed_nanos_since(&wall(1, 1)), 0);
    assert_eq!(wall(-1, 0).signed_nanos_since(&wall(1, 5)), -2_000_000_005);
    assert_eq!(
        wall(i64::MAX, 999_999_999).signed_nanos_since(&wall(i64::MIN, 0)),
        18_446_744_073_709_551_615_999_999_999
    );
    assert_eq!(
        wall(i64::MIN, 0).signed_nanos_since(&wall(i64::MAX, 999_999_999)),
        -18_446_744_073_709_551_615_999_999_999
    );
}

#[test]
fn instants_measure_spans() {
    let a = Instant::from_nanos(-5);
    let b = Instant::from_nanos(7);
    assert_eq!(a.abs_diff(&b), 12);
    assert_eq!(b.abs_diff(&a), 12);
    assert_eq!(Instant::from_nanos(i64::MIN).abs_diff(&Instant::from_nanos(i64::MAX)), u64::MAX);
    assert!(b.is_at_or_after(&a));
    assert!(a.is_at_or_after(&a));
    assert!(!a.is_at_or_after(&b));
    assert!(a < b);
    assert_eq!(a.checked_add_signed(12), Some(b));
    assert_eq!(b.checked_add_signed(-12), Some(a));
    assert_eq!(Instant::from_nanos(i64::MAX).checked_add_signed(1), None);
    assert_eq!(Instant::from_nanos(i64::MIN).checked_add_signed(-1), None);
    assert_eq!(Instant::from_nanos(0).checked_add_signed(i128::MAX), None);
    assert_eq!(Instant::from_nanos(0).checked_add_signed(i128::MIN), None);
    assert_eq!(
        Instant::from_nanos(i64::MIN).checked_add_signed(u64::MAX as i128),
        Some(Instant::from_nanos(i64::MAX))
    );
}

#[test]
fn instants_are_offsets_from_the_origin() {
    assert_eq!(Instant::from_offset(true, 5), Some(Instant::from_nanos(-5)));
    assert_eq!(Instant::from_offset(false, 5), Some(Instant::from_nanos(5)));
    assert_eq!(Instant::from_offset(true, 0), Some(Instant::from_nanos(0)));
    assert_eq!(Instant::from_offset(false, i64::MAX as u128), Some(Instant::from_nanos(i64::MAX)));
    assert_eq!(Instant::from_offset(false, i64::MAX as u128 + 1), None);
    assert_eq!(Instant::from_offset(true, i64::MAX as u128 + 1), Some(Instant::from_nanos(i64::MIN)));
    assert_eq!(Instant::from_offset(true, i64::MAX as u128 + 2), None);
    assert_eq!(Instant::from_offset(false, u128::MAX), None);
    assert_eq!(Instant::from_offset(true, u128::MAX), None);

    assert_eq!(Instant::from_nanos(-5).offset(), (true, 5));
    assert_eq!(Instant::from_nanos(5).offset(), (false, 5));
    assert_eq!(Instant::from_nanos(0).offset(), (false, 0));
    assert_eq!(Instant::from_nanos(i64::MIN).offset(), (true, 9_223_372_036_854_775_808));
    assert_eq!(Instant::from_nanos(i64::MAX).offset(), (false, 9_223_372_036_854_775_807));
}
