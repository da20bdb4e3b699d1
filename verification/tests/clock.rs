use tc_logsave::clock::{
    flatten_reading, now, now_raw, signed_unix_seconds, unix_seconds, NANOS_PER_SECOND,
};

#[test]
fn now_raw_reads_a_time_after_the_epoch() {
    let (after, seconds, nanos) = now_raw();
    assert!(after);
    assert!(seconds > 1_700_000_000);
    assert!(nanos < NANOS_PER_SECOND);
}

#[test]
fn now_is_the_seconds_of_now_raw() {
    let before = now_raw().1;
    let seconds = now().unwrap();
    let after = now_raw().1;
    assert!(before <= seconds && seconds <= after);
}

#[test]
fn a_reading_is_flattened() {
    assert_eq!(flatten_reading(Ok((12, 34))), (true, 12, 34));
    assert_eq!(flatten_reading(Err((56, 78))), (false, 56, 78));
}

#[test]
fn a_clock_before_the_epoch_has_no_timestamp() {
    assert_eq!(unix_seconds((true, 1_721_174_400, 5)), Some(1_721_174_400));
    assert_eq!(unix_seconds((true, 0, 0)), Some(0));
    assert_eq!(unix_seconds((true, u64::MAX, 0)), Some(u64::MAX));
    assert_eq!(unix_seconds((false, 3, 0)), None);
}

#[test]
fn signed_seconds_are_negative_before_the_epoch() {
    assert_eq!(signed_unix_seconds((true, 1_721_174_400, 0)), Some(1_721_174_400));
    assert_eq!(signed_unix_seconds((false, 3, 999)), Some(-3));
    assert_eq!(signed_unix_seconds((false, 0, 1)), Some(0));
    assert_eq!(signed_unix_seconds((true, i64::MAX as u64 - 1, 0)), Some(i64::MAX - 1));
    assert_eq!(signed_unix_seconds((false, i64::MAX as u64 - 1, 0)), Some(-(i64::MAX - 1)));
    assert_eq!(signed_unix_seconds((true, i64::MAX as u64, 0)), None);
    assert_eq!(signed_unix_seconds((false, u64::MAX, 0)), None);
}
