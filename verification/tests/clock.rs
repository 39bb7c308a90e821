use dbh_insights_helper::clock::{nanos_of, nanos_since_epoch};
use std::time::{Duration, SystemTime};

#[test]
fn counts_nanoseconds_like_duration() {
    assert_eq!(nanos_of(None), 0);
    assert_eq!(nanos_of(Some((0, 0))), 0);
    assert_eq!(nanos_of(Some((1, 5))), 1_000_000_005);
    for span in [(0, 999_999_999), (1_700_000_000, 123_456_789), (u64::MAX, 999_999_999)] {
        assert_eq!(nanos_of(Some(span)), Duration::new(span.0, span.1).as_nanos());
    }
}

#[test]
fn reads_the_clock() {
    let now = || SystemTime::now().duration_since(SystemTime::UNIX_EPOCH).unwrap().as_nanos();
    let before = now();
    let read = nanos_since_epoch();
    let after = now();
    assert!(before <= read && read <= after, "{before} {read} {after}");
}
