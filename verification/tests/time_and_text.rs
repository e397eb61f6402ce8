use slippybot::text::sorts_before;
use slippybot::schedule::{format_date, local_offset_at};
use slippybot::time::{timestamp_from_clock, utc_now, ClockReading, Timestamp, CLOCK_FLOOR_SECS, LATEST_SECS};

#[test]
fn timestamps_order_by_seconds_then_nanos() {
    let a = Timestamp { secs: 10, nanos: 5 };
    let b = Timestamp { secs: 10, nanos: 6 };
    let c = Timestamp { secs: 11, nanos: 0 };
    assert!(a.is_before(&b));
    assert!(b.is_before(&c));
    assert!(!b.is_before(&a));
    assert!(!a.is_before(&a));
}

#[test]
fn one_minute_earlier() {
    let t = Timestamp { secs: 1000, nanos: 7 };
    assert_eq!(t.minus_one_minute(), Timestamp { secs: 940, nanos: 7 });
}

#[test]
fn the_clock_is_after_2024() {
    let now = utc_now();
    assert!(now.secs > 1704067200);
    assert!(now.nanos < 1_000_000_000);
}

#[test]
fn text_order() {
    assert!(sorts_before("apple", "banana"));
    assert!(sorts_before("app", "apple"));
    assert!(!sorts_before("apple", "app"));
    assert!(!sorts_before("same", "same"));
    assert!(sorts_before("", "a"));
    assert!(sorts_before("Z", "a"));
    assert!(sorts_before("z", "é"));
}

#[test]
fn clock_readings_become_timestamps() {
    assert_eq!(timestamp_from_clock(ClockReading::SinceEpoch(5, 7)), Timestamp { secs: 5, nanos: 7 });
    assert_eq!(timestamp_from_clock(ClockReading::BeforeEpoch(5, 0)), Timestamp { secs: -5, nanos: 0 });
    assert_eq!(
        timestamp_from_clock(ClockReading::BeforeEpoch(5, 250_000_000)),
        Timestamp { secs: -6, nanos: 750_000_000 }
    );
    assert_eq!(timestamp_from_clock(ClockReading::SinceEpoch(u64::MAX, 3)), Timestamp { secs: LATEST_SECS, nanos: 0 });
    assert_eq!(timestamp_from_clock(ClockReading::BeforeEpoch(u64::MAX, 1)), Timestamp { secs: CLOCK_FLOOR_SECS, nanos: 0 });
}

#[test]
fn dates_are_written_at_an_offset() {
    // 2024-01-01T20:00:00Z
    let t = Timestamp { secs: 1704139200, nanos: 0 };
    assert_eq!(format_date(t, 0), "Monday, January  1, at  8:00 PM");
    assert_eq!(format_date(t, 5 * 3600), "Tuesday, January  2, at  1:00 AM");
    let offset = local_offset_at(t);
    assert!(-86400 < offset && offset < 86400);
}
