use capture_engine::capture_error::{
    blank, white_space, BuilderError, CaptureErrorKind, NetworkErrorKind,
};
use capture_engine::text::{decimal, numbered, text_before};
use capture_engine::time::{Duration, Timestamp};

#[test]
fn decimal_renders_like_the_standard_library() {
    for n in [0u64, 1, 9, 10, 11, 99, 100, 101, 12345, 1_000_000_007, u64::MAX] {
        assert_eq!(decimal(n as u128), n.to_string());
    }
    assert_eq!(decimal(u128::MAX), u128::MAX.to_string());
    assert_eq!(numbered("tx-", 42), "tx-42");
    assert_eq!(numbered("", 0), "0");
}

#[test]
fn text_order_is_the_order_of_strings() {
    let samples = ["", "a", "aa", "ab", "b", "eth0", "eth1", "eth10", "Z", "é", "\u{10000}"];
    for a in samples {
        for b in samples {
            assert_eq!(text_before(a, b), a < b, "{:?} before {:?}", a, b);
        }
    }
}

#[test]
fn blank_is_what_trimming_leaves_empty() {
    for text in ["", " ", "\t\n", "\u{a0}\u{2003}", "x", " x ", "\u{200b}"] {
        assert_eq!(blank(text), text.trim().is_empty(), "{:?}", text);
    }
}

#[test]
fn durations_are_whole_nanoseconds() {
    assert_eq!(Duration::from_secs(2).as_nanos(), 2_000_000_000);
    assert_eq!(Duration::from_millis(3).as_nanos(), 3_000_000);
    assert_eq!(Duration::from_nanos(1_999_999).as_millis(), 1);
    assert_eq!(Duration::from_secs(u64::MAX).as_nanos(), u64::MAX as u128 * 1_000_000_000);
    assert!(Duration::zero().is_zero());
    assert!(!Duration::from_nanos(1).is_zero());
    assert_eq!(Duration::from_nanos((1u128 << 64) + 5).low_nanos(), 5);
    assert!(Duration::from_millis(999) < Duration::from_secs(1));
}

#[test]
fn timestamps_measure_and_compare() {
    let early = Timestamp::from_nanos(100);
    let late = Timestamp::from_nanos(350);
    assert_eq!(late.duration_since(early), Some(Duration::from_nanos(250)));
    assert_eq!(early.duration_since(late), None);
    assert_eq!(early.duration_since(early), Some(Duration::zero()));
    assert!(early.is_older_than(Duration::from_nanos(249), late));
    assert!(!early.is_older_than(Duration::from_nanos(250), late));
    assert!(!late.is_older_than(Duration::zero(), early));
    assert!(early < late);
    let now = Timestamp::now();
    assert!(now.as_nanos() > 1_600_000_000u128 * 1_000_000_000);
}

#[test]
fn kinds_and_builder_errors_describe_themselves() {
    let kind = CaptureErrorKind::Network(NetworkErrorKind::Timeout);
    assert_eq!(kind.describe(), "Network(Timeout)");
    assert_eq!(kind.category(), "Network");
    assert_eq!(kind.detail(), "Timeout");
    assert_eq!(BuilderError::MissingKind.to_string(), "missing error kind");
    assert_eq!(BuilderError::MissingMessage.to_string(), "missing error message");
}

#[test]
fn white_space_is_what_the_standard_library_calls_so() {
    let mut found = 0;
    for point in 0..=0x10FFFFu32 {
        if let Some(c) = char::from_u32(point) {
            assert_eq!(white_space(c), c.is_whitespace(), "U+{:04X}", point);
            if white_space(c) {
                found += 1;
            }
        }
    }
    assert_eq!(found, 25);
}

#[test]
fn error_text_names_message_kind_and_time() {
    let error = capture_engine::capture_error::CaptureError::new(
        CaptureErrorKind::Network(NetworkErrorKind::Timeout),
        "Connection timed out",
    );
    let expected = format!(
        "Connection timed out (kind: Network(Timeout), timestamp: {})",
        error.timestamp().as_nanos()
    );
    assert_eq!(error.to_string(), expected);
}
