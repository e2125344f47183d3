use oofbot::logger::log_line;
use oofbot::mention::{channel_mention, user_mention};
use oofbot::text::{chars_of, count_occurrences, decimal_string, str_contains, str_equal};

#[test]
fn decimal_of_zero_and_large_ids() {
    assert_eq!(decimal_string(0), "0");
    assert_eq!(decimal_string(7), "7");
    assert_eq!(decimal_string(10), "10");
    assert_eq!(decimal_string(453344368913547265), "453344368913547265");
    assert_eq!(decimal_string(u64::MAX), "18446744073709551615");
}

#[test]
fn mentions_render_like_discord() {
    assert_eq!(user_mention(612070962913083405), "<@612070962913083405>");
    assert_eq!(channel_mention(42), "<#42>");
}

#[test]
fn contains_finds_infixes() {
    assert!(str_contains("hey @everyone look", "@everyone"));
    assert!(!str_contains("hey @every one", "@everyone"));
    assert!(str_contains("abc", ""));
    assert!(!str_contains("", "a"));
    assert!(str_contains("ünïcödé @here", "@here"));
}

#[test]
fn occurrences_are_counted_left_to_right() {
    let needle = chars_of("@someone");
    assert_eq!(count_occurrences(&chars_of("@someone"), &needle), 1);
    assert_eq!(count_occurrences(&chars_of("@someone and @someone"), &needle), 2);
    assert_eq!(count_occurrences(&chars_of("@someone@someone"), &needle), 2);
    assert_eq!(count_occurrences(&chars_of("@someon @someone"), &needle), 1);
    assert_eq!(count_occurrences(&chars_of("nobody"), &needle), 0);
    let aa = chars_of("aa");
    assert_eq!(count_occurrences(&chars_of("aaa"), &aa), 1);
    assert_eq!(count_occurrences(&chars_of("aaaa"), &aa), 2);
}

#[test]
fn string_equality() {
    assert!(str_equal("^", "^"));
    assert!(!str_equal("^", "^^"));
    assert!(!str_equal("a", "b"));
}

#[test]
fn log_lines_pad_time_fields() {
    assert_eq!(log_line(1, 2, 3, "INFO", "Starting oofbot"), "[01:02:03][INFO] Starting oofbot");
    assert_eq!(log_line(23, 59, 10, "VOICE/ERROR", "x"), "[23:59:10][VOICE/ERROR] x");
}
