use cutie::dates::{
    date_is_before, format_naive_date, local_datetime_to_instant, parse_naive_date, parse_naive_date_or_error,
    parse_naive_datetime, parse_naive_time, CalendarDate, CalendarDateTime, ClockTime,
};
use cutie::ids::{parse_uuid, uuid_to_string};
use cutie::text::{is_blank_text, replace_text, split_double_colon, str_less, trim, trimmed_string, utf8_len_exceeds};
use cutie::validation::validate_title;

#[test]
fn trimming_follows_unicode_whitespace() {
    assert_eq!(trim("\u{3000} 任务 \n"), "任务");
    assert_eq!(trimmed_string("  a b  "), "a b");
    assert!(is_blank_text(" \t\r\n"));
    assert!(!is_blank_text(" x "));
}

#[test]
fn views_split_at_the_first_double_colon() {
    assert_eq!(split_double_colon("daily::2025-01-01"), ("daily", Some("2025-01-01")));
    assert_eq!(split_double_colon("a::b::c"), ("a", Some("b")));
    assert_eq!(split_double_colon("misc"), ("misc", None));
}

#[test]
fn text_order_and_byte_lengths() {
    assert!(str_less("2025-01-01", "2025-01-02"));
    assert!(!str_less("2025-01-02", "2025-01-02"));
    assert!(str_less("abc", "abcd"));
    assert!(utf8_len_exceeds("éé", 3));
    assert!(!utf8_len_exceeds("éé", 4));
    assert_eq!(replace_text("a-b-c", "-", ""), "abc");
}

#[test]
fn title_errors_count_bytes_not_characters() {
    assert!(validate_title(&"字".repeat(85)).is_ok());
    assert!(validate_title(&"字".repeat(86)).is_err());
}

#[test]
fn chrono_wrappers() {
    let d = parse_naive_date("2024-02-29", "%Y-%m-%d").unwrap();
    assert_eq!((d.year, d.month, d.day), (2024, 2, 29));
    assert!(parse_naive_date("2023-02-29", "%Y-%m-%d").is_none());
    assert!(parse_naive_date_or_error("2023-02-29", "%Y-%m-%d").unwrap_err().len() > 0);
    assert_eq!(format_naive_date(&CalendarDate { year: 7, month: 3, day: 4 }, "%Y-%m-%d"), "0007-03-04");
    let t = parse_naive_time("23:59:58", "%H:%M:%S").unwrap();
    assert_eq!((t.hour, t.minute, t.second), (23, 59, 58));
    assert!(parse_naive_time("24:00:00", "%H:%M:%S").is_none());
    let dt = parse_naive_datetime("2025-03-01T08:30", "%Y-%m-%dT%H:%M").unwrap();
    assert_eq!((dt.date.day, dt.time.hour, dt.time.minute), (1, 8, 30));
    let noon = CalendarDateTime { date: CalendarDate { year: 2025, month: 6, day: 1 }, time: ClockTime { hour: 12, minute: 0, second: 0 } };
    assert!(local_datetime_to_instant(&noon).is_some());
    assert!(date_is_before(&CalendarDate { year: 2024, month: 12, day: 31 }, &CalendarDate { year: 2025, month: 1, day: 1 }));
}

#[test]
fn uuid_wrappers() {
    assert_eq!(uuid_to_string(0x67e5504410b1426f9247bb680e5fe0c8), "67e55044-10b1-426f-9247-bb680e5fe0c8");
    assert_eq!(parse_uuid("67e55044-10b1-426f-9247-bb680e5fe0c8").unwrap(), 0x67e5504410b1426f9247bb680e5fe0c8);
    assert!(parse_uuid("67e55044").is_err());
}
