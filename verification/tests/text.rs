use heroi::calendar::{civil_time, format_iso8601, is_leap, now_iso8601, now_iso8601_pub, timestamp_at};
use heroi::ident::{uuid_from_seed, uuid_v4};
use heroi::text::{decimal_string, hexadecimal_string, join_path, same_text, trim_trailing};

#[test]
fn decimal_without_padding() {
    assert_eq!(decimal_string(0, 0), "0");
    assert_eq!(decimal_string(7, 1), "7");
    assert_eq!(decimal_string(3000, 0), "3000");
    assert_eq!(decimal_string(u64::MAX, 0), "18446744073709551615");
}

#[test]
fn decimal_with_padding() {
    assert_eq!(decimal_string(7, 2), "07");
    assert_eq!(decimal_string(0, 4), "0000");
    assert_eq!(decimal_string(12345, 4), "12345");
}

#[test]
fn hexadecimal_is_lower_case_and_padded() {
    assert_eq!(hexadecimal_string(0, 3), "000");
    assert_eq!(hexadecimal_string(0xABCDEF, 0), "abcdef");
    assert_eq!(hexadecimal_string(0x1f, 8), "0000001f");
    assert_eq!(hexadecimal_string(u128::MAX, 0), "ffffffffffffffffffffffffffffffff");
}

#[test]
fn paths_are_joined_with_one_slash() {
    assert_eq!(join_path("/repo", ".worktrees"), "/repo/.worktrees");
    assert_eq!(join_path("/repo/", ".worktrees"), "/repo/.worktrees");
    assert_eq!(join_path("", "x"), "x");
    assert_eq!(join_path("/repo", ""), "/repo/");
}

#[test]
fn absolute_child_replaces_the_base() {
    assert_eq!(join_path("/repo", "/elsewhere"), "/elsewhere");
}

#[test]
fn trailing_run_is_cut() {
    assert_eq!(trim_trailing("/repo///", '/'), "/repo");
    assert_eq!(trim_trailing("/repo", '/'), "/repo");
    assert_eq!(trim_trailing("///", '/'), "");
    assert_eq!(trim_trailing("", '/'), "");
    assert_eq!(trim_trailing("a/b/", '\\'), "a/b/");
}

#[test]
fn same_text_compares_characters() {
    assert!(same_text("abc", "abc"));
    assert!(!same_text("abc", "abd"));
    assert!(!same_text("abc", "ab"));
}

#[test]
fn leap_years() {
    assert!(is_leap(2024));
    assert!(is_leap(2000));
    assert!(!is_leap(1900));
    assert!(!is_leap(2023));
    assert!(is_leap(-4));
}

#[test]
fn epoch_is_the_first_of_january_1970() {
    assert_eq!(format_iso8601(0), "1970-01-01T00:00:00Z");
}

#[test]
fn known_timestamps() {
    assert_eq!(format_iso8601(1_700_000_000), "2023-11-14T22:13:20Z");
    assert_eq!(format_iso8601(951_782_400), "2000-02-29T00:00:00Z");
    assert_eq!(format_iso8601(1_709_251_199), "2024-02-29T23:59:59Z");
    assert_eq!(format_iso8601(1_709_251_200), "2024-03-01T00:00:00Z");
    assert_eq!(format_iso8601(1_735_689_599), "2024-12-31T23:59:59Z");
    assert_eq!(format_iso8601(4_102_444_800), "2100-01-01T00:00:00Z");
}

#[test]
fn civil_time_fields() {
    let t = civil_time(86_400 * 365 + 3_661);
    assert_eq!((t.year, t.month, t.day), (1971, 1, 1));
    assert_eq!((t.hour, t.minute, t.second), (1, 1, 1));
}

#[test]
fn timestamp_uses_whole_seconds() {
    assert_eq!(timestamp_at(1_700_000_000_999_999_999), "2023-11-14T22:13:20Z");
    assert_eq!(timestamp_at(999_999_999), "1970-01-01T00:00:00Z");
}

#[test]
fn now_has_the_shape_of_a_timestamp() {
    for text in [now_iso8601(), now_iso8601_pub()] {
        let bytes = text.as_bytes();
        assert_eq!(bytes.len(), 20);
        assert_eq!(bytes[4], b'-');
        assert_eq!(bytes[7], b'-');
        assert_eq!(bytes[10], b'T');
        assert_eq!(bytes[13], b':');
        assert_eq!(bytes[16], b':');
        assert_eq!(bytes[19], b'Z');
        assert!(text.as_str() > "2024-01-01T00:00:00Z");
    }
}

#[test]
fn uuid_of_zero() {
    assert_eq!(uuid_from_seed(0), "00000000-0000-4000-0080-000000000000");
}

#[test]
fn uuid_fields_come_from_the_bits_of_the_seed() {
    let seed: u128 = 0x0123_4567_89ab_cdef_0fed_cba9_8765_4321;
    let expected = format!(
        "{:08x}-{:04x}-4{:03x}-{:04x}-{:012x}",
        (seed & 0xFFFF_FFFF) as u32,
        ((seed >> 32) & 0xFFFF) as u16,
        ((seed >> 48) & 0x0FFF) as u16,
        (((seed >> 60) & 0x3F) | 0x80) as u16 | (((seed >> 66) & 0xFF) as u16) << 8,
        (seed >> 74) & 0xFFFF_FFFF_FFFF,
    );
    assert_eq!(uuid_from_seed(seed), expected);
    assert_eq!(uuid_from_seed(seed), "87654321-cba9-4fed-7bb0-48d159e26af3");
}

#[test]
fn uuid_of_the_largest_seed() {
    assert_eq!(uuid_from_seed(u128::MAX), "ffffffff-ffff-4fff-ffbf-ffffffffffff");
}

#[test]
fn fresh_uuid_has_the_shape() {
    let id = uuid_v4();
    let bytes = id.as_bytes();
    assert_eq!(bytes.len(), 36);
    assert_eq!(bytes[8], b'-');
    assert_eq!(bytes[13], b'-');
    assert_eq!(bytes[14], b'4');
    assert_eq!(bytes[18], b'-');
    assert_eq!(bytes[23], b'-');
}

#[test]
fn timestamps_of_the_far_future() {
    assert_eq!(format_iso8601(12_622_780_799), "2369-12-31T23:59:59Z");
    assert_eq!(format_iso8601(12_622_780_800), "2370-01-01T00:00:00Z");
    assert_eq!(format_iso8601(253_402_300_799), "9999-12-31T23:59:59Z");
    assert_eq!(format_iso8601(253_402_300_800), "10000-01-01T00:00:00Z");
    assert_eq!(format_iso8601(u64::MAX), "584554051223-11-09T07:00:15Z");
    assert_eq!(timestamp_at(u128::MAX), "584554051223-11-09T07:00:15Z");
}

#[test]
fn every_day_of_four_centuries_follows_the_one_before() {
    let mut expected = (1970u64, 1u64, 1u64);
    for day in 0..146_097u64 * 2 {
        let t = civil_time(day * 86_400 + 86_399);
        assert_eq!((t.year, t.month, t.day), expected, "day {}", day);
        assert_eq!((t.hour, t.minute, t.second), (23, 59, 59));
        let days_in_month = match expected.1 {
            2 => {
                if is_leap(expected.0 as i64) {
                    29
                } else {
                    28
                }
            }
            4 | 6 | 9 | 11 => 30,
            _ => 31,
        };
        expected = if expected.2 < days_in_month {
            (expected.0, expected.1, expected.2 + 1)
        } else if expected.1 < 12 {
            (expected.0, expected.1 + 1, 1)
        } else {
            (expected.0 + 1, 1, 1)
        };
    }
    assert_eq!(expected, (2770, 1, 1));
}

const TRICKY: [&str; 28] = [
    "",
    " ",
    "a",
    "  a  ",
    "\ta b\n",
    "\n",
    "\n\n",
    "a\n",
    "a\nb",
    "a\n\nb\n",
    "a\r\nb\r\n",
    "a\r",
    "a\r\r\n",
    "\r\n",
    "\r",
    "\r\n\r\n",
    "a\rb\nc",
    "\u{a0}x\u{a0}",
    "\u{3000}x y\u{2028}",
    "\u{200b}x\u{200b}",
    "\u{1680}\u{2000}\u{200a}\u{202f}\u{205f}z\u{85}",
    "\u{b}\u{c}w\u{1c}",
    "é\n ü \r\n",
    "no newline at end",
    "  \n  \n",
    "x\n\r",
    "\n\r\n\r",
    "tab\tinside",
];

#[test]
fn trimming_agrees_with_the_standard_library() {
    for text in TRICKY {
        assert_eq!(heroi::text::trim_text(text), text.trim(), "trimming {:?}", text);
    }
}

#[test]
fn lines_agree_with_the_standard_library() {
    for text in TRICKY {
        let expected: Vec<&str> = text.lines().collect();
        assert_eq!(heroi::text::split_lines(text), expected, "lines of {:?}", text);
    }
}

#[test]
fn white_space_is_what_the_standard_library_calls_so() {
    for code in 0..=0x3100u32 {
        if let Some(c) = char::from_u32(code) {
            let text = c.to_string();
            assert_eq!(
                heroi::text::trim_text(&text).is_empty(),
                c.is_whitespace(),
                "character {:#x}",
                code
            );
        }
    }
}

#[test]
fn characters_are_read_one_by_one() {
    assert_eq!(heroi::text::chars_of("aé\u{1F600}"), vec!['a', 'é', '\u{1F600}']);
    assert!(heroi::text::chars_of("").is_empty());
}

#[test]
fn long_outputs_are_split_quickly() {
    let mut text = String::new();
    for i in 0..50_000 {
        text.push_str("src/dir/file_");
        text.push_str(&i.to_string());
        text.push_str(".rs\r\n");
    }
    let lines = heroi::text::split_lines(&text);
    assert_eq!(lines.len(), 50_000);
    assert_eq!(lines[49_999], "src/dir/file_49999.rs");
    assert_eq!(heroi::text::count_non_empty(&lines), 50_000);
}
