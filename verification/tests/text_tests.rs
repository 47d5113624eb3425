use shamrock_it::info::{
    asset_destination, get_datetime, get_pc_name, get_user, log_builder, LocalDateTime,
};
use shamrock_it::text::{decimal_text, join_texts, split_lines, trim_chars, TrimSet};

#[test]
fn get_user_trims_whitespace() {
    assert_eq!(get_user("  bob\t\r\n"), "bob");
    assert_eq!(get_user("\u{3000}ana maria\u{a0}\u{2028}"), "ana maria");
    assert_eq!(get_user(""), "");
    assert_eq!(get_user(" \t "), "");
}

#[test]
fn get_pc_name_trims_whitespace() {
    assert_eq!(get_pc_name("\u{85}DESKTOP-01 "), "DESKTOP-01");
    assert_eq!(get_pc_name("PC"), "PC");
}

#[test]
fn trim_quotes_removes_only_outer_quotes() {
    assert_eq!(trim_chars("\"\"Printer \"x\" Support\"", TrimSet::Quote), "Printer \"x\" Support");
    assert_eq!(trim_chars("\"\"", TrimSet::Quote), "");
    assert_eq!(trim_chars("null", TrimSet::Quote), "null");
}

#[test]
fn split_lines_follows_str_lines() {
    assert_eq!(split_lines("a\r\nb\n"), vec!["a", "b"]);
    assert_eq!(split_lines(""), Vec::<String>::new());
    assert_eq!(split_lines("\n"), vec![""]);
    assert_eq!(split_lines("a\r"), vec!["a\r"]);
    assert_eq!(split_lines("a\n\nb"), vec!["a", "", "b"]);
    let text = "x\r\ny\nz\n\n";
    assert_eq!(split_lines(text), text.lines().collect::<Vec<_>>());
}

#[test]
fn join_texts_puts_separator_between_parts() {
    let parts = vec!["a".to_string(), "b".to_string(), "c".to_string()];
    assert_eq!(join_texts(&parts, "\n"), "a\nb\nc");
    assert_eq!(join_texts(&Vec::new(), ","), "");
    assert_eq!(join_texts(&vec!["x".to_string()], ","), "x");
}

#[test]
fn decimal_text_writes_numerals() {
    assert_eq!(decimal_text(0), "0");
    assert_eq!(decimal_text(7), "7");
    assert_eq!(decimal_text(10), "10");
    assert_eq!(decimal_text(1234567), "1234567");
    assert_eq!(decimal_text(u32::MAX), u32::MAX.to_string());
}

#[test]
fn user_folders_are_formatted() {
    assert_eq!(log_builder("bob"), "C:/Users/bob/AppData/Local/ShamRock-it-log/");
    assert_eq!(asset_destination("bob"), "C:/Users/bob/Downloads/assets");
}

fn at(year: i32, month: u32, day: u32, hour: u32, minute: u32) -> LocalDateTime {
    LocalDateTime { year, month, day, hour, minute, second: 0 }
}

#[test]
fn get_datetime_formats_ticket_times() {
    assert_eq!(get_datetime(&at(2024, 1, 1, 9, 5)), Some("Mon, Jan 01, 2024 at 09:05 AM".to_string()));
    assert_eq!(get_datetime(&at(2023, 12, 31, 13, 7)), Some("Sun, Dec 31, 2023 at 01:07 PM".to_string()));
    assert_eq!(get_datetime(&at(2024, 2, 29, 0, 0)), Some("Thu, Feb 29, 2024 at 12:00 AM".to_string()));
}

#[test]
fn get_datetime_refuses_impossible_dates() {
    assert_eq!(get_datetime(&at(2023, 2, 29, 10, 0)), None);
    assert_eq!(get_datetime(&at(2023, 4, 1, 24, 0)), None);
}
