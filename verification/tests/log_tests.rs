//! The transcription log: identifiers, day grouping, ordering, and
//! deletion.  The day grouping is checked against chrono, the same
//! calendar the library leans on.

use chrono::Datelike;
use voice_input::log::{format_date_key, valid_date, LogEntry, LogManager};

fn entry(id: &str, millis: u64, text: &str) -> LogEntry {
    LogEntry {
        id: id.to_string(),
        timestamp_millis: millis,
        raw_text: text.to_string(),
        refined_text: None,
        llm_used: false,
        prompt_preset: None,
    }
}

#[test]
fn test_generate_id() {
    let id1 = LogManager::generate_id();
    let _id2 = LogManager::generate_id();
    assert!(!id1.is_empty());
    // IDs should be unique (though in a tight loop they might be the same)
}

#[test]
fn test_add_entry_fields() {
    let mut m = LogManager::new().unwrap();
    let e = m
        .add_entry("words".to_string(), Some("Words.".to_string()), true, Some("Default".to_string()))
        .unwrap();
    assert_eq!(e.raw_text, "words");
    assert_eq!(e.refined_text.as_deref(), Some("Words."));
    assert!(e.llm_used);
    assert_eq!(e.prompt_preset.as_deref(), Some("Default"));
    assert!(!e.id.is_empty());
    assert_eq!(m.entries.len(), 1);
    assert_eq!(m.entries[0].id, e.id);
}

#[test]
fn test_logs_for_date_groups_by_utc_day() {
    let mut m = LogManager::new().unwrap();
    // 1970-01-01, twice, and one entry a day later.
    m.entries.push(entry("a", 0, "first"));
    m.entries.push(entry("b", 23 * 3600 * 1000, "second"));
    m.entries.push(entry("c", 25 * 3600 * 1000, "third"));

    let day_one = m.get_logs_for_date(1970, 1, 1);
    assert_eq!(day_one.len(), 2);
    assert_eq!(day_one[0].raw_text, "first");
    assert_eq!(day_one[1].raw_text, "second");

    let day_two = m.get_logs_for_date(1970, 1, 2);
    assert_eq!(day_two.len(), 1);
    assert_eq!(day_two[0].raw_text, "third");
}

#[test]
fn test_logs_for_date_against_chrono() {
    let millis: u64 = 1_700_000_000_000;
    let dt = chrono::DateTime::<chrono::Utc>::from_timestamp_millis(millis as i64).unwrap();
    let mut m = LogManager::new().unwrap();
    m.entries.push(entry("x", millis, "hello"));
    let found = m.get_logs_for_date(dt.year(), dt.month(), dt.day());
    assert_eq!(found.len(), 1);
    assert_eq!(found[0].raw_text, "hello");
}

#[test]
fn test_logs_for_invalid_date_empty() {
    let mut m = LogManager::new().unwrap();
    m.entries.push(entry("a", 0, "first"));
    assert!(m.get_logs_for_date(1970, 2, 30).is_empty());
    assert!(m.get_logs_for_date(1970, 13, 1).is_empty());
    assert!(m.get_logs_for_date(1970, 0, 1).is_empty());
}

#[test]
fn test_valid_date_leap_years() {
    assert!(valid_date(2024, 2, 29));
    assert!(!valid_date(2023, 2, 29));
    assert!(!valid_date(1900, 2, 29));
    assert!(valid_date(2000, 2, 29));
    assert!(valid_date(2023, 12, 31));
    assert!(!valid_date(2023, 4, 31));
}

#[test]
fn test_format_date_key_padded() {
    assert_eq!(format_date_key(1970, 1, 1), "1970-01-01");
    assert_eq!(format_date_key(33, 11, 5), "0033-11-05");
}

#[test]
fn test_recent_logs_sorted_and_limited() {
    let mut m = LogManager::new().unwrap();
    m.entries.push(entry("a", 500, "older"));
    m.entries.push(entry("b", 1500, "newest"));
    m.entries.push(entry("c", 1000, "newer"));
    m.entries.push(entry("d", 100, "oldest"));

    let recent = m.get_recent_logs(3);
    assert_eq!(recent.len(), 3);
    assert_eq!(recent[0].raw_text, "newest");
    assert_eq!(recent[1].raw_text, "newer");
    assert_eq!(recent[2].raw_text, "older");

    let all = m.get_recent_logs(50);
    assert_eq!(all.len(), 4);
    assert_eq!(all[3].raw_text, "oldest");
}

#[test]
fn test_available_dates_distinct_and_newest_first() {
    let mut m = LogManager::new().unwrap();
    let day_ms: u64 = 24 * 3600 * 1000;
    m.entries.push(entry("a", 0, "epoch day"));
    m.entries.push(entry("b", 12 * 3600 * 1000, "same epoch day"));
    m.entries.push(entry("c", 40 * day_ms, "february"));
    m.entries.push(entry("d", 400 * day_ms, "next year"));

    let dates = m.get_available_dates();
    assert_eq!(dates, vec!["1971-02-05", "1970-02-10", "1970-01-01"]);
}

#[test]
fn test_delete_entry() {
    let mut m = LogManager::new().unwrap();
    m.entries.push(entry("a", 1, "one"));
    m.entries.push(entry("b", 2, "two"));
    assert_eq!(m.delete_entry("a"), Ok(true));
    assert_eq!(m.entries.len(), 1);
    assert_eq!(m.entries[0].id, "b");
    assert_eq!(m.delete_entry("a"), Ok(false));
}

#[test]
fn test_delete_all_entries() {
    let mut m = LogManager::new().unwrap();
    m.entries.push(entry("a", 1, "one"));
    m.entries.push(entry("b", 2, "two"));
    assert_eq!(m.delete_all_entries(), Ok(2));
    assert!(m.entries.is_empty());
}
