use yt_clipper::probe::{duration_millis, summarize_probe, summary_of, tallest, ProbeError};
use yt_clipper::text::{decimal_text, parse_fixed, parse_uint, split, trimmed, FIELD_LIMIT};

#[test]
fn numerals() {
    assert_eq!(decimal_text(0), "0");
    assert_eq!(decimal_text(1234567890), "1234567890");
    assert_eq!(decimal_text(u64::MAX), "18446744073709551615");
    assert_eq!(parse_uint("007"), Some(7));
    assert_eq!(parse_uint(""), None);
    assert_eq!(parse_uint("1a"), None);
    assert_eq!(parse_uint("999999999"), Some(FIELD_LIMIT));
    assert_eq!(parse_uint("1000000000"), None);
    assert_eq!(parse_fixed("45.0", 2), Some(4500));
    assert_eq!(parse_fixed("05.5", 3), Some(5500));
    assert_eq!(parse_fixed("3", 2), Some(300));
    assert_eq!(parse_fixed("3.", 2), None);
    assert_eq!(parse_fixed(".5", 2), None);
}

#[test]
fn splitting_and_trimming() {
    assert_eq!(split("a||b", '|'), vec!["a", "", "b"]);
    assert_eq!(split("", '|'), vec![""]);
    assert_eq!(trimmed(" \tx y \t"), "x y");
    assert_eq!(trimmed("   "), "");
}

#[test]
fn probe_document() {
    let doc = r#"{"title":"A clip","duration":212.5,"formats":[{"height":360,"url":"u1"},{"height":2160},{"height":null},{"acodec":"opus"}]}"#;
    let s = summarize_probe(doc).unwrap();
    assert_eq!(s.title, "A clip");
    assert_eq!(s.duration_ms, 212_500);
    assert_eq!(s.max_height, 2160);
}

#[test]
fn probe_document_with_missing_fields() {
    let s = summarize_probe(r#"{"height":720,"duration":30}"#).unwrap();
    assert_eq!(s.title, "Unknown Title");
    assert_eq!(s.duration_ms, 30_000);
    assert_eq!(s.max_height, 720);
    assert!(matches!(summarize_probe("not json"), Err(ProbeError::Malformed(why)) if !why.is_empty()));
    let empty = summarize_probe("[]").unwrap();
    assert_eq!(empty.title, "Unknown Title");
    assert_eq!(empty.duration_ms, 0);
    assert_eq!(empty.max_height, 0);
}

#[test]
fn heights_and_durations() {
    assert_eq!(tallest(&vec![]), 0);
    assert_eq!(tallest(&vec![720, 4320, 1080]), 4320);
    assert_eq!(duration_millis("65.5"), 65_500);
    assert_eq!(duration_millis("1e3"), 0);
}

#[test]
fn summary_from_read_values() {
    let s = summary_of(None, Some("12.25".to_string()), &vec![480, 1440]);
    assert_eq!(s.title, "Unknown Title");
    assert_eq!(s.duration_ms, 12_250);
    assert_eq!(s.max_height, 1440);
    let t = summary_of(Some("T".to_string()), Some("null".to_string()), &vec![]);
    assert_eq!(t.title, "T");
    assert_eq!(t.duration_ms, 0);
    assert_eq!(t.max_height, 0);
}

#[test]
fn probe_duration_must_be_a_number() {
    let s = summarize_probe(r#"{"title":7,"duration":"65","formats":{"height":480}}"#).unwrap();
    assert_eq!(s.title, "Unknown Title");
    assert_eq!(s.duration_ms, 0);
    assert_eq!(s.max_height, 0);
}
