use fluffy_core::telemetry::kib_to_mb;
use fluffy_core::text::{concat2, contains, double_single_quotes, ends_with, equals_ignoring_ascii_case, starts_with, texts_equal};

#[test]
fn quote_doubling() {
    assert_eq!(double_single_quotes("it's"), "it''s");
    assert_eq!(double_single_quotes("''"), "''''");
    assert_eq!(double_single_quotes(""), "");
    assert_eq!(double_single_quotes("plain"), "plain");
}

#[test]
fn affixes_and_search() {
    assert!(ends_with("App (HKCU)", " (HKCU)"));
    assert!(!ends_with("(HKCU)", " (HKCU)"));
    assert!(starts_with("/usr/bin", "/usr"));
    assert!(!starts_with("/us", "/usr"));
    assert!(contains("File not found: x", "not found"));
    assert!(contains("abc", ""));
    assert!(!contains("ab", "abc"));
    assert!(texts_equal("é", "é"));
    assert!(!texts_equal("a", "b"));
    assert_eq!(concat2("a", "é"), "aé");
}

#[test]
fn ascii_case_folding() {
    assert!(equals_ignoring_ascii_case("LSASS.exe", "lsass.EXE"));
    assert!(!equals_ignoring_ascii_case("lsass", "lsass.exe"));
    assert!(!equals_ignoring_ascii_case("[", "{"));
}

#[test]
fn memory_in_whole_mebibytes() {
    assert_eq!(kib_to_mb(0), 0);
    assert_eq!(kib_to_mb(1024 * 1024 - 1), 0);
    assert_eq!(kib_to_mb(3 * 1024 * 1024 + 5), 3);
    assert_eq!(kib_to_mb(u64::MAX), 17592186044415);
}
