use datafusion_fuzzer::whitelist::{get_configured_patterns, is_error_whitelisted};

/// An exact pattern matches its own full text.
#[test]
fn whitelist_exact_full_match() {
    assert!(is_error_whitelisted("Arrow error: Divide by zero error"));
}

/// An exact pattern matches as a substring, not only as a full match.
#[test]
fn whitelist_exact_substring_match() {
    assert!(is_error_whitelisted(
        "Query failed: while running: Arrow error: Divide by zero error in batch 3"
    ));
}

/// Exact patterns are case-sensitive.
#[test]
fn whitelist_exact_is_case_sensitive() {
    assert!(!is_error_whitelisted("ARROW ERROR: DIVIDE BY ZERO ERROR"));
}

/// The empty message matches nothing.
#[test]
fn whitelist_empty_message() {
    assert!(!is_error_whitelisted(""));
}

/// An unrelated message matches nothing.
#[test]
fn whitelist_unrelated_message() {
    assert!(!is_error_whitelisted("Some unrelated error"));
}

/// A regex pattern matches with flexible fill-in text, and its `(?i)`
/// flag makes it case-insensitive.
#[test]
fn whitelist_regex_match() {
    assert!(is_error_whitelisted(
        "Error during planning: Cannot coerce arithmetic expression Int32 + Utf8 to valid types"
    ));
    assert!(is_error_whitelisted(
        "query execution failed: arrow error: cast error: value of -3 is out of range uint32"
    ));
    // Without the fill-in text the regex does not match.
    assert!(!is_error_whitelisted(
        "Error during planning: Cannot coerce arithmetic expression"
    ));
}

/// The other exact patterns match too.
#[test]
fn whitelist_other_exact_patterns() {
    assert!(is_error_whitelisted("xx Invalid timestamp arithmetic operation yy"));
    assert!(is_error_whitelisted("Projections require unique expression names"));
}

/// The configured pattern listing names each pattern with its kind.
#[test]
fn whitelist_pattern_listing() {
    let patterns = get_configured_patterns();
    assert_eq!(patterns.len(), 5);
    assert_eq!(patterns[0], "Exact: Arrow error: Divide by zero error");
    assert!(patterns[1].starts_with("Regex: "));
    assert!(patterns[2].starts_with("Regex: "));
    assert_eq!(patterns[3], "Exact: Invalid timestamp arithmetic operation");
    assert_eq!(patterns[4], "Exact: Projections require unique expression names");
}
