use pibot::extract::extract_number;

#[test]
fn test_extract_number() {
    assert_eq!(extract_number("@pisearch 12345"), Some("12345".to_string()));
    assert_eq!(extract_number("@pisearch 67890"), Some("67890".to_string()));
    assert_eq!(
        extract_number("@pisearch 123-456-7890"),
        Some("1234567890".to_string())
    );
    assert_eq!(extract_number("No number here"), None);
    assert_eq!(extract_number("@pisearch"), None);
    assert_eq!(extract_number("@pisearch -"), None);
    assert_eq!(extract_number("@pisearch 123-"), Some("123".to_string()));
    assert_eq!(
        extract_number("Hey @pisearch.bsky.social where is 2025-03-09 in Pi?"),
        Some("20250309".to_string())
    );
}

#[test]
fn extract_empty_text_yields_none() {
    assert_eq!(extract_number(""), None);
}

#[test]
fn extract_trigger_at_end_yields_none() {
    assert_eq!(extract_number("find me @pisearch"), None);
}

#[test]
fn extract_only_hyphens_after_trigger_yields_none() {
    assert_eq!(extract_number("@pisearch --- -- -"), None);
}

#[test]
fn extract_uses_first_trigger_occurrence() {
    // The digits after the second trigger are still the first digits after
    // the first trigger, so they are captured.
    assert_eq!(
        extract_number("a @pisearch and @pisearch 55"),
        Some("55".to_string())
    );
}

#[test]
fn extract_ignores_digits_before_trigger() {
    assert_eq!(extract_number("123 then @pisearch, nothing"), None);
    assert_eq!(
        extract_number("123 then @pisearch 456"),
        Some("456".to_string())
    );
}

#[test]
fn extract_capture_stops_at_non_digit_non_hyphen() {
    assert_eq!(extract_number("@pisearch 12x34"), Some("12".to_string()));
    assert_eq!(extract_number("@pisearch 1-2 3"), Some("12".to_string()));
}

#[test]
fn extract_skips_leading_hyphens_before_digits() {
    // Hyphens before the first digit are part of the skipped non-digits;
    // the capture starts at the digit itself.
    assert_eq!(extract_number("@pisearch -7-"), Some("7".to_string()));
}

#[test]
fn extract_handles_multibyte_text() {
    assert_eq!(
        extract_number("π fans: @pisearch 314159 — thanks"),
        Some("314159".to_string())
    );
}

#[test]
fn extract_is_deterministic_on_repeat_calls() {
    let text = "@pisearch 99-88";
    let first = extract_number(text);
    let second = extract_number(text);
    assert_eq!(first, second);
    assert_eq!(first, Some("9988".to_string()));
}
