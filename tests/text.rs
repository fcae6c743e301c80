use sendtg::text::{
    capitalize, contains_text, is_blank_text, normalize_option, normalize_owned, redact_secret,
    redact_token, truncate_label, unescape_newlines,
};

#[test]
fn normalize_trims_and_drops_blank() {
    assert_eq!(normalize_owned("  abc \n".to_string()), Some("abc".to_string()));
    assert_eq!(normalize_owned(" \t ".to_string()), None);
    assert_eq!(normalize_option(None), None);
    assert_eq!(normalize_option(Some(" x ".to_string())), Some("x".to_string()));
    assert!(is_blank_text("   "));
    assert!(!is_blank_text(" a "));
}

#[test]
fn truncate_label_cuts_with_ellipsis() {
    assert_eq!(truncate_label("short", 24), "short");
    assert_eq!(truncate_label("abcdef", 3), "abc…");
    assert_eq!(truncate_label("abc", 3), "abc");
    assert_eq!(truncate_label("abc", 0), "…");
    assert_eq!(truncate_label("", 0), "");
}

#[test]
fn capitalize_first_character() {
    assert_eq!(capitalize("photo"), "Photo");
    assert_eq!(capitalize(""), "");
    assert_eq!(capitalize("ßa"), "SSa");
}

#[test]
fn redact_token_keeps_ten_bytes() {
    assert_eq!(redact_token("short"), "REDACTED");
    assert_eq!(redact_token("0123456789"), "REDACTED");
    assert_eq!(
        redact_token("0123456789:ABCDEF"),
        format!("0123456789{}", "*".repeat(30))
    );
    assert_eq!(redact_token("012345678é123"), format!("012345678{}", "*".repeat(30)));
    assert_eq!(redact_token("éééééé"), format!("ééééé{}", "*".repeat(30)));
}

#[test]
fn secrets_are_removed_from_reports() {
    assert_eq!(
        redact_secret("GET https://x/botSECRET/send failed: SECRET", "SECRET"),
        "GET https://x/botREDACTED/send failed: REDACTED"
    );
    assert_eq!(redact_secret("nothing here", ""), "nothing here");
    assert_eq!(redact_secret("RED alert", "RED"), "");
    assert_eq!(redact_secret("ab", "abc"), "ab");
    assert!(contains_text("hello", "ll"));
    assert!(!contains_text("hello", "lo!"));
    assert!(contains_text("x", ""));
}

#[test]
fn escaped_newlines_become_real() {
    assert_eq!(unescape_newlines("a\\nb\\n"), "a\nb\n");
    assert_eq!(unescape_newlines("plain"), "plain");
}

#[test]
fn trim_matches_unicode_whitespace() {
    let samples = [
        "", "   ", " a b ", "\t\n\u{0B}\u{0C}\r x \u{85}", "\u{A0}\u{1680}y\u{2000}\u{200A}",
        "\u{2028}\u{2029}\u{202F}\u{205F}\u{3000}z\u{3000}", "\u{200B}w\u{200B}", "\u{1C}v\u{1F}",
        "é ü", "  ∑  ",
    ];
    for s in samples {
        assert_eq!(sendtg::text::trim_text(s), s.trim(), "trimming {:?}", s);
    }
}
