use proof_attestor::codec::to_prefixed_hex;
use proof_attestor::error::{
    HexError, SigningError, SourceError, SubmissionError, VerificationFailure, VerifierError,
};
use proof_attestor::text::{
    chars_of, contains_text, decimal, join, parse_u64, same_text, split, starts_with,
    strip_prefix, trim, trim_end_matches, trim_start_matches,
};

fn list(items: &[&str]) -> Vec<String> {
    items.iter().map(|s| s.to_string()).collect()
}

#[test]
fn bytes_as_prefixed_hex() {
    assert_eq!(to_prefixed_hex(&[0xde, 0xad, 0x00, 0x0f]), "0xdead000f");
    assert_eq!(to_prefixed_hex(&[]), "0x");
    assert_eq!(to_prefixed_hex(&[0xAB]), "0xab");
}

#[test]
fn decimal_numerals() {
    assert_eq!(decimal(0), "0");
    assert_eq!(decimal(9), "9");
    assert_eq!(decimal(10), "10");
    assert_eq!(decimal(1234567890), "1234567890");
    assert_eq!(decimal(u64::MAX), "18446744073709551615");
}

#[test]
fn numerals_are_read_back() {
    assert_eq!(parse_u64("0"), Some(0));
    assert_eq!(parse_u64("007"), Some(7));
    assert_eq!(parse_u64("+5"), Some(5));
    assert_eq!(parse_u64("18446744073709551615"), Some(u64::MAX));
    assert_eq!(parse_u64("18446744073709551616"), None);
    assert_eq!(parse_u64("99999999999999999999999"), None);
    assert_eq!(parse_u64(""), None);
    assert_eq!(parse_u64("+"), None);
    assert_eq!(parse_u64("-1"), None);
    assert_eq!(parse_u64("++1"), None);
    assert_eq!(parse_u64("1+"), None);
    assert_eq!(parse_u64(" 1"), None);
    assert_eq!(parse_u64("1a"), None);
    assert_eq!(parse_u64("\u{661}"), None);
    for n in [0u64, 1, 9, 10, 99, 100, 65535, 1 << 40, u64::MAX - 1] {
        assert_eq!(parse_u64(&decimal(n)), Some(n));
        assert_eq!(parse_u64(&n.to_string()), Some(n));
        assert_eq!(decimal(n), n.to_string());
    }
}

#[test]
fn characters_and_comparison() {
    assert_eq!(chars_of("a\u{e9}z"), vec!['a', '\u{e9}', 'z']);
    assert!(chars_of("").is_empty());
    assert!(same_text("abc", "abc"));
    assert!(!same_text("abc", "abd"));
    assert!(!same_text("abc", "ab"));
    assert!(same_text("", ""));
}

#[test]
fn prefixes_and_suffixes() {
    assert!(starts_with("ipfs://x", "ipfs://"));
    assert!(starts_with("abc", ""));
    assert!(starts_with("abc", "abc"));
    assert!(!starts_with("ab", "abc"));
    assert!(!starts_with("xabc", "abc"));
    assert_eq!(trim_start_matches("0x0x12", "0x"), "12");
    assert_eq!(trim_start_matches("0x", "0x"), "");
    assert_eq!(trim_start_matches("12", "0x"), "12");
    assert_eq!(trim_start_matches("00x", "0x"), "00x");
    assert_eq!(trim_start_matches("abc", ""), "abc");
    assert_eq!(trim_start_matches("\u{e9}\u{e9}a", "\u{e9}"), "a");
    assert_eq!(trim_end_matches("a/input/input", "/input"), "a");
    assert_eq!(trim_end_matches("a/input/", "/input"), "a/input/");
    assert_eq!(trim_end_matches("/input", "/input"), "");
    assert_eq!(trim_end_matches("abc", ""), "abc");
    assert_eq!(strip_prefix("0x0x12", "0x"), "0x12");
    assert_eq!(strip_prefix("12", "0x"), "12");
    assert_eq!(strip_prefix("0x", "0x"), "");
}

#[test]
fn white_space_is_trimmed() {
    assert_eq!(trim("  a b \t\n"), "a b");
    assert_eq!(trim(""), "");
    assert_eq!(trim(" \u{a0}\u{3000}\u{2003} "), "");
    assert_eq!(trim("\u{85}x\u{1680}"), "x");
    assert_eq!(trim("\u{200b}x"), "\u{200b}x");
    for text in ["  a b \t\n", "", "\u{2028}q\u{2029}", "\u{b}\u{c}z", "\u{1c}z", "\u{feff}z"] {
        assert_eq!(trim(text), text.trim());
    }
}

#[test]
fn text_is_split_at_every_separator() {
    assert_eq!(split("a,b,c", ','), list(&["a", "b", "c"]));
    assert_eq!(split("", ','), list(&[""]));
    assert_eq!(split(",", ','), list(&["", ""]));
    assert_eq!(split("a,,b,", ','), list(&["a", "", "b", ""]));
    assert_eq!(split("abc", ','), list(&["abc"]));
    for text in ["a,b,c", "", ",", ",,a", "a,\u{e9},"] {
        let expected: Vec<String> = text.split(',').map(|s| s.to_string()).collect();
        assert_eq!(split(text, ','), expected);
    }
}

#[test]
fn lists_are_joined_and_searched() {
    assert_eq!(join(&list(&["a", "b", "c"]), ", "), "a, b, c");
    assert_eq!(join(&list(&["a"]), ", "), "a");
    assert_eq!(join(&list(&[]), ", "), "");
    assert_eq!(join(&list(&["", ""]), "-"), "-");
    assert!(contains_text(&list(&["a", "b"]), "b"));
    assert!(!contains_text(&list(&["a", "b"]), "c"));
    assert!(!contains_text(&list(&[]), ""));
}

#[test]
fn messages_of_errors() {
    assert_eq!(VerifierError::Config("bad".to_string()).message(), "Configuration error: bad");
    assert_eq!(
        VerifierError::GraphQL(SourceError::Timeout).message(),
        "GraphQL query error: Request timeout"
    );
    assert_eq!(
        VerifierError::GraphQL(SourceError::Status { code: 502, body: "x".to_string() }).message(),
        "GraphQL query error: Server busy (502): x"
    );
    assert_eq!(
        VerifierError::GraphQL(SourceError::Status { code: 501, body: "x".to_string() }).message(),
        "GraphQL query error: HTTP error (501): x"
    );
    assert_eq!(
        VerifierError::GraphQL(SourceError::Status { code: 505, body: String::new() }).message(),
        "GraphQL query error: HTTP error (505): "
    );
    assert_eq!(
        VerifierError::GraphQL(SourceError::Query("a, b".to_string())).message(),
        "GraphQL query error: a, b"
    );
    assert_eq!(
        VerifierError::GraphQL(SourceError::NoData).message(),
        "GraphQL query error: No data in response"
    );
    assert_eq!(
        VerifierError::GraphQL(SourceError::Malformed).message(),
        "GraphQL query error: Malformed response"
    );
    assert_eq!(
        VerifierError::GraphQL(SourceError::Exhausted { attempts: 3, last: "x".to_string() })
            .message(),
        "GraphQL query error: All 3 attempts failed, the last with: x"
    );
    assert_eq!(
        VerifierError::ProofVerification(VerificationFailure::DeserializationFailed(
            "eof".to_string()
        ))
        .message(),
        "Proof verification failed: Failed to deserialize receipt: eof"
    );
    assert_eq!(
        VerifierError::ProofVerification(VerificationFailure::EmptyJournal).message(),
        "Proof verification failed: Receipt has empty journal"
    );
    assert_eq!(
        VerifierError::ProofVerification(VerificationFailure::UnknownProofType("t".to_string()))
            .message(),
        "Proof verification failed: Unknown proof type: t"
    );
    assert_eq!(
        VerifierError::ProofVerification(VerificationFailure::CryptographicVerificationFailed(
            "bad seal".to_string()
        ))
        .message(),
        "Proof verification failed: Receipt verification failed: bad seal"
    );
    assert_eq!(
        VerifierError::Signing(SigningError::InvalidKey).message(),
        "Receipt signing error: Invalid private key"
    );
    assert_eq!(
        VerifierError::Signing(SigningError::NoSignature).message(),
        "Receipt signing error: Failed to sign"
    );
    assert_eq!(
        VerifierError::Signing(SigningError::InvalidHex(HexError::OddLength)).message(),
        "Receipt signing error: Invalid private key hex: Odd number of digits"
    );
    assert_eq!(
        VerifierError::InputBox(SubmissionError::Rejected { status: 503, body: "b".to_string() })
            .message(),
        "InputBox submission error: InputBox returned error 503: b"
    );
    assert_eq!(
        VerifierError::InputBox(SubmissionError::Transport("refused".to_string())).message(),
        "InputBox submission error: Failed to send request: refused"
    );
    assert_eq!(VerifierError::Network("down".to_string()).message(), "Network error: down");
    assert_eq!(
        VerifierError::Serialization("eof".to_string()).message(),
        "Serialization error: eof"
    );
    assert_eq!(
        VerifierError::Hex(HexError::InvalidHexCharacter { c: 'g', index: 12 }).message(),
        "Hex encoding error: Invalid character 'g' at position 12"
    );
    assert_eq!(
        VerifierError::Hex(HexError::InvalidHexCharacter { c: '\n', index: 0 }).message(),
        "Hex encoding error: Invalid character '\\n' at position 0"
    );
    assert_eq!(
        VerifierError::Hex(HexError::InvalidStringLength).message(),
        "Hex encoding error: Invalid string length"
    );
    assert_eq!(
        VerifierError::ReceiptTooLarge { size: 11, max: 10 }.message(),
        "Receipt too large: 11 bytes exceeds maximum 10 bytes"
    );
    assert_eq!(
        VerifierError::UnsupportedScheme("s3://b".to_string()).message(),
        "Unsupported receipt URL scheme: s3://b"
    );
}
