use proc_macro2::{Span, TokenStream};
use qname::{
    expand_literal, first_qname_error, is_name_char, is_name_start_char,
    is_valid_qname, ErrorKind, QName,
};
use std::str::FromStr;
use syn::LitStr;

fn kind_of(s: &str) -> ErrorKind {
    QName::new(s).unwrap_err().kind()
}

#[test]
fn invalid() {
    assert!(QName::new("9").is_err());
    assert!(QName::new("").is_err());
    assert!(QName::new("\n").is_err());
    assert!(QName::new("9\n").is_err());
    assert!(QName::new("\n9").is_err());
}

#[test]
fn valid() {
    QName::new("Foo").unwrap();
    QName::new("foo").unwrap();
    QName::new("foo-bar").unwrap();
}

#[test]
fn empty_input_is_empty_error() {
    assert_eq!(kind_of(""), ErrorKind::Empty);
}

#[test]
fn digit_cannot_start() {
    assert_eq!(kind_of("9"), ErrorKind::Start('9'));
}

#[test]
fn newline_cannot_start() {
    assert_eq!(kind_of("\n"), ErrorKind::Start('\n'));
}

#[test]
fn start_is_checked_before_the_rest() {
    assert_eq!(kind_of("9\n"), ErrorKind::Start('9'));
    assert_eq!(kind_of("\n9"), ErrorKind::Start('\n'));
}

#[test]
fn first_bad_continuation_is_reported() {
    assert_eq!(kind_of("ab c\n"), ErrorKind::Continue(' '));
    assert_eq!(kind_of("a9-.\u{b7}\u{300}\u{203f}!?"), ErrorKind::Continue('!'));
}

#[test]
fn unprefixed_name() {
    let q = QName::new("foo-bar").unwrap();
    assert_eq!(q.namespace(), None);
    assert_eq!(q.local_part(), "foo-bar");
    assert_eq!(q.prefixed_name(), "foo-bar");
}

#[test]
fn prefixed_name() {
    let q = QName::new("ns:local").unwrap();
    assert_eq!(q.namespace(), Some("ns"));
    assert_eq!(q.local_part(), "local");
    assert_eq!(q.prefixed_name(), "ns:local");
    assert_eq!(q.to_string(), "ns:local");
}

#[test]
fn split_at_first_colon_only() {
    let q = QName::new("a:b:c").unwrap();
    assert_eq!(q.namespace(), Some("a"));
    assert_eq!(q.local_part(), "b:c");
    let lead = QName::new(":x").unwrap();
    assert_eq!(lead.namespace(), Some(""));
    assert_eq!(lead.local_part(), "x");
    let trail = QName::new("x:").unwrap();
    assert_eq!(trail.namespace(), Some("x"));
    assert_eq!(trail.local_part(), "");
}

#[test]
fn legal_characters_parse_and_keep_text() {
    for s in ["a", "_", ":", "Z9", "\u{c0}\u{b7}", "\u{10000}-\u{effff}", "x.y-z", "\u{3001}\u{300}"] {
        let q = QName::new(s).unwrap();
        assert_eq!(q.prefixed_name(), s);
    }
}

#[test]
fn reparsing_gives_equal_value() {
    for s in ["foo", "ns:local", "a:b:c", "\u{f900}:\u{fdf0}"] {
        let q = QName::new(s).unwrap();
        let again = QName::new(q.prefixed_name()).unwrap();
        assert_eq!(q, again);
    }
}

#[test]
fn validity_agrees_with_parsing() {
    for s in ["", "9", "foo", "ns:local", "a b", "\u{d7}", "\u{f8}", "\u{300}", "a\u{300}"] {
        assert_eq!(is_valid_qname(s), QName::new(s).is_ok());
        assert_eq!(is_valid_qname(s), first_qname_error(s).is_none());
    }
    assert!(is_valid_qname("foo"));
    assert!(!is_valid_qname("9"));
}

#[test]
fn from_str_parses() {
    let q = QName::from_str("ns:local").unwrap();
    assert_eq!(q, QName::new("ns:local").unwrap());
    assert_eq!(QName::from_str("").unwrap_err().kind(), ErrorKind::Empty);
}

#[test]
fn unchecked_matches_checked() {
    assert_eq!(QName::new_unchecked("ns:local"), QName::new("ns:local").unwrap());
    assert_eq!(QName::new_unchecked("foo"), QName::new("foo").unwrap());
}

#[test]
fn character_classes() {
    assert!(is_name_start_char(':'));
    assert!(is_name_start_char('_'));
    assert!(is_name_start_char('\u{effff}'));
    assert!(!is_name_start_char('-'));
    assert!(!is_name_start_char('\u{d7}'));
    assert!(!is_name_start_char('\u{f0000}'));
    assert!(is_name_char('-'));
    assert!(is_name_char('.'));
    assert!(is_name_char('0'));
    assert!(is_name_char('\u{b7}'));
    assert!(is_name_char('\u{36f}'));
    assert!(is_name_char('\u{2040}'));
    assert!(!is_name_char(' '));
    assert!(!is_name_char('\u{2041}'));
}

#[test]
fn error_messages() {
    assert_eq!(QName::new("").unwrap_err().to_string(), "Invalid QName: Cannot be empty");
    assert_eq!(
        QName::new("9").unwrap_err().to_string(),
        "Invalid QName: First char cannot be '9'"
    );
    assert_eq!(
        QName::new("a\n").unwrap_err().to_string(),
        "Invalid QName: Cannot contain '\\n'"
    );
}

#[test]
fn valid_literal_expands() {
    let lit = LitStr::new("foo-bar", Span::call_site());
    let tokens = expand_literal(&lit, "foo-bar").unwrap();
    let expected = TokenStream::from_str("::qname::QName::new_unchecked(\"foo-bar\")").unwrap();
    assert_eq!(tokens.to_string(), expected.to_string());
}

#[test]
fn invalid_literal_fails_expansion() {
    let lit = LitStr::new("9", Span::call_site());
    let err = expand_literal(&lit, "9").unwrap_err();
    assert_eq!(err.to_string(), "Invalid QName: First char cannot be '9'");
    let empty = LitStr::new("", Span::call_site());
    assert_eq!(
        expand_literal(&empty, "").unwrap_err().to_string(),
        "Invalid QName: Cannot be empty"
    );
}

#[test]
fn parse_and_try_from_agree_with_new() {
    let parsed: QName = "ns:local".parse().unwrap();
    assert_eq!(parsed, QName::new("ns:local").unwrap());
    let converted = QName::try_from("a:b:c").unwrap();
    assert_eq!(converted.namespace(), Some("a"));
    assert_eq!(converted.local_part(), "b:c");
    assert_eq!(QName::try_from("\n9").unwrap_err().kind(), ErrorKind::Start('\n'));
    assert_eq!("a b".parse::<QName>().unwrap_err().kind(), ErrorKind::Continue(' '));
}

#[test]
fn literal_tokens_are_checked() {
    let ok = qname::qname(TokenStream::from_str("\"ns:local\"").unwrap()).unwrap();
    let expected = TokenStream::from_str("::qname::QName::new_unchecked(\"ns:local\")").unwrap();
    assert_eq!(ok.to_string(), expected.to_string());
    let bad = qname::qname(TokenStream::from_str("\"a b\"").unwrap()).unwrap_err();
    assert_eq!(bad.to_string(), "Invalid QName: Cannot contain ' '");
    assert!(qname::qname(TokenStream::from_str("42").unwrap()).is_err());
}

#[test]
fn non_literal_tokens_are_rejected() {
    assert!(qname::qname(TokenStream::from_str("\"a\" \"b\"").unwrap()).is_err());
    assert!(qname::qname(TokenStream::from_str("foo").unwrap()).is_err());
    assert!(qname::qname(TokenStream::new()).is_err());
    let empty = qname::qname(TokenStream::from_str("\"\"").unwrap()).unwrap_err();
    assert_eq!(empty.to_string(), "Invalid QName: Cannot be empty");
}
