//! Texts.

use sip_bridge::error::SipError;
use sip_bridge::matrix_types::CallStateContent;
use sip_bridge::text::{
    chars_of, contains_char, decimal_text, find_char, same_text, starts_with, word_after_space,
};

#[test]
fn words_are_split_at_single_spaces() {
    for text in ["", "one", "one two", "one  two", " one", "one ", "a b c", "ä ö ü"] {
        assert_eq!(word_after_space(text).as_deref(), text.split(' ').nth(1));
    }
}

#[test]
fn texts_are_compared() {
    assert!(same_text("", ""));
    assert!(same_text("aß", "aß"));
    assert!(!same_text("a", "ab"));
    assert!(!same_text("a", "b"));
    assert!(starts_with("!help me", "!help"));
    assert!(starts_with("a", ""));
    assert!(!starts_with("!hel", "!help"));
    assert!(!starts_with("!dial", "!help"));
    assert!(contains_char("a@b", '@'));
    assert!(!contains_char("ab", '@'));
    assert_eq!(chars_of("aß"), vec!['a', 'ß']);
    assert_eq!(find_char(&vec!['a', ':', 'b', ':'], ':', 2), 3);
    assert_eq!(find_char(&vec!['a'], ':', 0), 1);
}

#[test]
fn numbers_are_written_in_decimal() {
    for n in [0usize, 1, 9, 10, 99, 100, 5060, 4294967295] {
        assert_eq!(decimal_text(n), n.to_string());
    }
}

#[test]
fn errors_have_wordings() {
    assert_eq!(SipError::MissingChallenge.text(), "Missing WWW-Authenticate header");
    assert_eq!(
        SipError::MissingAlgorithm.text(),
        "WWW-Authenticate header missing algorithm"
    );
    assert_eq!(SipError::NotARequest.text(), "Expected a request message but got a response");
    assert_eq!(SipError::MissingBranch.text(), "Got no branch in response");
    assert_eq!(SipError::NoResponse.text(), "Got no response on invite");
    assert_eq!(SipError::InvalidDomain.text(), "invalid dnsname");
    assert_eq!(SipError::UnexpectedFrame.text(), "Got unexpected response");
}

#[test]
fn call_contents_are_copied() {
    let content = CallStateContent {
        ptt: Some(false),
        intent: "m.room".to_owned(),
        call_type: "m.voice".to_owned(),
        terminated: None,
        name: Some("Call".to_owned()),
    };
    let copy = content.clone();
    assert_eq!(copy.ptt, Some(false));
    assert_eq!(copy.intent, "m.room");
    assert_eq!(copy.call_type, "m.voice");
    assert_eq!(copy.terminated, None);
    assert_eq!(copy.name.as_deref(), Some("Call"));
}
