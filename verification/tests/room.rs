//! What the bridge does about messages.

use sip_bridge::room::{
    failed_call, is_address_lacking, is_number, looks_like_address, react, react_to_address,
    react_to_text, Reaction,
};

fn notice(reaction: Reaction) -> String {
    match reaction {
        Reaction::Notify(notice) => notice,
        other => panic!("{:?}", other),
    }
}

#[test]
fn help_is_given() {
    match react(true, Some("!help please")) {
        Reaction::Help { plain, html } => {
            assert_eq!(
                plain,
                "Commands:\n\
                 !dial-out <sip_address> - Dial a SIP address\n\
                 !dial-in - Allow dial-in via a code and password over SIP into the current conference (starts a new one if needed)\n\
                 !help - Show this help message"
            );
            assert_eq!(
                html,
                "<ul>\
                 <li><code>!dial-out &lt;sip_address&gt;</code> - Dial a SIP address</li>\
                 <li><code>!dial-in</code> - Allow dial-in via a code and password over SIP into the current conference (starts a new one if needed)</li>\
                 <li><code>!help</code> - Show this help message</li>\
                 </ul>"
            );
        }
        other => panic!("{:?}", other),
    }
}

#[test]
fn addresses_and_numbers_are_dialled() {
    for address in [
        "sip:alice@example.com",
        "sips:alice@example.com",
        "4711",
        "0",
        "\u{0663}\u{0664}",
        "\u{00be}",
    ] {
        match react_to_text(&format!("!dial-out {} now", address)) {
            Reaction::Dial { notice, sip_address } => {
                assert_eq!(sip_address, address);
                assert_eq!(notice, format!("Starting to dial {}", address));
            }
            other => panic!("{:?}", other),
        }
    }
}

#[test]
fn other_addresses_are_refused() {
    for address in [
        "",
        "+4711",
        "47-11",
        "alice@example.com",
        "sip:alice",
        "sip:alice@example",
        "sip:example.com",
        "SIP:alice@example.com",
        "\u{0648}",
    ] {
        assert_eq!(
            notice(react_to_text(&format!("!dial-out {}", address))),
            format!(
                "Invalid SIP address: {}. Please use a SIP address starting with `sip:` or `sips:` or a number (without `+`)",
                address
            )
        );
    }
}

#[test]
fn numbers_are_told_by_their_characters() {
    assert!(is_number("0123456789"));
    assert!(!is_number(""));
    assert!(!is_number("+1"));
    assert!(!is_number("1a"));
    assert!(is_number("\u{2460}"));
    assert!(looks_like_address("sip:a@b.c"));
    assert!(looks_like_address("sips:.@"));
    assert!(!looks_like_address("sipsa@b.c"));
    assert!(matches!(react_to_address("x".to_owned(), true), Reaction::Dial { .. }));
    assert!(matches!(react_to_address("x".to_owned(), false), Reaction::Notify(_)));
}

#[test]
fn dialling_in_is_explained() {
    assert_eq!(
        notice(react(true, Some("!dial-in"))),
        "Dialing in enabled via sip address: sip:example.com\nCode: 1234\nPassword: password"
    );
}

#[test]
fn everything_else_is_ignored() {
    assert!(matches!(react(false, Some("!help")), Reaction::Ignore));
    assert!(matches!(react(false, Some("!dial-out")), Reaction::Ignore));
    assert!(matches!(react(true, None), Reaction::Ignore));
    assert!(matches!(react(true, Some("hello")), Reaction::Ignore));
    assert!(matches!(react(true, Some(" !help")), Reaction::Ignore));
    assert!(matches!(react(true, Some("!dial")), Reaction::Ignore));
}

#[test]
fn missing_addresses_are_told() {
    assert!(is_address_lacking("!dial-out"));
    assert!(is_address_lacking("!dial-outsip:a@b.c"));
    assert!(!is_address_lacking("!dial-out "));
    assert!(!is_address_lacking("!dial-in"));
    assert!(!is_address_lacking("!help"));
}

#[test]
fn failures_are_told() {
    assert_eq!(
        failed_call("4711"),
        "🚨Failed to establish call to 4711. Aborting attempts🚨"
    );
}
