//! What the bridge does in the rooms it is in, and how it gets into them.

use vstd::prelude::*;

use crate::text::{chars_of, contains_char, second_word, starts_with, word_after_space};

verus! {

/// What the bridge does about a message in a room.
#[derive(Debug)]
pub enum Reaction {
    /// Nothing.
    Ignore,
    /// Send a message, as plain text and with markup.
    Help { plain: String, html: String },
    /// Send a notice.
    Notify(String),
    /// Send a notice, and then call the address.
    Dial { notice: String, sip_address: String },
}

/// What a [`Reaction`] stands for.
pub enum ReactionView {
    Ignore,
    Help { plain: Seq<char>, html: Seq<char> },
    Notify(Seq<char>),
    Dial { notice: Seq<char>, sip_address: Seq<char> },
}

impl View for Reaction {
    type V = ReactionView;

    open spec fn view(&self) -> ReactionView {
        match self {
            Reaction::Ignore => ReactionView::Ignore,
            Reaction::Help { plain, html } => ReactionView::Help { plain: plain@, html: html@ },
            Reaction::Notify(notice) => ReactionView::Notify(notice@),
            Reaction::Dial { notice, sip_address } => ReactionView::Dial {
                notice: notice@,
                sip_address: sip_address@,
            },
        }
    }
}

/// Whether a character is numeric.
pub uninterp spec fn is_numeric(c: char) -> bool;

/// Whether every character is numeric.
pub open spec fn all_numeric(text: Seq<char>) -> bool {
    forall|i: int| 0 <= i < text.len() ==> is_numeric(#[trigger] text[i])
}

/// Whether a character is an ASCII digit.
pub open spec fn is_ascii_digit(c: char) -> bool {
    '0' <= c <= '9'
}

/// Whether a text looks like an address at a host.
pub open spec fn is_sip_address(text: Seq<char>) -> bool {
    &&& "sip:"@.is_prefix_of(text) || "sips:"@.is_prefix_of(text)
    &&& text.contains('@')
    &&& text.contains('.')
}

/// The help in plain text.
pub open spec fn help_text() -> Seq<char> {
    "Commands:\n!dial-out <sip_address> - Dial a SIP address\n!dial-in - Allow dial-in via a code and password over SIP into the current conference (starts a new one if needed)\n!help - Show this help message"@
}

/// The help with markup.
pub open spec fn help_html() -> Seq<char> {
    "<ul><li><code>!dial-out &lt;sip_address&gt;</code> - Dial a SIP address</li><li><code>!dial-in</code> - Allow dial-in via a code and password over SIP into the current conference (starts a new one if needed)</li><li><code>!help</code> - Show this help message</li></ul>"@
}

/// The wording that refuses an address.
pub open spec fn refusal(sip_address: Seq<char>) -> Seq<char> {
    "Invalid SIP address: "@ + sip_address
        + ". Please use a SIP address starting with `sip:` or `sips:` or a number (without `+`)"@
}

/// The wording that announces a call.
pub open spec fn announcement(sip_address: Seq<char>) -> Seq<char> {
    "Starting to dial "@ + sip_address
}

/// The wording that tells how to dial in.
pub open spec fn dial_in_notice() -> Seq<char> {
    "Dialing in enabled via sip address: sip:example.com\nCode: 1234\nPassword: password"@
}

/// The wording that tells that a call was given up.
pub open spec fn failure_notice(sip_address: Seq<char>) -> Seq<char> {
    "🚨Failed to establish call to "@ + sip_address + ". Aborting attempts🚨"@
}

/// Whether a text asks to dial out without saying to where.
pub open spec fn lacks_address(body: Seq<char>) -> bool {
    &&& !"!help"@.is_prefix_of(body)
    &&& "!dial-out"@.is_prefix_of(body)
    &&& second_word(body) is None
}

/// What is done about the address that a command names, where `numeric` tells
/// whether it is a number.
pub open spec fn dial_reaction(sip_address: Seq<char>, numeric: bool) -> ReactionView {
    if is_sip_address(sip_address) || numeric {
        ReactionView::Dial { notice: announcement(sip_address), sip_address }
    } else {
        ReactionView::Notify(refusal(sip_address))
    }
}

/// What is done about a text.
pub open spec fn text_reaction(body: Seq<char>) -> ReactionView {
    if "!help"@.is_prefix_of(body) {
        ReactionView::Help { plain: help_text(), html: help_html() }
    } else if "!dial-out"@.is_prefix_of(body) {
        let word = second_word(body)->0;
        dial_reaction(word, word.len() > 0 && all_numeric(word))
    } else if "!dial-in"@.is_prefix_of(body) {
        ReactionView::Notify(dial_in_notice())
    } else {
        ReactionView::Ignore
    }
}

/// What is done about a message: only texts in rooms that the bridge has joined
/// are looked at.
pub open spec fn reaction(joined: bool, body: Option<Seq<char>>) -> ReactionView {
    if !joined || body is None {
        ReactionView::Ignore
    } else {
        text_reaction(body->0)
    }
}

/// Whether a character is numeric.
///
/// `char::is_numeric` is true of the characters that Unicode puts into one of
/// its categories for numbers. Among the ASCII characters these are the digits.
#[verifier::external_body]
fn numeric_char(c: char) -> (numeric: bool)
    ensures
        numeric == is_numeric(c),
        c <= '\x7f' ==> numeric == is_ascii_digit(c),
{
    c.is_numeric()
}

/// Whether a text is a number: it is not empty, and every character is numeric.
/// No other ASCII characters than the digits are, so a number with a `+` in front
/// is none.
pub fn is_number(text: &str) -> (number: bool)
    ensures
        number == (text@.len() > 0 && all_numeric(text@)),
        number ==> forall|i: int|
            0 <= i < text@.len() && #[trigger] text@[i] <= '\x7f' ==> is_ascii_digit(text@[i]),
        text@.len() > 0 && (forall|i: int|
            0 <= i < text@.len() ==> is_ascii_digit(#[trigger] text@[i])) ==> number,
{
    let chars = chars_of(text);
    if chars.len() == 0 {
        return false;
    }
    for i in 0..chars.len()
        invariant
            chars@ == text@,
            forall|j: int| 0 <= j < i ==> is_numeric(#[trigger] text@[j]),
            forall|j: int| 0 <= j < i && #[trigger] text@[j] <= '\x7f' ==> is_ascii_digit(text@[j]),
    {
        if !numeric_char(chars[i]) {
            assert(!is_numeric(text@[i as int]));
            assert(!is_ascii_digit(text@[i as int]));
            return false;
        }
    }
    true
}

/// Whether a text looks like an address at a host.
pub fn looks_like_address(text: &str) -> (looks: bool)
    ensures
        looks == is_sip_address(text@),
        looks == (("sip:"@.is_prefix_of(text@) || "sips:"@.is_prefix_of(text@)) && text@.contains(
            '@',
        ) && text@.contains('.')),
{
    (starts_with(text, "sip:") || starts_with(text, "sips:")) && contains_char(text, '@')
        && contains_char(text, '.')
}

/// Whether a text asks to dial out without saying to where.
pub fn is_address_lacking(body: &str) -> (lacking: bool)
    ensures
        lacking == lacks_address(body@),
{
    !starts_with(body, "!help") && starts_with(body, "!dial-out") && word_after_space(
        body,
    ).is_none()
}

/// What is done about the address that a command names, where `numeric` tells
/// whether it is a number.
pub fn react_to_address(sip_address: String, numeric: bool) -> (reaction: Reaction)
    ensures
        reaction@ == dial_reaction(sip_address@, numeric),
{
    if looks_like_address(&sip_address) || numeric {
        Reaction::Dial {
            notice: "Starting to dial ".to_owned().concat(&sip_address),
            sip_address,
        }
    } else {
        Reaction::Notify(
            "Invalid SIP address: ".to_owned().concat(&sip_address).concat(
                ". Please use a SIP address starting with `sip:` or `sips:` or a number (without `+`)",
            ),
        )
    }
}

/// What is done about a text.
///
/// A number of ASCII digits alone is dialled. An address that is empty, or with
/// any other ASCII character in it, is dialled only if it looks like one at a host.
pub fn react_to_text(body: &str) -> (reaction: Reaction)
    requires
        !lacks_address(body@),
    ensures
        reaction@ == text_reaction(body@),
        "!dial-out"@.is_prefix_of(body@) && second_word(body@)->0.len() > 0 && (forall|i: int|
            0 <= i < second_word(body@)->0.len() ==> is_ascii_digit(
                #[trigger] second_word(body@)->0[i],
            )) ==> reaction@ == dial_reaction(second_word(body@)->0, true),
        "!dial-out"@.is_prefix_of(body@) && (exists|i: int|
            0 <= i < second_word(body@)->0.len() && #[trigger] second_word(body@)->0[i] <= '\x7f'
                && !is_ascii_digit(second_word(body@)->0[i])) ==> reaction@ == dial_reaction(
            second_word(body@)->0,
            false,
        ),
{
    proof {
        law_commands_differ(body@);
    }
    if starts_with(body, "!help") {
        Reaction::Help {
            plain: "Commands:\n!dial-out <sip_address> - Dial a SIP address\n!dial-in - Allow dial-in via a code and password over SIP into the current conference (starts a new one if needed)\n!help - Show this help message".to_owned(),
            html: "<ul><li><code>!dial-out &lt;sip_address&gt;</code> - Dial a SIP address</li><li><code>!dial-in</code> - Allow dial-in via a code and password over SIP into the current conference (starts a new one if needed)</li><li><code>!help</code> - Show this help message</li></ul>".to_owned(),
        }
    } else if starts_with(body, "!dial-out") {
        let sip_address = word_after_space(body).unwrap();
        let numeric = is_number(&sip_address);
        react_to_address(sip_address, numeric)
    } else if starts_with(body, "!dial-in") {
        Reaction::Notify(
            "Dialing in enabled via sip address: sip:example.com\nCode: 1234\nPassword: password".to_owned(),
        )
    } else {
        Reaction::Ignore
    }
}

/// What is done about a message, where `body` is its text if it is one. Numbers
/// of ASCII digits are dialled, and of other ASCII texts only what looks like an
/// address at a host.
pub fn react(joined: bool, body: Option<&str>) -> (made: Reaction)
    requires
        joined && body is Some ==> !lacks_address(body->0@),
    ensures
        made@ == reaction(
            joined,
            match body {
                Some(body) => Some(body@),
                None => None,
            },
        ),
        joined && body is Some && "!dial-out"@.is_prefix_of(body->0@) && second_word(
            body->0@,
        )->0.len() > 0 && (forall|i: int|
            0 <= i < second_word(body->0@)->0.len() ==> is_ascii_digit(
                #[trigger] second_word(body->0@)->0[i],
            )) ==> made@ == dial_reaction(second_word(body->0@)->0, true),
        joined && body is Some && "!dial-out"@.is_prefix_of(body->0@) && (exists|i: int|
            0 <= i < second_word(body->0@)->0.len() && #[trigger] second_word(body->0@)->0[i]
                <= '\x7f' && !is_ascii_digit(second_word(body->0@)->0[i])) ==> made@
            == dial_reaction(second_word(body->0@)->0, false),
        joined && body is Some && "!dial-out"@.is_prefix_of(body->0@) && ("sip:"@.is_prefix_of(
            second_word(body->0@)->0,
        ) || "sips:"@.is_prefix_of(second_word(body->0@)->0)) && second_word(
            body->0@,
        )->0.contains('@') && second_word(body->0@)->0.contains('.') ==> made@ == (
        ReactionView::Dial {
            notice: "Starting to dial "@ + second_word(body->0@)->0,
            sip_address: second_word(body->0@)->0,
        }),
{
    proof {
        if body is Some {
            law_commands_differ(body->0@);
        }
    }
    match body {
        Some(body) if joined => react_to_text(body),
        _ => Reaction::Ignore,
    }
}

/// The wording that tells that a call was given up.
pub fn failed_call(sip_address: &str) -> (notice: String)
    ensures
        notice@ == failure_notice(sip_address@),
{
    "🚨Failed to establish call to ".to_owned().concat(sip_address).concat(
        ". Aborting attempts🚨",
    )
}

/// No two commands begin alike: a text is at most one of them.
pub proof fn law_commands_differ(body: Seq<char>)
    ensures
        !("!help"@.is_prefix_of(body) && "!dial-out"@.is_prefix_of(body)),
        !("!help"@.is_prefix_of(body) && "!dial-in"@.is_prefix_of(body)),
        !("!dial-out"@.is_prefix_of(body) && "!dial-in"@.is_prefix_of(body)),
{
    reveal_strlit("!help");
    reveal_strlit("!dial-out");
    reveal_strlit("!dial-in");
    if "!help"@.is_prefix_of(body) {
        assert(body.subrange(0, 5)[1] == 'h');
        assert(body[1] == 'h');
    }
    if "!dial-out"@.is_prefix_of(body) {
        assert(body.subrange(0, 9)[6] == 'o');
        assert(body.subrange(0, 9)[1] == 'd');
        assert(body[6] == 'o' && body[1] == 'd');
    }
    if "!dial-in"@.is_prefix_of(body) {
        assert(body.subrange(0, 8)[6] == 'i');
        assert(body.subrange(0, 8)[1] == 'd');
        assert(body[6] == 'i' && body[1] == 'd');
    }
}

} // verus!
