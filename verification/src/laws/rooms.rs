//! What the bridge does in rooms, with its session, and with the sound of a call.

use vstd::prelude::*;

use crate::media::{
    call_notice, ice_notice, recorder_stepped, IceState, PeerState, RecorderEvent, RecorderPhase,
};
use crate::message::SchemeView;
use crate::parser::{is_sip_scheme, plain_uri};
use crate::room::{
    dial_reaction, failure_notice, is_numeric, law_commands_differ, reaction, ReactionView,
};
use crate::session::{
    join_action, join_begun, join_stepped, login_of, stored_after, JoinAction, JoinEvent,
    JoinPhase, LoginView, StoredUserView,
};
use crate::text::second_word;
use crate::wire::uri_text;

verus! {

/// Every text that begins with `sip:` or `sips:` and holds an `@` and a dot is
/// dialled when it is asked for, whatever else is in it.
pub proof fn law_addresses_are_dialled(body: Seq<char>, word: Seq<char>)
    requires
        "!dial-out"@.is_prefix_of(body),
        second_word(body) == Some(word),
        "sip:"@.is_prefix_of(word) || "sips:"@.is_prefix_of(word),
        word.contains('@'),
        word.contains('.'),
    ensures
        reaction(true, Some(body)) == (ReactionView::Dial {
            notice: "Starting to dial "@ + word,
            sip_address: word,
        }),
{
    law_commands_differ(body);
}

/// Every user at a host with a dot in it can be dialled, at a domain or at the
/// address of a machine, with either scheme.
pub proof fn law_users_at_hosts_are_dialled(
    body: Seq<char>,
    scheme: SchemeView,
    user: Seq<char>,
    host: Seq<char>,
)
    requires
        "!dial-out"@.is_prefix_of(body),
        is_sip_scheme(scheme),
        host.contains('.'),
        second_word(body) == Some(uri_text(plain_uri(scheme, user, host))),
    ensures
        reaction(true, Some(body)) == (ReactionView::Dial {
            notice: "Starting to dial "@ + uri_text(plain_uri(scheme, user, host)),
            sip_address: uri_text(plain_uri(scheme, user, host)),
        }),
{
    let word = uri_text(plain_uri(scheme, user, host));
    let start = if scheme is Sip {
        "sip:"@
    } else {
        "sips:"@
    };
    reveal_strlit("@");
    assert(word =~= start + user + "@"@ + host);
    assert(word.subrange(0, start.len() as int) =~= start);
    assert(word[(start.len() + user.len()) as int] == '@');
    let dot = choose|i: int| 0 <= i < host.len() && host[i] == '.';
    assert(word[start.len() + user.len() + 1 + dot] == '.');
    law_addresses_are_dialled(body, word);
}

/// What is not such an address is dialled if it is a number, that is if it is not
/// empty and numeric throughout, and is refused otherwise.
pub proof fn law_only_numbers_are_dialled_else(body: Seq<char>, word: Seq<char>)
    requires
        "!dial-out"@.is_prefix_of(body),
        second_word(body) == Some(word),
        !("sip:"@.is_prefix_of(word) || "sips:"@.is_prefix_of(word)) || !word.contains('@')
            || !word.contains('.'),
    ensures
        reaction(true, Some(body)) == if word.len() > 0 && forall|i: int|
            0 <= i < word.len() ==> is_numeric(#[trigger] word[i]) {
            ReactionView::Dial { notice: "Starting to dial "@ + word, sip_address: word }
        } else {
            ReactionView::Notify(
                "Invalid SIP address: "@ + word
                    + ". Please use a SIP address starting with `sip:` or `sips:` or a number (without `+`)"@,
            )
        },
{
    law_commands_differ(body);
}

/// A named address is dialled if it looks like one at a host or is a number, and is
/// refused with the address in the notice otherwise.
pub proof fn law_named_address_is_dialled_or_refused(word: Seq<char>, number: bool)
    ensures
        dial_reaction(word, number) == if number || ("sip:"@.is_prefix_of(word)
            || "sips:"@.is_prefix_of(word)) && word.contains('@') && word.contains('.') {
            ReactionView::Dial { notice: "Starting to dial "@ + word, sip_address: word }
        } else {
            ReactionView::Notify(
                "Invalid SIP address: "@ + word
                    + ". Please use a SIP address starting with `sip:` or `sips:` or a number (without `+`)"@,
            )
        },
{
}

/// Nothing is done about what is no command, no text, or not in a room that the
/// bridge has joined. Help and the way to dial in are told to whoever asks.
pub proof fn law_other_messages(body: Seq<char>, message: Option<Seq<char>>)
    ensures
        reaction(false, message) == ReactionView::Ignore,
        reaction(true, None) == ReactionView::Ignore,
        !"!help"@.is_prefix_of(body) && !"!dial-out"@.is_prefix_of(body)
            && !"!dial-in"@.is_prefix_of(body) ==> reaction(true, Some(body))
            == ReactionView::Ignore,
        "!help"@.is_prefix_of(body) ==> reaction(true, Some(body)) is Help,
        "!dial-in"@.is_prefix_of(body) ==> reaction(true, Some(body)) == ReactionView::Notify(
            "Dialing in enabled via sip address: sip:example.com\nCode: 1234\nPassword: password"@,
        ),
{
    law_commands_differ(body);
}

/// A call that was given up is told with its address.
pub proof fn law_failed_calls_are_told(sip_address: Seq<char>)
    ensures
        failure_notice(sip_address) == "🚨Failed to establish call to "@ + sip_address
            + ". Aborting attempts🚨"@,
{
}

/// A call that connects, is connected or has failed is told with its address, and
/// no other change is.
pub proof fn law_changes_of_calls_are_told(sip_address: Seq<char>, state: PeerState)
    ensures
        call_notice(sip_address, PeerState::Failed) == Some(
            "🚨Call to "@ + sip_address + " has ended🚨"@,
        ),
        call_notice(sip_address, PeerState::Connected) == Some(
            "Call to "@ + sip_address + " connected"@,
        ),
        call_notice(sip_address, PeerState::Connecting) == Some(
            "Call to "@ + sip_address + " connecting"@,
        ),
        state != PeerState::Failed && state != PeerState::Connected && state
            != PeerState::Connecting ==> call_notice(sip_address, state) is None,
{
}

/// Of the connection below a call only its failure is told.
pub proof fn law_failed_connections_are_told(state: IceState)
    ensures
        ice_notice(state) == if state == IceState::Failed {
            Some("🚨Call ended🚨"@)
        } else {
            None
        },
{
}

/// A recording writes every packet that comes, closes its file when no more come or
/// when it is to end, and breaks off where a packet cannot be written. Nothing else
/// moves it on.
pub proof fn law_recordings_go_on(phase: RecorderPhase, event: RecorderEvent)
    ensures
        ({
            let next = recorder_stepped(phase, event);
            match phase {
                RecorderPhase::Listening => if event == RecorderEvent::Packet {
                    next == RecorderPhase::Writing
                } else if event == RecorderEvent::ReadFailed || event == RecorderEvent::Stopped {
                    next == RecorderPhase::Closing
                } else {
                    next == phase
                },
                RecorderPhase::Writing => if event == RecorderEvent::Written {
                    next == RecorderPhase::Listening
                } else if event == RecorderEvent::WriteFailed {
                    next == (RecorderPhase::Over { failed: true })
                } else {
                    next == phase
                },
                RecorderPhase::Closing => if event == RecorderEvent::Closed {
                    next == (RecorderPhase::Over { failed: false })
                } else {
                    next == phase
                },
                RecorderPhase::Over { .. } => next == phase,
            }
        }),
{
}

/// A remembered session is taken up as it was remembered, and without one the
/// password is used. Only what a password gave is remembered.
pub proof fn law_sessions_are_remembered(
    username: Seq<char>,
    access_token: Seq<char>,
    device_id: Seq<char>,
    user_id: Seq<char>,
)
    ensures
        ({
            let restored = login_of(username, Some((access_token, device_id)));
            let fresh = login_of(username, None);
            &&& restored == (LoginView::Restore { user_id: username, device_id, access_token })
            &&& fresh == (LoginView::Password { username, display_name: "autojoin bot"@ })
            &&& stored_after(restored, user_id, access_token, device_id) is None
            &&& stored_after(fresh, user_id, access_token, device_id) == Some(
                StoredUserView { username: user_id, access_token, device_id },
            )
        }),
{
}

/// A failed attempt to join is followed by a pause of as many seconds as the phase
/// says, and the pause by an attempt with twice the pause, unless that is more than
/// an hour. What a phase asks for is what it waits for.
pub proof fn law_attempts_and_pauses_alternate(delay: u64, phase: JoinPhase, event: JoinEvent)
    requires
        delay <= 3600,
    ensures
        ({
            let joining = JoinPhase::Joining { delay };
            let pausing = JoinPhase::Pausing { delay };
            &&& join_begun() == (JoinPhase::Joining { delay: 2 })
            &&& join_action(joining) == JoinAction::Join
            &&& join_action(pausing) == JoinAction::Pause(delay)
            &&& join_action(JoinPhase::Joined) == JoinAction::Stop
            &&& join_action(JoinPhase::GivenUp) == JoinAction::Stop
            &&& join_stepped(joining, JoinEvent::Succeeded) == JoinPhase::Joined
            &&& join_stepped(joining, JoinEvent::Failed) == pausing
            &&& join_stepped(joining, JoinEvent::PauseOver) == joining
            &&& join_stepped(pausing, JoinEvent::Succeeded) == pausing
            &&& join_stepped(pausing, JoinEvent::Failed) == pausing
            &&& delay <= 1800 ==> join_stepped(pausing, JoinEvent::PauseOver) == (
            JoinPhase::Joining { delay: (delay + delay) as u64 })
            &&& delay > 1800 ==> join_stepped(pausing, JoinEvent::PauseOver)
                == JoinPhase::GivenUp
            &&& phase is Joined || phase is GivenUp ==> join_stepped(phase, event) == phase
        }),
{
}

} // verus!
