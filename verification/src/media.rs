//! The sound of a call: how it is negotiated and recorded, and what a room is
//! told of it.

use vstd::prelude::*;

use crate::text::same_text;

verus! {

/// How the sound of a call is set up.
#[derive(Debug)]
pub struct MediaSettings {
    /// The only codec that is offered.
    pub mime_type: String,
    pub clock_rate: u32,
    pub channels: u16,
    /// The parameters of the codec.
    pub sdp_fmtp_line: String,
    pub payload_type: u8,
    /// The servers that tell the addresses of this machine.
    pub ice_urls: Vec<String>,
    /// Whether sound is received only.
    pub receive_only: bool,
    /// Where the sound is recorded.
    pub recording: String,
}

/// How far a connection below a call has come.
#[derive(Clone, Copy, Debug, PartialEq, Eq, Structural)]
pub enum IceState {
    Unspecified,
    New,
    Checking,
    Connected,
    Completed,
    Disconnected,
    Failed,
    Closed,
}

/// How far a call between two sides has come.
#[derive(Clone, Copy, Debug, PartialEq, Eq, Structural)]
pub enum PeerState {
    Unspecified,
    New,
    Connecting,
    Connected,
    Disconnected,
    Failed,
    Closed,
}

/// What to do when the connection below a call changes.
#[derive(Debug)]
pub struct IceReaction {
    /// Whether the recordings end.
    pub stop_recording: bool,
    /// What the room is told.
    pub notice: Option<String>,
}

/// What happened while sound is recorded.
#[derive(Clone, Copy, Debug, PartialEq, Eq, Structural)]
pub enum RecorderEvent {
    /// A packet came.
    Packet,
    /// A packet was written.
    Written,
    /// A packet could not be written.
    WriteFailed,
    /// No packet can be had.
    ReadFailed,
    /// The recording is to end.
    Stopped,
    /// The file was closed, whether or not it could be.
    Closed,
}

/// How far a recording has come.
#[derive(Clone, Copy, Debug, PartialEq, Eq, Structural)]
pub enum RecorderPhase {
    /// A packet is awaited, or the end.
    Listening,
    /// A packet is being written.
    Writing,
    /// The file is being closed.
    Closing,
    /// The recording is over, and `failed` if a packet could not be written.
    Over { failed: bool },
}

/// Whether media settings are those of the bridge.
pub open spec fn is_bridge_media(settings: MediaSettings) -> bool {
    &&& settings.mime_type@ == "audio/opus"@
    &&& settings.clock_rate == 48000
    &&& settings.channels == 2
    &&& settings.sdp_fmtp_line@ == "minptime=10;useinbandfec=1"@
    &&& settings.payload_type == 111
    &&& settings.ice_urls@.len() == 1
    &&& settings.ice_urls@[0]@ == "stun:stun.l.google.com:19302"@
    &&& settings.receive_only
    &&& settings.recording@ == "./test.opus"@
}

/// How the sound of every call is set up.
pub fn media_settings() -> (settings: MediaSettings)
    ensures
        is_bridge_media(settings),
{
    MediaSettings {
        mime_type: "audio/opus".to_owned(),
        clock_rate: 48000,
        channels: 2,
        sdp_fmtp_line: "minptime=10;useinbandfec=1".to_owned(),
        payload_type: 111,
        ice_urls: vec!["stun:stun.l.google.com:19302".to_owned()],
        receive_only: true,
        recording: "./test.opus".to_owned(),
    }
}

/// A text in lower case.
pub uninterp spec fn lowercase(text: Seq<char>) -> Seq<char>;

/// Whether a text is ASCII.
pub open spec fn is_ascii_text(text: Seq<char>) -> bool {
    forall|i: int| 0 <= i < text.len() ==> #[trigger] text[i] <= '\x7f'
}

/// An ASCII character in lower case.
pub open spec fn ascii_lowercase(c: char) -> char {
    if 'A' <= c <= 'Z' {
        (c as u32 + 32) as char
    } else {
        c
    }
}

/// A text in lower case.
///
/// `str::to_lowercase` follows the mapping of Unicode, which takes the ASCII
/// letters to their small forms and leaves every other ASCII character as it is.
#[verifier::external_body]
fn to_lowercase(text: &str) -> (lowered: String)
    ensures
        lowered@ == lowercase(text@),
        is_ascii_text(text@) ==> lowered@ == text@.map_values(|c: char| ascii_lowercase(c)),
{
    text.to_lowercase()
}

/// Whether a track of the given type is recorded: it is in the codec of the
/// bridge, in whatever case that is written.
pub fn is_recorded(mime_type: &str) -> (recorded: bool)
    ensures
        recorded == (lowercase(mime_type@) == "audio/opus"@),
        is_ascii_text(mime_type@) ==> recorded == (mime_type@.map_values(
            |c: char| ascii_lowercase(c),
        ) == "audio/opus"@),
{
    let lowered = to_lowercase(mime_type);
    let own = to_lowercase("audio/opus");
    proof {
        reveal_strlit("audio/opus");
        assert(own@ =~= "audio/opus"@);
    }
    same_text(&lowered, &own)
}

/// The wording that tells that the sound has ended.
pub open spec fn ended_notice() -> Seq<char> {
    "🚨Call ended🚨"@
}

/// What the room is told when the connection below a call changes.
pub open spec fn ice_notice(state: IceState) -> Option<Seq<char>> {
    if state == IceState::Failed {
        Some(ended_notice())
    } else {
        None
    }
}

/// What the room is told when a call changes.
pub open spec fn call_notice(sip_address: Seq<char>, state: PeerState) -> Option<Seq<char>> {
    match state {
        PeerState::Failed => Some("🚨Call to "@ + sip_address + " has ended🚨"@),
        PeerState::Connected => Some("Call to "@ + sip_address + " connected"@),
        PeerState::Connecting => Some("Call to "@ + sip_address + " connecting"@),
        _ => None,
    }
}

/// What an optional notice stands for.
pub open spec fn notice_view(notice: Option<String>) -> Option<Seq<char>> {
    match notice {
        Some(notice) => Some(notice@),
        None => None,
    }
}

/// What to do when the connection below a call changes.
pub fn react_to_ice(state: IceState) -> (reaction: IceReaction)
    ensures
        reaction.stop_recording == (state == IceState::Failed),
        notice_view(reaction.notice) == ice_notice(state),
{
    if state == IceState::Failed {
        IceReaction { stop_recording: true, notice: Some("🚨Call ended🚨".to_owned()) }
    } else {
        IceReaction { stop_recording: false, notice: None }
    }
}

/// What the room is told when a call changes.
pub fn notice_of_call(sip_address: &str, state: PeerState) -> (notice: Option<String>)
    ensures
        notice_view(notice) == call_notice(sip_address@, state),
{
    match state {
        PeerState::Failed => Some(
            "🚨Call to ".to_owned().concat(sip_address).concat(" has ended🚨"),
        ),
        PeerState::Connected => Some(
            "Call to ".to_owned().concat(sip_address).concat(" connected"),
        ),
        PeerState::Connecting => Some(
            "Call to ".to_owned().concat(sip_address).concat(" connecting"),
        ),
        _ => None,
    }
}

/// How a recording goes on. What a phase does not wait for changes nothing.
pub open spec fn recorder_stepped(phase: RecorderPhase, event: RecorderEvent) -> RecorderPhase {
    match (phase, event) {
        (RecorderPhase::Listening, RecorderEvent::Packet) => RecorderPhase::Writing,
        (RecorderPhase::Listening, RecorderEvent::ReadFailed) => RecorderPhase::Closing,
        (RecorderPhase::Listening, RecorderEvent::Stopped) => RecorderPhase::Closing,
        (RecorderPhase::Writing, RecorderEvent::Written) => RecorderPhase::Listening,
        (RecorderPhase::Writing, RecorderEvent::WriteFailed) => RecorderPhase::Over {
            failed: true,
        },
        (RecorderPhase::Closing, RecorderEvent::Closed) => RecorderPhase::Over { failed: false },
        (phase, _) => phase,
    }
}

/// How a recording goes on when something happens.
pub fn step_recorder(phase: RecorderPhase, event: RecorderEvent) -> (next: RecorderPhase)
    ensures
        next == recorder_stepped(phase, event),
{
    match (phase, event) {
        (RecorderPhase::Listening, RecorderEvent::Packet) => RecorderPhase::Writing,
        (RecorderPhase::Listening, RecorderEvent::ReadFailed) => RecorderPhase::Closing,
        (RecorderPhase::Listening, RecorderEvent::Stopped) => RecorderPhase::Closing,
        (RecorderPhase::Writing, RecorderEvent::Written) => RecorderPhase::Listening,
        (RecorderPhase::Writing, RecorderEvent::WriteFailed) => RecorderPhase::Over {
            failed: true,
        },
        (RecorderPhase::Closing, RecorderEvent::Closed) => RecorderPhase::Over { failed: false },
        (phase, _) => phase,
    }
}

/// A recording ends well only by closing its file, and once over stays over.
pub proof fn law_recording_ends_closed(phase: RecorderPhase, event: RecorderEvent)
    ensures
        recorder_stepped(phase, event) == (RecorderPhase::Over { failed: false }) && phase
            != (RecorderPhase::Over { failed: false }) ==> phase == RecorderPhase::Closing
            && event == RecorderEvent::Closed,
        phase is Over ==> recorder_stepped(phase, event) == phase,
{
}

} // verus!
