//! The sound of a call.

use sip_bridge::media::{
    is_recorded, media_settings, notice_of_call, react_to_ice, step_recorder, IceState, PeerState,
    RecorderEvent, RecorderPhase,
};

#[test]
fn sound_is_set_up() {
    let settings = media_settings();
    assert_eq!(settings.mime_type, "audio/opus");
    assert_eq!(settings.mime_type, webrtc::api::media_engine::MIME_TYPE_OPUS);
    assert_eq!(settings.clock_rate, 48000);
    assert_eq!(settings.channels, 2);
    assert_eq!(settings.sdp_fmtp_line, "minptime=10;useinbandfec=1");
    assert_eq!(settings.payload_type, 111);
    assert_eq!(settings.ice_urls, vec!["stun:stun.l.google.com:19302".to_owned()]);
    assert!(settings.receive_only);
    assert_eq!(settings.recording, "./test.opus");
}

#[test]
fn tracks_in_the_codec_are_recorded() {
    assert!(is_recorded("audio/opus"));
    assert!(is_recorded("Audio/OPUS"));
    assert!(!is_recorded("audio/PCMU"));
    assert!(!is_recorded(""));
    assert!(!is_recorded("audio/\u{212a}opus"));
}

#[test]
fn failures_below_a_call_are_told() {
    let reaction = react_to_ice(IceState::Failed);
    assert!(reaction.stop_recording);
    assert_eq!(reaction.notice.as_deref(), Some("🚨Call ended🚨"));
    for state in [
        IceState::Unspecified,
        IceState::New,
        IceState::Checking,
        IceState::Connected,
        IceState::Completed,
        IceState::Disconnected,
        IceState::Closed,
    ] {
        let reaction = react_to_ice(state);
        assert!(!reaction.stop_recording);
        assert_eq!(reaction.notice, None);
    }
}

#[test]
fn changes_of_a_call_are_told() {
    let told = |state| notice_of_call("4711", state);
    assert_eq!(told(PeerState::Failed).as_deref(), Some("🚨Call to 4711 has ended🚨"));
    assert_eq!(told(PeerState::Connected).as_deref(), Some("Call to 4711 connected"));
    assert_eq!(told(PeerState::Connecting).as_deref(), Some("Call to 4711 connecting"));
    for state in
        [PeerState::Unspecified, PeerState::New, PeerState::Disconnected, PeerState::Closed]
    {
        assert_eq!(told(state), None);
    }
}

#[test]
fn recordings_end() {
    let listening = RecorderPhase::Listening;
    let writing = step_recorder(listening, RecorderEvent::Packet);
    assert_eq!(writing, RecorderPhase::Writing);
    assert_eq!(step_recorder(writing, RecorderEvent::Written), listening);
    assert_eq!(
        step_recorder(writing, RecorderEvent::WriteFailed),
        RecorderPhase::Over { failed: true }
    );
    for event in [RecorderEvent::ReadFailed, RecorderEvent::Stopped] {
        let closing = step_recorder(listening, event);
        assert_eq!(closing, RecorderPhase::Closing);
        let over = step_recorder(closing, RecorderEvent::Closed);
        assert_eq!(over, RecorderPhase::Over { failed: false });
        assert_eq!(step_recorder(over, RecorderEvent::Packet), over);
    }
    assert_eq!(step_recorder(listening, RecorderEvent::Written), listening);
}
