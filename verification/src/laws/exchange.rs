//! What the connection does about what comes through it.

use vstd::prelude::*;
use vstd::utf8::{decode_utf8, valid_utf8};

use crate::auth::{authorized, sequence_exhausted};
use crate::connection::{
    is_upgrade, registering, stepped, EventView, FrameView, Next, Opcode, OutgoingView, PhaseView,
    StepView, UpgradeRequest, KEEP_ALIVE_MILLIS,
};
use crate::error::SipError;
use crate::message::{header_index, header_value, headers_view, MessageView, ResponseView};
use crate::parser::{parsed_response, response_of};
use crate::sip::register_request;
use crate::wire::{message_text, request_text};

verus! {

/// Whether a frame holds a text that answers a message: it is a frame of text or
/// of bytes, in UTF-8 and not empty, and not the end of a call nor two empty lines.
pub open spec fn is_answer(frame: FrameView) -> bool {
    let text = decode_utf8(frame.payload);
    &&& frame.opcode == Opcode::Text || frame.opcode == Opcode::Binary
    &&& frame.payload.len() > 0
    &&& valid_utf8(frame.payload)
    &&& text.len() > 0
    &&& !"BYE"@.is_prefix_of(text)
    &&& text != "\r\n\r\n"@
}

/// Every text that answers a message, whatever its status, is delivered: to a
/// message that one frame answers, exactly the response in that frame.
pub proof fn law_response_is_delivered(
    server: Seq<char>,
    username: Seq<char>,
    password: Seq<char>,
    message: MessageView,
    frame: FrameView,
    cnonce: Seq<char>,
)
    requires
        is_answer(frame),
        parsed_response(decode_utf8(frame.payload)) is Some,
    ensures
        ({
            let queued = EventView::Queued(Some((message, 1usize)));
            let sent = stepped(server, username, password, PhaseView::Polling, queued, cnonce);
            let (phase, step) = stepped(
                server,
                username,
                password,
                sent.0,
                EventView::Frame(frame),
                cnonce,
            );
            let response = response_of(parsed_response(decode_utf8(frame.payload))->0);
            &&& sent.1.send == Some(OutgoingView::Text(message_text(message)))
            &&& sent.1.deliver is None
            &&& step.deliver == Some(seq![response])
            &&& step.send is None
            &&& step.next == Next::Wait
            &&& phase == PhaseView::Idle
        }),
{
    let queued = EventView::Queued(Some((message, 1usize)));
    let sent = stepped(server, username, password, PhaseView::Polling, queued, cnonce);
    let step = stepped(
        server,
        username,
        password,
        sent.0,
        EventView::Frame(frame),
        cnonce,
    ).1;
    let response = response_of(parsed_response(decode_utf8(frame.payload))->0);
    assert(step.deliver->0 =~= seq![response]);
}

/// While the frames that answer a message are collected, each text that answers it
/// adds its response behind those before, any other frame adds nothing, and with
/// the last frame all of them are delivered. A text that cannot be read ends the
/// connection.
pub proof fn law_frames_are_collected(
    server: Seq<char>,
    username: Seq<char>,
    password: Seq<char>,
    remaining: usize,
    responses: Seq<ResponseView>,
    frame: FrameView,
    cnonce: Seq<char>,
)
    ensures
        ({
            let (phase, step) = stepped(
                server,
                username,
                password,
                PhaseView::Collecting { remaining, responses },
                EventView::Frame(frame),
                cnonce,
            );
            let read = parsed_response(decode_utf8(frame.payload));
            let all = if is_answer(frame) {
                responses.push(response_of(read->0))
            } else {
                responses
            };
            &&& step.send is None
            &&& is_answer(frame) && read is None ==> phase == PhaseView::Finished && step.next
                == Next::Stop(Some(SipError::InvalidResponse)) && step.deliver is None
            &&& (!is_answer(frame) || read is Some) && remaining > 1 ==> phase == (
            PhaseView::Collecting { remaining: (remaining - 1) as usize, responses: all })
                && step.deliver is None && step.next == Next::Read
            &&& (!is_answer(frame) || read is Some) && remaining <= 1 ==> phase == PhaseView::Idle
                && step.deliver == Some(all) && step.next == Next::Wait
        }),
{
}

/// The bridge registers with the request to register, as it is written.
pub proof fn law_registering_is_sent(
    call_id: Seq<char>,
    server: Seq<char>,
    username: Seq<char>,
    address: Seq<char>,
)
    ensures
        ({
            let request = register_request(call_id, server, username, address);
            let (phase, step) = registering(call_id, server, username, address);
            &&& phase == PhaseView::Registering(MessageView::Request(request))
            &&& step.send == Some(OutgoingView::Text(request_text(request)))
            &&& step.deliver is None
            &&& step.next == Next::Read
        }),
{
}

/// The first frame after the request to register must be a text with a challenge,
/// and its answer is sent for no user in particular. Anything else ends the
/// connection, for the reason that applies.
pub proof fn law_challenge_to_register_is_answered(
    server: Seq<char>,
    username: Seq<char>,
    password: Seq<char>,
    message: MessageView,
    frame: FrameView,
    cnonce: Seq<char>,
)
    ensures
        ({
            let (phase, step) = stepped(
                server,
                username,
                password,
                PhaseView::Registering(message),
                EventView::Frame(frame),
                cnonce,
            );
            let read = parsed_response(decode_utf8(frame.payload));
            let response = response_of(read->0);
            let answer = authorized(
                response,
                None,
                message,
                server,
                username,
                password,
                cnonce,
            );
            let reason = if frame.opcode != Opcode::Text {
                Some(SipError::UnexpectedFrame)
            } else if !valid_utf8(frame.payload) {
                Some(SipError::InvalidUtf8)
            } else if read is None {
                Some(SipError::InvalidResponse)
            } else if sequence_exhausted(response, message) {
                Some(SipError::ExhaustedCSeq)
            } else {
                match answer {
                    Err(error) => Some(error),
                    Ok(_) => None,
                }
            };
            &&& step.deliver is None
            &&& reason is Some ==> phase == PhaseView::Finished && step.send is None && step.next
                == Next::Stop(reason)
            &&& reason is None ==> phase == PhaseView::Authorizing && step.next == Next::Read
                && step.send == Some(OutgoingView::Text(request_text(answer->Ok_0)))
        }),
{
}

/// After the challenge is answered, any text makes the bridge registered, and
/// anything else ends the connection.
pub proof fn law_answer_to_register_is_confirmed(
    server: Seq<char>,
    username: Seq<char>,
    password: Seq<char>,
    frame: FrameView,
    cnonce: Seq<char>,
)
    ensures
        ({
            let (phase, step) = stepped(
                server,
                username,
                password,
                PhaseView::Authorizing,
                EventView::Frame(frame),
                cnonce,
            );
            &&& step.send is None
            &&& step.deliver is None
            &&& frame.opcode != Opcode::Text ==> phase == PhaseView::Finished && step.next
                == Next::Stop(Some(SipError::UnexpectedFrame))
            &&& frame.opcode == Opcode::Text && !valid_utf8(frame.payload) ==> phase
                == PhaseView::Finished && step.next == Next::Stop(Some(SipError::InvalidUtf8))
            &&& frame.opcode == Opcode::Text && valid_utf8(frame.payload) ==> phase
                == PhaseView::Idle && step.next == Next::Wait
        }),
{
}

/// A registered bridge looks into its queue after every frame but one that closes
/// the connection, which ends it. It pings when nothing came in time, and goes on
/// waiting where nothing is queued or nothing can be read.
pub proof fn law_registered_bridge_goes_on(
    server: Seq<char>,
    username: Seq<char>,
    password: Seq<char>,
    frame: FrameView,
    cnonce: Seq<char>,
)
    ensures
        ({
            let quiet = |next: Next| StepView { send: None, deliver: None, next };
            let idle = |event: EventView|
                stepped(server, username, password, PhaseView::Idle, event, cnonce);
            let nothing = EventView::Queued(None);
            &&& frame.opcode == Opcode::Close ==> idle(EventView::Frame(frame)) == (
                PhaseView::Finished,
                quiet(Next::Stop(None)),
            )
            &&& frame.opcode != Opcode::Close ==> idle(EventView::Frame(frame)) == (
                PhaseView::Polling,
                quiet(Next::Poll),
            )
            &&& idle(EventView::Timeout) == (
                PhaseView::Idle,
                StepView { send: Some(OutgoingView::Ping), deliver: None, next: Next::Wait },
            )
            &&& idle(EventView::ReadFailed) == (PhaseView::Idle, quiet(Next::WaitOut))
            &&& stepped(server, username, password, PhaseView::Polling, nothing, cnonce) == (
                PhaseView::Idle,
                quiet(Next::Wait),
            )
        }),
        KEEP_ALIVE_MILLIS == 500,
{
}

/// A queued message is written as it stands. One that no frame answers is done
/// with at once, and for another so many frames are awaited.
pub proof fn law_queued_message_is_sent(
    server: Seq<char>,
    username: Seq<char>,
    password: Seq<char>,
    message: MessageView,
    response_count: usize,
    cnonce: Seq<char>,
)
    ensures
        ({
            let (phase, step) = stepped(
                server,
                username,
                password,
                PhaseView::Polling,
                EventView::Queued(Some((message, response_count))),
                cnonce,
            );
            &&& step.send == Some(OutgoingView::Text(message_text(message)))
            &&& response_count == 0 ==> phase == PhaseView::Idle && step.deliver == Some(
                Seq::<ResponseView>::empty(),
            ) && step.next == Next::Wait
            &&& response_count > 0 ==> phase == (PhaseView::Collecting {
                remaining: response_count,
                responses: Seq::empty(),
            }) && step.deliver is None && step.next == Next::Read
        }),
{
}

/// A connection that breaks while a frame is owed is over.
pub proof fn law_broken_connection_is_over(
    server: Seq<char>,
    username: Seq<char>,
    password: Seq<char>,
    message: MessageView,
    remaining: usize,
    responses: Seq<ResponseView>,
    cnonce: Seq<char>,
)
    ensures
        ({
            let broken = |phase: PhaseView|
                stepped(server, username, password, phase, EventView::ReadFailed, cnonce);
            let over = (
                PhaseView::Finished,
                StepView {
                    send: None,
                    deliver: None,
                    next: Next::Stop(Some(SipError::ConnectionLost)),
                },
            );
            &&& broken(PhaseView::Registering(message)) == over
            &&& broken(PhaseView::Authorizing) == over
            &&& broken(PhaseView::Collecting { remaining, responses }) == over
        }),
{
}

/// What a phase does not wait for neither changes it nor makes it do anything.
pub proof fn law_other_events_change_nothing(
    server: Seq<char>,
    username: Seq<char>,
    password: Seq<char>,
    phase: PhaseView,
    event: EventView,
    cnonce: Seq<char>,
)
    requires
        event is Queued && phase !is Polling || event is Timeout && phase !is Idle || event
            is Frame && phase is Polling || event is ReadFailed && phase is Polling || phase
            is Finished,
    ensures
        ({
            let (next, step) = stepped(server, username, password, phase, event, cnonce);
            &&& next == phase
            &&& step.send is None
            &&& step.deliver is None
            &&& step.next == match phase {
                PhaseView::Registering(_) => Next::Read,
                PhaseView::Authorizing => Next::Read,
                PhaseView::Idle => Next::Wait,
                PhaseView::Polling => Next::Poll,
                PhaseView::Collecting { .. } => Next::Read,
                PhaseView::Finished => Next::Stop(None),
            }
        }),
{
}

/// The connection is opened at the secure port of the domain, and is to become a
/// websocket for SIP.
pub proof fn law_connection_is_upgraded(
    request: UpgradeRequest,
    domain: Seq<char>,
    key: Seq<char>,
)
    requires
        is_upgrade(request, domain, key),
    ensures
        ({
            let headers = headers_view(request.headers@);
            &&& request.address@ == domain + ":443"@
            &&& request.method@ == "GET"@
            &&& request.uri@ == "/ws"@
            &&& headers.len() == 6
            &&& header_value(headers, "Host"@) == Some(domain)
            &&& header_value(headers, "upgrade"@) == Some("websocket"@)
            &&& header_value(headers, "connection"@) == Some("Upgrade"@)
            &&& header_value(headers, "Sec-WebSocket-Key"@) == Some(key)
            &&& header_value(headers, "Sec-WebSocket-Protocol"@) == Some("sip"@)
            &&& header_value(headers, "Sec-WebSocket-Version"@) == Some("13"@)
        }),
{
    reveal_strlit("Host");
    reveal_strlit("upgrade");
    reveal_strlit("connection");
    reveal_strlit("Sec-WebSocket-Key");
    reveal_strlit("Sec-WebSocket-Protocol");
    reveal_strlit("Sec-WebSocket-Version");
    let headers = headers_view(request.headers@);
    assert(headers[0].name == "Host"@ && headers[1].name == "upgrade"@);
    assert(headers[2].name == "connection"@ && headers[3].name == "Sec-WebSocket-Key"@);
    assert(headers[4].name == "Sec-WebSocket-Protocol"@);
    assert(headers[5].name == "Sec-WebSocket-Version"@);
    reveal_with_fuel(header_index, 8);
}

} // verus!
