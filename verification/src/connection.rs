//! The connection to the exchange: registering, keeping it alive, and passing
//! requests and responses through it.

use vstd::prelude::*;
use vstd::utf8::{decode_utf8, valid_utf8};

use crate::auth::{
    as_message, authorization_header, authorize_request_checked, authorized, challenge_of,
    is_answerable, is_numbered, next_request, sequence_exhausted, SipAuthInfo,
};
use crate::error::SipError;
use crate::message::{
    headers_view, Header, HeaderView, MessageView, Method, RequestView, Response, ResponseView,
    SipMessage,
};
use crate::parser::{parse_utf8, parsed_response, response_of, CSeqView};
use crate::sip::{
    header, lemma_register_headers, register_request, register_request_from, CallID,
};
use crate::surroundings::{
    is_random_id, is_websocket_key, local_address, random_id, websocket_key,
};
use crate::text::{is_dotted, same_text, starts_with};
use crate::wire::{cseq_text, message_text, method_text, request_text};

verus! {

/// After how many milliseconds without a frame the connection is pinged.
pub const KEEP_ALIVE_MILLIS: u64 = 500;

/// What kind of frame was received.
#[derive(Clone, Copy, Debug, PartialEq, Eq, Structural)]
pub enum Opcode {
    Continuation,
    Text,
    Binary,
    Close,
    Ping,
    Pong,
}

/// A frame that was received.
#[derive(Debug)]
pub struct Frame {
    pub opcode: Opcode,
    pub payload: Vec<u8>,
}

/// A message to send, with the number of frames that will answer it. Not every
/// one of them needs to hold a response.
#[derive(Debug)]
pub struct SIPRequest {
    pub message: SipMessage,
    pub response_count: usize,
}

/// How far the connection has come.
#[derive(Debug)]
pub enum Phase {
    /// The given request to register was sent, and the challenge is awaited.
    Registering(SipMessage),
    /// The challenge was answered, and the confirmation is awaited.
    Authorizing,
    /// The bridge is registered.
    Idle,
    /// It is being looked up whether a message is queued.
    Polling,
    /// A message was sent, and so many more frames answer it.
    Collecting { remaining: usize, responses: Vec<Response> },
    /// The connection is over.
    Finished,
}

/// What happened on the connection.
#[derive(Debug)]
pub enum Event {
    /// A frame was received.
    Frame(Frame),
    /// No frame could be received.
    ReadFailed,
    /// No frame came in time.
    Timeout,
    /// The oldest message in the queue, if there is one.
    Queued(Option<SIPRequest>),
}

/// What to put on the connection.
#[derive(Debug)]
pub enum Outgoing {
    Text(String),
    Ping,
}

/// What to wait for.
#[derive(Clone, Copy, Debug, PartialEq, Eq, Structural)]
pub enum Next {
    /// A frame.
    Read,
    /// A frame, or the end of the keep-alive time.
    Wait,
    /// The end of the keep-alive time.
    WaitOut,
    /// Whether a message is queued.
    Poll,
    /// Nothing: the connection is over, for the given reason if for any.
    Stop(Option<SipError>),
}

/// What to do, in this order.
#[derive(Debug)]
pub struct Step {
    /// What to put on the connection.
    pub send: Option<Outgoing>,
    /// What to hand to the sender of the last message.
    pub deliver: Option<Vec<Response>>,
    /// What to wait for.
    pub next: Next,
}

/// What a [`Frame`] stands for.
pub struct FrameView {
    pub opcode: Opcode,
    pub payload: Seq<u8>,
}

/// What a [`Phase`] stands for.
pub enum PhaseView {
    Registering(MessageView),
    Authorizing,
    Idle,
    Polling,
    Collecting { remaining: usize, responses: Seq<ResponseView> },
    Finished,
}

/// What an [`Event`] stands for.
pub enum EventView {
    Frame(FrameView),
    ReadFailed,
    Timeout,
    Queued(Option<(MessageView, usize)>),
}

/// What an [`Outgoing`] stands for.
pub enum OutgoingView {
    Text(Seq<char>),
    Ping,
}

/// What a [`Step`] stands for.
pub struct StepView {
    pub send: Option<OutgoingView>,
    pub deliver: Option<Seq<ResponseView>>,
    pub next: Next,
}

/// What a list of responses stands for.
pub open spec fn responses_view(responses: Seq<Response>) -> Seq<ResponseView> {
    responses.map_values(|response: Response| response@)
}

impl View for Frame {
    type V = FrameView;

    open spec fn view(&self) -> FrameView {
        FrameView { opcode: self.opcode, payload: self.payload@ }
    }
}

impl View for Phase {
    type V = PhaseView;

    open spec fn view(&self) -> PhaseView {
        match self {
            Phase::Registering(request) => PhaseView::Registering(request@),
            Phase::Authorizing => PhaseView::Authorizing,
            Phase::Idle => PhaseView::Idle,
            Phase::Polling => PhaseView::Polling,
            Phase::Collecting { remaining, responses } => PhaseView::Collecting {
                remaining: *remaining,
                responses: responses_view(responses@),
            },
            Phase::Finished => PhaseView::Finished,
        }
    }
}

impl View for Event {
    type V = EventView;

    open spec fn view(&self) -> EventView {
        match self {
            Event::Frame(frame) => EventView::Frame(frame@),
            Event::ReadFailed => EventView::ReadFailed,
            Event::Timeout => EventView::Timeout,
            Event::Queued(queued) => EventView::Queued(
                match queued {
                    Some(request) => Some((request.message@, request.response_count)),
                    None => None,
                },
            ),
        }
    }
}

impl View for Outgoing {
    type V = OutgoingView;

    open spec fn view(&self) -> OutgoingView {
        match self {
            Outgoing::Text(text) => OutgoingView::Text(text@),
            Outgoing::Ping => OutgoingView::Ping,
        }
    }
}

impl View for Step {
    type V = StepView;

    open spec fn view(&self) -> StepView {
        StepView {
            send: match self.send {
                Some(outgoing) => Some(outgoing@),
                None => None,
            },
            deliver: match self.deliver {
                Some(responses) => Some(responses_view(responses@)),
                None => None,
            },
            next: self.next,
        }
    }
}

impl SIPRequest {
    /// A message to send.
    pub fn new(message: SipMessage, response_count: usize) -> (request: SIPRequest)
        ensures
            request.message@ == message@,
            request.response_count == response_count,
    {
        SIPRequest { message, response_count }
    }
}

/// The text that a frame must hold.
pub open spec fn frame_text(frame: FrameView) -> Result<Seq<char>, SipError> {
    if frame.opcode != Opcode::Text {
        Err(SipError::UnexpectedFrame)
    } else if valid_utf8(frame.payload) {
        Ok(decode_utf8(frame.payload))
    } else {
        Err(SipError::InvalidUtf8)
    }
}

/// Whether a text that answers a message is passed over: it is empty, or the
/// other side ends a call, or it only keeps the connection alive.
pub open spec fn is_passed_over(text: Seq<char>) -> bool {
    ||| text.len() == 0
    ||| "BYE"@.is_prefix_of(text)
    ||| text == "\r\n\r\n"@
}

/// The response that a frame holds, if it holds one.
pub open spec fn frame_response(frame: FrameView) -> Result<Option<ResponseView>, SipError> {
    let readable = (frame.opcode == Opcode::Text || frame.opcode == Opcode::Binary)
        && frame.payload.len() > 0 && valid_utf8(frame.payload);
    if !readable || is_passed_over(decode_utf8(frame.payload)) {
        Ok(None)
    } else {
        match parsed_response(decode_utf8(frame.payload)) {
            None => Err(SipError::InvalidResponse),
            Some(raw) => Ok(Some(response_of(raw))),
        }
    }
}

/// Nothing to do but to wait.
pub open spec fn just(next: Next) -> StepView {
    StepView { send: None, deliver: None, next }
}

/// The connection ends with an error.
pub open spec fn failed(error: SipError) -> (PhaseView, StepView) {
    (PhaseView::Finished, just(Next::Stop(Some(error))))
}

/// What each phase waits for.
pub open spec fn awaited(phase: PhaseView) -> Next {
    match phase {
        PhaseView::Registering(_) => Next::Read,
        PhaseView::Authorizing => Next::Read,
        PhaseView::Idle => Next::Wait,
        PhaseView::Polling => Next::Poll,
        PhaseView::Collecting { .. } => Next::Read,
        PhaseView::Finished => Next::Stop(None),
    }
}

/// The answer to the challenge in a frame.
pub open spec fn challenge_answered(
    server: Seq<char>,
    username: Seq<char>,
    password: Seq<char>,
    request: MessageView,
    frame: FrameView,
    cnonce: Seq<char>,
) -> (PhaseView, StepView) {
    match frame_text(frame) {
        Err(error) => failed(error),
        Ok(text) => match parsed_response(text) {
            None => failed(SipError::InvalidResponse),
            Some(raw) => if sequence_exhausted(response_of(raw), request) {
                failed(SipError::ExhaustedCSeq)
            } else {
                match as_message(
                    authorized(
                        response_of(raw),
                        None,
                        request,
                        server,
                        username,
                        password,
                        cnonce,
                    ),
                ) {
                    Err(error) => failed(error),
                    Ok(message) => (
                        PhaseView::Authorizing,
                        StepView {
                            send: Some(OutgoingView::Text(message_text(message))),
                            deliver: None,
                            next: Next::Read,
                        },
                    ),
                }
            },
        },
    }
}

/// The request to register that answers a challenge: the second in its call,
/// with the answer in one more header.
pub open spec fn second_register(
    call_id: Seq<char>,
    server: Seq<char>,
    username: Seq<char>,
    address: Seq<char>,
    authorization: HeaderView,
) -> RequestView {
    let first = register_request(call_id, server, username, address);
    RequestView {
        headers: first.headers.update(
            5,
            header("CSeq"@, cseq_text(2, Method::Register)),
        ).push(authorization),
        ..first
    }
}

/// Whether a frame is a challenge that can be answered.
pub open spec fn is_challenge(frame: FrameView) -> bool {
    &&& frame_text(frame) is Ok
    &&& parsed_response(frame_text(frame)->Ok_0) is Some
    &&& is_answerable(response_of(parsed_response(frame_text(frame)->Ok_0)->0))
}

/// The answer to the challenge in a frame.
pub open spec fn register_authorization(
    server: Seq<char>,
    username: Seq<char>,
    password: Seq<char>,
    frame: FrameView,
    cnonce: Seq<char>,
) -> HeaderView {
    let challenge = challenge_of(
        response_of(parsed_response(frame_text(frame)->Ok_0)->0),
    )->Ok_0;
    authorization_header(
        challenge,
        challenge.algorithm->0,
        None,
        Method::Register,
        server,
        username,
        password,
        cnonce,
    )
}

/// The connection answers the challenge of `frame` to the request to register
/// that it sent.
pub open spec fn register_answered(
    call_id: Seq<char>,
    server: Seq<char>,
    username: Seq<char>,
    password: Seq<char>,
    address: Seq<char>,
    frame: FrameView,
    cnonce: Seq<char>,
) -> (PhaseView, StepView) {
    let second = second_register(
        call_id,
        server,
        username,
        address,
        register_authorization(server, username, password, frame, cnonce),
    );
    (
        PhaseView::Authorizing,
        StepView {
            send: Some(OutgoingView::Text(request_text(second))),
            deliver: None,
            next: Next::Read,
        },
    )
}

/// One more frame that answers a message, with the response that it holds.
pub open spec fn response_collected(
    remaining: usize,
    responses: Seq<ResponseView>,
    found: Option<ResponseView>,
) -> (PhaseView, StepView) {
    let collected = match found {
        Some(response) => responses.push(response),
        None => responses,
    };
    if remaining <= 1 {
        (PhaseView::Idle, StepView { send: None, deliver: Some(collected), next: Next::Wait })
    } else {
        (
            PhaseView::Collecting { remaining: (remaining - 1) as usize, responses: collected },
            just(Next::Read),
        )
    }
}

/// One more frame that answers a message.
pub open spec fn frame_collected(
    remaining: usize,
    responses: Seq<ResponseView>,
    frame: FrameView,
) -> (PhaseView, StepView) {
    match frame_response(frame) {
        Err(error) => failed(error),
        Ok(found) => response_collected(remaining, responses, found),
    }
}

/// What is sent for a queued message.
pub open spec fn message_sent(message: MessageView, response_count: usize) -> (
    PhaseView,
    StepView,
) {
    let send = Some(OutgoingView::Text(message_text(message)));
    if response_count == 0 {
        (PhaseView::Idle, StepView { send, deliver: Some(Seq::empty()), next: Next::Wait })
    } else {
        (
            PhaseView::Collecting { remaining: response_count, responses: Seq::empty() },
            StepView { send, deliver: None, next: Next::Read },
        )
    }
}

/// How the connection goes on when something happens. What a phase does not
/// wait for changes nothing.
pub open spec fn stepped(
    server: Seq<char>,
    username: Seq<char>,
    password: Seq<char>,
    phase: PhaseView,
    event: EventView,
    cnonce: Seq<char>,
) -> (PhaseView, StepView) {
    match (phase, event) {
        (PhaseView::Registering(request), EventView::Frame(frame)) => challenge_answered(
            server,
            username,
            password,
            request,
            frame,
            cnonce,
        ),
        (PhaseView::Authorizing, EventView::Frame(frame)) => match frame_text(frame) {
            Err(error) => failed(error),
            Ok(_) => (PhaseView::Idle, just(Next::Wait)),
        },
        (PhaseView::Collecting { remaining, responses }, EventView::Frame(frame)) =>
            frame_collected(remaining, responses, frame),
        (PhaseView::Idle, EventView::Frame(frame)) => if frame.opcode == Opcode::Close {
            (PhaseView::Finished, just(Next::Stop(None)))
        } else {
            (PhaseView::Polling, just(Next::Poll))
        },
        (PhaseView::Registering(_), EventView::ReadFailed) => failed(SipError::ConnectionLost),
        (PhaseView::Authorizing, EventView::ReadFailed) => failed(SipError::ConnectionLost),
        (PhaseView::Collecting { .. }, EventView::ReadFailed) => failed(SipError::ConnectionLost),
        (PhaseView::Idle, EventView::ReadFailed) => (PhaseView::Idle, just(Next::WaitOut)),
        (PhaseView::Idle, EventView::Timeout) => (
            PhaseView::Idle,
            StepView { send: Some(OutgoingView::Ping), deliver: None, next: Next::Wait },
        ),
        (PhaseView::Polling, EventView::Queued(None)) => (PhaseView::Idle, just(Next::Wait)),
        (PhaseView::Polling, EventView::Queued(Some((message, response_count)))) => message_sent(
            message,
            response_count,
        ),
        (phase, _) => (phase, just(awaited(phase))),
    }
}

/// Nothing to do but to wait.
fn wait_for(next: Next) -> (step: Step)
    ensures
        step@ == just(next),
{
    Step { send: None, deliver: None, next }
}

/// The connection ends with an error.
fn fail(error: SipError) -> (outcome: (Phase, Step))
    ensures
        (outcome.0@, outcome.1@) == failed(error),
{
    (Phase::Finished, wait_for(Next::Stop(Some(error))))
}

/// The request to register from the given address was sent.
pub open spec fn registering(
    call_id: Seq<char>,
    server: Seq<char>,
    username: Seq<char>,
    address: Seq<char>,
) -> (PhaseView, StepView) {
    let request = MessageView::Request(register_request(call_id, server, username, address));
    (
        PhaseView::Registering(request),
        StepView {
            send: Some(OutgoingView::Text(message_text(request))),
            deliver: None,
            next: Next::Read,
        },
    )
}

/// Opens the connection on a machine with the given address: the request to
/// register is sent if there is an address, and only then.
pub fn start_from(call_id: &CallID, account: &SipAuthInfo, address: Option<&str>) -> (started:
    Result<(Phase, Step), SipError>)
    ensures
        match (address, started) {
            (Some(address), Ok((phase, step))) => (phase@, step@) == registering(
                call_id.0@,
                account.address@,
                account.username@,
                address@,
            ),
            (None, Err(error)) => error == SipError::NoLocalAddress,
            _ => false,
        },
{
    match address {
        Some(address) => {
            let request = SipMessage::Request(
                register_request_from(call_id, &account.address, &account.username, address),
            );
            let text = request.text();
            Ok(
                (
                    Phase::Registering(request),
                    Step { send: Some(Outgoing::Text(text)), deliver: None, next: Next::Read },
                ),
            )
        },
        None => Err(SipError::NoLocalAddress),
    }
}

/// Opens the connection: the request to register is sent. Which address this
/// machine has, and whether it has one, is left open.
pub fn start(call_id: CallID, account: &SipAuthInfo) -> (started: Result<(Phase, Step), SipError>)
    ensures
        match started {
            Ok((phase, step)) => exists|address: Seq<char>|
                is_dotted(address) && (phase@, step@) == #[trigger] registering(
                    call_id.0@,
                    account.address@,
                    account.username@,
                    address,
                ),
            Err(error) => error == SipError::NoLocalAddress,
        },
{
    match local_address() {
        Ok(address) => start_from(&call_id, account, Some(&address)),
        Err(_) => start_from(&call_id, account, None),
    }
}

/// The text that a frame must hold.
fn read_frame_text(frame: Frame) -> (read: Result<String, SipError>)
    ensures
        match read {
            Ok(text) => frame_text(frame@) == Ok::<_, SipError>(text@),
            Err(error) => frame_text(frame@) == Err::<Seq<char>, _>(error),
        },
{
    if frame.opcode != Opcode::Text {
        return Err(SipError::UnexpectedFrame);
    }
    parse_utf8(frame.payload)
}

/// Whether a text that answers a message is passed over.
pub fn passes_over(text: &str) -> (passes: bool)
    ensures
        passes == is_passed_over(text@),
        passes == (text@.len() == 0 || "BYE"@.is_prefix_of(text@) || text@ == "\r\n\r\n"@),
{
    text.is_empty() || starts_with(text, "BYE") || same_text(text, "\r\n\r\n")
}

/// The response that a frame holds, if it holds one.
fn read_frame_response(frame: Frame) -> (read: Result<Option<Response>, SipError>)
    ensures
        match read {
            Ok(Some(response)) => frame_response(frame@) == Ok::<_, SipError>(Some(response@)),
            Ok(None) => frame_response(frame@) == Ok::<Option<ResponseView>, SipError>(None),
            Err(error) => frame_response(frame@) == Err::<Option<ResponseView>, _>(error),
        },
{
    let readable = (frame.opcode == Opcode::Text || frame.opcode == Opcode::Binary)
        && frame.payload.len() > 0;
    if !readable {
        return Ok(None);
    }
    let text = match parse_utf8(frame.payload) {
        Ok(text) => text,
        Err(_) => return Ok(None),
    };
    if passes_over(&text) {
        return Ok(None);
    }
    match Response::parse(&text) {
        Ok(response) => Ok(Some(response)),
        Err(error) => Err(error),
    }
}

/// The answer to the challenge in a frame.
fn answer_challenge(
    account: &SipAuthInfo,
    request: SipMessage,
    frame: Frame,
    cnonce: &str,
) -> (outcome: (Phase, Step))
    ensures
        (outcome.0@, outcome.1@) == challenge_answered(
            account.address@,
            account.username@,
            account.password@,
            request@,
            frame@,
            cnonce@,
        ),
        forall|call_id: Seq<char>, address: Seq<char>|
            request@ == MessageView::Request(
                #[trigger] register_request(
                    call_id,
                    account.address@,
                    account.username@,
                    address,
                ),
            ) && is_challenge(frame@) ==> (outcome.0@, outcome.1@) == register_answered(
                call_id,
                account.address@,
                account.username@,
                account.password@,
                address,
                frame@,
                cnonce@,
            ),
{
    let ghost first = request@;
    proof {
        assert forall|call_id: Seq<char>, address: Seq<char>|
            first == MessageView::Request(
                #[trigger] register_request(
                    call_id,
                    account.address@,
                    account.username@,
                    address,
                ),
            ) implies is_numbered(first, 1, Method::Register) by {
            lemma_register_headers(call_id, account.address@, account.username@, address);
        }
        assert forall|call_id: Seq<char>, address: Seq<char>, cseq: CSeqView, added: HeaderView|
            cseq == (CSeqView {
                seq: 1,
                method: method_text(Method::Register),
            }) implies #[trigger] next_request(
            register_request(call_id, account.address@, account.username@, address),
            cseq,
            added,
        ) == second_register(call_id, account.address@, account.username@, address, added) by {
            lemma_register_headers(call_id, account.address@, account.username@, address);
        }
    }
    let text = match read_frame_text(frame) {
        Ok(text) => text,
        Err(error) => return fail(error),
    };
    let response = match Response::parse(&text) {
        Ok(response) => response,
        Err(error) => return fail(error),
    };
    match authorize_request_checked(
        &response,
        None,
        request,
        &account.address,
        &account.username,
        &account.password,
        cnonce,
    ) {
        Ok(message) => (
            Phase::Authorizing,
            Step { send: Some(Outgoing::Text(message.text())), deliver: None, next: Next::Read },
        ),
        Err(error) => fail(error),
    }
}

/// One more frame that answers a message, with the response that it holds.
pub fn collect_response(
    remaining: usize,
    responses: Vec<Response>,
    found: Option<Response>,
) -> (outcome: (Phase, Step))
    ensures
        (outcome.0@, outcome.1@) == response_collected(
            remaining,
            responses_view(responses@),
            match found {
                Some(response) => Some(response@),
                None => None,
            },
        ),
{
    let mut collected = responses;
    let ghost before = responses_view(collected@);
    if let Some(response) = found {
        collected.push(response);
        assert(responses_view(collected@) =~= before.push(response@));
    }
    if remaining <= 1 {
        (Phase::Idle, Step { send: None, deliver: Some(collected), next: Next::Wait })
    } else {
        (
            Phase::Collecting { remaining: remaining - 1, responses: collected },
            wait_for(Next::Read),
        )
    }
}

/// One more frame that answers a message.
fn collect_frame(remaining: usize, responses: Vec<Response>, frame: Frame) -> (outcome: (
    Phase,
    Step,
))
    ensures
        (outcome.0@, outcome.1@) == frame_collected(
            remaining,
            responses_view(responses@),
            frame@,
        ),
{
    match read_frame_response(frame) {
        Ok(found) => collect_response(remaining, responses, found),
        Err(error) => fail(error),
    }
}

/// What is sent for a queued message.
fn send_message(request: SIPRequest) -> (outcome: (Phase, Step))
    ensures
        (outcome.0@, outcome.1@) == message_sent(request.message@, request.response_count),
{
    let send = Some(Outgoing::Text(request.message.text()));
    let responses: Vec<Response> = Vec::new();
    assert(responses_view(responses@) =~= Seq::empty());
    if request.response_count == 0 {
        (Phase::Idle, Step { send, deliver: Some(responses), next: Next::Wait })
    } else {
        (
            Phase::Collecting { remaining: request.response_count, responses },
            Step { send, deliver: None, next: Next::Read },
        )
    }
}

/// How the connection goes on when something happens, with the given client
/// nonce where a challenge is answered.
pub fn step_with(account: &SipAuthInfo, phase: Phase, event: Event, cnonce: &str) -> (outcome: (
    Phase,
    Step,
))
    ensures
        (outcome.0@, outcome.1@) == stepped(
            account.address@,
            account.username@,
            account.password@,
            phase@,
            event@,
            cnonce@,
        ),
        forall|call_id: Seq<char>, address: Seq<char>|
            phase@ == PhaseView::Registering(
                MessageView::Request(
                    #[trigger] register_request(
                        call_id,
                        account.address@,
                        account.username@,
                        address,
                    ),
                ),
            ) && event@ is Frame && is_challenge(event@->Frame_0) ==> (outcome.0@, outcome.1@)
                == register_answered(
                call_id,
                account.address@,
                account.username@,
                account.password@,
                address,
                event@->Frame_0,
                cnonce@,
            ),
{
    match (phase, event) {
        (Phase::Registering(request), Event::Frame(frame)) => answer_challenge(
            account,
            request,
            frame,
            cnonce,
        ),
        (Phase::Authorizing, Event::Frame(frame)) => match read_frame_text(frame) {
            Ok(_) => (Phase::Idle, wait_for(Next::Wait)),
            Err(error) => fail(error),
        },
        (Phase::Collecting { remaining, responses }, Event::Frame(frame)) => collect_frame(
            remaining,
            responses,
            frame,
        ),
        (Phase::Idle, Event::Frame(frame)) => if frame.opcode == Opcode::Close {
            (Phase::Finished, wait_for(Next::Stop(None)))
        } else {
            (Phase::Polling, wait_for(Next::Poll))
        },
        (Phase::Registering(_), Event::ReadFailed) => fail(SipError::ConnectionLost),
        (Phase::Authorizing, Event::ReadFailed) => fail(SipError::ConnectionLost),
        (Phase::Collecting { .. }, Event::ReadFailed) => fail(SipError::ConnectionLost),
        (Phase::Idle, Event::ReadFailed) => (Phase::Idle, wait_for(Next::WaitOut)),
        (Phase::Idle, Event::Timeout) => (
            Phase::Idle,
            Step { send: Some(Outgoing::Ping), deliver: None, next: Next::Wait },
        ),
        (Phase::Polling, Event::Queued(None)) => (Phase::Idle, wait_for(Next::Wait)),
        (Phase::Polling, Event::Queued(Some(request))) => send_message(request),
        (phase, _) => {
            let next = match &phase {
                Phase::Registering(_) => Next::Read,
                Phase::Authorizing => Next::Read,
                Phase::Idle => Next::Wait,
                Phase::Polling => Next::Poll,
                Phase::Collecting { .. } => Next::Read,
                Phase::Finished => Next::Stop(None),
            };
            (phase, wait_for(next))
        },
    }
}

/// How the connection goes on when something happens.
pub fn step(account: &SipAuthInfo, phase: Phase, event: Event) -> (outcome: (Phase, Step))
    ensures
        exists|cnonce: Seq<char>|
            (phase is Registering ==> is_random_id(cnonce)) && (outcome.0@, outcome.1@)
                == #[trigger] stepped(
                account.address@,
                account.username@,
                account.password@,
                phase@,
                event@,
                cnonce,
            ),
        forall|call_id: Seq<char>, address: Seq<char>|
            phase@ == PhaseView::Registering(
                MessageView::Request(
                    #[trigger] register_request(
                        call_id,
                        account.address@,
                        account.username@,
                        address,
                    ),
                ),
            ) && event@ is Frame && is_challenge(event@->Frame_0) ==> exists|cnonce: Seq<char>|
                is_random_id(cnonce) && (outcome.0@, outcome.1@)
                    == #[trigger] register_answered(
                    call_id,
                    account.address@,
                    account.username@,
                    account.password@,
                    address,
                    event@->Frame_0,
                    cnonce,
                ),
{
    let cnonce = match &phase {
        Phase::Registering(_) => random_id(),
        _ => String::new(),
    };
    step_with(account, phase, event, &cnonce)
}

/// Why a text is not the name of a server.
#[verifier::external_type_specification]
#[verifier::external_body]
pub struct ExInvalidDnsNameError(tokio_rustls::rustls::client::InvalidDnsNameError);

/// Whether a text names a server.
pub uninterp spec fn is_server_name(domain: Seq<char>) -> bool;

/// Whether a text names a server.
///
/// `tokio_rustls::rustls::ServerName::try_from` depends on the text alone: it
/// takes the names of the domain name system and addresses of machines.
#[verifier::external_body]
fn read_server_name(domain: &str) -> (read: Result<
    (),
    tokio_rustls::rustls::client::InvalidDnsNameError,
>)
    ensures
        read is Ok <==> is_server_name(domain@),
{
    tokio_rustls::rustls::ServerName::try_from(domain).map(|_| ())
}

/// Whether the domain of the exchange can be connected to.
pub fn check_domain(sip_server_domain: &str) -> (checked: Result<(), SipError>)
    ensures
        match checked {
            Ok(_) => is_server_name(sip_server_domain@),
            Err(error) => !is_server_name(sip_server_domain@) && error == SipError::InvalidDomain,
        },
{
    match read_server_name(sip_server_domain) {
        Ok(_) => Ok(()),
        Err(_) => Err(SipError::InvalidDomain),
    }
}

/// What opens the connection on the way below it.
#[derive(Debug)]
pub struct UpgradeRequest {
    /// Where to connect to, host and port.
    pub address: String,
    pub method: String,
    pub uri: String,
    pub headers: Vec<Header>,
}

/// Where to connect to for a domain.
pub open spec fn upgrade_address(domain: Seq<char>) -> Seq<char> {
    domain + ":443"@
}

/// The headers of the request that opens the connection.
pub open spec fn upgrade_headers(domain: Seq<char>, key: Seq<char>) -> Seq<HeaderView> {
    seq![
        header("Host"@, domain),
        header("upgrade"@, "websocket"@),
        header("connection"@, "Upgrade"@),
        header("Sec-WebSocket-Key"@, key),
        header("Sec-WebSocket-Protocol"@, "sip"@),
        header("Sec-WebSocket-Version"@, "13"@),
    ]
}

/// Whether a request opens a connection to a domain with a key.
pub open spec fn is_upgrade(request: UpgradeRequest, domain: Seq<char>, key: Seq<char>) -> bool {
    &&& request.address@ == upgrade_address(domain)
    &&& request.method@ == "GET"@
    &&& request.uri@ == "/ws"@
    &&& headers_view(request.headers@) == upgrade_headers(domain, key)
}

/// The request that opens the connection, with the given key.
pub fn upgrade_request_with(sip_server_domain: &str, key: &str) -> (request: UpgradeRequest)
    ensures
        is_upgrade(request, sip_server_domain@, key@),
{
    let headers = vec![
        Header { name: "Host".to_owned(), value: sip_server_domain.to_owned() },
        Header { name: "upgrade".to_owned(), value: "websocket".to_owned() },
        Header { name: "connection".to_owned(), value: "Upgrade".to_owned() },
        Header { name: "Sec-WebSocket-Key".to_owned(), value: key.to_owned() },
        Header { name: "Sec-WebSocket-Protocol".to_owned(), value: "sip".to_owned() },
        Header { name: "Sec-WebSocket-Version".to_owned(), value: "13".to_owned() },
    ];
    assert(headers_view(headers@) =~= upgrade_headers(sip_server_domain@, key@));
    UpgradeRequest {
        address: sip_server_domain.to_owned().concat(":443"),
        method: "GET".to_owned(),
        uri: "/ws".to_owned(),
        headers,
    }
}

/// The request that opens the connection.
pub fn upgrade_request(sip_server_domain: &str) -> (request: UpgradeRequest)
    ensures
        exists|key: Seq<char>|
            is_websocket_key(key) && #[trigger] is_upgrade(request, sip_server_domain@, key),
{
    let key = websocket_key();
    upgrade_request_with(sip_server_domain, &key)
}

/// The responses that frames hold, in order.
pub open spec fn gathered(frames: Seq<FrameView>) -> Seq<ResponseView>
    decreases frames.len(),
{
    if frames.len() == 0 {
        Seq::empty()
    } else {
        match frame_response(frames.last()) {
            Ok(Some(response)) => gathered(frames.drop_last()).push(response),
            _ => gathered(frames.drop_last()),
        }
    }
}

/// Where the connection stands, and what it last asked for, after a queued
/// message and so many frames.
pub open spec fn exchanged(
    server: Seq<char>,
    username: Seq<char>,
    password: Seq<char>,
    message: MessageView,
    response_count: usize,
    frames: Seq<FrameView>,
    cnonce: Seq<char>,
) -> (PhaseView, StepView)
    decreases frames.len(),
{
    if frames.len() == 0 {
        stepped(
            server,
            username,
            password,
            PhaseView::Polling,
            EventView::Queued(Some((message, response_count))),
            cnonce,
        )
    } else {
        stepped(
            server,
            username,
            password,
            exchanged(
                server,
                username,
                password,
                message,
                response_count,
                frames.drop_last(),
                cnonce,
            ).0,
            EventView::Frame(frames.last()),
            cnonce,
        )
    }
}

/// A queued message is written at once, and its sender gets the responses that
/// the announced number of frames hold, in their order, with the last of these
/// frames and not before.
pub proof fn law_sender_gets_responses(
    server: Seq<char>,
    username: Seq<char>,
    password: Seq<char>,
    message: MessageView,
    response_count: usize,
    frames: Seq<FrameView>,
    cnonce: Seq<char>,
)
    requires
        frames.len() <= response_count,
        forall|i: int| 0 <= i < frames.len() ==> frame_response(#[trigger] frames[i]) is Ok,
    ensures
        ({
            let (phase, step) = exchanged(
                server,
                username,
                password,
                message,
                response_count,
                frames,
                cnonce,
            );
            &&& step.send == if frames.len() == 0 {
                Some(OutgoingView::Text(message_text(message)))
            } else {
                None
            }
            &&& frames.len() < response_count ==> step.deliver is None && step.next == Next::Read
                && phase == (PhaseView::Collecting {
                remaining: (response_count - frames.len()) as usize,
                responses: gathered(frames),
            })
            &&& frames.len() == response_count ==> step.deliver == Some(gathered(frames))
                && step.next == Next::Wait && phase == PhaseView::Idle
        }),
        gathered(frames).len() <= frames.len(),
    decreases frames.len(),
{
    if frames.len() > 0 {
        let before = frames.drop_last();
        assert forall|i: int| 0 <= i < before.len() implies frame_response(
            #[trigger] before[i],
        ) is Ok by {
            assert(before[i] == frames[i]);
        }
        law_sender_gets_responses(
            server,
            username,
            password,
            message,
            response_count,
            before,
            cnonce,
        );
        assert(frame_response(frames[frames.len() - 1]) is Ok);
    }
}

/// A connection that is over stays over and does nothing more, and one that ends
/// neither sends nor delivers anything.
pub proof fn law_over_stays_over(
    server: Seq<char>,
    username: Seq<char>,
    password: Seq<char>,
    phase: PhaseView,
    event: EventView,
    cnonce: Seq<char>,
)
    ensures
        ({
            let (next, step) = stepped(server, username, password, phase, event, cnonce);
            &&& next is Finished <==> step.next is Stop
            &&& next is Finished ==> step.send is None && step.deliver is None
            &&& phase is Finished ==> next is Finished && step.next == Next::Stop(None)
        }),
{
}

/// What is waited for fits the phase, except that after a failure to read the
/// keep-alive time is waited out.
pub proof fn law_waits_for_what_counts(
    server: Seq<char>,
    username: Seq<char>,
    password: Seq<char>,
    phase: PhaseView,
    event: EventView,
    cnonce: Seq<char>,
)
    ensures
        ({
            let (next, step) = stepped(server, username, password, phase, event, cnonce);
            ||| step.next == awaited(next)
            ||| step.next == Next::WaitOut && phase is Idle && next is Idle
                && event == EventView::ReadFailed
            ||| next is Finished && step.next is Stop
        }),
{
}

/// Messages are taken from the queue one at a time: between two of them the
/// connection is idle again, and a frame has come.
pub proof fn law_messages_are_taken_one_by_one(
    server: Seq<char>,
    username: Seq<char>,
    password: Seq<char>,
    phase: PhaseView,
    event: EventView,
    cnonce: Seq<char>,
)
    ensures
        ({
            let (next, step) = stepped(server, username, password, phase, event, cnonce);
            &&& next is Polling && phase !is Polling ==> phase is Idle && event is Frame
            &&& next is Collecting && phase !is Collecting ==> phase is Polling
            &&& step.deliver is Some ==> next is Idle && (phase is Polling || phase is Collecting)
        }),
{
}

/// A ping is sent if and only if nothing came in time while the connection was
/// idle, and it stays idle then.
pub proof fn law_idle_connection_is_pinged(
    server: Seq<char>,
    username: Seq<char>,
    password: Seq<char>,
    phase: PhaseView,
    event: EventView,
    cnonce: Seq<char>,
)
    ensures
        ({
            let (next, step) = stepped(server, username, password, phase, event, cnonce);
            let pinged = phase is Idle && event == EventView::Timeout;
            &&& step.send == Some(OutgoingView::Ping) <==> pinged
            &&& pinged ==> next is Idle && step.next == Next::Wait
        }),
{
}

} // verus!
