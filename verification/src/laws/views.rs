//! That the values which the laws speak of hold all that the types hold.

use vstd::prelude::*;

use crate::auth::outcome_view;
use crate::call::{
    address_view, Call, CallAction, CallActionView, CallEvent, CallEventView, CallPhase,
    CallPhaseView,
};
use crate::connection::{
    responses_view, Event, EventView, Frame, Outgoing, OutgoingView, Phase, PhaseView, SIPRequest,
    Step,
};
use crate::error::SipError;
use crate::media::notice_view;
use crate::message::{
    headers_view, optional_auth, optional_text, params_view, Auth, Header, MessageView, Param,
    ParamView, Request, Response, Scheme, SchemeView, SipMessage, Uri, Via,
};
use crate::parser::{CSeq, Challenge, RawResponse};
use crate::room::{Reaction, ReactionView};
use crate::session::{Login, LoginView, StoredUser};

verus! {

/// Lists and optional values stand for what they hold, in order.
pub proof fn law_lists_are_shown(
    headers: Seq<Header>,
    params: Seq<Param>,
    responses: Seq<Response>,
    index: int,
    text: String,
    auth: Auth,
    address: &str,
)
    ensures
        headers_view(headers).len() == headers.len(),
        params_view(params).len() == params.len(),
        responses_view(responses).len() == responses.len(),
        0 <= index < headers.len() ==> headers_view(headers)[index] == headers[index]@,
        0 <= index < params.len() ==> params_view(params)[index] == params[index]@,
        0 <= index < responses.len() ==> responses_view(responses)[index] == responses[index]@,
        optional_text(Some(text)) == Some(text@),
        optional_text(None) is None,
        notice_view(Some(text)) == Some(text@),
        notice_view(None) is None,
        optional_auth(Some(auth)) == Some(auth@),
        optional_auth(None) is None,
        address_view(Some(address)) == Some(address@),
        address_view(None) is None,
{
}

/// Addresses, parameters and headers stand for what they hold.
pub proof fn law_parts_are_shown(
    uri: Uri,
    auth: Auth,
    scheme: Scheme,
    text: String,
    contents: Via,
    header: Header,
)
    ensures
        uri@.scheme is Some <==> uri.scheme is Some,
        uri.scheme is Some ==> uri@.scheme == Some(uri.scheme->0@),
        uri@.auth == optional_auth(uri.auth),
        uri@.host == uri.host@,
        uri@.port == uri.port,
        uri@.params == uri.params@,
        auth@.user == auth.user@,
        auth@.password == optional_text(auth.password),
        Scheme::Sip@ == SchemeView::Sip,
        Scheme::Sips@ == SchemeView::Sips,
        Scheme::Other(text)@ == SchemeView::Other(text@),
        Param::Branch(text)@ == ParamView::Branch(text@),
        Param::Tag(text)@ == ParamView::Tag(text@),
        Param::Transport(text)@ == ParamView::Transport(text@),
        Param::Other(text)@ == ParamView::Other(text@),
        contents@.version == contents.version@,
        contents@.transport == contents.transport@,
        contents@.sent_by == contents.sent_by@,
        contents@.params == params_view(contents.params@),
        header@.name == header.name@,
        header@.value == header.value@,
{
}

/// Messages, and what is read of them, stand for what they hold.
pub proof fn law_messages_are_shown(
    request: Request,
    response: Response,
    raw: RawResponse,
    cseq: CSeq,
    challenge: Challenge,
    error: SipError,
    index: int,
)
    ensures
        request@.method == request.method,
        request@.uri == request.uri@,
        request@.version == request.version,
        request@.headers == headers_view(request.headers@),
        request@.body == request.body@,
        response@.version == response.version,
        response@.status == response.status@,
        response@.headers == headers_view(response.headers@),
        response@.body == response.body@,
        SipMessage::Request(request)@ == MessageView::Request(request@),
        SipMessage::Response(response)@ == MessageView::Response(response@),
        raw@.version == raw.version,
        raw@.status == raw.status@,
        raw@.header_lines.len() == raw.header_lines@.len(),
        0 <= index < raw.header_lines@.len() ==> raw@.header_lines[index]
            == raw.header_lines@[index]@,
        raw@.body == raw.body@,
        cseq@.seq == cseq.seq,
        cseq@.method == cseq.method@,
        challenge@.realm == challenge.realm@,
        challenge@.nonce == challenge.nonce@,
        challenge@.opaque == optional_text(challenge.opaque),
        challenge@.algorithm == optional_text(challenge.algorithm),
        outcome_view(Ok(SipMessage::Request(request))) == Ok::<_, SipError>(
            MessageView::Request(request@),
        ),
        outcome_view(Err(error)) == Err::<MessageView, _>(error),
{
}

/// The connection stands for what it holds, and so does what comes and goes.
pub proof fn law_connection_is_shown(
    message: SipMessage,
    remaining: usize,
    responses: Vec<Response>,
    frame: Frame,
    request: SIPRequest,
    text: String,
    step: Step,
)
    ensures
        Phase::Registering(message)@ == PhaseView::Registering(message@),
        Phase::Authorizing@ == PhaseView::Authorizing,
        Phase::Idle@ == PhaseView::Idle,
        Phase::Polling@ == PhaseView::Polling,
        (Phase::Collecting { remaining, responses })@ == (PhaseView::Collecting {
            remaining,
            responses: responses_view(responses@),
        }),
        Phase::Finished@ == PhaseView::Finished,
        frame@.opcode == frame.opcode,
        frame@.payload == frame.payload@,
        Event::Frame(frame)@ == EventView::Frame(frame@),
        Event::ReadFailed@ == EventView::ReadFailed,
        Event::Timeout@ == EventView::Timeout,
        Event::Queued(None)@ == EventView::Queued(None),
        Event::Queued(Some(request))@ == EventView::Queued(
            Some((request.message@, request.response_count)),
        ),
        Outgoing::Text(text)@ == OutgoingView::Text(text@),
        Outgoing::Ping@ == OutgoingView::Ping,
        step@.next == step.next,
        step.send is None ==> step@.send is None,
        step.send is Some ==> step@.send == Some(step.send->0@),
        step.deliver is None ==> step@.deliver is None,
        step.deliver is Some ==> step@.deliver == Some(responses_view(step.deliver->0@)),
{
}

/// A call stands for what it holds, and so does what it needs and what happens to
/// it.
pub proof fn law_call_is_shown(
    call: Call,
    message: SipMessage,
    response: Response,
    responses: Vec<Response>,
    count: usize,
    text: String,
    error: SipError,
)
    ensures
        call@.sip_address == call.sip_address@,
        call@.uri == call.uri@,
        call@.call_id == call.call_id.0@,
        call@.server == call.account.address@,
        call@.username == call.account.username@,
        call@.password == call.account.password@,
        CallPhase::Invited(message)@ == CallPhaseView::Invited(message@),
        (CallPhase::Challenged { invite: message, response })@ == (CallPhaseView::Challenged {
            invite: message@,
            response: response@,
        }),
        CallPhase::Answered@ == CallPhaseView::Answered,
        CallPhase::Accepted(response)@ == CallPhaseView::Accepted(response@),
        CallPhase::Acknowledged@ == CallPhaseView::Acknowledged,
        CallPhase::Finished@ == CallPhaseView::Finished,
        CallEvent::Responses(responses)@ == CallEventView::Responses(responses_view(responses@)),
        CallEvent::Sent@ == CallEventView::Sent,
        CallEvent::DescriptionSet@ == CallEventView::DescriptionSet,
        CallAction::Send(message, count)@ == CallActionView::Send(message@, count),
        CallAction::SetDescription(text)@ == CallActionView::SetDescription(text@),
        CallAction::Notify(text)@ == CallActionView::Notify(text@),
        CallAction::Wait@ == CallActionView::Wait,
        CallAction::Fail(error)@ == CallActionView::Fail(error),
{
}

/// Reactions and logins stand for what they hold.
pub proof fn law_decisions_are_shown(first: String, second: String, third: String, user: StoredUser)
    ensures
        Reaction::Ignore@ == ReactionView::Ignore,
        (Reaction::Help { plain: first, html: second })@ == (ReactionView::Help {
            plain: first@,
            html: second@,
        }),
        Reaction::Notify(first)@ == ReactionView::Notify(first@),
        (Reaction::Dial { notice: first, sip_address: second })@ == (ReactionView::Dial {
            notice: first@,
            sip_address: second@,
        }),
        (Login::Restore { user_id: first, device_id: second, access_token: third })@ == (
        LoginView::Restore { user_id: first@, device_id: second@, access_token: third@ }),
        (Login::Password { username: first, display_name: second })@ == (LoginView::Password {
            username: first@,
            display_name: second@,
        }),
        user@.username == user.username@,
        user@.access_token == user.access_token@,
        user@.device_id == user.device_id@,
{
}

} // verus!
