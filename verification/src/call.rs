//! Dialling out: the exchange of requests and responses that sets up a call.

use vstd::prelude::*;
use vstd::utf8::{decode_utf8, valid_utf8};

use crate::auth::{
    as_message, authorization_header, authorize_request_checked, authorized, challenge_of,
    is_answerable, is_numbered, law_answering_keeps_the_rest, next_request, sequence_exhausted,
    SipAuthInfo,
};
use crate::branch::{
    branch_of, find_branch, generate_new_branch, law_rebranching_keeps_the_rest, rebranched,
    second_branch, via_of, with_branch,
};
use crate::connection::responses_view;
use crate::error::SipError;
use crate::message::{
    find_value, header_index, header_value, lemma_header_index, HeaderView, MessageView, Method,
    RequestView, Response, ResponseView, SchemeView, SipMessage, Uri, UriView,
};
use crate::parser::{
    is_description, is_sip_scheme, own_via, parse_answer, parse_contact, parse_utf8,
    parsed_contact, parsed_uri, plain_uri, CSeqView,
};
use crate::sip::{
    ack_request, ack_request_from, first_branch, header, invite_request, invite_request_from,
    is_labelled, law_requests_are_labelled, law_user_is_written, lemma_invite_headers,
    new_user_uri, user_uri, CallID,
};
use crate::surroundings::{is_random_id, local_address, random_id};
use crate::text::{is_alphanumeric, is_dotted, is_host_name, starts_with};
use crate::wire::{cseq_text, method_text, scheme_text, uri_text, via_text};

verus! {

/// A call that is being set up.
pub struct Call {
    /// The address as it was dialled.
    pub sip_address: String,
    /// The address that it stands for.
    pub uri: Uri,
    pub call_id: CallID,
    pub account: SipAuthInfo,
}

/// How far a call has come.
#[derive(Debug)]
pub enum CallPhase {
    /// The given invitation was sent, and the challenge is awaited.
    Invited(SipMessage),
    /// The challenge was acknowledged, and is now to be answered.
    Challenged { invite: SipMessage, response: Response },
    /// The challenge was answered, and the acceptance is awaited.
    Answered,
    /// The call was accepted, and its description is being applied.
    Accepted(Response),
    /// The acceptance was acknowledged.
    Acknowledged,
    /// The call is set up, or has failed.
    Finished,
}

/// What happened to a call.
#[derive(Debug)]
pub enum CallEvent {
    /// The responses to the last message came.
    Responses(Vec<Response>),
    /// The last message was sent.
    Sent,
    /// The description of the other side was applied.
    DescriptionSet,
}

/// What a call needs next.
#[derive(Debug)]
pub enum CallAction {
    /// Send a message that so many frames will answer.
    Send(SipMessage, usize),
    /// Apply the description of the other side.
    SetDescription(String),
    /// Tell the room that the call is set up.
    Notify(String),
    /// Nothing until something else happens.
    Wait,
    /// Give up.
    Fail(SipError),
}

/// What a [`Call`] stands for.
pub struct CallView {
    pub sip_address: Seq<char>,
    pub uri: UriView,
    pub call_id: Seq<char>,
    pub server: Seq<char>,
    pub username: Seq<char>,
    pub password: Seq<char>,
}

/// What a [`CallPhase`] stands for.
pub enum CallPhaseView {
    Invited(MessageView),
    Challenged { invite: MessageView, response: ResponseView },
    Answered,
    Accepted(ResponseView),
    Acknowledged,
    Finished,
}

/// What a [`CallEvent`] stands for.
pub enum CallEventView {
    Responses(Seq<ResponseView>),
    Sent,
    DescriptionSet,
}

/// What a [`CallAction`] stands for.
pub enum CallActionView {
    Send(MessageView, usize),
    SetDescription(Seq<char>),
    Notify(Seq<char>),
    Wait,
    Fail(SipError),
}

impl View for Call {
    type V = CallView;

    open spec fn view(&self) -> CallView {
        CallView {
            sip_address: self.sip_address@,
            uri: self.uri@,
            call_id: self.call_id.0@,
            server: self.account.address@,
            username: self.account.username@,
            password: self.account.password@,
        }
    }
}

impl View for CallPhase {
    type V = CallPhaseView;

    open spec fn view(&self) -> CallPhaseView {
        match self {
            CallPhase::Invited(invite) => CallPhaseView::Invited(invite@),
            CallPhase::Challenged { invite, response } => CallPhaseView::Challenged {
                invite: invite@,
                response: response@,
            },
            CallPhase::Answered => CallPhaseView::Answered,
            CallPhase::Accepted(response) => CallPhaseView::Accepted(response@),
            CallPhase::Acknowledged => CallPhaseView::Acknowledged,
            CallPhase::Finished => CallPhaseView::Finished,
        }
    }
}

impl View for CallEvent {
    type V = CallEventView;

    open spec fn view(&self) -> CallEventView {
        match self {
            CallEvent::Responses(responses) => CallEventView::Responses(
                responses_view(responses@),
            ),
            CallEvent::Sent => CallEventView::Sent,
            CallEvent::DescriptionSet => CallEventView::DescriptionSet,
        }
    }
}

impl View for CallAction {
    type V = CallActionView;

    open spec fn view(&self) -> CallActionView {
        match self {
            CallAction::Send(message, count) => CallActionView::Send(message@, *count),
            CallAction::SetDescription(text) => CallActionView::SetDescription(text@),
            CallAction::Notify(text) => CallActionView::Notify(text@),
            CallAction::Wait => CallActionView::Wait,
            CallAction::Fail(error) => CallActionView::Fail(*error),
        }
    }
}

/// The address that a dialled text stands for: itself if it begins with `sip:` or
/// `sips:`, and else the user of that name at the server.
pub open spec fn dialled_uri(sip_address: Seq<char>, server: Seq<char>) -> Result<
    UriView,
    SipError,
> {
    if "sip:"@.is_prefix_of(sip_address) || "sips:"@.is_prefix_of(sip_address) {
        match parsed_uri(sip_address) {
            Some(uri) => Ok(uri),
            None => Err(SipError::InvalidUri),
        }
    } else {
        Ok(user_uri(server, sip_address))
    }
}

/// A call gives up.
pub open spec fn given_up(error: SipError) -> (CallPhaseView, CallActionView) {
    (CallPhaseView::Finished, CallActionView::Fail(error))
}

/// The wording that tells that a call is set up.
pub open spec fn dialled_notice(sip_address: Seq<char>) -> Seq<char> {
    "Dialed out to "@ + sip_address + " with call ID 0"@
}

/// The invitation from the given address to the call that `sdp` describes was sent.
pub open spec fn invited(call: CallView, sdp: Seq<char>, address: Option<Seq<char>>) -> (
    CallPhaseView,
    CallActionView,
) {
    match address {
        Some(address) => {
            let invite = MessageView::Request(
                invite_request(
                    call.call_id,
                    call.uri,
                    sdp,
                    call.server,
                    call.username,
                    address,
                ),
            );
            (CallPhaseView::Invited(invite), CallActionView::Send(invite, 1))
        },
        None => given_up(SipError::NoLocalAddress),
    }
}

/// A response is acknowledged at an address and by a branch, if both are known.
pub open spec fn acknowledged(
    call: CallView,
    cseq: u32,
    target: Result<UriView, SipError>,
    branch: Result<Seq<char>, SipError>,
    address: Option<Seq<char>>,
    next: CallPhaseView,
) -> (CallPhaseView, CallActionView) {
    match (target, branch, address) {
        (Err(error), _, _) => given_up(error),
        (Ok(_), Err(error), _) => given_up(error),
        (Ok(_), Ok(_), None) => given_up(SipError::NoLocalAddress),
        (Ok(target), Ok(branch), Some(address)) => (
            next,
            CallActionView::Send(
                MessageView::Request(
                    ack_request(
                        call.call_id,
                        cseq,
                        target,
                        branch,
                        call.uri,
                        call.server,
                        call.username,
                        address,
                    ),
                ),
                0,
            ),
        ),
    }
}

/// The challenge is acknowledged.
pub open spec fn challenge_acknowledged(
    call: CallView,
    invite: MessageView,
    responses: Seq<ResponseView>,
    address: Option<Seq<char>>,
) -> (CallPhaseView, CallActionView) {
    if responses.len() == 0 {
        given_up(SipError::NoResponse)
    } else {
        acknowledged(
            call,
            1,
            Ok(call.uri),
            branch_of(responses.first()),
            address,
            CallPhaseView::Challenged { invite, response: responses.first() },
        )
    }
}

/// The invitation is sent again on a new branch, with the answer to the challenge.
pub open spec fn invited_again(
    call: CallView,
    invite: MessageView,
    response: ResponseView,
    cnonce: Seq<char>,
) -> (CallPhaseView, CallActionView) {
    match invite {
        MessageView::Response(_) => given_up(SipError::NotARequest),
        MessageView::Request(request) => match as_message(rebranched(request)) {
            Err(error) => given_up(error),
            Ok(message) => if sequence_exhausted(response, message) {
                given_up(SipError::ExhaustedCSeq)
            } else {
                match as_message(
                    authorized(
                        response,
                        call.uri.auth,
                        message,
                        call.server,
                        call.username,
                        call.password,
                        cnonce,
                    ),
                ) {
                    Err(error) => given_up(error),
                    Ok(message) => (CallPhaseView::Answered, CallActionView::Send(message, 2)),
                }
            },
        },
    }
}

/// The invitation that answers a challenge: the second in its call, on a branch
/// of its own, with the answer in one more header.
pub open spec fn second_invite(
    call: CallView,
    sdp: Seq<char>,
    address: Seq<char>,
    authorization: HeaderView,
) -> RequestView {
    let first = invite_request(
        call.call_id,
        call.uri,
        sdp,
        call.server,
        call.username,
        address,
    );
    RequestView {
        headers: first.headers.update(
            0,
            header("Via"@, via_text(own_via(address, second_branch()))),
        ).update(4, header("CSeq"@, cseq_text(2, Method::Invite))).push(authorization),
        ..first
    }
}

/// The answer to the challenge of a response to an invitation.
pub open spec fn invite_authorization(
    call: CallView,
    response: ResponseView,
    cnonce: Seq<char>,
) -> HeaderView {
    let challenge = challenge_of(response)->Ok_0;
    authorization_header(
        challenge,
        challenge.algorithm->0,
        call.uri.auth,
        Method::Invite,
        call.server,
        call.username,
        call.password,
        cnonce,
    )
}

/// The call answers the challenge of `response` to the invitation that it sent.
pub open spec fn invite_answered(
    call: CallView,
    sdp: Seq<char>,
    address: Seq<char>,
    response: ResponseView,
    cnonce: Seq<char>,
) -> (CallPhaseView, CallActionView) {
    (
        CallPhaseView::Answered,
        CallActionView::Send(
            MessageView::Request(
                second_invite(call, sdp, address, invite_authorization(call, response, cnonce)),
            ),
            2,
        ),
    )
}

/// Whether an invitation of the call becomes its second invitation, once its
/// `Via` header is read back and its sequence number too.
spec fn becomes_second(call: CallView, sdp: Seq<char>, address: Seq<char>) -> bool {
    let first = invite_request(
        call.call_id,
        call.uri,
        sdp,
        call.server,
        call.username,
        address,
    );
    let written = own_via(address, first_branch());
    let moved = rebranched(first)->Ok_0;
    let cseq = CSeqView { seq: 1, method: method_text(Method::Invite) };
    &&& is_alphanumeric(first_branch())
    &&& header_value(first.headers, "Via"@) == Some(via_text(written))
    &&& via_of(first.headers) == Ok::<_, SipError>(written) ==> {
        &&& is_numbered(MessageView::Request(moved), 1, Method::Invite)
        &&& forall|added: HeaderView| #[trigger]
            next_request(moved, cseq, added) == second_invite(call, sdp, address, added)
    }
}

proof fn lemma_becomes_second(call: CallView, sdp: Seq<char>, address: Seq<char>)
    ensures
        becomes_second(call, sdp, address),
{
    let first = invite_request(
        call.call_id,
        call.uri,
        sdp,
        call.server,
        call.username,
        address,
    );
    lemma_invite_headers(call.call_id, call.uri, sdp, call.server, call.username, address);
    reveal_strlit("z9hG4bKnashds7");
    let moved = first.headers.update(
        0,
        header("Via"@, via_text(own_via(address, second_branch()))),
    );
    assert(with_branch(own_via(address, first_branch()), second_branch()).params =~= own_via(
        address,
        second_branch(),
    ).params);
    if via_of(first.headers) == Ok::<_, SipError>(own_via(address, first_branch())) {
        assert(rebranched(first)->Ok_0.headers =~= moved);
        assert(header_index(moved, "CSeq"@, 0) == 4) by {
            lemma_header_index(moved, "CSeq"@, 0);
            lemma_header_index(first.headers, "CSeq"@, 0);
            assert(moved[4].name == "CSeq"@);
            assert forall|i: int| 0 <= i < 4 implies (#[trigger] moved[i]).name != "CSeq"@ by {
                assert(moved[i].name == first.headers[i].name);
            }
        }
    }
}

/// The description of the other side is read from the acceptance.
pub open spec fn description_read(responses: Seq<ResponseView>) -> (
    CallPhaseView,
    CallActionView,
) {
    if responses.len() == 0 {
        given_up(SipError::NoResponse)
    } else if !valid_utf8(responses.last().body) {
        given_up(SipError::InvalidUtf8)
    } else if !is_description(decode_utf8(responses.last().body)) {
        given_up(SipError::InvalidDescription)
    } else {
        (
            CallPhaseView::Accepted(responses.last()),
            CallActionView::SetDescription(decode_utf8(responses.last().body)),
        )
    }
}

/// Where the other side can be reached.
pub open spec fn contact_of(response: ResponseView) -> Result<UriView, SipError> {
    match parsed_contact(header_value(response.headers, "Contact"@)->0) {
        None => Err(SipError::InvalidContact),
        Some(contact) => Ok(contact),
    }
}

/// The acceptance is acknowledged.
pub open spec fn acceptance_acknowledged(
    call: CallView,
    response: ResponseView,
    address: Option<Seq<char>>,
) -> (CallPhaseView, CallActionView) {
    acknowledged(
        call,
        2,
        contact_of(response),
        branch_of(response),
        address,
        CallPhaseView::Acknowledged,
    )
}

/// How a call goes on when something happens, on a machine with the given
/// address. What a phase does not wait for changes nothing.
pub open spec fn call_stepped(
    call: CallView,
    phase: CallPhaseView,
    event: CallEventView,
    address: Option<Seq<char>>,
    cnonce: Seq<char>,
) -> (CallPhaseView, CallActionView) {
    match (phase, event) {
        (CallPhaseView::Invited(invite), CallEventView::Responses(responses)) =>
            challenge_acknowledged(call, invite, responses, address),
        (CallPhaseView::Challenged { invite, response }, CallEventView::Sent) => invited_again(
            call,
            invite,
            response,
            cnonce,
        ),
        (CallPhaseView::Answered, CallEventView::Responses(responses)) => description_read(
            responses,
        ),
        (CallPhaseView::Accepted(response), CallEventView::DescriptionSet) =>
            acceptance_acknowledged(call, response, address),
        (CallPhaseView::Acknowledged, CallEventView::Sent) => (
            CallPhaseView::Finished,
            CallActionView::Notify(dialled_notice(call.sip_address)),
        ),
        (phase, _) => (phase, CallActionView::Wait),
    }
}

/// Whether a call in this phase can go on: an acceptance must say where the
/// other side can be reached.
pub open spec fn can_go_on(phase: CallPhaseView) -> bool {
    phase matches CallPhaseView::Accepted(response) ==> header_value(
        response.headers,
        "Contact"@,
    ) is Some
}

/// The address that a dialled text stands for. The address of a user at a host is
/// always read, with either scheme.
pub fn dial_uri(sip_address: &str, server: &str) -> (dialled: Result<Uri, SipError>)
    ensures
        match dialled {
            Ok(uri) => dialled_uri(sip_address@, server@) == Ok::<_, SipError>(uri@),
            Err(error) => dialled_uri(sip_address@, server@) == Err::<UriView, _>(error),
        },
        forall|scheme: SchemeView, user: Seq<char>, host: Seq<char>|
            is_sip_scheme(scheme) && is_alphanumeric(user) && is_host_name(host) && sip_address@
                == uri_text(#[trigger] plain_uri(scheme, user, host)) ==> dialled is Ok
                && dialled->Ok_0@ == plain_uri(scheme, user, host),
{
    proof {
        assert forall|scheme: SchemeView, user: Seq<char>, host: Seq<char>|
            is_sip_scheme(scheme) && sip_address@ == uri_text(
                #[trigger] plain_uri(scheme, user, host),
            ) implies "sip:"@.is_prefix_of(sip_address@) || "sips:"@.is_prefix_of(
            sip_address@,
        ) by {
            let start = scheme_text(Some(scheme));
            assert(sip_address@.subrange(0, start.len() as int) =~= start);
        }
    }
    if starts_with(sip_address, "sip:") || starts_with(sip_address, "sips:") {
        Uri::parse(sip_address)
    } else {
        Ok(new_user_uri(server, sip_address))
    }
}

impl Call {
    /// A call to a dialled text.
    pub fn new(sip_address: String, call_id: CallID, account: SipAuthInfo) -> (made: Result<
        Call,
        SipError,
    >)
        ensures
            match made {
                Ok(call) => dialled_uri(sip_address@, account.address@) == Ok::<_, SipError>(
                    call@.uri,
                ) && call@ == (CallView {
                    sip_address: sip_address@,
                    uri: call@.uri,
                    call_id: call_id.0@,
                    server: account.address@,
                    username: account.username@,
                    password: account.password@,
                }),
                Err(error) => dialled_uri(sip_address@, account.address@) == Err::<UriView, _>(
                    error,
                ),
            },
            forall|scheme: SchemeView, user: Seq<char>, host: Seq<char>|
                is_sip_scheme(scheme) && is_alphanumeric(user) && is_host_name(host)
                    && sip_address@ == uri_text(#[trigger] plain_uri(scheme, user, host))
                    ==> made is Ok && made->Ok_0@.uri == plain_uri(scheme, user, host),
    {
        match dial_uri(&sip_address, &account.address) {
            Ok(uri) => Ok(Call { sip_address, uri, call_id, account }),
            Err(error) => Err(error),
        }
    }

    /// Invites the other side from `address` to the call that `sdp` describes.
    pub fn invite_from(&self, sdp: &str, address: Option<&str>) -> (outcome: (
        CallPhase,
        CallAction,
    ))
        ensures
            match address {
                Some(address) => {
                    let invite = MessageView::Request(
                        invite_request(
                            self@.call_id,
                            self@.uri,
                            sdp@,
                            self@.server,
                            self@.username,
                            address@,
                        ),
                    );
                    (outcome.0@, outcome.1@) == (
                        CallPhaseView::Invited(invite),
                        CallActionView::Send(invite, 1),
                    )
                },
                None => (outcome.0@, outcome.1@) == given_up(SipError::NoLocalAddress),
            },
            (outcome.0@, outcome.1@) == invited(self@, sdp@, address_view(address)),
    {
        match address {
            Some(address) => {
                let invite = SipMessage::Request(
                    invite_request_from(
                        &self.call_id,
                        &self.uri,
                        sdp,
                        &self.account.address,
                        &self.account.username,
                        address,
                    ),
                );
                (CallPhase::Invited(invite.clone()), CallAction::Send(invite, 1))
            },
            None => give_up(SipError::NoLocalAddress),
        }
    }

    /// Invites the other side to the call that `sdp` describes.
    pub fn invite(&self, sdp: &str) -> (outcome: (CallPhase, CallAction))
        ensures
            (outcome.0@, outcome.1@) == given_up(SipError::NoLocalAddress) || exists|
                address: Seq<char>,
            | {
                let invite = MessageView::Request(
                    #[trigger] invite_request(
                        self@.call_id,
                        self@.uri,
                        sdp@,
                        self@.server,
                        self@.username,
                        address,
                    ),
                );
                is_dotted(address) && (outcome.0@, outcome.1@) == (
                    CallPhaseView::Invited(invite),
                    CallActionView::Send(invite, 1usize),
                )
            },
    {
        match local_address() {
            Ok(address) => self.invite_from(sdp, Some(&address)),
            Err(_) => self.invite_from(sdp, None),
        }
    }

    /// A response is acknowledged at an address and by a branch, if both are known.
    pub fn acknowledge(
        &self,
        cseq: u32,
        target: Result<Uri, SipError>,
        branch: Result<String, SipError>,
        address: Option<&str>,
        next: CallPhase,
    ) -> (outcome: (CallPhase, CallAction))
        ensures
            (outcome.0@, outcome.1@) == acknowledged(
                self@,
                cseq,
                match target {
                    Ok(target) => Ok(target@),
                    Err(error) => Err(error),
                },
                match branch {
                    Ok(branch) => Ok(branch@),
                    Err(error) => Err(error),
                },
                address_view(address),
                next@,
            ),
    {
        match (target, branch, address) {
            (Err(error), _, _) => give_up(error),
            (Ok(_), Err(error), _) => give_up(error),
            (Ok(_), Ok(_), None) => give_up(SipError::NoLocalAddress),
            (Ok(target), Ok(branch), Some(address)) => {
                let ack = ack_request_from(
                    &self.call_id,
                    cseq,
                    &target,
                    &branch,
                    &self.uri,
                    &self.account.address,
                    &self.account.username,
                    address,
                );
                (next, CallAction::Send(SipMessage::Request(ack), 0))
            },
        }
    }

    /// The challenge is acknowledged.
    fn acknowledge_challenge(
        &self,
        invite: SipMessage,
        responses: Vec<Response>,
        address: Option<&str>,
    ) -> (outcome: (CallPhase, CallAction))
        ensures
            (outcome.0@, outcome.1@) == challenge_acknowledged(
                self@,
                invite@,
                responses_view(responses@),
                address_view(address),
            ),
    {
        if responses.len() == 0 {
            return give_up(SipError::NoResponse);
        }
        self.acknowledge(
            1,
            Ok(self.uri.clone()),
            find_branch(&responses[0]),
            address,
            CallPhase::Challenged { invite, response: responses[0].clone() },
        )
    }

    /// The invitation is sent again on a new branch, with the answer to the challenge.
    fn invite_again(&self, invite: SipMessage, response: Response, cnonce: &str) -> (outcome: (
        CallPhase,
        CallAction,
    ))
        ensures
            (outcome.0@, outcome.1@) == invited_again(self@, invite@, response@, cnonce@),
            forall|sdp: Seq<char>, address: Seq<char>|
                invite@ == MessageView::Request(
                    #[trigger] invite_request(
                        self@.call_id,
                        self@.uri,
                        sdp,
                        self@.server,
                        self@.username,
                        address,
                    ),
                ) && is_dotted(address) && is_answerable(response@) ==> (outcome.0@, outcome.1@)
                    == invite_answered(self@, sdp, address, response@, cnonce@),
    {
        proof {
            assert forall|sdp: Seq<char>, address: Seq<char>|
                invite@ == MessageView::Request(
                    #[trigger] invite_request(
                        self@.call_id,
                        self@.uri,
                        sdp,
                        self@.server,
                        self@.username,
                        address,
                    ),
                ) implies becomes_second(self@, sdp, address) by {
                lemma_becomes_second(self@, sdp, address);
            }
        }
        let request = match invite {
            SipMessage::Request(request) => request,
            SipMessage::Response(_) => return give_up(SipError::NotARequest),
        };
        let message = match generate_new_branch(request) {
            Ok(message) => message,
            Err(error) => return give_up(error),
        };
        let auth = match &self.uri.auth {
            Some(auth) => Some(auth.clone()),
            None => None,
        };
        match authorize_request_checked(
            &response,
            auth,
            message,
            &self.account.address,
            &self.account.username,
            &self.account.password,
            cnonce,
        ) {
            Ok(message) => (CallPhase::Answered, CallAction::Send(message, 2)),
            Err(error) => give_up(error),
        }
    }

    /// The acceptance is acknowledged.
    fn acknowledge_acceptance(&self, response: Response, address: Option<&str>) -> (outcome: (
        CallPhase,
        CallAction,
    ))
        requires
            header_value(response@.headers, "Contact"@) is Some,
        ensures
            (outcome.0@, outcome.1@) == acceptance_acknowledged(
                self@,
                response@,
                address_view(address),
            ),
    {
        let value = find_value(&response.headers, "Contact").unwrap();
        self.acknowledge(
            2,
            parse_contact(&value),
            find_branch(&response),
            address,
            CallPhase::Acknowledged,
        )
    }

    /// How the call goes on when something happens, on a machine with the given
    /// address and with the given client nonce where a challenge is answered.
    pub fn step_with(
        &self,
        phase: CallPhase,
        event: CallEvent,
        address: Option<&str>,
        cnonce: &str,
    ) -> (outcome: (CallPhase, CallAction))
        requires
            event@ is DescriptionSet ==> can_go_on(phase@),
        ensures
            (outcome.0@, outcome.1@) == call_stepped(
                self@,
                phase@,
                event@,
                address_view(address),
                cnonce@,
            ),
            forall|sdp: Seq<char>, from: Seq<char>|
                phase@ is Challenged && phase@->invite == MessageView::Request(
                    #[trigger] invite_request(
                        self@.call_id,
                        self@.uri,
                        sdp,
                        self@.server,
                        self@.username,
                        from,
                    ),
                ) && event@ is Sent && is_dotted(from) && is_answerable(phase@->response) ==> (
                outcome.0@,
                outcome.1@,
            ) == invite_answered(self@, sdp, from, phase@->response, cnonce@),
    {
        match (phase, event) {
            (CallPhase::Invited(invite), CallEvent::Responses(responses)) =>
                self.acknowledge_challenge(invite, responses, address),
            (CallPhase::Challenged { invite, response }, CallEvent::Sent) => self.invite_again(
                invite,
                response,
                cnonce,
            ),
            (CallPhase::Answered, CallEvent::Responses(responses)) => read_description(responses),
            (CallPhase::Accepted(response), CallEvent::DescriptionSet) =>
                self.acknowledge_acceptance(response, address),
            (CallPhase::Acknowledged, CallEvent::Sent) => (
                CallPhase::Finished,
                CallAction::Notify(
                    "Dialed out to ".to_owned().concat(&self.sip_address).concat(
                        " with call ID 0",
                    ),
                ),
            ),
            (phase, _) => (phase, CallAction::Wait),
        }
    }

    /// How the call goes on when something happens.
    pub fn step(&self, phase: CallPhase, event: CallEvent) -> (outcome: (CallPhase, CallAction))
        requires
            event@ is DescriptionSet ==> can_go_on(phase@),
        ensures
            exists|address: Option<Seq<char>>, cnonce: Seq<char>|
                (address is Some ==> is_dotted(address->0)) && (phase is Challenged
                    ==> is_random_id(cnonce)) && (outcome.0@, outcome.1@)
                    == #[trigger] call_stepped(self@, phase@, event@, address, cnonce),
            forall|sdp: Seq<char>, from: Seq<char>|
                phase@ is Challenged && phase@->invite == MessageView::Request(
                    #[trigger] invite_request(
                        self@.call_id,
                        self@.uri,
                        sdp,
                        self@.server,
                        self@.username,
                        from,
                    ),
                ) && event@ is Sent && is_dotted(from) && is_answerable(phase@->response)
                    ==> exists|cnonce: Seq<char>|
                    is_random_id(cnonce) && (outcome.0@, outcome.1@)
                        == #[trigger] invite_answered(
                        self@,
                        sdp,
                        from,
                        phase@->response,
                        cnonce,
                    ),
    {
        let cnonce = match &phase {
            CallPhase::Challenged { .. } => random_id(),
            _ => String::new(),
        };
        let needs_address = match &phase {
            CallPhase::Invited(_) => true,
            CallPhase::Accepted(_) => true,
            _ => false,
        };
        if needs_address {
            if let Ok(address) = local_address() {
                return self.step_with(phase, event, Some(&address), &cnonce);
            }
        }
        self.step_with(phase, event, None, &cnonce)
    }
}

/// What an optional address stands for.
pub open spec fn address_view(address: Option<&str>) -> Option<Seq<char>> {
    match address {
        Some(address) => Some(address@),
        None => None,
    }
}

/// A call gives up.
fn give_up(error: SipError) -> (outcome: (CallPhase, CallAction))
    ensures
        (outcome.0@, outcome.1@) == given_up(error),
{
    (CallPhase::Finished, CallAction::Fail(error))
}

/// The description of the other side is read from the acceptance.
fn read_description(responses: Vec<Response>) -> (outcome: (CallPhase, CallAction))
    ensures
        (outcome.0@, outcome.1@) == description_read(responses_view(responses@)),
{
    let count = responses.len();
    if count == 0 {
        return give_up(SipError::NoResponse);
    }
    let response = responses[count - 1].clone();
    let body = response.body.clone();
    assert(body@ =~= response.body@);
    let text = match parse_utf8(body) {
        Ok(text) => text,
        Err(error) => return give_up(error),
    };
    match parse_answer(text) {
        Ok(text) => (CallPhase::Accepted(response), CallAction::SetDescription(text)),
        Err(error) => give_up(error),
    }
}

/// Whether a call in this phase can go on.
pub fn may_go_on(phase: &CallPhase) -> (may: bool)
    ensures
        may == can_go_on(phase@),
{
    match phase {
        CallPhase::Accepted(response) => find_value(&response.headers, "Contact").is_some(),
        _ => true,
    }
}

/// How far a phase is on the way of a call.
pub open spec fn progress(phase: CallPhaseView) -> nat {
    match phase {
        CallPhaseView::Invited(_) => 0,
        CallPhaseView::Challenged { .. } => 1,
        CallPhaseView::Answered => 2,
        CallPhaseView::Accepted(_) => 3,
        CallPhaseView::Acknowledged => 4,
        CallPhaseView::Finished => 5,
    }
}

/// Whether a message is a request with the given method.
pub open spec fn has_method(message: MessageView, method: Method) -> bool {
    message is Request && message->Request_0.method == method
}

/// A challenge is acknowledged with the number of the first invitation before it
/// is answered, and an acceptance with that of the second. Nothing else is sent,
/// and a call that fails or is set up does nothing more.
pub proof fn law_requests_come_in_order(
    call: CallView,
    phase: CallPhaseView,
    event: CallEventView,
    address: Option<Seq<char>>,
    cnonce: Seq<char>,
)
    ensures
        ({
            let (next, action) = call_stepped(call, phase, event, address, cnonce);
            &&& action is Wait ==> next == phase
            &&& action is Fail ==> next is Finished
            &&& action is Notify ==> phase is Acknowledged && next is Finished
            &&& action is SetDescription ==> phase is Answered && next is Accepted
            &&& action !is Wait ==> progress(next) > progress(phase)
            &&& action !is Wait && action !is Fail ==> progress(next) == progress(phase) + 1
            &&& action matches CallActionView::Send(message, count) ==> {
                ||| phase is Invited && next is Challenged && count == 0 && has_method(
                    message,
                    Method::Ack,
                ) && is_numbered(message, 1, Method::Ack)
                ||| phase is Challenged && next is Answered && count == 2 && has_method(
                    message,
                    phase->invite->Request_0.method,
                )
                ||| phase is Accepted && next is Acknowledged && count == 0 && has_method(
                    message,
                    Method::Ack,
                ) && is_numbered(message, 2, Method::Ack)
            }
        }),
{
    reveal_strlit("Via");
    reveal_strlit("From");
    reveal_strlit("To");
    reveal_strlit("Call-ID");
    reveal_strlit("CSeq");
    assert("From"@[0] != "CSeq"@[0]);
    let (next, action) = call_stepped(call, phase, event, address, cnonce);
    if action is Send && action->Send_0->Request_0.method == Method::Ack && phase !is Challenged {
        let headers = action->Send_0->Request_0.headers;
        assert(headers[0].name == "Via"@ && headers[1].name == "From"@);
        assert(headers[2].name == "To"@ && headers[3].name == "Call-ID"@);
        assert(headers[4].name == "CSeq"@);
        reveal_with_fuel(header_index, 6);
    }
}

/// Whether the invitation that a phase holds belongs to the call.
pub open spec fn belongs(phase: CallPhaseView, call: CallView) -> bool {
    match phase {
        CallPhaseView::Invited(invite) => is_of_call(invite, call.call_id),
        CallPhaseView::Challenged { invite, .. } => is_of_call(invite, call.call_id),
        _ => true,
    }
}

/// Whether a message is a request of the given call, and says how many bytes its
/// body has.
pub open spec fn is_of_call(message: MessageView, call_id: Seq<char>) -> bool {
    message is Request && is_labelled(message->Request_0, call_id)
}

/// Every request of a call carries its identifier and the length of its body.
pub proof fn law_requests_belong_to_call(
    call: CallView,
    phase: CallPhaseView,
    event: CallEventView,
    address: Option<Seq<char>>,
    cnonce: Seq<char>,
)
    requires
        belongs(phase, call),
    ensures
        ({
            let (next, action) = call_stepped(call, phase, event, address, cnonce);
            &&& belongs(next, call)
            &&& action matches CallActionView::Send(message, _) ==> is_of_call(
                message,
                call.call_id,
            )
        }),
{
    reveal_strlit("Via");
    reveal_strlit("CSeq");
    reveal_strlit("Call-ID");
    reveal_strlit("Content-Length");
    assert("Via"@.len() == 3 && "CSeq"@.len() == 4);
    assert("Call-ID"@.len() == 7 && "Content-Length"@.len() == 14);
    let (next, action) = call_stepped(call, phase, event, address, cnonce);
    match (phase, action) {
        (
            CallPhaseView::Challenged { invite, response },
            CallActionView::Send(message, _),
        ) => {
            let request = invite->Request_0;
            let moved = rebranched(request)->Ok_0;
            law_rebranching_keeps_the_rest(request);
            lemma_kept_value(request.headers, moved.headers, "Call-ID"@, "Via"@);
            lemma_kept_value(request.headers, moved.headers, "Content-Length"@, "Via"@);
            law_answering_keeps_the_rest(
                response,
                call.uri.auth,
                moved,
                call.server,
                call.username,
                call.password,
                cnonce,
            );
            let answer = message->Request_0;
            lemma_header_index(moved.headers, "CSeq"@, 0);
            assert(answer.headers[header_index(moved.headers, "CSeq"@, 0)].name == "CSeq"@);
            lemma_kept_value(moved.headers, answer.headers, "Call-ID"@, "CSeq"@);
            lemma_kept_value(moved.headers, answer.headers, "Content-Length"@, "CSeq"@);
        },
        (CallPhaseView::Invited(_), CallActionView::Send(message, _)) => {
            let branch = branch_of(event->Responses_0.first())->Ok_0;
            law_requests_are_labelled(
                call.call_id,
                1,
                call.uri,
                branch,
                call.uri,
                Seq::empty(),
                call.server,
                call.username,
                address->0,
            );
        },
        (CallPhaseView::Accepted(response), CallActionView::Send(message, _)) => {
            let contact = parsed_contact(header_value(response.headers, "Contact"@)->0)->0;
            law_requests_are_labelled(
                call.call_id,
                2,
                contact,
                branch_of(response)->Ok_0,
                call.uri,
                Seq::empty(),
                call.server,
                call.username,
                address->0,
            );
        },
        _ => {},
    }
}

/// A header that is found in a list keeps its value where only headers of
/// another name are replaced by headers of that name, and others are added.
proof fn lemma_kept_value(
    before: Seq<HeaderView>,
    after: Seq<HeaderView>,
    name: Seq<char>,
    other: Seq<char>,
)
    requires
        name != other,
        before.len() <= after.len(),
        header_value(before, name) is Some,
        forall|i: int|
            0 <= i < before.len() ==> #[trigger] after[i] == before[i] || (before[i].name == other
                && after[i].name == other),
    ensures
        header_value(after, name) == header_value(before, name),
{
    lemma_header_index(before, name, 0);
    lemma_header_index(after, name, 0);
    let index = header_index(before, name, 0);
    let found = header_index(after, name, 0);
    assert(after[index] == before[index]);
    if found < index {
        assert(after[found] == before[found] || before[found].name == other);
    }
}

/// A number is dialled as a user of the server.
pub proof fn law_number_is_user_of_server(number: Seq<char>, server: Seq<char>)
    requires
        forall|i: int| 0 <= i < number.len() ==> '0' <= #[trigger] number[i] <= '9',
    ensures
        dialled_uri(number, server) == Ok::<_, SipError>(user_uri(server, number)),
        uri_text(dialled_uri(number, server)->Ok_0) == "sip:"@ + number + "@"@ + server,
{
    reveal_strlit("sip:");
    reveal_strlit("sips:");
    if "sip:"@.is_prefix_of(number) {
        assert(number.subrange(0, 4)[0] == number[0]);
    }
    if "sips:"@.is_prefix_of(number) {
        assert(number.subrange(0, 5)[0] == number[0]);
    }
    law_user_is_written(server, number);
}

} // verus!
