//! What a call sends, where it goes, and what it is about.

use vstd::prelude::*;
use vstd::utf8::{decode_utf8, encode_utf8, valid_utf8};

use crate::auth::digest_response;
use crate::branch::{branch_of, rebranched, with_branch};
use crate::call::{
    acknowledged, call_stepped, can_go_on, dialled_uri, invited, CallActionView, CallEventView,
    CallPhaseView, CallView,
};
use crate::error::SipError;
use crate::laws::answers::{
    credentials, law_answer_digests_own_request, law_answer_is_the_next_request,
    law_new_branch_is_put_on_vias, law_reasons_not_to_answer, numbered, posed, proved_for, routed,
};
use crate::laws::requests::{law_ack_says, law_invite_says, own_address, says};
use crate::message::{
    header_index, header_value, lemma_header_index, AuthView, MessageView, Method, RequestView,
    ResponseView, SchemeView, UriView,
};
use crate::parser::{is_description, parsed_contact, parsed_uri};
use crate::text::decimal;
use crate::wire::{method_text, uri_text, via_text};

verus! {

/// Whether a message acknowledges, in a call, the response with the given number
/// and branch, and goes to the given address.
pub open spec fn acknowledges(
    message: MessageView,
    call: CallView,
    number: Seq<char>,
    branch: Seq<char>,
    target: UriView,
    address: Seq<char>,
) -> bool {
    let request = message->Request_0;
    &&& message is Request
    &&& request.method == Method::Ack
    &&& request.uri == target
    &&& request.body.len() == 0
    &&& says(request, "Via"@, "SIP/2.0/WSS "@ + address + ";branch="@ + branch)
    &&& says(
        request,
        "From"@,
        "sip_bridge "@ + own_address(call.server, call.username) + ";tag=a73kszlfl"@,
    )
    &&& says(request, "To"@, "<"@ + uri_text(call.uri) + ">"@)
    &&& says(request, "Call-ID"@, call.call_id)
    &&& says(request, "CSeq"@, number)
}

/// A call begins with an invitation to the address that is called, from the bridge,
/// with the description as its body. One frame answers it, and without an address
/// of this machine there is none.
pub proof fn law_call_begins_with_invitation(call: CallView, sdp: Seq<char>, address: Seq<char>)
    ensures
        ({
            let (phase, action) = invited(call, sdp, Some(address));
            let message = action->Send_0;
            let request = message->Request_0;
            &&& action is Send
            &&& action->Send_1 == 1
            &&& phase == CallPhaseView::Invited(message)
            &&& message is Request
            &&& request.method == Method::Invite
            &&& request.uri == call.uri
            &&& request.body == encode_utf8(sdp)
            &&& says(request, "Via"@, "SIP/2.0/WSS "@ + address + ";branch=z9hG4bKnashds7"@)
            &&& says(
                request,
                "From"@,
                "sip_bridge "@ + own_address(call.server, call.username) + ";tag=a73kszlfl"@,
            )
            &&& says(request, "To"@, "<"@ + uri_text(call.uri) + ">"@)
            &&& says(request, "Call-ID"@, call.call_id)
            &&& says(request, "CSeq"@, "1 INVITE"@)
        }),
        invited(call, sdp, None) == (
            CallPhaseView::Finished,
            CallActionView::Fail(SipError::NoLocalAddress),
        ),
{
    law_invite_says(call.call_id, call.uri, sdp, call.server, call.username, address);
}

/// A response is acknowledged at the given address and by the given branch where
/// both are known, from the address of this machine where it has one. The first
/// of these that is missing is why the call fails.
pub proof fn law_acknowledgement_goes_to_target(
    call: CallView,
    cseq: u32,
    target: Result<UriView, SipError>,
    branch: Result<Seq<char>, SipError>,
    address: Option<Seq<char>>,
    next: CallPhaseView,
)
    ensures
        ({
            let (phase, action) = acknowledged(call, cseq, target, branch, address, next);
            if target is Err {
                phase is Finished && action == CallActionView::Fail(target->Err_0)
            } else if branch is Err {
                phase is Finished && action == CallActionView::Fail(branch->Err_0)
            } else if address is None {
                phase is Finished && action == CallActionView::Fail(SipError::NoLocalAddress)
            } else {
                &&& phase == next
                &&& action is Send
                &&& action->Send_1 == 0
                &&& acknowledges(
                    action->Send_0,
                    call,
                    decimal(cseq as nat) + " ACK"@,
                    branch->Ok_0,
                    target->Ok_0,
                    address->0,
                )
            }
        }),
{
    if target is Ok && branch is Ok && address is Some {
        law_ack_says(
            call.call_id,
            cseq,
            target->Ok_0,
            branch->Ok_0,
            call.uri,
            call.server,
            call.username,
            address->0,
        );
    }
}

/// What is sent for an acceptance goes to the address that its first `Contact`
/// header is read as, in every part, and nowhere else.
pub proof fn law_acceptance_is_acknowledged_at_contact(
    call: CallView,
    response: ResponseView,
    event: CallEventView,
    address: Option<Seq<char>>,
    cnonce: Seq<char>,
)
    ensures
        ({
            let phase = CallPhaseView::Accepted(response);
            let (next, action) = call_stepped(call, phase, event, address, cnonce);
            let contact = parsed_contact(header_value(response.headers, "Contact"@)->0);
            let branch = branch_of(response);
            &&& action matches CallActionView::Send(message, count) ==> {
                &&& event is DescriptionSet
                &&& count == 0
                &&& next == CallPhaseView::Acknowledged
                &&& message is Request
                &&& Some(message->Request_0.uri) == contact
                &&& branch is Ok
                &&& address is Some
                &&& acknowledges(
                    message,
                    call,
                    "2 ACK"@,
                    branch->Ok_0,
                    message->Request_0.uri,
                    address->0,
                )
            }
            &&& event is DescriptionSet && contact is None ==> action == CallActionView::Fail(
                SipError::InvalidContact,
            )
            &&& event is DescriptionSet && contact is Some && branch is Err ==> action
                == CallActionView::Fail(branch->Err_0)
            &&& event is DescriptionSet && contact is Some && branch is Ok && address is None
                ==> action == CallActionView::Fail(SipError::NoLocalAddress)
            &&& event is DescriptionSet && contact is Some && branch is Ok && address is Some
                ==> action is Send
            &&& event !is DescriptionSet ==> next == phase && action is Wait
        }),
        can_go_on(CallPhaseView::Accepted(response)) <==> header_value(
            response.headers,
            "Contact"@,
        ) is Some,
        forall|phase: CallPhaseView| phase !is Accepted ==> #[trigger] can_go_on(phase),
{
    let contact = parsed_contact(header_value(response.headers, "Contact"@)->0);
    if contact is Some && branch_of(response) is Ok && address is Some {
        law_ack_says(
            call.call_id,
            2,
            contact->0,
            branch_of(response)->Ok_0,
            call.uri,
            call.server,
            call.username,
            address->0,
        );
        reveal_strlit("2 ACK");
        reveal_strlit(" ACK");
        assert(decimal(2) + " ACK"@ =~= "2 ACK"@);
    }
}

/// The first response to an invitation is acknowledged at the address that is
/// called, by its own branch, and is the challenge that is answered next.
pub proof fn law_challenge_is_acknowledged(
    call: CallView,
    invite: MessageView,
    event: CallEventView,
    address: Option<Seq<char>>,
    cnonce: Seq<char>,
)
    ensures
        ({
            let phase = CallPhaseView::Invited(invite);
            let (next, action) = call_stepped(call, phase, event, address, cnonce);
            let responses = event->Responses_0;
            let branch = branch_of(responses[0]);
            let came = event is Responses && responses.len() > 0;
            &&& action matches CallActionView::Send(message, count) ==> {
                &&& came
                &&& count == 0
                &&& next == (CallPhaseView::Challenged { invite, response: responses[0] })
                &&& branch is Ok
                &&& address is Some
                &&& acknowledges(
                    message,
                    call,
                    "1 ACK"@,
                    branch->Ok_0,
                    call.uri,
                    address->0,
                )
            }
            &&& event is Responses && responses.len() == 0 ==> action == CallActionView::Fail(
                SipError::NoResponse,
            )
            &&& came && branch is Err ==> action == CallActionView::Fail(branch->Err_0)
            &&& came && branch is Ok && address is None ==> action == CallActionView::Fail(
                SipError::NoLocalAddress,
            )
            &&& came && branch is Ok && address is Some ==> action is Send
            &&& event !is Responses ==> next == phase && action is Wait
        }),
{
    let responses = event->Responses_0;
    if event is Responses && responses.len() > 0 && branch_of(responses[0]) is Ok && address
        is Some {
        law_ack_says(
            call.call_id,
            1,
            call.uri,
            branch_of(responses[0])->Ok_0,
            call.uri,
            call.server,
            call.username,
            address->0,
        );
        reveal_strlit("1 ACK");
        reveal_strlit(" ACK");
        assert(decimal(1) + " ACK"@ =~= "1 ACK"@);
    }
}

/// A challenge to an invitation is answered with that invitation, on the branch
/// `12345` and with the next number. The answer is the digest over the method of
/// the invitation, the account of the bridge, and the user that is called at the
/// server. Two frames answer it.
pub proof fn law_challenge_is_answered(
    call: CallView,
    request: RequestView,
    response: ResponseView,
    address: Option<Seq<char>>,
    cnonce: Seq<char>,
    index: int,
)
    requires
        posed(response) is Some,
        posed(response)->0.algorithm is Some,
        routed(request.headers) is Some,
        numbered(request) is Some,
        numbered(request)->0.seq < u32::MAX,
        0 <= index < request.headers.len(),
    ensures
        ({
            let phase = CallPhaseView::Challenged {
                invite: MessageView::Request(request),
                response,
            };
            let (next, action) = call_stepped(
                call,
                phase,
                CallEventView::Sent,
                address,
                cnonce,
            );
            let sent = action->Send_0->Request_0;
            let challenge = posed(response)->0;
            let user = proved_for(call.uri.auth, call.server);
            let digest = digest_response(
                call.username,
                call.password,
                challenge.realm,
                challenge.nonce,
                user,
                method_text(request.method),
                cnonce,
                1,
                challenge.algorithm->0,
            );
            let number = numbered(request)->0;
            let old_header = request.headers[index];
            &&& next == CallPhaseView::Answered
            &&& action is Send
            &&& action->Send_0 is Request
            &&& action->Send_1 == 2
            &&& sent.method == request.method
            &&& sent.uri == request.uri
            &&& sent.version == request.version
            &&& sent.body == request.body
            &&& sent.headers.len() == request.headers.len() + 1
            &&& sent.headers[index].name == old_header.name
            &&& old_header.name == "Via"@ ==> sent.headers[index].value == via_text(
                with_branch(routed(request.headers)->0, "12345"@),
            )
            &&& old_header.name != "Via"@ && old_header.name != "CSeq"@ ==> sent.headers[index]
                == old_header
            &&& header_value(sent.headers, "CSeq"@) == Some(
                decimal((number.seq + 1) as nat) + " "@ + number.method,
            )
            &&& sent.headers.last().name == "Authorization"@
            &&& sent.headers.last().value == credentials(
                call.username,
                challenge,
                user,
                digest,
                cnonce,
            )
        }),
{
    reveal_strlit("Via");
    reveal_strlit("CSeq");
    assert("Via"@.len() != "CSeq"@.len());
    let moved = rebranched(request)->Ok_0;
    law_new_branch_is_put_on_vias(request, index);
    lemma_kept_number(request, moved);
    law_answer_digests_own_request(
        response,
        call.uri.auth,
        moved,
        call.server,
        call.username,
        call.password,
        cnonce,
    );
    law_answer_is_the_next_request(
        response,
        call.uri.auth,
        moved,
        call.server,
        call.username,
        call.password,
        cnonce,
        index,
    );
    law_reasons_not_to_answer(
        response,
        call.uri.auth,
        MessageView::Request(moved),
        call.server,
        call.username,
        call.password,
        cnonce,
    );
}

/// A new branch leaves the number of a request alone.
proof fn lemma_kept_number(request: RequestView, moved: RequestView)
    requires
        rebranched(request) == Ok::<_, SipError>(moved),
        header_value(request.headers, "CSeq"@) is Some,
    ensures
        header_value(moved.headers, "CSeq"@) == header_value(request.headers, "CSeq"@),
{
    reveal_strlit("Via");
    reveal_strlit("CSeq");
    assert("Via"@.len() != "CSeq"@.len());
    lemma_header_index(request.headers, "CSeq"@, 0);
    lemma_header_index(moved.headers, "CSeq"@, 0);
    let index = header_index(request.headers, "CSeq"@, 0);
    let found = header_index(moved.headers, "CSeq"@, 0);
    law_new_branch_is_put_on_vias(request, index);
    if found < moved.headers.len() {
        law_new_branch_is_put_on_vias(request, found);
    }
}

/// The description of the other side is the body of the last response, and only a
/// text that describes a call.
pub proof fn law_description_is_of_last_response(
    call: CallView,
    responses: Seq<ResponseView>,
    address: Option<Seq<char>>,
    cnonce: Seq<char>,
)
    ensures
        ({
            let (next, action) = call_stepped(
                call,
                CallPhaseView::Answered,
                CallEventView::Responses(responses),
                address,
                cnonce,
            );
            let last = responses[responses.len() - 1];
            if responses.len() == 0 {
                action == CallActionView::Fail(SipError::NoResponse)
            } else if !valid_utf8(last.body) {
                action == CallActionView::Fail(SipError::InvalidUtf8)
            } else if !is_description(decode_utf8(last.body)) {
                action == CallActionView::Fail(SipError::InvalidDescription)
            } else {
                action == CallActionView::SetDescription(decode_utf8(last.body)) && next
                    == CallPhaseView::Accepted(last)
            }
        }),
{
}

/// A call that is set up is told with the address as it was dialled.
pub proof fn law_set_up_call_is_told(
    call: CallView,
    address: Option<Seq<char>>,
    cnonce: Seq<char>,
)
    ensures
        call_stepped(call, CallPhaseView::Acknowledged, CallEventView::Sent, address, cnonce) == (
            CallPhaseView::Finished,
            CallActionView::Notify("Dialed out to "@ + call.sip_address + " with call ID 0"@),
        ),
{
}

/// What begins with `sip:` or `sips:` is dialled as the address that it is read as,
/// and anything else as a user of the server, by that name.
pub proof fn law_dialled_texts_are_addresses(text: Seq<char>, server: Seq<char>)
    ensures
        ({
            let dialled = dialled_uri(text, server);
            let written = "sip:"@.is_prefix_of(text) || "sips:"@.is_prefix_of(text);
            &&& written && parsed_uri(text) is Some ==> dialled == Ok::<_, SipError>(
                parsed_uri(text)->0,
            )
            &&& written && parsed_uri(text) is None ==> dialled == Err::<UriView, _>(
                SipError::InvalidUri,
            )
            &&& !written ==> dialled == Ok::<_, SipError>(
                UriView {
                    scheme: Some(SchemeView::Sip),
                    auth: Some(AuthView { user: text, password: None }),
                    host: server,
                    port: None,
                    params: Seq::empty(),
                },
            )
        }),
{
}

/// A call that fails does nothing more.
pub proof fn law_failed_call_is_over(
    call: CallView,
    phase: CallPhaseView,
    event: CallEventView,
    later: CallEventView,
    address: Option<Seq<char>>,
    cnonce: Seq<char>,
)
    requires
        call_stepped(call, phase, event, address, cnonce).1 is Fail,
    ensures
        ({
            let next = call_stepped(call, phase, event, address, cnonce).0;
            call_stepped(call, next, later, address, cnonce) == (next, CallActionView::Wait)
        }),
{
}

} // verus!
