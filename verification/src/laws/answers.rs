//! What answers to challenges prove, and what new branches change.

use vstd::prelude::*;

use crate::auth::{
    as_message, authorization_text, authorized, digest_response, law_answering_keeps_the_rest,
    next_request, sequence_exhausted,
};
use crate::branch::{
    branch_from, branch_of, law_rebranching_keeps_the_rest, rebranched, rerouted, with_branch,
};
use crate::error::SipError;
use crate::message::{
    header_value, lemma_header_index, AuthView, HeaderView, MessageView, Method, ParamView,
    RequestView, ResponseView, ViaView,
};
use crate::parser::{parsed_challenge, parsed_cseq, parsed_via, CSeqView, ChallengeView};
use crate::sip::server_uri;
use crate::text::decimal;
use crate::wire::{method_text, uri_text, via_text};

verus! {

/// The challenge that a response is read to carry.
pub open spec fn posed(response: ResponseView) -> Option<ChallengeView> {
    match header_value(response.headers, "WWW-Authenticate"@) {
        Some(value) => parsed_challenge(value),
        None => None,
    }
}

/// The number and the method that a request is read to carry.
pub open spec fn numbered(request: RequestView) -> Option<CSeqView> {
    match header_value(request.headers, "CSeq"@) {
        Some(value) => parsed_cseq(value),
        None => None,
    }
}

/// The contents of the `Via` header that headers are read to carry.
pub open spec fn routed(headers: Seq<HeaderView>) -> Option<ViaView> {
    match header_value(headers, "Via"@) {
        Some(value) => parsed_via(value),
        None => None,
    }
}

/// The address that a password is proved for: the user that is called, if one is,
/// at the server.
pub open spec fn proved_for(auth: Option<AuthView>, server: Seq<char>) -> Seq<char> {
    match auth {
        None => "sip:"@ + server,
        Some(auth) => match auth.password {
            None => "sip:"@ + auth.user + "@"@ + server,
            Some(password) => "sip:"@ + auth.user + ":"@ + password + "@"@ + server,
        },
    }
}

/// What is said of a digest: whose it is, what was asked, where it is meant for,
/// and how it was made.
pub open spec fn credentials(
    username: Seq<char>,
    challenge: ChallengeView,
    address: Seq<char>,
    digest: Seq<char>,
    cnonce: Seq<char>,
) -> Seq<char> {
    "Digest username=\""@ + username + "\", realm=\""@ + challenge.realm + "\", nonce=\""@
        + challenge.nonce + "\", uri=\""@ + address + "\", response=\""@ + digest
        + "\", algorithm="@ + challenge.algorithm->0 + (match challenge.opaque {
        Some(opaque) => ", opaque=\""@ + opaque + "\""@,
        None => Seq::empty(),
    }) + ", qop=\"auth\", nc=00000001, cnonce=\""@ + cnonce + "\""@
}

/// A challenge that names an algorithm, to a request with a number, is answered by
/// one more header at the end. It repeats the challenge, and its response is the
/// digest over the account, the challenge, the address, the nonce of this side and
/// the method of the very request that is answered.
pub proof fn law_answer_digests_own_request(
    response: ResponseView,
    auth: Option<AuthView>,
    request: RequestView,
    server: Seq<char>,
    username: Seq<char>,
    password: Seq<char>,
    cnonce: Seq<char>,
)
    requires
        posed(response) is Some,
        posed(response)->0.algorithm is Some,
        numbered(request) is Some,
    ensures
        ({
            let outcome = authorized(
                response,
                auth,
                MessageView::Request(request),
                server,
                username,
                password,
                cnonce,
            );
            let challenge = posed(response)->0;
            let address = proved_for(auth, server);
            let digest = digest_response(
                username,
                password,
                challenge.realm,
                challenge.nonce,
                address,
                method_text(request.method),
                cnonce,
                1,
                challenge.algorithm->0,
            );
            &&& outcome is Ok
            &&& outcome->Ok_0.headers.len() == request.headers.len() + 1
            &&& outcome->Ok_0.headers.last().name == "Authorization"@
            &&& outcome->Ok_0.headers.last().value == credentials(
                username,
                challenge,
                address,
                digest,
                cnonce,
            )
        }),
        request.method == Method::Invite ==> method_text(request.method) == "INVITE"@,
        request.method == Method::Register ==> method_text(request.method) == "REGISTER"@,
{
    assert(uri_text(server_uri(server, auth)) =~= proved_for(auth, server));
    lemma_header_index(request.headers, "CSeq"@, 0);
}

/// The answer to a challenge is the request that was challenged, with the next
/// number and the same method in its first `CSeq` header.
pub proof fn law_answer_is_the_next_request(
    response: ResponseView,
    auth: Option<AuthView>,
    request: RequestView,
    server: Seq<char>,
    username: Seq<char>,
    password: Seq<char>,
    cnonce: Seq<char>,
    index: int,
)
    requires
        posed(response) is Some,
        posed(response)->0.algorithm is Some,
        numbered(request) is Some,
        0 <= index < request.headers.len(),
    ensures
        ({
            let answer = authorized(
                response,
                auth,
                MessageView::Request(request),
                server,
                username,
                password,
                cnonce,
            )->Ok_0;
            let number = numbered(request)->0;
            &&& answer.method == request.method
            &&& answer.uri == request.uri
            &&& answer.version == request.version
            &&& answer.body == request.body
            &&& header_value(answer.headers, "CSeq"@) == Some(
                decimal((number.seq + 1) as nat) + " "@ + number.method,
            )
            &&& answer.headers[index].name == request.headers[index].name
            &&& request.headers[index].name != "CSeq"@ ==> answer.headers[index]
                == request.headers[index]
        }),
{
    law_answering_keeps_the_rest(
        response,
        auth,
        request,
        server,
        username,
        password,
        cnonce,
    );
    lemma_header_index(request.headers, "CSeq"@, 0);
}

/// A request is followed up with the next number in its first `CSeq` header and one
/// more header at the end. Every other header stays.
pub proof fn law_follow_up_is_the_next_request(
    request: RequestView,
    cseq: CSeqView,
    added: HeaderView,
    index: int,
)
    requires
        0 <= index < request.headers.len(),
        request.headers[index].name == "CSeq"@,
        forall|i: int| 0 <= i < index ==> (#[trigger] request.headers[i]).name != "CSeq"@,
    ensures
        ({
            let next = next_request(request, cseq, added);
            &&& next.method == request.method
            &&& next.uri == request.uri
            &&& next.version == request.version
            &&& next.body == request.body
            &&& next.headers.len() == request.headers.len() + 1
            &&& next.headers.last() == added
            &&& next.headers[index].name == "CSeq"@
            &&& next.headers[index].value == decimal((cseq.seq + 1) as nat) + " "@ + cseq.method
            &&& forall|i: int|
                0 <= i < request.headers.len() && i != index ==> #[trigger] next.headers[i]
                    == request.headers[i]
        }),
{
    lemma_header_index(request.headers, "CSeq"@, 0);
}

/// A digest is told together with the challenge that it answers.
pub proof fn law_digests_are_told(
    username: Seq<char>,
    challenge: ChallengeView,
    address: Seq<char>,
    digest: Seq<char>,
    cnonce: Seq<char>,
)
    requires
        challenge.algorithm is Some,
    ensures
        authorization_text(
            username,
            challenge,
            address,
            digest,
            challenge.algorithm->0,
            cnonce,
        ) == credentials(username, challenge, address, digest, cnonce),
{
}

/// Why a challenge is not answered, and that each reason comes before the next.
pub proof fn law_reasons_not_to_answer(
    response: ResponseView,
    auth: Option<AuthView>,
    base: MessageView,
    server: Seq<char>,
    username: Seq<char>,
    password: Seq<char>,
    cnonce: Seq<char>,
)
    ensures
        ({
            let outcome = authorized(response, auth, base, server, username, password, cnonce);
            let request = base->Request_0;
            let number = header_value(request.headers, "CSeq"@);
            if header_value(response.headers, "WWW-Authenticate"@) is None {
                outcome == Err::<RequestView, _>(SipError::MissingChallenge)
            } else if posed(response) is None {
                outcome == Err::<RequestView, _>(SipError::InvalidChallenge)
            } else if base is Response {
                outcome == Err::<RequestView, _>(SipError::NotARequest)
            } else if posed(response)->0.algorithm is None {
                outcome == Err::<RequestView, _>(SipError::MissingAlgorithm)
            } else if number is None {
                outcome == Err::<RequestView, _>(SipError::MissingCSeq)
            } else if numbered(request) is None {
                outcome == Err::<RequestView, _>(SipError::InvalidCSeq)
            } else {
                outcome is Ok
            }
        }),
        sequence_exhausted(response, base) <==> posed(response) is Some
            && posed(response)->0.algorithm is Some && base is Request && numbered(
            base->Request_0,
        ) is Some && numbered(base->Request_0)->0.seq == u32::MAX,
        as_message(authorized(response, auth, base, server, username, password, cnonce)) is Ok
            ==> as_message(authorized(response, auth, base, server, username, password, cnonce))
            == Ok::<_, SipError>(
            MessageView::Request(
                authorized(response, auth, base, server, username, password, cnonce)->Ok_0,
            ),
        ),
{
}

/// A new branch takes the place of every branch in a `Via` header, and of nothing
/// else.
pub proof fn law_only_branches_are_replaced(via: ViaView, branch: Seq<char>, index: int)
    requires
        0 <= index < via.params.len(),
    ensures
        with_branch(via, branch).version == via.version,
        with_branch(via, branch).transport == via.transport,
        with_branch(via, branch).sent_by == via.sent_by,
        with_branch(via, branch).params.len() == via.params.len(),
        with_branch(via, branch).params[index] == if via.params[index] is Branch {
            ParamView::Branch(branch)
        } else {
            via.params[index]
        },
{
}

/// A request is rerouted in its `Via` headers, and in nothing else.
pub proof fn law_only_vias_are_rerouted(request: RequestView, via: ViaView, index: int)
    requires
        0 <= index < request.headers.len(),
    ensures
        rerouted(request, via).method == request.method,
        rerouted(request, via).uri == request.uri,
        rerouted(request, via).version == request.version,
        rerouted(request, via).body == request.body,
        rerouted(request, via).headers.len() == request.headers.len(),
        rerouted(request, via).headers[index].name == request.headers[index].name,
        rerouted(request, via).headers[index].value == if request.headers[index].name == "Via"@ {
            via_text(via)
        } else {
            request.headers[index].value
        },
{
}

/// A request is put on the branch `12345`: every `Via` header is the first one with
/// this branch, and everything else stays.
pub proof fn law_new_branch_is_put_on_vias(request: RequestView, index: int)
    requires
        0 <= index < request.headers.len(),
    ensures
        rebranched(request) is Ok <==> routed(request.headers) is Some,
        header_value(request.headers, "Via"@) is None ==> rebranched(request) == Err::<
            RequestView,
            _,
        >(SipError::MissingVia),
        header_value(request.headers, "Via"@) is Some && routed(request.headers) is None
            ==> rebranched(request) == Err::<RequestView, _>(SipError::InvalidVia),
        routed(request.headers) is Some ==> {
            let moved = rebranched(request)->Ok_0;
            &&& moved.method == request.method
            &&& moved.uri == request.uri
            &&& moved.version == request.version
            &&& moved.body == request.body
            &&& moved.headers.len() == request.headers.len()
            &&& moved.headers[index].name == request.headers[index].name
            &&& moved.headers[index].value == if request.headers[index].name == "Via"@ {
                via_text(with_branch(routed(request.headers)->0, "12345"@))
            } else {
                request.headers[index].value
            }
        },
{
    if rebranched(request) is Ok {
        law_rebranching_keeps_the_rest(request);
    }
}

/// The branch of a response is the first among the parameters of its first `Via`
/// header.
pub proof fn law_first_branch_counts(response: ResponseView, index: int)
    requires
        routed(response.headers) is Some,
        0 <= index <= routed(response.headers)->0.params.len(),
        forall|i: int|
            0 <= i < index ==> (#[trigger] routed(response.headers)->0.params[i]) !is Branch,
        index < routed(response.headers)->0.params.len() ==> routed(
            response.headers,
        )->0.params[index] is Branch,
    ensures
        index < routed(response.headers)->0.params.len() ==> branch_of(response) == Ok::<
            _,
            SipError,
        >(routed(response.headers)->0.params[index]->Branch_0),
        index == routed(response.headers)->0.params.len() ==> branch_of(response) == Err::<
            Seq<char>,
            _,
        >(SipError::MissingBranch),
{
    law_first_branch_among(routed(response.headers)->0.params, 0, index);
}

/// A response whose `Via` header is missing or cannot be read has no branch.
pub proof fn law_no_branch_without_via(response: ResponseView)
    ensures
        header_value(response.headers, "Via"@) is None ==> branch_of(response) == Err::<
            Seq<char>,
            _,
        >(SipError::MissingVia),
        header_value(response.headers, "Via"@) is Some && routed(response.headers) is None
            ==> branch_of(response) == Err::<Seq<char>, _>(SipError::InvalidVia),
{
}

/// Among parameters the first branch counts, from the given place on.
pub proof fn law_first_branch_among(params: Seq<ParamView>, from: int, index: int)
    requires
        0 <= from <= index <= params.len(),
        forall|i: int| from <= i < index ==> (#[trigger] params[i]) !is Branch,
        index < params.len() ==> params[index] is Branch,
    ensures
        branch_from(params, from) == if index < params.len() {
            Some(params[index]->Branch_0)
        } else {
            None
        },
    decreases index - from,
{
    if from < index {
        assert(params[from] !is Branch);
        law_first_branch_among(params, from + 1, index);
    }
}

} // verus!
