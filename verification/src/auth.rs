//! Answering the challenges of the exchange.

use vstd::prelude::*;

use crate::error::SipError;
use crate::message::{
    find_header, find_value, header_index, header_value, headers_view, lemma_header_index,
    optional_auth, Auth, AuthView, Header,
    HeaderView, MessageView, Method, Request, RequestView, Response, ResponseView, SipMessage,
};
use crate::parser::{
    is_algorithm, parsed_challenge, parsed_cseq, CSeq, CSeqView, Challenge, ChallengeView,
};
use crate::sip::{header, new_server_uri, server_uri};
use crate::surroundings::{is_random_id, random_id};
use crate::text::{decimal, decimal_text};
use crate::wire::{cseq_text, method_text, uri_text};

verus! {

/// The account of the bridge with the exchange.
pub struct SipAuthInfo {
    pub address: String,
    pub username: String,
    pub password: String,
}

impl Clone for SipAuthInfo {
    fn clone(&self) -> (copy: Self)
        ensures
            copy == *self,
    {
        SipAuthInfo {
            address: self.address.clone(),
            username: self.username.clone(),
            password: self.password.clone(),
        }
    }
}

/// What a digest is computed from.
pub struct DigestInput {
    pub username: String,
    pub password: String,
    pub realm: String,
    pub nonce: String,
    pub uri: String,
    pub method: String,
    pub cnonce: String,
    pub nc: u8,
    pub algorithm: String,
}

/// Whether a text is how some method is written.
pub open spec fn is_method(text: Seq<char>) -> bool {
    exists|method: Method| text == #[trigger] method_text(method)
}

/// The digest that proves knowledge of the password, with protection of
/// authentication.
pub uninterp spec fn digest_response(
    username: Seq<char>,
    password: Seq<char>,
    realm: Seq<char>,
    nonce: Seq<char>,
    uri: Seq<char>,
    method: Seq<char>,
    cnonce: Seq<char>,
    nc: u8,
    algorithm: Seq<char>,
) -> Seq<char>;

/// Computes a digest.
///
/// `rsip::services::DigestGenerator::compute` depends on its fields alone. It
/// uses the address only as it is displayed, so the address is handed over as a
/// host without scheme or port, which is displayed as it stands. Every method
/// and algorithm is known by the name that stands for it.
#[verifier::external_body]
fn compute_digest(input: &DigestInput) -> (digest: String)
    requires
        is_method(input.method@),
        is_algorithm(input.algorithm@),
    ensures
        digest@ == digest_response(
            input.username@,
            input.password@,
            input.realm@,
            input.nonce@,
            input.uri@,
            input.method@,
            input.cnonce@,
            input.nc,
            input.algorithm@,
        ),
{
    let cnonce = input.cnonce.clone();
    rsip::services::DigestGenerator {
        username: &input.username,
        password: &input.password,
        nonce: &input.nonce,
        uri: &rsip::Host::Domain(input.uri.clone().into()).into(),
        realm: &input.realm,
        method: &input.method.parse().unwrap(),
        qop: Some(&rsip::headers::auth::AuthQop::Auth { cnonce, nc: input.nc }),
        algorithm: input.algorithm.parse().unwrap(),
    }
    .compute()
}

/// How the value of an `Authorization` header is written.
pub open spec fn authorization_text(
    username: Seq<char>,
    challenge: ChallengeView,
    uri: Seq<char>,
    response: Seq<char>,
    algorithm: Seq<char>,
    cnonce: Seq<char>,
) -> Seq<char> {
    "Digest username=\""@ + username + "\", realm=\""@ + challenge.realm + "\", nonce=\""@
        + challenge.nonce + "\", uri=\""@ + uri + "\", response=\""@ + response
        + "\", algorithm="@ + algorithm + (match challenge.opaque {
        Some(opaque) => ", opaque=\""@ + opaque + "\""@,
        None => Seq::empty(),
    }) + ", qop=\"auth\", nc=00000001, cnonce=\""@ + cnonce + "\""@
}

/// The header that answers a challenge.
pub open spec fn authorization_header(
    challenge: ChallengeView,
    algorithm: Seq<char>,
    auth: Option<AuthView>,
    method: Method,
    server: Seq<char>,
    username: Seq<char>,
    password: Seq<char>,
    cnonce: Seq<char>,
) -> HeaderView {
    let uri = uri_text(server_uri(server, auth));
    header(
        "Authorization"@,
        authorization_text(
            username,
            challenge,
            uri,
            digest_response(
                username,
                password,
                challenge.realm,
                challenge.nonce,
                uri,
                method_text(method),
                cnonce,
                1,
                algorithm,
            ),
            algorithm,
            cnonce,
        ),
    )
}

/// The challenge that a response carries.
pub open spec fn challenge_of(response: ResponseView) -> Result<ChallengeView, SipError> {
    match header_value(response.headers, "WWW-Authenticate"@) {
        None => Err(SipError::MissingChallenge),
        Some(value) => match parsed_challenge(value) {
            None => Err(SipError::InvalidChallenge),
            Some(challenge) => Ok(challenge),
        },
    }
}

/// The sequence number of a request.
pub open spec fn cseq_of(request: RequestView) -> Result<CSeqView, SipError> {
    match header_value(request.headers, "CSeq"@) {
        None => Err(SipError::MissingCSeq),
        Some(value) => match parsed_cseq(value) {
            None => Err(SipError::InvalidCSeq),
            Some(cseq) => Ok(cseq),
        },
    }
}

/// The request that follows `request` in its call: the next sequence number,
/// and one more header.
pub open spec fn next_request(
    request: RequestView,
    cseq: CSeqView,
    added: HeaderView,
) -> RequestView {
    let index = header_index(request.headers, "CSeq"@, 0);
    RequestView {
        headers: request.headers.update(
            index,
            header("CSeq"@, decimal((cseq.seq + 1) as nat) + " "@ + cseq.method),
        ).push(added),
        ..request
    }
}

/// The request that answers the challenge of a response, or why there is none.
pub open spec fn authorized(
    response: ResponseView,
    auth: Option<AuthView>,
    base: MessageView,
    server: Seq<char>,
    username: Seq<char>,
    password: Seq<char>,
    cnonce: Seq<char>,
) -> Result<RequestView, SipError> {
    match challenge_of(response) {
        Err(error) => Err(error),
        Ok(challenge) => match base {
            MessageView::Response(_) => Err(SipError::NotARequest),
            MessageView::Request(request) => match challenge.algorithm {
                None => Err(SipError::MissingAlgorithm),
                Some(algorithm) => match cseq_of(request) {
                    Err(error) => Err(error),
                    Ok(cseq) => Ok(
                        next_request(
                            request,
                            cseq,
                            authorization_header(
                                challenge,
                                algorithm,
                                auth,
                                request.method,
                                server,
                                username,
                                password,
                                cnonce,
                            ),
                        ),
                    ),
                },
            },
        },
    }
}

/// Whether answering the challenge needs a sequence number beyond the largest.
pub open spec fn sequence_exhausted(response: ResponseView, base: MessageView) -> bool {
    &&& is_answerable(response)
    &&& base is Request
    &&& cseq_of(base->Request_0) is Ok
    &&& cseq_of(base->Request_0)->Ok_0.seq == u32::MAX
}

/// Whether a response carries a challenge that can be answered.
pub open spec fn is_answerable(response: ResponseView) -> bool {
    &&& challenge_of(response) is Ok
    &&& challenge_of(response)->Ok_0.algorithm is Some
}

/// Whether a message is a request with the given sequence number and method, as
/// the bridge writes them.
pub open spec fn is_numbered(message: MessageView, seq: u32, method: Method) -> bool {
    &&& message is Request
    &&& header_value(message->Request_0.headers, "CSeq"@) == Some(cseq_text(seq, method))
}

/// What an outcome stands for.
pub open spec fn outcome_view(outcome: Result<SipMessage, SipError>) -> Result<
    MessageView,
    SipError,
> {
    match outcome {
        Ok(message) => Ok(message@),
        Err(error) => Err(error),
    }
}

/// A request as a message.
pub open spec fn as_message(outcome: Result<RequestView, SipError>) -> Result<
    MessageView,
    SipError,
> {
    match outcome {
        Ok(request) => Ok(MessageView::Request(request)),
        Err(error) => Err(error),
    }
}

/// The challenge that a response carries.
pub fn find_challenge(response: &Response) -> (found: Result<Challenge, SipError>)
    ensures
        match found {
            Ok(challenge) => challenge_of(response@) == Ok::<_, SipError>(challenge@) && (
            challenge.algorithm is Some ==> is_algorithm(challenge.algorithm->0@)),
            Err(error) => challenge_of(response@) == Err::<ChallengeView, _>(error),
        },
{
    match find_value(&response.headers, "WWW-Authenticate") {
        None => Err(SipError::MissingChallenge),
        Some(value) => Challenge::parse(&value),
    }
}

/// The sequence number of a request.
pub fn find_cseq(request: &Request) -> (found: Result<CSeq, SipError>)
    ensures
        match found {
            Ok(cseq) => cseq_of(request@) == Ok::<_, SipError>(cseq@),
            Err(error) => cseq_of(request@) == Err::<CSeqView, _>(error),
        },
        forall|seq: u32, method: Method|
            header_value(request@.headers, "CSeq"@) == Some(
                #[trigger] cseq_text(seq, method),
            ) ==> found is Ok && found->Ok_0@ == (CSeqView { seq, method: method_text(method) }),
{
    match find_value(&request.headers, "CSeq") {
        None => Err(SipError::MissingCSeq),
        Some(value) => CSeq::parse(&value),
    }
}

/// Writes the value of an `Authorization` header around a computed digest.
pub fn write_authorization(
    username: &str,
    challenge: &Challenge,
    uri: &str,
    response: &str,
    algorithm: &str,
    cnonce: &str,
) -> (text: String)
    ensures
        text@ == authorization_text(
            username@,
            challenge@,
            uri@,
            response@,
            algorithm@,
            cnonce@,
        ),
{
    let opaque = match &challenge.opaque {
        Some(opaque) => ", opaque=\"".to_owned().concat(opaque).concat("\""),
        None => String::new(),
    };
    "Digest username=\"".to_owned().concat(username).concat("\", realm=\"").concat(
        &challenge.realm,
    ).concat("\", nonce=\"").concat(&challenge.nonce).concat("\", uri=\"").concat(uri).concat(
        "\", response=\"",
    ).concat(response).concat("\", algorithm=").concat(algorithm).concat(&opaque).concat(
        ", qop=\"auth\", nc=00000001, cnonce=\"",
    ).concat(cnonce).concat("\"")
}

/// The request that follows `request`, whose sequence number is `cseq`, in its
/// call: the next sequence number, and one more header.
pub fn follow_up(request: Request, cseq: &CSeq, added: Header) -> (next: Request)
    requires
        header_value(request@.headers, "CSeq"@) is Some,
        cseq.seq < u32::MAX,
    ensures
        next@ == next_request(request@, cseq@, added@),
{
    let index = find_header(&request.headers, "CSeq");
    let number = Header {
        name: "CSeq".to_owned(),
        value: decimal_text((cseq.seq + 1) as usize).concat(" ").concat(&cseq.method),
    };
    let mut headers = request.headers;
    headers.set(index, number);
    headers.push(added);
    assert(headers_view(headers@) =~= next_request(request@, cseq@, added@).headers);
    Request {
        method: request.method,
        uri: request.uri,
        version: request.version,
        headers,
        body: request.body,
    }
}

/// The request that answers the challenge of a response with the client nonce
/// `cnonce`. To a request that the bridge has numbered, and a challenge that can
/// be answered, there always is one.
pub fn authorize_request(
    response: &Response,
    auth: Option<Auth>,
    base_request: SipMessage,
    sip_server: &str,
    sip_username: &str,
    sip_password: &str,
    cnonce: &str,
) -> (made: Result<SipMessage, SipError>)
    requires
        !sequence_exhausted(response@, base_request@),
    ensures
        outcome_view(made) == as_message(
            authorized(
                response@,
                optional_auth(auth),
                base_request@,
                sip_server@,
                sip_username@,
                sip_password@,
                cnonce@,
            ),
        ),
        forall|seq: u32, method: Method| #[trigger]
            is_numbered(base_request@, seq, method) && is_answerable(response@) && seq < u32::MAX
                ==> made is Ok && cseq_of(base_request@->Request_0) == Ok::<_, SipError>(
                CSeqView { seq, method: method_text(method) },
            ),
{
    let challenge = match find_challenge(response) {
        Ok(challenge) => challenge,
        Err(error) => return Err(error),
    };
    let request = match base_request {
        SipMessage::Request(request) => request,
        SipMessage::Response(_) => return Err(SipError::NotARequest),
    };
    let algorithm = match &challenge.algorithm {
        Some(algorithm) => algorithm.clone(),
        None => return Err(SipError::MissingAlgorithm),
    };
    let cseq = match find_cseq(&request) {
        Ok(cseq) => cseq,
        Err(error) => return Err(error),
    };
    let uri = new_server_uri(sip_server, auth).text();
    let input = DigestInput {
        username: sip_username.to_owned(),
        password: sip_password.to_owned(),
        realm: challenge.realm.clone(),
        nonce: challenge.nonce.clone(),
        uri: uri.clone(),
        method: request.method.text().to_owned(),
        cnonce: cnonce.to_owned(),
        nc: 1,
        algorithm: algorithm.clone(),
    };
    assert(is_method(input.method@)) by {
        assert(input.method@ == method_text(request.method));
    }
    let digest = compute_digest(&input);
    let value = write_authorization(sip_username, &challenge, &uri, &digest, &algorithm, cnonce);
    let added = Header { name: "Authorization".to_owned(), value };
    Ok(SipMessage::Request(follow_up(request, &cseq, added)))
}

/// Whether answering the challenge needs a sequence number beyond the largest.
pub fn is_sequence_exhausted(response: &Response, base_request: &SipMessage) -> (exhausted: bool)
    ensures
        exhausted == sequence_exhausted(response@, base_request@),
        forall|seq: u32, method: Method| #[trigger]
            is_numbered(base_request@, seq, method) && is_answerable(response@) ==> exhausted == (
            seq == u32::MAX),
{
    match (find_challenge(response), base_request) {
        (Ok(challenge), SipMessage::Request(request)) => {
            challenge.algorithm.is_some() && match find_cseq(request) {
                Ok(cseq) => cseq.seq == u32::MAX,
                Err(_) => false,
            }
        },
        _ => false,
    }
}

/// The request that answers the challenge of a response with the client nonce
/// `cnonce`, unless the sequence numbers are exhausted.
pub fn authorize_request_checked(
    response: &Response,
    auth: Option<Auth>,
    base_request: SipMessage,
    sip_server: &str,
    sip_username: &str,
    sip_password: &str,
    cnonce: &str,
) -> (made: Result<SipMessage, SipError>)
    ensures
        outcome_view(made) == if sequence_exhausted(response@, base_request@) {
            Err(SipError::ExhaustedCSeq)
        } else {
            as_message(
                authorized(
                    response@,
                    optional_auth(auth),
                    base_request@,
                    sip_server@,
                    sip_username@,
                    sip_password@,
                    cnonce@,
                ),
            )
        },
        forall|seq: u32, method: Method| #[trigger]
            is_numbered(base_request@, seq, method) && is_answerable(response@) && seq < u32::MAX
                ==> made is Ok && cseq_of(base_request@->Request_0) == Ok::<_, SipError>(
                CSeqView { seq, method: method_text(method) },
            ),
{
    if is_sequence_exhausted(response, &base_request) {
        return Err(SipError::ExhaustedCSeq);
    }
    authorize_request(
        response,
        auth,
        base_request,
        sip_server,
        sip_username,
        sip_password,
        cnonce,
    )
}

/// The request that answers the challenge of a response with a client nonce of
/// its own.
pub fn generate_request_with_auth(
    response: Response,
    auth: Option<Auth>,
    base_request: SipMessage,
    sip_server: String,
    sip_username: String,
    sip_password: String,
) -> (made: Result<SipMessage, SipError>)
    requires
        !sequence_exhausted(response@, base_request@),
    ensures
        exists|cnonce: Seq<char>|
            is_random_id(cnonce) && outcome_view(made) == as_message(
                #[trigger] authorized(
                    response@,
                    optional_auth(auth),
                    base_request@,
                    sip_server@,
                    sip_username@,
                    sip_password@,
                    cnonce,
                ),
            ),
        forall|seq: u32, method: Method| #[trigger]
            is_numbered(base_request@, seq, method) && is_answerable(response@) && seq < u32::MAX
                ==> made is Ok && cseq_of(base_request@->Request_0) == Ok::<_, SipError>(
                CSeqView { seq, method: method_text(method) },
            ),
{
    let cnonce = random_id();
    authorize_request(
        &response,
        auth,
        base_request,
        &sip_server,
        &sip_username,
        &sip_password,
        &cnonce,
    )
}

/// The request that answers the challenge of a response with a client nonce of
/// its own, unless the sequence numbers are exhausted.
pub fn generate_request_with_auth_checked(
    response: Response,
    auth: Option<Auth>,
    base_request: SipMessage,
    sip_server: String,
    sip_username: String,
    sip_password: String,
) -> (made: Result<SipMessage, SipError>)
    ensures
        sequence_exhausted(response@, base_request@) ==> outcome_view(made) == Err::<
            MessageView,
            _,
        >(SipError::ExhaustedCSeq),
        !sequence_exhausted(response@, base_request@) ==> exists|cnonce: Seq<char>|
            is_random_id(cnonce) && outcome_view(made) == as_message(
                #[trigger] authorized(
                    response@,
                    optional_auth(auth),
                    base_request@,
                    sip_server@,
                    sip_username@,
                    sip_password@,
                    cnonce,
                ),
            ),
        forall|seq: u32, method: Method| #[trigger]
            is_numbered(base_request@, seq, method) && is_answerable(response@) && seq < u32::MAX
                ==> made is Ok && cseq_of(base_request@->Request_0) == Ok::<_, SipError>(
                CSeqView { seq, method: method_text(method) },
            ),
{
    if is_sequence_exhausted(&response, &base_request) {
        return Err(SipError::ExhaustedCSeq);
    }
    generate_request_with_auth(
        response,
        auth,
        base_request,
        sip_server,
        sip_username,
        sip_password,
    )
}

/// Answering a challenge counts the sequence number up by one, adds one header
/// at the end, and leaves everything else as it was.
pub proof fn law_answering_keeps_the_rest(
    response: ResponseView,
    auth: Option<AuthView>,
    request: RequestView,
    server: Seq<char>,
    username: Seq<char>,
    password: Seq<char>,
    cnonce: Seq<char>,
)
    requires
        authorized(
            response,
            auth,
            MessageView::Request(request),
            server,
            username,
            password,
            cnonce,
        ) is Ok,
    ensures
        ({
            let answer = authorized(
                response,
                auth,
                MessageView::Request(request),
                server,
                username,
                password,
                cnonce,
            )->Ok_0;
            let cseq = cseq_of(request)->Ok_0;
            let index = header_index(request.headers, "CSeq"@, 0);
            &&& answer.method == request.method
            &&& answer.uri == request.uri
            &&& answer.version == request.version
            &&& answer.body == request.body
            &&& answer.headers.len() == request.headers.len() + 1
            &&& answer.headers.last().name == "Authorization"@
            &&& header_value(answer.headers, "CSeq"@) == Some(
                decimal((cseq.seq + 1) as nat) + " "@ + cseq.method,
            )
            &&& forall|i: int|
                0 <= i < request.headers.len() && i != index ==> #[trigger] answer.headers[i]
                    == request.headers[i]
        }),
{
    let answer = authorized(
        response,
        auth,
        MessageView::Request(request),
        server,
        username,
        password,
        cnonce,
    )->Ok_0;
    let index = header_index(request.headers, "CSeq"@, 0);
    lemma_header_index(request.headers, "CSeq"@, 0);
    lemma_header_index(answer.headers, "CSeq"@, 0);
    assert(answer.headers[index].name == "CSeq"@);
    let found = header_index(answer.headers, "CSeq"@, 0);
    if found < index {
        assert(answer.headers[found] == request.headers[found]);
    }
}

} // verus!
