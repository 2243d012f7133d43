//! The requests that the bridge sends.

use vstd::prelude::*;
use vstd::utf8::{
    decode_utf8, encode_utf8, encode_utf8_decode_utf8, encode_utf8_valid_utf8, valid_utf8,
};

use crate::error::SipError;
use crate::message::{
    header_index, header_value, optional_auth, params_view, Auth, AuthView, Header, HeaderView,
    MessageView, Method, Param, ParamView, Request, RequestView, Scheme, SchemeView, SipMessage,
    Uri, UriView, Version, Via,
};
use crate::parser::own_via;
use crate::surroundings::{is_random_id, local_address, random_id};
use crate::text::{decimal, decimal_text, is_dotted};
use crate::wire::{
    address_text, cseq_text, host_text, request_text, uri_text, via_text, write_address, write_cseq,
};

verus! {

/// The identifier of a call.
#[derive(Debug)]
pub struct CallID(pub String);

impl Clone for CallID {
    fn clone(&self) -> (copy: Self)
        ensures
            copy == *self,
    {
        CallID(self.0.clone())
    }
}

impl CallID {
    /// A new identifier.
    pub fn generate() -> (id: CallID)
        ensures
            is_random_id(id.0@),
    {
        CallID(random_id())
    }
}

/// The branch that requests carry until they are authorized.
pub open spec fn first_branch() -> Seq<char> {
    "z9hG4bKnashds7"@
}

/// The tag of the bridge in its `From` headers.
pub open spec fn bridge_tag() -> ParamView {
    ParamView::Tag("a73kszlfl"@)
}

/// An address on the server.
pub open spec fn server_uri(server: Seq<char>, auth: Option<AuthView>) -> UriView {
    UriView { scheme: Some(SchemeView::Sip), auth, host: server, port: None, params: Seq::empty() }
}

/// The address of a user without a password on the server.
pub open spec fn user_uri(server: Seq<char>, user: Seq<char>) -> UriView {
    server_uri(server, Some(AuthView { user, password: None }))
}

/// A header.
pub open spec fn header(name: Seq<char>, value: Seq<char>) -> HeaderView {
    HeaderView { name, value }
}

/// The request that asks the server to register the bridge.
pub open spec fn register_request(
    call_id: Seq<char>,
    server: Seq<char>,
    username: Seq<char>,
    address: Seq<char>,
) -> RequestView {
    let own = user_uri(server, username);
    RequestView {
        method: Method::Register,
        uri: server_uri(server, None),
        version: Version::V2,
        headers: seq![
            header(
                "Via"@,
                via_text(own_via(host_text(address, Some(5060u16)), first_branch())),
            ),
            header("Max-Forwards"@, "70"@),
            header("From"@, address_text(Some(username), own, seq![bridge_tag()])),
            header("To"@, address_text(Some(username), own, seq![])),
            header("Call-ID"@, call_id),
            header("CSeq"@, cseq_text(1, Method::Register)),
            header("Contact"@, address_text(None, own, seq![])),
            header("User-Agent"@, "matrix_sip_bridge"@),
            header("Content-Length"@, "0"@),
        ],
        body: seq![],
    }
}

/// The request that invites the user at `uri` to a call that `sdp` describes.
pub open spec fn invite_request(
    call_id: Seq<char>,
    uri: UriView,
    sdp: Seq<char>,
    server: Seq<char>,
    username: Seq<char>,
    address: Seq<char>,
) -> RequestView {
    let own = user_uri(server, username);
    RequestView {
        method: Method::Invite,
        uri,
        version: Version::V2,
        headers: seq![
            header("Via"@, via_text(own_via(address, first_branch()))),
            header("From"@, address_text(Some("sip_bridge"@), own, seq![bridge_tag()])),
            header("To"@, address_text(None, uri, seq![])),
            header("Call-ID"@, call_id),
            header("CSeq"@, cseq_text(1, Method::Invite)),
            header("Contact"@, address_text(None, own, seq![ParamView::Transport("WSS"@)])),
            header("Max-Forwards"@, "70"@),
            header("Content-Type"@, "application/sdp"@),
            header("User-Agent"@, "matrix_sip_bridge"@),
            header("Content-Length"@, decimal(encode_utf8(sdp).len())),
        ],
        body: encode_utf8(sdp),
    }
}

/// The request that acknowledges a response.
pub open spec fn ack_request(
    call_id: Seq<char>,
    cseq: u32,
    response_uri: UriView,
    branch: Seq<char>,
    uri: UriView,
    server: Seq<char>,
    username: Seq<char>,
    address: Seq<char>,
) -> RequestView {
    let own = user_uri(server, username);
    RequestView {
        method: Method::Ack,
        uri: response_uri,
        version: Version::V2,
        headers: seq![
            header("Via"@, via_text(own_via(address, branch))),
            header("From"@, address_text(Some("sip_bridge"@), own, seq![bridge_tag()])),
            header("To"@, address_text(None, uri, seq![])),
            header("Call-ID"@, call_id),
            header("CSeq"@, cseq_text(cseq, Method::Ack)),
            header("Max-Forwards"@, "70"@),
            header("Content-Length"@, "0"@),
        ],
        body: seq![],
    }
}

/// A header with the given name and value.
fn new_header(name: &str, value: String) -> (made: Header)
    ensures
        made@ == header(name@, value@),
{
    Header { name: name.to_owned(), value }
}

/// An address on the server.
pub fn new_server_uri(server: &str, auth: Option<Auth>) -> (uri: Uri)
    ensures
        uri@ == server_uri(server@, optional_auth(auth)),
{
    Uri {
        scheme: Some(Scheme::Sip),
        auth,
        host: server.to_owned(),
        port: None,
        params: String::new(),
    }
}

/// The address of a user without a password on the server.
pub fn new_user_uri(server: &str, user: &str) -> (uri: Uri)
    ensures
        uri@ == user_uri(server@, user@),
{
    new_server_uri(server, Some(Auth { user: user.to_owned(), password: None }))
}

/// The `Via` header that the bridge puts on a request.
fn via_header(host: String, branch: &str) -> (made: Header)
    ensures
        made@ == header("Via"@, via_text(own_via(host@, branch@))),
{
    let params = vec![Param::Branch(branch.to_owned())];
    let via = Via {
        version: "SIP/2.0".to_owned(),
        transport: "WSS".to_owned(),
        sent_by: host,
        params,
    };
    assert(via@.params =~= own_via(host@, branch@).params);
    new_header("Via", via.text())
}

/// The `From` header that the bridge puts on a request.
fn from_header(display_name: &str, uri: &Uri) -> (made: Header)
    ensures
        made@ == header("From"@, address_text(Some(display_name@), uri@, seq![bridge_tag()])),
{
    let params = vec![Param::Tag("a73kszlfl".to_owned())];
    assert(params_view(params@) =~= seq![bridge_tag()]);
    new_header("From", write_address(Some(display_name), uri, &params))
}

/// A header whose value is an address without parameters.
fn plain_address_header(name: &str, display_name: Option<&str>, uri: &Uri) -> (made: Header)
    ensures
        made@ == header(
            name@,
            address_text(
                match display_name {
                    Some(name) => Some(name@),
                    None => None,
                },
                uri@,
                seq![],
            ),
        ),
{
    let params: Vec<Param> = Vec::new();
    assert(params_view(params@) =~= seq![]);
    new_header(name, write_address(display_name, uri, &params))
}

/// The request that asks the server to register the bridge, sent from `address`.
pub fn register_request_from(
    call_id: &CallID,
    sip_server: &str,
    sip_username: &str,
    address: &str,
) -> (request: Request)
    ensures
        request@ == register_request(call_id.0@, sip_server@, sip_username@, address@),
{
    let own = new_user_uri(sip_server, sip_username);
    let host = address.to_owned().concat(":").concat(decimal_text(5060).as_str());
    let headers = vec![
        via_header(host, "z9hG4bKnashds7"),
        new_header("Max-Forwards", "70".to_owned()),
        from_header(sip_username, &own),
        plain_address_header("To", Some(sip_username), &own),
        new_header("Call-ID", call_id.0.clone()),
        new_header("CSeq", write_cseq(1, Method::Register)),
        plain_address_header("Contact", None, &own),
        new_header("User-Agent", "matrix_sip_bridge".to_owned()),
        new_header("Content-Length", "0".to_owned()),
    ];
    let request = Request {
        method: Method::Register,
        uri: new_server_uri(sip_server, None),
        version: Version::V2,
        headers,
        body: Vec::new(),
    };
    assert(request@.headers =~= register_request(
        call_id.0@,
        sip_server@,
        sip_username@,
        address@,
    ).headers);
    request
}

/// The request that asks the server to register the bridge.
pub fn generate_base_register_request(
    call_id: CallID,
    sip_server: String,
    sip_username: String,
) -> (made: Result<SipMessage, SipError>)
    ensures
        match made {
            Ok(message) => exists|address: Seq<char>|
                is_dotted(address) && message@ == MessageView::Request(
                    #[trigger] register_request(call_id.0@, sip_server@, sip_username@, address),
                ),
            Err(error) => error == SipError::NoLocalAddress,
        },
{
    match local_address() {
        Ok(address) => Ok(
            SipMessage::Request(
                register_request_from(&call_id, &sip_server, &sip_username, &address),
            ),
        ),
        Err(_) => Err(SipError::NoLocalAddress),
    }
}

/// The request that invites the user at `sip_uri` to a call, sent from `address`.
pub fn invite_request_from(
    call_id: &CallID,
    sip_uri: &Uri,
    sdp: &str,
    sip_server: &str,
    sip_username: &str,
    address: &str,
) -> (request: Request)
    ensures
        request@ == invite_request(
            call_id.0@,
            sip_uri@,
            sdp@,
            sip_server@,
            sip_username@,
            address@,
        ),
{
    let own = new_user_uri(sip_server, sip_username);
    let contact_params = vec![Param::Transport("WSS".to_owned())];
    assert(params_view(contact_params@) =~= seq![ParamView::Transport("WSS"@)]);
    let body = sdp.as_bytes_vec();
    let headers = vec![
        via_header(address.to_owned(), "z9hG4bKnashds7"),
        from_header("sip_bridge", &own),
        plain_address_header("To", None, sip_uri),
        new_header("Call-ID", call_id.0.clone()),
        new_header("CSeq", write_cseq(1, Method::Invite)),
        new_header("Contact", write_address(None, &own, &contact_params)),
        new_header("Max-Forwards", "70".to_owned()),
        new_header("Content-Type", "application/sdp".to_owned()),
        new_header("User-Agent", "matrix_sip_bridge".to_owned()),
        new_header("Content-Length", decimal_text(body.len())),
    ];
    let request = Request {
        method: Method::Invite,
        uri: sip_uri.clone(),
        version: Version::V2,
        headers,
        body,
    };
    assert(request@.headers =~= invite_request(
        call_id.0@,
        sip_uri@,
        sdp@,
        sip_server@,
        sip_username@,
        address@,
    ).headers);
    request
}

/// The request that invites the user at `sip_uri` to a call.
///
/// It is sent first without an answer to a challenge; the response carries the
/// challenge.
pub fn generate_invite_base_request(
    call_id: CallID,
    sip_uri: Uri,
    sdp: String,
    sip_server: String,
    sip_username: String,
) -> (made: Result<SipMessage, SipError>)
    ensures
        match made {
            Ok(message) => exists|address: Seq<char>|
                is_dotted(address) && message@ == MessageView::Request(
                    #[trigger] invite_request(
                        call_id.0@,
                        sip_uri@,
                        sdp@,
                        sip_server@,
                        sip_username@,
                        address,
                    ),
                ),
            Err(error) => error == SipError::NoLocalAddress,
        },
{
    match local_address() {
        Ok(address) => Ok(
            SipMessage::Request(
                invite_request_from(&call_id, &sip_uri, &sdp, &sip_server, &sip_username, &address),
            ),
        ),
        Err(_) => Err(SipError::NoLocalAddress),
    }
}

/// The request that acknowledges a response, sent from `address`.
pub fn ack_request_from(
    call_id: &CallID,
    cseq: u32,
    response_uri: &Uri,
    branch: &str,
    sip_uri: &Uri,
    sip_server: &str,
    sip_username: &str,
    address: &str,
) -> (request: Request)
    ensures
        request@ == ack_request(
            call_id.0@,
            cseq,
            response_uri@,
            branch@,
            sip_uri@,
            sip_server@,
            sip_username@,
            address@,
        ),
{
    let own = new_user_uri(sip_server, sip_username);
    let headers = vec![
        via_header(address.to_owned(), branch),
        from_header("sip_bridge", &own),
        plain_address_header("To", None, sip_uri),
        new_header("Call-ID", call_id.0.clone()),
        new_header("CSeq", write_cseq(cseq, Method::Ack)),
        new_header("Max-Forwards", "70".to_owned()),
        new_header("Content-Length", "0".to_owned()),
    ];
    let request = Request {
        method: Method::Ack,
        uri: response_uri.clone(),
        version: Version::V2,
        headers,
        body: Vec::new(),
    };
    assert(request@.headers =~= ack_request(
        call_id.0@,
        cseq,
        response_uri@,
        branch@,
        sip_uri@,
        sip_server@,
        sip_username@,
        address@,
    ).headers);
    request
}

/// The request that acknowledges a response.
pub fn generate_ack_request(
    call_id: CallID,
    cseq: u32,
    response_uri: Uri,
    branch: String,
    sip_uri: Uri,
    sip_server: String,
    sip_username: String,
) -> (made: Result<SipMessage, SipError>)
    ensures
        match made {
            Ok(message) => exists|address: Seq<char>|
                is_dotted(address) && message@ == MessageView::Request(
                    #[trigger] ack_request(
                        call_id.0@,
                        cseq,
                        response_uri@,
                        branch@,
                        sip_uri@,
                        sip_server@,
                        sip_username@,
                        address,
                    ),
                ),
            Err(error) => error == SipError::NoLocalAddress,
        },
{
    match local_address() {
        Ok(address) => Ok(
            SipMessage::Request(
                ack_request_from(
                    &call_id,
                    cseq,
                    &response_uri,
                    &branch,
                    &sip_uri,
                    &sip_server,
                    &sip_username,
                    &address,
                ),
            ),
        ),
        Err(_) => Err(SipError::NoLocalAddress),
    }
}

/// Where the headers of the request to register stand that are looked up in it.
pub proof fn lemma_register_headers(
    call_id: Seq<char>,
    server: Seq<char>,
    username: Seq<char>,
    address: Seq<char>,
)
    ensures
        header_index(register_request(call_id, server, username, address).headers, "CSeq"@, 0)
            == 5,
{
    reveal_strlit("Via");
    reveal_strlit("Max-Forwards");
    reveal_strlit("From");
    reveal_strlit("To");
    reveal_strlit("Call-ID");
    reveal_strlit("CSeq");
    let headers = register_request(call_id, server, username, address).headers;
    assert("From"@[0] != "CSeq"@[0]);
    assert(headers[0].name == "Via"@ && headers[1].name == "Max-Forwards"@);
    assert(headers[2].name == "From"@ && headers[3].name == "To"@);
    assert(headers[4].name == "Call-ID"@ && headers[5].name == "CSeq"@);
    reveal_with_fuel(header_index, 7);
}

/// Where the headers of an invitation stand that are looked up in it.
pub proof fn lemma_invite_headers(
    call_id: Seq<char>,
    uri: UriView,
    sdp: Seq<char>,
    server: Seq<char>,
    username: Seq<char>,
    address: Seq<char>,
)
    ensures
        header_index(
            invite_request(call_id, uri, sdp, server, username, address).headers,
            "Via"@,
            0,
        ) == 0,
        header_index(
            invite_request(call_id, uri, sdp, server, username, address).headers,
            "CSeq"@,
            0,
        ) == 4,
        forall|i: int|
            0 < i < 10 ==> (#[trigger] invite_request(
                call_id,
                uri,
                sdp,
                server,
                username,
                address,
            ).headers[i]).name != "Via"@,
{
    reveal_strlit("Via");
    reveal_strlit("From");
    reveal_strlit("To");
    reveal_strlit("Call-ID");
    reveal_strlit("CSeq");
    reveal_strlit("Contact");
    reveal_strlit("Max-Forwards");
    reveal_strlit("Content-Type");
    reveal_strlit("User-Agent");
    reveal_strlit("Content-Length");
    let headers = invite_request(call_id, uri, sdp, server, username, address).headers;
    assert("From"@[0] != "CSeq"@[0]);
    assert(headers[0].name == "Via"@ && headers[1].name == "From"@ && headers[2].name == "To"@);
    assert(headers[3].name == "Call-ID"@ && headers[4].name == "CSeq"@);
    assert(headers[5].name == "Contact"@ && headers[6].name == "Max-Forwards"@);
    assert(headers[7].name == "Content-Type"@ && headers[8].name == "User-Agent"@);
    assert(headers[9].name == "Content-Length"@);
    reveal_with_fuel(header_index, 6);
}

/// Every request says how many bytes its body has, and which call it belongs to.
pub proof fn law_requests_are_labelled(
    call_id: Seq<char>,
    cseq: u32,
    response_uri: UriView,
    branch: Seq<char>,
    uri: UriView,
    sdp: Seq<char>,
    server: Seq<char>,
    username: Seq<char>,
    address: Seq<char>,
)
    ensures
        is_labelled(register_request(call_id, server, username, address), call_id),
        is_labelled(invite_request(call_id, uri, sdp, server, username, address), call_id),
        is_labelled(
            ack_request(call_id, cseq, response_uri, branch, uri, server, username, address),
            call_id,
        ),
{
    reveal_strlit("Via");
    reveal_strlit("From");
    reveal_strlit("To");
    reveal_strlit("Call-ID");
    reveal_strlit("CSeq");
    reveal_strlit("Contact");
    reveal_strlit("Max-Forwards");
    reveal_strlit("Content-Type");
    reveal_strlit("User-Agent");
    reveal_strlit("Content-Length");
    reveal_strlit("0");
    assert("Contact"@[1] != "Call-ID"@[1]);
    assert(decimal(0) =~= "0"@);
    let register = register_request(call_id, server, username, address).headers;
    assert(register[0].name == "Via"@ && register[1].name == "Max-Forwards"@);
    assert(register[2].name == "From"@ && register[3].name == "To"@);
    assert(register[4].name == "Call-ID"@ && register[5].name == "CSeq"@);
    assert(register[6].name == "Contact"@ && register[7].name == "User-Agent"@);
    assert(register[8].name == "Content-Length"@);
    let invite = invite_request(call_id, uri, sdp, server, username, address).headers;
    assert(invite[0].name == "Via"@ && invite[1].name == "From"@ && invite[2].name == "To"@);
    assert(invite[3].name == "Call-ID"@ && invite[4].name == "CSeq"@);
    assert(invite[5].name == "Contact"@ && invite[6].name == "Max-Forwards"@);
    assert(invite[7].name == "Content-Type"@ && invite[8].name == "User-Agent"@);
    assert(invite[9].name == "Content-Length"@);
    let ack = ack_request(
        call_id,
        cseq,
        response_uri,
        branch,
        uri,
        server,
        username,
        address,
    ).headers;
    assert(ack[0].name == "Via"@ && ack[1].name == "From"@ && ack[2].name == "To"@);
    assert(ack[3].name == "Call-ID"@ && ack[4].name == "CSeq"@);
    assert(ack[5].name == "Max-Forwards"@ && ack[6].name == "Content-Length"@);
    reveal_with_fuel(header_index, 11);
}

/// Whether a request says how many bytes its body has, and that it belongs to
/// the given call.
pub open spec fn is_labelled(request: RequestView, call_id: Seq<char>) -> bool {
    &&& header_value(request.headers, "Content-Length"@) == Some(decimal(request.body.len()))
    &&& header_value(request.headers, "Call-ID"@) == Some(call_id)
}

/// An invitation is written with the description of the call at its end.
pub proof fn law_invitation_ends_in_description(
    call_id: Seq<char>,
    uri: UriView,
    sdp: Seq<char>,
    server: Seq<char>,
    username: Seq<char>,
    address: Seq<char>,
)
    ensures
        ({
            let request = invite_request(call_id, uri, sdp, server, username, address);
            request_text(request) == request_text(
                RequestView { body: Seq::empty(), ..request },
            ) + sdp
        }),
{
    let request = invite_request(call_id, uri, sdp, server, username, address);
    encode_utf8_valid_utf8(sdp);
    encode_utf8_decode_utf8(sdp);
    assert(valid_utf8(Seq::<u8>::empty()));
    assert(decode_utf8(Seq::<u8>::empty()) =~= Seq::empty());
    assert(request_text(request) =~= request_text(
        RequestView { body: Seq::empty(), ..request },
    ) + sdp);
}

/// A user of the server is written with the name before and the server after
/// the sign between them.
pub proof fn law_user_is_written(server: Seq<char>, user: Seq<char>)
    ensures
        uri_text(user_uri(server, user)) == "sip:"@ + user + "@"@ + server,
{
    assert(uri_text(user_uri(server, user)) =~= "sip:"@ + user + "@"@ + server);
}

} // verus!
