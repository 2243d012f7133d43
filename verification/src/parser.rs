//! Reading the messages of the exchange.

use rsip::prelude::UntypedHeader;
use vstd::prelude::*;
use vstd::utf8::{decode_utf8, valid_utf8};
use webrtc::peer_connection::sdp::session_description::RTCSessionDescription;

use crate::branch::with_branch;
use crate::error::SipError;
use crate::message::{
    headers_view, optional_text, Auth, AuthView, Header, HeaderView, Method, Param, ParamView,
    Response, ResponseView, Scheme, SchemeView, Uri, UriView, Version, Via, ViaView,
};
use crate::text::{chars_of, find_char, index_from, is_alphanumeric, is_dotted, is_host_name};
use crate::wire::{cseq_text, method_text, uri_text, via_text};

verus! {

/// A response as it was read: its headers are still whole lines.
#[derive(Debug)]
pub struct RawResponse {
    pub version: Version,
    pub status: String,
    pub header_lines: Vec<String>,
    pub body: Vec<u8>,
}

/// The contents of a `CSeq` header; the method is held as it is written.
#[derive(Debug)]
pub struct CSeq {
    pub seq: u32,
    pub method: String,
}

/// What a challenge asks for; the algorithm is held as it is written.
#[derive(Debug)]
pub struct Challenge {
    pub realm: String,
    pub nonce: String,
    pub opaque: Option<String>,
    pub algorithm: Option<String>,
}

/// What a [`RawResponse`] stands for.
pub struct RawResponseView {
    pub version: Version,
    pub status: Seq<char>,
    pub header_lines: Seq<Seq<char>>,
    pub body: Seq<u8>,
}

/// What a [`CSeq`] stands for.
pub struct CSeqView {
    pub seq: u32,
    pub method: Seq<char>,
}

/// What a [`Challenge`] stands for.
pub struct ChallengeView {
    pub realm: Seq<char>,
    pub nonce: Seq<char>,
    pub opaque: Option<Seq<char>>,
    pub algorithm: Option<Seq<char>>,
}

impl View for RawResponse {
    type V = RawResponseView;

    open spec fn view(&self) -> RawResponseView {
        RawResponseView {
            version: self.version,
            status: self.status@,
            header_lines: self.header_lines@.map_values(|line: String| line@),
            body: self.body@,
        }
    }
}

impl View for CSeq {
    type V = CSeqView;

    open spec fn view(&self) -> CSeqView {
        CSeqView { seq: self.seq, method: self.method@ }
    }
}

impl View for Challenge {
    type V = ChallengeView;

    open spec fn view(&self) -> ChallengeView {
        ChallengeView {
            realm: self.realm@,
            nonce: self.nonce@,
            opaque: optional_text(self.opaque),
            algorithm: optional_text(self.algorithm),
        }
    }
}

/// Why a text is not what it should be.
#[verifier::external_type_specification]
#[verifier::external_body]
pub struct ExSipParseError(rsip::Error);

/// Why bytes are not UTF-8.
#[verifier::external_type_specification]
#[verifier::external_body]
pub struct ExFromUtf8Error(std::string::FromUtf8Error);

/// Why a text is not the description of a call.
#[verifier::external_type_specification]
#[verifier::external_body]
pub struct ExDescriptionError(webrtc::Error);

/// The response that a text is, if it is one.
pub uninterp spec fn parsed_response(text: Seq<char>) -> Option<RawResponseView>;

/// The address that a text is, if it is one.
pub uninterp spec fn parsed_uri(text: Seq<char>) -> Option<UriView>;

/// The contents of a `Via` header with the given value, if they can be read.
pub uninterp spec fn parsed_via(value: Seq<char>) -> Option<ViaView>;

/// The contents of a `CSeq` header with the given value, if they can be read.
pub uninterp spec fn parsed_cseq(value: Seq<char>) -> Option<CSeqView>;

/// The address in a `Contact` header with the given value, if it can be read.
pub uninterp spec fn parsed_contact(value: Seq<char>) -> Option<UriView>;

/// The contents of the `Via` header that the bridge puts on a request.
pub open spec fn own_via(host: Seq<char>, branch: Seq<char>) -> ViaView {
    ViaView {
        version: "SIP/2.0"@,
        transport: "WSS"@,
        sent_by: host,
        params: seq![ParamView::Branch(branch)],
    }
}

/// Whether the contents of a `Via` header are read as what they are after they
/// are written with any alphanumeric branch.
pub open spec fn is_kept_by_writing(contents: ViaView) -> bool {
    forall|branch: Seq<char>|
        is_alphanumeric(branch) ==> parsed_via(
            via_text(#[trigger] with_branch(contents, branch)),
        ) == Some(with_branch(contents, branch))
}

/// The address of a user without a password at a host.
pub open spec fn plain_uri(scheme: SchemeView, user: Seq<char>, host: Seq<char>) -> UriView {
    UriView {
        scheme: Some(scheme),
        auth: Some(AuthView { user, password: None }),
        host,
        port: None,
        params: Seq::empty(),
    }
}

/// Whether a scheme is one of the two that SIP has.
pub open spec fn is_sip_scheme(scheme: SchemeView) -> bool {
    scheme is Sip || scheme is Sips
}

/// Whether a text names an algorithm that a challenge can ask for.
pub open spec fn is_algorithm(text: Seq<char>) -> bool {
    ||| text == "MD5"@
    ||| text == "MD5-sess"@
    ||| text == "SHA256"@
    ||| text == "SHA256-sess"@
    ||| text == "SHA512"@
    ||| text == "SHA512-sess"@
}

/// The challenge in a header with the given value, if it can be read.
pub uninterp spec fn parsed_challenge(value: Seq<char>) -> Option<ChallengeView>;

/// Whether a text describes a call.
pub uninterp spec fn is_description(text: Seq<char>) -> bool;

/// Reads a response.
///
/// `rsip::Response::try_from` depends on the text alone. Of the result the
/// version, the displayed status, the displayed headers and the body are kept.
#[verifier::external_body]
fn read_response(text: &str) -> (read: Result<RawResponse, rsip::Error>)
    ensures
        read is Ok <==> parsed_response(text@) is Some,
        read is Ok ==> read->Ok_0@ == parsed_response(text@)->0,
{
    let response = rsip::Response::try_from(text)?;
    let version = match response.version {
        rsip::Version::V1 => Version::V1,
        rsip::Version::V2 => Version::V2,
    };
    Ok(RawResponse {
        version,
        status: response.status_code.to_string(),
        header_lines: response.headers.iter().map(|header| header.to_string()).collect(),
        body: response.body,
    })
}

/// Reads an address.
///
/// `rsip::Uri::try_from` depends on the text alone. An alphanumeric user at the
/// name of a host, with one of the two schemes before them, is read as what is
/// written.
#[verifier::external_body]
fn read_uri(text: &str) -> (read: Result<Uri, rsip::Error>)
    ensures
        read is Ok <==> parsed_uri(text@) is Some,
        read is Ok ==> read->Ok_0@ == parsed_uri(text@)->0,
        forall|scheme: SchemeView, user: Seq<char>, host: Seq<char>|
            is_sip_scheme(scheme) && is_alphanumeric(user) && is_host_name(host) && text@
                == uri_text(#[trigger] plain_uri(scheme, user, host)) ==> read is Ok
                && read->Ok_0@ == plain_uri(scheme, user, host),
{
    let uri = rsip::Uri::try_from(text)?;
    let scheme = match uri.scheme {
        None => None,
        Some(rsip::Scheme::Sip) => Some(Scheme::Sip),
        Some(rsip::Scheme::Sips) => Some(Scheme::Sips),
        Some(rsip::Scheme::Other(name)) => Some(Scheme::Other(name)),
    };
    let auth = uri.auth.map(|auth| Auth { user: auth.user, password: auth.password });
    let host = uri.host_with_port.host.to_string();
    let port = uri.host_with_port.port.map(u16::from);
    let params = uri.params.iter().map(|param| param.to_string()).collect();
    Ok(Uri { scheme, auth, host, port, params })
}

/// Reads the contents of a `Via` header.
///
/// The typed form of `rsip::headers::Via` depends on the value alone. The
/// header that the bridge writes for a dotted address and an alphanumeric
/// branch is read as what was written. So are contents that were read before,
/// once they are written again with an alphanumeric branch in place of theirs:
/// every part of them is displayed in a form that is read as that part.
#[verifier::external_body]
fn read_via(value: &str) -> (read: Result<Via, rsip::Error>)
    ensures
        read is Ok <==> parsed_via(value@) is Some,
        read is Ok ==> read->Ok_0@ == parsed_via(value@)->0,
        forall|host: Seq<char>, branch: Seq<char>|
            is_dotted(host) && is_alphanumeric(branch) && value@ == via_text(
                #[trigger] own_via(host, branch),
            ) ==> read is Ok && read->Ok_0@ == own_via(host, branch),
        read is Ok ==> is_kept_by_writing(read->Ok_0@),
{
    let via = rsip::typed::Via::try_from(rsip::headers::Via::new(value))?;
    let params = via.params.into_iter().map(|param| match param {
        rsip::Param::Branch(branch) => Param::Branch(branch.to_string()),
        rsip::Param::Tag(tag) => Param::Tag(tag.to_string()),
        rsip::Param::Transport(transport) => Param::Transport(transport.to_string()),
        other => Param::Other(other.to_string()),
    });
    Ok(Via {
        version: via.version.to_string(),
        transport: via.transport.to_string(),
        sent_by: via.uri.to_string(),
        params: params.collect(),
    })
}

/// Reads the contents of a `CSeq` header.
///
/// The typed form of `rsip::headers::CSeq` depends on the value alone, and of a
/// number and a method as the bridge writes them it is that number and method.
#[verifier::external_body]
fn read_cseq(value: &str) -> (read: Result<CSeq, rsip::Error>)
    ensures
        read is Ok <==> parsed_cseq(value@) is Some,
        read is Ok ==> read->Ok_0@ == parsed_cseq(value@)->0,
        forall|seq: u32, method: Method|
            value@ == #[trigger] cseq_text(seq, method) ==> read is Ok && read->Ok_0@ == (
            CSeqView { seq, method: method_text(method) }),
{
    let cseq = rsip::typed::CSeq::try_from(rsip::headers::CSeq::new(value))?;
    Ok(CSeq { seq: cseq.seq, method: cseq.method.to_string() })
}

/// Reads the address in a `Contact` header.
///
/// The typed form of `rsip::headers::Contact` depends on the value alone.
#[verifier::external_body]
fn read_contact(value: &str) -> (read: Result<Uri, rsip::Error>)
    ensures
        read is Ok <==> parsed_contact(value@) is Some,
        read is Ok ==> read->Ok_0@ == parsed_contact(value@)->0,
{
    let uri = rsip::typed::Contact::try_from(rsip::headers::Contact::new(value))?.uri;
    let scheme = match uri.scheme {
        None => None,
        Some(rsip::Scheme::Sip) => Some(Scheme::Sip),
        Some(rsip::Scheme::Sips) => Some(Scheme::Sips),
        Some(rsip::Scheme::Other(name)) => Some(Scheme::Other(name)),
    };
    let auth = uri.auth.map(|auth| Auth { user: auth.user, password: auth.password });
    let host = uri.host_with_port.host.to_string();
    let port = uri.host_with_port.port.map(u16::from);
    let params = uri.params.iter().map(|param| param.to_string()).collect();
    Ok(Uri { scheme, auth, host, port, params })
}

/// Reads a challenge.
///
/// The typed form of `rsip::headers::WwwAuthenticate` depends on the value
/// alone, and the algorithm that it holds is displayed by one of six names.
#[verifier::external_body]
fn read_challenge(value: &str) -> (read: Result<Challenge, rsip::Error>)
    ensures
        read is Ok <==> parsed_challenge(value@) is Some,
        read is Ok ==> read->Ok_0@ == parsed_challenge(value@)->0,
        read is Ok && read->Ok_0.algorithm is Some ==> is_algorithm(read->Ok_0.algorithm->0@),
{
    let untyped = rsip::headers::WwwAuthenticate::new(value);
    let challenge = rsip::typed::WwwAuthenticate::try_from(untyped)?;
    Ok(Challenge {
        realm: challenge.realm,
        nonce: challenge.nonce,
        opaque: challenge.opaque,
        algorithm: challenge.algorithm.map(|algorithm| algorithm.to_string()),
    })
}

/// Reads a text from its bytes.
///
/// `String::from_utf8` takes UTF-8 and nothing else.
#[verifier::external_body]
fn read_utf8(bytes: Vec<u8>) -> (read: Result<String, std::string::FromUtf8Error>)
    ensures
        read is Ok <==> valid_utf8(bytes@),
        read is Ok ==> read->Ok_0@ == decode_utf8(bytes@),
{
    String::from_utf8(bytes)
}

/// Reads the description of a call by the side that answers it.
///
/// `webrtc::peer_connection::sdp::session_description::RTCSessionDescription::answer`
/// depends on the text alone, which it keeps as it is if it can be read.
#[verifier::external_body]
fn read_answer(text: String) -> (read: Result<String, webrtc::Error>)
    ensures
        read is Ok <==> is_description(text@),
        read is Ok ==> read->Ok_0@ == text@,
{
    let answer = RTCSessionDescription::answer(text)?;
    Ok(answer.sdp)
}

/// The header that a line holds: a name, a colon and a space, and a value.
pub open spec fn header_of_line(line: Seq<char>) -> HeaderView {
    let colon = index_from(line, ':', 0);
    HeaderView {
        name: line.subrange(0, colon),
        value: if colon + 2 <= line.len() {
            line.subrange(colon + 2, line.len() as int)
        } else {
            Seq::empty()
        },
    }
}

/// The response that was read, with its lines taken apart.
pub open spec fn response_of(raw: RawResponseView) -> ResponseView {
    ResponseView {
        version: raw.version,
        status: raw.status,
        headers: raw.header_lines.map_values(|line: Seq<char>| header_of_line(line)),
        body: raw.body,
    }
}

/// Takes a header line apart.
pub fn split_header(line: &str) -> (header: Header)
    ensures
        header@ == header_of_line(line@),
{
    let chars = chars_of(line);
    let colon = find_char(&chars, ':', 0);
    let name = line.substring_char(0, colon).to_owned();
    let value = if colon < chars.len() && colon + 1 < chars.len() {
        line.substring_char(colon + 2, chars.len()).to_owned()
    } else {
        String::new()
    };
    Header { name, value }
}

impl Response {
    /// The response that was read, with its lines taken apart.
    pub fn from_raw(raw: RawResponse) -> (response: Response)
        ensures
            response@ == response_of(raw@),
    {
        let mut headers: Vec<Header> = Vec::new();
        for i in 0..raw.header_lines.len()
            invariant
                headers.len() == i,
                forall|j: int|
                    0 <= j < i ==> (#[trigger] headers@[j])@ == header_of_line(
                        raw.header_lines@[j]@,
                    ),
        {
            headers.push(split_header(&raw.header_lines[i]));
        }
        assert(headers_view(headers@) =~= response_of(raw@).headers);
        Response { version: raw.version, status: raw.status, headers, body: raw.body }
    }

    /// Reads a response.
    pub fn parse(text: &str) -> (read: Result<Response, SipError>)
        ensures
            match read {
                Ok(response) => parsed_response(text@) is Some && response@ == response_of(
                    parsed_response(text@)->0,
                ),
                Err(error) => parsed_response(text@) is None && error == SipError::InvalidResponse,
            },
    {
        match read_response(text) {
            Ok(raw) => Ok(Response::from_raw(raw)),
            Err(_) => Err(SipError::InvalidResponse),
        }
    }
}

impl Uri {
    /// Reads an address.
    pub fn parse(text: &str) -> (read: Result<Uri, SipError>)
        ensures
            match read {
                Ok(uri) => parsed_uri(text@) == Some(uri@),
                Err(error) => parsed_uri(text@) is None && error == SipError::InvalidUri,
            },
            forall|scheme: SchemeView, user: Seq<char>, host: Seq<char>|
                is_sip_scheme(scheme) && is_alphanumeric(user) && is_host_name(host) && text@
                    == uri_text(#[trigger] plain_uri(scheme, user, host)) ==> read is Ok
                    && read->Ok_0@ == plain_uri(scheme, user, host),
    {
        match read_uri(text) {
            Ok(uri) => Ok(uri),
            Err(_) => Err(SipError::InvalidUri),
        }
    }
}

impl Via {
    /// Reads the contents of a `Via` header.
    pub fn parse(value: &str) -> (read: Result<Via, SipError>)
        ensures
            match read {
                Ok(via) => parsed_via(value@) == Some(via@),
                Err(error) => parsed_via(value@) is None && error == SipError::InvalidVia,
            },
            forall|host: Seq<char>, branch: Seq<char>|
                is_dotted(host) && is_alphanumeric(branch) && value@ == via_text(
                    #[trigger] own_via(host, branch),
                ) ==> read is Ok && read->Ok_0@ == own_via(host, branch),
            read is Ok ==> is_kept_by_writing(read->Ok_0@),
    {
        match read_via(value) {
            Ok(via) => Ok(via),
            Err(_) => Err(SipError::InvalidVia),
        }
    }
}

impl CSeq {
    /// Reads the contents of a `CSeq` header.
    pub fn parse(value: &str) -> (read: Result<CSeq, SipError>)
        ensures
            match read {
                Ok(cseq) => parsed_cseq(value@) == Some(cseq@),
                Err(error) => parsed_cseq(value@) is None && error == SipError::InvalidCSeq,
            },
            forall|seq: u32, method: Method|
                value@ == #[trigger] cseq_text(seq, method) ==> read is Ok && read->Ok_0@ == (
                CSeqView { seq, method: method_text(method) }),
    {
        match read_cseq(value) {
            Ok(cseq) => Ok(cseq),
            Err(_) => Err(SipError::InvalidCSeq),
        }
    }
}

impl Challenge {
    /// Reads a challenge.
    pub fn parse(value: &str) -> (read: Result<Challenge, SipError>)
        ensures
            match read {
                Ok(challenge) => parsed_challenge(value@) == Some(challenge@) && (
                challenge.algorithm is Some ==> is_algorithm(challenge.algorithm->0@)),
                Err(error) => parsed_challenge(value@) is None && error
                    == SipError::InvalidChallenge,
            },
    {
        match read_challenge(value) {
            Ok(challenge) => Ok(challenge),
            Err(_) => Err(SipError::InvalidChallenge),
        }
    }
}

/// Reads the address in a `Contact` header.
pub fn parse_contact(value: &str) -> (read: Result<Uri, SipError>)
    ensures
        match read {
            Ok(uri) => parsed_contact(value@) == Some(uri@),
            Err(error) => parsed_contact(value@) is None && error == SipError::InvalidContact,
        },
{
    match read_contact(value) {
        Ok(uri) => Ok(uri),
        Err(_) => Err(SipError::InvalidContact),
    }
}

/// Reads a text from its bytes.
pub fn parse_utf8(bytes: Vec<u8>) -> (read: Result<String, SipError>)
    ensures
        match read {
            Ok(text) => valid_utf8(bytes@) && text@ == decode_utf8(bytes@),
            Err(error) => !valid_utf8(bytes@) && error == SipError::InvalidUtf8,
        },
{
    match read_utf8(bytes) {
        Ok(text) => Ok(text),
        Err(_) => Err(SipError::InvalidUtf8),
    }
}

/// Reads the description of a call by the side that answers it.
pub fn parse_answer(text: String) -> (read: Result<String, SipError>)
    ensures
        match read {
            Ok(answer) => is_description(text@) && answer@ == text@,
            Err(error) => !is_description(text@) && error == SipError::InvalidDescription,
        },
{
    match read_answer(text) {
        Ok(answer) => Ok(answer),
        Err(_) => Err(SipError::InvalidDescription),
    }
}

} // verus!
