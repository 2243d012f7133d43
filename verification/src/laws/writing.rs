//! How numbers, addresses, headers and messages are written, and how headers are
//! found and taken apart.

use vstd::prelude::*;
use vstd::utf8::{decode_utf8, valid_utf8};

use crate::error::{error_text, SipError};
use crate::message::{
    header_value, lemma_header_index, AuthView, HeaderView, MessageView, Method, ParamView,
    RequestView, ResponseView, SchemeView, UriView, Version, ViaView,
};
use crate::parser::{header_of_line, response_of, RawResponseView};
use crate::text::{decimal, index_from, lemma_index_from};
use crate::wire::{
    address_text, cseq_text, headers_text, lossy_text, message_text, method_text, params_text,
    request_text, response_text, uri_text, via_text,
};

verus! {

/// The number that decimal digits stand for.
pub open spec fn value_of(digits: Seq<char>) -> int
    decreases digits.len(),
{
    if digits.len() == 0 {
        0
    } else {
        10 * value_of(digits.drop_last()) + (digits.last() as int - '0' as int)
    }
}

/// A number is written in digits that stand for it, without zeros in front.
pub proof fn law_numbers_are_written(n: nat)
    ensures
        decimal(n).len() > 0,
        forall|i: int| 0 <= i < decimal(n).len() ==> '0' <= #[trigger] decimal(n)[i] <= '9',
        value_of(decimal(n)) == n,
        decimal(n).len() > 1 ==> decimal(n)[0] != '0',
    decreases n,
{
    reveal_with_fuel(value_of, 2);
    if n >= 10 {
        law_numbers_are_written(n / 10);
        assert(decimal(n).drop_last() =~= decimal(n / 10));
        if decimal(n / 10).len() == 1 {
            assert(decimal(n / 10).drop_last() =~= Seq::empty());
        }
    } else {
        assert(decimal(n).drop_last() =~= Seq::empty());
    }
}

/// Every method is written as its name in capitals.
pub proof fn law_methods_are_written()
    ensures
        method_text(Method::Ack) == "ACK"@,
        method_text(Method::Bye) == "BYE"@,
        method_text(Method::Cancel) == "CANCEL"@,
        method_text(Method::Info) == "INFO"@,
        method_text(Method::Invite) == "INVITE"@,
        method_text(Method::Message) == "MESSAGE"@,
        method_text(Method::Notify) == "NOTIFY"@,
        method_text(Method::Options) == "OPTIONS"@,
        method_text(Method::PRack) == "PRACK"@,
        method_text(Method::Publish) == "PUBLISH"@,
        method_text(Method::Refer) == "REFER"@,
        method_text(Method::Register) == "REGISTER"@,
        method_text(Method::Subscribe) == "SUBSCRIBE"@,
        method_text(Method::Update) == "UPDATE"@,
{
}

/// An address is its scheme, its user with the password if there is one, its host
/// with the port if there is one, and its parameters, one after the other.
pub proof fn law_addresses_are_written(uri: UriView)
    ensures
        uri_text(uri) == (match uri.scheme {
            None => Seq::empty(),
            Some(SchemeView::Sip) => "sip:"@,
            Some(SchemeView::Sips) => "sips:"@,
            Some(SchemeView::Other(name)) => name + "://"@,
        }) + (match uri.auth {
            None => Seq::empty(),
            Some(AuthView { user, password: None }) => user + "@"@,
            Some(AuthView { user, password: Some(password) }) => user + ":"@ + password + "@"@,
        }) + uri.host + (match uri.port {
            None => Seq::empty(),
            Some(port) => ":"@ + decimal(port as nat),
        }) + uri.params,
{
    let scheme = match uri.scheme {
        None => Seq::empty(),
        Some(SchemeView::Sip) => "sip:"@,
        Some(SchemeView::Sips) => "sips:"@,
        Some(SchemeView::Other(name)) => name + "://"@,
    };
    let auth = match uri.auth {
        None => Seq::empty(),
        Some(AuthView { user, password: None }) => user + "@"@,
        Some(AuthView { user, password: Some(password) }) => user + ":"@ + password + "@"@,
    };
    let port = match uri.port {
        None => Seq::empty(),
        Some(port) => ":"@ + decimal(port as nat),
    };
    assert(uri_text(uri) =~= scheme + auth + uri.host + port + uri.params);
}

/// Every further parameter comes at the end, behind a semicolon and its name.
pub proof fn law_params_are_written(params: Seq<ParamView>, value: Seq<char>)
    ensures
        params_text(seq![]) == Seq::<char>::empty(),
        params_text(params.push(ParamView::Branch(value))) == params_text(params) + ";branch="@
            + value,
        params_text(params.push(ParamView::Tag(value))) == params_text(params) + ";tag="@ + value,
        params_text(params.push(ParamView::Transport(value))) == params_text(params)
            + ";transport="@ + value,
        params_text(params.push(ParamView::Other(value))) == params_text(params) + value,
{
    let branch = params.push(ParamView::Branch(value));
    assert(branch.drop_last() =~= params);
    assert(params_text(branch) =~= params_text(params) + ";branch="@ + value);
    let tag = params.push(ParamView::Tag(value));
    assert(tag.drop_last() =~= params);
    assert(params_text(tag) =~= params_text(params) + ";tag="@ + value);
    let transport = params.push(ParamView::Transport(value));
    assert(transport.drop_last() =~= params);
    assert(params_text(transport) =~= params_text(params) + ";transport="@ + value);
    let other = params.push(ParamView::Other(value));
    assert(other.drop_last() =~= params);
}

/// The contents of a `Via` header are the version, the transport, the sender and
/// the parameters. An address in a header stands between angle brackets, behind the
/// name to show and before the parameters.
pub proof fn law_values_are_written(
    via: ViaView,
    name: Seq<char>,
    uri: UriView,
    params: Seq<ParamView>,
)
    ensures
        via_text(via) == via.version + "/"@ + via.transport + " "@ + via.sent_by + params_text(
            via.params,
        ),
        address_text(None, uri, params) == "<"@ + uri_text(uri) + ">"@ + params_text(params),
        address_text(Some(name), uri, params) == name + " "@ + address_text(None, uri, params),
{
    reveal_strlit(" <");
    reveal_strlit(" ");
    reveal_strlit("<");
    assert(address_text(Some(name), uri, params) =~= name + " "@ + address_text(
        None,
        uri,
        params,
    ));
}

/// A sequence number is written before its method.
pub proof fn law_sequence_numbers_are_written(seq: u32, method: Method)
    ensures
        cseq_text(seq, method) == decimal(seq as nat) + " "@ + method_text(method),
{
}

/// Every header has a line of its own, in the order of the list.
pub proof fn law_headers_are_written(headers: Seq<HeaderView>, added: HeaderView)
    ensures
        headers_text(seq![]) == Seq::<char>::empty(),
        headers_text(headers.push(added)) == headers_text(headers) + added.name + ": "@
            + added.value + "\r\n"@,
{
    assert(headers.push(added).drop_last() =~= headers);
}

/// A message is its first line, its headers, an empty line and its body.
pub proof fn law_messages_are_written(request: RequestView, response: ResponseView)
    requires
        valid_utf8(request.body),
        valid_utf8(response.body),
    ensures
        message_text(MessageView::Request(request)) == request_text(request),
        message_text(MessageView::Response(response)) == response_text(response),
        request_text(request) == method_text(request.method) + " "@ + uri_text(request.uri) + (
        match request.version {
            Version::V1 => " SIP/1.0\r\n"@,
            Version::V2 => " SIP/2.0\r\n"@,
        }) + headers_text(request.headers) + "\r\n"@ + decode_utf8(request.body),
        response_text(response) == (match response.version {
            Version::V1 => "SIP/1.0 "@,
            Version::V2 => "SIP/2.0 "@,
        }) + response.status + "\r\n"@ + headers_text(response.headers) + "\r\n"@ + decode_utf8(
            response.body,
        ),
{
    reveal_strlit(" SIP/1.0\r\n");
    reveal_strlit(" SIP/2.0\r\n");
    reveal_strlit("SIP/1.0 ");
    reveal_strlit("SIP/2.0 ");
    reveal_strlit("SIP/1.0");
    reveal_strlit("SIP/2.0");
    reveal_strlit(" ");
    reveal_strlit("\r\n");
    assert(request_text(request) =~= method_text(request.method) + " "@ + uri_text(request.uri) + (
    match request.version {
        Version::V1 => " SIP/1.0\r\n"@,
        Version::V2 => " SIP/2.0\r\n"@,
    }) + headers_text(request.headers) + "\r\n"@ + decode_utf8(request.body));
    assert(response_text(response) =~= (match response.version {
        Version::V1 => "SIP/1.0 "@,
        Version::V2 => "SIP/2.0 "@,
    }) + response.status + "\r\n"@ + headers_text(response.headers) + "\r\n"@ + decode_utf8(
        response.body,
    ));
}

/// A body is written as the text that it is, and what is not UTF-8 in it is
/// replaced.
pub proof fn law_bodies_are_written(request: RequestView, response: ResponseView)
    ensures
        request_text(request) == request_text(RequestView { body: seq![], ..request }) + (
        if valid_utf8(request.body) {
            decode_utf8(request.body)
        } else {
            lossy_text(request.body)
        }),
        response_text(response) == response_text(ResponseView { body: seq![], ..response }) + (
        if valid_utf8(response.body) {
            decode_utf8(response.body)
        } else {
            lossy_text(response.body)
        }),
{
    assert(valid_utf8(Seq::<u8>::empty()));
    assert(decode_utf8(Seq::<u8>::empty()) =~= Seq::empty());
    let request_body = if valid_utf8(request.body) {
        decode_utf8(request.body)
    } else {
        lossy_text(request.body)
    };
    let response_body = if valid_utf8(response.body) {
        decode_utf8(response.body)
    } else {
        lossy_text(response.body)
    };
    assert(request_text(request) =~= request_text(RequestView { body: seq![], ..request })
        + request_body);
    assert(response_text(response) =~= response_text(ResponseView { body: seq![], ..response })
        + response_body);
}

/// Of the headers with a name the first counts, and where there is none, none is
/// found.
pub proof fn law_first_header_counts(headers: Seq<HeaderView>, name: Seq<char>, index: int)
    requires
        0 <= index <= headers.len(),
        index < headers.len() ==> headers[index].name == name,
        forall|i: int| 0 <= i < index ==> (#[trigger] headers[i]).name != name,
    ensures
        header_value(headers, name) == if index < headers.len() {
            Some(headers[index].value)
        } else {
            None
        },
{
    lemma_header_index(headers, name, 0);
}

/// A line of a header is taken apart into what stands before the first colon and
/// what stands behind the character after it. Without a colon it is all name.
pub proof fn law_lines_are_taken_apart(name: Seq<char>, between: char, value: Seq<char>)
    requires
        !name.contains(':'),
    ensures
        header_of_line(name + seq![':', between] + value) == (HeaderView { name, value }),
        header_of_line(name + seq![':']) == (HeaderView { name, value: Seq::empty() }),
        header_of_line(name) == (HeaderView { name, value: Seq::empty() }),
{
    let line = name + seq![':', between] + value;
    lemma_colon(line, name);
    assert(line.subrange(0, name.len() as int) =~= name);
    assert(line.subrange(name.len() as int + 2, line.len() as int) =~= value);
    let bare = name + seq![':'];
    lemma_colon(bare, name);
    assert(bare.subrange(0, name.len() as int) =~= name);
    lemma_index_from(name, ':', 0);
    assert(index_from(name, ':', 0) == name.len());
    assert(name.subrange(0, name.len() as int) =~= name);
}

proof fn lemma_colon(line: Seq<char>, name: Seq<char>)
    requires
        !name.contains(':'),
        line.len() > name.len(),
        line[name.len() as int] == ':',
        forall|i: int| 0 <= i < name.len() ==> line[i] == name[i],
    ensures
        index_from(line, ':', 0) == name.len(),
{
    lemma_index_from(line, ':', 0);
    let colon = index_from(line, ':', 0);
    if colon < name.len() {
        assert(name[colon] == ':');
    }
}

/// A response is what was read of it, line by line.
pub proof fn law_responses_are_taken_apart(raw: RawResponseView, index: int)
    requires
        0 <= index < raw.header_lines.len(),
    ensures
        response_of(raw).version == raw.version,
        response_of(raw).status == raw.status,
        response_of(raw).body == raw.body,
        response_of(raw).headers.len() == raw.header_lines.len(),
        response_of(raw).headers[index] == header_of_line(raw.header_lines[index]),
{
}

/// Errors that are told to users are told in these words.
pub proof fn law_errors_are_worded()
    ensures
        error_text(SipError::NoLocalAddress) == "Local IP address not found"@,
        error_text(SipError::MissingChallenge) == "Missing WWW-Authenticate header"@,
        error_text(SipError::MissingAlgorithm) == "WWW-Authenticate header missing algorithm"@,
        error_text(SipError::NotARequest) == "Expected a request message but got a response"@,
        error_text(SipError::MissingBranch) == "Got no branch in response"@,
        error_text(SipError::NoResponse) == "Got no response on invite"@,
        error_text(SipError::UnexpectedFrame) == "Got unexpected response"@,
        error_text(SipError::InvalidDomain) == "invalid dnsname"@,
{
}

} // verus!
