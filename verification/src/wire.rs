//! The text in which messages and their parts are written.

use vstd::prelude::*;
use vstd::utf8::{decode_utf8, valid_utf8};

use crate::message::{
    headers_view, params_view, AuthView, Header, HeaderView, MessageView, Method, Param, ParamView,
    Request, RequestView, Response, ResponseView, Scheme, SchemeView, SipMessage, Uri, UriView,
    Version, Via, ViaView,
};
use crate::text::{decimal, decimal_text};

verus! {

/// How a method is written.
pub open spec fn method_text(method: Method) -> Seq<char> {
    match method {
        Method::Ack => "ACK"@,
        Method::Bye => "BYE"@,
        Method::Cancel => "CANCEL"@,
        Method::Info => "INFO"@,
        Method::Invite => "INVITE"@,
        Method::Message => "MESSAGE"@,
        Method::Notify => "NOTIFY"@,
        Method::Options => "OPTIONS"@,
        Method::PRack => "PRACK"@,
        Method::Publish => "PUBLISH"@,
        Method::Refer => "REFER"@,
        Method::Register => "REGISTER"@,
        Method::Subscribe => "SUBSCRIBE"@,
        Method::Update => "UPDATE"@,
    }
}

/// How a version is written.
pub open spec fn version_text(version: Version) -> Seq<char> {
    match version {
        Version::V1 => "SIP/1.0"@,
        Version::V2 => "SIP/2.0"@,
    }
}

/// How a scheme opens an address.
pub open spec fn scheme_text(scheme: Option<SchemeView>) -> Seq<char> {
    match scheme {
        None => Seq::empty(),
        Some(SchemeView::Sip) => "sip:"@,
        Some(SchemeView::Sips) => "sips:"@,
        Some(SchemeView::Other(name)) => name + "://"@,
    }
}

/// How a user part stands before the host.
pub open spec fn auth_text(auth: Option<AuthView>) -> Seq<char> {
    match auth {
        None => Seq::empty(),
        Some(auth) => match auth.password {
            None => auth.user + "@"@,
            Some(password) => auth.user + ":"@ + password + "@"@,
        },
    }
}

/// How a host is written, with its port where it has one.
pub open spec fn host_text(host: Seq<char>, port: Option<u16>) -> Seq<char> {
    match port {
        None => host,
        Some(port) => host + ":"@ + decimal(port as nat),
    }
}

/// How an address is written.
pub open spec fn uri_text(uri: UriView) -> Seq<char> {
    scheme_text(uri.scheme) + auth_text(uri.auth) + host_text(uri.host, uri.port) + uri.params
}

/// How a parameter is written.
pub open spec fn param_text(param: ParamView) -> Seq<char> {
    match param {
        ParamView::Branch(value) => ";branch="@ + value,
        ParamView::Tag(value) => ";tag="@ + value,
        ParamView::Transport(value) => ";transport="@ + value,
        ParamView::Other(written) => written,
    }
}

/// How a list of parameters is written.
pub open spec fn params_text(params: Seq<ParamView>) -> Seq<char>
    decreases params.len(),
{
    if params.len() == 0 {
        Seq::empty()
    } else {
        params_text(params.drop_last()) + param_text(params.last())
    }
}

/// How the value of a `Via` header is written.
pub open spec fn via_text(via: ViaView) -> Seq<char> {
    via.version + "/"@ + via.transport + " "@ + via.sent_by + params_text(via.params)
}

/// How the value of a `From`, `To` or `Contact` header is written.
pub open spec fn address_text(
    display_name: Option<Seq<char>>,
    uri: UriView,
    params: Seq<ParamView>,
) -> Seq<char> {
    match display_name {
        Some(name) => name + " <"@ + uri_text(uri) + ">"@ + params_text(params),
        None => "<"@ + uri_text(uri) + ">"@ + params_text(params),
    }
}

/// How the value of a `CSeq` header is written.
pub open spec fn cseq_text(seq: u32, method: Method) -> Seq<char> {
    decimal(seq as nat) + " "@ + method_text(method)
}

/// How a list of headers is written, each on a line of its own.
pub open spec fn headers_text(headers: Seq<HeaderView>) -> Seq<char>
    decreases headers.len(),
{
    if headers.len() == 0 {
        Seq::empty()
    } else {
        headers_text(headers.drop_last()) + headers.last().name + ": "@ + headers.last().value
            + "\r\n"@
    }
}

/// The text that bytes become when what is not UTF-8 in them is replaced.
pub uninterp spec fn lossy_text(bytes: Seq<u8>) -> Seq<char>;

/// How a body is written.
pub open spec fn body_text(bytes: Seq<u8>) -> Seq<char> {
    if valid_utf8(bytes) {
        decode_utf8(bytes)
    } else {
        lossy_text(bytes)
    }
}

/// How a request is written.
pub open spec fn request_text(request: RequestView) -> Seq<char> {
    method_text(request.method) + " "@ + uri_text(request.uri) + " "@ + version_text(
        request.version,
    ) + "\r\n"@ + headers_text(request.headers) + "\r\n"@ + body_text(request.body)
}

/// How a response is written.
pub open spec fn response_text(response: ResponseView) -> Seq<char> {
    version_text(response.version) + " "@ + response.status + "\r\n"@ + headers_text(
        response.headers,
    ) + "\r\n"@ + body_text(response.body)
}

/// How a message is written.
pub open spec fn message_text(message: MessageView) -> Seq<char> {
    match message {
        MessageView::Request(request) => request_text(request),
        MessageView::Response(response) => response_text(response),
    }
}

/// The text that bytes become when what is not UTF-8 in them is replaced.
///
/// `String::from_utf8_lossy` gives the text itself where the bytes are UTF-8;
/// for other bytes its result is only named.
#[verifier::external_body]
fn decode_lossy(bytes: &Vec<u8>) -> (text: String)
    ensures
        text@ == lossy_text(bytes@),
        valid_utf8(bytes@) ==> text@ == decode_utf8(bytes@),
{
    String::from_utf8_lossy(bytes).into_owned()
}

impl Method {
    /// How the method is written.
    pub fn text(self) -> (text: &'static str)
        ensures
            text@ == method_text(self),
    {
        match self {
            Method::Ack => "ACK",
            Method::Bye => "BYE",
            Method::Cancel => "CANCEL",
            Method::Info => "INFO",
            Method::Invite => "INVITE",
            Method::Message => "MESSAGE",
            Method::Notify => "NOTIFY",
            Method::Options => "OPTIONS",
            Method::PRack => "PRACK",
            Method::Publish => "PUBLISH",
            Method::Refer => "REFER",
            Method::Register => "REGISTER",
            Method::Subscribe => "SUBSCRIBE",
            Method::Update => "UPDATE",
        }
    }
}

impl Version {
    /// How the version is written.
    pub fn text(self) -> (text: &'static str)
        ensures
            text@ == version_text(self),
    {
        match self {
            Version::V1 => "SIP/1.0",
            Version::V2 => "SIP/2.0",
        }
    }
}

impl Uri {
    /// How the address is written.
    pub fn text(&self) -> (text: String)
        ensures
            text@ == uri_text(self@),
    {
        let mut text = match &self.scheme {
            None => String::new(),
            Some(Scheme::Sip) => "sip:".to_owned(),
            Some(Scheme::Sips) => "sips:".to_owned(),
            Some(Scheme::Other(name)) => name.clone().concat("://"),
        };
        let auth = match &self.auth {
            None => String::new(),
            Some(auth) => match &auth.password {
                None => auth.user.clone().concat("@"),
                Some(password) => auth.user.clone().concat(":").concat(password).concat("@"),
            },
        };
        let host = match self.port {
            None => self.host.clone(),
            Some(port) => self.host.clone().concat(":").concat(
                decimal_text(port as usize).as_str(),
            ),
        };
        text.append(&auth);
        text.append(&host);
        text.append(&self.params);
        text
    }
}

impl Param {
    /// How the parameter is written.
    pub fn text(&self) -> (text: String)
        ensures
            text@ == param_text(self@),
    {
        match self {
            Param::Branch(value) => ";branch=".to_owned().concat(value),
            Param::Tag(value) => ";tag=".to_owned().concat(value),
            Param::Transport(value) => ";transport=".to_owned().concat(value),
            Param::Other(written) => written.clone(),
        }
    }
}

/// Writes a list of parameters.
pub fn write_params(params: &Vec<Param>) -> (text: String)
    ensures
        text@ == params_text(params_view(params@)),
{
    let mut text = String::new();
    let ghost all = params_view(params@);
    for i in 0..params.len()
        invariant
            all == params_view(params@),
            text@ == params_text(all.take(i as int)),
    {
        text.append(params[i].text().as_str());
        assert(all.take(i + 1).drop_last() =~= all.take(i as int));
    }
    assert(all.take(params.len() as int) =~= all);
    text
}

impl Via {
    /// How the value of the header is written.
    pub fn text(&self) -> (text: String)
        ensures
            text@ == via_text(self@),
    {
        let params = write_params(&self.params);
        self.version.clone().concat("/").concat(&self.transport).concat(" ").concat(
            &self.sent_by,
        ).concat(&params)
    }
}

/// Writes the value of a `From`, `To` or `Contact` header.
pub fn write_address(display_name: Option<&str>, uri: &Uri, params: &Vec<Param>) -> (text: String)
    ensures
        text@ == address_text(
            match display_name {
                Some(name) => Some(name@),
                None => None,
            },
            uri@,
            params_view(params@),
        ),
{
    let head = match display_name {
        Some(name) => name.to_owned().concat(" <"),
        None => "<".to_owned(),
    };
    head.concat(uri.text().as_str()).concat(">").concat(write_params(params).as_str())
}

/// Writes the value of a `CSeq` header.
pub fn write_cseq(seq: u32, method: Method) -> (text: String)
    ensures
        text@ == cseq_text(seq, method),
{
    decimal_text(seq as usize).concat(" ").concat(method.text())
}

/// Writes a list of headers.
pub fn write_headers(headers: &Vec<Header>) -> (text: String)
    ensures
        text@ == headers_text(headers_view(headers@)),
{
    let mut text = String::new();
    let ghost all = headers_view(headers@);
    for i in 0..headers.len()
        invariant
            all == headers_view(headers@),
            text@ == headers_text(all.take(i as int)),
    {
        text.append(&headers[i].name);
        text.append(": ");
        text.append(&headers[i].value);
        text.append("\r\n");
        assert(all.take(i + 1).drop_last() =~= all.take(i as int));
    }
    assert(all.take(headers.len() as int) =~= all);
    text
}

impl Request {
    /// How the request is written.
    pub fn text(&self) -> (text: String)
        ensures
            text@ == request_text(self@),
    {
        self.method.text().to_owned().concat(" ").concat(self.uri.text().as_str()).concat(
            " ",
        ).concat(self.version.text()).concat("\r\n").concat(
            write_headers(&self.headers).as_str(),
        ).concat("\r\n").concat(decode_lossy(&self.body).as_str())
    }
}

impl Response {
    /// How the response is written.
    pub fn text(&self) -> (text: String)
        ensures
            text@ == response_text(self@),
    {
        self.version.text().to_owned().concat(" ").concat(&self.status).concat("\r\n").concat(
            write_headers(&self.headers).as_str(),
        ).concat("\r\n").concat(decode_lossy(&self.body).as_str())
    }
}

impl SipMessage {
    /// How the message is written.
    pub fn text(&self) -> (text: String)
        ensures
            text@ == message_text(self@),
    {
        match self {
            SipMessage::Request(request) => request.text(),
            SipMessage::Response(response) => response.text(),
        }
    }
}

} // verus!
