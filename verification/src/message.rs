//! SIP messages as the bridge holds them, and the text in which they are sent.

use vstd::prelude::*;

use crate::text::same_text;

verus! {

/// A request method.
#[derive(Clone, Copy, Debug, PartialEq, Eq, Structural)]
pub enum Method {
    Ack,
    Bye,
    Cancel,
    Info,
    Invite,
    Message,
    Notify,
    Options,
    PRack,
    Publish,
    Refer,
    Register,
    Subscribe,
    Update,
}

/// A protocol version.
#[derive(Clone, Copy, Debug, PartialEq, Eq, Structural)]
pub enum Version {
    V1,
    V2,
}

/// The scheme of an address.
#[derive(Debug)]
pub enum Scheme {
    Sip,
    Sips,
    Other(String),
}

/// The user part of an address.
#[derive(Debug)]
pub struct Auth {
    pub user: String,
    pub password: Option<String>,
}

/// An address of a user or a server.
#[derive(Debug)]
pub struct Uri {
    pub scheme: Option<Scheme>,
    pub auth: Option<Auth>,
    pub host: String,
    pub port: Option<u16>,
    /// The parameters as they are written, each with its leading semicolon.
    pub params: String,
}

/// A header parameter.
#[derive(Debug)]
pub enum Param {
    Branch(String),
    Tag(String),
    Transport(String),
    /// Any other parameter as it is written, with its leading semicolon.
    Other(String),
}

/// The contents of a `Via` header; every part is held as it is written.
#[derive(Debug)]
pub struct Via {
    pub version: String,
    pub transport: String,
    pub sent_by: String,
    pub params: Vec<Param>,
}

/// A header: its name as the bridge writes it, and its value.
#[derive(Debug)]
pub struct Header {
    pub name: String,
    pub value: String,
}

/// A request.
#[derive(Debug)]
pub struct Request {
    pub method: Method,
    pub uri: Uri,
    pub version: Version,
    pub headers: Vec<Header>,
    pub body: Vec<u8>,
}

/// A response; the status is held as it is written, code and reason.
#[derive(Debug)]
pub struct Response {
    pub version: Version,
    pub status: String,
    pub headers: Vec<Header>,
    pub body: Vec<u8>,
}

/// A message of either kind.
#[derive(Debug)]
pub enum SipMessage {
    Request(Request),
    Response(Response),
}

/// What a [`Scheme`] stands for.
pub enum SchemeView {
    Sip,
    Sips,
    Other(Seq<char>),
}

/// What an [`Auth`] stands for.
pub struct AuthView {
    pub user: Seq<char>,
    pub password: Option<Seq<char>>,
}

/// What a [`Uri`] stands for.
pub struct UriView {
    pub scheme: Option<SchemeView>,
    pub auth: Option<AuthView>,
    pub host: Seq<char>,
    pub port: Option<u16>,
    pub params: Seq<char>,
}

/// What a [`Param`] stands for.
pub enum ParamView {
    Branch(Seq<char>),
    Tag(Seq<char>),
    Transport(Seq<char>),
    Other(Seq<char>),
}

/// What a [`Via`] stands for.
#[verifier::ext_equal]
pub struct ViaView {
    pub version: Seq<char>,
    pub transport: Seq<char>,
    pub sent_by: Seq<char>,
    pub params: Seq<ParamView>,
}

/// What a [`Header`] stands for.
#[verifier::ext_equal]
pub struct HeaderView {
    pub name: Seq<char>,
    pub value: Seq<char>,
}

/// What a [`Request`] stands for.
#[verifier::ext_equal]
pub struct RequestView {
    pub method: Method,
    pub uri: UriView,
    pub version: Version,
    pub headers: Seq<HeaderView>,
    pub body: Seq<u8>,
}

/// What a [`Response`] stands for.
#[verifier::ext_equal]
pub struct ResponseView {
    pub version: Version,
    pub status: Seq<char>,
    pub headers: Seq<HeaderView>,
    pub body: Seq<u8>,
}

/// What a [`SipMessage`] stands for.
pub enum MessageView {
    Request(RequestView),
    Response(ResponseView),
}

/// What an optional text stands for.
pub open spec fn optional_text(text: Option<String>) -> Option<Seq<char>> {
    match text {
        Some(text) => Some(text@),
        None => None,
    }
}

/// What an optional user part stands for.
pub open spec fn optional_auth(auth: Option<Auth>) -> Option<AuthView> {
    match auth {
        Some(auth) => Some(auth@),
        None => None,
    }
}

/// What a list of headers stands for.
pub open spec fn headers_view(headers: Seq<Header>) -> Seq<HeaderView> {
    headers.map_values(|header: Header| header@)
}

/// What a list of parameters stands for.
pub open spec fn params_view(params: Seq<Param>) -> Seq<ParamView> {
    params.map_values(|param: Param| param@)
}

impl View for Scheme {
    type V = SchemeView;

    open spec fn view(&self) -> SchemeView {
        match self {
            Scheme::Sip => SchemeView::Sip,
            Scheme::Sips => SchemeView::Sips,
            Scheme::Other(name) => SchemeView::Other(name@),
        }
    }
}

impl View for Auth {
    type V = AuthView;

    open spec fn view(&self) -> AuthView {
        AuthView { user: self.user@, password: optional_text(self.password) }
    }
}

impl View for Uri {
    type V = UriView;

    open spec fn view(&self) -> UriView {
        UriView {
            scheme: match self.scheme {
                Some(scheme) => Some(scheme@),
                None => None,
            },
            auth: optional_auth(self.auth),
            host: self.host@,
            port: self.port,
            params: self.params@,
        }
    }
}

impl View for Param {
    type V = ParamView;

    open spec fn view(&self) -> ParamView {
        match self {
            Param::Branch(value) => ParamView::Branch(value@),
            Param::Tag(value) => ParamView::Tag(value@),
            Param::Transport(value) => ParamView::Transport(value@),
            Param::Other(written) => ParamView::Other(written@),
        }
    }
}

impl View for Via {
    type V = ViaView;

    open spec fn view(&self) -> ViaView {
        ViaView {
            version: self.version@,
            transport: self.transport@,
            sent_by: self.sent_by@,
            params: params_view(self.params@),
        }
    }
}

impl View for Header {
    type V = HeaderView;

    open spec fn view(&self) -> HeaderView {
        HeaderView { name: self.name@, value: self.value@ }
    }
}

impl View for Request {
    type V = RequestView;

    open spec fn view(&self) -> RequestView {
        RequestView {
            method: self.method,
            uri: self.uri@,
            version: self.version,
            headers: headers_view(self.headers@),
            body: self.body@,
        }
    }
}

impl View for Response {
    type V = ResponseView;

    open spec fn view(&self) -> ResponseView {
        ResponseView {
            version: self.version,
            status: self.status@,
            headers: headers_view(self.headers@),
            body: self.body@,
        }
    }
}

impl View for SipMessage {
    type V = MessageView;

    open spec fn view(&self) -> MessageView {
        match self {
            SipMessage::Request(request) => MessageView::Request(request@),
            SipMessage::Response(response) => MessageView::Response(response@),
        }
    }
}

impl Clone for Scheme {
    fn clone(&self) -> (copy: Self)
        ensures
            copy == *self,
    {
        match self {
            Scheme::Sip => Scheme::Sip,
            Scheme::Sips => Scheme::Sips,
            Scheme::Other(name) => Scheme::Other(name.clone()),
        }
    }
}

impl Clone for Auth {
    fn clone(&self) -> (copy: Self)
        ensures
            copy == *self,
    {
        let password = match &self.password {
            Some(password) => Some(password.clone()),
            None => None,
        };
        Auth { user: self.user.clone(), password }
    }
}

impl Clone for Uri {
    fn clone(&self) -> (copy: Self)
        ensures
            copy == *self,
    {
        let scheme = match &self.scheme {
            Some(scheme) => Some(scheme.clone()),
            None => None,
        };
        let auth = match &self.auth {
            Some(auth) => Some(auth.clone()),
            None => None,
        };
        Uri {
            scheme,
            auth,
            host: self.host.clone(),
            port: self.port,
            params: self.params.clone(),
        }
    }
}

impl Clone for Header {
    fn clone(&self) -> (copy: Self)
        ensures
            copy == *self,
    {
        Header { name: self.name.clone(), value: self.value.clone() }
    }
}

impl Clone for Request {
    fn clone(&self) -> (copy: Self)
        ensures
            copy@ == self@,
    {
        let headers = self.headers.clone();
        assert(headers@ =~= self.headers@);
        let body = self.body.clone();
        assert(body@ =~= self.body@);
        Request { method: self.method, uri: self.uri.clone(), version: self.version, headers, body }
    }
}

impl Clone for Response {
    fn clone(&self) -> (copy: Self)
        ensures
            copy@ == self@,
    {
        let headers = self.headers.clone();
        assert(headers@ =~= self.headers@);
        let body = self.body.clone();
        assert(body@ =~= self.body@);
        Response { version: self.version, status: self.status.clone(), headers, body }
    }
}

impl Clone for SipMessage {
    fn clone(&self) -> (copy: Self)
        ensures
            copy@ == self@,
    {
        match self {
            SipMessage::Request(request) => SipMessage::Request(request.clone()),
            SipMessage::Response(response) => SipMessage::Response(response.clone()),
        }
    }
}

/// The position at or after `from` of the first header with the given name, or
/// the number of headers where there is none.
pub open spec fn header_index(headers: Seq<HeaderView>, name: Seq<char>, from: int) -> int
    decreases headers.len() - from,
{
    if from < 0 || from >= headers.len() {
        headers.len() as int
    } else if headers[from].name == name {
        from
    } else {
        header_index(headers, name, from + 1)
    }
}

/// The value of the first header with the given name, if there is one.
pub open spec fn header_value(headers: Seq<HeaderView>, name: Seq<char>) -> Option<Seq<char>> {
    let index = header_index(headers, name, 0);
    if index == headers.len() {
        None
    } else {
        Some(headers[index].value)
    }
}

/// `header_index` finds the name it looks for, and nothing before it.
pub proof fn lemma_header_index(headers: Seq<HeaderView>, name: Seq<char>, from: int)
    requires
        0 <= from <= headers.len(),
    ensures
        from <= header_index(headers, name, from) <= headers.len(),
        header_index(headers, name, from) < headers.len() ==> headers[header_index(
            headers,
            name,
            from,
        )].name == name,
        forall|i: int|
            from <= i < header_index(headers, name, from) ==> (#[trigger] headers[i]).name != name,
    decreases headers.len() - from,
{
    if from < headers.len() && headers[from].name != name {
        lemma_header_index(headers, name, from + 1);
    }
}

/// The position of the first header with the given name, or the number of headers.
pub fn find_header(headers: &Vec<Header>, name: &str) -> (index: usize)
    ensures
        index == header_index(headers_view(headers@), name@, 0),
        index <= headers.len(),
{
    let mut i: usize = 0;
    let ghost all = headers_view(headers@);
    while i < headers.len()
        invariant
            i <= headers.len(),
            all == headers_view(headers@),
            header_index(all, name@, 0) == header_index(all, name@, i as int),
        decreases headers.len() - i,
    {
        assert(all[i as int] == headers@[i as int]@);
        if same_text(&headers[i].name, name) {
            return i;
        }
        i = i + 1;
    }
    i
}

/// The value of the first header with the given name, if there is one.
pub fn find_value(headers: &Vec<Header>, name: &str) -> (value: Option<String>)
    ensures
        optional_text(value) == header_value(headers_view(headers@), name@),
{
    let index = find_header(headers, name);
    if index == headers.len() {
        None
    } else {
        Some(headers[index].value.clone())
    }
}

} // verus!
