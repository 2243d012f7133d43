//! The branches by which requests and their responses are told apart.

use vstd::prelude::*;

use crate::error::SipError;
use crate::message::{
    find_value, header_index, header_value, headers_view, lemma_header_index, optional_text,
    params_view, Header, HeaderView, MessageView, Param, ParamView, Request, RequestView, Response, ResponseView, SipMessage, Via,
    ViaView,
};
use crate::parser::{is_kept_by_writing, own_via, parsed_via};
use crate::sip::header;
use crate::text::{is_alphanumeric, is_dotted, same_text};
use crate::wire::via_text;

verus! {

/// The branch that requests carry once they are authorized.
pub open spec fn second_branch() -> Seq<char> {
    "12345"@
}

/// A parameter with its branch replaced, if it is one.
pub open spec fn replaced_param(param: ParamView, branch: Seq<char>) -> ParamView {
    match param {
        ParamView::Branch(_) => ParamView::Branch(branch),
        _ => param,
    }
}

/// The contents of a `Via` header with every branch replaced.
pub open spec fn with_branch(via: ViaView, branch: Seq<char>) -> ViaView {
    ViaView {
        params: via.params.map_values(|param: ParamView| replaced_param(param, branch)),
        ..via
    }
}

/// The contents of the first `Via` header.
pub open spec fn via_of(headers: Seq<HeaderView>) -> Result<ViaView, SipError> {
    match header_value(headers, "Via"@) {
        None => Err(SipError::MissingVia),
        Some(value) => match parsed_via(value) {
            None => Err(SipError::InvalidVia),
            Some(via) => Ok(via),
        },
    }
}

/// A header with its value replaced, if it is a `Via` header.
pub open spec fn replaced_header(old_header: HeaderView, via: ViaView) -> HeaderView {
    if old_header.name == "Via"@ {
        header("Via"@, via_text(via))
    } else {
        old_header
    }
}

/// A request with every `Via` header replaced.
pub open spec fn rerouted(request: RequestView, via: ViaView) -> RequestView {
    RequestView {
        headers: request.headers.map_values(
            |old_header: HeaderView| replaced_header(old_header, via),
        ),
        ..request
    }
}

/// A request on a new branch: every `Via` header becomes the first one with its
/// branch replaced.
pub open spec fn rebranched(request: RequestView) -> Result<RequestView, SipError> {
    match via_of(request.headers) {
        Err(error) => Err(error),
        Ok(via) => Ok(rerouted(request, with_branch(via, second_branch()))),
    }
}

/// The first branch among parameters, at or after `from`.
pub open spec fn branch_from(params: Seq<ParamView>, from: int) -> Option<Seq<char>>
    decreases params.len() - from,
{
    if from < 0 || from >= params.len() {
        None
    } else {
        match params[from] {
            ParamView::Branch(branch) => Some(branch),
            _ => branch_from(params, from + 1),
        }
    }
}

/// The branch of a response.
pub open spec fn branch_of(response: ResponseView) -> Result<Seq<char>, SipError> {
    match via_of(response.headers) {
        Err(error) => Err(error),
        Ok(via) => match branch_from(via.params, 0) {
            None => Err(SipError::MissingBranch),
            Some(branch) => Ok(branch),
        },
    }
}

/// The contents of the first `Via` header.
pub fn find_via(headers: &Vec<Header>) -> (found: Result<Via, SipError>)
    ensures
        match found {
            Ok(via) => via_of(headers_view(headers@)) == Ok::<_, SipError>(via@),
            Err(error) => via_of(headers_view(headers@)) == Err::<ViaView, _>(error),
        },
        forall|host: Seq<char>, branch: Seq<char>|
            is_dotted(host) && is_alphanumeric(branch) && header_value(
                headers_view(headers@),
                "Via"@,
            ) == Some(via_text(#[trigger] own_via(host, branch))) ==> found is Ok && found->Ok_0@
                == own_via(host, branch),
        found is Ok ==> is_kept_by_writing(found->Ok_0@),
{
    match find_value(headers, "Via") {
        None => Err(SipError::MissingVia),
        Some(value) => Via::parse(&value),
    }
}

/// Replaces every branch in the contents of a `Via` header.
pub fn replace_branch(via: Via, branch: &str) -> (replaced: Via)
    ensures
        replaced@ == with_branch(via@, branch@),
{
    let mut params: Vec<Param> = Vec::new();
    for i in 0..via.params.len()
        invariant
            params.len() == i,
            forall|j: int|
                0 <= j < i ==> (#[trigger] params@[j])@ == replaced_param(
                    via.params@[j]@,
                    branch@,
                ),
    {
        let param = match &via.params[i] {
            Param::Branch(_) => Param::Branch(branch.to_owned()),
            Param::Tag(tag) => Param::Tag(tag.clone()),
            Param::Transport(transport) => Param::Transport(transport.clone()),
            Param::Other(written) => Param::Other(written.clone()),
        };
        params.push(param);
    }
    assert(params_view(params@) =~= with_branch(via@, branch@).params);
    Via { version: via.version, transport: via.transport, sent_by: via.sent_by, params }
}

/// Replaces every `Via` header of a request.
pub fn reroute(request: Request, contents: &Via) -> (rerouted_request: Request)
    ensures
        rerouted_request@ == rerouted(request@, contents@),
{
    let value = contents.text();
    let mut headers: Vec<Header> = Vec::new();
    for i in 0..request.headers.len()
        invariant
            value@ == via_text(contents@),
            headers.len() == i,
            forall|j: int|
                0 <= j < i ==> (#[trigger] headers@[j])@ == replaced_header(
                    request.headers@[j]@,
                    contents@,
                ),
    {
        if same_text(&request.headers[i].name, "Via") {
            headers.push(Header { name: "Via".to_owned(), value: value.clone() });
        } else {
            headers.push(request.headers[i].clone());
        }
    }
    assert(headers_view(headers@) =~= rerouted(request@, contents@).headers);
    Request {
        method: request.method,
        uri: request.uri,
        version: request.version,
        headers,
        body: request.body,
    }
}

/// The same request on a new branch.
///
/// A request with a `Via` header of the bridge's own writing always has one. A
/// request that is on its new branch already stays as it is.
pub fn generate_new_branch(base_request: Request) -> (made: Result<SipMessage, SipError>)
    ensures
        match made {
            Ok(message) => rebranched(base_request@) is Ok && message@ == MessageView::Request(
                rebranched(base_request@)->Ok_0,
            ),
            Err(error) => rebranched(base_request@) == Err::<RequestView, _>(error),
        },
        forall|host: Seq<char>, branch: Seq<char>|
            is_dotted(host) && is_alphanumeric(branch) && header_value(
                base_request@.headers,
                "Via"@,
            ) == Some(via_text(#[trigger] own_via(host, branch))) ==> made is Ok && via_of(
                base_request@.headers,
            ) == Ok::<_, SipError>(own_via(host, branch)),
        made is Ok ==> rebranched(made->Ok_0@->Request_0) == Ok::<_, SipError>(
            made->Ok_0@->Request_0,
        ),
{
    match find_via(&base_request.headers) {
        Ok(contents) => {
            proof {
                reveal_strlit("12345");
                assert(is_alphanumeric(second_branch()));
                law_rebranching_twice(base_request@);
            }
            let contents = replace_branch(contents, "12345");
            Ok(SipMessage::Request(reroute(base_request, &contents)))
        },
        Err(error) => Err(error),
    }
}

/// The first branch among parameters.
pub fn branch_among(params: &Vec<Param>) -> (branch: Option<String>)
    ensures
        optional_text(branch) == branch_from(params_view(params@), 0),
{
    let mut i: usize = 0;
    let ghost all = params_view(params@);
    while i < params.len()
        invariant
            i <= params.len(),
            all == params_view(params@),
            branch_from(all, 0) == branch_from(all, i as int),
        decreases params.len() - i,
    {
        assert(all[i as int] == params@[i as int]@);
        if let Param::Branch(branch) = &params[i] {
            return Some(branch.clone());
        }
        i = i + 1;
    }
    None
}

/// The branch of a response.
pub fn find_branch(response: &Response) -> (found: Result<String, SipError>)
    ensures
        match found {
            Ok(branch) => branch_of(response@) == Ok::<_, SipError>(branch@),
            Err(error) => branch_of(response@) == Err::<Seq<char>, _>(error),
        },
{
    match find_via(&response.headers) {
        Ok(contents) => match branch_among(&contents.params) {
            Some(branch) => Ok(branch),
            None => Err(SipError::MissingBranch),
        },
        Err(error) => Err(error),
    }
}

/// A request on a new branch differs from what it was in its `Via` headers only,
/// and these are all the first of them with its branch replaced.
pub proof fn law_rebranching_keeps_the_rest(request: RequestView)
    requires
        rebranched(request) is Ok,
    ensures
        ({
            let moved = rebranched(request)->Ok_0;
            let written = via_text(with_branch(via_of(request.headers)->Ok_0, second_branch()));
            &&& moved.method == request.method
            &&& moved.uri == request.uri
            &&& moved.version == request.version
            &&& moved.body == request.body
            &&& moved.headers.len() == request.headers.len()
            &&& forall|i: int|
                0 <= i < request.headers.len() ==> if request.headers[i].name == "Via"@ {
                    #[trigger] moved.headers[i] == header("Via"@, written)
                } else {
                    moved.headers[i] == request.headers[i]
                }
        }),
{
}

/// Putting a request on a new branch twice does no more than once, as soon as the
/// `Via` header that the first time wrote is read as what was written.
pub proof fn law_rebranching_twice(request: RequestView)
    requires
        rebranched(request) is Ok,
        parsed_via(via_text(with_branch(via_of(request.headers)->Ok_0, second_branch()))) == Some(
            with_branch(via_of(request.headers)->Ok_0, second_branch()),
        ),
    ensures
        rebranched(rebranched(request)->Ok_0) == rebranched(request),
{
    let moved = rebranched(request)->Ok_0;
    let contents = with_branch(via_of(request.headers)->Ok_0, second_branch());
    lemma_header_index(request.headers, "Via"@, 0);
    lemma_header_index(moved.headers, "Via"@, 0);
    let index = header_index(request.headers, "Via"@, 0);
    let found = header_index(moved.headers, "Via"@, 0);
    assert(moved.headers[index] == header("Via"@, via_text(contents)));
    assert(moved.headers[found] == replaced_header(request.headers[found], contents));
    assert(with_branch(contents, second_branch()).params =~= contents.params);
    assert(rerouted(moved, contents).headers =~= moved.headers);
}

/// After its branch is replaced, a `Via` header has the new one if it had any.
pub proof fn law_branch_is_replaced(via: ViaView, branch: Seq<char>)
    ensures
        branch_from(with_branch(via, branch).params, 0) == match branch_from(via.params, 0) {
            Some(_) => Some(branch),
            None => None,
        },
{
    lemma_branch_is_replaced(via, branch, 0);
}

proof fn lemma_branch_is_replaced(contents: ViaView, branch: Seq<char>, from: int)
    requires
        0 <= from <= contents.params.len(),
    ensures
        branch_from(with_branch(contents, branch).params, from) == match branch_from(
            contents.params,
            from,
        ) {
            Some(_) => Some(branch),
            None => None,
        },
    decreases contents.params.len() - from,
{
    if from < contents.params.len() {
        lemma_branch_is_replaced(contents, branch, from + 1);
    }
}

} // verus!
