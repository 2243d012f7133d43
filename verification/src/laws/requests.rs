//! What the requests of the bridge say, header by header.

use vstd::prelude::*;
use vstd::utf8::encode_utf8;

use crate::message::{
    header_index, header_value, AuthView, Method, ParamView, RequestView, SchemeView, UriView,
    Version,
};
use crate::parser::own_via;
use crate::sip::{ack_request, bridge_tag, invite_request, register_request, user_uri};
use crate::text::decimal;
use crate::wire::{address_text, params_text, uri_text, via_text};

verus! {

/// How the bridge itself is written at a server.
pub open spec fn own_address(server: Seq<char>, username: Seq<char>) -> Seq<char> {
    "<sip:"@ + username + "@"@ + server + ">"@
}

/// What a request says under a name.
pub open spec fn says(request: RequestView, name: Seq<char>, value: Seq<char>) -> bool {
    header_value(request.headers, name) == Some(value)
}

proof fn lemma_own_address(server: Seq<char>, username: Seq<char>, uri: UriView)
    requires
        uri.scheme == Some(SchemeView::Sip),
        uri.auth == Some(AuthView { user: username, password: None }),
        uri.host == server,
        uri.port is None,
        uri.params.len() == 0,
    ensures
        "<"@ + uri_text(uri) + ">"@ == own_address(server, username),
{
    reveal_strlit("<sip:");
    reveal_strlit("<");
    reveal_strlit("sip:");
    assert("<"@ + uri_text(uri) + ">"@ =~= own_address(server, username));
}

/// The request to register names the bridge as sender, receiver and contact, is
/// the first in its call, and goes to the server, without a body.
pub proof fn law_register_says(
    call_id: Seq<char>,
    server: Seq<char>,
    username: Seq<char>,
    address: Seq<char>,
)
    ensures
        ({
            let request = register_request(call_id, server, username, address);
            let own = own_address(server, username);
            &&& request.method == Method::Register
            &&& uri_text(request.uri) == "sip:"@ + server
            &&& request.version == Version::V2
            &&& request.body.len() == 0
            &&& request.headers.len() == 9
            &&& says(request, "Via"@, "SIP/2.0/WSS "@ + address + ":5060;branch=z9hG4bKnashds7"@)
            &&& says(request, "Max-Forwards"@, "70"@)
            &&& says(request, "From"@, username + " "@ + own + ";tag=a73kszlfl"@)
            &&& says(request, "To"@, username + " "@ + own)
            &&& says(request, "Call-ID"@, call_id)
            &&& says(request, "CSeq"@, "1 REGISTER"@)
            &&& says(request, "Contact"@, own)
            &&& says(request, "User-Agent"@, "matrix_sip_bridge"@)
            &&& says(request, "Content-Length"@, "0"@)
        }),
{
    let request = register_request(call_id, server, username, address);
    let own = own_address(server, username);
    let headers = request.headers;
    lemma_names_differ();
    assert(headers[0].name == "Via"@ && headers[1].name == "Max-Forwards"@);
    assert(headers[2].name == "From"@ && headers[3].name == "To"@);
    assert(headers[4].name == "Call-ID"@ && headers[5].name == "CSeq"@);
    assert(headers[6].name == "Contact"@ && headers[7].name == "User-Agent"@);
    assert(headers[8].name == "Content-Length"@);
    reveal_with_fuel(header_index, 11);
    assert(uri_text(request.uri) =~= "sip:"@ + server);
    lemma_own_address(server, username, user_uri(server, username));
    assert(decimal(5060) =~= "5060"@) by {
        reveal_with_fuel(decimal, 5);
        reveal_strlit("5060");
    }
    assert(headers[0].value =~= "SIP/2.0/WSS "@ + address + ":5060;branch=z9hG4bKnashds7"@) by {
        lemma_via(address + ":"@ + "5060"@, "z9hG4bKnashds7"@);
        reveal_strlit(":");
        reveal_strlit("5060");
        reveal_strlit(";branch=");
        reveal_strlit("z9hG4bKnashds7");
        reveal_strlit(":5060;branch=z9hG4bKnashds7");
    }
    assert(headers[2].value =~= username + " "@ + own + ";tag=a73kszlfl"@) by {
        lemma_tagged(username, own);
    }
    assert(headers[3].value =~= username + " "@ + own) by {
        reveal_strlit(" <");
        reveal_strlit(" ");
        reveal_strlit("<");
    }
    assert(headers[5].value =~= "1 REGISTER"@) by {
        lemma_one();
        reveal_strlit("REGISTER");
        reveal_strlit("1 REGISTER");
    }
    assert(headers[6].value =~= own);
}

/// An invitation goes to the address that is called, which is also its receiver,
/// names the bridge as sender and contact, is the first in its call, and carries
/// the description with its length in bytes.
pub proof fn law_invite_says(
    call_id: Seq<char>,
    uri: UriView,
    sdp: Seq<char>,
    server: Seq<char>,
    username: Seq<char>,
    address: Seq<char>,
)
    ensures
        ({
            let request = invite_request(call_id, uri, sdp, server, username, address);
            let own = own_address(server, username);
            &&& request.method == Method::Invite
            &&& request.uri == uri
            &&& request.version == Version::V2
            &&& request.body == encode_utf8(sdp)
            &&& request.headers.len() == 10
            &&& says(request, "Via"@, "SIP/2.0/WSS "@ + address + ";branch=z9hG4bKnashds7"@)
            &&& says(request, "From"@, "sip_bridge "@ + own + ";tag=a73kszlfl"@)
            &&& says(request, "To"@, "<"@ + uri_text(uri) + ">"@)
            &&& says(request, "Call-ID"@, call_id)
            &&& says(request, "CSeq"@, "1 INVITE"@)
            &&& says(request, "Contact"@, own + ";transport=WSS"@)
            &&& says(request, "Max-Forwards"@, "70"@)
            &&& says(request, "Content-Type"@, "application/sdp"@)
            &&& says(request, "User-Agent"@, "matrix_sip_bridge"@)
            &&& says(request, "Content-Length"@, decimal(encode_utf8(sdp).len()))
        }),
{
    let request = invite_request(call_id, uri, sdp, server, username, address);
    let own = own_address(server, username);
    let headers = request.headers;
    lemma_names_differ();
    assert(headers[0].name == "Via"@ && headers[1].name == "From"@ && headers[2].name == "To"@);
    assert(headers[3].name == "Call-ID"@ && headers[4].name == "CSeq"@);
    assert(headers[5].name == "Contact"@ && headers[6].name == "Max-Forwards"@);
    assert(headers[7].name == "Content-Type"@ && headers[8].name == "User-Agent"@);
    assert(headers[9].name == "Content-Length"@);
    reveal_with_fuel(header_index, 12);
    lemma_own_address(server, username, user_uri(server, username));
    assert(headers[0].value =~= "SIP/2.0/WSS "@ + address + ";branch=z9hG4bKnashds7"@) by {
        lemma_via(address, "z9hG4bKnashds7"@);
        reveal_strlit(";branch=");
        reveal_strlit("z9hG4bKnashds7");
        reveal_strlit(";branch=z9hG4bKnashds7");
    }
    assert(headers[1].value =~= "sip_bridge "@ + own + ";tag=a73kszlfl"@) by {
        lemma_tagged("sip_bridge"@, own);
        reveal_strlit("sip_bridge");
        reveal_strlit("sip_bridge ");
        reveal_strlit(" ");
    }
    assert(headers[2].value =~= "<"@ + uri_text(uri) + ">"@);
    assert(headers[4].value =~= "1 INVITE"@) by {
        lemma_one();
        reveal_strlit("INVITE");
        reveal_strlit("1 INVITE");
    }
    assert(headers[5].value =~= own + ";transport=WSS"@) by {
        let params = seq![ParamView::Transport("WSS"@)];
        assert(params.drop_last() =~= seq![]);
        reveal_strlit(";transport=");
        reveal_strlit("WSS");
        reveal_strlit(";transport=WSS");
    }
}

/// An acknowledgement goes to the given address, names the bridge as sender and
/// the one that is called as receiver, and carries the branch and the number that
/// it acknowledges, without a body.
pub proof fn law_ack_says(
    call_id: Seq<char>,
    cseq: u32,
    response_uri: UriView,
    branch: Seq<char>,
    uri: UriView,
    server: Seq<char>,
    username: Seq<char>,
    address: Seq<char>,
)
    ensures
        ({
            let request = ack_request(
                call_id,
                cseq,
                response_uri,
                branch,
                uri,
                server,
                username,
                address,
            );
            let own = own_address(server, username);
            &&& request.method == Method::Ack
            &&& request.uri == response_uri
            &&& request.version == Version::V2
            &&& request.body.len() == 0
            &&& request.headers.len() == 7
            &&& says(request, "Via"@, "SIP/2.0/WSS "@ + address + ";branch="@ + branch)
            &&& says(request, "From"@, "sip_bridge "@ + own + ";tag=a73kszlfl"@)
            &&& says(request, "To"@, "<"@ + uri_text(uri) + ">"@)
            &&& says(request, "Call-ID"@, call_id)
            &&& says(request, "CSeq"@, decimal(cseq as nat) + " ACK"@)
            &&& says(request, "Max-Forwards"@, "70"@)
            &&& says(request, "Content-Length"@, "0"@)
        }),
{
    let request = ack_request(
        call_id,
        cseq,
        response_uri,
        branch,
        uri,
        server,
        username,
        address,
    );
    let own = own_address(server, username);
    let headers = request.headers;
    lemma_names_differ();
    assert(headers[0].name == "Via"@ && headers[1].name == "From"@ && headers[2].name == "To"@);
    assert(headers[3].name == "Call-ID"@ && headers[4].name == "CSeq"@);
    assert(headers[5].name == "Max-Forwards"@ && headers[6].name == "Content-Length"@);
    reveal_with_fuel(header_index, 9);
    lemma_own_address(server, username, user_uri(server, username));
    assert(headers[0].value =~= "SIP/2.0/WSS "@ + address + ";branch="@ + branch) by {
        lemma_via(address, branch);
    }
    assert(headers[1].value =~= "sip_bridge "@ + own + ";tag=a73kszlfl"@) by {
        lemma_tagged("sip_bridge"@, own);
        reveal_strlit("sip_bridge");
        reveal_strlit("sip_bridge ");
        reveal_strlit(" ");
    }
    assert(headers[2].value =~= "<"@ + uri_text(uri) + ">"@);
    assert(headers[4].value =~= decimal(cseq as nat) + " ACK"@) by {
        reveal_strlit("ACK");
        reveal_strlit(" ACK");
        reveal_strlit(" ");
    }
}

/// Every acknowledgement in a call has the sender, the receiver and the identifier
/// of the invitation that it belongs to, wherever it goes and whatever the server
/// is.
pub proof fn law_acks_match_their_invite(
    call_id: Seq<char>,
    cseq: u32,
    response_uri: UriView,
    branch: Seq<char>,
    uri: UriView,
    sdp: Seq<char>,
    server: Seq<char>,
    username: Seq<char>,
    address: Seq<char>,
    later_address: Seq<char>,
)
    ensures
        ({
            let invite = invite_request(call_id, uri, sdp, server, username, address).headers;
            let ack = ack_request(
                call_id,
                cseq,
                response_uri,
                branch,
                uri,
                server,
                username,
                later_address,
            ).headers;
            &&& header_value(ack, "To"@) == header_value(invite, "To"@)
            &&& header_value(ack, "From"@) == header_value(invite, "From"@)
            &&& header_value(ack, "Call-ID"@) == header_value(invite, "Call-ID"@)
            &&& header_value(ack, "To"@) is Some
        }),
{
    law_invite_says(call_id, uri, sdp, server, username, address);
    law_ack_says(call_id, cseq, response_uri, branch, uri, server, username, later_address);
}

/// The names of the headers in the requests differ.
proof fn lemma_names_differ()
    ensures
        "Via"@.len() == 3,
        "From"@.len() == 4,
        "To"@.len() == 2,
        "Call-ID"@.len() == 7,
        "CSeq"@.len() == 4,
        "Contact"@.len() == 7,
        "Max-Forwards"@.len() == 12,
        "Content-Type"@.len() == 12,
        "User-Agent"@.len() == 10,
        "Content-Length"@.len() == 14,
        "From"@ != "CSeq"@,
        "Call-ID"@ != "Contact"@,
        "Max-Forwards"@ != "Content-Type"@,
{
    reveal_strlit("Via");
    reveal_strlit("From");
    reveal_strlit("To");
    reveal_strlit("Call-ID");
    reveal_strlit("CSeq");
    reveal_strlit("Contact");
    reveal_strlit("Max-Forwards");
    reveal_strlit("Content-Type");
    reveal_strlit("User-Agent");
    reveal_strlit("Content-Length");
    assert("From"@[0] != "CSeq"@[0]);
    assert("Call-ID"@[1] != "Contact"@[1]);
    assert("Max-Forwards"@[0] != "Content-Type"@[0]);
}

/// The number one in decimal, before a space.
proof fn lemma_one()
    ensures
        decimal(1) =~= seq!['1'],
        " "@ =~= seq![' '],
{
    reveal_strlit(" ");
}

proof fn lemma_via(host: Seq<char>, branch: Seq<char>)
    ensures
        via_text(own_via(host, branch)) == "SIP/2.0/WSS "@ + host + ";branch="@
            + branch,
{
    reveal_strlit("SIP/2.0");
    reveal_strlit("/");
    reveal_strlit("WSS");
    reveal_strlit(" ");
    reveal_strlit("SIP/2.0/WSS ");
    let params = own_via(host, branch).params;
    reveal_with_fuel(params_text, 2);
    assert(params.drop_last() =~= seq![]);
    assert(via_text(own_via(host, branch)) =~= "SIP/2.0/WSS "@ + host
        + ";branch="@ + branch);
}

proof fn lemma_tagged(name: Seq<char>, written: Seq<char>)
    ensures
        forall|uri: UriView|
            "<"@ + #[trigger] uri_text(uri) + ">"@ == written ==> address_text(
                Some(name),
                uri,
                seq![bridge_tag()],
            ) == name + " "@ + written + ";tag=a73kszlfl"@,
{
    reveal_strlit(" <");
    reveal_strlit(" ");
    reveal_strlit("<");
    reveal_strlit(";tag=");
    reveal_strlit("a73kszlfl");
    reveal_strlit(";tag=a73kszlfl");
    let params = seq![bridge_tag()];
    reveal_with_fuel(params_text, 2);
    assert(params.drop_last() =~= seq![]);
    assert forall|uri: UriView| "<"@ + #[trigger] uri_text(uri) + ">"@ == written implies
        address_text(Some(name), uri, params) == name + " "@ + written
        + ";tag=a73kszlfl"@ by {
        assert(address_text(Some(name), uri, params) =~= name + " "@ + ("<"@
            + uri_text(uri) + ">"@) + ";tag=a73kszlfl"@);
    }
}

} // verus!
