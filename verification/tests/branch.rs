//! New branches, and the branches of responses.

use sip_bridge::branch::{
    branch_among, find_branch, find_via, generate_new_branch, replace_branch, reroute,
};
use sip_bridge::error::SipError;
use sip_bridge::message::{Header, Param, Request, Response, SipMessage, Via};
use sip_bridge::sip::{invite_request_from, new_user_uri, CallID};

fn invite() -> Request {
    invite_request_from(
        &CallID("abc".to_owned()),
        &new_user_uri("pbx.example.com", "4711"),
        "v=0\r\n",
        "pbx.example.com",
        "bridge",
        "10.0.0.7",
    )
}

fn response(headers: &str) -> Response {
    Response::parse(&format!("SIP/2.0 200 OK\r\n{}\r\n", headers)).unwrap()
}

#[test]
fn only_the_branch_changes() {
    let moved = generate_new_branch(invite()).unwrap().text();
    let expected = invite().text().replace("branch=z9hG4bKnashds7", "branch=12345");
    assert_eq!(moved, expected);
    assert_ne!(moved, invite().text());
}

#[test]
fn a_second_time_changes_nothing_more() {
    for value in [
        "SIP/2.0/WSS 10.0.0.7;branch=z9hG4bKnashds7",
        "SIP/1.7/udp  host.example.com:05066;TTL=16;Branch=one;branch=two;lr;rport;x=;;=y",
        "SIP/2.0/TCP sip:user:pw@a.b:+1;received=1.2.3.4;transport=tls-sctp;method=prack rest",
        "SIP/2.0/TLS x y://:5060;branch=a.b;q=0.5;tag=t@u",
        "SIP/2.0/WS a;branch=b c@d",
        "SIP/2.0/SCTP u:@h;branch",
    ] {
        let mut request = invite();
        request.headers[0].value = value.to_owned();
        request.headers.push(Header { name: "Via".to_owned(), value: "nonsense".to_owned() });
        let once = generate_new_branch(request).unwrap();
        let SipMessage::Request(moved) = once.clone() else { unreachable!() };
        assert_eq!(generate_new_branch(moved).unwrap().text(), once.text(), "{}", value);
    }
}

#[test]
fn every_via_becomes_the_first() {
    let mut request = invite();
    request.headers[0].value =
        "SIP/2.0/UDP host.example.com:5066;ttl=16;branch=one;branch=two".to_owned();
    request
        .headers
        .push(Header { name: "Via".to_owned(), value: "SIP/2.0/TCP other.example.com".to_owned() });
    let moved = match generate_new_branch(request).unwrap() {
        SipMessage::Request(request) => request,
        SipMessage::Response(_) => unreachable!(),
    };
    let value = "SIP/2.0/UDP host.example.com:5066;ttl=16;branch=12345;branch=12345";
    assert_eq!(moved.headers[0].value, value);
    assert_eq!(moved.headers[10].value, value);
    assert_eq!(moved.headers.len(), 11);
    assert_eq!(moved.body, b"v=0\r\n".to_vec());
}

#[test]
fn requests_without_a_via_are_refused() {
    let mut request = invite();
    request.headers.remove(0);
    assert_eq!(generate_new_branch(request).err(), Some(SipError::MissingVia));
    let mut request = invite();
    request.headers[0].value = "nonsense".to_owned();
    assert_eq!(generate_new_branch(request).err(), Some(SipError::InvalidVia));
}

#[test]
fn branches_are_found() {
    let found = find_branch(&response(
        "Via: SIP/2.0/WSS 10.0.0.7;rport;branch=one;branch=two\r\nVia: SIP/2.0/WSS b;branch=three\r\n",
    ));
    assert_eq!(found.unwrap(), "one");
    assert_eq!(find_branch(&response("")).err(), Some(SipError::MissingVia));
    assert_eq!(find_branch(&response("Via: nonsense\r\n")).err(), Some(SipError::InvalidVia));
    assert_eq!(
        find_branch(&response("Via: SIP/2.0/WSS 10.0.0.7;rport\r\n")).err(),
        Some(SipError::MissingBranch)
    );
    let via = find_via(&response("Via: SIP/2.0/WSS 10.0.0.7;branch=x\r\n").headers).unwrap();
    assert_eq!(via.text(), "SIP/2.0/WSS 10.0.0.7;branch=x");
}

#[test]
fn vias_are_replaced() {
    let via = Via {
        version: "SIP/2.0".to_owned(),
        transport: "UDP".to_owned(),
        sent_by: "a".to_owned(),
        params: vec![Param::Other(";rport".to_owned()), Param::Branch("b".to_owned())],
    };
    let via = replace_branch(via, "c");
    assert_eq!(via.text(), "SIP/2.0/UDP a;rport;branch=c");
    assert_eq!(branch_among(&via.params).as_deref(), Some("c"));
    assert_eq!(branch_among(&vec![Param::Tag("t".to_owned())]), None);
    let rerouted = reroute(invite(), &via);
    assert_eq!(rerouted.headers[0].value, "SIP/2.0/UDP a;rport;branch=c");
    assert_eq!(rerouted.headers[1].value, invite().headers[1].value);
}
