//! Answering challenges, held against what `rsip` computes.

use rsip::prelude::{HasHeaders, HeadersExt, UntypedHeader};
use sip_bridge::auth::{
    authorize_request, authorize_request_checked, find_challenge, find_cseq, follow_up,
    generate_request_with_auth, generate_request_with_auth_checked, is_sequence_exhausted,
    write_authorization,
};
use sip_bridge::error::SipError;
use sip_bridge::message::{Auth, Header, Request, Response, SipMessage};
use sip_bridge::parser::{CSeq, Challenge};
use sip_bridge::sip::{register_request_from, CallID};

const CNONCE: &str = "67e55044-10b1-426f-9247-bb680e5fe0c8";

fn challenge(value: &str) -> Response {
    let text = format!("SIP/2.0 401 Unauthorized\r\nWWW-Authenticate: {}\r\n\r\n", value);
    Response::parse(&text).unwrap()
}

fn register() -> Request {
    register_request_from(&CallID("abc".to_owned()), "pbx.example.com", "bridge", "10.0.0.7")
}

fn without(mut request: Request, name: &str) -> SipMessage {
    request.headers.retain(|header| header.name != name);
    SipMessage::Request(request)
}

fn with_cseq(mut request: Request, value: &str) -> SipMessage {
    request.headers[5].value = value.to_owned();
    SipMessage::Request(request)
}

fn by_rsip(value: &str, auth: Option<rsip::Auth>) -> String {
    let typed = rsip::typed::WwwAuthenticate::try_from(rsip::headers::WwwAuthenticate::new(value))
        .unwrap();
    let uri = rsip::Uri {
        scheme: Some(rsip::Scheme::Sip),
        host_with_port: rsip::Domain::from("pbx.example.com").into(),
        auth,
        ..Default::default()
    };
    let qop = rsip::headers::auth::AuthQop::Auth { cnonce: CNONCE.to_owned(), nc: 1 };
    let response = rsip::services::DigestGenerator {
        username: "bridge",
        password: "hunter2",
        realm: &typed.realm,
        nonce: &typed.nonce,
        uri: &uri,
        method: &rsip::Method::Register,
        qop: Some(&qop),
        algorithm: typed.algorithm.unwrap(),
    }
    .compute();
    let header = rsip::typed::Authorization {
        scheme: rsip::headers::auth::Scheme::Digest,
        username: "bridge".to_owned(),
        realm: typed.realm,
        nonce: typed.nonce,
        uri,
        response,
        opaque: typed.opaque,
        algorithm: typed.algorithm,
        qop: Some(qop),
    };
    let mut message: rsip::SipMessage =
        rsip::Request::try_from(register().text()).unwrap().into();
    if let rsip::SipMessage::Request(request) = &mut message {
        request.headers_mut().push(header.into());
    }
    let cseq = message.cseq_header_mut().unwrap();
    cseq.mut_seq(cseq.seq().unwrap() + 1).unwrap();
    message.to_string()
}

fn authorize(value: &str, auth: Option<Auth>) -> String {
    authorize_request_checked(
        &challenge(value),
        auth,
        SipMessage::Request(register()),
        "pbx.example.com",
        "bridge",
        "hunter2",
        CNONCE,
    )
    .unwrap()
    .text()
}

#[test]
fn answers_are_those_of_rsip() {
    for value in [
        "Digest realm=\"asterisk\",nonce=\"1600/cafe\",opaque=\"5ccc\",algorithm=MD5,qop=\"auth\"",
        "Digest realm=\"a b\", nonce=\"n\", algorithm=MD5",
        "Digest realm=\"a\", nonce=\"n\", algorithm=SHA256",
        "Digest realm=\"a\", nonce=\"n\", algorithm=SHA512",
        "Digest realm=\"a\", nonce=\"n\", algorithm=MD5-sess",
        "Digest realm=\"a\", nonce=\"n\", algorithm=SHA256-sess",
        "Digest realm=\"a\", nonce=\"n\", algorithm=SHA512-sess",
    ] {
        assert_eq!(authorize(value, None), by_rsip(value, None));
        let theirs = rsip::Auth { user: "4711".to_owned(), password: None };
        let ours = Auth { user: "4711".to_owned(), password: None };
        assert_eq!(authorize(value, Some(ours)), by_rsip(value, Some(theirs)));
        let theirs = rsip::Auth { user: "a".to_owned(), password: Some("b".to_owned()) };
        let ours = Auth { user: "a".to_owned(), password: Some("b".to_owned()) };
        assert_eq!(authorize(value, Some(ours)), by_rsip(value, Some(theirs)));
    }
}

#[test]
fn answer_counts_up_and_adds_one_header() {
    let text = authorize("Digest realm=\"asterisk\",nonce=\"1600/cafe\",algorithm=MD5", None);
    assert!(text.contains("CSeq: 2 REGISTER\r\n"));
    assert!(!text.contains("CSeq: 1 REGISTER\r\n"));
    let before = register().text();
    let changed: Vec<&str> = text
        .split("\r\n")
        .filter(|line| !before.split("\r\n").any(|old| old == *line))
        .collect();
    assert_eq!(changed.len(), 2);
    assert_eq!(changed[0], "CSeq: 2 REGISTER");
    assert!(changed[1].starts_with(
        "Authorization: Digest username=\"bridge\", realm=\"asterisk\", nonce=\"1600/cafe\", uri=\"sip:pbx.example.com\", response=\""
    ));
    assert!(changed[1].ends_with(&format!(
        "\", algorithm=MD5, qop=\"auth\", nc=00000001, cnonce=\"{}\"",
        CNONCE
    )));
}

#[test]
fn fresh_answers_differ_in_their_nonce_only() {
    let value = "Digest realm=\"a\", nonce=\"n\", algorithm=MD5";
    let made = || {
        generate_request_with_auth_checked(
            challenge(value),
            None,
            SipMessage::Request(register()),
            "pbx.example.com".to_owned(),
            "bridge".to_owned(),
            "hunter2".to_owned(),
        )
        .unwrap()
        .text()
    };
    let first = made();
    let second = made();
    assert_ne!(first, second);
    let cnonce = first.split("cnonce=\"").nth(1).unwrap().split('"').next().unwrap().to_owned();
    assert_eq!(cnonce.len(), 36);
    assert_eq!(cnonce.as_bytes()[14], b'4');
    let again = authorize_request(
        &challenge(value),
        None,
        SipMessage::Request(register()),
        "pbx.example.com",
        "bridge",
        "hunter2",
        &cnonce,
    )
    .unwrap();
    assert_eq!(again.text(), first);
    let unchecked = generate_request_with_auth(
        challenge(value),
        None,
        SipMessage::Request(register()),
        "pbx.example.com".to_owned(),
        "bridge".to_owned(),
        "hunter2".to_owned(),
    )
    .unwrap();
    assert_eq!(unchecked.text().len(), first.len());
}

#[test]
fn requests_that_cannot_be_answered_are_refused() {
    let good = "Digest realm=\"a\", nonce=\"n\", algorithm=MD5";
    let refuse = |response: &Response, message: SipMessage| {
        authorize_request_checked(response, None, message, "s", "u", "p", CNONCE).err().unwrap()
    };
    let none = Response::parse("SIP/2.0 200 OK\r\n\r\n").unwrap();
    assert_eq!(refuse(&none, SipMessage::Request(register())), SipError::MissingChallenge);
    let invalid = challenge("Digest");
    assert_eq!(refuse(&invalid, SipMessage::Request(register())), SipError::InvalidChallenge);
    let plain = challenge("Digest realm=\"a\", nonce=\"n\"");
    assert_eq!(refuse(&plain, SipMessage::Request(register())), SipError::MissingAlgorithm);
    let ok = challenge(good);
    let response = SipMessage::Response(Response::parse("SIP/2.0 200 OK\r\n\r\n").unwrap());
    assert_eq!(refuse(&plain, response.clone()), SipError::NotARequest);
    assert_eq!(refuse(&ok, response), SipError::NotARequest);
    assert_eq!(refuse(&ok, without(register(), "CSeq")), SipError::MissingCSeq);
    assert_eq!(refuse(&ok, with_cseq(register(), "one")), SipError::InvalidCSeq);
    assert_eq!(refuse(&ok, with_cseq(register(), "4294967295 REGISTER")), SipError::ExhaustedCSeq);
    assert!(is_sequence_exhausted(&ok, &with_cseq(register(), "4294967295 REGISTER")));
    assert!(!is_sequence_exhausted(&ok, &with_cseq(register(), "4294967294 REGISTER")));
    assert!(!is_sequence_exhausted(&plain, &with_cseq(register(), "4294967295 REGISTER")));
    assert_eq!(
        generate_request_with_auth_checked(
            ok,
            None,
            with_cseq(register(), "4294967295 REGISTER"),
            "s".to_owned(),
            "u".to_owned(),
            "p".to_owned(),
        )
        .err(),
        Some(SipError::ExhaustedCSeq)
    );
}

#[test]
fn first_challenge_and_number_count() {
    let text = "SIP/2.0 401 Unauthorized\r\n\
        WWW-Authenticate: Digest realm=\"first\", nonce=\"n\", algorithm=SHA256\r\n\
        WWW-Authenticate: Digest realm=\"second\", nonce=\"n\", algorithm=MD5\r\n\r\n";
    let found = find_challenge(&Response::parse(text).unwrap()).unwrap();
    assert_eq!(found.realm, "first");
    assert_eq!(found.algorithm.as_deref(), Some("SHA256"));
    let mut request = register();
    request.headers.push(Header { name: "CSeq".to_owned(), value: "9 ACK".to_owned() });
    let cseq = find_cseq(&request).unwrap();
    assert_eq!(cseq.seq, 1);
    assert_eq!(cseq.method, "REGISTER");
}

#[test]
fn headers_are_written_around_a_digest() {
    let mut challenge = Challenge {
        realm: "r".to_owned(),
        nonce: "n".to_owned(),
        opaque: Some("o".to_owned()),
        algorithm: Some("MD5".to_owned()),
    };
    assert_eq!(
        write_authorization("u", &challenge, "sip:s", "d", "MD5", "c"),
        "Digest username=\"u\", realm=\"r\", nonce=\"n\", uri=\"sip:s\", response=\"d\", algorithm=MD5, opaque=\"o\", qop=\"auth\", nc=00000001, cnonce=\"c\""
    );
    challenge.opaque = None;
    assert_eq!(
        write_authorization("u", &challenge, "sip:s", "d", "MD5", "c"),
        "Digest username=\"u\", realm=\"r\", nonce=\"n\", uri=\"sip:s\", response=\"d\", algorithm=MD5, qop=\"auth\", nc=00000001, cnonce=\"c\""
    );
    let added = Header { name: "X".to_owned(), value: "y".to_owned() };
    let next = follow_up(register(), &CSeq { seq: 9, method: "REGISTER".to_owned() }, added);
    assert_eq!(next.headers[5].value, "10 REGISTER");
    assert_eq!(next.headers[9].name, "X");
    assert_eq!(next.headers.len(), 10);
}
