//! Reading what the exchange sends.

use sip_bridge::error::SipError;
use sip_bridge::message::{
    find_header, find_value, Method, Param, Response, Scheme, Uri, Version, Via,
};
use sip_bridge::parser::{
    parse_answer, parse_contact, parse_utf8, split_header, CSeq, Challenge, RawResponse,
};
use sip_bridge::wire::write_cseq;

const RESPONSE: &str = "SIP/2.0 401 Unauthorized\r\n\
    VIA: SIP/2.0/WSS 10.0.0.7:5060;rport=4711;received=1.2.3.4;branch=z9hG4bKnashds7\r\n\
    call-id: abc\r\n\
    From: bridge <sip:bridge@pbx.example.com>;tag=a73kszlfl\r\n\
    CSEQ: 1 REGISTER\r\n\
    WWW-Authenticate: Digest realm=\"asterisk\",nonce=\"1600/cafe\",opaque=\"5ccc\",algorithm=MD5,qop=\"auth\"\r\n\
    X-Custom: a: b\r\n\
    Content-Length: 4\r\n\r\nbody";

#[test]
fn responses_are_read() {
    let response = Response::parse(RESPONSE).unwrap();
    assert_eq!(response.version, Version::V2);
    assert_eq!(response.status, "401 Unauthorized");
    let names: Vec<&str> = response.headers.iter().map(|header| header.name.as_str()).collect();
    assert_eq!(
        names,
        vec![
            "Via",
            "Call-ID",
            "From",
            "CSeq",
            "WWW-Authenticate",
            "X-Custom",
            "Content-Length"
        ]
    );
    assert_eq!(find_value(&response.headers, "X-Custom").unwrap(), "a: b");
    assert_eq!(find_value(&response.headers, "Call-ID").unwrap(), "abc");
    assert_eq!(find_value(&response.headers, "Contact"), None);
    assert_eq!(find_header(&response.headers, "CSeq"), 3);
    assert_eq!(find_header(&response.headers, "Contact"), 7);
    assert_eq!(response.body, b"body".to_vec());
    let theirs = rsip::Response::try_from(RESPONSE).unwrap();
    assert_eq!(response.text(), theirs.to_string());
}

#[test]
fn short_header_names_are_left_alone() {
    let response = Response::parse("SIP/2.0 200 OK\r\nv: SIP/2.0/WSS a;branch=b\r\n\r\n").unwrap();
    assert_eq!(response.headers[0].name, "v");
    assert_eq!(find_value(&response.headers, "Via"), None);
}

#[test]
fn texts_that_are_no_responses_are_refused() {
    for text in ["", "BYE sip:a SIP/2.0\r\n\r\n", "SIP/2.0\r\n\r\n", "hello"] {
        assert_eq!(Response::parse(text).err(), Some(SipError::InvalidResponse));
        assert!(rsip::Response::try_from(text).is_err());
    }
}

#[test]
fn header_lines_are_taken_apart() {
    let header = split_header("Via: SIP/2.0/WSS a");
    assert_eq!(header.name, "Via");
    assert_eq!(header.value, "SIP/2.0/WSS a");
    let empty = split_header("Subject: ");
    assert_eq!(empty.name, "Subject");
    assert_eq!(empty.value, "");
    let bare = split_header("Subject");
    assert_eq!(bare.name, "Subject");
    assert_eq!(bare.value, "");
    let raw = RawResponse {
        version: Version::V2,
        status: "200 OK".to_owned(),
        header_lines: vec!["To: <sip:a@b>".to_owned()],
        body: vec![1, 2],
    };
    let response = Response::from_raw(raw);
    assert_eq!(response.headers.len(), 1);
    assert_eq!(response.headers[0].name, "To");
    assert_eq!(response.headers[0].value, "<sip:a@b>");
    assert_eq!(response.body, vec![1, 2]);
}

#[test]
fn addresses_are_read() {
    let uri = Uri::parse("sip:alice:secret@atlanta.com:5061;transport=tcp").unwrap();
    assert!(matches!(uri.scheme, Some(Scheme::Sip)));
    let auth = uri.auth.as_ref().unwrap();
    assert_eq!(auth.user, "alice");
    assert_eq!(auth.password.as_deref(), Some("secret"));
    assert_eq!(uri.host, "atlanta.com");
    assert_eq!(uri.port, Some(5061));
    assert_eq!(uri.params, ";transport=TCP");
    assert!(matches!(Uri::parse("sips:bob@biloxi.com").unwrap().scheme, Some(Scheme::Sips)));
    assert_eq!(Uri::parse("").err(), Some(SipError::InvalidUri));
}

#[test]
fn plain_addresses_are_read_as_they_are_written() {
    for scheme in ["sip", "sips"] {
        for user in ["bob", "4711", "A", ""] {
            for host in ["example.org", "10.0.0.7", "a-b", ".", "01.2.3.4"] {
                let written = format!("{}:{}@{}", scheme, user, host);
                let uri = Uri::parse(&written).unwrap();
                assert!(matches!(
                    (scheme, &uri.scheme),
                    ("sip", Some(Scheme::Sip)) | ("sips", Some(Scheme::Sips))
                ));
                assert_eq!(uri.auth.as_ref().unwrap().user, user);
                assert_eq!(uri.auth.as_ref().unwrap().password, None);
                assert_eq!(uri.host, host);
                assert_eq!(uri.port, None);
                assert_eq!(uri.params, "");
                assert_eq!(uri.text(), written);
            }
        }
    }
}

#[test]
fn vias_are_read() {
    let via = Via::parse("SIP/2.0/UDP pc33.atlanta.com:5066;ttl=16;branch=z9hG4bK776").unwrap();
    assert_eq!(via.version, "SIP/2.0");
    assert_eq!(via.transport, "UDP");
    assert_eq!(via.sent_by, "pc33.atlanta.com:5066");
    assert!(matches!(&via.params[0], Param::Other(written) if written == ";ttl=16"));
    assert!(matches!(&via.params[1], Param::Branch(branch) if branch == "z9hG4bK776"));
    assert_eq!(via.text(), "SIP/2.0/UDP pc33.atlanta.com:5066;ttl=16;branch=z9hG4bK776");
    assert_eq!(Via::parse("nonsense").err(), Some(SipError::InvalidVia));
}

#[test]
fn sequence_numbers_are_read_as_they_are_written() {
    for method in [
        Method::Ack,
        Method::Bye,
        Method::Cancel,
        Method::Info,
        Method::Invite,
        Method::Message,
        Method::Notify,
        Method::Options,
        Method::PRack,
        Method::Publish,
        Method::Refer,
        Method::Register,
        Method::Subscribe,
        Method::Update,
    ] {
        for seq in [0, 1, 2, 10, 4294967295] {
            let cseq = CSeq::parse(&write_cseq(seq, method)).unwrap();
            assert_eq!(cseq.seq, seq);
            assert_eq!(cseq.method, method.text());
        }
    }
    assert_eq!(CSeq::parse("one INVITE").err(), Some(SipError::InvalidCSeq));
    assert_eq!(CSeq::parse("4294967296 INVITE").err(), Some(SipError::InvalidCSeq));
}

#[test]
fn own_vias_are_read_as_they_are_written() {
    for host in ["1.2.3.4", "255.255.255.255", "0.0.0.0", "10.0.0.7"] {
        for branch in ["z9hG4bKnashds7", "12345", "", "A"] {
            let written = format!("SIP/2.0/WSS {};branch={}", host, branch);
            let via = match Via::parse(&written) {
                Ok(via) => via,
                Err(error) => panic!("{:?} for {}", error, written),
            };
            assert_eq!(via.sent_by, host);
            assert_eq!(via.text(), written);
        }
    }
}

#[test]
fn contacts_are_read() {
    let uri = parse_contact("<sip:4711@10.1.2.3:8088;transport=ws>").unwrap();
    assert_eq!(uri.auth.as_ref().unwrap().user, "4711");
    assert_eq!(uri.host, "10.1.2.3");
    assert_eq!(uri.port, Some(8088));
    let theirs = rsip::Uri::try_from("sip:4711@10.1.2.3:8088;transport=ws").unwrap();
    assert_eq!(uri.text(), theirs.to_string());
    assert_eq!(parse_contact("").err(), Some(SipError::InvalidContact));
}

#[test]
fn challenges_are_read() {
    let challenge = Challenge::parse(
        "Digest realm=\"asterisk\",nonce=\"1600/cafe\",opaque=\"5ccc\",algorithm=MD5,qop=\"auth\"",
    )
    .unwrap();
    assert_eq!(challenge.realm, "asterisk");
    assert_eq!(challenge.nonce, "1600/cafe");
    assert_eq!(challenge.opaque.as_deref(), Some("5ccc"));
    assert_eq!(challenge.algorithm.as_deref(), Some("MD5"));
    for (written, shown) in [
        ("MD5", "MD5"),
        ("MD5-sess", "MD5-sess"),
        ("SHA256", "SHA256"),
        ("SHA256-sess", "SHA256-sess"),
        ("SHA512", "SHA512"),
        ("SHA512-sess", "SHA512-sess"),
    ] {
        let value = format!("Digest realm=\"a\", nonce=\"b\", algorithm={}", written);
        let challenge = Challenge::parse(&value).unwrap();
        assert_eq!(challenge.algorithm.as_deref(), Some(shown));
        assert_eq!(challenge.opaque, None);
    }
    let plain = Challenge::parse("Digest realm=\"a\", nonce=\"b\"").unwrap();
    assert_eq!(plain.algorithm, None);
    assert_eq!(Challenge::parse("Digest").err(), Some(SipError::InvalidChallenge));
}

#[test]
fn bytes_are_decoded() {
    assert_eq!(parse_utf8("Grüße".as_bytes().to_vec()).unwrap(), "Grüße");
    assert_eq!(parse_utf8(vec![]).unwrap(), "");
    assert_eq!(parse_utf8(vec![0xff]).err(), Some(SipError::InvalidUtf8));
}

#[test]
fn descriptions_are_read() {
    let answer = "v=0\r\no=- 1 2 IN IP4 0.0.0.0\r\ns=-\r\nt=0 0\r\nm=audio 9 UDP/TLS/RTP/SAVPF 111\r\n";
    assert_eq!(parse_answer(answer.to_owned()).unwrap(), answer);
    for text in ["hello", "v=1\r\n", "o=- 1 2 IN IP4 0.0.0.0\r\n"] {
        assert_eq!(parse_answer(text.to_owned()).err(), Some(SipError::InvalidDescription));
    }
}
