//! The requests that the bridge sends, held against what `rsip` writes.

use rsip::prelude::UntypedHeader;
use sip_bridge::message::{
    Auth, Header, Method, Param, Request, Scheme, SipMessage, Uri, Version, Via,
};
use sip_bridge::sip::{
    ack_request_from, generate_ack_request, generate_base_register_request,
    generate_invite_base_request, invite_request_from, new_server_uri, new_user_uri,
    register_request_from, CallID,
};
use sip_bridge::wire::{write_address, write_cseq};

fn call_id() -> CallID {
    CallID("67e55044-10b1-426f-9247-bb680e5fe0c8".to_owned())
}

fn user(server: &str, name: &str) -> rsip::Uri {
    rsip::Uri {
        scheme: Some(rsip::Scheme::Sip),
        auth: Some((name.to_owned(), None::<String>).into()),
        host_with_port: rsip::Domain::from(server.to_owned()).into(),
        ..Default::default()
    }
}

fn via(host_with_port: rsip::HostWithPort, branch: &str) -> rsip::Header {
    rsip::typed::Via {
        version: rsip::Version::V2,
        transport: rsip::Transport::Wss,
        uri: rsip::Uri { host_with_port, ..Default::default() },
        params: vec![rsip::Param::Branch(rsip::param::Branch::new(branch))],
    }
    .into()
}

fn from(name: &str, uri: rsip::Uri) -> rsip::Header {
    rsip::typed::From {
        display_name: Some(name.to_owned()),
        uri,
        params: vec![rsip::Param::Tag(rsip::param::Tag::new("a73kszlfl"))],
    }
    .into()
}

fn to(display_name: Option<String>, uri: rsip::Uri) -> rsip::Header {
    rsip::typed::To { display_name, uri, params: Default::default() }.into()
}

const ADDRESS: &str = "192.168.1.17";

fn address() -> rsip::HostWithPort {
    rsip::Host::IpAddr(ADDRESS.parse().unwrap()).into()
}

#[test]
fn register_is_written_as_by_rsip() {
    let mut headers: rsip::Headers = Default::default();
    headers.push(via((rsip::Domain::from(ADDRESS), 5060).into(), "z9hG4bKnashds7"));
    headers.push(rsip::headers::MaxForwards::default().into());
    headers.push(from("bridge", user("pbx.example.com", "bridge")));
    headers.push(to(Some("bridge".to_owned()), user("pbx.example.com", "bridge")));
    headers.push(rsip::headers::CallId::new(call_id().0).into());
    headers.push(rsip::typed::CSeq { seq: 1, method: rsip::Method::Register }.into());
    headers.push(
        rsip::typed::Contact {
            display_name: None,
            uri: user("pbx.example.com", "bridge"),
            params: Default::default(),
        }
        .into(),
    );
    headers.push(rsip::headers::UserAgent::new("matrix_sip_bridge").into());
    headers.push(rsip::headers::ContentLength::default().into());
    let expected = rsip::Request {
        method: rsip::Method::Register,
        uri: rsip::Uri {
            scheme: Some(rsip::Scheme::Sip),
            host_with_port: rsip::Domain::from("pbx.example.com").into(),
            ..Default::default()
        },
        version: rsip::Version::V2,
        headers,
        body: Default::default(),
    };
    let request =
        register_request_from(&call_id(), "pbx.example.com", "bridge", ADDRESS);
    assert_eq!(request.text(), expected.to_string());
}

#[test]
fn register_is_written_out() {
    let request = register_request_from(&call_id(), "pbx.example.com", "bridge", "10.0.0.7");
    assert_eq!(
        request.text(),
        "REGISTER sip:pbx.example.com SIP/2.0\r\n\
         Via: SIP/2.0/WSS 10.0.0.7:5060;branch=z9hG4bKnashds7\r\n\
         Max-Forwards: 70\r\n\
         From: bridge <sip:bridge@pbx.example.com>;tag=a73kszlfl\r\n\
         To: bridge <sip:bridge@pbx.example.com>\r\n\
         Call-ID: 67e55044-10b1-426f-9247-bb680e5fe0c8\r\n\
         CSeq: 1 REGISTER\r\n\
         Contact: <sip:bridge@pbx.example.com>\r\n\
         User-Agent: matrix_sip_bridge\r\n\
         Content-Length: 0\r\n\r\n"
    );
}

#[test]
fn invite_is_written_as_by_rsip() {
    let sdp = "v=0\r\no=- 1 2 IN IP4 0.0.0.0\r\ns=Grüße\r\n";
    let callee = user("pbx.example.com", "4711");
    let mut headers: rsip::Headers = Default::default();
    headers.push(via(address(), "z9hG4bKnashds7"));
    headers.push(from("sip_bridge", user("pbx.example.com", "bridge")));
    headers.push(to(None, callee.clone()));
    headers.push(rsip::headers::CallId::new(call_id().0).into());
    headers.push(rsip::typed::CSeq { seq: 1, method: rsip::Method::Invite }.into());
    headers.push(
        rsip::typed::Contact {
            display_name: None,
            uri: user("pbx.example.com", "bridge"),
            params: vec![rsip::Param::Transport(rsip::Transport::Wss)],
        }
        .into(),
    );
    headers.push(rsip::headers::MaxForwards::default().into());
    headers.push(rsip::headers::ContentType::new("application/sdp").into());
    headers.push(rsip::headers::UserAgent::new("matrix_sip_bridge").into());
    headers.push(rsip::headers::ContentLength::new(sdp.len().to_string()).into());
    let expected = rsip::Request {
        method: rsip::Method::Invite,
        uri: callee,
        version: rsip::Version::V2,
        headers,
        body: sdp.as_bytes().to_vec(),
    };
    let request = invite_request_from(
        &call_id(),
        &new_user_uri("pbx.example.com", "4711"),
        sdp,
        "pbx.example.com",
        "bridge",
        ADDRESS,
    );
    assert_eq!(request.text(), expected.to_string());
    assert!(request.text().ends_with(sdp));
    assert_eq!(request.headers[9].name, "Content-Length");
    assert_eq!(request.headers[9].value, sdp.len().to_string());
    assert_eq!(request.body.len(), sdp.len());
}

#[test]
fn ack_is_written_as_by_rsip() {
    let callee = user("pbx.example.com", "4711");
    let contact = rsip::Uri::try_from("sip:4711@10.1.2.3:8088;transport=ws").unwrap();
    let mut headers: rsip::Headers = Default::default();
    headers.push(via(address(), "12345"));
    headers.push(from("sip_bridge", user("pbx.example.com", "bridge")));
    headers.push(to(None, callee));
    headers.push(rsip::headers::CallId::new(call_id().0).into());
    headers.push(rsip::typed::CSeq { seq: 2, method: rsip::Method::Ack }.into());
    headers.push(rsip::headers::MaxForwards::default().into());
    headers.push(rsip::headers::ContentLength::default().into());
    let expected = rsip::Request {
        method: rsip::Method::Ack,
        uri: contact,
        version: rsip::Version::V2,
        headers,
        body: Default::default(),
    };
    let request = ack_request_from(
        &call_id(),
        2,
        &Uri::parse("sip:4711@10.1.2.3:8088;transport=ws").unwrap(),
        "12345",
        &new_user_uri("pbx.example.com", "4711"),
        "pbx.example.com",
        "bridge",
        ADDRESS,
    );
    assert_eq!(request.text(), expected.to_string());
}

#[test]
fn generated_requests_hold_the_local_address() {
    let Ok(local) = local_ip_address::local_ip() else {
        return;
    };
    let register = generate_base_register_request(
        call_id(),
        "pbx.example.com".to_owned(),
        "bridge".to_owned(),
    )
    .unwrap();
    let expected =
        register_request_from(&call_id(), "pbx.example.com", "bridge", &local.to_string());
    assert_eq!(register.text(), expected.text());
    let callee = new_user_uri("pbx.example.com", "4711");
    let invite = generate_invite_base_request(
        call_id(),
        callee.clone(),
        "v=0\r\n".to_owned(),
        "pbx.example.com".to_owned(),
        "bridge".to_owned(),
    )
    .unwrap();
    assert!(invite.text().contains(&format!("SIP/2.0/WSS {};branch=z9hG4bKnashds7\r\n", local)));
    let ack = generate_ack_request(
        call_id(),
        1,
        callee.clone(),
        "abc".to_owned(),
        callee,
        "pbx.example.com".to_owned(),
        "bridge".to_owned(),
    )
    .unwrap();
    assert!(ack.text().contains(&format!("SIP/2.0/WSS {};branch=abc\r\n", local)));
    assert!(ack.text().contains("CSeq: 1 ACK\r\n"));
}

#[test]
fn methods_are_written_as_by_rsip() {
    let pairs = [
        (Method::Ack, rsip::Method::Ack),
        (Method::Bye, rsip::Method::Bye),
        (Method::Cancel, rsip::Method::Cancel),
        (Method::Info, rsip::Method::Info),
        (Method::Invite, rsip::Method::Invite),
        (Method::Message, rsip::Method::Message),
        (Method::Notify, rsip::Method::Notify),
        (Method::Options, rsip::Method::Options),
        (Method::PRack, rsip::Method::PRack),
        (Method::Publish, rsip::Method::Publish),
        (Method::Refer, rsip::Method::Refer),
        (Method::Register, rsip::Method::Register),
        (Method::Subscribe, rsip::Method::Subscribe),
        (Method::Update, rsip::Method::Update),
    ];
    for (method, theirs) in pairs {
        assert_eq!(method.text(), theirs.to_string());
        let cseq = rsip::typed::CSeq { seq: 4294967295, method: theirs };
        assert_eq!(write_cseq(4294967295, method), cseq.to_string());
    }
    assert_eq!(Version::V1.text(), rsip::Version::V1.to_string());
    assert_eq!(Version::V2.text(), rsip::Version::V2.to_string());
}

#[test]
fn addresses_are_written_as_by_rsip() {
    for text in [
        "sip:alice:secret@atlanta.com:5061;transport=tcp",
        "sips:bob@biloxi.com",
        "sip:10.0.0.1",
        "sip:carol@chicago.com;user=phone",
    ] {
        let theirs = rsip::Uri::try_from(text).unwrap();
        assert_eq!(Uri::parse(text).unwrap().text(), theirs.to_string());
    }
    let other = Uri {
        scheme: Some(Scheme::Other("tel".to_owned())),
        auth: None,
        host: "example.com".to_owned(),
        port: Some(80),
        params: String::new(),
    };
    assert_eq!(other.text(), "tel://example.com:80");
    let bare = Uri {
        scheme: None,
        auth: Some(Auth { user: "a".to_owned(), password: Some("b".to_owned()) }),
        host: "c".to_owned(),
        port: None,
        params: ";lr".to_owned(),
    };
    assert_eq!(bare.text(), "a:b@c;lr");
    assert_eq!(new_server_uri("c", None).text(), "sip:c");
    assert_eq!(new_user_uri("c", "d").text(), "sip:d@c");
    let params = vec![
        Param::Tag("t".to_owned()),
        Param::Branch("b".to_owned()),
        Param::Transport("WSS".to_owned()),
        Param::Other(";x=y".to_owned()),
    ];
    assert_eq!(
        write_address(Some("D"), &new_user_uri("c", "d"), &params),
        "D <sip:d@c>;tag=t;branch=b;transport=WSS;x=y"
    );
}

#[test]
fn vias_are_written_as_by_rsip() {
    let theirs = rsip::typed::Via {
        version: rsip::Version::V2,
        transport: rsip::Transport::Wss,
        uri: rsip::Uri { host_with_port: address(), ..Default::default() },
        params: vec![rsip::Param::Branch(rsip::param::Branch::new("abc"))],
    };
    let ours = Via {
        version: "SIP/2.0".to_owned(),
        transport: "WSS".to_owned(),
        sent_by: "192.168.1.17".to_owned(),
        params: vec![Param::Branch("abc".to_owned())],
    };
    assert_eq!(ours.text(), theirs.to_string());
    let read = Via::parse(&ours.text()).unwrap();
    assert_eq!(read.version, "SIP/2.0");
    assert_eq!(read.transport, "WSS");
    assert_eq!(read.sent_by, "192.168.1.17");
    assert_eq!(read.params.len(), 1);
    assert!(matches!(&read.params[0], Param::Branch(branch) if branch == "abc"));
}

#[test]
fn broken_bodies_are_written_with_replacements() {
    let body = vec![b'a', 0xff, b'b'];
    let request = Request {
        method: Method::Info,
        uri: new_server_uri("c", None),
        version: Version::V1,
        headers: vec![Header { name: "X-Y".to_owned(), value: "z".to_owned() }],
        body: body.clone(),
    };
    let expected = "INFO sip:c SIP/1.0\r\nX-Y: z\r\n\r\na\u{fffd}b";
    assert_eq!(request.text(), expected);
    assert_eq!(SipMessage::Request(request).text(), expected);
    assert_eq!(String::from_utf8_lossy(&body), "a\u{fffd}b");
}

#[test]
fn identifiers_of_calls_are_random() {
    let id = CallID::generate().0;
    assert_eq!(id.len(), 36);
    assert!(id.parse::<uuid::Uuid>().unwrap().get_version_num() == 4);
    assert_ne!(id, CallID::generate().0);
}
