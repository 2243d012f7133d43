//! The connection to the exchange.

use sip_bridge::auth::SipAuthInfo;
use sip_bridge::connection::{
    check_domain, collect_response, passes_over, start, start_from, step, step_with, upgrade_request, upgrade_request_with, Event, Frame, Next, Opcode,
    Outgoing, Phase, SIPRequest, Step, KEEP_ALIVE_MILLIS,
};
use sip_bridge::error::SipError;
use sip_bridge::message::{Response, SipMessage};
use sip_bridge::sip::{register_request_from, CallID};

const CNONCE: &str = "67e55044-10b1-426f-9247-bb680e5fe0c8";
const CHALLENGE: &str = "SIP/2.0 401 Unauthorized\r\n\
    WWW-Authenticate: Digest realm=\"a\", nonce=\"n\", algorithm=MD5\r\n\r\n";

fn account() -> SipAuthInfo {
    SipAuthInfo {
        address: "pbx.example.com".to_owned(),
        username: "bridge".to_owned(),
        password: "hunter2".to_owned(),
    }
}

fn register() -> SipMessage {
    SipMessage::Request(register_request_from(
        &CallID("abc".to_owned()),
        "pbx.example.com",
        "bridge",
        "10.0.0.7",
    ))
}

fn frame(opcode: Opcode, payload: &[u8]) -> Event {
    Event::Frame(Frame { opcode, payload: payload.to_vec() })
}

fn text(payload: &str) -> Event {
    frame(Opcode::Text, payload.as_bytes())
}

fn go(phase: Phase, event: Event) -> (Phase, Step) {
    step_with(&account(), phase, event, CNONCE)
}

fn stops_with(outcome: (Phase, Step), error: SipError) {
    assert!(matches!(outcome.0, Phase::Finished));
    assert_eq!(outcome.1.next, Next::Stop(Some(error)));
    assert!(outcome.1.send.is_none());
    assert!(outcome.1.deliver.is_none());
}

fn sent(step: &Step) -> String {
    match &step.send {
        Some(Outgoing::Text(text)) => text.clone(),
        other => panic!("{:?}", other),
    }
}

#[test]
fn registering_is_challenged_and_answered() {
    let (phase, step) = go(Phase::Registering(register()), text(CHALLENGE));
    assert!(matches!(phase, Phase::Authorizing));
    assert_eq!(step.next, Next::Read);
    let answer = sent(&step);
    assert!(answer.starts_with("REGISTER sip:pbx.example.com SIP/2.0\r\n"));
    assert!(answer.contains("CSeq: 2 REGISTER\r\n"));
    assert!(answer.contains("Authorization: Digest username=\"bridge\", realm=\"a\""));
    let before = register().text();
    assert!(answer.starts_with(before.split("CSeq").next().unwrap()));
    let (phase, step) = go(phase, text("anything"));
    assert!(matches!(phase, Phase::Idle));
    assert_eq!(step.next, Next::Wait);
    assert!(step.send.is_none());
}

#[test]
fn registering_fails() {
    let at = || Phase::Registering(register());
    stops_with(go(at(), frame(Opcode::Binary, CHALLENGE.as_bytes())), SipError::UnexpectedFrame);
    stops_with(go(at(), frame(Opcode::Text, &[0xff])), SipError::InvalidUtf8);
    stops_with(go(at(), text("hello")), SipError::InvalidResponse);
    stops_with(go(at(), text("SIP/2.0 200 OK\r\n\r\n")), SipError::MissingChallenge);
    stops_with(go(at(), Event::ReadFailed), SipError::ConnectionLost);
    stops_with(go(Phase::Authorizing, Event::ReadFailed), SipError::ConnectionLost);
    stops_with(go(Phase::Authorizing, frame(Opcode::Ping, b"")), SipError::UnexpectedFrame);
    stops_with(go(Phase::Authorizing, frame(Opcode::Text, &[0xff])), SipError::InvalidUtf8);
    let (phase, step) = go(at(), Event::Timeout);
    assert!(matches!(phase, Phase::Registering(_)));
    assert_eq!(step.next, Next::Read);
}

#[test]
fn fresh_nonces_answer_challenges() {
    let (_, step) = step(&account(), Phase::Registering(register()), text(CHALLENGE));
    let answer = sent(&step);
    let cnonce = answer.split("cnonce=\"").nth(1).unwrap().split('"').next().unwrap();
    assert_eq!(cnonce.len(), 36);
    let (_, again) = step_with(&account(), Phase::Registering(register()), text(CHALLENGE), cnonce);
    assert_eq!(sent(&again), answer);
}

#[test]
fn starting_registers_from_the_given_address() {
    let call_id = CallID("abc".to_owned());
    let (phase, step) = start_from(&call_id, &account(), Some("10.0.0.7")).unwrap();
    match phase {
        Phase::Registering(message) => assert_eq!(message.text(), register().text()),
        other => panic!("{:?}", other),
    }
    assert_eq!(sent(&step), register().text());
    assert!(step.deliver.is_none());
    assert_eq!(step.next, Next::Read);
    assert_eq!(
        start_from(&call_id, &account(), None).err(),
        Some(SipError::NoLocalAddress)
    );
}

#[test]
fn starting_registers() {
    let started = start(CallID("abc".to_owned()), &account());
    match (started, local_ip_address::local_ip()) {
        (Ok((Phase::Registering(message), step)), Ok(local)) => {
            assert_eq!(sent(&step), message.text());
            let first = format!("Via: SIP/2.0/WSS {}:5060;branch=", local);
            assert!(message.text().starts_with("REGISTER sip:pbx.example.com SIP/2.0\r\n"));
            assert!(message.text().contains(&first));
            assert_eq!(step.next, Next::Read);
        }
        (Err(error), Err(_)) => assert_eq!(error, SipError::NoLocalAddress),
        (other, local) => panic!("{:?} with {:?}", other, local),
    }
}

#[test]
fn idle_connections_are_kept_alive() {
    assert_eq!(KEEP_ALIVE_MILLIS, 500);
    let (phase, step) = go(Phase::Idle, Event::Timeout);
    assert!(matches!(phase, Phase::Idle));
    assert!(matches!(step.send, Some(Outgoing::Ping)));
    assert_eq!(step.next, Next::Wait);
    let (phase, step) = go(Phase::Idle, Event::ReadFailed);
    assert!(matches!(phase, Phase::Idle));
    assert!(step.send.is_none());
    assert_eq!(step.next, Next::WaitOut);
}

#[test]
fn frames_make_the_queue_be_looked_at() {
    for opcode in [
        Opcode::Continuation,
        Opcode::Text,
        Opcode::Binary,
        Opcode::Ping,
        Opcode::Pong,
    ] {
        let (phase, step) = go(Phase::Idle, frame(opcode, b""));
        assert!(matches!(phase, Phase::Polling));
        assert_eq!(step.next, Next::Poll);
    }
    let (phase, step) = go(Phase::Polling, Event::Queued(None));
    assert!(matches!(phase, Phase::Idle));
    assert_eq!(step.next, Next::Wait);
    let (phase, step) = go(Phase::Idle, frame(Opcode::Close, b""));
    assert!(matches!(phase, Phase::Finished));
    assert_eq!(step.next, Next::Stop(None));
    let (phase, step) = go(phase, Event::Timeout);
    assert!(matches!(phase, Phase::Finished));
    assert_eq!(step.next, Next::Stop(None));
    assert!(step.send.is_none());
}

#[test]
fn messages_without_responses_are_sent() {
    let (phase, step) = go(Phase::Polling, Event::Queued(Some(SIPRequest::new(register(), 0))));
    assert!(matches!(phase, Phase::Idle));
    assert_eq!(sent(&step), register().text());
    assert_eq!(step.deliver.unwrap().len(), 0);
    assert_eq!(step.next, Next::Wait);
}

#[test]
fn responses_are_collected_in_order() {
    let count = 8;
    let (mut phase, first) =
        go(Phase::Polling, Event::Queued(Some(SIPRequest::new(register(), count))));
    assert_eq!(sent(&first), register().text());
    assert!(first.deliver.is_none());
    let frames = [
        text("SIP/2.0 100 Trying\r\n\r\n"),
        text(""),
        text("BYE sip:a SIP/2.0\r\n\r\n"),
        text("\r\n\r\n"),
        frame(Opcode::Text, &[0xff]),
        frame(Opcode::Pong, b"SIP/2.0 486 Busy Here\r\n\r\n"),
        frame(Opcode::Binary, b"SIP/2.0 183 Session Progress\r\n\r\n"),
    ];
    for event in frames {
        let (next, step) = go(phase, event);
        assert!(step.deliver.is_none());
        assert!(step.send.is_none());
        assert_eq!(step.next, Next::Read);
        phase = next;
    }
    let (phase, last) = go(phase, text("SIP/2.0 200 OK\r\n\r\nbody"));
    assert!(matches!(phase, Phase::Idle));
    assert_eq!(last.next, Next::Wait);
    let responses = last.deliver.unwrap();
    let statuses: Vec<&str> =
        responses.iter().map(|response: &Response| response.status.as_str()).collect();
    assert_eq!(statuses, vec!["100 Trying", "183 SessionProgress", "200 OK"]);
    assert_eq!(responses[2].body, b"body".to_vec());
}

#[test]
fn collecting_fails() {
    let at = || Phase::Collecting { remaining: 2, responses: Vec::new() };
    stops_with(go(at(), text("hello")), SipError::InvalidResponse);
    stops_with(go(at(), Event::ReadFailed), SipError::ConnectionLost);
    let (phase, step) = go(at(), Event::Queued(None));
    assert!(matches!(phase, Phase::Collecting { remaining: 2, .. }));
    assert_eq!(step.next, Next::Read);
}

#[test]
fn connections_are_upgraded() {
    let request = upgrade_request_with("pbx.example.com", "key");
    assert_eq!(request.address, "pbx.example.com:443");
    assert_eq!(request.method, "GET");
    assert_eq!(request.uri, "/ws");
    let headers: Vec<(&str, &str)> = request
        .headers
        .iter()
        .map(|header| (header.name.as_str(), header.value.as_str()))
        .collect();
    assert_eq!(
        headers,
        vec![
            ("Host", "pbx.example.com"),
            ("upgrade", "websocket"),
            ("connection", "Upgrade"),
            ("Sec-WebSocket-Key", "key"),
            ("Sec-WebSocket-Protocol", "sip"),
            ("Sec-WebSocket-Version", "13"),
        ]
    );
    let first = upgrade_request("pbx.example.com");
    let second = upgrade_request("pbx.example.com");
    assert_ne!(first.headers[3].value, second.headers[3].value);
    assert_eq!(first.headers[3].value.len(), 24);
    assert!(first.headers[3].value.ends_with("=="));
}

#[test]
fn domains_are_checked() {
    assert_eq!(check_domain("pbx.example.com"), Ok(()));
    assert_eq!(check_domain("10.0.0.7"), Ok(()));
    for domain in ["", "a b", "-.", "pbx.example.com:443"] {
        assert_eq!(check_domain(domain), Err(SipError::InvalidDomain));
    }
}

#[test]
fn found_responses_are_collected() {
    let ok = || Response::parse("SIP/2.0 200 OK\r\n\r\n").unwrap();
    let (phase, step) = collect_response(3, vec![ok()], Some(ok()));
    match phase {
        Phase::Collecting { remaining, responses } => {
            assert_eq!(remaining, 2);
            assert_eq!(responses.len(), 2);
        }
        other => panic!("{:?}", other),
    }
    assert_eq!(step.next, Next::Read);
    let (phase, step) = collect_response(1, vec![ok()], None);
    assert!(matches!(phase, Phase::Idle));
    assert_eq!(step.deliver.unwrap().len(), 1);
    assert!(passes_over(""));
    assert!(passes_over("BYE sip:a SIP/2.0"));
    assert!(passes_over("\r\n\r\n"));
    assert!(!passes_over("\r\n"));
    assert!(!passes_over("SIP/2.0 200 OK"));
}
