//! Dialling out.

use sip_bridge::auth::SipAuthInfo;
use sip_bridge::call::{dial_uri, may_go_on, Call, CallAction, CallEvent, CallPhase};
use sip_bridge::error::SipError;
use sip_bridge::message::{Response, Scheme, SipMessage};
use sip_bridge::sip::{ack_request_from, invite_request_from, new_user_uri, CallID};

const CNONCE: &str = "67e55044-10b1-426f-9247-bb680e5fe0c8";
const SDP: &str = "v=0\r\ns=-\r\n";
const ANSWER: &str = "v=0\r\no=- 1 2 IN IP4 0.0.0.0\r\ns=-\r\nt=0 0\r\n";

fn account() -> SipAuthInfo {
    SipAuthInfo {
        address: "pbx.example.com".to_owned(),
        username: "bridge".to_owned(),
        password: "hunter2".to_owned(),
    }
}

fn call(address: &str) -> Call {
    match Call::new(address.to_owned(), CallID("abc".to_owned()), account()) {
        Ok(call) => call,
        Err(error) => panic!("{:?}", error),
    }
}

fn response(text: &str) -> Response {
    Response::parse(text).unwrap()
}

fn challenge() -> Response {
    response(
        "SIP/2.0 401 Unauthorized\r\n\
         Via: SIP/2.0/WSS 10.0.0.7;rport=1;branch=z9hG4bKnashds7\r\n\
         WWW-Authenticate: Digest realm=\"a\", nonce=\"n\", algorithm=MD5\r\n\r\n",
    )
}

fn acceptance(headers: &str, body: &str) -> Response {
    response(&format!("SIP/2.0 200 OK\r\n{}\r\n{}", headers, body))
}

fn go(call: &Call, phase: CallPhase, event: CallEvent) -> (CallPhase, CallAction) {
    call.step_with(phase, event, Some("10.0.0.7"), CNONCE)
}

fn fails_with(outcome: (CallPhase, CallAction), error: SipError) {
    assert!(matches!(outcome.0, CallPhase::Finished));
    match outcome.1 {
        CallAction::Fail(found) => assert_eq!(found, error),
        other => panic!("{:?}", other),
    }
}

fn sent(action: &CallAction) -> (String, usize) {
    match action {
        CallAction::Send(message, count) => (message.text(), *count),
        other => panic!("{:?}", other),
    }
}

fn invite() -> SipMessage {
    SipMessage::Request(invite_request_from(
        &CallID("abc".to_owned()),
        &new_user_uri("pbx.example.com", "4711"),
        SDP,
        "pbx.example.com",
        "bridge",
        "10.0.0.7",
    ))
}

#[test]
fn dialled_texts_are_addresses_or_users() {
    assert_eq!(
        dial_uri("sip:alice@example.com:5061", "s").unwrap().text(),
        "sip:alice@example.com:5061"
    );
    assert_eq!(dial_uri("4711", "s").unwrap().text(), "sip:4711@s");
    let secure = dial_uri("sips:bob@example.org", "pbx.org").unwrap();
    assert!(matches!(secure.scheme, Some(Scheme::Sips)));
    assert_eq!(secure.auth.as_ref().unwrap().user, "bob");
    assert_eq!(secure.host, "example.org");
    assert_eq!(secure.text(), "sips:bob@example.org");
    assert_eq!(dial_uri("sipsy", "s").unwrap().text(), "sip:sipsy@s");
    assert_eq!(dial_uri("sips:", "s").err(), Some(SipError::InvalidUri));
    assert_eq!(dial_uri("sip:", "s").err(), Some(SipError::InvalidUri));
    assert!(rsip::Uri::try_from("sip:").is_err());
    assert_eq!(
        Call::new("sip:".to_owned(), CallID("abc".to_owned()), account()).err(),
        Some(SipError::InvalidUri)
    );
}

#[test]
fn secure_addresses_are_invited_as_they_are() {
    let call = call("sips:bob@example.org");
    let (_, action) = call.invite_from(SDP, Some("10.0.0.7"));
    let (text, count) = sent(&action);
    assert_eq!(count, 1);
    assert!(text.starts_with("INVITE sips:bob@example.org SIP/2.0\r\n"));
    assert!(text.contains("To: <sips:bob@example.org>\r\n"));
}

#[test]
fn calls_are_set_up() {
    let call = call("4711");
    let (phase, action) = call.invite_from(SDP, Some("10.0.0.7"));
    assert_eq!(sent(&action), (invite().text(), 1));

    let (phase, action) = go(&call, phase, CallEvent::Responses(vec![challenge()]));
    let callee = new_user_uri("pbx.example.com", "4711");
    let ack = ack_request_from(
        &CallID("abc".to_owned()),
        1,
        &callee,
        "z9hG4bKnashds7",
        &callee,
        "pbx.example.com",
        "bridge",
        "10.0.0.7",
    );
    assert_eq!(sent(&action), (ack.text(), 0));

    let (phase, action) = go(&call, phase, CallEvent::Sent);
    let (second, count) = sent(&action);
    assert_eq!(count, 2);
    let expected = invite()
        .text()
        .replace("branch=z9hG4bKnashds7", "branch=12345")
        .replace("CSeq: 1 INVITE", "CSeq: 2 INVITE");
    let (head, rest) = second.split_once("Authorization: ").unwrap();
    let (authorization, body) = rest.split_once("\r\n").unwrap();
    assert_eq!(format!("{}{}", head, body), expected);
    assert!(authorization.starts_with("Digest username=\"bridge\", realm=\"a\", nonce=\"n\", uri=\"sip:4711@pbx.example.com\", response=\""));
    assert!(authorization.ends_with(&format!("cnonce=\"{}\"", CNONCE)));

    let accepted = acceptance(
        "Via: SIP/2.0/WSS 10.0.0.7;branch=12345\r\nContact: <sip:4711@10.1.2.3:8088>\r\n",
        ANSWER,
    );
    let trying = response("SIP/2.0 100 Trying\r\n\r\n");
    let (phase, action) = go(&call, phase, CallEvent::Responses(vec![trying, accepted]));
    match action {
        CallAction::SetDescription(description) => assert_eq!(description, ANSWER),
        other => panic!("{:?}", other),
    }

    assert!(may_go_on(&phase));
    let (phase, action) = go(&call, phase, CallEvent::DescriptionSet);
    let ack = ack_request_from(
        &CallID("abc".to_owned()),
        2,
        &dial_uri("sip:4711@10.1.2.3:8088", "").unwrap(),
        "12345",
        &callee,
        "pbx.example.com",
        "bridge",
        "10.0.0.7",
    );
    assert_eq!(sent(&action), (ack.text(), 0));

    let (phase, action) = go(&call, phase, CallEvent::Sent);
    assert!(matches!(phase, CallPhase::Finished));
    match action {
        CallAction::Notify(notice) => {
            assert_eq!(notice, "Dialed out to 4711 with call ID 0");
        }
        other => panic!("{:?}", other),
    }
    let (phase, action) = go(&call, phase, CallEvent::Sent);
    assert!(matches!(phase, CallPhase::Finished));
    assert!(matches!(action, CallAction::Wait));
}

#[test]
fn first_response_is_taken_as_the_challenge() {
    let call = call("4711");
    let other = response("SIP/2.0 500 Server Error\r\nVia: SIP/2.0/WSS a;branch=x\r\n\r\n");
    let (phase, action) =
        go(&call, CallPhase::Invited(invite()), CallEvent::Responses(vec![other, challenge()]));
    assert!(sent(&action).0.contains("branch=x\r\n"));
    fails_with(go(&call, phase, CallEvent::Sent), SipError::MissingChallenge);
}

#[test]
fn calls_fail_while_challenged() {
    let call = call("4711");
    let at = || CallPhase::Invited(invite());
    fails_with(go(&call, at(), CallEvent::Responses(vec![])), SipError::NoResponse);
    let bare = response("SIP/2.0 200 OK\r\n\r\n");
    fails_with(go(&call, at(), CallEvent::Responses(vec![bare])), SipError::MissingVia);
    let broken = response("SIP/2.0 200 OK\r\nVia: nonsense\r\n\r\n");
    fails_with(go(&call, at(), CallEvent::Responses(vec![broken])), SipError::InvalidVia);
    let branchless = response("SIP/2.0 200 OK\r\nVia: SIP/2.0/WSS a\r\n\r\n");
    fails_with(go(&call, at(), CallEvent::Responses(vec![branchless])), SipError::MissingBranch);
    fails_with(
        call.step_with(at(), CallEvent::Responses(vec![challenge()]), None, CNONCE),
        SipError::NoLocalAddress,
    );
    fails_with(call.invite_from(SDP, None), SipError::NoLocalAddress);
    let answered = CallPhase::Challenged {
        invite: SipMessage::Response(challenge()),
        response: challenge(),
    };
    fails_with(go(&call, answered, CallEvent::Sent), SipError::NotARequest);
    let (phase, action) = go(&call, at(), CallEvent::Sent);
    assert!(matches!(phase, CallPhase::Invited(_)));
    assert!(matches!(action, CallAction::Wait));
}

#[test]
fn calls_fail_while_accepted() {
    let call = call("4711");
    let at = || CallPhase::Answered;
    fails_with(go(&call, at(), CallEvent::Responses(vec![])), SipError::NoResponse);
    let mut broken = acceptance("", "");
    broken.body = vec![0xff];
    fails_with(go(&call, at(), CallEvent::Responses(vec![broken])), SipError::InvalidUtf8);
    let unreadable = acceptance("", "hello");
    fails_with(
        go(&call, at(), CallEvent::Responses(vec![unreadable])),
        SipError::InvalidDescription,
    );
    let lost = CallPhase::Accepted(acceptance("", ""));
    assert!(!may_go_on(&lost));
    let unread = CallPhase::Accepted(acceptance("Contact: \r\n", ""));
    assert!(may_go_on(&unread));
    fails_with(go(&call, unread, CallEvent::DescriptionSet), SipError::InvalidContact);
    let bare = CallPhase::Accepted(acceptance("Contact: <sip:a@b>\r\n", ""));
    fails_with(go(&call, bare, CallEvent::DescriptionSet), SipError::MissingVia);
    let whole = CallPhase::Accepted(acceptance(
        "Contact: <sip:a@b>\r\nVia: SIP/2.0/WSS a;branch=x\r\n",
        "",
    ));
    fails_with(
        call.step_with(whole, CallEvent::DescriptionSet, None, CNONCE),
        SipError::NoLocalAddress,
    );
}

#[test]
fn acknowledgements_need_target_and_branch() {
    let call = call("4711");
    let target = || Ok(new_user_uri("a", "b"));
    let branch = || Ok("x".to_owned());
    let next = || CallPhase::Acknowledged;
    let acknowledge = |target, branch, address| call.acknowledge(7, target, branch, address, next());
    let error = SipError::InvalidContact;
    fails_with(acknowledge(Err(error), Err(SipError::MissingVia), None), error);
    fails_with(acknowledge(target(), Err(SipError::MissingVia), None), SipError::MissingVia);
    fails_with(acknowledge(target(), branch(), None), SipError::NoLocalAddress);
    let (phase, action) = acknowledge(target(), branch(), Some("10.0.0.7"));
    assert!(matches!(phase, CallPhase::Acknowledged));
    let (text, count) = sent(&action);
    assert_eq!(count, 0);
    assert!(text.starts_with("ACK sip:b@a SIP/2.0\r\nVia: SIP/2.0/WSS 10.0.0.7;branch=x\r\n"));
    assert!(text.contains("CSeq: 7 ACK\r\n"));
}

#[test]
fn calls_go_on_with_what_the_machine_gives() {
    let call = call("4711");
    let challenged = CallPhase::Challenged { invite: invite(), response: challenge() };
    let (phase, action) = call.step(challenged, CallEvent::Sent);
    assert!(matches!(phase, CallPhase::Answered));
    let (text, _) = sent(&action);
    let cnonce = text.split("cnonce=\"").nth(1).unwrap().split('"').next().unwrap();
    assert_eq!(cnonce.len(), 36);
    let again = CallPhase::Challenged { invite: invite(), response: challenge() };
    let (_, action) = call.step_with(again, CallEvent::Sent, None, cnonce);
    assert_eq!(sent(&action).0, text);
    let local = local_ip_address::local_ip().ok();
    match (call.invite(SDP).1, &local) {
        (CallAction::Send(message, 1), Some(local)) => {
            assert!(message.text().contains(&format!("Via: SIP/2.0/WSS {};branch=", local)));
        }
        (CallAction::Fail(error), None) => assert_eq!(error, SipError::NoLocalAddress),
        (other, _) => panic!("{:?}", other),
    }
}
