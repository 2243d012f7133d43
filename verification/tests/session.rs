//! Logging in, and joining rooms.

use sip_bridge::session::{
    begin_join, check_user_id, concerns_bridge, plan_login, step_join, user_to_store,
    JoinAction, JoinEvent, JoinPhase, Login,
};

#[test]
fn remembered_sessions_are_taken_up() {
    match plan_login("@b:example.com", Some(("token".to_owned(), "DEVICE".to_owned()))) {
        Login::Restore { user_id, device_id, access_token } => {
            assert_eq!(user_id, "@b:example.com");
            assert_eq!(device_id, "DEVICE");
            assert_eq!(access_token, "token");
        }
        other => panic!("{:?}", other),
    }
    match plan_login("@b:example.com", None) {
        Login::Password { username, display_name } => {
            assert_eq!(username, "@b:example.com");
            assert_eq!(display_name, "autojoin bot");
        }
        other => panic!("{:?}", other),
    }
}

#[test]
fn a_second_login_takes_up_the_session() {
    let name = || "@b:example.com".to_owned();
    let first = plan_login(&name(), None);
    let stored =
        user_to_store(&first, name(), "token".to_owned(), "DEVICE".to_owned()).unwrap();
    assert_eq!(stored.username, name());
    let second = plan_login(&name(), Some((stored.access_token, stored.device_id)));
    match &second {
        Login::Restore { user_id, device_id, access_token } => {
            assert_eq!(*user_id, name());
            assert_eq!(device_id, "DEVICE");
            assert_eq!(access_token, "token");
        }
        other => panic!("{:?}", other),
    }
    assert!(user_to_store(&second, name(), "other".to_owned(), "OTHER".to_owned()).is_none());
}

#[test]
fn user_identifiers_are_checked() {
    assert!(check_user_id("@b:example.com"));
    assert!(check_user_id("@b.c:example.com:8448"));
    for text in ["", "b", "@b", "b:example.com", "@b:", "@b:exa mple", "@b:example.com:x"] {
        assert!(!check_user_id(text), "{}", text);
    }
}

#[test]
fn only_invitations_of_the_bridge_count() {
    assert!(concerns_bridge("@b:example.com", "@b:example.com"));
    assert!(!concerns_bridge("@a:example.com", "@b:example.com"));
}

#[test]
fn pauses_double_until_the_bridge_gives_up() {
    let (mut phase, mut action) = begin_join();
    let mut pauses: Vec<u64> = Vec::new();
    let mut attempts = 0;
    loop {
        let event = match action {
            JoinAction::Join => {
                attempts += 1;
                JoinEvent::Failed
            }
            JoinAction::Pause(seconds) => {
                pauses.push(seconds);
                JoinEvent::PauseOver
            }
            JoinAction::Stop => break,
        };
        (phase, action) = step_join(phase, event);
    }
    assert_eq!(phase, JoinPhase::GivenUp);
    assert_eq!(attempts, 11);
    assert_eq!(pauses, vec![2, 4, 8, 16, 32, 64, 128, 256, 512, 1024, 2048]);
    assert_eq!(pauses.iter().sum::<u64>(), 4094);
    assert_eq!(step_join(phase, JoinEvent::Succeeded), (phase, JoinAction::Stop));
}

#[test]
fn success_ends_joining() {
    let (phase, action) = begin_join();
    assert_eq!(phase, JoinPhase::Joining { delay: 2 });
    assert_eq!(action, JoinAction::Join);
    let (phase, action) = step_join(phase, JoinEvent::Succeeded);
    assert_eq!((phase, action), (JoinPhase::Joined, JoinAction::Stop));
    assert_eq!(step_join(phase, JoinEvent::Failed), (JoinPhase::Joined, JoinAction::Stop));
    let pausing = JoinPhase::Pausing { delay: 8 };
    assert_eq!(step_join(pausing, JoinEvent::Succeeded), (pausing, JoinAction::Pause(8)));
}
