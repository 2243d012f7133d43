//! How the bridge logs in, and how it follows invitations into rooms.

use vstd::arithmetic::power2::{lemma2_to64, lemma_pow2_unfold, pow2};
use vstd::prelude::*;

use crate::text::same_text;

verus! {

/// How many seconds pass before the second attempt to join a room.
pub const FIRST_DELAY: u64 = 2;

/// No attempt follows on a pause that would be longer than so many seconds.
pub const LONGEST_DELAY: u64 = 3600;

/// How the bridge gets its session.
#[derive(Debug)]
pub enum Login {
    /// Take up a session from before.
    Restore { user_id: String, device_id: String, access_token: String },
    /// Log in with the password, under the given name for the device, and
    /// remember the session.
    Password { username: String, display_name: String },
}

/// What a [`Login`] stands for.
pub enum LoginView {
    Restore { user_id: Seq<char>, device_id: Seq<char>, access_token: Seq<char> },
    Password { username: Seq<char>, display_name: Seq<char> },
}

impl View for Login {
    type V = LoginView;

    open spec fn view(&self) -> LoginView {
        match self {
            Login::Restore { user_id, device_id, access_token } => LoginView::Restore {
                user_id: user_id@,
                device_id: device_id@,
                access_token: access_token@,
            },
            Login::Password { username, display_name } => LoginView::Password {
                username: username@,
                display_name: display_name@,
            },
        }
    }
}

/// How a user gets a session: the one from before where one is remembered, given
/// by its token and its device.
pub open spec fn login_of(
    username: Seq<char>,
    remembered: Option<(Seq<char>, Seq<char>)>,
) -> LoginView {
    match remembered {
        Some((access_token, device_id)) => LoginView::Restore {
            user_id: username,
            device_id,
            access_token,
        },
        None => LoginView::Password { username, display_name: "autojoin bot"@ },
    }
}

/// How a user gets a session, where `remembered` is the token and the device of
/// the one from before.
pub fn plan_login(username: &str, remembered: Option<(String, String)>) -> (login: Login)
    ensures
        login@ == login_of(
            username@,
            match remembered {
                Some((access_token, device_id)) => Some((access_token@, device_id@)),
                None => None,
            },
        ),
{
    match remembered {
        Some((access_token, device_id)) => Login::Restore {
            user_id: username.to_owned(),
            device_id,
            access_token,
        },
        None => Login::Password {
            username: username.to_owned(),
            display_name: "autojoin bot".to_owned(),
        },
    }
}

/// A user whose session is remembered.
#[derive(Debug)]
pub struct StoredUser {
    pub username: String,
    pub access_token: String,
    pub device_id: String,
}

/// What a [`StoredUser`] stands for.
pub struct StoredUserView {
    pub username: Seq<char>,
    pub access_token: Seq<char>,
    pub device_id: Seq<char>,
}

impl View for StoredUser {
    type V = StoredUserView;

    open spec fn view(&self) -> StoredUserView {
        StoredUserView {
            username: self.username@,
            access_token: self.access_token@,
            device_id: self.device_id@,
        }
    }
}

/// What is remembered after a login: the session that a password gave, and
/// nothing where a session from before was taken up.
pub open spec fn stored_after(
    login: LoginView,
    user_id: Seq<char>,
    access_token: Seq<char>,
    device_id: Seq<char>,
) -> Option<StoredUserView> {
    match login {
        LoginView::Restore { .. } => None,
        LoginView::Password { .. } => Some(
            StoredUserView { username: user_id, access_token, device_id },
        ),
    }
}

/// What is to be remembered after a login, given the session that it led to.
pub fn user_to_store(
    login: &Login,
    user_id: String,
    access_token: String,
    device_id: String,
) -> (stored: Option<StoredUser>)
    ensures
        match stored {
            Some(user) => stored_after(login@, user_id@, access_token@, device_id@) == Some(user@),
            None => stored_after(login@, user_id@, access_token@, device_id@) is None,
        },
{
    match login {
        Login::Restore { .. } => None,
        Login::Password { .. } => Some(
            StoredUser { username: user_id, access_token, device_id },
        ),
    }
}

/// The token and the device that a store of users holds for a name.
pub open spec fn remembered_in(
    users: Map<Seq<char>, (Seq<char>, Seq<char>)>,
    username: Seq<char>,
) -> Option<(Seq<char>, Seq<char>)> {
    if users.dom().contains(username) {
        Some(users[username])
    } else {
        None
    }
}

/// A store of users after one more was remembered, if one was.
pub open spec fn users_after(
    users: Map<Seq<char>, (Seq<char>, Seq<char>)>,
    stored: Option<StoredUserView>,
) -> Map<Seq<char>, (Seq<char>, Seq<char>)> {
    match stored {
        Some(user) => users.insert(user.username, (user.access_token, user.device_id)),
        None => users,
    }
}

/// Whoever logs in under their own identifier is not asked for the password a
/// second time: the second login takes up the session of the first, with the very
/// token and device, and leaves the store of users as it is.
pub proof fn law_second_login_takes_up_session(
    users: Map<Seq<char>, (Seq<char>, Seq<char>)>,
    username: Seq<char>,
    access_token: Seq<char>,
    device_id: Seq<char>,
    later_token: Seq<char>,
    later_device: Seq<char>,
)
    ensures
        ({
            let first = login_of(username, remembered_in(users, username));
            let between = users_after(
                users,
                stored_after(first, username, access_token, device_id),
            );
            let second = login_of(username, remembered_in(between, username));
            &&& first is Password ==> second == (LoginView::Restore {
                user_id: username,
                device_id,
                access_token,
            })
            &&& first is Restore ==> second == first && between == users
            &&& users_after(
                between,
                stored_after(second, username, later_token, later_device),
            ) == between
        }),
{
}

/// Whether a text identifies a user.
pub uninterp spec fn is_user_id(text: Seq<char>) -> bool;

/// Whether a text identifies a user.
///
/// `matrix_sdk::ruma::OwnedUserId::try_from` depends on the text alone: it takes a
/// local part and the name of a server, with the signs before and between them.
#[verifier::external_body]
fn read_user_id(text: &str) -> (valid: bool)
    ensures
        valid == is_user_id(text@),
{
    matrix_sdk::ruma::OwnedUserId::try_from(text).is_ok()
}

/// Whether a text identifies a user, so that a session of that user can be taken
/// up.
pub fn check_user_id(text: &str) -> (valid: bool)
    ensures
        valid == is_user_id(text@),
{
    read_user_id(text)
}

/// Whether a change of membership invites the bridge itself.
pub fn concerns_bridge(state_key: &str, user_id: &str) -> (concerns: bool)
    ensures
        concerns == (state_key@ == user_id@),
{
    same_text(state_key, user_id)
}

/// How far the bridge has come in joining a room.
#[derive(Clone, Copy, Debug, PartialEq, Eq, Structural)]
pub enum JoinPhase {
    /// An attempt is under way. If it fails, the pause lasts so many seconds.
    Joining { delay: u64 },
    /// A pause of so many seconds is under way.
    Pausing { delay: u64 },
    /// The room was joined.
    Joined,
    /// The bridge has given up.
    GivenUp,
}

/// What happened on the way into a room.
#[derive(Clone, Copy, Debug, PartialEq, Eq, Structural)]
pub enum JoinEvent {
    Succeeded,
    Failed,
    PauseOver,
}

/// What to do on the way into a room.
#[derive(Clone, Copy, Debug, PartialEq, Eq, Structural)]
pub enum JoinAction {
    /// Try to join.
    Join,
    /// Let so many seconds pass.
    Pause(u64),
    /// Nothing more.
    Stop,
}

impl JoinPhase {
    /// Whether a pause in this phase is short enough.
    pub open spec fn is_valid(self) -> bool {
        match self {
            JoinPhase::Joining { delay } => 0 < delay <= LONGEST_DELAY,
            JoinPhase::Pausing { delay } => 0 < delay <= LONGEST_DELAY,
            _ => true,
        }
    }
}

/// What each phase asks for.
pub open spec fn join_action(phase: JoinPhase) -> JoinAction {
    match phase {
        JoinPhase::Joining { .. } => JoinAction::Join,
        JoinPhase::Pausing { delay } => JoinAction::Pause(delay),
        JoinPhase::Joined => JoinAction::Stop,
        JoinPhase::GivenUp => JoinAction::Stop,
    }
}

/// The first phase of joining a room.
pub open spec fn join_begun() -> JoinPhase {
    JoinPhase::Joining { delay: FIRST_DELAY }
}

/// How joining goes on. What a phase does not wait for changes nothing.
pub open spec fn join_stepped(phase: JoinPhase, event: JoinEvent) -> JoinPhase {
    match (phase, event) {
        (JoinPhase::Joining { .. }, JoinEvent::Succeeded) => JoinPhase::Joined,
        (JoinPhase::Joining { delay }, JoinEvent::Failed) => JoinPhase::Pausing { delay },
        (JoinPhase::Pausing { delay }, JoinEvent::PauseOver) => if 2 * delay > LONGEST_DELAY {
            JoinPhase::GivenUp
        } else {
            JoinPhase::Joining { delay: (2 * delay) as u64 }
        },
        (phase, _) => phase,
    }
}

/// Begins to join a room.
pub fn begin_join() -> (begun: (JoinPhase, JoinAction))
    ensures
        begun == (join_begun(), join_action(join_begun())),
        begun.0.is_valid(),
{
    (JoinPhase::Joining { delay: FIRST_DELAY }, JoinAction::Join)
}

/// How joining goes on when something happens.
pub fn step_join(phase: JoinPhase, event: JoinEvent) -> (outcome: (JoinPhase, JoinAction))
    requires
        phase.is_valid(),
    ensures
        outcome == (join_stepped(phase, event), join_action(join_stepped(phase, event))),
        outcome.0.is_valid(),
{
    let next = match (phase, event) {
        (JoinPhase::Joining { .. }, JoinEvent::Succeeded) => JoinPhase::Joined,
        (JoinPhase::Joining { delay }, JoinEvent::Failed) => JoinPhase::Pausing { delay },
        (JoinPhase::Pausing { delay }, JoinEvent::PauseOver) => if 2 * delay > LONGEST_DELAY {
            JoinPhase::GivenUp
        } else {
            JoinPhase::Joining { delay: 2 * delay }
        },
        (phase, _) => phase,
    };
    let action = match next {
        JoinPhase::Joining { .. } => JoinAction::Join,
        JoinPhase::Pausing { delay } => JoinAction::Pause(delay),
        JoinPhase::Joined => JoinAction::Stop,
        JoinPhase::GivenUp => JoinAction::Stop,
    };
    (next, action)
}

/// Where joining stands after so many attempts in a row have failed, each with
/// its pause.
pub open spec fn after_failures(attempts: nat) -> JoinPhase
    decreases attempts,
{
    if attempts == 0 {
        join_begun()
    } else {
        join_stepped(
            join_stepped(after_failures((attempts - 1) as nat), JoinEvent::Failed),
            JoinEvent::PauseOver,
        )
    }
}

/// How many seconds the pauses of so many failed attempts last in all.
pub open spec fn paused_for(attempts: nat) -> nat
    decreases attempts,
{
    if attempts == 0 {
        0
    } else {
        paused_for((attempts - 1) as nat) + match join_stepped(
            after_failures((attempts - 1) as nat),
            JoinEvent::Failed,
        ) {
            JoinPhase::Pausing { delay } => delay as nat,
            _ => 0,
        }
    }
}

/// The pause doubles with every failed attempt, and the bridge gives up after
/// the eleventh, for good.
pub proof fn law_pauses_double(attempts: nat)
    ensures
        attempts < 11 ==> after_failures(attempts) == (JoinPhase::Joining {
            delay: pow2(attempts + 1) as u64,
        }) && pow2(attempts + 1) <= LONGEST_DELAY && paused_for(attempts) == pow2(attempts + 1)
            - 2,
        attempts >= 11 ==> after_failures(attempts) == JoinPhase::GivenUp && paused_for(attempts)
            == 4094,
    decreases attempts,
{
    lemma2_to64();
    if attempts > 0 {
        law_pauses_double((attempts - 1) as nat);
        lemma_pow2_unfold(attempts + 1);
        if attempts <= 11 {
            assert(attempts == 1 || attempts == 2 || attempts == 3 || attempts == 4 || attempts
                == 5 || attempts == 6 || attempts == 7 || attempts == 8 || attempts == 9
                || attempts == 10 || attempts == 11);
        }
    }
}

/// A room that was joined stays joined, and an attempt that succeeds ends the
/// attempts at any time.
pub proof fn law_success_ends_joining(attempts: nat, event: JoinEvent)
    requires
        attempts < 11,
    ensures
        join_stepped(after_failures(attempts), JoinEvent::Succeeded) == JoinPhase::Joined,
        join_stepped(JoinPhase::Joined, event) == JoinPhase::Joined,
        join_stepped(JoinPhase::GivenUp, event) == JoinPhase::GivenUp,
{
    law_pauses_double(attempts);
}

} // verus!
