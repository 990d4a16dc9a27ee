//! The login handshake: a code is shown, and its state is polled until a
//! companion device confirms it.
//!
//! The handshake is a machine of three phases, `Idle → Polling →
//! {Authenticated | Idle}`. The shell runs the loop: as long as
//! [`LoginSession::next_action`] says so it waits, polls, and reports the
//! answer to [`BiliTicket::login_polled`].

use vstd::prelude::*;
use vstd::string::StringExecFns;
use crate::api::qr_image_url;
use crate::client::{BiliTicket, BiliTicketView};
use crate::config::ConfigView;
use crate::error::PlatformError;
use crate::text::escape_ampersands;

verus! {

/// How long the loop waits before each poll, in milliseconds.
pub const LOGIN_POLL_INTERVAL_MS: u64 = 3000;

/// The status code with which the platform confirms a login.
pub const LOGIN_CONFIRMED: i64 = 0;

/// Where a handshake stands.
#[derive(Clone, Copy, Debug, PartialEq, Eq, Structural)]
pub enum LoginPhase {
    /// Given up before anybody confirmed.
    Idle,
    /// Waiting for the confirmation.
    Polling,
    /// Confirmed: the session was written.
    Authenticated,
}

/// What the loop does next.
#[derive(Clone, Copy, Debug, PartialEq, Eq, Structural)]
pub enum LoginAction {
    /// Wait for this many milliseconds, then poll.
    PollAfter { wait_ms: u64 },
    /// Leave the loop.
    Stop,
}

/// What the loop of a handshake in `phase` does next: while polling it
/// waits for the interval and polls, otherwise it stops.
pub open spec fn action_in(phase: LoginPhase) -> LoginAction {
    if phase == LoginPhase::Polling {
        LoginAction::PollAfter { wait_ms: LOGIN_POLL_INTERVAL_MS }
    } else {
        LoginAction::Stop
    }
}

/// One handshake: the key to poll with, and the phase it is in.
#[derive(Debug)]
pub struct LoginSession {
    qrcode_key: String,
    phase: LoginPhase,
}

impl LoginSession {
    /// The phase of the handshake.
    pub closed spec fn spec_phase(&self) -> LoginPhase {
        self.phase
    }

    /// The key to poll with.
    pub closed spec fn spec_qrcode_key(&self) -> Seq<char> {
        self.qrcode_key@
    }

    /// The phase of the handshake.
    #[verifier::when_used_as_spec(spec_phase)]
    pub fn phase(&self) -> (phase: LoginPhase)
        ensures
            phase == self.spec_phase(),
    {
        self.phase
    }

    /// What the loop does next: while the handshake is polling it waits
    /// for the interval and polls, otherwise it stops.
    pub fn next_action(&self) -> (action: LoginAction)
        ensures
            action == action_in(self.spec_phase()),
    {
        match self.phase {
            LoginPhase::Polling => LoginAction::PollAfter { wait_ms: LOGIN_POLL_INTERVAL_MS },
            _ => LoginAction::Stop,
        }
    }

    /// The key to poll with.
    pub fn qrcode_key(&self) -> (key: &str)
        ensures
            key@ == self.spec_qrcode_key(),
    {
        self.qrcode_key.as_str()
    }
}

/// The cookie that an answer to a poll grants: the one in its headers, where
/// the status code confirms the login. A failed poll, another status code,
/// or a confirmation without a cookie grants nothing.
pub open spec fn granted(answer: Result<(i64, String, Option<String>), PlatformError>) -> Option<
    Seq<char>,
> {
    match answer {
        Ok((code, _, Some(cookie))) => if code == LOGIN_CONFIRMED {
            Some(cookie@)
        } else {
            None
        },
        _ => None,
    }
}

/// The client together with the phase of its handshake.
pub struct LoginState {
    pub client: BiliTicketView,
    pub phase: LoginPhase,
}

impl LoginState {
    /// Whether an answer that grants `grant` is a login: only a grant that
    /// arrives while polling is one.
    pub open spec fn logs_in(self, grant: Option<Seq<char>>) -> bool {
        self.phase == LoginPhase::Polling && grant is Some
    }

    /// The state after an answer that grants `grant`. A login writes the
    /// cookie and the flag, says so on the terminal, releases the guard and
    /// ends the handshake; any other answer changes nothing.
    pub open spec fn polled(self, grant: Option<Seq<char>>) -> LoginState {
        if self.logs_in(grant) {
            LoginState {
                client: BiliTicketView {
                    terminal_buffer: self.client.terminal_buffer + "登录成功!\n"@,
                    config: ConfigView {
                        cookie: grant->0,
                        is_login: true,
                        ..self.client.config
                    },
                    logging: false,
                    ..self.client
                },
                phase: LoginPhase::Authenticated,
            }
        } else {
            self
        }
    }

    /// The state after a run of answers, given by what each grants.
    pub open spec fn after(self, grants: Seq<Option<Seq<char>>>) -> LoginState
        decreases grants.len(),
    {
        if grants.len() == 0 {
            self
        } else {
            self.after(grants.drop_last()).polled(grants.last())
        }
    }

    /// How often a run of answers logs in.
    pub open spec fn logins(self, grants: Seq<Option<Seq<char>>>) -> nat
        decreases grants.len(),
    {
        if grants.len() == 0 {
            0
        } else if self.after(grants.drop_last()).logs_in(grants.last()) {
            self.logins(grants.drop_last()) + 1
        } else {
            self.logins(grants.drop_last())
        }
    }
}

/// A handshake that is not polling is over: whatever answers still arrive,
/// nothing changes and nobody is logged in by them.
pub proof fn lemma_login_is_final(state: LoginState, grants: Seq<Option<Seq<char>>>)
    requires
        state.phase != LoginPhase::Polling,
    ensures
        state.after(grants) == state,
        state.logins(grants) == 0,
    decreases grants.len(),
{
    if grants.len() > 0 {
        lemma_login_is_final(state, grants.drop_last());
    }
}

/// While no answer grants a cookie the handshake keeps polling and the
/// client stays as it was.
pub proof fn lemma_login_waits(state: LoginState, grants: Seq<Option<Seq<char>>>)
    requires
        forall|i: int| 0 <= i < grants.len() ==> grants[i] is None,
    ensures
        state.after(grants) == state,
        state.logins(grants) == 0,
        state.phase == LoginPhase::Polling ==> action_in(state.after(grants).phase)
            == (LoginAction::PollAfter { wait_ms: LOGIN_POLL_INTERVAL_MS }),
    decreases grants.len(),
{
    if grants.len() > 0 {
        lemma_login_waits(state, grants.drop_last());
    }
}

/// A polling handshake logs in exactly once: at the first answer that
/// grants a cookie. After the run the client is authenticated with that
/// cookie, whatever answers came before and whatever came after.
pub proof fn lemma_login_happens_once(
    state: LoginState,
    grants: Seq<Option<Seq<char>>>,
    first: int,
)
    requires
        state.phase == LoginPhase::Polling,
        0 <= first < grants.len(),
        grants[first] is Some,
        forall|i: int| 0 <= i < first ==> grants[i] is None,
    ensures
        state.logins(grants) == 1,
        state.after(grants).phase == LoginPhase::Authenticated,
        state.after(grants).client.config.is_login,
        state.after(grants).client.config.cookie == grants[first]->0,
        state.after(grants) == state.polled(grants[first]),
        action_in(state.after(grants).phase) == LoginAction::Stop,
    decreases grants.len(),
{
    let earlier = grants.drop_last();
    if first == grants.len() - 1 {
        lemma_login_waits(state, earlier);
    } else {
        lemma_login_happens_once(state, earlier, first);
    }
}

impl BiliTicket {
    /// Whether a login is to be started: nobody is logged in and no
    /// handshake is running. Starting one while another runs is the
    /// caller's error; this is the guard against it.
    pub fn login_due(&self) -> (due: bool)
        ensures
            due == (!self.config.is_login && !self.logging),
    {
        !self.config.is_login && !self.logging
    }

    /// Starts a handshake over a freshly generated code: `url` is what the
    /// code stands for and `qrcode_key` is the key to poll with.
    ///
    /// The picture of the code is put on show, a line invites to scan it,
    /// and the guard against a second handshake is set. The handshake that
    /// comes back is polling.
    pub fn do_login(&mut self, url: &str, qrcode_key: String) -> (session: LoginSession)
        ensures
            final(self)@ == (BiliTicketView {
                login_qr_url: "https://api.pwmqr.com/qrcode/create/?url="@ + escape_ampersands(
                    url@,
                ),
                show_login_qr: true,
                logging: true,
                ..old(self)@
            }).printed("请扫描二维码登录:\n"@),
            session.spec_phase() == LoginPhase::Polling,
            session.spec_qrcode_key() == qrcode_key@,
    {
        self.login_qr_url = qr_image_url(url);
        self.print_terminal("请扫描二维码登录:\n");
        self.show_login_qr = true;
        self.logging = true;
        LoginSession { qrcode_key, phase: LoginPhase::Polling }
    }

    /// Takes the answer to one poll of a handshake and says what the loop
    /// does next, as [`LoginSession::next_action`] does.
    ///
    /// The answer that confirms the login and carries a cookie logs in:
    /// the cookie and the flag are written, once, and the loop stops. Any
    /// other answer, a failed poll among them, counts as "not yet": nothing
    /// changes and the loop polls again. A handshake that is over stops the
    /// loop whatever arrives.
    pub fn login_polled(
        &mut self,
        session: &mut LoginSession,
        answer: Result<(i64, String, Option<String>), PlatformError>,
    ) -> (action: LoginAction)
        ensures
            (LoginState { client: final(self)@, phase: final(session).spec_phase() }) == (
            LoginState { client: old(self)@, phase: old(session).spec_phase() }).polled(
                granted(answer),
            ),
            action == action_in(final(session).spec_phase()),
            final(session).spec_qrcode_key() == old(session).spec_qrcode_key(),
    {
        match session.phase {
            LoginPhase::Polling => {},
            _ => {
                return session.next_action();
            },
        }
        match answer {
            Ok((code, _, Some(cookie))) => {
                if code == LOGIN_CONFIRMED {
                    self.config.cookie = cookie;
                    self.config.is_login = true;
                    self.terminal_buffer.append("登录成功!\n");
                    self.logging = false;
                    session.phase = LoginPhase::Authenticated;
                }
            },
            _ => {},
        }
        session.next_action()
    }

    /// Gives a handshake up: a polling handshake goes back to idle and the
    /// guard is released, so that another login can start. A handshake that
    /// is over stays as it is.
    pub fn abandon_login(&mut self, session: &mut LoginSession)
        ensures
            old(session).spec_phase() == LoginPhase::Polling ==> final(session).spec_phase()
                == LoginPhase::Idle && final(self)@ == (BiliTicketView {
                logging: false,
                ..old(self)@
            }),
            old(session).spec_phase() != LoginPhase::Polling ==> final(session).spec_phase()
                == old(session).spec_phase() && final(self)@ == old(self)@,
            final(session).spec_qrcode_key() == old(session).spec_qrcode_key(),
    {
        match session.phase {
            LoginPhase::Polling => {
                session.phase = LoginPhase::Idle;
                self.logging = false;
            },
            _ => {},
        }
    }
}

} // verus!
