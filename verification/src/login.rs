//! The check of the jump host's credentials: a session is set up, the
//! credentials are tried once, and the session is ended. The switch is not
//! touched.

use crate::credentials::{service_address, socket_address, Endpoint, EndpointCredentials};
use crate::outcome::{Report, RetrievalResult};
use crate::relay::{
    detail_text, failure_detail, RelayAction, RelayDirective, RelayEvent, RelayStimulus,
};
use vstd::prelude::*;

verus! {

/// How long connecting and authenticating may each take, in milliseconds.
pub const LOGIN_TIMEOUT_MS: u64 = 10_000;

/// What a check of the credentials has found, as text.
pub enum LoginFinding {
    /// Nothing yet.
    Pending,
    /// The jump host has accepted the credentials.
    Accepted,
    /// The jump host has answered no.
    Rejected,
    /// The authentication itself broke down.
    AuthFailed(Seq<char>),
    /// The jump host could not be reached.
    Unreachable(Seq<char>),
    /// The jump host did not answer in time.
    TimedOut,
}

/// What a check of the credentials has found.
#[derive(Debug, Clone, PartialEq, Eq)]
pub enum LoginOutcome {
    /// Nothing yet.
    Pending,
    /// The jump host has accepted the credentials.
    Accepted,
    /// The jump host has answered no.
    Rejected,
    /// The authentication itself broke down.
    AuthFailed(String),
    /// The jump host could not be reached.
    Unreachable(String),
    /// The jump host did not answer in time.
    TimedOut,
}

impl View for LoginOutcome {
    type V = LoginFinding;

    open spec fn view(&self) -> LoginFinding {
        match *self {
            LoginOutcome::Pending => LoginFinding::Pending,
            LoginOutcome::Accepted => LoginFinding::Accepted,
            LoginOutcome::Rejected => LoginFinding::Rejected,
            LoginOutcome::AuthFailed(detail) => LoginFinding::AuthFailed(detail@),
            LoginOutcome::Unreachable(detail) => LoginFinding::Unreachable(detail@),
            LoginOutcome::TimedOut => LoginFinding::TimedOut,
        }
    }
}

/// The message that tells the caller what the check has found.
pub open spec fn login_message(finding: LoginFinding) -> Seq<char> {
    match finding {
        LoginFinding::Pending => "Connexion au serveur Robont en cours"@,
        LoginFinding::Accepted => "Connexion au serveur Robont réussie"@,
        LoginFinding::Rejected => "Identifiants incorrects pour le serveur Robont"@,
        LoginFinding::AuthFailed(detail) => "Erreur d'authentification: "@ + detail,
        LoginFinding::Unreachable(detail) => "Impossible de se connecter au serveur Robont: "@
            + detail,
        LoginFinding::TimedOut => "Timeout lors de la connexion au serveur Robont"@,
    }
}

/// What the caller gets: success where the credentials were accepted, and
/// the message in either case.
pub open spec fn login_report(finding: LoginFinding) -> Report {
    Report {
        success: finding is Accepted,
        message: login_message(finding),
        configuration: None,
        hostname: None,
        execution_logs: None,
    }
}

impl LoginOutcome {
    /// What the caller gets: success where the credentials were accepted,
    /// and the message in either case.
    pub fn report(&self) -> (result: RetrievalResult)
        ensures
            result@ == login_report(self@),
    {
        let (success, message) = match self {
            LoginOutcome::Pending => (
                false,
                String::from_str("Connexion au serveur Robont en cours"),
            ),
            LoginOutcome::Accepted => (
                true,
                String::from_str("Connexion au serveur Robont réussie"),
            ),
            LoginOutcome::Rejected => (
                false,
                String::from_str("Identifiants incorrects pour le serveur Robont"),
            ),
            LoginOutcome::AuthFailed(detail) => {
                let mut message = String::from_str("Erreur d'authentification: ");
                message.append(detail.as_str());
                (false, message)
            },
            LoginOutcome::Unreachable(detail) => {
                let mut message = String::from_str(
                    "Impossible de se connecter au serveur Robont: ",
                );
                message.append(detail.as_str());
                (false, message)
            },
            LoginOutcome::TimedOut => (
                false,
                String::from_str("Timeout lors de la connexion au serveur Robont"),
            ),
        };
        RetrievalResult {
            success,
            message,
            configuration: None,
            hostname: None,
            execution_logs: None,
        }
    }
}

/// Where the check stands.
#[derive(Debug, Clone, Copy, PartialEq, Eq, Structural)]
pub enum LoginPhase {
    /// The transport to the jump host is being set up.
    Connecting,
    /// The jump host is checking the credentials.
    Authenticating,
    /// The session is being ended.
    Disconnecting,
    /// The result is there.
    Finished,
}

/// The state of a check, as text.
pub struct LoginState {
    pub jump: Endpoint,
    pub phase: LoginPhase,
    pub finding: LoginFinding,
}

/// The state in which a check sets out.
pub open spec fn initial_state(jump: Endpoint) -> LoginState {
    LoginState { jump, phase: LoginPhase::Connecting, finding: LoginFinding::Pending }
}

/// The state that follows `s` once `event` has come in.
pub open spec fn login_next(s: LoginState, event: RelayStimulus) -> LoginState {
    match s.phase {
        LoginPhase::Connecting => match event {
            RelayStimulus::Completed => LoginState { phase: LoginPhase::Authenticating, ..s },
            RelayStimulus::TimedOut => LoginState {
                phase: LoginPhase::Finished,
                finding: LoginFinding::TimedOut,
                ..s
            },
            _ => LoginState {
                phase: LoginPhase::Finished,
                finding: LoginFinding::Unreachable(failure_detail(event)),
                ..s
            },
        },
        LoginPhase::Authenticating => match event {
            RelayStimulus::Completed => LoginState {
                phase: LoginPhase::Disconnecting,
                finding: LoginFinding::Accepted,
                ..s
            },
            RelayStimulus::Refused => LoginState {
                phase: LoginPhase::Disconnecting,
                finding: LoginFinding::Rejected,
                ..s
            },
            _ => LoginState {
                phase: LoginPhase::Disconnecting,
                finding: LoginFinding::AuthFailed(failure_detail(event)),
                ..s
            },
        },
        LoginPhase::Disconnecting => LoginState { phase: LoginPhase::Finished, ..s },
        LoginPhase::Finished => s,
    }
}

/// What the check asks for in state `s`.
pub open spec fn login_pending(s: LoginState) -> RelayDirective {
    match s.phase {
        LoginPhase::Connecting => RelayDirective::Connect {
            address: service_address(s.jump.host),
            timeout_ms: LOGIN_TIMEOUT_MS,
        },
        LoginPhase::Authenticating => RelayDirective::Authenticate {
            username: s.jump.username,
            secret: s.jump.secret,
            timeout_ms: LOGIN_TIMEOUT_MS,
        },
        LoginPhase::Disconnecting => RelayDirective::Disconnect,
        LoginPhase::Finished => RelayDirective::Finish { result: login_report(s.finding) },
    }
}

/// The check of the jump host's credentials. It says what to do next, takes
/// what came of it, and ends with the result for the caller.
pub struct LoginCheck {
    jump: EndpointCredentials,
    phase: LoginPhase,
    outcome: LoginOutcome,
}

impl View for LoginCheck {
    type V = LoginState;

    closed spec fn view(&self) -> LoginState {
        LoginState { jump: self.jump@, phase: self.phase, finding: self.outcome@ }
    }
}

impl LoginCheck {
    /// A check of the credentials `jump`.
    pub fn new(jump: EndpointCredentials) -> (check: LoginCheck)
        ensures
            check@ == initial_state(jump@),
    {
        LoginCheck { jump, phase: LoginPhase::Connecting, outcome: LoginOutcome::Pending }
    }

    /// Where the check stands.
    pub fn phase(&self) -> (phase: LoginPhase)
        ensures
            phase == self@.phase,
    {
        self.phase
    }

    /// What the check asks for now.
    pub fn pending(&self) -> (action: RelayAction)
        ensures
            action@ == login_pending(self@),
    {
        match self.phase {
            LoginPhase::Connecting => RelayAction::Connect {
                address: socket_address(self.jump.host()),
                timeout_ms: LOGIN_TIMEOUT_MS,
            },
            LoginPhase::Authenticating => RelayAction::Authenticate {
                username: String::from_str(self.jump.username()),
                secret: String::from_str(self.jump.secret()),
                timeout_ms: LOGIN_TIMEOUT_MS,
            },
            LoginPhase::Disconnecting => RelayAction::Disconnect,
            LoginPhase::Finished => RelayAction::Finish { result: self.outcome.report() },
        }
    }

    /// Takes in what came of the action that was asked for, and says what to
    /// do next.
    pub fn advance(&mut self, event: RelayEvent) -> (action: RelayAction)
        ensures
            final(self)@ == login_next(old(self)@, event@),
            action@ == login_pending(final(self)@),
    {
        match self.phase {
            LoginPhase::Connecting => match event {
                RelayEvent::Completed => {
                    self.phase = LoginPhase::Authenticating;
                },
                RelayEvent::TimedOut => {
                    self.outcome = LoginOutcome::TimedOut;
                    self.phase = LoginPhase::Finished;
                },
                other => {
                    self.outcome = LoginOutcome::Unreachable(detail_text(other));
                    self.phase = LoginPhase::Finished;
                },
            },
            LoginPhase::Authenticating => match event {
                RelayEvent::Completed => {
                    self.outcome = LoginOutcome::Accepted;
                    self.phase = LoginPhase::Disconnecting;
                },
                RelayEvent::Refused => {
                    self.outcome = LoginOutcome::Rejected;
                    self.phase = LoginPhase::Disconnecting;
                },
                other => {
                    self.outcome = LoginOutcome::AuthFailed(detail_text(other));
                    self.phase = LoginPhase::Disconnecting;
                },
            },
            LoginPhase::Disconnecting => {
                self.phase = LoginPhase::Finished;
            },
            LoginPhase::Finished => {},
        }
        self.pending()
    }
}

/// A check asks for nothing but to connect, to authenticate, to end the
/// session and to hand on its result: it opens no channel and runs, writes
/// and reads nothing. It ends by ending the session, or from the start where
/// no session came to be, and within three events.
pub proof fn lemma_check_stays_on_jump_host(s: LoginState, event: RelayStimulus)
    ensures
        ({
            let asked = login_pending(s);
            ||| asked is Connect
            ||| asked is Authenticate
            ||| asked is Disconnect
            ||| asked is Finish
        }),
        ({
            let next = login_next(s, event);
            &&& next.jump == s.jump
            &&& next.phase == LoginPhase::Finished && s.phase != LoginPhase::Finished ==> s.phase
                == LoginPhase::Disconnecting || s.phase == LoginPhase::Connecting
            &&& s.phase == LoginPhase::Authenticating ==> next.phase == LoginPhase::Disconnecting
            &&& s.phase == LoginPhase::Disconnecting ==> next.phase == LoginPhase::Finished
                && next.finding == s.finding
        }),
{
}

/// The caller is told of success where the jump host has accepted the
/// credentials, and there only.
pub proof fn lemma_success_means_accepted(s: LoginState, event: RelayStimulus)
    requires
        s.phase == LoginPhase::Authenticating,
    ensures
        login_report(login_next(s, event).finding).success <==> event == RelayStimulus::Completed,
{
}

} // verus!
