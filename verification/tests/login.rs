use switch_relay::credentials::EndpointCredentials;
use switch_relay::login::{LoginCheck, LoginOutcome, LoginPhase, LOGIN_TIMEOUT_MS};
use switch_relay::outcome::RetrievalResult;
use switch_relay::probe::{probe_action, probe_verdict, PROBE_TIMEOUT_MS};
use switch_relay::relay::{RelayAction, RelayEvent};

fn check() -> LoginCheck {
    LoginCheck::new(EndpointCredentials::new("192.0.2.10", "operator", "jump-pass").ok().unwrap())
}

fn told(success: bool, message: &str) -> RelayAction {
    RelayAction::Finish {
        result: RetrievalResult {
            success,
            message: message.to_string(),
            configuration: None,
            hostname: None,
            execution_logs: None,
        },
    }
}

#[test]
fn accepted_credentials() {
    let mut c = check();
    assert_eq!(c.phase(), LoginPhase::Connecting);
    assert_eq!(LOGIN_TIMEOUT_MS, 10_000);
    assert_eq!(
        c.pending(),
        RelayAction::Connect { address: "192.0.2.10:22".to_string(), timeout_ms: 10_000 }
    );
    assert_eq!(
        c.advance(RelayEvent::Completed),
        RelayAction::Authenticate {
            username: "operator".to_string(),
            secret: "jump-pass".to_string(),
            timeout_ms: 10_000
        }
    );
    assert_eq!(c.advance(RelayEvent::Completed), RelayAction::Disconnect);
    assert_eq!(
        c.advance(RelayEvent::Failed("already closed".to_string())),
        told(true, "Connexion au serveur Robont réussie")
    );
    assert_eq!(c.phase(), LoginPhase::Finished);
    assert_eq!(c.advance(RelayEvent::Completed), told(true, "Connexion au serveur Robont réussie"));
}

#[test]
fn rejected_credentials() {
    let mut c = check();
    c.advance(RelayEvent::Completed);
    assert_eq!(c.advance(RelayEvent::Refused), RelayAction::Disconnect);
    assert_eq!(
        c.advance(RelayEvent::Completed),
        told(false, "Identifiants incorrects pour le serveur Robont")
    );
}

#[test]
fn authentication_that_breaks_down() {
    let mut c = check();
    c.advance(RelayEvent::Completed);
    assert_eq!(c.advance(RelayEvent::Failed("disconnected".to_string())), RelayAction::Disconnect);
    assert_eq!(c.advance(RelayEvent::Completed), told(false, "Erreur d'authentification: disconnected"));
}

#[test]
fn jump_host_that_cannot_be_reached() {
    let mut c = check();
    assert_eq!(
        c.advance(RelayEvent::Failed("no route to host".to_string())),
        told(false, "Impossible de se connecter au serveur Robont: no route to host")
    );
}

#[test]
fn jump_host_that_does_not_answer() {
    let mut c = check();
    assert_eq!(c.advance(RelayEvent::TimedOut), told(false, "Timeout lors de la connexion au serveur Robont"));
}

#[test]
fn reports_of_each_finding() {
    assert!(LoginOutcome::Accepted.report().success);
    for outcome in [
        LoginOutcome::Pending,
        LoginOutcome::Rejected,
        LoginOutcome::TimedOut,
        LoginOutcome::AuthFailed("x".to_string()),
        LoginOutcome::Unreachable("y".to_string()),
    ] {
        let report = outcome.report();
        assert!(!report.success);
        assert_eq!(report.configuration, None);
    }
    assert_eq!(LoginOutcome::Pending.report().message, "Connexion au serveur Robont en cours");
}

#[test]
fn probe_asks_for_port_22_with_a_short_timeout() {
    assert_eq!(PROBE_TIMEOUT_MS, 5_000);
    assert_eq!(
        probe_action("10.0.0.5"),
        RelayAction::Connect { address: "10.0.0.5:22".to_string(), timeout_ms: 5_000 }
    );
}

#[test]
fn probe_is_up_only_where_the_connection_stood() {
    assert!(probe_verdict(&RelayEvent::Completed));
    assert!(!probe_verdict(&RelayEvent::TimedOut));
    assert!(!probe_verdict(&RelayEvent::Failed("connection refused".to_string())));
    assert!(!probe_verdict(&RelayEvent::Refused));
    assert!(!probe_verdict(&RelayEvent::Ended));
}
