use switch_relay::outcome::{assess, RetrievalError, RetrievalResult};

fn chars(s: &str) -> Vec<char> {
    s.chars().collect()
}

const ADVICE: &str = ". Vérifiez:\n- Les identifiants du switch\n- La connectivité entre Robont et le switch\n- Que le switch supporte la commande 'show configuration | display set | no-more'\nConfiguration reçue: ";

#[test]
fn message_of_connect_error() {
    let e = RetrievalError::Connect { address: "10.0.0.1".to_string(), detail: "connection refused".to_string() };
    assert_eq!(e.message(), "Impossible de se connecter au serveur Robont 10.0.0.1: connection refused");
}

#[test]
fn message_of_rejected_credentials_names_the_jump_host() {
    let e = RetrievalError::AuthRejected { address: "10.0.0.1".to_string() };
    assert_eq!(e.message(), "Échec de l'authentification sur le serveur Robont 10.0.0.1");
}

#[test]
fn message_of_failed_authentication_names_the_jump_host() {
    let e = RetrievalError::AuthFailed { address: "jump.example".to_string(), detail: "disconnected".to_string() };
    assert_eq!(e.message(), "Erreur d'authentification sur le serveur Robont jump.example: disconnected");
}

#[test]
fn message_of_channel_error_is_the_transport_text() {
    let e = RetrievalError::Channel { detail: "channel send error".to_string() };
    assert_eq!(e.message(), "channel send error");
}

#[test]
fn message_of_insufficient_output() {
    let none = RetrievalError::InsufficientOutput { switch: "10.0.0.5".to_string(), preview: None };
    assert_eq!(
        none.message(),
        format!("Impossible de récupérer la configuration du switch 10.0.0.5{ADVICE}Aucune donnée")
    );
    let some = RetrievalError::InsufficientOutput {
        switch: "10.0.0.5".to_string(),
        preview: Some("Permission denied".to_string()),
    };
    assert_eq!(
        some.message(),
        format!("Impossible de récupérer la configuration du switch 10.0.0.5{ADVICE}Permission denied")
    );
}

#[test]
fn message_of_script_errors() {
    let e = RetrievalError::ScriptNotWritten { detail: "disk full".to_string() };
    assert_eq!(e.message(), "Failed to write script to temp file: disk full");
    let e = RetrievalError::FallbackExhausted { logs: "LOGS".to_string(), last_error: "LAST".to_string() };
    assert_eq!(
        e.message(),
        "Échec de l'exécution du script Python avec tous les exécutables Python disponibles.\n\nLogs d'exécution:\nLOGS\n\nDernière erreur: LAST"
    );
}

#[test]
fn result_of_success() {
    let r = RetrievalResult::succeeded("cfg".to_string(), "SW-01".to_string(), Some("log".to_string()));
    assert_eq!(
        r,
        RetrievalResult {
            success: true,
            message: "Configuration récupérée avec succès du switch SW-01".to_string(),
            configuration: Some("cfg".to_string()),
            hostname: Some("SW-01".to_string()),
            execution_logs: Some("log".to_string()),
        }
    );
}

#[test]
fn result_of_failure() {
    let e = RetrievalError::Channel { detail: "closed".to_string() };
    let r = RetrievalResult::failed(&e, None);
    assert_eq!(
        r,
        RetrievalResult {
            success: false,
            message: "closed".to_string(),
            configuration: None,
            hostname: None,
            execution_logs: None,
        }
    );
}

#[test]
fn assess_nothing_captured() {
    let r = assess(&[], "10.0.0.5", 100, 200);
    assert!(!r.success);
    assert!(r.message.contains("Aucune donnée"));
    assert_eq!(
        r.message,
        format!("Impossible de récupérer la configuration du switch 10.0.0.5{ADVICE}Aucune donnée")
    );
    assert_eq!(r.configuration, None);
    assert_eq!(r.hostname, None);
    assert_eq!(r.execution_logs, None);
}

#[test]
fn assess_nothing_captured_fails_even_without_a_minimum() {
    let r = assess(&[], "10.0.0.5", 0, 200);
    assert!(!r.success);
    assert!(r.message.ends_with("Configuration reçue: Aucune donnée"));
}

#[test]
fn assess_short_capture_is_shown_whole() {
    let r = assess(&chars("Permission denied, please try again."), "10.0.0.5", 100, 200);
    assert!(!r.success);
    assert!(r.message.ends_with("Configuration reçue: Permission denied, please try again."));
    assert!(!r.message.contains("Aucune donnée"));
}

#[test]
fn assess_preview_is_cut_at_its_length() {
    let long: String = "x".repeat(150) + &"y".repeat(149);
    let r = assess(&chars(&long), "10.0.0.5", 300, 200);
    assert!(!r.success);
    let shown = r.message.split("Configuration reçue: ").nth(1).unwrap();
    assert_eq!(shown.chars().count(), 200);
    assert_eq!(shown, "x".repeat(150) + &"y".repeat(50));
    let r = assess(&chars("abcdef"), "10.0.0.5", 300, 0);
    assert!(r.message.ends_with("Configuration reçue: "));
}

#[test]
fn assess_counts_characters() {
    let text = "é".repeat(99);
    assert!(!assess(&chars(&text), "s", 100, 200).success);
    let text = "é".repeat(100);
    assert!(assess(&chars(&text), "s", 100, 200).success);
}

#[test]
fn assess_threshold_is_inclusive() {
    let mut text = String::from("set system host-name SW-77\n");
    while text.len() < 99 {
        text.push('#');
    }
    assert_eq!(text.len(), 99);
    assert!(!assess(&chars(&text), "10.0.0.5", 100, 200).success);
    text.push('#');
    let r = assess(&chars(&text), "10.0.0.5", 100, 200);
    assert_eq!(
        r,
        RetrievalResult {
            success: true,
            message: "Configuration récupérée avec succès du switch SW-77".to_string(),
            configuration: Some(text.clone()),
            hostname: Some("SW-77".to_string()),
            execution_logs: None,
        }
    );
}
