use switch_relay::credentials::EndpointCredentials;
use switch_relay::fallback::{
    interpreter_candidates, run_section_text, FallbackAction, FallbackBridge, FallbackEvent,
    FallbackPhase, Platform,
};
use switch_relay::script_name::{invocation_stamp, script_file_name};
use switch_relay::script_output::{find_config_path, output_reports_success};
use switch_relay::outcome::RetrievalResult;

const SCRIPT: &str = "/tmp/rebond_fetch_config_7.py";

fn chars(s: &str) -> Vec<char> {
    s.chars().collect()
}

fn bridge(platform: Platform) -> FallbackBridge {
    let jump = EndpointCredentials::new("192.0.2.10", "operator", "jump-pass").ok().unwrap();
    let switch = EndpointCredentials::new("10.0.0.5", "netops", "").ok().unwrap();
    FallbackBridge::new(jump, switch, SCRIPT, platform, 120_000)
}

fn arguments() -> Vec<String> {
    [SCRIPT, "192.0.2.10", "operator", "jump-pass", "10.0.0.5", "netops", ""]
        .iter()
        .map(|s| s.to_string())
        .collect()
}

fn run(program: &str) -> FallbackAction {
    FallbackAction::Run { program: program.to_string(), arguments: arguments(), timeout_ms: 120_000 }
}

fn remove() -> FallbackAction {
    FallbackAction::RemoveScript { path: SCRIPT.to_string() }
}

fn exited(stdout: &str, stderr: &str, status: &str) -> FallbackEvent {
    FallbackEvent::exited(stdout.as_bytes(), stderr.as_bytes(), status)
}

#[test]
fn interpreters_by_platform() {
    assert_eq!(interpreter_candidates(Platform::Windows), vec!["python", "python3", "py"]);
    assert_eq!(interpreter_candidates(Platform::Other), vec!["python3", "python"]);
}

#[test]
fn script_file_names_carry_the_stamp() {
    assert_eq!(script_file_name(0), "rebond_fetch_config_0.py");
    assert_eq!(script_file_name(7), "rebond_fetch_config_7.py");
    assert_eq!(script_file_name(10), "rebond_fetch_config_10.py");
    assert_eq!(script_file_name(1234567890), "rebond_fetch_config_1234567890.py");
    assert_eq!(script_file_name(u64::MAX), "rebond_fetch_config_18446744073709551615.py");
    assert_ne!(script_file_name(1), script_file_name(11));
}

#[test]
fn stamps_keep_processes_and_turns_apart() {
    assert_eq!(invocation_stamp(0, 0), 0);
    assert_eq!(invocation_stamp(4242, 17), 4_242_000_017);
    assert_eq!(invocation_stamp(1, 999_999), 1_999_999);
    assert_eq!(invocation_stamp(1, 1_000_000), 1_000_000);
    assert_eq!(invocation_stamp(u32::MAX, u64::MAX), 4_294_967_295_551_615);
    assert_ne!(invocation_stamp(1, 0), invocation_stamp(0, 1_000_000));
    assert_eq!(script_file_name(invocation_stamp(12, 3)), "rebond_fetch_config_12000003.py");
}

#[test]
fn success_markers() {
    assert!(output_reports_success(&chars("...\n✅ Récupération terminée avec succès!\n")));
    assert!(output_reports_success(&chars("📄 Fichier généré: out.txt")));
    assert!(!output_reports_success(&chars("📁 Configuration sauvegardée: out.txt")));
    assert!(!output_reports_success(&chars("Récupération terminée avec succès!")));
    assert!(!output_reports_success(&chars("")));
}

#[test]
fn config_path_follows_the_marker() {
    assert_eq!(
        find_config_path(&chars("Connexion...\n📁 Configuration sauvegardée: /tmp/SW-01.txt\n✅ Récupération terminée avec succès!\n")),
        Some("/tmp/SW-01.txt".to_string())
    );
    assert_eq!(
        find_config_path(&chars("📄 Fichier généré:   C:\\Temp\\conf 1.txt  \r\nrest")),
        Some("C:\\Temp\\conf 1.txt".to_string())
    );
}

#[test]
fn config_path_is_taken_from_the_first_line_that_gives_one() {
    assert_eq!(
        find_config_path(&chars("📄 Fichier généré: a.txt\n📁 Configuration sauvegardée: b.txt\n")),
        Some("a.txt".to_string())
    );
    assert_eq!(
        find_config_path(&chars("x 📄 Fichier généré: a.txt 📁 Configuration sauvegardée: b.txt\n")),
        Some("b.txt".to_string())
    );
    assert_eq!(
        find_config_path(&chars("📁 Configuration sauvegardée: b.txt 📁 Configuration sauvegardée: c.txt")),
        Some("b.txt 📁 Configuration sauvegardée: c.txt".to_string())
    );
}

#[test]
fn config_path_may_be_missing_or_empty() {
    assert_eq!(find_config_path(&chars("✅ Récupération terminée avec succès!\n")), None);
    assert_eq!(find_config_path(&chars("")), None);
    assert_eq!(find_config_path(&chars("📄 Fichier généré:\n")), Some(String::new()));
    assert_eq!(find_config_path(&chars("📄 Fichier\ngénéré: x\n")), None);
}

#[test]
fn log_section_of_a_run() {
    assert_eq!(
        run_section_text("python3", "out", "", "exit status: 0"),
        "=== Execution avec python3 ===\nSTDOUT:\nout\nExit Status: exit status: 0\n\n"
    );
    assert_eq!(
        run_section_text("py", "out\n", "err", "exit status: 1"),
        "=== Execution avec py ===\nSTDOUT:\nout\n\nSTDERR:\nerr\nExit Status: exit status: 1\n\n"
    );
}

#[test]
fn bytes_of_a_run_are_taken_as_text() {
    assert_eq!(
        FallbackEvent::exited(b"d\xc3\xa9j\xc3\xa0 \xfe", b"\xff", "exit status: 0"),
        FallbackEvent::Exited {
            stdout: "déjà \u{FFFD}".to_string(),
            stderr: "\u{FFFD}".to_string(),
            status: "exit status: 0".to_string(),
        }
    );
}

#[test]
fn first_interpreter_succeeds() {
    let mut b = bridge(Platform::Other);
    assert_eq!(b.phase(), FallbackPhase::Writing);
    assert_eq!(b.pending(), FallbackAction::WriteScript { path: SCRIPT.to_string() });
    assert_eq!(b.advance(FallbackEvent::Completed), run("python3"));
    let stdout = "📁 Configuration sauvegardée: /tmp/SW-01.txt\n✅ Récupération terminée avec succès!\n";
    assert_eq!(
        b.advance(exited(stdout, "", "exit status: 0")),
        FallbackAction::ReadFile { path: "/tmp/SW-01.txt".to_string() }
    );
    let config = "set version 20.4R3\nset system host-name SW-01\n";
    assert_eq!(b.advance(FallbackEvent::Loaded(config.to_string())), remove());
    let expected = RetrievalResult {
        success: true,
        message: "Configuration récupérée avec succès du switch SW-01".to_string(),
        configuration: Some(config.to_string()),
        hostname: Some("SW-01".to_string()),
        execution_logs: Some(format!(
            "=== Execution avec python3 ===\nSTDOUT:\n{stdout}\nExit Status: exit status: 0\n\n"
        )),
    };
    assert_eq!(b.advance(FallbackEvent::Completed), FallbackAction::Finish { result: expected.clone() });
    assert!(b.is_finished());
    assert_eq!(b.verdict(), expected);
    assert_eq!(b.advance(FallbackEvent::Completed), FallbackAction::Finish { result: expected });
}

#[test]
fn every_interpreter_fails() {
    let mut b = bridge(Platform::Windows);
    assert_eq!(b.advance(FallbackEvent::Completed), run("python"));
    assert_eq!(b.advance(FallbackEvent::Failed("program not found".to_string())), run("python3"));
    assert_eq!(b.advance(exited("Traceback", "boom", "exit status: 1")), run("py"));
    assert_eq!(b.advance(exited("✅ Récupération terminée avec succès!\n", "", "exit status: 0")), remove());
    let logs = "=== Execution avec python3 ===\nSTDOUT:\nTraceback\nSTDERR:\nboom\nExit Status: exit status: 1\n\n=== Execution avec py ===\nSTDOUT:\n✅ Récupération terminée avec succès!\n\nExit Status: exit status: 0\n\n";
    let expected = RetrievalResult {
        success: false,
        message: format!(
            "Échec de l'exécution du script Python avec tous les exécutables Python disponibles.\n\nLogs d'exécution:\n{logs}\n\nDernière erreur: Script executed but could not find output file path"
        ),
        configuration: None,
        hostname: None,
        execution_logs: Some(logs.to_string()),
    };
    assert_eq!(
        b.advance(FallbackEvent::Failed("no such file".to_string())),
        FallbackAction::Finish { result: expected }
    );
}

#[test]
fn last_error_of_each_kind() {
    let last_error = |event: FallbackEvent| -> String {
        let mut b = bridge(Platform::Other);
        b.advance(FallbackEvent::Completed);
        b.advance(FallbackEvent::Failed("x".to_string()));
        assert_eq!(b.advance(event), remove());
        b.verdict().message.split("Dernière erreur: ").nth(1).unwrap().to_string()
    };
    assert_eq!(
        last_error(FallbackEvent::Failed("program not found".to_string())),
        "Failed to execute python: program not found"
    );
    assert_eq!(last_error(FallbackEvent::Completed), "Failed to execute python: unexpected reply");
    assert_eq!(
        last_error(exited("no route to host", "warn", "exit status: 2")),
        "Script failed. Stdout: no route to host Stderr: warn"
    );
    let mut b = bridge(Platform::Other);
    b.advance(FallbackEvent::Completed);
    b.advance(FallbackEvent::Failed("x".to_string()));
    assert_eq!(
        b.advance(exited("📄 Fichier généré:", "", "exit status: 0")),
        FallbackAction::ReadFile { path: String::new() }
    );
    assert_eq!(b.advance(FallbackEvent::Failed("gone".to_string())), remove());
    assert!(b.verdict().message.ends_with("Dernière erreur: Failed to read configuration file : gone"));
}

#[test]
fn unreadable_file_passes_on_to_the_next_interpreter() {
    let mut b = bridge(Platform::Other);
    b.advance(FallbackEvent::Completed);
    assert_eq!(
        b.advance(exited("📄 Fichier généré: /tmp/a.txt\n", "", "exit status: 0")),
        FallbackAction::ReadFile { path: "/tmp/a.txt".to_string() }
    );
    assert_eq!(b.phase(), FallbackPhase::Loading);
    assert_eq!(b.advance(FallbackEvent::Failed("permission denied".to_string())), run("python"));
    assert_eq!(
        b.advance(exited("📄 Fichier généré: /tmp/b.txt\n", "", "exit status: 0")),
        FallbackAction::ReadFile { path: "/tmp/b.txt".to_string() }
    );
    assert_eq!(b.advance(FallbackEvent::Failed("permission denied".to_string())), remove());
    let result = b.verdict();
    assert!(!result.success);
    assert!(result.message.ends_with("Dernière erreur: Failed to read configuration file /tmp/b.txt: permission denied"));
}

#[test]
fn script_that_cannot_be_written_is_still_removed() {
    let mut b = bridge(Platform::Other);
    assert_eq!(b.advance(FallbackEvent::Failed("disk full".to_string())), remove());
    assert_eq!(
        b.advance(FallbackEvent::Failed("no such file".to_string())),
        FallbackAction::Finish {
            result: RetrievalResult {
                success: false,
                message: "Failed to write script to temp file: disk full".to_string(),
                configuration: None,
                hostname: None,
                execution_logs: Some(String::new()),
            }
        }
    );
}

#[test]
fn script_is_removed_on_every_path() {
    let scripts: Vec<Vec<FallbackEvent>> = vec![
        vec![FallbackEvent::Failed("w".to_string())],
        vec![FallbackEvent::Completed, FallbackEvent::Failed("a".to_string()), FallbackEvent::Failed("b".to_string())],
        vec![
            FallbackEvent::Completed,
            exited("📄 Fichier généré: f", "", "0"),
            FallbackEvent::Loaded("cfg".to_string()),
        ],
        vec![
            FallbackEvent::Completed,
            exited("nothing", "", "1"),
            exited("📄 Fichier généré: f", "", "0"),
            FallbackEvent::Failed("r".to_string()),
        ],
    ];
    for events in scripts {
        let mut b = bridge(Platform::Other);
        let mut asked = vec![b.pending()];
        for event in events {
            asked.push(b.advance(event));
        }
        assert_eq!(asked.last(), Some(&remove()));
        assert!(asked[..asked.len() - 1].iter().all(|a| *a != remove()));
        assert!(matches!(b.advance(FallbackEvent::Completed), FallbackAction::Finish { .. }));
    }
}
