//! What a retrieval hands back: the configuration with the hostname, or a
//! failure with a message that names its cause.

use crate::hostname::{hostname_in, hostname_of};
use crate::text::{contains, lemma_contains_part, text_of};
use vstd::prelude::*;
use vstd::slice::slice_subrange;

verus! {

/// The ways in which a retrieval fails, as text.
pub enum Failure {
    /// The transport to the jump host could not be set up.
    Connect { address: Seq<char>, detail: Seq<char> },
    /// The jump host answered no to the credentials.
    AuthRejected { address: Seq<char> },
    /// The authentication itself broke down.
    AuthFailed { address: Seq<char>, detail: Seq<char> },
    /// The channel or the command on it failed on a session that stood.
    Channel { detail: Seq<char> },
    /// The switch gave less text than a configuration can be.
    InsufficientOutput { switch: Seq<char>, preview: Option<Seq<char>> },
    /// The script could not be put on disk.
    ScriptNotWritten { detail: Seq<char> },
    /// No interpreter gave a configuration.
    FallbackExhausted { logs: Seq<char>, last_error: Seq<char> },
}

/// The ways in which a retrieval fails.
#[derive(Debug, Clone, PartialEq, Eq)]
pub enum RetrievalError {
    /// The transport to the jump host could not be set up.
    Connect { address: String, detail: String },
    /// The jump host answered no to the credentials.
    AuthRejected { address: String },
    /// The authentication itself broke down.
    AuthFailed { address: String, detail: String },
    /// The channel or the command on it failed on a session that stood.
    Channel { detail: String },
    /// The switch gave less text than a configuration can be.
    InsufficientOutput { switch: String, preview: Option<String> },
    /// The script could not be put on disk.
    ScriptNotWritten { detail: String },
    /// No interpreter gave a configuration.
    FallbackExhausted { logs: String, last_error: String },
}

/// An optional string as optional text.
pub open spec fn text_view(o: Option<String>) -> Option<Seq<char>> {
    match o {
        Some(s) => Some(s@),
        None => None,
    }
}

impl View for RetrievalError {
    type V = Failure;

    open spec fn view(&self) -> Failure {
        match *self {
            RetrievalError::Connect { address, detail } => Failure::Connect {
                address: address@,
                detail: detail@,
            },
            RetrievalError::AuthRejected { address } => Failure::AuthRejected { address: address@ },
            RetrievalError::AuthFailed { address, detail } => Failure::AuthFailed {
                address: address@,
                detail: detail@,
            },
            RetrievalError::Channel { detail } => Failure::Channel { detail: detail@ },
            RetrievalError::InsufficientOutput { switch, preview } => Failure::InsufficientOutput {
                switch: switch@,
                preview: text_view(preview),
            },
            RetrievalError::ScriptNotWritten { detail } => Failure::ScriptNotWritten {
                detail: detail@,
            },
            RetrievalError::FallbackExhausted { logs, last_error } => Failure::FallbackExhausted {
                logs: logs@,
                last_error: last_error@,
            },
        }
    }
}

pub open spec fn connect_head() -> Seq<char> {
    "Impossible de se connecter au serveur Robont "@
}

pub open spec fn rejected_head() -> Seq<char> {
    "Échec de l'authentification sur le serveur Robont "@
}

pub open spec fn auth_failed_head() -> Seq<char> {
    "Erreur d'authentification sur le serveur Robont "@
}

pub open spec fn detail_link() -> Seq<char> {
    ": "@
}

pub open spec fn insufficient_head() -> Seq<char> {
    "Impossible de récupérer la configuration du switch "@
}

pub open spec fn insufficient_advice() -> Seq<char> {
    ". Vérifiez:\n- Les identifiants du switch\n- La connectivité entre Robont et le switch\n- Que le switch supporte la commande 'show configuration | display set | no-more'\nConfiguration reçue: "@
}

/// What stands in place of the preview where nothing was received.
pub open spec fn no_data() -> Seq<char> {
    "Aucune donnée"@
}

pub open spec fn not_written_head() -> Seq<char> {
    "Failed to write script to temp file: "@
}

pub open spec fn exhausted_head() -> Seq<char> {
    "Échec de l'exécution du script Python avec tous les exécutables Python disponibles.\n\nLogs d'exécution:\n"@
}

pub open spec fn exhausted_link() -> Seq<char> {
    "\n\nDernière erreur: "@
}

/// What stands for the cause where an address is empty.
pub open spec fn no_address() -> Seq<char> {
    "adresse vide"@
}

/// What stands for the cause where a reply does not answer what was asked.
pub open spec fn unexpected_reply() -> Seq<char> {
    "unexpected reply"@
}

pub open spec fn success_head() -> Seq<char> {
    "Configuration récupérée avec succès du switch "@
}

/// The message that tells a caller of a failure.
pub open spec fn failure_message(failure: Failure) -> Seq<char> {
    match failure {
        Failure::Connect { address, detail } => connect_head() + address + detail_link() + detail,
        Failure::AuthRejected { address } => rejected_head() + address,
        Failure::AuthFailed { address, detail } => auth_failed_head() + address + detail_link()
            + detail,
        Failure::Channel { detail } => detail,
        Failure::InsufficientOutput { switch, preview } => insufficient_head() + switch
            + insufficient_advice() + (match preview {
            Some(shown) => shown,
            None => no_data(),
        }),
        Failure::ScriptNotWritten { detail } => not_written_head() + detail,
        Failure::FallbackExhausted { logs, last_error } => exhausted_head() + logs
            + exhausted_link() + last_error,
    }
}

impl RetrievalError {
    /// The message that tells a caller of this failure.
    pub fn message(&self) -> (message: String)
        ensures
            message@ == failure_message(self@),
    {
        match self {
            RetrievalError::Connect { address, detail } => {
                let mut m = String::from_str("Impossible de se connecter au serveur Robont ");
                m.append(address.as_str());
                m.append(": ");
                m.append(detail.as_str());
                m
            },
            RetrievalError::AuthRejected { address } => {
                let mut m = String::from_str("Échec de l'authentification sur le serveur Robont ");
                m.append(address.as_str());
                m
            },
            RetrievalError::AuthFailed { address, detail } => {
                let mut m = String::from_str("Erreur d'authentification sur le serveur Robont ");
                m.append(address.as_str());
                m.append(": ");
                m.append(detail.as_str());
                m
            },
            RetrievalError::Channel { detail } => detail.clone(),
            RetrievalError::InsufficientOutput { switch, preview } => {
                let mut m = String::from_str("Impossible de récupérer la configuration du switch ");
                m.append(switch.as_str());
                m.append(
                    ". Vérifiez:\n- Les identifiants du switch\n- La connectivité entre Robont et le switch\n- Que le switch supporte la commande 'show configuration | display set | no-more'\nConfiguration reçue: ",
                );
                match preview {
                    Some(shown) => m.append(shown.as_str()),
                    None => m.append("Aucune donnée"),
                }
                m
            },
            RetrievalError::ScriptNotWritten { detail } => {
                let mut m = String::from_str("Failed to write script to temp file: ");
                m.append(detail.as_str());
                m
            },
            RetrievalError::FallbackExhausted { logs, last_error } => {
                let mut m = String::from_str(
                    "Échec de l'exécution du script Python avec tous les exécutables Python disponibles.\n\nLogs d'exécution:\n",
                );
                m.append(logs.as_str());
                m.append("\n\nDernière erreur: ");
                m.append(last_error.as_str());
                m
            },
        }
    }
}

/// What a retrieval hands back, as text.
pub struct Report {
    pub success: bool,
    pub message: Seq<char>,
    pub configuration: Option<Seq<char>>,
    pub hostname: Option<Seq<char>>,
    pub execution_logs: Option<Seq<char>>,
}

/// What a retrieval hands back, by the relay and by the script alike.
#[derive(Debug, Clone, PartialEq, Eq)]
pub struct RetrievalResult {
    pub success: bool,
    pub message: String,
    pub configuration: Option<String>,
    pub hostname: Option<String>,
    pub execution_logs: Option<String>,
}

impl View for RetrievalResult {
    type V = Report;

    open spec fn view(&self) -> Report {
        Report {
            success: self.success,
            message: self.message@,
            configuration: text_view(self.configuration),
            hostname: text_view(self.hostname),
            execution_logs: text_view(self.execution_logs),
        }
    }
}

/// The report of a retrieval that gave `configuration`.
pub open spec fn success_report(
    configuration: Seq<char>,
    hostname: Seq<char>,
    logs: Option<Seq<char>>,
) -> Report {
    Report {
        success: true,
        message: success_head() + hostname,
        configuration: Some(configuration),
        hostname: Some(hostname),
        execution_logs: logs,
    }
}

/// The report of a retrieval that failed.
pub open spec fn failure_report(failure: Failure, logs: Option<Seq<char>>) -> Report {
    Report {
        success: false,
        message: failure_message(failure),
        configuration: None,
        hostname: None,
        execution_logs: logs,
    }
}

impl RetrievalResult {
    /// The result of a retrieval that gave `configuration`.
    pub fn succeeded(configuration: String, hostname: String, logs: Option<String>) -> (result:
        RetrievalResult)
        ensures
            result@ == success_report(configuration@, hostname@, text_view(logs)),
    {
        let mut message = String::from_str("Configuration récupérée avec succès du switch ");
        message.append(hostname.as_str());
        RetrievalResult {
            success: true,
            message,
            configuration: Some(configuration),
            hostname: Some(hostname),
            execution_logs: logs,
        }
    }

    /// The result of a retrieval that failed.
    pub fn failed(error: &RetrievalError, logs: Option<String>) -> (result: RetrievalResult)
        ensures
            result@ == failure_report(error@, text_view(logs)),
    {
        RetrievalResult {
            success: false,
            message: error.message(),
            configuration: None,
            hostname: None,
            execution_logs: logs,
        }
    }
}

/// The text is too short to be a configuration: it is empty, or shorter than
/// `min_len` characters.
pub open spec fn insufficient(captured: Seq<char>, min_len: int) -> bool {
    captured.len() == 0 || captured.len() < min_len
}

/// What is shown of a text that is too short: its first `preview_len`
/// characters, or nothing where it is empty.
pub open spec fn preview_of(captured: Seq<char>, preview_len: int) -> Option<Seq<char>> {
    if captured.len() == 0 {
        None
    } else if preview_len < captured.len() {
        Some(captured.take(preview_len))
    } else {
        Some(captured)
    }
}

/// The report on what was captured from the switch `switch`.
pub open spec fn assessment(
    captured: Seq<char>,
    switch: Seq<char>,
    min_len: int,
    preview_len: int,
) -> Report {
    if insufficient(captured, min_len) {
        failure_report(
            Failure::InsufficientOutput { switch, preview: preview_of(captured, preview_len) },
            None,
        )
    } else {
        success_report(captured, hostname_in(captured), None)
    }
}

/// Judges what was captured from the switch at `switch`: a text of at least
/// `min_len` characters is its configuration; a shorter one is a failure that
/// shows the first `preview_len` characters of it.
pub fn assess(captured: &[char], switch: &str, min_len: usize, preview_len: usize) -> (result:
    RetrievalResult)
    ensures
        result@ == assessment(captured@, switch@, min_len as int, preview_len as int),
{
    if captured.len() == 0 || captured.len() < min_len {
        let preview = if captured.len() == 0 {
            None
        } else if preview_len < captured.len() {
            Some(text_of(slice_subrange(captured, 0, preview_len)))
        } else {
            Some(text_of(captured))
        };
        let error = RetrievalError::InsufficientOutput {
            switch: String::from_str(switch),
            preview,
        };
        RetrievalResult::failed(&error, None)
    } else {
        let hostname = hostname_of(captured);
        RetrievalResult::succeeded(text_of(captured), hostname, None)
    }
}

/// The message of a failure to connect or to authenticate holds the address
/// of the jump host.
pub proof fn lemma_failure_names_address(failure: Failure)
    ensures
        failure matches Failure::Connect { address, .. } ==> contains(
            failure_message(failure),
            address,
        ),
        failure matches Failure::AuthRejected { address } ==> contains(
            failure_message(failure),
            address,
        ),
        failure matches Failure::AuthFailed { address, .. } ==> contains(
            failure_message(failure),
            address,
        ),
{
    match failure {
        Failure::Connect { address, detail } => {
            lemma_contains_part(connect_head(), address, detail_link() + detail);
            assert(connect_head() + address + (detail_link() + detail) =~= failure_message(
                failure,
            ));
        },
        Failure::AuthRejected { address } => {
            lemma_contains_part(rejected_head(), address, Seq::empty());
        },
        Failure::AuthFailed { address, detail } => {
            lemma_contains_part(auth_failed_head(), address, detail_link() + detail);
            assert(auth_failed_head() + address + (detail_link() + detail) =~= failure_message(
                failure,
            ));
        },
        _ => {},
    }
}

/// Where nothing was captured, the caller is told of a failure, and its
/// message ends with the words that stand for no data.
pub proof fn lemma_nothing_captured(switch: Seq<char>, min_len: int, preview_len: int)
    ensures
        ({
            let report = assessment(Seq::empty(), switch, min_len, preview_len);
            &&& !report.success
            &&& report.configuration is None
            &&& report.message == insufficient_head() + switch + insufficient_advice() + no_data()
            &&& contains(report.message, no_data())
            &&& contains(report.message, switch)
        }),
{
    lemma_contains_part(
        insufficient_head() + switch + insufficient_advice(),
        no_data(),
        Seq::empty(),
    );
    lemma_contains_part(insufficient_head(), switch, insufficient_advice() + no_data());
    assert(insufficient_head() + switch + (insufficient_advice() + no_data())
        =~= insufficient_head() + switch + insufficient_advice() + no_data());
}

/// Where less was captured than a configuration can be, the caller is told
/// of a failure whose message ends with the start of what was captured, no
/// more than `preview_len` characters of it.
pub proof fn lemma_short_capture_previewed(
    captured: Seq<char>,
    switch: Seq<char>,
    min_len: int,
    preview_len: int,
)
    requires
        0 < captured.len() < min_len,
        0 <= preview_len,
    ensures
        ({
            let report = assessment(captured, switch, min_len, preview_len);
            let shown = preview_of(captured, preview_len)->0;
            &&& !report.success
            &&& report.configuration is None
            &&& shown.len() <= preview_len
            &&& shown.is_prefix_of(captured)
            &&& report.message == insufficient_head() + switch + insufficient_advice() + shown
        }),
{
    let shown = preview_of(captured, preview_len)->0;
    assert(captured.subrange(0, shown.len() as int) =~= shown);
}

/// A text that is long enough is the configuration, whole, with the
/// hostname that it gives.
pub proof fn lemma_long_capture_accepted(
    captured: Seq<char>,
    switch: Seq<char>,
    min_len: int,
    preview_len: int,
)
    requires
        captured.len() > 0,
        captured.len() >= min_len,
    ensures
        ({
            let report = assessment(captured, switch, min_len, preview_len);
            &&& report.success
            &&& report.configuration == Some(captured)
            &&& report.hostname == Some(hostname_in(captured))
        }),
{
}

} // verus!
