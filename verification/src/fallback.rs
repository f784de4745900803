//! The script fallback: an outside script fetches the configuration, and the
//! bridge here decides what to run, takes in what the script printed and
//! says what the caller gets.

use crate::credentials::{Endpoint, EndpointCredentials};
use crate::hostname::{hostname_in, hostname_of};
use crate::outcome::{
    failure_report, success_report, text_view, unexpected_reply, Failure, Report, RetrievalError,
    RetrievalResult,
};
use crate::script_output::{
    config_path_in, find_config_path, output_reports_success, reports_success,
};
use crate::text::{chars_of, decode_lossy, lossy_text};
use vstd::prelude::*;
use vstd::utf8::{decode_utf8, valid_utf8};

verus! {

/// How long one interpreter is given to run the script, in milliseconds,
/// where the caller has no reason for another time.
pub const RUN_TIMEOUT_MS: u64 = 300_000;

/// The system on which the script is run, as far as it decides which
/// interpreters are tried.
#[derive(Debug, Clone, Copy, PartialEq, Eq, Structural)]
pub enum Platform {
    Windows,
    Other,
}

/// The interpreters that are tried on a platform, in their order.
pub open spec fn candidates_for(platform: Platform) -> Seq<Seq<char>> {
    match platform {
        Platform::Windows => seq!["python"@, "python3"@, "py"@],
        Platform::Other => seq!["python3"@, "python"@],
    }
}

/// The interpreters that are tried on a platform, in their order.
pub fn interpreter_candidates(platform: Platform) -> (names: Vec<String>)
    ensures
        names.deep_view() == candidates_for(platform),
{
    let mut names: Vec<String> = Vec::new();
    match platform {
        Platform::Windows => {
            names.push(String::from_str("python"));
            names.push(String::from_str("python3"));
            names.push(String::from_str("py"));
        },
        Platform::Other => {
            names.push(String::from_str("python3"));
            names.push(String::from_str("python"));
        },
    }
    assert(names.deep_view() =~= candidates_for(platform));
    names
}

/// What the log holds of one run of the script: the interpreter, what it
/// printed, what it printed as errors if anything, and how it ended.
pub open spec fn run_section(
    program: Seq<char>,
    stdout: Seq<char>,
    stderr: Seq<char>,
    status: Seq<char>,
) -> Seq<char> {
    let head = "=== Execution avec "@ + program + " ===\nSTDOUT:\n"@ + stdout + "\n"@;
    let body = if stderr.len() > 0 {
        head + "STDERR:\n"@ + stderr + "\n"@
    } else {
        head
    };
    body + "Exit Status: "@ + status + "\n\n"@
}

/// What the log holds of one run of the script.
pub fn run_section_text(program: &str, stdout: &str, stderr: &str, status: &str) -> (section:
    String)
    ensures
        section@ == run_section(program@, stdout@, stderr@, status@),
{
    let mut section = String::from_str("=== Execution avec ");
    section.append(program);
    section.append(" ===\nSTDOUT:\n");
    section.append(stdout);
    section.append("\n");
    if !stderr.is_empty() {
        section.append("STDERR:\n");
        section.append(stderr);
        section.append("\n");
    }
    section.append("Exit Status: ");
    section.append(status);
    section.append("\n\n");
    section
}

/// The error of a run whose output does not say that it succeeded.
pub open spec fn script_failed(stdout: Seq<char>, stderr: Seq<char>) -> Seq<char> {
    "Script failed. Stdout: "@ + stdout + " Stderr: "@ + stderr
}

/// The error of a run that said it succeeded and named no file.
pub open spec fn no_path_found() -> Seq<char> {
    "Script executed but could not find output file path"@
}

/// The error of an interpreter that could not be run.
pub open spec fn not_executed(program: Seq<char>, detail: Seq<char>) -> Seq<char> {
    "Failed to execute "@ + program + ": "@ + detail
}

/// The error of a configuration file that could not be read.
pub open spec fn not_read(path: Seq<char>, detail: Seq<char>) -> Seq<char> {
    "Failed to read configuration file "@ + path + ": "@ + detail
}

/// Where the bridge stands.
#[derive(Debug, Clone, Copy, PartialEq, Eq, Structural)]
pub enum FallbackPhase {
    /// The script is being written to its file.
    Writing,
    /// An interpreter is running the script.
    Running,
    /// The file that the script named is being read.
    Loading,
    /// The script's file is being deleted.
    Removing,
    /// The result is there.
    Finished,
}

/// What came of the action that the bridge asked for, as text.
pub enum FallbackStimulus {
    Completed,
    Failed(Seq<char>),
    Exited { stdout: Seq<char>, stderr: Seq<char>, status: Seq<char> },
    Loaded(Seq<char>),
}

/// What came of the action that the bridge asked for.
#[derive(Debug, Clone, PartialEq, Eq)]
pub enum FallbackEvent {
    /// The action was carried out.
    Completed,
    /// The action failed, for the reason given.
    Failed(String),
    /// The interpreter ran the script to its end.
    Exited { stdout: String, stderr: String, status: String },
    /// The file was read and held this text.
    Loaded(String),
}

impl View for FallbackEvent {
    type V = FallbackStimulus;

    open spec fn view(&self) -> FallbackStimulus {
        match *self {
            FallbackEvent::Completed => FallbackStimulus::Completed,
            FallbackEvent::Failed(detail) => FallbackStimulus::Failed(detail@),
            FallbackEvent::Exited { stdout, stderr, status } => FallbackStimulus::Exited {
                stdout: stdout@,
                stderr: stderr@,
                status: status@,
            },
            FallbackEvent::Loaded(content) => FallbackStimulus::Loaded(content@),
        }
    }
}

impl FallbackEvent {
    /// The event of a run that ended, from the bytes that the interpreter
    /// wrote and the words that describe its exit status.
    pub fn exited(stdout: &[u8], stderr: &[u8], status: &str) -> (event: FallbackEvent)
        ensures
            event@ == (FallbackStimulus::Exited {
                stdout: lossy_text(stdout@),
                stderr: lossy_text(stderr@),
                status: status@,
            }),
            valid_utf8(stdout@) && valid_utf8(stderr@) ==> event@ == (FallbackStimulus::Exited {
                stdout: decode_utf8(stdout@),
                stderr: decode_utf8(stderr@),
                status: status@,
            }),
    {
        FallbackEvent::Exited {
            stdout: decode_lossy(stdout),
            stderr: decode_lossy(stderr),
            status: String::from_str(status),
        }
    }
}

/// What the bridge asks its driver to do, as text.
pub enum FallbackDirective {
    WriteScript { path: Seq<char> },
    Run { program: Seq<char>, arguments: Seq<Seq<char>>, timeout_ms: u64 },
    ReadFile { path: Seq<char> },
    RemoveScript { path: Seq<char> },
    Finish { result: Report },
}

/// What the bridge asks its driver to do.
#[derive(Debug, Clone, PartialEq, Eq)]
pub enum FallbackAction {
    /// Write the script to the file at `path`.
    WriteScript { path: String },
    /// Run `program` with `arguments` and wait for its end, `timeout_ms`
    /// milliseconds at most.
    Run { program: String, arguments: Vec<String>, timeout_ms: u64 },
    /// Read the file at `path` as text.
    ReadFile { path: String },
    /// Delete the script's file at `path`.
    RemoveScript { path: String },
    /// Hand `result` to the caller: nothing is left to do.
    Finish { result: RetrievalResult },
}

impl View for FallbackAction {
    type V = FallbackDirective;

    open spec fn view(&self) -> FallbackDirective {
        match *self {
            FallbackAction::WriteScript { path } => FallbackDirective::WriteScript { path: path@ },
            FallbackAction::Run { program, arguments, timeout_ms } => FallbackDirective::Run {
                program: program@,
                arguments: arguments.deep_view(),
                timeout_ms,
            },
            FallbackAction::ReadFile { path } => FallbackDirective::ReadFile { path: path@ },
            FallbackAction::RemoveScript { path } => FallbackDirective::RemoveScript {
                path: path@,
            },
            FallbackAction::Finish { result } => FallbackDirective::Finish { result: result@ },
        }
    }
}

/// The state of the bridge, as text.
pub struct FallbackState {
    pub jump: Endpoint,
    pub switch: Endpoint,
    pub script_path: Seq<char>,
    pub candidates: Seq<Seq<char>>,
    pub run_timeout_ms: u64,
    pub phase: FallbackPhase,
    /// Which of the candidates is being tried, or was tried last.
    pub attempt: int,
    pub logs: Seq<char>,
    pub last_error: Seq<char>,
    /// The path that the last successful run named.
    pub config_path: Seq<char>,
    /// The configuration, once it has been read.
    pub found: Option<Seq<char>>,
    /// Why the script could not be written, if it could not.
    pub write_error: Option<Seq<char>>,
}

/// The states that a bridge can be in.
pub open spec fn well_formed(s: FallbackState) -> bool {
    0 <= s.attempt < s.candidates.len()
}

/// The state in which a bridge sets out.
pub open spec fn initial_state(
    jump: Endpoint,
    switch: Endpoint,
    script_path: Seq<char>,
    platform: Platform,
    run_timeout_ms: u64,
) -> FallbackState {
    FallbackState {
        jump,
        switch,
        script_path,
        candidates: candidates_for(platform),
        run_timeout_ms,
        phase: FallbackPhase::Writing,
        attempt: 0,
        logs: Seq::empty(),
        last_error: Seq::empty(),
        config_path: Seq::empty(),
        found: None,
        write_error: None,
    }
}

/// Why an action did not do what was asked.
pub open spec fn failure_detail(event: FallbackStimulus) -> Seq<char> {
    match event {
        FallbackStimulus::Failed(detail) => detail,
        _ => unexpected_reply(),
    }
}

/// The state after the interpreter that was tried has given nothing, for the
/// reason `error`: the next one is tried, or the script is deleted where none
/// is left.
pub open spec fn after_attempt(s: FallbackState, error: Seq<char>) -> FallbackState {
    if s.attempt + 1 < s.candidates.len() {
        FallbackState {
            phase: FallbackPhase::Running,
            attempt: s.attempt + 1,
            last_error: error,
            ..s
        }
    } else {
        FallbackState { phase: FallbackPhase::Removing, last_error: error, ..s }
    }
}

/// The state after a run has ended with the given output.
pub open spec fn after_run(
    s: FallbackState,
    stdout: Seq<char>,
    stderr: Seq<char>,
    status: Seq<char>,
) -> FallbackState {
    let logged = FallbackState {
        logs: s.logs + run_section(s.candidates[s.attempt], stdout, stderr, status),
        ..s
    };
    if reports_success(stdout) {
        match config_path_in(stdout) {
            Some(path) => FallbackState {
                phase: FallbackPhase::Loading,
                config_path: path,
                ..logged
            },
            None => after_attempt(logged, no_path_found()),
        }
    } else {
        after_attempt(logged, script_failed(stdout, stderr))
    }
}

/// The state that follows `s` once `event` has come in.
pub open spec fn fallback_next(s: FallbackState, event: FallbackStimulus) -> FallbackState {
    match s.phase {
        FallbackPhase::Writing => match event {
            FallbackStimulus::Completed => FallbackState {
                phase: FallbackPhase::Running,
                attempt: 0,
                ..s
            },
            _ => FallbackState {
                phase: FallbackPhase::Removing,
                write_error: Some(failure_detail(event)),
                ..s
            },
        },
        FallbackPhase::Running => match event {
            FallbackStimulus::Exited { stdout, stderr, status } => after_run(
                s,
                stdout,
                stderr,
                status,
            ),
            _ => after_attempt(s, not_executed(s.candidates[s.attempt], failure_detail(event))),
        },
        FallbackPhase::Loading => match event {
            FallbackStimulus::Loaded(content) => FallbackState {
                phase: FallbackPhase::Removing,
                found: Some(content),
                ..s
            },
            _ => after_attempt(s, not_read(s.config_path, failure_detail(event))),
        },
        FallbackPhase::Removing => FallbackState { phase: FallbackPhase::Finished, ..s },
        FallbackPhase::Finished => s,
    }
}

/// The arguments that the script is run with: its own path, then the
/// address, user name and secret of the jump host and of the switch.
pub open spec fn run_arguments(s: FallbackState) -> Seq<Seq<char>> {
    seq![
        s.script_path,
        s.jump.host,
        s.jump.username,
        s.jump.secret,
        s.switch.host,
        s.switch.username,
        s.switch.secret,
    ]
}

/// What the caller gets once the bridge has finished.
pub open spec fn fallback_verdict(s: FallbackState) -> Report {
    match s.found {
        Some(configuration) => success_report(
            configuration,
            hostname_in(configuration),
            Some(s.logs),
        ),
        None => match s.write_error {
            Some(detail) => failure_report(Failure::ScriptNotWritten { detail }, Some(s.logs)),
            None => failure_report(
                Failure::FallbackExhausted { logs: s.logs, last_error: s.last_error },
                Some(s.logs),
            ),
        },
    }
}

/// What the bridge asks for in state `s`.
pub open spec fn fallback_pending(s: FallbackState) -> FallbackDirective {
    match s.phase {
        FallbackPhase::Writing => FallbackDirective::WriteScript { path: s.script_path },
        FallbackPhase::Running => FallbackDirective::Run {
            program: s.candidates[s.attempt],
            arguments: run_arguments(s),
            timeout_ms: s.run_timeout_ms,
        },
        FallbackPhase::Loading => FallbackDirective::ReadFile { path: s.config_path },
        FallbackPhase::Removing => FallbackDirective::RemoveScript { path: s.script_path },
        FallbackPhase::Finished => FallbackDirective::Finish { result: fallback_verdict(s) },
    }
}

/// Why an action did not do what was asked.
fn detail_text(event: FallbackEvent) -> (detail: String)
    ensures
        detail@ == failure_detail(event@),
{
    match event {
        FallbackEvent::Failed(detail) => detail,
        _ => String::from_str("unexpected reply"),
    }
}

/// The bridge to the script: it says what to do next, takes what came of it,
/// and ends with the result for the caller. Whatever happens, it asks for the
/// script's file to be deleted before it ends.
pub struct FallbackBridge {
    jump: EndpointCredentials,
    switch: EndpointCredentials,
    script_path: String,
    candidates: Vec<String>,
    run_timeout_ms: u64,
    phase: FallbackPhase,
    attempt: usize,
    logs: String,
    last_error: String,
    config_path: String,
    found: Option<String>,
    write_error: Option<String>,
}

impl View for FallbackBridge {
    type V = FallbackState;

    closed spec fn view(&self) -> FallbackState {
        FallbackState {
            jump: self.jump@,
            switch: self.switch@,
            script_path: self.script_path@,
            candidates: self.candidates.deep_view(),
            run_timeout_ms: self.run_timeout_ms,
            phase: self.phase,
            attempt: self.attempt as int,
            logs: self.logs@,
            last_error: self.last_error@,
            config_path: self.config_path@,
            found: text_view(self.found),
            write_error: text_view(self.write_error),
        }
    }
}

impl FallbackBridge {
    #[verifier::type_invariant]
    spec fn inv(&self) -> bool {
        self.attempt < self.candidates.len()
    }

    /// A bridge that will write the script to `script_path`, run it with the
    /// interpreters of `platform`, each for `run_timeout_ms` milliseconds at
    /// most, and hand it the two sets of credentials.
    pub fn new(
        jump: EndpointCredentials,
        switch: EndpointCredentials,
        script_path: &str,
        platform: Platform,
        run_timeout_ms: u64,
    ) -> (bridge: FallbackBridge)
        ensures
            bridge@ == initial_state(jump@, switch@, script_path@, platform, run_timeout_ms),
            well_formed(bridge@),
    {
        let candidates = interpreter_candidates(platform);
        assert(candidates.deep_view().len() == candidates.len());
        FallbackBridge {
            jump,
            switch,
            script_path: String::from_str(script_path),
            candidates,
            run_timeout_ms,
            phase: FallbackPhase::Writing,
            attempt: 0,
            logs: String::new(),
            last_error: String::new(),
            config_path: String::new(),
            found: None,
            write_error: None,
        }
    }

    /// Where the bridge stands.
    pub fn phase(&self) -> (phase: FallbackPhase)
        ensures
            phase == self@.phase,
    {
        self.phase
    }

    /// Whether the result is there.
    pub fn is_finished(&self) -> (done: bool)
        ensures
            done == (self@.phase == FallbackPhase::Finished),
    {
        self.phase == FallbackPhase::Finished
    }

    /// The name of the interpreter that is being tried.
    fn program(&self) -> (name: String)
        ensures
            name@ == self@.candidates[self@.attempt],
    {
        proof {
            use_type_invariant(self);
        }
        self.candidates[self.attempt].clone()
    }

    /// The arguments that the script is run with.
    fn arguments(&self) -> (arguments: Vec<String>)
        ensures
            arguments.deep_view() == run_arguments(self@),
    {
        let mut arguments: Vec<String> = Vec::new();
        arguments.push(self.script_path.clone());
        arguments.push(String::from_str(self.jump.host()));
        arguments.push(String::from_str(self.jump.username()));
        arguments.push(String::from_str(self.jump.secret()));
        arguments.push(String::from_str(self.switch.host()));
        arguments.push(String::from_str(self.switch.username()));
        arguments.push(String::from_str(self.switch.secret()));
        assert(arguments.deep_view() =~= run_arguments(self@));
        arguments
    }

    /// What the caller gets once the bridge has finished.
    pub fn verdict(&self) -> (result: RetrievalResult)
        ensures
            result@ == fallback_verdict(self@),
    {
        match &self.found {
            Some(configuration) => {
                let chars = chars_of(configuration.as_str());
                let hostname = hostname_of(chars.as_slice());
                RetrievalResult::succeeded(configuration.clone(), hostname, Some(self.logs.clone()))
            },
            None => match &self.write_error {
                Some(detail) => RetrievalResult::failed(
                    &RetrievalError::ScriptNotWritten { detail: detail.clone() },
                    Some(self.logs.clone()),
                ),
                None => RetrievalResult::failed(
                    &RetrievalError::FallbackExhausted {
                        logs: self.logs.clone(),
                        last_error: self.last_error.clone(),
                    },
                    Some(self.logs.clone()),
                ),
            },
        }
    }

    /// What the bridge asks for now.
    pub fn pending(&self) -> (action: FallbackAction)
        ensures
            action@ == fallback_pending(self@),
    {
        match self.phase {
            FallbackPhase::Writing => FallbackAction::WriteScript {
                path: self.script_path.clone(),
            },
            FallbackPhase::Running => FallbackAction::Run {
                program: self.program(),
                arguments: self.arguments(),
                timeout_ms: self.run_timeout_ms,
            },
            FallbackPhase::Loading => FallbackAction::ReadFile { path: self.config_path.clone() },
            FallbackPhase::Removing => FallbackAction::RemoveScript {
                path: self.script_path.clone(),
            },
            FallbackPhase::Finished => FallbackAction::Finish { result: self.verdict() },
        }
    }

    /// Passes on from the interpreter that was tried, for the reason `error`.
    fn give_up_attempt(&mut self, error: String)
        ensures
            final(self)@ == after_attempt(old(self)@, error@),
    {
        proof {
            use_type_invariant(&*self);
        }
        self.last_error = error;
        if self.attempt + 1 < self.candidates.len() {
            self.attempt = self.attempt + 1;
            self.phase = FallbackPhase::Running;
        } else {
            self.phase = FallbackPhase::Removing;
        }
    }

    /// Takes in the output of a run that has ended.
    fn take_run(&mut self, stdout: String, stderr: String, status: String)
        ensures
            final(self)@ == after_run(old(self)@, stdout@, stderr@, status@),
    {
        proof {
            use_type_invariant(&*self);
        }
        let program = self.program();
        let section = run_section_text(
            program.as_str(),
            stdout.as_str(),
            stderr.as_str(),
            status.as_str(),
        );
        let mut logs = self.logs.clone();
        logs.append(section.as_str());
        self.logs = logs;
        let chars = chars_of(stdout.as_str());
        if output_reports_success(chars.as_slice()) {
            match find_config_path(chars.as_slice()) {
                Some(path) => {
                    self.config_path = path;
                    self.phase = FallbackPhase::Loading;
                },
                None => {
                    self.give_up_attempt(
                        String::from_str("Script executed but could not find output file path"),
                    );
                },
            }
        } else {
            let mut error = String::from_str("Script failed. Stdout: ");
            error.append(stdout.as_str());
            error.append(" Stderr: ");
            error.append(stderr.as_str());
            self.give_up_attempt(error);
        }
    }

    /// Takes in what came of the action that was asked for, and says what to
    /// do next.
    pub fn advance(&mut self, event: FallbackEvent) -> (action: FallbackAction)
        ensures
            final(self)@ == fallback_next(old(self)@, event@),
            action@ == fallback_pending(final(self)@),
            well_formed(final(self)@),
    {
        proof {
            use_type_invariant(&*self);
        }
        match self.phase {
            FallbackPhase::Writing => match event {
                FallbackEvent::Completed => {
                    self.attempt = 0;
                    self.phase = FallbackPhase::Running;
                },
                other => {
                    self.write_error = Some(detail_text(other));
                    self.phase = FallbackPhase::Removing;
                },
            },
            FallbackPhase::Running => match event {
                FallbackEvent::Exited { stdout, stderr, status } => {
                    self.take_run(stdout, stderr, status);
                },
                other => {
                    let mut error = String::from_str("Failed to execute ");
                    error.append(self.program().as_str());
                    error.append(": ");
                    error.append(detail_text(other).as_str());
                    self.give_up_attempt(error);
                },
            },
            FallbackPhase::Loading => match event {
                FallbackEvent::Loaded(content) => {
                    self.found = Some(content);
                    self.phase = FallbackPhase::Removing;
                },
                other => {
                    let mut error = String::from_str("Failed to read configuration file ");
                    error.append(self.config_path.as_str());
                    error.append(": ");
                    error.append(detail_text(other).as_str());
                    self.give_up_attempt(error);
                },
            },
            FallbackPhase::Removing => {
                self.phase = FallbackPhase::Finished;
            },
            FallbackPhase::Finished => {},
        }
        proof {
            use_type_invariant(&*self);
        }
        self.pending()
    }
}

} // verus!
