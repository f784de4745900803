//! The relay: a session on the jump host, a nested client to the switch on
//! one channel of it, and the timed conversation that brings the
//! configuration back. The sequencer here decides; its driver connects,
//! sleeps, writes and reads.

use crate::command::{
    dump_command, dump_command_line, line_of, nested_command, nested_ssh_command, typed_line,
    Delivery,
};
use crate::credentials::{service_address, socket_address, Endpoint, EndpointCredentials};
use crate::outcome::{
    assess, assessment, failure_report, unexpected_reply, Failure, Report, RetrievalError,
    RetrievalResult,
};
use crate::text::{chars_of, contains, decode_lossy, includes, lossy_text};
use vstd::prelude::*;
use vstd::utf8::{decode_utf8, valid_utf8};

verus! {

/// The delays, limits and choices of one retrieval.
#[derive(Debug, Clone, Copy, PartialEq, Eq)]
pub struct RelaySettings {
    /// How the dump command reaches the switch.
    pub delivery: Delivery,
    /// How long connecting to the jump host and authenticating may each take.
    pub handshake_timeout_ms: u64,
    /// How long the switch is given to ask for its password.
    pub settle_delay_ms: u64,
    /// How long the switch is given to let the user in and start its shell.
    pub startup_delay_ms: u64,
    /// How long the output is waited for, from the first read on.
    pub drain_window_ms: u64,
    /// How long a read that brought nothing is followed by rest.
    pub backoff_ms: u64,
    /// The length, in characters, below which a text is no configuration.
    pub min_output_len: usize,
    /// How many characters of a text that is too short are shown.
    pub preview_len: usize,
}

/// The settings that experience has given.
pub open spec fn standard_settings() -> RelaySettings {
    RelaySettings {
        delivery: Delivery::Argument,
        handshake_timeout_ms: 10_000,
        settle_delay_ms: 2_000,
        startup_delay_ms: 5_000,
        drain_window_ms: 30_000,
        backoff_ms: 100,
        min_output_len: 100,
        preview_len: 200,
    }
}

impl RelaySettings {
    /// The settings that experience has given: the command as an argument,
    /// ten seconds for each handshake, two and five seconds of delay, thirty
    /// seconds of reading with a tenth of a second between empty reads, a
    /// hundred characters at least and two hundred shown.
    pub fn standard() -> (settings: RelaySettings)
        ensures
            settings == standard_settings(),
    {
        RelaySettings {
            delivery: Delivery::Argument,
            handshake_timeout_ms: 10_000,
            settle_delay_ms: 2_000,
            startup_delay_ms: 5_000,
            drain_window_ms: 30_000,
            backoff_ms: 100,
            min_output_len: 100,
            preview_len: 200,
        }
    }
}

/// A line that says that the configuration is complete.
pub open spec fn complete_marker() -> Seq<char> {
    "# Configuration complete"@
}

/// A line that ends the configuration.
pub open spec fn end_marker() -> Seq<char> {
    "# End of configuration"@
}

/// What was captured holds a sign that the switch has finished.
pub open spec fn is_complete(captured: Seq<char>) -> bool {
    contains(captured, complete_marker()) || contains(captured, end_marker())
}

/// Whether what was captured holds a sign that the switch has finished.
pub fn signals_completion(captured: &[char]) -> (done: bool)
    ensures
        done == is_complete(captured@),
{
    let complete = chars_of("# Configuration complete");
    let end = chars_of("# End of configuration");
    includes(captured, complete.as_slice()) || includes(captured, end.as_slice())
}

/// Where the sequencer stands: each phase waits for one action of the driver.
#[derive(Debug, Clone, Copy, PartialEq, Eq, Structural)]
pub enum RelayPhase {
    /// The transport to the jump host is being set up.
    Connecting,
    /// The jump host is checking the credentials.
    Authenticating,
    /// The channel is being opened.
    OpeningChannel,
    /// The nested client is being started on the channel.
    Launching,
    /// The switch is given time to ask for its password.
    Settling,
    /// The switch's password is being written.
    SendingSecret,
    /// The switch is given time to let the user in.
    Pausing,
    /// The dump command is being typed.
    TypingCommand,
    /// The output is being read.
    Draining,
    /// A read brought nothing, and a rest follows it.
    BackingOff,
    /// The channel is being closed.
    Closing,
    /// The session is being ended.
    Disconnecting,
    /// The result is there.
    Finished,
}

/// What came of the action that the sequencer asked for, as text.
pub enum RelayStimulus {
    Completed,
    Refused,
    TimedOut,
    Failed(Seq<char>),
    Received(Seq<char>),
    Quiet,
    Ended,
}

/// What came of the action that the sequencer asked for.
#[derive(Debug, Clone, PartialEq, Eq)]
pub enum RelayEvent {
    /// The action was carried out.
    Completed,
    /// The jump host answered no to the credentials.
    Refused,
    /// The action was not carried out within the time it was given.
    TimedOut,
    /// The action failed, for the reason given.
    Failed(String),
    /// The read brought this text.
    Received(String),
    /// The read brought nothing yet.
    Quiet,
    /// The channel was closed from the other side.
    Ended,
}

impl View for RelayEvent {
    type V = RelayStimulus;

    open spec fn view(&self) -> RelayStimulus {
        match *self {
            RelayEvent::Completed => RelayStimulus::Completed,
            RelayEvent::Refused => RelayStimulus::Refused,
            RelayEvent::TimedOut => RelayStimulus::TimedOut,
            RelayEvent::Failed(detail) => RelayStimulus::Failed(detail@),
            RelayEvent::Received(text) => RelayStimulus::Received(text@),
            RelayEvent::Quiet => RelayStimulus::Quiet,
            RelayEvent::Ended => RelayStimulus::Ended,
        }
    }
}

impl RelayEvent {
    /// The event of a read that brought `bytes`: they are taken as text,
    /// with a replacement character for what is no text.
    pub fn received(bytes: &[u8]) -> (event: RelayEvent)
        ensures
            event@ == RelayStimulus::Received(lossy_text(bytes@)),
            valid_utf8(bytes@) ==> event@ == RelayStimulus::Received(decode_utf8(bytes@)),
    {
        RelayEvent::Received(decode_lossy(bytes))
    }
}

/// What the sequencer asks its driver to do, as text.
pub enum RelayDirective {
    Connect { address: Seq<char>, timeout_ms: u64 },
    Authenticate { username: Seq<char>, secret: Seq<char>, timeout_ms: u64 },
    OpenChannel,
    Execute { command: Seq<char> },
    Sleep { millis: u64 },
    Write { text: Seq<char> },
    Read,
    CloseChannel,
    Disconnect,
    Finish { result: Report },
}

/// What the sequencer asks its driver to do.
#[derive(Debug, Clone, PartialEq, Eq)]
pub enum RelayAction {
    /// Connect to `address`, within `timeout_ms` milliseconds, and take
    /// whatever host key is shown.
    Connect { address: String, timeout_ms: u64 },
    /// Authenticate once, by password, within `timeout_ms` milliseconds.
    Authenticate { username: String, secret: String, timeout_ms: u64 },
    /// Open a session channel.
    OpenChannel,
    /// Run `command` on the channel.
    Execute { command: String },
    /// Wait for `millis` milliseconds, reading nothing.
    Sleep { millis: u64 },
    /// Write `text` to the channel.
    Write { text: String },
    /// Read what the channel has, without waiting for more.
    Read,
    /// Close the channel.
    CloseChannel,
    /// End the session.
    Disconnect,
    /// Hand `result` to the caller: nothing is left to do.
    Finish { result: RetrievalResult },
}

impl View for RelayAction {
    type V = RelayDirective;

    open spec fn view(&self) -> RelayDirective {
        match *self {
            RelayAction::Connect { address, timeout_ms } => RelayDirective::Connect {
                address: address@,
                timeout_ms,
            },
            RelayAction::Authenticate { username, secret, timeout_ms } => {
                RelayDirective::Authenticate { username: username@, secret: secret@, timeout_ms }
            },
            RelayAction::OpenChannel => RelayDirective::OpenChannel,
            RelayAction::Execute { command } => RelayDirective::Execute { command: command@ },
            RelayAction::Sleep { millis } => RelayDirective::Sleep { millis },
            RelayAction::Write { text } => RelayDirective::Write { text: text@ },
            RelayAction::Read => RelayDirective::Read,
            RelayAction::CloseChannel => RelayDirective::CloseChannel,
            RelayAction::Disconnect => RelayDirective::Disconnect,
            RelayAction::Finish { result } => RelayDirective::Finish { result: result@ },
        }
    }
}

/// The state of the sequencer, as text.
pub struct RelayState {
    pub jump: Endpoint,
    pub switch: Endpoint,
    pub settings: RelaySettings,
    pub phase: RelayPhase,
    /// What the switch has sent so far.
    pub captured: Seq<char>,
    /// The clock's reading when the output was first read for.
    pub drain_started_ms: u64,
    /// Why the retrieval has failed, once it has.
    pub failure: Option<Failure>,
}

/// The state in which a sequencer sets out.
pub open spec fn initial_state(
    jump: Endpoint,
    switch: Endpoint,
    settings: RelaySettings,
) -> RelayState {
    RelayState {
        jump,
        switch,
        settings,
        phase: RelayPhase::Connecting,
        captured: Seq::empty(),
        drain_started_ms: 0,
        failure: None,
    }
}

/// What stands for the cause where an action took too long.
pub open spec fn timed_out() -> Seq<char> {
    "délai dépassé"@
}

/// Why an action did not do what was asked.
pub open spec fn failure_detail(event: RelayStimulus) -> Seq<char> {
    match event {
        RelayStimulus::Failed(detail) => detail,
        RelayStimulus::TimedOut => timed_out(),
        _ => unexpected_reply(),
    }
}

/// The state in which the retrieval has failed and `phase` is what is left
/// to do.
pub open spec fn failed_state(s: RelayState, failure: Failure, phase: RelayPhase) -> RelayState {
    RelayState { phase, failure: Some(failure), ..s }
}

/// The state in which a channel that stood has failed: it is closed next.
pub open spec fn channel_failed(s: RelayState, event: RelayStimulus) -> RelayState {
    failed_state(s, Failure::Channel { detail: failure_detail(event) }, RelayPhase::Closing)
}

/// The time for reading is over at the clock's reading `now_ms`.
pub open spec fn expired(s: RelayState, now_ms: u64) -> bool {
    now_ms >= s.drain_started_ms + s.settings.drain_window_ms
}

/// The state in which the output is first read for, at the clock's reading
/// `now_ms`.
pub open spec fn draining_from(s: RelayState, now_ms: u64) -> RelayState {
    RelayState { phase: RelayPhase::Draining, drain_started_ms: now_ms, ..s }
}

/// The state that follows `s` once `event` has come in at the clock's
/// reading `now_ms`.
pub open spec fn relay_next(s: RelayState, event: RelayStimulus, now_ms: u64) -> RelayState {
    match s.phase {
        RelayPhase::Connecting => match event {
            RelayStimulus::Completed => RelayState { phase: RelayPhase::Authenticating, ..s },
            _ => failed_state(
                s,
                Failure::Connect { address: s.jump.host, detail: failure_detail(event) },
                RelayPhase::Finished,
            ),
        },
        RelayPhase::Authenticating => match event {
            RelayStimulus::Completed => RelayState { phase: RelayPhase::OpeningChannel, ..s },
            RelayStimulus::Refused => failed_state(
                s,
                Failure::AuthRejected { address: s.jump.host },
                RelayPhase::Disconnecting,
            ),
            _ => failed_state(
                s,
                Failure::AuthFailed { address: s.jump.host, detail: failure_detail(event) },
                RelayPhase::Disconnecting,
            ),
        },
        RelayPhase::OpeningChannel => match event {
            RelayStimulus::Completed => RelayState { phase: RelayPhase::Launching, ..s },
            _ => failed_state(
                s,
                Failure::Channel { detail: failure_detail(event) },
                RelayPhase::Disconnecting,
            ),
        },
        RelayPhase::Launching => match event {
            RelayStimulus::Completed => RelayState { phase: RelayPhase::Settling, ..s },
            _ => channel_failed(s, event),
        },
        RelayPhase::Settling => match event {
            RelayStimulus::Completed => if s.switch.secret.len() > 0 {
                RelayState { phase: RelayPhase::SendingSecret, ..s }
            } else {
                RelayState { phase: RelayPhase::Pausing, ..s }
            },
            _ => channel_failed(s, event),
        },
        RelayPhase::SendingSecret => match event {
            RelayStimulus::Completed => RelayState { phase: RelayPhase::Pausing, ..s },
            _ => channel_failed(s, event),
        },
        RelayPhase::Pausing => match event {
            RelayStimulus::Completed => if s.settings.delivery == Delivery::Typed {
                RelayState { phase: RelayPhase::TypingCommand, ..s }
            } else {
                draining_from(s, now_ms)
            },
            _ => channel_failed(s, event),
        },
        RelayPhase::TypingCommand => match event {
            RelayStimulus::Completed => draining_from(s, now_ms),
            _ => channel_failed(s, event),
        },
        RelayPhase::Draining => match event {
            RelayStimulus::Received(text) => {
                let captured = s.captured + text;
                if is_complete(captured) || expired(s, now_ms) {
                    RelayState { phase: RelayPhase::Closing, captured, ..s }
                } else {
                    RelayState { captured, ..s }
                }
            },
            RelayStimulus::Quiet => if expired(s, now_ms) {
                RelayState { phase: RelayPhase::Closing, ..s }
            } else {
                RelayState { phase: RelayPhase::BackingOff, ..s }
            },
            _ => RelayState { phase: RelayPhase::Closing, ..s },
        },
        RelayPhase::BackingOff => match event {
            RelayStimulus::Completed => if expired(s, now_ms) {
                RelayState { phase: RelayPhase::Closing, ..s }
            } else {
                RelayState { phase: RelayPhase::Draining, ..s }
            },
            _ => RelayState { phase: RelayPhase::Closing, ..s },
        },
        RelayPhase::Closing => RelayState { phase: RelayPhase::Disconnecting, ..s },
        RelayPhase::Disconnecting => RelayState { phase: RelayPhase::Finished, ..s },
        RelayPhase::Finished => s,
    }
}

/// What the caller gets once the sequencer has finished: the failure that
/// was met, or else the judgement on what was captured.
pub open spec fn relay_verdict(s: RelayState) -> Report {
    match s.failure {
        Some(failure) => failure_report(failure, None),
        None => assessment(
            s.captured,
            s.switch.host,
            s.settings.min_output_len as int,
            s.settings.preview_len as int,
        ),
    }
}

/// What the sequencer asks for in state `s`.
pub open spec fn relay_pending(s: RelayState) -> RelayDirective {
    match s.phase {
        RelayPhase::Connecting => RelayDirective::Connect {
            address: service_address(s.jump.host),
            timeout_ms: s.settings.handshake_timeout_ms,
        },
        RelayPhase::Authenticating => RelayDirective::Authenticate {
            username: s.jump.username,
            secret: s.jump.secret,
            timeout_ms: s.settings.handshake_timeout_ms,
        },
        RelayPhase::OpeningChannel => RelayDirective::OpenChannel,
        RelayPhase::Launching => RelayDirective::Execute {
            command: nested_command(s.switch.username, s.switch.host, s.settings.delivery),
        },
        RelayPhase::Settling => RelayDirective::Sleep { millis: s.settings.settle_delay_ms },
        RelayPhase::SendingSecret => RelayDirective::Write { text: typed_line(s.switch.secret) },
        RelayPhase::Pausing => RelayDirective::Sleep { millis: s.settings.startup_delay_ms },
        RelayPhase::TypingCommand => RelayDirective::Write { text: typed_line(dump_command()) },
        RelayPhase::Draining => RelayDirective::Read,
        RelayPhase::BackingOff => RelayDirective::Sleep { millis: s.settings.backoff_ms },
        RelayPhase::Closing => RelayDirective::CloseChannel,
        RelayPhase::Disconnecting => RelayDirective::Disconnect,
        RelayPhase::Finished => RelayDirective::Finish { result: relay_verdict(s) },
    }
}

/// A failure as text, where there is one.
pub open spec fn failure_view(failure: Option<RetrievalError>) -> Option<Failure> {
    match failure {
        Some(error) => Some(error@),
        None => None,
    }
}

/// Why an action did not do what was asked.
pub fn detail_text(event: RelayEvent) -> (detail: String)
    ensures
        detail@ == failure_detail(event@),
{
    match event {
        RelayEvent::Failed(detail) => detail,
        RelayEvent::TimedOut => String::from_str("délai dépassé"),
        _ => String::from_str("unexpected reply"),
    }
}

/// The sequencer of one retrieval through the jump host. It says what to do
/// next, takes what came of it with the clock's reading, and ends with the
/// result for the caller.
pub struct RelaySequencer {
    jump: EndpointCredentials,
    switch: EndpointCredentials,
    settings: RelaySettings,
    phase: RelayPhase,
    captured: Vec<char>,
    drain_started_ms: u64,
    failure: Option<RetrievalError>,
}

impl View for RelaySequencer {
    type V = RelayState;

    closed spec fn view(&self) -> RelayState {
        RelayState {
            jump: self.jump@,
            switch: self.switch@,
            settings: self.settings,
            phase: self.phase,
            captured: self.captured@,
            drain_started_ms: self.drain_started_ms,
            failure: failure_view(self.failure),
        }
    }
}

impl RelaySequencer {
    /// A sequencer that will reach the switch of `switch` through the jump
    /// host of `jump`.
    pub fn new(
        jump: EndpointCredentials,
        switch: EndpointCredentials,
        settings: RelaySettings,
    ) -> (sequencer: RelaySequencer)
        ensures
            sequencer@ == initial_state(jump@, switch@, settings),
    {
        RelaySequencer {
            jump,
            switch,
            settings,
            phase: RelayPhase::Connecting,
            captured: Vec::new(),
            drain_started_ms: 0,
            failure: None,
        }
    }

    /// Where the sequencer stands.
    pub fn phase(&self) -> (phase: RelayPhase)
        ensures
            phase == self@.phase,
    {
        self.phase
    }

    /// Whether the result is there.
    pub fn is_finished(&self) -> (done: bool)
        ensures
            done == (self@.phase == RelayPhase::Finished),
    {
        self.phase == RelayPhase::Finished
    }

    /// How many characters the switch has sent so far.
    pub fn captured_len(&self) -> (len: usize)
        ensures
            len == self@.captured.len(),
    {
        self.captured.len()
    }

    /// What the caller gets once the sequencer has finished.
    pub fn verdict(&self) -> (result: RetrievalResult)
        ensures
            result@ == relay_verdict(self@),
    {
        match &self.failure {
            Some(error) => RetrievalResult::failed(error, None),
            None => assess(
                self.captured.as_slice(),
                self.switch.host(),
                self.settings.min_output_len,
                self.settings.preview_len,
            ),
        }
    }

    /// What the sequencer asks for now.
    pub fn pending(&self) -> (action: RelayAction)
        ensures
            action@ == relay_pending(self@),
    {
        match self.phase {
            RelayPhase::Connecting => RelayAction::Connect {
                address: socket_address(self.jump.host()),
                timeout_ms: self.settings.handshake_timeout_ms,
            },
            RelayPhase::Authenticating => RelayAction::Authenticate {
                username: String::from_str(self.jump.username()),
                secret: String::from_str(self.jump.secret()),
                timeout_ms: self.settings.handshake_timeout_ms,
            },
            RelayPhase::OpeningChannel => RelayAction::OpenChannel,
            RelayPhase::Launching => RelayAction::Execute {
                command: nested_ssh_command(
                    self.switch.username(),
                    self.switch.host(),
                    self.settings.delivery,
                ),
            },
            RelayPhase::Settling => RelayAction::Sleep { millis: self.settings.settle_delay_ms },
            RelayPhase::SendingSecret => RelayAction::Write { text: line_of(self.switch.secret()) },
            RelayPhase::Pausing => RelayAction::Sleep { millis: self.settings.startup_delay_ms },
            RelayPhase::TypingCommand => RelayAction::Write { text: dump_command_line() },
            RelayPhase::Draining => RelayAction::Read,
            RelayPhase::BackingOff => RelayAction::Sleep { millis: self.settings.backoff_ms },
            RelayPhase::Closing => RelayAction::CloseChannel,
            RelayPhase::Disconnecting => RelayAction::Disconnect,
            RelayPhase::Finished => RelayAction::Finish { result: self.verdict() },
        }
    }

    /// Whether the time for reading is over at the clock's reading `now_ms`.
    fn is_expired(&self, now_ms: u64) -> (over: bool)
        ensures
            over == expired(self@, now_ms),
    {
        now_ms >= self.drain_started_ms && now_ms - self.drain_started_ms
            >= self.settings.drain_window_ms
    }

    /// Records that the channel has failed, and goes on to close it.
    fn fail_channel(&mut self, event: RelayEvent)
        ensures
            final(self)@ == channel_failed(old(self)@, event@),
    {
        self.failure = Some(RetrievalError::Channel { detail: detail_text(event) });
        self.phase = RelayPhase::Closing;
    }

    /// Takes in what came of the action that was asked for, at the clock's
    /// reading `now_ms` in milliseconds, and says what to do next.
    pub fn advance(&mut self, event: RelayEvent, now_ms: u64) -> (action: RelayAction)
        ensures
            final(self)@ == relay_next(old(self)@, event@, now_ms),
            action@ == relay_pending(final(self)@),
    {
        match self.phase {
            RelayPhase::Connecting => match event {
                RelayEvent::Completed => {
                    self.phase = RelayPhase::Authenticating;
                },
                other => {
                    self.failure = Some(
                        RetrievalError::Connect {
                            address: String::from_str(self.jump.host()),
                            detail: detail_text(other),
                        },
                    );
                    self.phase = RelayPhase::Finished;
                },
            },
            RelayPhase::Authenticating => match event {
                RelayEvent::Completed => {
                    self.phase = RelayPhase::OpeningChannel;
                },
                RelayEvent::Refused => {
                    self.failure = Some(
                        RetrievalError::AuthRejected {
                            address: String::from_str(self.jump.host()),
                        },
                    );
                    self.phase = RelayPhase::Disconnecting;
                },
                other => {
                    self.failure = Some(
                        RetrievalError::AuthFailed {
                            address: String::from_str(self.jump.host()),
                            detail: detail_text(other),
                        },
                    );
                    self.phase = RelayPhase::Disconnecting;
                },
            },
            RelayPhase::OpeningChannel => match event {
                RelayEvent::Completed => {
                    self.phase = RelayPhase::Launching;
                },
                other => {
                    self.failure = Some(RetrievalError::Channel { detail: detail_text(other) });
                    self.phase = RelayPhase::Disconnecting;
                },
            },
            RelayPhase::Launching => match event {
                RelayEvent::Completed => {
                    self.phase = RelayPhase::Settling;
                },
                other => {
                    self.fail_channel(other);
                },
            },
            RelayPhase::Settling => match event {
                RelayEvent::Completed => {
                    if self.switch.has_secret() {
                        self.phase = RelayPhase::SendingSecret;
                    } else {
                        self.phase = RelayPhase::Pausing;
                    }
                },
                other => {
                    self.fail_channel(other);
                },
            },
            RelayPhase::SendingSecret => match event {
                RelayEvent::Completed => {
                    self.phase = RelayPhase::Pausing;
                },
                other => {
                    self.fail_channel(other);
                },
            },
            RelayPhase::Pausing => match event {
                RelayEvent::Completed => {
                    if self.settings.delivery == Delivery::Typed {
                        self.phase = RelayPhase::TypingCommand;
                    } else {
                        self.drain_started_ms = now_ms;
                        self.phase = RelayPhase::Draining;
                    }
                },
                other => {
                    self.fail_channel(other);
                },
            },
            RelayPhase::TypingCommand => match event {
                RelayEvent::Completed => {
                    self.drain_started_ms = now_ms;
                    self.phase = RelayPhase::Draining;
                },
                other => {
                    self.fail_channel(other);
                },
            },
            RelayPhase::Draining => match event {
                RelayEvent::Received(text) => {
                    let mut chunk = chars_of(text.as_str());
                    self.captured.append(&mut chunk);
                    if signals_completion(self.captured.as_slice()) || self.is_expired(now_ms) {
                        self.phase = RelayPhase::Closing;
                    }
                },
                RelayEvent::Quiet => {
                    if self.is_expired(now_ms) {
                        self.phase = RelayPhase::Closing;
                    } else {
                        self.phase = RelayPhase::BackingOff;
                    }
                },
                _ => {
                    self.phase = RelayPhase::Closing;
                },
            },
            RelayPhase::BackingOff => match event {
                RelayEvent::Completed => {
                    if self.is_expired(now_ms) {
                        self.phase = RelayPhase::Closing;
                    } else {
                        self.phase = RelayPhase::Draining;
                    }
                },
                _ => {
                    self.phase = RelayPhase::Closing;
                },
            },
            RelayPhase::Closing => {
                self.phase = RelayPhase::Disconnecting;
            },
            RelayPhase::Disconnecting => {
                self.phase = RelayPhase::Finished;
            },
            RelayPhase::Finished => {},
        }
        self.pending()
    }
}

} // verus!
