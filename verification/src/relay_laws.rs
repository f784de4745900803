//! What holds of every retrieval through the relay: a login that fails
//! opens no channel, reading stops at a sign of completion and at the
//! deadline, and what is set up is taken down.

use crate::credentials::Endpoint;
use crate::hostname::hostname_in;
use crate::outcome::{assessment, insufficient, lemma_failure_names_address, Failure};
use crate::relay::{
    complete_marker, end_marker, expired, initial_state, is_complete, relay_next, relay_pending,
    relay_verdict, RelayDirective, RelayPhase, RelaySettings, RelayState, RelayStimulus,
};
use crate::text::{contains, lemma_contains_wider};
use vstd::prelude::*;

verus! {

/// The state after the events of `events` have come in, one after another,
/// each with the clock's reading beside it.
pub open spec fn relay_run(s: RelayState, events: Seq<(RelayStimulus, u64)>) -> RelayState
    decreases events.len(),
{
    if events.len() == 0 {
        s
    } else {
        relay_next(relay_run(s, events.drop_last()), events.last().0, events.last().1)
    }
}

/// How far a phase is on the way to the end. Reading and resting between
/// reads stand equally far.
pub open spec fn phase_rank(phase: RelayPhase) -> nat {
    match phase {
        RelayPhase::Connecting => 0,
        RelayPhase::Authenticating => 1,
        RelayPhase::OpeningChannel => 2,
        RelayPhase::Launching => 3,
        RelayPhase::Settling => 4,
        RelayPhase::SendingSecret => 5,
        RelayPhase::Pausing => 6,
        RelayPhase::TypingCommand => 7,
        RelayPhase::Draining => 8,
        RelayPhase::BackingOff => 8,
        RelayPhase::Closing => 9,
        RelayPhase::Disconnecting => 10,
        RelayPhase::Finished => 11,
    }
}

/// The phases in which the channel stands open.
pub open spec fn channel_open(phase: RelayPhase) -> bool {
    3 <= phase_rank(phase) <= 8
}

/// The failure is one of authentication on the jump host at `address`.
pub open spec fn is_auth_failure(failure: Option<Failure>, address: Seq<char>) -> bool {
    match failure {
        Some(Failure::AuthRejected { address: named }) => named == address,
        Some(Failure::AuthFailed { address: named, .. }) => named == address,
        _ => false,
    }
}

/// Where the jump host does not accept the credentials, whatever comes
/// after, no channel is asked for: the session is ended, and the caller gets
/// a failure whose message holds the jump host's address.
pub proof fn lemma_failed_login_opens_no_channel(
    s: RelayState,
    event: RelayStimulus,
    now_ms: u64,
    later: Seq<(RelayStimulus, u64)>,
)
    requires
        s.phase == RelayPhase::Authenticating,
        event != RelayStimulus::Completed,
    ensures
        ({
            let after = relay_run(relay_next(s, event, now_ms), later);
            &&& after.phase == RelayPhase::Disconnecting || after.phase == RelayPhase::Finished
            &&& later.len() >= 1 ==> after.phase == RelayPhase::Finished
            &&& relay_pending(after) != RelayDirective::OpenChannel
            &&& is_auth_failure(after.failure, s.jump.host)
            &&& !relay_verdict(after).success
            &&& contains(relay_verdict(after).message, s.jump.host)
        }),
    decreases later.len(),
{
    if later.len() > 0 {
        lemma_failed_login_opens_no_channel(s, event, now_ms, later.drop_last());
    }
    let after = relay_run(relay_next(s, event, now_ms), later);
    lemma_failure_names_address(after.failure->0);
}

/// The same of a whole retrieval: where the first event is that the jump
/// host was reached and the second is not that it accepted the credentials,
/// no state that the retrieval passes through asks for a channel.
pub proof fn lemma_rejected_retrieval_opens_no_channel(
    jump: Endpoint,
    switch: Endpoint,
    settings: RelaySettings,
    events: Seq<(RelayStimulus, u64)>,
    seen: int,
)
    requires
        events.len() >= 2,
        events[0].0 == RelayStimulus::Completed,
        events[1].0 != RelayStimulus::Completed,
        0 <= seen <= events.len(),
    ensures
        ({
            let state = relay_run(initial_state(jump, switch, settings), events.take(seen));
            &&& relay_pending(state) != RelayDirective::OpenChannel
            &&& seen >= 2 ==> !relay_verdict(state).success && contains(
                relay_verdict(state).message,
                jump.host,
            )
        }),
{
    let start = initial_state(jump, switch, settings);
    let first = events.take(1);
    assert(first.drop_last() =~= Seq::<(RelayStimulus, u64)>::empty());
    assert(relay_run(start, first.drop_last()) == start);
    let reached = relay_run(start, first);
    assert(reached == relay_next(start, events[0].0, events[0].1));
    assert(reached.phase == RelayPhase::Authenticating);
    if seen == 0 {
        assert(events.take(0) =~= Seq::<(RelayStimulus, u64)>::empty());
    } else if seen == 1 {
    } else {
        let later = events.subrange(2, seen);
        lemma_failed_login_opens_no_channel(reached, events[1].0, events[1].1, later);
        let second = events.take(2);
        assert(second.drop_last() =~= first);
        assert(relay_run(start, second) == relay_next(reached, events[1].0, events[1].1));
        lemma_run_splits(start, second, later);
        assert(second + later =~= events.take(seen));
    }
}

/// Events that come in after others continue from the state that the others
/// left.
pub proof fn lemma_run_splits(
    s: RelayState,
    earlier: Seq<(RelayStimulus, u64)>,
    later: Seq<(RelayStimulus, u64)>,
)
    ensures
        relay_run(s, earlier + later) == relay_run(relay_run(s, earlier), later),
    decreases later.len(),
{
    if later.len() == 0 {
        assert(earlier + later =~= earlier);
    } else {
        lemma_run_splits(s, earlier, later.drop_last());
        assert((earlier + later).drop_last() =~= earlier + later.drop_last());
        assert((earlier + later).last() == later.last());
    }
}

/// Reading stops as soon as what was captured holds a sign of completion,
/// whatever the clock says; what was read is kept.
pub proof fn lemma_completion_stops_reading(s: RelayState, text: Seq<char>, now_ms: u64)
    requires
        s.phase == RelayPhase::Draining,
        is_complete(s.captured + text),
    ensures
        ({
            let next = relay_next(s, RelayStimulus::Received(text), now_ms);
            &&& next.phase == RelayPhase::Closing
            &&& next.captured == s.captured + text
            &&& next.failure == s.failure
            &&& relay_pending(next) == RelayDirective::CloseChannel
        }),
{
}

/// A sign of completion in what a read brought is one in what was captured.
pub proof fn lemma_sign_in_chunk_completes(captured: Seq<char>, text: Seq<char>)
    requires
        is_complete(text),
    ensures
        is_complete(captured + text),
{
    if contains(text, complete_marker()) {
        lemma_contains_wider(captured, text, Seq::empty(), complete_marker());
    } else {
        lemma_contains_wider(captured, text, Seq::empty(), end_marker());
    }
}

/// What a read brought, where the event is one of a read that brought
/// something while the output was read for.
pub open spec fn brought(s: RelayState, event: RelayStimulus) -> Seq<char> {
    match event {
        RelayStimulus::Received(text) if s.phase == RelayPhase::Draining => text,
        _ => Seq::empty(),
    }
}

/// Reading stops at the deadline, sign of completion or none: whatever
/// comes in once the time is over, the channel is closed next, and what was
/// captured is kept, with what the last read brought.
pub proof fn lemma_deadline_stops_reading(s: RelayState, event: RelayStimulus, now_ms: u64)
    requires
        s.phase == RelayPhase::Draining || s.phase == RelayPhase::BackingOff,
        expired(s, now_ms),
    ensures
        ({
            let next = relay_next(s, event, now_ms);
            &&& next.phase == RelayPhase::Closing
            &&& next.captured == s.captured + brought(s, event)
            &&& next.failure == s.failure
            &&& relay_pending(next) == RelayDirective::CloseChannel
        }),
{
    assert(s.captured + Seq::<char>::empty() =~= s.captured);
}

/// From the closing of the channel on, what the caller gets is settled:
/// whatever comes of closing and of ending the session, it stays.
pub proof fn lemma_outcome_settled(s: RelayState, event: RelayStimulus, now_ms: u64)
    requires
        phase_rank(s.phase) >= 9,
    ensures
        ({
            let next = relay_next(s, event, now_ms);
            &&& next.failure == s.failure
            &&& next.captured == s.captured
            &&& relay_verdict(next) == relay_verdict(s)
        }),
{
}

/// Once the channel is being closed, two events lead to the end, whatever
/// they are: the channel is closed, the session is ended, and the caller
/// gets what was settled. Where nothing had failed that is the judgement on
/// what was captured.
pub proof fn lemma_cleanup_keeps_outcome(
    s: RelayState,
    first: RelayStimulus,
    first_ms: u64,
    second: RelayStimulus,
    second_ms: u64,
)
    requires
        s.phase == RelayPhase::Closing,
    ensures
        ({
            let closed = relay_next(s, first, first_ms);
            let ended = relay_next(closed, second, second_ms);
            &&& relay_pending(s) == RelayDirective::CloseChannel
            &&& relay_pending(closed) == RelayDirective::Disconnect
            &&& relay_pending(ended) == (RelayDirective::Finish { result: relay_verdict(s) })
            &&& s.failure is None ==> relay_verdict(s) == assessment(
                s.captured,
                s.switch.host,
                s.settings.min_output_len as int,
                s.settings.preview_len as int,
            )
        }),
{
}

/// No step takes the sequencer back; every step but one of reading, of
/// resting between reads or at the end takes it on. A channel that stands
/// open is left by closing it, and the end is reached by ending the
/// session, or from the start where no session came to be.
pub proof fn lemma_steps_lead_on(s: RelayState, event: RelayStimulus, now_ms: u64)
    ensures
        ({
            let next = relay_next(s, event, now_ms);
            &&& phase_rank(next.phase) >= phase_rank(s.phase)
            &&& phase_rank(s.phase) != 8 && s.phase != RelayPhase::Finished ==> phase_rank(
                next.phase,
            ) > phase_rank(s.phase)
            &&& channel_open(s.phase) ==> channel_open(next.phase) || next.phase
                == RelayPhase::Closing
            &&& next.phase == RelayPhase::Finished && s.phase != RelayPhase::Finished ==> s.phase
                == RelayPhase::Disconnecting || s.phase == RelayPhase::Connecting
            &&& next.jump == s.jump && next.switch == s.switch && next.settings == s.settings
        }),
{
}

/// What was captured only grows, and only while the output is read for.
pub proof fn lemma_captured_grows(s: RelayState, event: RelayStimulus, now_ms: u64)
    ensures
        ({
            let next = relay_next(s, event, now_ms);
            &&& next.captured == s.captured + brought(s, event)
            &&& s.captured.is_prefix_of(next.captured)
        }),
{
    assert(s.captured + Seq::<char>::empty() =~= s.captured);
    let next = relay_next(s, event, now_ms);
    assert(next.captured.subrange(0, s.captured.len() as int) =~= s.captured);
}

/// The caller is told of success exactly where nothing has failed and what
/// was captured is long enough to be a configuration; the configuration is
/// then all that was captured, with the hostname that it gives. A failure
/// carries neither.
pub proof fn lemma_success_means_configuration(s: RelayState)
    ensures
        ({
            let report = relay_verdict(s);
            &&& report.success <==> s.failure is None && !insufficient(
                s.captured,
                s.settings.min_output_len as int,
            )
            &&& report.success ==> report.configuration == Some(s.captured) && report.hostname
                == Some(hostname_in(s.captured))
            &&& !report.success ==> report.configuration is None && report.hostname is None
        }),
{
}

} // verus!
