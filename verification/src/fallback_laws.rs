//! What holds of every run of the script fallback: it ends, it deletes the
//! script's file before it ends, and it hands on the log.

use crate::credentials::Endpoint;
use crate::fallback::{
    candidates_for, fallback_next, fallback_pending, fallback_verdict, initial_state, well_formed,
    FallbackDirective, FallbackPhase, FallbackState, FallbackStimulus, Platform,
};
use crate::hostname::hostname_in;
use crate::outcome::{exhausted_head, exhausted_link, success_report};
use crate::text::{contains, lemma_contains_part};
use vstd::prelude::*;

verus! {

/// The state after the events of `events` have come in, one after another.
pub open spec fn fallback_run(s: FallbackState, events: Seq<FallbackStimulus>) -> FallbackState
    decreases events.len(),
{
    if events.len() == 0 {
        s
    } else {
        fallback_next(fallback_run(s, events.drop_last()), events.last())
    }
}

/// How many events at most lead from `s` to the end.
pub open spec fn steps_left(s: FallbackState) -> int {
    match s.phase {
        FallbackPhase::Writing => 2 * (s.candidates.len() as int) + 2,
        FallbackPhase::Running => 2 * (s.candidates.len() - s.attempt) + 1,
        FallbackPhase::Loading => 2 * (s.candidates.len() - s.attempt),
        FallbackPhase::Removing => 1,
        FallbackPhase::Finished => 0,
    }
}

/// The bridge ends only by way of deleting the script's file: the state
/// before the end asks for the file at the script's path to be deleted.
pub proof fn lemma_script_removed_before_end(s: FallbackState, event: FallbackStimulus)
    requires
        s.phase != FallbackPhase::Finished,
        fallback_next(s, event).phase == FallbackPhase::Finished,
    ensures
        s.phase == FallbackPhase::Removing,
        fallback_pending(s) == (FallbackDirective::RemoveScript { path: s.script_path }),
{
}

/// What the bridge was set up with does not change, and its states stay
/// well formed.
pub proof fn lemma_setup_kept(s: FallbackState, event: FallbackStimulus)
    requires
        well_formed(s),
    ensures
        ({
            let next = fallback_next(s, event);
            &&& well_formed(next)
            &&& next.script_path == s.script_path
            &&& next.candidates == s.candidates
            &&& next.jump == s.jump
            &&& next.switch == s.switch
            &&& next.run_timeout_ms == s.run_timeout_ms
        }),
{
}

/// The same of a run of events.
pub proof fn lemma_setup_kept_through(s: FallbackState, events: Seq<FallbackStimulus>)
    requires
        well_formed(s),
    ensures
        well_formed(fallback_run(s, events)),
        fallback_run(s, events).script_path == s.script_path,
        fallback_run(s, events).candidates == s.candidates,
    decreases events.len(),
{
    if events.len() > 0 {
        lemma_setup_kept_through(s, events.drop_last());
        lemma_setup_kept(fallback_run(s, events.drop_last()), events.last());
    }
}

/// Whether any interpreter succeeded or none: a bridge that has come to its
/// end has, on the way, asked for the script's file to be deleted.
pub proof fn lemma_finished_run_removed_script(s: FallbackState, events: Seq<FallbackStimulus>)
    requires
        well_formed(s),
        s.phase != FallbackPhase::Finished,
        fallback_run(s, events).phase == FallbackPhase::Finished,
    ensures
        exists|seen: int|
            0 <= seen < events.len() && #[trigger] fallback_pending(
                fallback_run(s, events.take(seen)),
            ) == (FallbackDirective::RemoveScript { path: s.script_path }),
    decreases events.len(),
{
    let before = fallback_run(s, events.drop_last());
    if before.phase == FallbackPhase::Finished {
        lemma_finished_run_removed_script(s, events.drop_last());
        let seen = choose|seen: int|
            0 <= seen < events.drop_last().len() && #[trigger] fallback_pending(
                fallback_run(s, events.drop_last().take(seen)),
            ) == (FallbackDirective::RemoveScript { path: s.script_path });
        assert(events.drop_last().take(seen) =~= events.take(seen));
    } else {
        lemma_setup_kept_through(s, events.drop_last());
        lemma_script_removed_before_end(before, events.last());
        let seen = events.len() - 1;
        assert(events.take(seen) =~= events.drop_last());
    }
}

/// Every event takes the bridge nearer to its end.
pub proof fn lemma_step_nears_end(s: FallbackState, event: FallbackStimulus)
    requires
        well_formed(s),
    ensures
        s.phase != FallbackPhase::Finished ==> 0 <= steps_left(fallback_next(s, event))
            < steps_left(s),
        s.phase == FallbackPhase::Finished ==> fallback_next(s, event) == s,
        steps_left(s) == 0 <==> s.phase == FallbackPhase::Finished,
{
}

/// The bridge does not go on for ever: whatever comes in, after two events
/// for each interpreter and two more it has come to its end.
pub proof fn lemma_bridge_ends(s: FallbackState, events: Seq<FallbackStimulus>)
    requires
        well_formed(s),
    ensures
        steps_left(fallback_run(s, events)) <= steps_left(s),
        steps_left(fallback_run(s, events)) == 0 || steps_left(fallback_run(s, events))
            <= steps_left(s) - events.len(),
        events.len() >= steps_left(s) ==> fallback_run(s, events).phase
            == FallbackPhase::Finished,
    decreases events.len(),
{
    if events.len() > 0 {
        let before = fallback_run(s, events.drop_last());
        lemma_bridge_ends(s, events.drop_last());
        lemma_setup_kept_through(s, events.drop_last());
        lemma_step_nears_end(before, events.last());
    }
    lemma_setup_kept_through(s, events);
    lemma_step_nears_end(fallback_run(s, events), FallbackStimulus::Completed);
}

/// The log only grows, and the caller always gets it, with a configuration
/// or without.
pub proof fn lemma_log_kept(s: FallbackState, event: FallbackStimulus)
    ensures
        s.logs.is_prefix_of(fallback_next(s, event).logs),
        fallback_verdict(s).execution_logs == Some(s.logs),
{
    let next = fallback_next(s, event);
    assert(next.logs.subrange(0, s.logs.len() as int) =~= s.logs);
}

/// Where no interpreter gave a configuration, the caller is told of a
/// failure whose message holds the whole log and the last error.
pub proof fn lemma_exhausted_message_tells(s: FallbackState)
    requires
        s.found is None,
        s.write_error is None,
    ensures
        !fallback_verdict(s).success,
        contains(fallback_verdict(s).message, s.logs),
        contains(fallback_verdict(s).message, s.last_error),
{
    let message = fallback_verdict(s).message;
    lemma_contains_part(exhausted_head(), s.logs, exhausted_link() + s.last_error);
    assert(exhausted_head() + s.logs + (exhausted_link() + s.last_error) =~= message);
    lemma_contains_part(exhausted_head() + s.logs + exhausted_link(), s.last_error, Seq::empty());
}

/// The first configuration that is read ends the search: no interpreter is
/// tried after it, and the caller gets that configuration with the hostname
/// that it gives.
pub proof fn lemma_loaded_configuration_ends_search(
    s: FallbackState,
    content: Seq<char>,
    later: Seq<FallbackStimulus>,
)
    requires
        s.phase == FallbackPhase::Loading,
    ensures
        ({
            let after = fallback_run(fallback_next(s, FallbackStimulus::Loaded(content)), later);
            &&& after.phase == FallbackPhase::Removing || after.phase == FallbackPhase::Finished
            &&& later.len() >= 1 ==> after.phase == FallbackPhase::Finished
            &&& fallback_verdict(after) == success_report(
                content,
                hostname_in(content),
                Some(s.logs),
            )
        }),
    decreases later.len(),
{
    if later.len() > 0 {
        lemma_loaded_configuration_ends_search(s, content, later.drop_last());
    }
}

/// The caller is told of success exactly where a configuration was read;
/// it then gets that configuration, with the hostname that it gives. A
/// failure carries neither.
pub proof fn lemma_success_means_configuration(s: FallbackState)
    ensures
        ({
            let report = fallback_verdict(s);
            &&& report.success <==> s.found is Some
            &&& report.success ==> report.configuration == s.found && report.hostname == Some(
                hostname_in(s.found->0),
            )
            &&& !report.success ==> report.configuration is None && report.hostname is None
        }),
{
}

/// Every bridge deletes its script: whatever comes in, once two events for
/// each interpreter and two more have come in, the bridge has come to its
/// end and has, on the way, asked for the file at the script's path to be
/// deleted.
pub proof fn lemma_every_bridge_removes_script(
    jump: Endpoint,
    switch: Endpoint,
    script_path: Seq<char>,
    platform: Platform,
    run_timeout_ms: u64,
    events: Seq<FallbackStimulus>,
)
    requires
        events.len() >= 2 * candidates_for(platform).len() + 2,
    ensures
        ({
            let start = initial_state(jump, switch, script_path, platform, run_timeout_ms);
            &&& fallback_run(start, events).phase == FallbackPhase::Finished
            &&& exists|seen: int|
                0 <= seen < events.len() && #[trigger] fallback_pending(
                    fallback_run(start, events.take(seen)),
                ) == (FallbackDirective::RemoveScript { path: script_path })
        }),
{
    let start = initial_state(jump, switch, script_path, platform, run_timeout_ms);
    assert(well_formed(start));
    lemma_bridge_ends(start, events);
    lemma_finished_run_removed_script(start, events);
}

} // verus!
