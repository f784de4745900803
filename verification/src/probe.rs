//! The reachability probe: can a connection to the secure-shell port of a
//! host be set up in a short time?

use crate::credentials::{service_address, socket_address};
use crate::relay::{RelayAction, RelayDirective, RelayEvent, RelayStimulus};
use vstd::prelude::*;

verus! {

/// How long the probe waits for the connection, in milliseconds.
pub const PROBE_TIMEOUT_MS: u64 = 5_000;

/// What the probe asks for: a connection to the secure-shell port of `host`
/// within the probe's time.
pub open spec fn probe_directive(host: Seq<char>) -> RelayDirective {
    RelayDirective::Connect { address: service_address(host), timeout_ms: PROBE_TIMEOUT_MS }
}

/// What the probe asks for: a connection to the secure-shell port of `host`
/// within the probe's time.
pub fn probe_action(host: &str) -> (action: RelayAction)
    ensures
        action@ == probe_directive(host@),
{
    RelayAction::Connect { address: socket_address(host), timeout_ms: PROBE_TIMEOUT_MS }
}

/// The host is reachable where the connection was set up in time, and not
/// where it failed or took too long.
pub open spec fn reachable(event: RelayStimulus) -> bool {
    event is Completed
}

/// Whether the host is reachable, by what came of the connection.
pub fn probe_verdict(event: &RelayEvent) -> (up: bool)
    ensures
        up == reachable(event@),
{
    match event {
        RelayEvent::Completed => true,
        _ => false,
    }
}

} // verus!
