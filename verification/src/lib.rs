//! Retrieval of a switch's running configuration through a jump host.
//!
//! The switch is reached by a secure-shell session on the jump host and a
//! nested client on one channel of it; where that fails, an outside script
//! can fetch the configuration instead. This library holds the decisions of
//! both ways, and of the checks that go with them, as state machines: each
//! says what its driver is to do next, takes in what came of it, and ends
//! with the result for the caller. The driver connects, sleeps, writes,
//! reads and runs programs; it decides nothing.
//!
//! - [`relay`]: the sequencer of the retrieval through the jump host, and
//!   [`relay_laws`]: what holds of every retrieval.
//! - [`fallback`]: the bridge to the script, with [`script_output`] for what
//!   the script prints and [`script_name`] for the file it is written to, and
//!   [`fallback_laws`]: what holds of every run of the bridge.
//! - [`login`]: the check of the jump host's credentials, and [`probe`]: the
//!   reachability probe.
//! - [`hostname`]: the hostname in a configuration text.
//! - [`outcome`]: the result and the failures, [`credentials`] and
//!   [`command`]: what a retrieval is set up with, [`text`]: search, lines
//!   and words in text.

pub mod command;
pub mod credentials;
pub mod fallback;
pub mod fallback_laws;
pub mod hostname;
pub mod login;
pub mod outcome;
pub mod probe;
pub mod relay;
pub mod relay_laws;
pub mod script_name;
pub mod script_output;
pub mod text;
