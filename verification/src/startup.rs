//! The startup sequence: diagnostics first, then the route table, then the
//! listener bind, and only then the serving loop. Any fatal startup error —
//! a diagnostics failure, a bind refused because the address is taken or
//! otherwise unavailable — ends the process before anything is served.
//!
//! The work itself (configuring the logging sink, binding the socket) is
//! I/O and happens outside this crate; the caller reports each step's
//! outcome here and obeys the phase that comes back.

use vstd::prelude::*;

verus! {

/// The fixed address the listener binds: host octets and port as plain
/// values, 127.0.0.1:3000 in this version, not configurable.
pub struct BindAddress {
    pub host: (u8, u8, u8, u8),
    pub port: u16,
}

/// The one bind address of this version.
pub fn bind_address() -> (r: BindAddress)
    ensures
        r.host == (127u8, 0u8, 0u8, 1u8),
        r.port == 3000,
{
    BindAddress { host: (127, 0, 0, 1), port: 3000 }
}

/// The phases of startup, in the order they are reached. `Failed` is
/// terminal: the process terminates without serving.
#[derive(Clone, Copy, PartialEq, Eq, Structural, Debug)]
pub enum StartupPhase {
    /// Nothing configured yet.
    Boot,
    /// The process-wide logging sink is configured.
    Logging,
    /// The route table is built.
    Routed,
    /// The listener is bound; the serving loop may run.
    Serving,
    /// A fatal startup error; nothing is ever served.
    Failed,
}

/// What one startup step reported.
#[derive(Clone, Copy, PartialEq, Eq, Structural, Debug)]
pub enum StartupEvent {
    /// The logging sink is in place.
    LoggingReady,
    /// The logging sink could not be configured.
    LoggingFailed,
    /// The route table is assembled.
    RouterBuilt,
    /// The socket is bound to the bind address.
    BindOk,
    /// The bind was refused — the address is in use or unavailable.
    BindFailed,
}

/// The startup automaton. Startup is strictly sequential: each phase
/// accepts exactly one success event; a failure event, or an event out of
/// order, is fatal.
pub open spec fn spec_startup_step(phase: StartupPhase, event: StartupEvent) -> StartupPhase {
    match (phase, event) {
        (StartupPhase::Boot, StartupEvent::LoggingReady) => StartupPhase::Logging,
        (StartupPhase::Logging, StartupEvent::RouterBuilt) => StartupPhase::Routed,
        (StartupPhase::Routed, StartupEvent::BindOk) => StartupPhase::Serving,
        _ => StartupPhase::Failed,
    }
}

/// Advances startup by one reported outcome.
pub fn startup_step(phase: StartupPhase, event: StartupEvent) -> (r: StartupPhase)
    ensures
        r == spec_startup_step(phase, event),
{
    match (phase, event) {
        (StartupPhase::Boot, StartupEvent::LoggingReady) => StartupPhase::Logging,
        (StartupPhase::Logging, StartupEvent::RouterBuilt) => StartupPhase::Routed,
        (StartupPhase::Routed, StartupEvent::BindOk) => StartupPhase::Serving,
        _ => StartupPhase::Failed,
    }
}

/// Law: a refused bind is fatal from any phase — the step after
/// `BindFailed` is never `Serving`, so no request is ever answered.
pub proof fn lemma_bind_failure_aborts(phase: StartupPhase)
    ensures
        spec_startup_step(phase, StartupEvent::BindFailed) == StartupPhase::Failed,
{
}

/// Law: the serving phase is reached only from `Routed` by a successful
/// bind; no other phase or event leads there.
pub proof fn lemma_serving_needs_bind(phase: StartupPhase, event: StartupEvent)
    ensures
        spec_startup_step(phase, event) == StartupPhase::Serving ==> phase == StartupPhase::Routed
            && event == StartupEvent::BindOk,
{
}

/// Law: `Failed` is terminal — no later event leaves it.
pub proof fn lemma_failed_terminal(event: StartupEvent)
    ensures
        spec_startup_step(StartupPhase::Failed, event) == StartupPhase::Failed,
{
}

} // verus!
