//! The decision side of the start protocol: readiness is detected by live
//! connection probes, and a listener is spawned only when no server answers
//! yet, so a start on an already-listening server is a no-op. The probing
//! and the spawning themselves are the caller's outside work.
use vstd::prelude::*;

verus! {

/// What the start protocol does next.
#[derive(Clone, Copy, Debug, PartialEq, Eq, Structural)]
pub enum StartAction {
    /// A listener answers: the server is ready, stop.
    Finish,
    /// Nothing answers and nothing was spawned: spawn the listener, then
    /// probe again.
    Spawn,
    /// Nothing answers but the listener was spawned: probe again.
    Probe,
}

/// One decision of the start protocol, from the latest probe outcome and
/// whether this start already spawned the listener. A spawn is decided only
/// when no listener answered and none was spawned: a start that finds the
/// server listening never attempts a second bind.
pub fn start_step(probe_ok: bool, spawned: bool) -> (r: StartAction)
    ensures
        probe_ok ==> r == StartAction::Finish,
        !probe_ok && !spawned ==> r == StartAction::Spawn,
        !probe_ok && spawned ==> r == StartAction::Probe,
        r == StartAction::Spawn ==> !probe_ok && !spawned,
{
    if probe_ok {
        StartAction::Finish
    } else if !spawned {
        StartAction::Spawn
    } else {
        StartAction::Probe
    }
}

} // verus!
