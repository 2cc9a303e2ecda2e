//! The top-level control loop's decisions.
//!
//! On a fixed tick the loop reads the channel's run flag and the bridge's
//! liveness and decides what happens next.  The run flag is checked
//! first: channel shutdown takes priority over the supervisor's restart
//! path, so a restart can never fire against a channel that is already
//! torn down.  An operator interrupt leads to the same full shutdown at
//! any time.

use vstd::prelude::*;

verus! {

/// The control loop's cadence, in seconds.
pub const CONTROL_TICK_SECS: u64 = 5;

/// What one control tick decides.
#[derive(Debug, Clone, Copy, PartialEq, Eq)]
pub enum ControlDecision {
    /// Stop the supervisor, then leave the loop.
    ShutdownAll,
    /// Restart the bridge process (stop, cooldown, start).
    RestartBridge,
    /// Nothing to do until the next tick.
    Continue,
}

/// The decision for one tick: a lowered run flag means full shutdown,
/// before anything else; otherwise a dead bridge is restarted; otherwise
/// the loop continues.
pub open spec fn spec_control_tick(run_flag: bool, bridge_running: bool) -> ControlDecision {
    if !run_flag {
        ControlDecision::ShutdownAll
    } else if !bridge_running {
        ControlDecision::RestartBridge
    } else {
        ControlDecision::Continue
    }
}

/// Decides one control tick from the run flag and the bridge liveness
/// probe.
pub fn control_tick(run_flag: bool, bridge_running: bool) -> (d: ControlDecision)
    ensures
        d == spec_control_tick(run_flag, bridge_running),
{
    if !run_flag {
        ControlDecision::ShutdownAll
    } else if !bridge_running {
        ControlDecision::RestartBridge
    } else {
        ControlDecision::Continue
    }
}

/// A failed restart is fatal to the whole process: once the bridge binary
/// itself cannot be respawned there is no lower-level recovery.
pub fn after_restart(restart_ok: bool) -> (fatal: bool)
    ensures
        fatal == !restart_ok,
{
    !restart_ok
}

} // verus!
