//! The file-based command channel's state machine.
//!
//! A dedicated loop polls a command file at a fixed cadence; this module
//! holds the state that loop carries — the run flag and the consecutive
//! I/O-error counter — and every decision it makes.  The file reads and
//! writes themselves happen in the caller, which reports each tick's
//! outcome through exactly one of the `note_*` transitions below.
//!
//! The run flag is monotonic: set true once at channel start, it falls to
//! false exactly once — when a shutdown response has been written, or
//! when the consecutive-error circuit breaker trips — and never returns
//! to true.

use vstd::prelude::*;
use vstd::string::StrSliceExecFns;
use vstd::string::StringSliceAdditionalSpecFns;
use crate::dispatch::{plan_command, spec_plan, DispatchPlan};
use crate::parse::{parse_command, spec_parse_command, spec_protocol_message};
use crate::protocol::{valid_model, validation_message_model, IPCCommand};
use crate::response::{IPCResponse, RespModel};

verus! {

/// Consecutive channel-level I/O failures that force the run flag false:
/// a channel stuck in a failure storm stops instead of spinning forever.
pub const ERROR_THRESHOLD: u64 = 10;

/// The polling cadence of the channel loop, in milliseconds.
pub const POLL_INTERVAL_MS: u64 = 50;

/// State of the command channel: where it polls, whether it still runs,
/// and how many channel-level I/O errors happened in a row.
#[derive(Debug, Clone, PartialEq, Eq)]
pub struct IPCHandler {
    pub ipc_file: Vec<u8>,
    pub response_file: Vec<u8>,
    pub running: bool,
    pub consecutive_errors: u64,
}

/// The fixed suffix appended to the command path to name the response
/// file.
pub open spec fn response_suffix() -> Seq<u8> {
    seq![46u8, 114u8, 101u8, 115u8, 112u8, 111u8, 110u8, 115u8, 101u8]
}

/// An idle tick: no command file was present.  Nothing failed, so the
/// error streak resets.
pub open spec fn spec_idle_tick(pre: IPCHandler, post: IPCHandler) -> bool {
    post == IPCHandler { consecutive_errors: 0, ..pre }
}

/// A channel-level I/O failure (read, delete or write): the streak grows,
/// and on reaching the threshold the run flag is forced false.
pub open spec fn spec_io_failure(pre: IPCHandler, post: IPCHandler) -> bool {
    if pre.consecutive_errors + 1 >= ERROR_THRESHOLD {
        post == IPCHandler { consecutive_errors: ERROR_THRESHOLD as u64, running: false, ..pre }
    } else {
        post == IPCHandler {
            consecutive_errors: (pre.consecutive_errors + 1) as u64,
            ..pre
        }
    }
}

/// A tick whose response was durably written: the streak resets, and only
/// then — after the write — a shutdown response drops the run flag.
pub open spec fn spec_response_written(
    pre: IPCHandler,
    carried_shutdown: bool,
    post: IPCHandler,
) -> bool {
    post == IPCHandler {
        consecutive_errors: 0,
        running: pre.running && !carried_shutdown,
        ..pre
    }
}

/// Any one transition of the channel loop.
pub open spec fn channel_step(pre: IPCHandler, post: IPCHandler) -> bool {
    ||| spec_idle_tick(pre, post)
    ||| spec_io_failure(pre, post)
    ||| exists|sd: bool| spec_response_written(pre, sd, post)
}

impl IPCHandler {
    /// Builds the channel over its command path; the response path is the
    /// command path plus the fixed suffix.  The channel starts stopped.
    pub fn new(ipc_path: &str) -> (h: IPCHandler)
        ensures
            h.ipc_file@ == ipc_path.spec_bytes(),
            h.response_file@ == ipc_path.spec_bytes() + response_suffix(),
            !h.running,
            h.consecutive_errors == 0,
    {
        let ipc_file = ipc_path.as_bytes_vec();
        let mut response_file = ipc_path.as_bytes_vec();
        response_file.push(46u8);
        response_file.push(114u8);
        response_file.push(101u8);
        response_file.push(115u8);
        response_file.push(112u8);
        response_file.push(111u8);
        response_file.push(110u8);
        response_file.push(115u8);
        response_file.push(101u8);
        proof {
            assert(response_file@ =~= ipc_path.spec_bytes() + response_suffix());
        }
        IPCHandler { ipc_file, response_file, running: false, consecutive_errors: 0 }
    }

    /// Raises the run flag once, at channel start.
    pub fn start(&mut self)
        requires
            !old(self).running,
            old(self).consecutive_errors == 0,
        ensures
            *final(self) == (IPCHandler { running: true, ..*old(self) }),
    {
        self.running = true;
    }

    /// Records an idle tick (no command file present).
    pub fn note_idle_tick(&mut self)
        ensures
            spec_idle_tick(*old(self), *final(self)),
    {
        self.consecutive_errors = 0;
    }

    /// Records one channel-level I/O failure; the tenth in a row trips
    /// the circuit breaker and forces the run flag false.
    pub fn note_io_failure(&mut self)
        requires
            old(self).consecutive_errors <= ERROR_THRESHOLD,
        ensures
            spec_io_failure(*old(self), *final(self)),
    {
        if self.consecutive_errors + 1 >= ERROR_THRESHOLD {
            self.consecutive_errors = ERROR_THRESHOLD;
            self.running = false;
        } else {
            self.consecutive_errors = self.consecutive_errors + 1;
        }
    }

    /// Records a tick whose response reached the response file.  The
    /// shutdown marker takes effect only here, strictly after the write,
    /// so a producer is never left waiting on a response that was never
    /// sent.
    pub fn note_response_written(&mut self, carried_shutdown: bool)
        ensures
            spec_response_written(*old(self), carried_shutdown, *final(self)),
    {
        self.consecutive_errors = 0;
        if carried_shutdown {
            self.running = false;
        }
    }
}

/// What one consumed payload obliges the channel to do next.
#[derive(Debug, Clone, PartialEq, Eq)]
pub enum PayloadStep {
    /// The payload never reaches the dispatcher — it failed parsing or
    /// validation — and this failure response answers it.
    Respond(IPCResponse),
    /// A valid command, with the driver plan it requires.
    Dispatch(IPCCommand, DispatchPlan),
}

/// The failure response to a payload rejected before execution.
pub open spec fn spec_rejection(reason: Seq<u8>, timestamp: u64) -> RespModel {
    RespModel {
        success: false,
        data: None,
        error: Some(reason),
        timestamp,
        execution_time_ms: None,
    }
}

/// Decides what a consumed payload requires: a payload that does not
/// parse is answered with its protocol error (the file is already
/// deleted, so it is never retried), an out-of-range command with its
/// validation reason, and a valid command hands the caller its driver
/// plan.
pub fn handle_payload(payload: &Vec<u8>, timestamp: u64) -> (step: PayloadStep)
    ensures
        match step {
            PayloadStep::Respond(r) => match spec_parse_command(payload@) {
                Err(e) => r@ == spec_rejection(spec_protocol_message(e), timestamp),
                Ok(cm) => !valid_model(cm) && r@ == spec_rejection(
                    validation_message_model(cm),
                    timestamp,
                ),
            },
            PayloadStep::Dispatch(cmd, plan) => spec_parse_command(payload@) == Ok::<
                _,
                crate::parse::ProtoErrModel,
            >(cmd@) && valid_model(cmd@) && plan@ == spec_plan(cmd),
        },
{
    match parse_command(payload) {
        Err(e) => PayloadStep::Respond(IPCResponse::failure(e.message(), timestamp)),
        Ok(cmd) => match cmd.validate() {
            Err(reason) => PayloadStep::Respond(IPCResponse::failure(reason, timestamp)),
            Ok(_) => {
                let plan = plan_command(&cmd);
                PayloadStep::Dispatch(cmd, plan)
            },
        },
    }
}

/// The run flag never rises again: across every transition the channel
/// loop can take, once false it stays false.
pub proof fn lemma_run_flag_monotone(pre: IPCHandler, post: IPCHandler)
    requires
        channel_step(pre, post),
    ensures
        !pre.running ==> !post.running,
{
}

/// The state after `n` consecutive I/O failures from `start`.
pub open spec fn after_io_failures(s: IPCHandler, n: nat) -> IPCHandler
    decreases n,
{
    if n == 0 {
        s
    } else {
        let prev = after_io_failures(s, (n - 1) as nat);
        if prev.consecutive_errors + 1 >= ERROR_THRESHOLD {
            IPCHandler { consecutive_errors: ERROR_THRESHOLD as u64, running: false, ..prev }
        } else {
            IPCHandler { consecutive_errors: (prev.consecutive_errors + 1) as u64, ..prev }
        }
    }
}

/// Each step of `after_io_failures` is exactly one `note_io_failure`
/// transition.
pub proof fn lemma_after_io_failures_step(s: IPCHandler, n: nat)
    requires
        n > 0,
    ensures
        spec_io_failure(after_io_failures(s, (n - 1) as nat), after_io_failures(s, n)),
{
}

/// The circuit breaker: from a healthy running channel, ten consecutive
/// channel I/O failures — with no successful tick in between — leave the
/// run flag false.
pub proof fn lemma_error_budget_exhaustion(s: IPCHandler, n: nat)
    requires
        s.consecutive_errors == 0,
        n >= ERROR_THRESHOLD,
    ensures
        !after_io_failures(s, n).running,
    decreases n,
{
    lemma_errors_grow(s, n);
    if n > ERROR_THRESHOLD {
        lemma_error_budget_exhaustion(s, (n - 1) as nat);
    }
}

/// Until the threshold, each failure raises the streak by exactly one.
proof fn lemma_errors_grow(s: IPCHandler, n: nat)
    requires
        s.consecutive_errors == 0,
    ensures
        n <= ERROR_THRESHOLD ==> after_io_failures(s, n).consecutive_errors == n,
        n >= ERROR_THRESHOLD ==> !after_io_failures(s, n).running,
    decreases n,
{
    if n > 0 {
        lemma_errors_grow(s, (n - 1) as nat);
    }
}

} // verus!
