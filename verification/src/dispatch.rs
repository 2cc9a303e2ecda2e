//! Execution dispatch: from a validated command to the driver calls it
//! requires, and from the driver's outcome to the response.
//!
//! The automation driver lives in another runtime and every call into it
//! can fail, so dispatch is split around those calls: `plan_command` decides
//! which primitive to invoke and which queue follow-ups apply,
//! `follow_up_calls` lists the flush/clear calls owed once the primitive
//! succeeded, and `command_response` turns the primitive's outcome into the
//! one response every consumed command must produce.  The caller performs
//! the calls in exactly that order and reports back; everything decided
//! here is proved.

use vstd::prelude::*;
use crate::protocol::IPCCommand;
use crate::response::{IPCResponse, RespModel, ResponseData};
use crate::stats::StatusData;
use vstd::string::StrSliceExecFns;
use vstd::utf8::encode_utf8;

verus! {

/// One primitive call against the automation driver.
#[derive(Debug, Clone, PartialEq, Eq)]
pub enum DriverCall {
    QueueMove { x: i32, y: i32 },
    QueueClick { button: Vec<u8> },
    PressKey { key: Vec<u8> },
    TypeText { text: Vec<u8> },
    Execute,
    Clear,
    RunScript { script: Vec<u8> },
    Shutdown,
}

/// Ghost model of a driver call, with byte strings as sequences.
pub enum CallModel {
    QueueMove { x: i32, y: i32 },
    QueueClick { button: Seq<u8> },
    PressKey { key: Seq<u8> },
    TypeText { text: Seq<u8> },
    Execute,
    Clear,
    RunScript { script: Seq<u8> },
    Shutdown,
}

impl View for DriverCall {
    type V = CallModel;

    open spec fn view(&self) -> CallModel {
        match *self {
            DriverCall::QueueMove { x, y } => CallModel::QueueMove { x, y },
            DriverCall::QueueClick { button } => CallModel::QueueClick { button: button@ },
            DriverCall::PressKey { key } => CallModel::PressKey { key: key@ },
            DriverCall::TypeText { text } => CallModel::TypeText { text: text@ },
            DriverCall::Execute => CallModel::Execute,
            DriverCall::Clear => CallModel::Clear,
            DriverCall::RunScript { script } => CallModel::RunScript { script: script@ },
            DriverCall::Shutdown => CallModel::Shutdown,
        }
    }
}

impl DeepView for DriverCall {
    type V = CallModel;

    open spec fn deep_view(&self) -> CallModel {
        self.view()
    }
}

/// What a command asks of the driver: at most one primary primitive, then
/// optionally a queue flush and a queue clear once the primary succeeded.
#[derive(Debug, Clone, PartialEq, Eq)]
pub struct DispatchPlan {
    pub primary: Option<DriverCall>,
    pub flush_after: bool,
    pub clear_after: bool,
}

/// Ghost model of a dispatch plan.
pub struct PlanModel {
    pub primary: Option<CallModel>,
    pub flush_after: bool,
    pub clear_after: bool,
}

impl View for DispatchPlan {
    type V = PlanModel;

    open spec fn view(&self) -> PlanModel {
        PlanModel {
            primary: match self.primary {
                Some(c) => Some(c@),
                None => None,
            },
            flush_after: self.flush_after,
            clear_after: self.clear_after,
        }
    }
}

/// The modifiers default to true when absent from the command.
pub open spec fn modifier_or_true(m: Option<bool>) -> bool {
    match m {
        Some(b) => b,
        None => true,
    }
}

/// Modifier byte strings joined by single spaces.
pub open spec fn joined_with_spaces(mods: Seq<Seq<u8>>) -> Seq<u8>
    decreases mods.len(),
{
    if mods.len() == 0 {
        Seq::empty()
    } else if mods.len() == 1 {
        mods[0]
    } else {
        joined_with_spaces(mods.drop_last()) + seq![32u8] + mods.last()
    }
}

/// The key chord handed to the driver's key-press primitive: the modifiers,
/// space-separated, in front of the key.
pub open spec fn key_chord(mods: Option<Seq<Seq<u8>>>, key: Seq<u8>) -> Seq<u8> {
    match mods {
        Some(ms) => if ms.len() == 0 {
            key
        } else {
            joined_with_spaces(ms) + seq![32u8] + key
        },
        None => key,
    }
}

/// The button sent to the driver when the command names none.
pub open spec fn default_button() -> Seq<u8> {
    encode_utf8("left"@)
}

/// The plan each command maps to:
/// - the four queueing commands call their primitive, then honour
///   `execute_now` and `clear_after` (default true);
/// - `RunScript` runs atomically in the driver, so it never flushes, but
///   still honours `clear_after`;
/// - `ExecuteQueue` and `ClearActionQueue` map one-to-one onto the flush
///   and clear primitives;
/// - status and heartbeat commands touch no driver at all;
/// - both shutdown commands invoke the driver's shutdown primitive.
pub open spec fn spec_plan(cmd: IPCCommand) -> PlanModel {
    match cmd {
        IPCCommand::MoveMouseTo { params, execute_now, clear_after } => PlanModel {
            primary: Some(CallModel::QueueMove { x: params.x, y: params.y }),
            flush_after: modifier_or_true(execute_now),
            clear_after: modifier_or_true(clear_after),
        },
        IPCCommand::MouseClick { params, execute_now, clear_after } => PlanModel {
            primary: Some(
                CallModel::QueueClick {
                    button: match params.button {
                        Some(b) => b@,
                        None => default_button(),
                    },
                },
            ),
            flush_after: modifier_or_true(execute_now),
            clear_after: modifier_or_true(clear_after),
        },
        IPCCommand::KeyPress { params, execute_now, clear_after } => PlanModel {
            primary: Some(
                CallModel::PressKey {
                    key: key_chord(
                        match params.modifiers {
                            Some(ms) => Some(ms.deep_view()),
                            None => None,
                        },
                        params.key@,
                    ),
                },
            ),
            flush_after: modifier_or_true(execute_now),
            clear_after: modifier_or_true(clear_after),
        },
        IPCCommand::TypeText { params, execute_now, clear_after } => PlanModel {
            primary: Some(CallModel::TypeText { text: params.text@ }),
            flush_after: modifier_or_true(execute_now),
            clear_after: modifier_or_true(clear_after),
        },
        IPCCommand::RunScript { params, clear_after, .. } => PlanModel {
            primary: Some(CallModel::RunScript { script: params.script@ }),
            flush_after: false,
            clear_after: modifier_or_true(clear_after),
        },
        IPCCommand::ExecuteQueue => PlanModel {
            primary: Some(CallModel::Execute),
            flush_after: false,
            clear_after: false,
        },
        IPCCommand::ClearActionQueue => PlanModel {
            primary: Some(CallModel::Clear),
            flush_after: false,
            clear_after: false,
        },
        IPCCommand::GetStatus => PlanModel { primary: None, flush_after: false, clear_after: false },
        IPCCommand::Heartbeat => PlanModel { primary: None, flush_after: false, clear_after: false },
        IPCCommand::ShutdownGracefully => PlanModel {
            primary: Some(CallModel::Shutdown),
            flush_after: false,
            clear_after: false,
        },
        IPCCommand::ShutdownImmediately => PlanModel {
            primary: Some(CallModel::Shutdown),
            flush_after: false,
            clear_after: false,
        },
    }
}

/// Joins modifier strings with single spaces.
fn join_modifiers(mods: &Vec<Vec<u8>>) -> (r: Vec<u8>)
    ensures
        r@ == joined_with_spaces(mods.deep_view()),
{
    let ghost m = mods.deep_view();
    let mut r: Vec<u8> = Vec::new();
    let mut i: usize = 0;
    while i < mods.len()
        invariant
            i <= mods.len(),
            m == mods.deep_view(),
            r@ == joined_with_spaces(m.take(i as int)) + (if 0 < i < mods.len() {
                seq![32u8]
            } else {
                Seq::<u8>::empty()
            }),
        decreases mods.len() - i,
    {
        let ghost r_pre = r@;
        r.extend_from_slice(mods[i].as_slice());
        proof {
            assert(m[i as int] == mods@[i as int]@);
            assert(m.take(i as int + 1).drop_last() =~= m.take(i as int));
            assert(m.take(i as int + 1).last() == m[i as int]);
            if i == 0 {
                assert(r@ =~= joined_with_spaces(m.take(1)));
            } else {
                assert(r@ =~= joined_with_spaces(m.take(i as int)) + seq![32u8] + m[i as int]);
                assert(r@ =~= joined_with_spaces(m.take(i as int + 1)));
            }
        }
        if i + 1 < mods.len() {
            r.push(32u8);
            proof {
                assert(r@ =~= joined_with_spaces(m.take(i as int + 1)) + seq![32u8]);
            }
        }
        i = i + 1;
    }
    proof {
        assert(m.take(mods.len() as int) =~= m);
    }
    r
}

/// Decides the driver work a command needs.
pub fn plan_command(cmd: &IPCCommand) -> (p: DispatchPlan)
    ensures
        p@ == spec_plan(*cmd),
{
    match cmd {
        IPCCommand::MoveMouseTo { params, execute_now, clear_after } => DispatchPlan {
            primary: Some(DriverCall::QueueMove { x: params.x, y: params.y }),
            flush_after: execute_now.unwrap_or(true),
            clear_after: clear_after.unwrap_or(true),
        },
        IPCCommand::MouseClick { params, execute_now, clear_after } => {
            let button: Vec<u8> = match &params.button {
                Some(b) => b.clone(),
                None => "left".as_bytes_vec(),
            };
            DispatchPlan {
                primary: Some(DriverCall::QueueClick { button }),
                flush_after: execute_now.unwrap_or(true),
                clear_after: clear_after.unwrap_or(true),
            }
        },
        IPCCommand::KeyPress { params, execute_now, clear_after } => {
            let key: Vec<u8> = match &params.modifiers {
                Some(ms) => {
                    if ms.len() == 0 {
                        params.key.clone()
                    } else {
                        let mut chord = join_modifiers(ms);
                        chord.push(32u8);
                        chord.extend_from_slice(params.key.as_slice());
                        proof {
                            assert(chord@ =~= joined_with_spaces(ms.deep_view()) + seq![32u8]
                                + params.key@);
                        }
                        chord
                    }
                },
                None => params.key.clone(),
            };
            DispatchPlan {
                primary: Some(DriverCall::PressKey { key }),
                flush_after: execute_now.unwrap_or(true),
                clear_after: clear_after.unwrap_or(true),
            }
        },
        IPCCommand::TypeText { params, execute_now, clear_after } => DispatchPlan {
            primary: Some(DriverCall::TypeText { text: params.text.clone() }),
            flush_after: execute_now.unwrap_or(true),
            clear_after: clear_after.unwrap_or(true),
        },
        IPCCommand::RunScript { params, clear_after, .. } => DispatchPlan {
            primary: Some(DriverCall::RunScript { script: params.script.clone() }),
            flush_after: false,
            clear_after: clear_after.unwrap_or(true),
        },
        IPCCommand::ExecuteQueue => DispatchPlan {
            primary: Some(DriverCall::Execute),
            flush_after: false,
            clear_after: false,
        },
        IPCCommand::ClearActionQueue => DispatchPlan {
            primary: Some(DriverCall::Clear),
            flush_after: false,
            clear_after: false,
        },
        IPCCommand::GetStatus => DispatchPlan {
            primary: None,
            flush_after: false,
            clear_after: false,
        },
        IPCCommand::Heartbeat => DispatchPlan {
            primary: None,
            flush_after: false,
            clear_after: false,
        },
        IPCCommand::ShutdownGracefully => DispatchPlan {
            primary: Some(DriverCall::Shutdown),
            flush_after: false,
            clear_after: false,
        },
        IPCCommand::ShutdownImmediately => DispatchPlan {
            primary: Some(DriverCall::Shutdown),
            flush_after: false,
            clear_after: false,
        },
    }
}

/// The message prefix put in front of the driver's error text when a
/// command's primary call fails.
pub open spec fn error_prefix(cmd: IPCCommand) -> Seq<u8> {
    match cmd {
        IPCCommand::MoveMouseTo { .. } => encode_utf8("Mouse move failed: "@),
        IPCCommand::MouseClick { .. } => encode_utf8("Mouse click failed: "@),
        IPCCommand::KeyPress { .. } => encode_utf8("Key press failed: "@),
        IPCCommand::TypeText { .. } => encode_utf8("Type text failed: "@),
        IPCCommand::RunScript { .. } => encode_utf8("Script execution failed: "@),
        IPCCommand::ExecuteQueue => encode_utf8("Execute queue failed: "@),
        IPCCommand::ClearActionQueue => encode_utf8("Clear queue failed: "@),
        _ => Seq::empty(),
    }
}

/// The one response a dispatched command produces, given how its primary
/// driver call went:
/// - status and heartbeat commands always succeed and carry the
///   statistics snapshot;
/// - shutdown commands always succeed and carry the shutdown marker,
///   whatever the driver's shutdown call returned;
/// - every other command succeeds exactly when its primary call did, and
///   on failure carries the prefixed driver error.
/// Every response carries the timestamp and the measured execution time.
pub open spec fn spec_response(
    cmd: IPCCommand,
    primary_ok: bool,
    err: Seq<u8>,
    status: StatusData,
    timestamp: u64,
    elapsed_ms: u64,
) -> RespModel {
    match cmd {
        IPCCommand::GetStatus | IPCCommand::Heartbeat => RespModel {
            success: true,
            data: Some(ResponseData::Status(status)),
            error: None,
            timestamp,
            execution_time_ms: Some(elapsed_ms),
        },
        IPCCommand::ShutdownGracefully | IPCCommand::ShutdownImmediately => RespModel {
            success: true,
            data: Some(ResponseData::Shutdown),
            error: None,
            timestamp,
            execution_time_ms: Some(elapsed_ms),
        },
        _ => if primary_ok {
            RespModel {
                success: true,
                data: None,
                error: None,
                timestamp,
                execution_time_ms: Some(elapsed_ms),
            }
        } else {
            RespModel {
                success: false,
                data: None,
                error: Some(error_prefix(cmd) + err),
                timestamp,
                execution_time_ms: Some(elapsed_ms),
            }
        },
    }
}

/// The prefixed error message as bytes.
fn prefix_bytes(cmd: &IPCCommand) -> (r: Vec<u8>)
    ensures
        r@ == error_prefix(*cmd),
{
    match cmd {
        IPCCommand::MoveMouseTo { .. } => "Mouse move failed: ".as_bytes_vec(),
        IPCCommand::MouseClick { .. } => "Mouse click failed: ".as_bytes_vec(),
        IPCCommand::KeyPress { .. } => "Key press failed: ".as_bytes_vec(),
        IPCCommand::TypeText { .. } => "Type text failed: ".as_bytes_vec(),
        IPCCommand::RunScript { .. } => "Script execution failed: ".as_bytes_vec(),
        IPCCommand::ExecuteQueue => "Execute queue failed: ".as_bytes_vec(),
        IPCCommand::ClearActionQueue => "Clear queue failed: ".as_bytes_vec(),
        _ => Vec::new(),
    }
}

/// Builds the response for a dispatched command from its primary call's
/// outcome.  `status` is the statistics snapshot used by status commands;
/// `elapsed_ms` is the wall-clock time the caller measured around the
/// driver work.
pub fn command_response(
    cmd: &IPCCommand,
    primary_result: &Result<(), Vec<u8>>,
    status: StatusData,
    timestamp: u64,
    elapsed_ms: u64,
) -> (r: IPCResponse)
    ensures
        r@ == spec_response(
            *cmd,
            primary_result is Ok,
            match primary_result {
                Ok(_) => Seq::empty(),
                Err(e) => e@,
            },
            status,
            timestamp,
            elapsed_ms,
        ),
{
    match cmd {
        IPCCommand::GetStatus | IPCCommand::Heartbeat => IPCResponse::status(
            status,
            timestamp,
        ).with_execution_time(elapsed_ms),
        IPCCommand::ShutdownGracefully | IPCCommand::ShutdownImmediately => IPCResponse::shutdown(
            timestamp,
        ).with_execution_time(elapsed_ms),
        _ => match primary_result {
            Ok(_) => IPCResponse::success(timestamp).with_execution_time(elapsed_ms),
            Err(e) => {
                let mut msg = prefix_bytes(cmd);
                msg.extend_from_slice(e.as_slice());
                proof {
                    assert(msg@ =~= error_prefix(*cmd) + e@);
                }
                IPCResponse::failure(msg, timestamp).with_execution_time(elapsed_ms)
            },
        },
    }
}

/// The flush/clear calls owed after the primary call, in order.  They are
/// owed only when the primary succeeded: a failed primitive leaves the
/// queue untouched, so one bad call cannot discard a healthy queue.  A
/// failing flush does not cancel the clear: the clear runs regardless of
/// the flush's outcome.
pub open spec fn spec_follow_ups(p: PlanModel, primary_ok: bool) -> Seq<CallModel> {
    if primary_ok {
        (if p.flush_after {
            seq![CallModel::Execute]
        } else {
            Seq::empty()
        }) + (if p.clear_after {
            seq![CallModel::Clear]
        } else {
            Seq::empty()
        })
    } else {
        Seq::empty()
    }
}

/// Lists the flush/clear calls owed once the primary call's outcome is
/// known.
pub fn follow_up_calls(p: &DispatchPlan, primary_ok: bool) -> (r: Vec<DriverCall>)
    ensures
        r.deep_view() == spec_follow_ups(p@, primary_ok),
{
    let mut r: Vec<DriverCall> = Vec::new();
    if primary_ok {
        if p.flush_after {
            r.push(DriverCall::Execute);
        }
        if p.clear_after {
            r.push(DriverCall::Clear);
        }
    }
    proof {
        assert(r.deep_view() =~= spec_follow_ups(p@, primary_ok));
    }
    r
}

} // verus!
