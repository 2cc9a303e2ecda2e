//! Command data model and validation.
//!
//! A command arrives over the file channel as a JSON object with a `type`
//! discriminator; this module holds the decoded form and the validation
//! rules that run before any command is executed.  Text is carried as UTF-8
//! bytes: the channel works on raw file contents, so byte strings are the
//! native currency throughout the crate.

use vstd::prelude::*;
use vstd::string::StrSliceExecFns;
use vstd::utf8::encode_utf8;

verus! {

/// Largest coordinate (inclusive) accepted for mouse placement.
pub const MAX_COORD: i32 = 10000;

/// Largest byte length accepted for typed text.
pub const MAX_TEXT_LEN: usize = 10000;

/// Largest byte length accepted for a command script.
pub const MAX_SCRIPT_LEN: usize = 50000;

/// Parameters of a mouse-placement command.
#[derive(Debug, Clone, PartialEq, Eq)]
pub struct MouseMoveParams {
    pub x: i32,
    pub y: i32,
}

/// Parameters of a mouse-click command; a missing button means "left".
#[derive(Debug, Clone, PartialEq, Eq)]
pub struct MouseClickParams {
    pub button: Option<Vec<u8>>,
}

/// Parameters of a key-press command.
#[derive(Debug, Clone, PartialEq, Eq)]
pub struct KeyPressParams {
    pub key: Vec<u8>,
    pub modifiers: Option<Vec<Vec<u8>>>,
}

/// Parameters of a text-typing command.
#[derive(Debug, Clone, PartialEq, Eq)]
pub struct KeyTypeParams {
    pub text: Vec<u8>,
}

/// Parameters of a script-execution command.
#[derive(Debug, Clone, PartialEq, Eq)]
pub struct RunScriptParams {
    pub script: Vec<u8>,
}

/// A decoded command from the file channel, tagged on the wire by its
/// `type` field.  The four queueing commands carry the two optional
/// modifiers `execute_now` and `clear_after` (both default to true);
/// `RunScript` carries them too but ignores `execute_now`, since the
/// driver runs scripts atomically.
#[derive(Debug, Clone, PartialEq, Eq)]
pub enum IPCCommand {
    MoveMouseTo { params: MouseMoveParams, execute_now: Option<bool>, clear_after: Option<bool> },
    MouseClick { params: MouseClickParams, execute_now: Option<bool>, clear_after: Option<bool> },
    KeyPress { params: KeyPressParams, execute_now: Option<bool>, clear_after: Option<bool> },
    TypeText { params: KeyTypeParams, execute_now: Option<bool>, clear_after: Option<bool> },
    RunScript { params: RunScriptParams, execute_now: Option<bool>, clear_after: Option<bool> },
    ExecuteQueue,
    ClearActionQueue,
    GetStatus,
    Heartbeat,
    ShutdownGracefully,
    ShutdownImmediately,
}

/// Ghost model of a command: the same shape with byte strings abstracted
/// to sequences.
pub enum CmdModel {
    MoveMouseTo { x: i32, y: i32, execute_now: Option<bool>, clear_after: Option<bool> },
    MouseClick { button: Option<Seq<u8>>, execute_now: Option<bool>, clear_after: Option<bool> },
    KeyPress {
        key: Seq<u8>,
        modifiers: Option<Seq<Seq<u8>>>,
        execute_now: Option<bool>,
        clear_after: Option<bool>,
    },
    TypeText { text: Seq<u8>, execute_now: Option<bool>, clear_after: Option<bool> },
    RunScript { script: Seq<u8>, execute_now: Option<bool>, clear_after: Option<bool> },
    ExecuteQueue,
    ClearActionQueue,
    GetStatus,
    Heartbeat,
    ShutdownGracefully,
    ShutdownImmediately,
}

impl View for IPCCommand {
    type V = CmdModel;

    open spec fn view(&self) -> CmdModel {
        match *self {
            IPCCommand::MoveMouseTo { params, execute_now, clear_after } => CmdModel::MoveMouseTo {
                x: params.x,
                y: params.y,
                execute_now,
                clear_after,
            },
            IPCCommand::MouseClick { params, execute_now, clear_after } => CmdModel::MouseClick {
                button: match params.button {
                    Some(b) => Some(b@),
                    None => None,
                },
                execute_now,
                clear_after,
            },
            IPCCommand::KeyPress { params, execute_now, clear_after } => CmdModel::KeyPress {
                key: params.key@,
                modifiers: match params.modifiers {
                    Some(ms) => Some(ms.deep_view()),
                    None => None,
                },
                execute_now,
                clear_after,
            },
            IPCCommand::TypeText { params, execute_now, clear_after } => CmdModel::TypeText {
                text: params.text@,
                execute_now,
                clear_after,
            },
            IPCCommand::RunScript { params, execute_now, clear_after } => CmdModel::RunScript {
                script: params.script@,
                execute_now,
                clear_after,
            },
            IPCCommand::ExecuteQueue => CmdModel::ExecuteQueue,
            IPCCommand::ClearActionQueue => CmdModel::ClearActionQueue,
            IPCCommand::GetStatus => CmdModel::GetStatus,
            IPCCommand::Heartbeat => CmdModel::Heartbeat,
            IPCCommand::ShutdownGracefully => CmdModel::ShutdownGracefully,
            IPCCommand::ShutdownImmediately => CmdModel::ShutdownImmediately,
        }
    }
}

/// Mouse coordinates must lie in `0 ..= MAX_COORD` on both axes.
pub open spec fn coords_in_range(x: int, y: int) -> bool {
    &&& 0 <= x <= MAX_COORD
    &&& 0 <= y <= MAX_COORD
}

/// A command passes validation exactly when this predicate holds.
pub open spec fn valid_model(c: CmdModel) -> bool {
    match c {
        CmdModel::MoveMouseTo { x, y, .. } => coords_in_range(x as int, y as int),
        CmdModel::TypeText { text, .. } => text.len() <= MAX_TEXT_LEN,
        CmdModel::RunScript { script, .. } => script.len() <= MAX_SCRIPT_LEN,
        _ => true,
    }
}

/// A command passes validation exactly when this predicate holds.
pub open spec fn valid_command(c: IPCCommand) -> bool {
    valid_model(c@)
}

pub open spec fn msg_coords_negative() -> Seq<u8> {
    encode_utf8("Mouse coordinates must be non-negative"@)
}

pub open spec fn msg_coords_too_large() -> Seq<u8> {
    encode_utf8("Mouse coordinates must be at most 10000"@)
}

pub open spec fn msg_text_too_long() -> Seq<u8> {
    encode_utf8("Text must be at most 10000 bytes"@)
}

pub open spec fn msg_script_too_long() -> Seq<u8> {
    encode_utf8("Script must be at most 50000 bytes"@)
}

/// The reason an invalid command is rejected, as a human-readable message.
/// Only meaningful when `!valid_model(c)`.
pub open spec fn validation_message_model(c: CmdModel) -> Seq<u8> {
    match c {
        CmdModel::MoveMouseTo { x, y, .. } => if x < 0 || y < 0 {
            msg_coords_negative()
        } else {
            msg_coords_too_large()
        },
        CmdModel::TypeText { .. } => msg_text_too_long(),
        CmdModel::RunScript { .. } => msg_script_too_long(),
        _ => Seq::empty(),
    }
}

/// The reason an invalid command is rejected, as a human-readable message.
/// Only meaningful when `!valid_command(c)`.
pub open spec fn validation_message(c: IPCCommand) -> Seq<u8> {
    validation_message_model(c@)
}

impl IPCCommand {
    /// Checks the range invariants before execution.  Returns the exact
    /// human-readable reason on failure; an invalid command is never
    /// executed, only answered with a failure response.
    pub fn validate(&self) -> (r: Result<(), Vec<u8>>)
        ensures
            r is Ok <==> valid_command(*self),
            r is Err ==> r->Err_0@ == validation_message(*self),
    {
        match self {
            IPCCommand::MoveMouseTo { params, .. } => {
                if params.x < 0 || params.y < 0 {
                    Err("Mouse coordinates must be non-negative".as_bytes_vec())
                } else if params.x > MAX_COORD || params.y > MAX_COORD {
                    Err("Mouse coordinates must be at most 10000".as_bytes_vec())
                } else {
                    Ok(())
                }
            },
            IPCCommand::TypeText { params, .. } => {
                if params.text.len() > MAX_TEXT_LEN {
                    Err("Text must be at most 10000 bytes".as_bytes_vec())
                } else {
                    Ok(())
                }
            },
            IPCCommand::RunScript { params, .. } => {
                if params.script.len() > MAX_SCRIPT_LEN {
                    Err("Script must be at most 50000 bytes".as_bytes_vec())
                } else {
                    Ok(())
                }
            },
            _ => Ok(()),
        }
    }
}

} // verus!
