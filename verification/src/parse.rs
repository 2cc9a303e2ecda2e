//! Parsing command payloads.
//!
//! A command arrives as one compact JSON object in canonical member
//! order: the `type` discriminator first, then the command's `params`
//! object, then the optional `execute_now` and `clear_after` modifiers.
//! The parser mirrors the spec-level grammar below exactly: an unknown
//! discriminator is reported as such, anything else that deviates from
//! the grammar is a malformed payload.  An invalid payload never
//! crashes the channel — it becomes an error the channel answers.

use vstd::prelude::*;
use vstd::string::StringSliceAdditionalSpecFns;
use vstd::string::StrSliceExecFns;
use vstd::utf8::encode_utf8;
use crate::jsontext::{bytes_eq, expect, parse_string, parse_u64, spec_expect, spec_parse_string,
    spec_parse_u64};
use crate::protocol::{CmdModel, IPCCommand, KeyPressParams, KeyTypeParams, MouseClickParams,
    MouseMoveParams, RunScriptParams};

verus! {

/// Why a payload was rejected before validation.
#[derive(Debug, Clone, PartialEq, Eq)]
pub enum ProtocolError {
    /// The payload does not follow the channel's wire grammar.
    Malformed,
    /// The payload is well-formed but its `type` discriminator is not a
    /// known command.
    UnknownType { name: Vec<u8> },
}

/// Ghost model of a protocol error.
pub enum ProtoErrModel {
    Malformed,
    UnknownType { name: Seq<u8> },
}

impl View for ProtocolError {
    type V = ProtoErrModel;

    open spec fn view(&self) -> ProtoErrModel {
        match self {
            ProtocolError::Malformed => ProtoErrModel::Malformed,
            ProtocolError::UnknownType { name } => ProtoErrModel::UnknownType { name: name@ },
        }
    }
}

/// The rejection message of a malformed payload.
pub open spec fn msg_malformed() -> Seq<u8> {
    encode_utf8("Malformed command payload"@)
}

/// The rejection-message prefix of an unknown discriminator.
pub open spec fn msg_unknown_prefix() -> Seq<u8> {
    encode_utf8("Unknown command type: "@)
}

/// The human-readable reason carried in the failure response.
pub open spec fn spec_protocol_message(e: ProtoErrModel) -> Seq<u8> {
    match e {
        ProtoErrModel::Malformed => msg_malformed(),
        ProtoErrModel::UnknownType { name } => msg_unknown_prefix() + name,
    }
}

impl ProtocolError {
    /// Renders the rejection reason for the failure response.
    pub fn message(&self) -> (r: Vec<u8>)
        ensures
            r@ == spec_protocol_message(self@),
    {
        match self {
            ProtocolError::Malformed => "Malformed command payload".as_bytes_vec(),
            ProtocolError::UnknownType { name } => {
                let mut r = "Unknown command type: ".as_bytes_vec();
                r.extend_from_slice(name.as_slice());
                proof {
                    assert(r@ =~= msg_unknown_prefix() + name@);
                }
                r
            },
        }
    }
}

/// A signed 32-bit decimal number at position `i`.
pub open spec fn spec_parse_i32(s: Seq<u8>, i: int) -> Option<(i32, int)> {
    if 0 <= i < s.len() && s[i] == 45 {
        match spec_parse_u64(s, i + 1) {
            Some((v, j)) => if v <= 2147483648u64 {
                Some(((0 - v as int) as i32, j))
            } else {
                None
            },
            None => None,
        }
    } else {
        match spec_parse_u64(s, i) {
            Some((v, j)) => if v <= 2147483647u64 {
                Some((v as i32, j))
            } else {
                None
            },
            None => None,
        }
    }
}

/// Reads a signed 32-bit decimal number at position `i`.
fn parse_i32(s: &Vec<u8>, i: usize) -> (r: Option<(i32, usize)>)
    requires
        i <= s.len(),
    ensures
        match r {
            Some((v, j)) => spec_parse_i32(s@, i as int) == Some((v, j as int)) && i < j
                <= s.len(),
            None => spec_parse_i32(s@, i as int) is None,
        },
{
    if i < s.len() && s[i] == 45 {
        match parse_u64(s, i + 1) {
            Some((v, j)) => if v <= 2147483648u64 {
                Some((((0i64 - v as i64)) as i32, j))
            } else {
                None
            },
            None => None,
        }
    } else {
        match parse_u64(s, i) {
            Some((v, j)) => if v <= 2147483647u64 {
                Some((v as i32, j))
            } else {
                None
            },
            None => None,
        }
    }
}

/// A `true` or `false` literal at position `i`.
pub open spec fn spec_parse_bool_lit(s: Seq<u8>, i: int) -> Option<(bool, int)> {
    match spec_expect(s, i, encode_utf8("true"@)) {
        Some(j) => Some((true, j)),
        None => match spec_expect(s, i, encode_utf8("false"@)) {
            Some(j) => Some((false, j)),
            None => None,
        },
    }
}

/// Reads a `true` or `false` literal at position `i`.
fn parse_bool_lit(s: &Vec<u8>, i: usize) -> (r: Option<(bool, usize)>)
    requires
        i <= s.len(),
    ensures
        match r {
            Some((b, j)) => spec_parse_bool_lit(s@, i as int) == Some((b, j as int)) && i <= j
                <= s.len(),
            None => spec_parse_bool_lit(s@, i as int) is None,
        },
{
    match expect(s, i, "true") {
        Some(j) => Some((true, j)),
        None => match expect(s, i, "false") {
            Some(j) => Some((false, j)),
            None => None,
        },
    }
}

/// The closing brace of the top-level object, which must end the
/// payload.
pub open spec fn spec_parse_payload_end(s: Seq<u8>, i: int, en: Option<bool>, ca: Option<
    bool,
>) -> Option<(Option<bool>, Option<bool>)> {
    if 0 <= i < s.len() && s[i] == 125 && i + 1 == s.len() {
        Some((en, ca))
    } else {
        None
    }
}

/// The optional `clear_after` modifier, then the payload's end.
pub open spec fn spec_parse_opt_clear(s: Seq<u8>, i: int, en: Option<bool>) -> Option<(
    Option<bool>,
    Option<bool>,
)> {
    match spec_expect(s, i, encode_utf8(",\"clear_after\":"@)) {
        Some(j) => match spec_parse_bool_lit(s, j) {
            Some((b, j2)) => spec_parse_payload_end(s, j2, en, Some(b)),
            None => None,
        },
        None => spec_parse_payload_end(s, i, en, None),
    }
}

/// The optional `execute_now` and `clear_after` modifiers, then the
/// payload's end.
pub open spec fn spec_parse_opts(s: Seq<u8>, i: int) -> Option<(Option<bool>, Option<bool>)> {
    match spec_expect(s, i, encode_utf8(",\"execute_now\":"@)) {
        Some(j) => match spec_parse_bool_lit(s, j) {
            Some((b, j2)) => spec_parse_opt_clear(s, j2, Some(b)),
            None => None,
        },
        None => spec_parse_opt_clear(s, i, None),
    }
}

/// Reads the optional modifiers and the payload's closing brace.
fn parse_opts(s: &Vec<u8>, i: usize) -> (r: Option<(Option<bool>, Option<bool>)>)
    requires
        i <= s.len(),
    ensures
        r == spec_parse_opts(s@, i as int),
{
    let (en, i1) = match expect(s, i, ",\"execute_now\":") {
        Some(j) => match parse_bool_lit(s, j) {
            Some((b, j2)) => (Some(b), j2),
            None => {
                return None;
            },
        },
        None => (None, i),
    };
    let (ca, i2) = match expect(s, i1, ",\"clear_after\":") {
        Some(j) => match parse_bool_lit(s, j) {
            Some((b, j2)) => (Some(b), j2),
            None => {
                return None;
            },
        },
        None => (None, i1),
    };
    if i2 < s.len() && s[i2] == 125 && i2 + 1 == s.len() {
        Some((en, ca))
    } else {
        None
    }
}

/// A comma-separated list of strings closed by `]`, starting just after
/// the opening bracket.  `fuel` only bounds the recursion; any value at
/// least the remaining input length behaves the same.
pub open spec fn spec_parse_str_list(s: Seq<u8>, i: int, fuel: nat) -> Option<(Seq<Seq<u8>>, int)>
    decreases fuel,
{
    if fuel == 0 {
        None
    } else if !(0 <= i < s.len()) {
        None
    } else if s[i] == 93 {
        Some((Seq::empty(), i + 1))
    } else {
        match spec_parse_string(s, i) {
            None => None,
            Some((v, j)) => if j < s.len() && s[j] == 44 {
                match spec_parse_str_list(s, j + 1, (fuel - 1) as nat) {
                    Some((t, e)) => Some((seq![v] + t, e)),
                    None => None,
                }
            } else if j < s.len() && s[j] == 93 {
                Some((seq![v], j + 1))
            } else {
                None
            },
        }
    }
}

/// Reads a string list closed by `]`, starting just after the opening
/// bracket.
#[verifier::rlimit(100)]
fn parse_str_list(s: &Vec<u8>, i: usize) -> (r: Option<(Vec<Vec<u8>>, usize)>)
    requires
        i <= s.len(),
    ensures
        match r {
            Some((v, j)) => spec_parse_str_list(s@, i as int, (s@.len() - i + 1) as nat) == Some(
                (v.deep_view(), j as int),
            ) && i <= j <= s.len(),
            None => spec_parse_str_list(s@, i as int, (s@.len() - i + 1) as nat) is None,
        },
{
    let ghost fuel0: nat = (s@.len() - i + 1) as nat;
    let mut out: Vec<Vec<u8>> = Vec::new();
    let mut j: usize = i;
    let ghost mut fuel: nat = fuel0;
    proof {
        match spec_parse_str_list(s@, i as int, fuel) {
            Some((t, e)) => {
                assert(out.deep_view() + t =~= t);
            },
            None => {},
        }
    }
    loop
        invariant
            i <= j <= s.len(),
            fuel0 == (s@.len() - i + 1) as nat,
            fuel >= s@.len() - j + 1,
            spec_parse_str_list(s@, i as int, fuel0) == (match spec_parse_str_list(
                s@,
                j as int,
                fuel,
            ) {
                Some((t, e)) => Some((out.deep_view() + t, e)),
                None => None,
            }),
        decreases s.len() - j,
    {
        if j == s.len() {
            proof {
                assert(spec_parse_str_list(s@, j as int, fuel) is None);
            }
            return None;
        }
        if s[j] == 93 {
            proof {
                assert(spec_parse_str_list(s@, j as int, fuel) == Some(
                    (Seq::<Seq<u8>>::empty(), j as int + 1),
                ));
                assert(out.deep_view() + Seq::<Seq<u8>>::empty() =~~= out.deep_view());
            }
            return Some((out, j + 1));
        }
        let (v, j2) = match parse_string(s, j) {
            Some(p) => p,
            None => {
                proof {
                    assert(spec_parse_str_list(s@, j as int, fuel) is None);
                }
                return None;
            },
        };
        let ghost out_pre = out.deep_view();
        let ghost v_ghost = v@;
        if j2 < s.len() && s[j2] == 44 {
            out.push(v);
            proof {
                assert(out.deep_view() =~~= out_pre.push(v_ghost));
                match spec_parse_str_list(s@, j2 as int + 1, (fuel - 1) as nat) {
                    Some((t, e)) => {
                        assert(out_pre + (seq![v_ghost] + t) =~~= out_pre.push(v_ghost) + t);
                    },
                    None => {},
                }
                fuel = (fuel - 1) as nat;
            }
            j = j2 + 1;
        } else if j2 < s.len() && s[j2] == 93 {
            out.push(v);
            proof {
                assert(out.deep_view() =~~= out_pre.push(v_ghost));
                assert(out_pre + seq![v_ghost] =~~= out_pre.push(v_ghost));
                assert(spec_parse_str_list(s@, j as int, fuel) == Some(
                    (seq![v_ghost], j2 as int + 1),
                ));
            }
            return Some((out, j2 + 1));
        } else {
            proof {
                assert(spec_parse_str_list(s@, j as int, fuel) is None);
            }
            return None;
        }
    }
}

/// After `move_mouse_to`: its coordinate params, then the modifiers.
pub open spec fn spec_parse_move_tail(s: Seq<u8>, i: int) -> Option<CmdModel> {
    match spec_expect(s, i, encode_utf8(",\"params\":{\"x\":"@)) {
        None => None,
        Some(j) => match spec_parse_i32(s, j) {
            None => None,
            Some((x, j2)) => match spec_expect(s, j2, encode_utf8(",\"y\":"@)) {
                None => None,
                Some(j3) => match spec_parse_i32(s, j3) {
                    None => None,
                    Some((y, j4)) => match spec_expect(s, j4, encode_utf8("}"@)) {
                        None => None,
                        Some(j5) => match spec_parse_opts(s, j5) {
                            None => None,
                            Some((en, ca)) => Some(
                                CmdModel::MoveMouseTo { x, y, execute_now: en, clear_after: ca },
                            ),
                        },
                    },
                },
            },
        },
    }
}

/// After `mouse_click`: an empty params object or one naming the button,
/// then the modifiers.
pub open spec fn spec_parse_click_tail(s: Seq<u8>, i: int) -> Option<CmdModel> {
    match spec_expect(s, i, encode_utf8(",\"params\":{}"@)) {
        Some(j) => match spec_parse_opts(s, j) {
            None => None,
            Some((en, ca)) => Some(
                CmdModel::MouseClick { button: None, execute_now: en, clear_after: ca },
            ),
        },
        None => match spec_expect(s, i, encode_utf8(",\"params\":{\"button\":"@)) {
            None => None,
            Some(j) => match spec_parse_string(s, j) {
                None => None,
                Some((b, j2)) => match spec_expect(s, j2, encode_utf8("}"@)) {
                    None => None,
                    Some(j3) => match spec_parse_opts(s, j3) {
                        None => None,
                        Some((en, ca)) => Some(
                            CmdModel::MouseClick {
                                button: Some(b),
                                execute_now: en,
                                clear_after: ca,
                            },
                        ),
                    },
                },
            },
        },
    }
}

/// After `key_press`: the key and its optional modifier list, then the
/// modifiers.
pub open spec fn spec_parse_key_tail(s: Seq<u8>, i: int) -> Option<CmdModel> {
    match spec_expect(s, i, encode_utf8(",\"params\":{\"key\":"@)) {
        None => None,
        Some(j) => match spec_parse_string(s, j) {
            None => None,
            Some((key, j2)) => match spec_expect(s, j2, encode_utf8(",\"modifiers\":["@)) {
                Some(j3) => match spec_parse_str_list(s, j3, (s.len() - j3 + 1) as nat) {
                    None => None,
                    Some((ms, j4)) => match spec_expect(s, j4, encode_utf8("}"@)) {
                        None => None,
                        Some(j5) => match spec_parse_opts(s, j5) {
                            None => None,
                            Some((en, ca)) => Some(
                                CmdModel::KeyPress {
                                    key,
                                    modifiers: Some(ms),
                                    execute_now: en,
                                    clear_after: ca,
                                },
                            ),
                        },
                    },
                },
                None => match spec_expect(s, j2, encode_utf8("}"@)) {
                    None => None,
                    Some(j3) => match spec_parse_opts(s, j3) {
                        None => None,
                        Some((en, ca)) => Some(
                            CmdModel::KeyPress {
                                key,
                                modifiers: None,
                                execute_now: en,
                                clear_after: ca,
                            },
                        ),
                    },
                },
            },
        },
    }
}

/// After `type_text`: the text param, then the modifiers.
pub open spec fn spec_parse_text_tail(s: Seq<u8>, i: int) -> Option<CmdModel> {
    match spec_expect(s, i, encode_utf8(",\"params\":{\"text\":"@)) {
        None => None,
        Some(j) => match spec_parse_string(s, j) {
            None => None,
            Some((text, j2)) => match spec_expect(s, j2, encode_utf8("}"@)) {
                None => None,
                Some(j3) => match spec_parse_opts(s, j3) {
                    None => None,
                    Some((en, ca)) => Some(
                        CmdModel::TypeText { text, execute_now: en, clear_after: ca },
                    ),
                },
            },
        },
    }
}

/// After `run_script`: the script param, then the modifiers.
pub open spec fn spec_parse_script_tail(s: Seq<u8>, i: int) -> Option<CmdModel> {
    match spec_expect(s, i, encode_utf8(",\"params\":{\"script\":"@)) {
        None => None,
        Some(j) => match spec_parse_string(s, j) {
            None => None,
            Some((script, j2)) => match spec_expect(s, j2, encode_utf8("}"@)) {
                None => None,
                Some(j3) => match spec_parse_opts(s, j3) {
                    None => None,
                    Some((en, ca)) => Some(
                        CmdModel::RunScript { script, execute_now: en, clear_after: ca },
                    ),
                },
            },
        },
    }
}

/// After a command that carries nothing: the payload must close at
/// once.
pub open spec fn spec_parse_bare_tail(s: Seq<u8>, i: int, made: CmdModel) -> Option<CmdModel> {
    match spec_parse_payload_end(s, i, None, None) {
        Some(_) => Some(made),
        None => None,
    }
}

/// Whether a discriminator names a command.
pub open spec fn spec_known_name(name: Seq<u8>) -> bool {
    ||| name == encode_utf8("move_mouse_to"@)
    ||| name == encode_utf8("mouse_click"@)
    ||| name == encode_utf8("key_press"@)
    ||| name == encode_utf8("type_text"@)
    ||| name == encode_utf8("run_script"@)
    ||| name == encode_utf8("execute_queue"@)
    ||| name == encode_utf8("clear_action_queue"@)
    ||| name == encode_utf8("get_status"@)
    ||| name == encode_utf8("heartbeat"@)
    ||| name == encode_utf8("shutdown_gracefully"@)
    ||| name == encode_utf8("shutdown_immediately"@)
}

/// The rest of the grammar a known discriminator selects.
pub open spec fn spec_parse_known_tail(s: Seq<u8>, j: int, name: Seq<u8>) -> Option<CmdModel> {
    if name == encode_utf8("move_mouse_to"@) {
        spec_parse_move_tail(s, j)
    } else if name == encode_utf8("mouse_click"@) {
        spec_parse_click_tail(s, j)
    } else if name == encode_utf8("key_press"@) {
        spec_parse_key_tail(s, j)
    } else if name == encode_utf8("type_text"@) {
        spec_parse_text_tail(s, j)
    } else if name == encode_utf8("run_script"@) {
        spec_parse_script_tail(s, j)
    } else if name == encode_utf8("execute_queue"@) {
        spec_parse_bare_tail(s, j, CmdModel::ExecuteQueue)
    } else if name == encode_utf8("clear_action_queue"@) {
        spec_parse_bare_tail(s, j, CmdModel::ClearActionQueue)
    } else if name == encode_utf8("get_status"@) {
        spec_parse_bare_tail(s, j, CmdModel::GetStatus)
    } else if name == encode_utf8("heartbeat"@) {
        spec_parse_bare_tail(s, j, CmdModel::Heartbeat)
    } else if name == encode_utf8("shutdown_gracefully"@) {
        spec_parse_bare_tail(s, j, CmdModel::ShutdownGracefully)
    } else {
        spec_parse_bare_tail(s, j, CmdModel::ShutdownImmediately)
    }
}

/// The command a payload holds: the `type` discriminator picks the
/// grammar of the rest.  A discriminator outside the command set is an
/// `UnknownType` error; any other deviation from the grammar is
/// `Malformed`.
pub open spec fn spec_parse_command(s: Seq<u8>) -> Result<CmdModel, ProtoErrModel> {
    match spec_expect(s, 0, encode_utf8("{\"type\":"@)) {
        None => Err(ProtoErrModel::Malformed),
        Some(i) => match spec_parse_string(s, i) {
            None => Err(ProtoErrModel::Malformed),
            Some((name, j)) => if spec_known_name(name) {
                match spec_parse_known_tail(s, j, name) {
                    Some(c) => Ok(c),
                    None => Err(ProtoErrModel::Malformed),
                }
            } else {
                Err(ProtoErrModel::UnknownType { name })
            },
        },
    }
}

/// Reads the coordinate params and modifiers of a mouse-move command.
fn parse_move_tail(s: &Vec<u8>, i: usize) -> (r: Option<IPCCommand>)
    requires
        i <= s.len(),
    ensures
        match r {
            Some(c) => spec_parse_move_tail(s@, i as int) == Some(c@),
            None => spec_parse_move_tail(s@, i as int) is None,
        },
{
    let j = match expect(s, i, ",\"params\":{\"x\":") {
        Some(j) => j,
        None => {
            return None;
        },
    };
    let (x, j2) = match parse_i32(s, j) {
        Some(p) => p,
        None => {
            return None;
        },
    };
    let j3 = match expect(s, j2, ",\"y\":") {
        Some(j3) => j3,
        None => {
            return None;
        },
    };
    let (y, j4) = match parse_i32(s, j3) {
        Some(p) => p,
        None => {
            return None;
        },
    };
    let j5 = match expect(s, j4, "}") {
        Some(j5) => j5,
        None => {
            return None;
        },
    };
    let (en, ca) = match parse_opts(s, j5) {
        Some(p) => p,
        None => {
            return None;
        },
    };
    Some(
        IPCCommand::MoveMouseTo {
            params: MouseMoveParams { x, y },
            execute_now: en,
            clear_after: ca,
        },
    )
}

/// Reads the button params and modifiers of a mouse-click command.
fn parse_click_tail(s: &Vec<u8>, i: usize) -> (r: Option<IPCCommand>)
    requires
        i <= s.len(),
    ensures
        match r {
            Some(c) => spec_parse_click_tail(s@, i as int) == Some(c@),
            None => spec_parse_click_tail(s@, i as int) is None,
        },
{
    match expect(s, i, ",\"params\":{}") {
        Some(j) => {
            let (en, ca) = match parse_opts(s, j) {
                Some(p) => p,
                None => {
                    return None;
                },
            };
            Some(
                IPCCommand::MouseClick {
                    params: MouseClickParams { button: None },
                    execute_now: en,
                    clear_after: ca,
                },
            )
        },
        None => {
            let j = match expect(s, i, ",\"params\":{\"button\":") {
                Some(j) => j,
                None => {
                    return None;
                },
            };
            let (b, j2) = match parse_string(s, j) {
                Some(p) => p,
                None => {
                    return None;
                },
            };
            let j3 = match expect(s, j2, "}") {
                Some(j3) => j3,
                None => {
                    return None;
                },
            };
            let (en, ca) = match parse_opts(s, j3) {
                Some(p) => p,
                None => {
                    return None;
                },
            };
            Some(
                IPCCommand::MouseClick {
                    params: MouseClickParams { button: Some(b) },
                    execute_now: en,
                    clear_after: ca,
                },
            )
        },
    }
}

/// Reads the key params and modifiers of a key-press command.
fn parse_key_tail(s: &Vec<u8>, i: usize) -> (r: Option<IPCCommand>)
    requires
        i <= s.len(),
    ensures
        match r {
            Some(c) => spec_parse_key_tail(s@, i as int) == Some(c@),
            None => spec_parse_key_tail(s@, i as int) is None,
        },
{
    let j = match expect(s, i, ",\"params\":{\"key\":") {
        Some(j) => j,
        None => {
            return None;
        },
    };
    let (key, j2) = match parse_string(s, j) {
        Some(p) => p,
        None => {
            return None;
        },
    };
    match expect(s, j2, ",\"modifiers\":[") {
        Some(j3) => {
            let (ms, j4) = match parse_str_list(s, j3) {
                Some(p) => p,
                None => {
                    return None;
                },
            };
            let j5 = match expect(s, j4, "}") {
                Some(j5) => j5,
                None => {
                    return None;
                },
            };
            let (en, ca) = match parse_opts(s, j5) {
                Some(p) => p,
                None => {
                    return None;
                },
            };
            Some(
                IPCCommand::KeyPress {
                    params: KeyPressParams { key, modifiers: Some(ms) },
                    execute_now: en,
                    clear_after: ca,
                },
            )
        },
        None => {
            let j3 = match expect(s, j2, "}") {
                Some(j3) => j3,
                None => {
                    return None;
                },
            };
            let (en, ca) = match parse_opts(s, j3) {
                Some(p) => p,
                None => {
                    return None;
                },
            };
            Some(
                IPCCommand::KeyPress {
                    params: KeyPressParams { key, modifiers: None },
                    execute_now: en,
                    clear_after: ca,
                },
            )
        },
    }
}

/// Reads the text params and modifiers of a text-typing command.
fn parse_text_tail(s: &Vec<u8>, i: usize) -> (r: Option<IPCCommand>)
    requires
        i <= s.len(),
    ensures
        match r {
            Some(c) => spec_parse_text_tail(s@, i as int) == Some(c@),
            None => spec_parse_text_tail(s@, i as int) is None,
        },
{
    let j = match expect(s, i, ",\"params\":{\"text\":") {
        Some(j) => j,
        None => {
            return None;
        },
    };
    let (text, j2) = match parse_string(s, j) {
        Some(p) => p,
        None => {
            return None;
        },
    };
    let j3 = match expect(s, j2, "}") {
        Some(j3) => j3,
        None => {
            return None;
        },
    };
    let (en, ca) = match parse_opts(s, j3) {
        Some(p) => p,
        None => {
            return None;
        },
    };
    Some(
        IPCCommand::TypeText {
            params: KeyTypeParams { text },
            execute_now: en,
            clear_after: ca,
        },
    )
}

/// Reads the script params and modifiers of a script command.
fn parse_script_tail(s: &Vec<u8>, i: usize) -> (r: Option<IPCCommand>)
    requires
        i <= s.len(),
    ensures
        match r {
            Some(c) => spec_parse_script_tail(s@, i as int) == Some(c@),
            None => spec_parse_script_tail(s@, i as int) is None,
        },
{
    let j = match expect(s, i, ",\"params\":{\"script\":") {
        Some(j) => j,
        None => {
            return None;
        },
    };
    let (script, j2) = match parse_string(s, j) {
        Some(p) => p,
        None => {
            return None;
        },
    };
    let j3 = match expect(s, j2, "}") {
        Some(j3) => j3,
        None => {
            return None;
        },
    };
    let (en, ca) = match parse_opts(s, j3) {
        Some(p) => p,
        None => {
            return None;
        },
    };
    Some(
        IPCCommand::RunScript {
            params: RunScriptParams { script },
            execute_now: en,
            clear_after: ca,
        },
    )
}

/// Reads the immediate payload end after a bare command.
fn parse_bare_tail(s: &Vec<u8>, i: usize) -> (r: bool)
    requires
        i <= s.len(),
    ensures
        r <==> spec_parse_payload_end(s@, i as int, None, None) is Some,
{
    i < s.len() && s[i] == 125 && i + 1 == s.len()
}

/// Parses one command payload from the channel.
pub fn parse_command(s: &Vec<u8>) -> (r: Result<IPCCommand, ProtocolError>)
    ensures
        match r {
            Ok(c) => spec_parse_command(s@) == Ok::<CmdModel, ProtoErrModel>(c@),
            Err(e) => spec_parse_command(s@) == Err::<CmdModel, ProtoErrModel>(e@),
        },
{
    let i = match expect(s, 0, "{\"type\":") {
        Some(i) => i,
        None => {
            return Err(ProtocolError::Malformed);
        },
    };
    let (name, j) = match parse_string(s, i) {
        Some(p) => p,
        None => {
            return Err(ProtocolError::Malformed);
        },
    };
    let tail: Option<IPCCommand> = if bytes_eq(&name, "move_mouse_to".as_bytes()) {
        parse_move_tail(s, j)
    } else if bytes_eq(&name, "mouse_click".as_bytes()) {
        parse_click_tail(s, j)
    } else if bytes_eq(&name, "key_press".as_bytes()) {
        parse_key_tail(s, j)
    } else if bytes_eq(&name, "type_text".as_bytes()) {
        parse_text_tail(s, j)
    } else if bytes_eq(&name, "run_script".as_bytes()) {
        parse_script_tail(s, j)
    } else if bytes_eq(&name, "execute_queue".as_bytes()) {
        if parse_bare_tail(s, j) {
            Some(IPCCommand::ExecuteQueue)
        } else {
            None
        }
    } else if bytes_eq(&name, "clear_action_queue".as_bytes()) {
        if parse_bare_tail(s, j) {
            Some(IPCCommand::ClearActionQueue)
        } else {
            None
        }
    } else if bytes_eq(&name, "get_status".as_bytes()) {
        if parse_bare_tail(s, j) {
            Some(IPCCommand::GetStatus)
        } else {
            None
        }
    } else if bytes_eq(&name, "heartbeat".as_bytes()) {
        if parse_bare_tail(s, j) {
            Some(IPCCommand::Heartbeat)
        } else {
            None
        }
    } else if bytes_eq(&name, "shutdown_gracefully".as_bytes()) {
        if parse_bare_tail(s, j) {
            Some(IPCCommand::ShutdownGracefully)
        } else {
            None
        }
    } else if bytes_eq(&name, "shutdown_immediately".as_bytes()) {
        if parse_bare_tail(s, j) {
            Some(IPCCommand::ShutdownImmediately)
        } else {
            None
        }
    } else {
        return Err(ProtocolError::UnknownType { name });
    };
    match tail {
        Some(c) => Ok(c),
        None => Err(ProtocolError::Malformed),
    }
}

} // verus!
