//! Core of a local desktop-control daemon: the file-based command channel
//! protocol, command validation, execution-queue dispatch decisions,
//! execution statistics, and supervision of an external bridge process.
//!
//! The daemon's surroundings (file I/O, process spawning, the automation
//! driver, the network bridge) live outside this crate; everything here is
//! the decision logic between those edges, stated and proved over plain
//! values.  The channel's wire form is compact JSON handled byte for byte:
//! commands are parsed against the grammar in `parse`, responses are
//! written and read back by `wire`, and parsing a serialized response is
//! proved to give it back unchanged.

pub mod channel;
pub mod control;
pub mod dispatch;
pub mod jsontext;
pub mod parse;
pub mod protocol;
pub mod response;
pub mod stats;
pub mod supervisor;
pub mod wire;
