//! Response data model.
//!
//! Exactly one response is produced per consumed command.  Its `data` can
//! carry the `shutdown` marker that tells the channel to stop, or a
//! statistics snapshot for status commands; `error` carries the
//! human-readable reason when a command fails.

use vstd::prelude::*;
use crate::stats::StatusData;

verus! {

/// Structured payload of a response.
#[derive(Debug, Clone, PartialEq, Eq)]
pub enum ResponseData {
    /// The `shutdown: true` marker: the channel must stop after the
    /// response is written.
    Shutdown,
    /// A statistics snapshot, returned by status and heartbeat commands.
    Status(StatusData),
}

/// The answer written back to the file channel for one consumed command.
#[derive(Debug, Clone, PartialEq, Eq)]
pub struct IPCResponse {
    pub success: bool,
    pub data: Option<ResponseData>,
    pub error: Option<Vec<u8>>,
    pub timestamp: u64,
    pub execution_time_ms: Option<u64>,
}

/// Ghost model of a response: the same fields with byte strings abstracted
/// to sequences.
pub struct RespModel {
    pub success: bool,
    pub data: Option<ResponseData>,
    pub error: Option<Seq<u8>>,
    pub timestamp: u64,
    pub execution_time_ms: Option<u64>,
}

impl View for IPCResponse {
    type V = RespModel;

    open spec fn view(&self) -> RespModel {
        RespModel {
            success: self.success,
            data: self.data,
            error: match self.error {
                Some(e) => Some(e@),
                None => None,
            },
            timestamp: self.timestamp,
            execution_time_ms: self.execution_time_ms,
        }
    }
}

impl IPCResponse {
    /// Whether the response tells the channel to shut down.
    pub open spec fn spec_carries_shutdown(&self) -> bool {
        self.data == Some(ResponseData::Shutdown)
    }

    /// Whether the response tells the channel to shut down.
    pub fn carries_shutdown(&self) -> (b: bool)
        ensures
            b == self.spec_carries_shutdown(),
    {
        match &self.data {
            Some(ResponseData::Shutdown) => true,
            _ => false,
        }
    }

    /// A plain success with no payload.
    pub fn success(timestamp: u64) -> (r: IPCResponse)
        ensures
            r.success,
            r.data is None,
            r.error is None,
            r.timestamp == timestamp,
            r.execution_time_ms is None,
    {
        IPCResponse { success: true, data: None, error: None, timestamp, execution_time_ms: None }
    }

    /// A failure carrying its human-readable reason.
    pub fn failure(error: Vec<u8>, timestamp: u64) -> (r: IPCResponse)
        ensures
            !r.success,
            r.data is None,
            r.error == Some(error),
            r.timestamp == timestamp,
            r.execution_time_ms is None,
    {
        IPCResponse {
            success: false,
            data: None,
            error: Some(error),
            timestamp,
            execution_time_ms: None,
        }
    }

    /// The success response that also signals channel shutdown.
    pub fn shutdown(timestamp: u64) -> (r: IPCResponse)
        ensures
            r.success,
            r.spec_carries_shutdown(),
            r.error is None,
            r.timestamp == timestamp,
            r.execution_time_ms is None,
    {
        IPCResponse {
            success: true,
            data: Some(ResponseData::Shutdown),
            error: None,
            timestamp,
            execution_time_ms: None,
        }
    }

    /// A success carrying a statistics snapshot.
    pub fn status(data: StatusData, timestamp: u64) -> (r: IPCResponse)
        ensures
            r.success,
            r.data == Some(ResponseData::Status(data)),
            r.error is None,
            r.timestamp == timestamp,
            r.execution_time_ms is None,
    {
        IPCResponse {
            success: true,
            data: Some(ResponseData::Status(data)),
            error: None,
            timestamp,
            execution_time_ms: None,
        }
    }

    /// The same response with its measured execution time filled in.
    pub fn with_execution_time(self, elapsed_ms: u64) -> (r: IPCResponse)
        ensures
            r.success == self.success,
            r.data == self.data,
            r.error == self.error,
            r.timestamp == self.timestamp,
            r.execution_time_ms == Some(elapsed_ms),
    {
        IPCResponse { execution_time_ms: Some(elapsed_ms), ..self }
    }
}

} // verus!
