//! Supervision of the external bridge process.
//!
//! The supervisor owns one child process.  Spawning, probing and killing
//! are operating-system work performed by the caller; every decision —
//! whether to spawn, what to run with which environment, how a probe
//! outcome folds into the recorded state, what `stop` must kill — is made
//! and proved here.  The lifecycle is Absent (no child) to Running (child
//! recorded) and back to Absent on exit, crash or stop; no crashed state
//! is retained.

use vstd::prelude::*;
use vstd::string::StrSliceExecFns;
use vstd::utf8::encode_utf8;

verus! {

/// How long a restart waits between the kill and the new spawn, so a
/// binary that dies instantly cannot drive a tight crash-restart loop.
pub const RESTART_COOLDOWN_MS: u64 = 500;

/// Why the supervisor could not be built: the bridge binary is absent,
/// and the payload names the path that was checked.  A later spawn or
/// restart failure is the caller's operating-system error and is fatal
/// through the control loop instead.
#[derive(Debug, Clone, PartialEq, Eq)]
pub enum SupervisorError {
    BinaryNotFound { path: Vec<u8> },
}

/// What the caller must execute to start the bridge: the program, and the
/// two values handed through unchanged in its environment — the agent
/// endpoint under `NEURO_SDK_WS_URL` and the channel path under
/// `NEURO_IPC_FILE`.
#[derive(Debug, Clone, PartialEq, Eq)]
pub struct SpawnSpec {
    pub program: Vec<u8>,
    pub ws_url: Vec<u8>,
    pub ipc_file: Vec<u8>,
}

/// Supervisor state for the external bridge process.
#[derive(Debug, Clone, PartialEq, Eq)]
pub struct GoProcessManager {
    pub binary_path: Vec<u8>,
    pub child: Option<u64>,
}

/// The file name of the bridge binary, per platform.
pub open spec fn spec_binary_file_name(windows: bool) -> Seq<u8> {
    if windows {
        encode_utf8("neuro-integration.exe"@)
    } else {
        encode_utf8("neuro-integration"@)
    }
}

/// Picks the bridge binary's file name: the platform's executable suffix
/// is the only difference.  The caller resolves it against its own
/// install directory.
pub fn binary_file_name(windows: bool) -> (r: Vec<u8>)
    ensures
        r@ == spec_binary_file_name(windows),
{
    if windows {
        "neuro-integration.exe".as_bytes_vec()
    } else {
        "neuro-integration".as_bytes_vec()
    }
}

/// `stop`'s transition: the child, if any, is forgotten and returned for
/// the caller to kill.
pub open spec fn spec_stop(s: GoProcessManager) -> (GoProcessManager, Option<u64>) {
    (GoProcessManager { child: None, ..s }, s.child)
}

impl GoProcessManager {
    /// The recorded path of the bridge binary.
    pub open spec fn spec_binary_path(&self) -> Seq<u8> {
        self.binary_path@
    }

    /// Absent: no child is recorded.
    pub open spec fn is_absent(&self) -> bool {
        self.child is None
    }

    /// The recorded child process id, if one is running.
    pub open spec fn spec_child(&self) -> Option<u64> {
        self.child
    }

    /// Accepts the resolved binary path together with the caller's
    /// existence check.  A missing binary fails fast, names the path that
    /// was checked, and records no child.
    pub fn new(binary_path: Vec<u8>, binary_exists: bool) -> (r: Result<
        GoProcessManager,
        SupervisorError,
    >)
        ensures
            r is Ok <==> binary_exists,
            r is Ok ==> r->Ok_0.spec_binary_path() == binary_path@ && r->Ok_0.is_absent(),
            r is Err ==> r->Err_0 == (SupervisorError::BinaryNotFound { path: binary_path }),
    {
        if binary_exists {
            Ok(GoProcessManager { binary_path, child: None })
        } else {
            Err(SupervisorError::BinaryNotFound { path: binary_path })
        }
    }

    /// `start`'s decision: a running supervisor starts nothing (the call
    /// is a no-op); an absent one owes the caller a spawn of the recorded
    /// binary with the agent endpoint and channel path passed as
    /// environment variables.
    pub fn start_plan(&self, ws_url: &Vec<u8>, ipc_file: &Vec<u8>) -> (r: Option<SpawnSpec>)
        ensures
            r is Some <==> self.is_absent(),
            r is Some ==> r->0.program@ == self.spec_binary_path() && r->0.ws_url@ == ws_url@
                && r->0.ipc_file@ == ipc_file@,
    {
        if self.child.is_some() {
            None
        } else {
            Some(
                SpawnSpec {
                    program: self.binary_path.clone(),
                    ws_url: ws_url.clone(),
                    ipc_file: ipc_file.clone(),
                },
            )
        }
    }

    /// Records the child the caller spawned.
    pub fn record_spawn(&mut self, pid: u64)
        requires
            old(self).is_absent(),
        ensures
            final(self).spec_child() == Some(pid),
            final(self).spec_binary_path() == old(self).spec_binary_path(),
    {
        self.child = Some(pid);
    }

    /// The non-blocking liveness probe, fed with what the caller's
    /// `try_wait` on the recorded child returned.  An exited child folds
    /// the state back to Absent here — this is the one place crash
    /// detection happens.  A probe error reports not-running but keeps
    /// the handle, so a later `stop` still kills it.
    pub fn is_running(&mut self, probe: Option<ProbeResult>) -> (r: bool)
        requires
            probe is Some <==> old(self).spec_child() is Some,
        ensures
            final(self).spec_binary_path() == old(self).spec_binary_path(),
            r <==> probe == Some(ProbeResult::Alive),
            final(self).spec_child() == (if probe == Some(ProbeResult::Exited) {
                Option::<u64>::None
            } else {
                old(self).spec_child()
            }),
    {
        match probe {
            None => false,
            Some(ProbeResult::Alive) => true,
            Some(ProbeResult::Exited) => {
                self.child = None;
                false
            },
            Some(ProbeResult::Error) => false,
        }
    }

    /// Forgets the child and hands it to the caller to kill and wait on.
    /// Safe to call with no child: nothing is returned and nothing
    /// changes.
    pub fn stop(&mut self) -> (kill: Option<u64>)
        ensures
            (*final(self), kill) == spec_stop(*old(self)),
            final(self).is_absent(),
            final(self).spec_binary_path() == old(self).spec_binary_path(),
    {
        let kill = self.child;
        self.child = None;
        kill
    }
}

/// What the caller's non-blocking wait on the child reported.
#[derive(Debug, Clone, Copy, PartialEq, Eq)]
pub enum ProbeResult {
    /// The child is still running.
    Alive,
    /// The child has exited.
    Exited,
    /// The probe itself failed.
    Error,
}

/// Stopping is idempotent: on a supervisor with no child, `stop` changes
/// nothing and kills nothing, so a second consecutive `stop` after any
/// first one is a no-op.
pub proof fn lemma_stop_idempotent(s: GoProcessManager)
    ensures
        spec_stop(spec_stop(s).0).0 == spec_stop(s).0,
        spec_stop(spec_stop(s).0).1 is None,
        s.is_absent() ==> spec_stop(s).0 == s && spec_stop(s).1 is None,
{
}

} // verus!
