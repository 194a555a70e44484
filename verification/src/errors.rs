//! The error values the supervisor and the probe surface to the host.

use vstd::prelude::*;
use vstd::string::StringExecFns;

verus! {

/// Why a supervisor or probe operation failed.  Every failure carries, or
/// maps to, a human-readable reason; none is retried automatically.
#[derive(Debug, Clone)]
pub enum ServerError {
    /// No free port could be obtained from the operating system.
    NoPortAvailable,
    /// Spawning the subprocess failed; the payload is the reason.
    SpawnFailed(String),
    /// Killing or reaping the subprocess failed; the payload is the reason.
    TerminationFailed(String),
    /// The binary could not be run, or reported failure, when asked for its
    /// version.
    BinaryNotFound,
    /// The lock guarding the process slot could not be acquired; the payload
    /// is the reason.
    LockUnavailable(String),
}

impl ServerError {
    /// The reason string for this error, as the host surfaces it.
    pub open spec fn message_spec(self) -> Seq<char> {
        match self {
            ServerError::NoPortAvailable => "No available ports"@,
            ServerError::SpawnFailed(reason) => reason@,
            ServerError::TerminationFailed(reason) => reason@,
            ServerError::BinaryNotFound => "opencode not found or failed to get version"@,
            ServerError::LockUnavailable(reason) => reason@,
        }
    }

    /// The human-readable reason for this error.
    pub fn message(&self) -> (m: String)
        ensures
            m@ == self.message_spec(),
    {
        match self {
            ServerError::NoPortAvailable => String::from_str("No available ports"),
            ServerError::SpawnFailed(reason) => reason.clone(),
            ServerError::TerminationFailed(reason) => reason.clone(),
            ServerError::BinaryNotFound => String::from_str(
                "opencode not found or failed to get version",
            ),
            ServerError::LockUnavailable(reason) => reason.clone(),
        }
    }
}

} // verus!
