//! The installation probe: what the version query of the external binary
//! means.  The host runs `opencode --version` and reports what happened;
//! the meaning of every outcome is decided here.

use vstd::prelude::*;
use crate::errors::ServerError;
use crate::text;

verus! {

/// Whether the binary counts as installed, from the probe's outcome:
/// `None` when the binary could not be run at all, `Some(success)` with the
/// exit status otherwise.  Installed means it ran and exited successfully;
/// every failure, of any kind, means not installed — never an error.
pub fn installed_from_probe(probe: Option<bool>) -> (r: bool)
    ensures
        r == (probe == Some(true)),
{
    match probe {
        Some(success) => success,
        None => false,
    }
}

/// The version the probe reported: on success, the captured standard
/// output with surrounding whitespace trimmed; on failure (non-zero exit
/// or no run at all), `BinaryNotFound`.
pub fn version_from_output(success: bool, stdout: &str) -> (r: Result<String, ServerError>)
    ensures
        success ==> (r matches Ok(v) && v@ == text::trimmed(stdout@)),
        !success ==> (r matches Err(e) && e == ServerError::BinaryNotFound),
{
    if success {
        Ok(text::trim_str(stdout))
    } else {
        Err(ServerError::BinaryNotFound)
    }
}

} // verus!
