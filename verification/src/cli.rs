//! Presence check for the external command-line tool that performs the
//! install.

use vstd::prelude::*;

verus! {

/// Checks whether an executable named `matrix` can be found on the `PATH`.
///
/// Relies on `which::which`, which returns `Ok` exactly when it finds such
/// an executable. The answer depends on the machine's environment at the
/// moment of the call, so nothing is promised of it; the orchestrator takes
/// the answer as an event and is verified for either value.
#[verifier::external_body]
pub fn cli_exists() -> bool {
    which::which("matrix").is_ok()
}

} // verus!
