//! Whether the output streams are attached to a terminal.

use vstd::prelude::*;

verus! {

/// Asks `isatty::stdout_isatty` whether the standard output is attached to a
/// terminal. The answer depends on how the process was started, so nothing
/// is claimed of it.
#[verifier::external_body]
pub(crate) fn stdout_is_terminal() -> (answer: bool) {
    isatty::stdout_isatty()
}

/// Asks `isatty::stderr_isatty` whether the standard error is attached to a
/// terminal. The answer depends on how the process was started, so nothing
/// is claimed of it.
#[verifier::external_body]
pub(crate) fn stderr_is_terminal() -> (answer: bool) {
    isatty::stderr_isatty()
}

} // verus!
