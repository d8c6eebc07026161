//! The ways in which a command can fail.

use vstd::prelude::*;

verus! {

/// Why a command was not carried out.
#[derive(Clone, Copy, Debug, PartialEq, Eq, Structural)]
pub enum LauncherError {
    /// A parameter of the command is malformed.
    InvalidInput,
    /// No application is managed under the given identity.
    NotFound,
    /// The command arrived after the handler had terminated.
    AlreadyTerminated,
    /// The registry cannot take the change without breaking its invariant.
    Internal,
}

} // verus!
