//! The decision core of the `mun` command-line driver: manifest resolution
//! by upward directory search, the mapping from CLI flags and the
//! environment to a compile configuration, build dispatch between one-shot
//! and watch compilation, the runtime launch options with their debounce
//! delay, and the closed-world invoke-and-decode protocol that selects how
//! an entry point's result is requested and printed.
//!
//! Compiling, watching, serving language information and executing native
//! code are external collaborators; this crate decides, and states in each
//! contract exactly what it decided.

use vstd::prelude::*;

pub mod digits;
pub mod error;
pub mod invoke;
pub mod manifest;
pub mod options;
pub mod path;
pub mod plan;
pub mod runtime;

verus! {

/// Outcome of one CLI command, from which the process exit code is derived.
#[derive(Copy, Debug, Clone, PartialEq, Eq, Structural)]
pub enum ExitStatus {
    Success,
    Error,
}

impl From<bool> for ExitStatus {
    /// `true` marks a command that succeeded, `false` one that failed.
    fn from(succeeded: bool) -> (r: ExitStatus) {
        if succeeded {
            ExitStatus::Success
        } else {
            ExitStatus::Error
        }
    }
}

impl vstd::std_specs::convert::FromSpecImpl<bool> for ExitStatus {
    open spec fn obeys_from_spec() -> bool {
        true
    }

    open spec fn from_spec(succeeded: bool) -> ExitStatus {
        if succeeded {
            ExitStatus::Success
        } else {
            ExitStatus::Error
        }
    }
}

} // verus!
