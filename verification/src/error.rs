//! The uniform reported error: every failure mode of a command — usage,
//! manifest resolution, configuration, runtime launch or invocation —
//! collapses to one variant carrying what its human-readable message needs,
//! and none is auto-recovered.

use crate::digits::IntParseError;
use crate::path::{display_of, FsPath};
use vstd::prelude::*;
use vstd::string::StringExecFns;

verus! {

/// One reported command failure.
#[derive(Debug)]
pub enum CliError {
    /// The optimization flag was outside the valid set `0`-`3`.
    InvalidOptLevel,
    /// An explicit manifest path did not name an existing manifest.
    InvalidManifestPath { path: String },
    /// No manifest was found in a directory or any of its ancestors.
    ManifestNotFound { directory: FsPath },
    /// The requested entry point is not in the loaded module.
    EntryPointNotFound { name: String },
    /// The entry point's declared return type is outside the supported set.
    UnsupportedReturnType { found: String },
    /// The reload delay flag was not an unsigned decimal number.
    InvalidDelay { cause: IntParseError },
    /// The runtime reported a failure: a library that would not load, or an
    /// invocation that failed natively.
    RuntimeFailure { message: String },
}

impl IntParseError {
    /// The standard integer parser's message for this cause.
    pub open spec fn spec_message(self) -> Seq<char> {
        match self {
            IntParseError::Empty => "cannot parse integer from empty string"@,
            IntParseError::InvalidDigit => "invalid digit found in string"@,
            IntParseError::PosOverflow => "number too large to fit in target type"@,
        }
    }
}

impl CliError {
    /// The human-readable message reported for this failure.
    pub open spec fn spec_message(self) -> Seq<char> {
        match self {
            CliError::InvalidOptLevel => "Only optimization levels 0-3 are supported"@,
            CliError::InvalidManifestPath { path } => "'"@ + path@
                + "' does not refer to a valid manifest path"@,
            CliError::ManifestNotFound { directory } => "could not find mun.toml in '"@
                + display_of(directory@) + "' or a parent directory"@,
            CliError::EntryPointNotFound { name } => "Failed to obtain entry point '"@ + name@
                + "'"@,
            CliError::UnsupportedReturnType { found } =>
                "Only native Mun return types are supported for entry points. Found: "@
                + found@,
            CliError::InvalidDelay { cause } => cause.spec_message(),
            CliError::RuntimeFailure { message } => message@,
        }
    }

    /// Renders the message.
    pub fn message(&self) -> (s: String)
        ensures
            s@ == self.spec_message(),
    {
        match self {
            CliError::InvalidOptLevel => "Only optimization levels 0-3 are supported".to_owned(),
            CliError::InvalidManifestPath { path } => {
                let mut s = "'".to_owned();
                s.append(path.as_str());
                s.append("' does not refer to a valid manifest path");
                proof {
                    assert(s@ =~= self.spec_message());
                }
                s
            },
            CliError::ManifestNotFound { directory } => {
                let mut s = "could not find mun.toml in '".to_owned();
                let shown = directory.display_string();
                s.append(shown.as_str());
                s.append("' or a parent directory");
                proof {
                    assert(s@ =~= self.spec_message());
                }
                s
            },
            CliError::EntryPointNotFound { name } => {
                let mut s = "Failed to obtain entry point '".to_owned();
                s.append(name.as_str());
                s.append("'");
                proof {
                    assert(s@ =~= self.spec_message());
                }
                s
            },
            CliError::UnsupportedReturnType { found } => {
                let mut s =
                    "Only native Mun return types are supported for entry points. Found: ".to_owned();
                s.append(found.as_str());
                proof {
                    assert(s@ =~= self.spec_message());
                }
                s
            },
            CliError::InvalidDelay { cause } => match cause {
                IntParseError::Empty => "cannot parse integer from empty string".to_owned(),
                IntParseError::InvalidDigit => "invalid digit found in string".to_owned(),
                IntParseError::PosOverflow => "number too large to fit in target type".to_owned(),
            },
            CliError::RuntimeFailure { message } => message.clone(),
        }
    }
}

} // verus!
