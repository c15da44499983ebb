//! What launching the hot-reloadable runtime needs: the library to load and
//! the debounce delay that coalesces bursts of change notifications into one
//! reload.

use crate::digits::{parse_u64, spec_parse_u64};
use crate::error::CliError;
use vstd::prelude::*;

verus! {

/// The reload debounce delay used when no `--delay` flag is given, in
/// milliseconds.
pub const DEFAULT_DELAY_MS: u64 = 10;

/// The options a started runtime is built from.
#[derive(Debug, Clone)]
pub struct RuntimeOptions {
    /// The compiled library the runtime loads.
    pub library_path: String,
    /// The debounce window for filesystem-change notifications, in
    /// milliseconds.
    pub delay_ms: u64,
}

/// Builds the launch options for `start`: the library path as given, and the
/// delay from its flag — absent means the default, and a malformed value is
/// a reported parse error, never a crash.
pub fn runtime_options(library_path: String, delay_flag: Option<&String>) -> (r: Result<
    RuntimeOptions,
    CliError,
>)
    ensures
        match delay_flag {
            None => r matches Ok(o) && o.library_path@ == library_path@ && o.delay_ms
                == DEFAULT_DELAY_MS,
            Some(s) => match spec_parse_u64(s@) {
                Ok(ms) => r matches Ok(o) && o.library_path@ == library_path@ && o.delay_ms == ms,
                Err(cause) => r == Err::<RuntimeOptions, CliError>(
                    CliError::InvalidDelay { cause },
                ),
            },
        },
{
    match delay_flag {
        None => Ok(RuntimeOptions { library_path, delay_ms: DEFAULT_DELAY_MS }),
        Some(s) => match parse_u64(s.as_str()) {
            Ok(ms) => Ok(RuntimeOptions { library_path, delay_ms: ms }),
            Err(cause) => Err(CliError::InvalidDelay { cause }),
        },
    }
}

} // verus!
