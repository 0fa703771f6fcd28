//! Verbose diagnostics, switched on or off for one run of the tool.

use crate::text::joined;
use vstd::prelude::*;

verus! {

/// Whether diagnostics are shown. They are off until switched on.
#[derive(Debug, Clone, Copy, PartialEq, Eq, Structural)]
pub struct Verbosity {
    pub enabled: bool,
}

impl Default for Verbosity {
    fn default() -> (verbosity: Verbosity)
        ensures
            !verbosity.enabled,
    {
        Verbosity { enabled: false }
    }
}

/// Switches diagnostics on or off.
pub fn set_verbose(verbosity: &mut Verbosity, verbose: bool)
    ensures
        final(verbosity).enabled == verbose,
{
    verbosity.enabled = verbose;
}

/// Whether diagnostics are on.
pub fn is_verbose(verbosity: &Verbosity) -> (enabled: bool)
    ensures
        enabled == verbosity.enabled,
{
    verbosity.enabled
}

/// The line to show for `message`: the message behind the tag `[VERBOSE]`
/// while diagnostics are on, nothing while they are off.
pub fn log(verbosity: &Verbosity, message: &str) -> (line: Option<String>)
    ensures
        match line {
            Some(text) => verbosity.enabled && text@ == "[VERBOSE] "@ + message@,
            None => !verbosity.enabled,
        },
{
    if is_verbose(verbosity) {
        Some(joined("[VERBOSE] ", message))
    } else {
        None
    }
}

} // verus!
