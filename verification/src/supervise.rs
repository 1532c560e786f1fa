//! Interpretation of the outcome of a bounded wait on the spawned
//! emulator process.
//!
//! The wait itself blocks on the operating system and lives outside the
//! library; what the library owns is the rule for reporting its result:
//! `None` while the process still runs, and otherwise the exit code,
//! with 0 substituted when the operating system reports none (for
//! example after termination by a signal).

use vstd::prelude::*;

verus! {

/// What a bounded wait reports, from the raw status the operating
/// system returned: `None` if the duration elapsed first, `Some(code)`
/// if the process exited with `code`, and `Some(None)` — an exit
/// without a code — reported as an exit with code 0.
pub open spec fn spec_wait_outcome(status: Option<Option<i32>>) -> Option<i32> {
    match status {
        Option::None => Option::None,
        Option::Some(Option::None) => Option::Some(0),
        Option::Some(Option::Some(code)) => Option::Some(code),
    }
}

/// Turn the raw result of a bounded wait — `None` for a timeout,
/// otherwise the exit code the operating system reported, if any —
/// into what the caller is told.
pub fn wait_outcome(status: Option<Option<i32>>) -> (r: Option<i32>)
    ensures
        r == spec_wait_outcome(status),
{
    match status {
        None => None,
        Some(None) => Some(0),
        Some(Some(code)) => Some(code),
    }
}

} // verus!
