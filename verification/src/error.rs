//! The error a failed window construction reports.

use vstd::prelude::*;

verus! {

/// Why a window could not be constructed. Construction is the only fallible
/// operation: runtime commands are best-effort and soft native failures are
/// tolerated without being surfaced.
#[derive(Copy, Clone, Debug, Eq, PartialEq, Structural)]
pub enum Error {
    /// Native window or window-class creation failed.
    Creation,
}

} // verus!
