//! The closed error taxonomy of the lookup layer, and the classification
//! of a failed native lookup from the captured OS error code.

use vstd::prelude::*;

verus! {

/// Why a lookup failed. Every failure of this layer is one of these; no
/// lookup panics or aborts.
#[derive(Debug, Clone, Copy, PartialEq, Eq)]
pub enum LookupError {
    /// The native lookup returned no record and left no error code: the
    /// key simply names no account.
    NotFound,
    /// The native lookup returned no record and set an error code, kept
    /// here verbatim. On some platforms this is ambiguous with a plain
    /// miss; callers must tolerate both readings.
    OsError(i32),
    /// The supplied name holds an embedded null character and cannot be
    /// passed to the native interface.
    InvalidInput,
    /// The record's primary name field could not be decoded as text: a
    /// structurally corrupt record.
    InvalidData,
    /// The caller lacks the privilege to read the store (in practice the
    /// shadow credential store).
    PermissionDenied,
}

/// `EPERM`: operation not permitted.
pub const ERR_NOT_PERMITTED: i32 = 1;

/// `ENOENT`: no such entry.
pub const ERR_NO_ENTRY: i32 = 2;

/// `EACCES`: permission denied.
pub const ERR_ACCESS: i32 = 13;

/// What a failed native lookup reports, given the process error code
/// captured immediately after the null result: a permission code becomes
/// `PermissionDenied`, an unset or no-such-entry code becomes `NotFound`,
/// and anything else is kept verbatim as `OsError`.
pub open spec fn os_failure(errno: i32) -> LookupError {
    if errno == ERR_NOT_PERMITTED || errno == ERR_ACCESS {
        LookupError::PermissionDenied
    } else if errno == 0 || errno == ERR_NO_ENTRY {
        LookupError::NotFound
    } else {
        LookupError::OsError(errno)
    }
}

/// Classifies the OS error code captured after a native lookup returned
/// no record.
pub fn classify_errno(errno: i32) -> (e: LookupError)
    ensures
        e == os_failure(errno),
{
    if errno == ERR_NOT_PERMITTED || errno == ERR_ACCESS {
        LookupError::PermissionDenied
    } else if errno == 0 || errno == ERR_NO_ENTRY {
        LookupError::NotFound
    } else {
        LookupError::OsError(errno)
    }
}

/// A lookup refused for want of privilege is never reported as a missing
/// record: the two outcomes stay distinguishable for every error code.
pub proof fn lemma_permission_denied_distinct(errno: i32)
    ensures
        os_failure(errno) == LookupError::PermissionDenied ==> os_failure(errno)
            != LookupError::NotFound,
        (errno == ERR_NOT_PERMITTED || errno == ERR_ACCESS) ==> os_failure(errno)
            == LookupError::PermissionDenied,
{
}

/// The mathematical value of a lookup outcome: the record projected to
/// its view, the error kept as it is.
pub open spec fn outcome_view<T: View>(r: Result<T, LookupError>) -> Result<T::V, LookupError> {
    match r {
        Ok(v) => Ok(v@),
        Err(e) => Err(e),
    }
}

} // verus!
