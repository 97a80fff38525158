//! Identity-database lookups: user accounts, groups and shadow password
//! records, decoded from the operating system's account database into
//! owned, validated values.
//!
//! The native calls themselves (and the unsafe pointer walks that read
//! their fixed-layout records) live outside this crate; what stands here
//! is everything that can be decided from plain values: input validation,
//! error classification, and the conversion of a captured record into its
//! owned form.

use vstd::prelude::*;

pub mod error;
pub mod group;
pub mod shadow;
pub mod user;

pub use error::LookupError;
pub use group::Group;
pub use group::RawGroup;
pub use shadow::AccountStatus;
pub use shadow::RawShadow;
pub use shadow::Shadow;
pub use user::RawUser;
pub use user::User;

verus! {

/// True when `s` holds an embedded null character, which a
/// null-terminated native interface cannot carry.
fn contains_nul(s: &str) -> (b: bool)
    ensures
        b == s@.contains('\0'),
{
    let n = s.unicode_len();
    let mut i: usize = 0;
    while i < n
        invariant
            n == s@.len(),
            i <= n,
            forall|j: int| 0 <= j < i ==> s@[j] != '\0',
        decreases n - i,
    {
        if s.get_char(i) == '\0' {
            return true;
        }
        i = i + 1;
    }
    false
}

/// Shared input check for every lookup that takes a name: a name with an
/// embedded null character is refused as `InvalidInput` before any native
/// call is made.
pub fn check_name(name: &str) -> (r: Result<(), LookupError>)
    ensures
        name@.contains('\0') ==> r == Err::<(), LookupError>(LookupError::InvalidInput),
        !name@.contains('\0') ==> r == Ok::<(), LookupError>(()),
{
    if contains_nul(name) {
        Err(LookupError::InvalidInput)
    } else {
        Ok(())
    }
}

/// Get current user's username: projects the current-user lookup to just
/// the name field, propagating any lookup error unchanged.
pub fn whoami(current: Result<User, LookupError>) -> (r: Result<String, LookupError>)
    ensures
        current is Ok ==> r is Ok && r->Ok_0@ == current->Ok_0.name@,
        current is Err ==> r == Err::<String, LookupError>(current->Err_0),
{
    match current {
        Ok(user) => Ok(user.name),
        Err(e) => Err(e),
    }
}

} // verus!
