//! The process-wide current-user association. The hosting shell stores the
//! resolved user id once, at initial user resolution, and every user-scoped
//! command resolves it through `require_current_user` before touching the
//! store.

use vstd::prelude::*;

use crate::errors::StoreError;

verus! {

/// Resolves the cached current-user association: the stored id when one has
/// been established, and `PreconditionFailed` — the only error this can
/// raise — when none has.
pub fn require_current_user(current_user_id: &Option<i64>) -> (r: Result<i64, StoreError>)
    ensures
        *current_user_id matches Some(id) ==> r == Ok::<i64, StoreError>(id),
        current_user_id is None ==> r == Err::<i64, StoreError>(StoreError::PreconditionFailed),
{
    match current_user_id {
        Some(id) => Ok(*id),
        None => Err(StoreError::PreconditionFailed),
    }
}

} // verus!
