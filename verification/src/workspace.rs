//! The part of a workspace's git lookup that is computed rather than awaited.
use vstd::prelude::*;
use crate::git_ctx::GitRepoCtx;

verus! {

/// Borrows the outcome of a finished git lookup the way callers read it:
/// `Ok(None)` when the directory is not inside a git repository, `Ok(Some(..))`
/// with the context otherwise, and `Err(..)` with the error when the lookup failed.
/// The error type is left open so that a copy of it carrying more trait impls can
/// be stored.
pub fn git_ctx_ref<E>(outcome: &Result<Option<GitRepoCtx>, E>) -> (r: Result<
    Option<&GitRepoCtx>,
    &E,
>)
    ensures
        match *outcome {
            Ok(None) => r matches Ok(None),
            Ok(Some(ctx)) => r matches Ok(Some(c)) && *c == ctx,
            Err(e) => r matches Err(x) && *x == e,
        },
{
    match outcome {
        Ok(Some(ctx)) => Ok(Some(ctx)),
        Ok(None) => Ok(None),
        Err(e) => Err(e),
    }
}

} // verus!
