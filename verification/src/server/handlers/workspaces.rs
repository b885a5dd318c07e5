//! Workspaces outside a sync: listing, creating, changing, deleting and
//! choosing the default one.
use vstd::prelude::*;
use crate::server::handlers::ErrorResponse;

verus! {

/// Whether a workspace may be deleted, given whether it is the default one
/// (absent when the account has no such live workspace): the default
/// workspace may not be.
pub fn check_deletable(is_default: Option<bool>) -> (r: Result<(), ErrorResponse>)
    ensures
        r is Ok == !(is_default == Some(true)),
        r matches Err(e) ==> e.error@ == "不允许删除默认空间"@ && e.status is None,
{
    match is_default {
        Some(true) => Err(ErrorResponse::new("不允许删除默认空间")),
        _ => Ok(()),
    }
}

} // verus!
