//! Reading and clearing the sync history.
use vstd::prelude::*;
use crate::server::services::sync_history_service::{MAX_HISTORY_PAGE, DEFAULT_HISTORY_PAGE};

verus! {

/// Query of a history listing.
#[derive(Debug, Clone)]
pub struct HistoryQueryParams {
    pub limit: Option<usize>,
}

/// How many history records a listing returns: 50 unless asked, at most 100.
pub fn history_limit(params: &HistoryQueryParams) -> (r: usize)
    ensures
        r == (match params.limit {
            Some(l) => if l < MAX_HISTORY_PAGE { l } else { MAX_HISTORY_PAGE },
            None => DEFAULT_HISTORY_PAGE,
        }),
{
    let l = match params.limit {
        Some(l) => l,
        None => DEFAULT_HISTORY_PAGE,
    };
    if l < MAX_HISTORY_PAGE {
        l
    } else {
        MAX_HISTORY_PAGE
    }
}

} // verus!
