//! Caller-facing query parameters and the page-size default.
use vstd::prelude::*;

verus! {

/// Page-size hint applied when a caller specifies none.
pub const DEFAULT_RESULT_LIMIT: i32 = 100;

/// Optional query parameters accepted by the list endpoints.
#[derive(Clone, Copy, Debug, PartialEq, Eq, Structural)]
pub struct DataApiQueryParams {
    pub limit: Option<i32>,
    pub ledger_index: Option<u32>,
}

impl DataApiQueryParams {
    /// The server-side page-size hint for this request: the caller's limit
    /// when given, the default otherwise.
    pub fn effective_limit(&self) -> (limit: i32)
        ensures
            self.limit matches Some(l) ==> limit == l,
            self.limit is None ==> limit == DEFAULT_RESULT_LIMIT,
    {
        match self.limit {
            Some(l) => l,
            None => DEFAULT_RESULT_LIMIT,
        }
    }
}

} // verus!
