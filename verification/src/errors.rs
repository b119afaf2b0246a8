//! Error taxonomy of the query core and its mapping to HTTP status codes.
use vstd::prelude::*;

verus! {

/// Outcome kinds of a lookup, kept distinguishable past the core's boundary.
///
/// `NoDataReturned` (the filter matched no stored rows) and
/// `AllRowsUndecodable` (rows matched, but every one failed to decode) are
/// deliberately separate kinds, even though the HTTP layer maps both to the
/// same status.
#[derive(Clone, Copy, Debug, PartialEq, Eq, Structural)]
pub enum DataApiError {
    /// A row's storage representation did not match the expected schema.
    RowTypedCast,
    /// Transport- or protocol-level failure talking to the storage layer.
    QueryFailed,
    /// The equality filter matched no stored rows.
    NoDataReturned,
    /// Rows matched the filter, but none of them could be decoded.
    AllRowsUndecodable,
    /// The requested entity/field pair has no known backing table.
    UnsupportedFilter,
}

/// The HTTP status code a [`DataApiError`] maps to.
pub open spec fn spec_status_code_of(err: DataApiError) -> u16 {
    match err {
        DataApiError::RowTypedCast => 500,
        DataApiError::QueryFailed => 500,
        DataApiError::NoDataReturned => 404,
        DataApiError::AllRowsUndecodable => 404,
        DataApiError::UnsupportedFilter => 404,
    }
}

/// Maps an error to the HTTP status code of the response that reports it.
/// Storage and decode faults are server errors; the not-found kinds and an
/// unsupported filter collapse to one "not found" status externally.
pub fn map_error_to_status_code(err: &DataApiError) -> (code: u16)
    ensures
        code == spec_status_code_of(*err),
{
    match err {
        DataApiError::RowTypedCast => 500,
        DataApiError::QueryFailed => 500,
        DataApiError::NoDataReturned => 404,
        DataApiError::AllRowsUndecodable => 404,
        DataApiError::UnsupportedFilter => 404,
    }
}

} // verus!
