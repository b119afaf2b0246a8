//! Read-only query core for a wide-column ledger dataset: typed row decoding,
//! table selection, paginated retrieval, and temporal ledger resolution.
pub mod classify;
pub mod errors;
pub mod executor;
pub mod models;
pub mod params;
pub mod resolver;
pub mod selector;
pub mod values;
pub mod wide_int;
