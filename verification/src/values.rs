//! The wire-level model of a storage row: an ordered sequence of typed cells.
//!
//! Timestamps are absolute UTC instants in milliseconds since the Unix epoch;
//! dates are UTC calendar days counted from the Unix epoch (negative before
//! it); wide integers are carried as canonical decimal text.
use vstd::prelude::*;

use crate::wide_int::WideInt;

verus! {

/// One cell of a positional storage row.
#[derive(Clone, Debug, PartialEq, Eq)]
pub enum CellValue {
    /// A 64-bit signed integer column.
    BigInt(i64),
    /// A 32-bit signed integer column.
    Int(i32),
    /// A 16-bit signed integer column.
    SmallInt(i16),
    /// A boolean column.
    Boolean(bool),
    /// A UTF-8 text column.
    Text(String),
    /// An opaque binary column; never interpreted by the core.
    Blob(Vec<u8>),
    /// An absolute UTC instant, milliseconds since the Unix epoch.
    Timestamp(i64),
    /// A UTC calendar day, days since the Unix epoch.
    Date(i64),
    /// An arbitrary-precision integer column.
    Varint(WideInt),
    /// An absent value in an optional column.
    Null,
}

/// The semantic type expected of a cell at a given position.
#[derive(Clone, Copy, Debug, PartialEq, Eq, Structural)]
pub enum ColType {
    BigInt,
    Int,
    SmallInt,
    Boolean,
    Text,
    Blob,
    Timestamp,
    Date,
    Varint,
    /// A text column whose value may be absent.
    OptText,
    /// A 64-bit integer column whose value may be absent.
    OptBigInt,
}

/// Whether a cell carries a value of the expected column type; optional
/// columns accept the absent cell.
pub open spec fn cell_matches(c: CellValue, t: ColType) -> bool {
    match t {
        ColType::BigInt => c is BigInt,
        ColType::Int => c is Int,
        ColType::SmallInt => c is SmallInt,
        ColType::Boolean => c is Boolean,
        ColType::Text => c is Text,
        ColType::Blob => c is Blob,
        ColType::Timestamp => c is Timestamp,
        ColType::Date => c is Date,
        ColType::Varint => c is Varint,
        ColType::OptText => c is Text || c is Null,
        ColType::OptBigInt => c is BigInt || c is Null,
    }
}

/// Whether a row has exactly the shape of a schema: the same column count,
/// and a matching cell at every position.
pub open spec fn row_matches(row: Seq<CellValue>, schema: Seq<ColType>) -> bool {
    &&& row.len() == schema.len()
    &&& forall|i: int| 0 <= i < row.len() ==> cell_matches(row[i], #[trigger] schema[i])
}

/// The text of an optional text cell: present or absent, never coerced to an
/// empty string.
pub open spec fn opt_text_of(c: CellValue) -> Option<String> {
    match c {
        CellValue::Text(s) => Some(s),
        _ => None,
    }
}

/// The value of an optional 64-bit integer cell.
pub open spec fn opt_big_int_of(c: CellValue) -> Option<i64> {
    match c {
        CellValue::BigInt(v) => Some(v),
        _ => None,
    }
}

} // verus!
