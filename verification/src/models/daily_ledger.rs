//! The daily ledger-close index: one entry per ledger closed on a UTC day.
use vstd::prelude::*;

use crate::errors::DataApiError;
use crate::values::{row_matches, CellValue, ColType};

verus! {

/// One row of the daily ledger-close index, as the list endpoints return it.
///
/// The set of entries sharing a `ledger_close_day` is exactly the set of
/// ledgers closed on that UTC day. `close_time` and `close_time_unix` carry
/// the same instant; the latter is projected separately by the query.
#[derive(Clone, Copy, Debug, PartialEq, Eq, Structural)]
pub struct DailyLedger {
    /// UTC calendar day the ledger closed on, days since the Unix epoch;
    /// the partition key of the index.
    pub ledger_close_day: i64,
    /// Index of the closed ledger.
    pub ledger_index: i64,
    /// Close instant, milliseconds since the Unix epoch, UTC.
    pub close_time: i64,
    /// Close instant as projected through the storage layer's Unix-time
    /// conversion, milliseconds since the Unix epoch.
    pub close_time_unix: i64,
}

/// Column types of a daily index row, in canonical projection order.
pub open spec fn daily_ledger_schema() -> Seq<ColType> {
    seq![ColType::Date, ColType::BigInt, ColType::Timestamp, ColType::BigInt]
}

/// The record a well-shaped daily index row decodes to.
pub open spec fn daily_ledger_of_row(row: Seq<CellValue>) -> DailyLedger {
    DailyLedger {
        ledger_close_day: row[0]->Date_0,
        ledger_index: row[1]->BigInt_0,
        close_time: row[2]->Timestamp_0,
        close_time_unix: row[3]->BigInt_0,
    }
}

impl DailyLedger {
    /// Positional decode of a storage row: succeeds exactly on rows shaped by
    /// [`daily_ledger_schema`], and then yields the cells' values unchanged.
    pub fn from_row(row: Vec<CellValue>) -> (r: Result<DailyLedger, DataApiError>)
        ensures
            r is Ok <==> row_matches(row@, daily_ledger_schema()),
            r matches Ok(rec) ==> rec == daily_ledger_of_row(row@),
            r matches Err(e) ==> e == DataApiError::RowTypedCast,
    {
        let mut row = row;
        if row.len() != 4 {
            return Err(DataApiError::RowTypedCast);
        }
        let ledger_close_day = match row.remove(0) {
            CellValue::Date(v) => v,
            _ => {
                return Err(DataApiError::RowTypedCast);
            },
        };
        let ledger_index = match row.remove(0) {
            CellValue::BigInt(v) => v,
            _ => {
                return Err(DataApiError::RowTypedCast);
            },
        };
        let close_time = match row.remove(0) {
            CellValue::Timestamp(v) => v,
            _ => {
                return Err(DataApiError::RowTypedCast);
            },
        };
        let close_time_unix = match row.remove(0) {
            CellValue::BigInt(v) => v,
            _ => {
                return Err(DataApiError::RowTypedCast);
            },
        };
        Ok(DailyLedger { ledger_close_day, ledger_index, close_time, close_time_unix })
    }
}

} // verus!
