//! The full ledger record and the compact daily-index entry.
use vstd::prelude::*;

use crate::errors::DataApiError;
use crate::models::daily_ledger::DailyLedger;
use crate::values::{row_matches, CellValue, ColType};
use crate::wide_int::WideInt;

verus! {

/// The compact image of a daily-index row: the close day, the ledger's
/// index and its close instant.
#[derive(Clone, Copy, Debug, PartialEq, Eq, Structural)]
pub struct DailyLedgerScylla {
    /// UTC calendar day the ledger closed on, days since the Unix epoch.
    pub ledger_close_day: i64,
    /// Index of the closed ledger.
    pub ledger_index: i64,
    /// Close instant, milliseconds since the Unix epoch, UTC.
    pub close_time: i64,
}

impl DailyLedger {
    /// The compact index entry carried by this daily row.
    pub fn index_entry(&self) -> (r: DailyLedgerScylla)
        ensures
            r.ledger_close_day == self.ledger_close_day,
            r.ledger_index == self.ledger_index,
            r.close_time == self.close_time,
    {
        DailyLedgerScylla {
            ledger_close_day: self.ledger_close_day,
            ledger_index: self.ledger_index,
            close_time: self.close_time,
        }
    }
}

/// A closed ledger: an ordered batch of transactions with a unique,
/// monotonically increasing index and a unique hash.
///
/// Across the full history, `ledger_index` is strictly increasing with
/// `close_time`; the temporal resolver's tie-break rests on that.
#[derive(Clone, Debug, PartialEq, Eq)]
pub struct LedgerScylla {
    /// Monotonically increasing index; the primary identity.
    pub ledger_index: i64,
    /// Hash of the ledger; the alternate unique identity.
    pub ledger_hash: String,
    /// Hash of the account state.
    pub account_hash: String,
    /// Hash of the parent ledger.
    pub parent_hash: String,
    /// Hash of the transaction set.
    pub transaction_hash: String,
    /// Close-flag bit set.
    pub close_flags: i32,
    /// Close instant, milliseconds since the Unix epoch, UTC.
    pub close_time: i64,
    /// Parent ledger's close instant, milliseconds since the Unix epoch, UTC.
    pub parent_close_time: i64,
    /// Total native-currency supply.
    pub total_coins: i64,
    /// Number of transactions in the ledger; arbitrary precision.
    pub tx_count: WideInt,
    /// Whether the ledger has been processed.
    pub ledger_processed: bool,
}

/// Column types of a ledger row, in canonical projection order; the order is
/// exactly the positional mapping [`ledger_of_row`] decodes by.
pub open spec fn ledger_schema() -> Seq<ColType> {
    seq![
        ColType::BigInt,
        ColType::Text,
        ColType::Text,
        ColType::Text,
        ColType::Text,
        ColType::Int,
        ColType::Timestamp,
        ColType::Timestamp,
        ColType::BigInt,
        ColType::Varint,
        ColType::Boolean,
    ]
}

/// The record a well-shaped ledger row decodes to.
pub open spec fn ledger_of_row(row: Seq<CellValue>) -> LedgerScylla {
    LedgerScylla {
        ledger_index: row[0]->BigInt_0,
        ledger_hash: row[1]->Text_0,
        account_hash: row[2]->Text_0,
        parent_hash: row[3]->Text_0,
        transaction_hash: row[4]->Text_0,
        close_flags: row[5]->Int_0,
        close_time: row[6]->Timestamp_0,
        parent_close_time: row[7]->Timestamp_0,
        total_coins: row[8]->BigInt_0,
        tx_count: row[9]->Varint_0,
        ledger_processed: row[10]->Boolean_0,
    }
}

impl LedgerScylla {
    /// Positional decode of a storage row: succeeds exactly on rows shaped by
    /// [`ledger_schema`], and then yields the cells' values unchanged.
    pub fn from_row(row: Vec<CellValue>) -> (r: Result<LedgerScylla, DataApiError>)
        ensures
            r is Ok <==> row_matches(row@, ledger_schema()),
            r matches Ok(rec) ==> rec == ledger_of_row(row@),
            r matches Err(e) ==> e == DataApiError::RowTypedCast,
    {
        let mut row = row;
        if row.len() != 11 {
            return Err(DataApiError::RowTypedCast);
        }
        let ledger_index = match row.remove(0) {
            CellValue::BigInt(v) => v,
            _ => {
                return Err(DataApiError::RowTypedCast);
            },
        };
        let ledger_hash = match row.remove(0) {
            CellValue::Text(s) => s,
            _ => {
                return Err(DataApiError::RowTypedCast);
            },
        };
        let account_hash = match row.remove(0) {
            CellValue::Text(s) => s,
            _ => {
                return Err(DataApiError::RowTypedCast);
            },
        };
        let parent_hash = match row.remove(0) {
            CellValue::Text(s) => s,
            _ => {
                return Err(DataApiError::RowTypedCast);
            },
        };
        let transaction_hash = match row.remove(0) {
            CellValue::Text(s) => s,
            _ => {
                return Err(DataApiError::RowTypedCast);
            },
        };
        let close_flags = match row.remove(0) {
            CellValue::Int(v) => v,
            _ => {
                return Err(DataApiError::RowTypedCast);
            },
        };
        let close_time = match row.remove(0) {
            CellValue::Timestamp(v) => v,
            _ => {
                return Err(DataApiError::RowTypedCast);
            },
        };
        let parent_close_time = match row.remove(0) {
            CellValue::Timestamp(v) => v,
            _ => {
                return Err(DataApiError::RowTypedCast);
            },
        };
        let total_coins = match row.remove(0) {
            CellValue::BigInt(v) => v,
            _ => {
                return Err(DataApiError::RowTypedCast);
            },
        };
        let tx_count = match row.remove(0) {
            CellValue::Varint(w) => w,
            _ => {
                return Err(DataApiError::RowTypedCast);
            },
        };
        let ledger_processed = match row.remove(0) {
            CellValue::Boolean(v) => v,
            _ => {
                return Err(DataApiError::RowTypedCast);
            },
        };
        Ok(LedgerScylla {
            ledger_index,
            ledger_hash,
            account_hash,
            parent_hash,
            transaction_hash,
            close_flags,
            close_time,
            parent_close_time,
            total_coins,
            tx_count,
            ledger_processed,
        })
    }
}

} // verus!
