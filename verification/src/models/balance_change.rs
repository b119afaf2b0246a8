//! The balance-change record.
use vstd::prelude::*;

use crate::errors::DataApiError;
use crate::values::{opt_text_of, row_matches, CellValue, ColType};
use crate::wide_int::WideInt;

verus! {

/// One effect of a transaction on one account's balance. `node_index` orders
/// the effects within a transaction; the signed change and resulting balance
/// are decimal text.
#[derive(Clone, Debug, PartialEq, Eq)]
pub struct BalanceChange {
    /// Index of the ledger that applied the transaction.
    pub ledger_index: i64,
    /// Position of the transaction within its ledger; arbitrary precision.
    pub tx_index: WideInt,
    /// Position of this effect within the transaction; arbitrary precision.
    pub node_index: WideInt,
    /// The affected account.
    pub account: String,
    /// Signed change amount, decimal text.
    pub change: String,
    /// Kind of change.
    pub change_type: String,
    /// Optional counterparty account.
    pub counterparty: Option<String>,
    /// Currency of the change.
    pub currency: String,
    /// Balance after the change, decimal text.
    pub final_balance: String,
    /// Instant of the change, milliseconds since the Unix epoch, UTC.
    pub timestamp: i64,
    /// Hash of the originating transaction.
    pub tx_hash: String,
}

/// Column types of a balance-change row, in canonical projection order.
pub open spec fn balance_change_schema() -> Seq<ColType> {
    seq![
        ColType::BigInt,
        ColType::Varint,
        ColType::Varint,
        ColType::Text,
        ColType::Text,
        ColType::Text,
        ColType::OptText,
        ColType::Text,
        ColType::Text,
        ColType::Timestamp,
        ColType::Text,
    ]
}

/// The record a well-shaped balance-change row decodes to.
pub open spec fn balance_change_of_row(row: Seq<CellValue>) -> BalanceChange {
    BalanceChange {
        ledger_index: row[0]->BigInt_0,
        tx_index: row[1]->Varint_0,
        node_index: row[2]->Varint_0,
        account: row[3]->Text_0,
        change: row[4]->Text_0,
        change_type: row[5]->Text_0,
        counterparty: opt_text_of(row[6]),
        currency: row[7]->Text_0,
        final_balance: row[8]->Text_0,
        timestamp: row[9]->Timestamp_0,
        tx_hash: row[10]->Text_0,
    }
}

impl BalanceChange {
    /// Positional decode of a storage row: succeeds exactly on rows shaped by
    /// [`balance_change_schema`], and then yields the cells' values unchanged.
    pub fn from_row(row: Vec<CellValue>) -> (r: Result<BalanceChange, DataApiError>)
        ensures
            r is Ok <==> row_matches(row@, balance_change_schema()),
            r matches Ok(rec) ==> rec == balance_change_of_row(row@),
            r matches Err(e) ==> e == DataApiError::RowTypedCast,
    {
        let mut row = row;
        if row.len() != 11 {
            return Err(DataApiError::RowTypedCast);
        }
        let ledger_index = match row.remove(0) {
            CellValue::BigInt(v) => v,
            _ => {
                return Err(DataApiError::RowTypedCast);
            },
        };
        let tx_index = match row.remove(0) {
            CellValue::Varint(w) => w,
            _ => {
                return Err(DataApiError::RowTypedCast);
            },
        };
        let node_index = match row.remove(0) {
            CellValue::Varint(w) => w,
            _ => {
                return Err(DataApiError::RowTypedCast);
            },
        };
        let account = match row.remove(0) {
            CellValue::Text(s) => s,
            _ => {
                return Err(DataApiError::RowTypedCast);
            },
        };
        let change = match row.remove(0) {
            CellValue::Text(s) => s,
            _ => {
                return Err(DataApiError::RowTypedCast);
            },
        };
        let change_type = match row.remove(0) {
            CellValue::Text(s) => s,
            _ => {
                return Err(DataApiError::RowTypedCast);
            },
        };
        let counterparty = match row.remove(0) {
            CellValue::Text(s) => Some(s),
            CellValue::Null => None,
            _ => {
                return Err(DataApiError::RowTypedCast);
            },
        };
        let currency = match row.remove(0) {
            CellValue::Text(s) => s,
            _ => {
                return Err(DataApiError::RowTypedCast);
            },
        };
        let final_balance = match row.remove(0) {
            CellValue::Text(s) => s,
            _ => {
                return Err(DataApiError::RowTypedCast);
            },
        };
        let timestamp = match row.remove(0) {
            CellValue::Timestamp(v) => v,
            _ => {
                return Err(DataApiError::RowTypedCast);
            },
        };
        let tx_hash = match row.remove(0) {
            CellValue::Text(s) => s,
            _ => {
                return Err(DataApiError::RowTypedCast);
            },
        };
        Ok(BalanceChange {
            ledger_index,
            tx_index,
            node_index,
            account,
            change,
            change_type,
            counterparty,
            currency,
            final_balance,
            timestamp,
            tx_hash,
        })
    }
}

} // verus!
