//! The account record.
use vstd::prelude::*;

use crate::errors::DataApiError;
use crate::values::{opt_text_of, row_matches, CellValue, ColType};
use crate::wide_int::WideInt;

verus! {

/// An account as first recorded on the ledger, keyed by its identifier.
#[derive(Clone, Debug, PartialEq, Eq)]
pub struct Account {
    /// Index of the ledger holding the transaction that created the account.
    pub ledger_index: i64,
    /// Position of that transaction within its ledger; arbitrary precision.
    pub tx_index: WideInt,
    /// The account identifier; the primary lookup key.
    pub account: String,
    /// Optional client tag; absent is not coerced to an empty string.
    pub client: Option<String>,
    /// Initial balance, decimal text.
    pub initial_balance: String,
    /// The parent account that funded this one.
    pub parent: String,
    /// Creation instant, milliseconds since the Unix epoch, UTC.
    pub timestamp: i64,
    /// Hash of the originating transaction.
    pub tx_hash: String,
}

/// Column types of an account row, in canonical projection order.
pub open spec fn account_schema() -> Seq<ColType> {
    seq![
        ColType::BigInt,
        ColType::Varint,
        ColType::Text,
        ColType::OptText,
        ColType::Text,
        ColType::Text,
        ColType::Timestamp,
        ColType::Text,
    ]
}

/// The record a well-shaped account row decodes to.
pub open spec fn account_of_row(row: Seq<CellValue>) -> Account {
    Account {
        ledger_index: row[0]->BigInt_0,
        tx_index: row[1]->Varint_0,
        account: row[2]->Text_0,
        client: opt_text_of(row[3]),
        initial_balance: row[4]->Text_0,
        parent: row[5]->Text_0,
        timestamp: row[6]->Timestamp_0,
        tx_hash: row[7]->Text_0,
    }
}

impl Account {
    /// Positional decode of a storage row: succeeds exactly on rows shaped by
    /// [`account_schema`], and then yields the cells' values unchanged.
    pub fn from_row(row: Vec<CellValue>) -> (r: Result<Account, DataApiError>)
        ensures
            r is Ok <==> row_matches(row@, account_schema()),
            r matches Ok(rec) ==> rec == account_of_row(row@),
            r matches Err(e) ==> e == DataApiError::RowTypedCast,
    {
        let mut row = row;
        if row.len() != 8 {
            return Err(DataApiError::RowTypedCast);
        }
        let ledger_index = match row.remove(0) {
            CellValue::BigInt(v) => v,
            _ => {
                return Err(DataApiError::RowTypedCast);
            },
        };
        let tx_index = match row.remove(0) {
            CellValue::Varint(w) => w,
            _ => {
                return Err(DataApiError::RowTypedCast);
            },
        };
        let account = match row.remove(0) {
            CellValue::Text(s) => s,
            _ => {
                return Err(DataApiError::RowTypedCast);
            },
        };
        let client = match row.remove(0) {
            CellValue::Text(s) => Some(s),
            CellValue::Null => None,
            _ => {
                return Err(DataApiError::RowTypedCast);
            },
        };
        let initial_balance = match row.remove(0) {
            CellValue::Text(s) => s,
            _ => {
                return Err(DataApiError::RowTypedCast);
            },
        };
        let parent = match row.remove(0) {
            CellValue::Text(s) => s,
            _ => {
                return Err(DataApiError::RowTypedCast);
            },
        };
        let timestamp = match row.remove(0) {
            CellValue::Timestamp(v) => v,
            _ => {
                return Err(DataApiError::RowTypedCast);
            },
        };
        let tx_hash = match row.remove(0) {
            CellValue::Text(s) => s,
            _ => {
                return Err(DataApiError::RowTypedCast);
            },
        };
        Ok(Account {
            ledger_index,
            tx_index,
            account,
            client,
            initial_balance,
            parent,
            timestamp,
            tx_hash,
        })
    }
}

} // verus!
