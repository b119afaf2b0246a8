//! The transaction record.
use vstd::prelude::*;

use crate::errors::DataApiError;
use crate::values::{row_matches, CellValue, ColType};
use crate::wide_int::WideInt;

verus! {

/// A transaction applied by a ledger. The metadata and transaction blobs are
/// opaque to the core: they are carried through untouched and only rendered
/// lossily at the serialization boundary.
#[derive(Clone, Debug, PartialEq, Eq)]
pub struct Transaction {
    /// The owning account.
    pub account: String,
    /// Transaction hash; the unique identity.
    pub hash: String,
    /// Compact transaction identifier.
    pub ctid: String,
    /// Index of the ledger that applied the transaction.
    pub ledger_index: i64,
    /// Position within that ledger; arbitrary precision.
    pub tx_index: WideInt,
    /// Transaction type tag.
    pub tx_type: String,
    /// Instant of the transaction, milliseconds since the Unix epoch, UTC.
    pub timestamp: i64,
    /// Flag bit set.
    pub flags: i64,
    /// Fee paid; arbitrary precision.
    pub fee: WideInt,
    /// Sequence number of the owning account.
    pub sequence: i64,
    /// Result code.
    pub result: i16,
    /// Opaque metadata blob.
    pub meta: Vec<u8>,
    /// Opaque transaction blob.
    pub tx: Vec<u8>,
}

/// Column types of a transaction row, in canonical projection order.
pub open spec fn transaction_schema() -> Seq<ColType> {
    seq![
        ColType::Text,
        ColType::Text,
        ColType::Text,
        ColType::BigInt,
        ColType::Varint,
        ColType::Text,
        ColType::Timestamp,
        ColType::BigInt,
        ColType::Varint,
        ColType::BigInt,
        ColType::SmallInt,
        ColType::Blob,
        ColType::Blob,
    ]
}

/// The record a well-shaped transaction row decodes to.
pub open spec fn transaction_of_row(row: Seq<CellValue>) -> Transaction {
    Transaction {
        account: row[0]->Text_0,
        hash: row[1]->Text_0,
        ctid: row[2]->Text_0,
        ledger_index: row[3]->BigInt_0,
        tx_index: row[4]->Varint_0,
        tx_type: row[5]->Text_0,
        timestamp: row[6]->Timestamp_0,
        flags: row[7]->BigInt_0,
        fee: row[8]->Varint_0,
        sequence: row[9]->BigInt_0,
        result: row[10]->SmallInt_0,
        meta: row[11]->Blob_0,
        tx: row[12]->Blob_0,
    }
}

impl Transaction {
    /// Positional decode of a storage row: succeeds exactly on rows shaped by
    /// [`transaction_schema`], and then yields the cells' values unchanged.
    pub fn from_row(row: Vec<CellValue>) -> (r: Result<Transaction, DataApiError>)
        ensures
            r is Ok <==> row_matches(row@, transaction_schema()),
            r matches Ok(rec) ==> rec == transaction_of_row(row@),
            r matches Err(e) ==> e == DataApiError::RowTypedCast,
    {
        let mut row = row;
        if row.len() != 13 {
            return Err(DataApiError::RowTypedCast);
        }
        let account = match row.remove(0) {
            CellValue::Text(s) => s,
            _ => {
                return Err(DataApiError::RowTypedCast);
            },
        };
        let hash = match row.remove(0) {
            CellValue::Text(s) => s,
            _ => {
                return Err(DataApiError::RowTypedCast);
            },
        };
        let ctid = match row.remove(0) {
            CellValue::Text(s) => s,
            _ => {
                return Err(DataApiError::RowTypedCast);
            },
        };
        let ledger_index = match row.remove(0) {
            CellValue::BigInt(v) => v,
            _ => {
                return Err(DataApiError::RowTypedCast);
            },
        };
        let tx_index = match row.remove(0) {
            CellValue::Varint(w) => w,
            _ => {
                return Err(DataApiError::RowTypedCast);
            },
        };
        let tx_type = match row.remove(0) {
            CellValue::Text(s) => s,
            _ => {
                return Err(DataApiError::RowTypedCast);
            },
        };
        let timestamp = match row.remove(0) {
            CellValue::Timestamp(v) => v,
            _ => {
                return Err(DataApiError::RowTypedCast);
            },
        };
        let flags = match row.remove(0) {
            CellValue::BigInt(v) => v,
            _ => {
                return Err(DataApiError::RowTypedCast);
            },
        };
        let fee = match row.remove(0) {
            CellValue::Varint(w) => w,
            _ => {
                return Err(DataApiError::RowTypedCast);
            },
        };
        let sequence = match row.remove(0) {
            CellValue::BigInt(v) => v,
            _ => {
                return Err(DataApiError::RowTypedCast);
            },
        };
        let result = match row.remove(0) {
            CellValue::SmallInt(v) => v,
            _ => {
                return Err(DataApiError::RowTypedCast);
            },
        };
        let meta = match row.remove(0) {
            CellValue::Blob(b) => b,
            _ => {
                return Err(DataApiError::RowTypedCast);
            },
        };
        let tx = match row.remove(0) {
            CellValue::Blob(b) => b,
            _ => {
                return Err(DataApiError::RowTypedCast);
            },
        };
        Ok(Transaction {
            account,
            hash,
            ctid,
            ledger_index,
            tx_index,
            tx_type,
            timestamp,
            flags,
            fee,
            sequence,
            result,
            meta,
            tx,
        })
    }
}

} // verus!
