//! The payment record.
use vstd::prelude::*;

use crate::errors::DataApiError;
use crate::values::{opt_big_int_of, row_matches, CellValue, ColType};
use crate::wide_int::WideInt;

verus! {

/// A payment between two accounts, keyed by its transaction hash.
/// Amounts are decimal text; the transaction cost is arbitrary precision.
#[derive(Clone, Debug, PartialEq, Eq)]
pub struct Payment {
    /// Hash of the transaction that carried the payment; the identity.
    pub tx_hash: String,
    /// Index of the ledger that applied it.
    pub ledger_index: i64,
    /// Position within that ledger; arbitrary precision.
    pub tx_index: WideInt,
    /// Paying account.
    pub source: String,
    /// Currency paid by the source.
    pub source_currency: String,
    /// Issuer of the source currency.
    pub source_currency_issuer: String,
    /// Receiving account.
    pub destination: String,
    /// Currency received by the destination.
    pub destination_currency: String,
    /// Issuer of the destination currency.
    pub destination_currency_issuer: String,
    /// Amount sent, decimal text.
    pub amount: String,
    /// Amount delivered, decimal text.
    pub delivered_amount: String,
    /// Transaction cost; arbitrary precision.
    pub transaction_cost: WideInt,
    /// Optional destination tag.
    pub destination_tag: Option<i64>,
    /// Optional source tag.
    pub source_tag: Option<i64>,
    /// Instant of the payment, milliseconds since the Unix epoch, UTC.
    pub timestamp: i64,
}

/// Column types of a payment row, in canonical projection order.
pub open spec fn payment_schema() -> Seq<ColType> {
    seq![
        ColType::Text,
        ColType::BigInt,
        ColType::Varint,
        ColType::Text,
        ColType::Text,
        ColType::Text,
        ColType::Text,
        ColType::Text,
        ColType::Text,
        ColType::Text,
        ColType::Text,
        ColType::Varint,
        ColType::OptBigInt,
        ColType::OptBigInt,
        ColType::Timestamp,
    ]
}

/// The record a well-shaped payment row decodes to.
pub open spec fn payment_of_row(row: Seq<CellValue>) -> Payment {
    Payment {
        tx_hash: row[0]->Text_0,
        ledger_index: row[1]->BigInt_0,
        tx_index: row[2]->Varint_0,
        source: row[3]->Text_0,
        source_currency: row[4]->Text_0,
        source_currency_issuer: row[5]->Text_0,
        destination: row[6]->Text_0,
        destination_currency: row[7]->Text_0,
        destination_currency_issuer: row[8]->Text_0,
        amount: row[9]->Text_0,
        delivered_amount: row[10]->Text_0,
        transaction_cost: row[11]->Varint_0,
        destination_tag: opt_big_int_of(row[12]),
        source_tag: opt_big_int_of(row[13]),
        timestamp: row[14]->Timestamp_0,
    }
}

impl Payment {
    /// Positional decode of a storage row: succeeds exactly on rows shaped by
    /// [`payment_schema`], and then yields the cells' values unchanged.
    pub fn from_row(row: Vec<CellValue>) -> (r: Result<Payment, DataApiError>)
        ensures
            r is Ok <==> row_matches(row@, payment_schema()),
            r matches Ok(rec) ==> rec == payment_of_row(row@),
            r matches Err(e) ==> e == DataApiError::RowTypedCast,
    {
        let mut row = row;
        if row.len() != 15 {
            return Err(DataApiError::RowTypedCast);
        }
        let tx_hash = match row.remove(0) {
            CellValue::Text(s) => s,
            _ => {
                return Err(DataApiError::RowTypedCast);
            },
        };
        let ledger_index = match row.remove(0) {
            CellValue::BigInt(v) => v,
            _ => {
                return Err(DataApiError::RowTypedCast);
            },
        };
        let tx_index = match row.remove(0) {
            CellValue::Varint(w) => w,
            _ => {
                return Err(DataApiError::RowTypedCast);
            },
        };
        let source = match row.remove(0) {
            CellValue::Text(s) => s,
            _ => {
                return Err(DataApiError::RowTypedCast);
            },
        };
        let source_currency = match row.remove(0) {
            CellValue::Text(s) => s,
            _ => {
                return Err(DataApiError::RowTypedCast);
            },
        };
        let source_currency_issuer = match row.remove(0) {
            CellValue::Text(s) => s,
            _ => {
                return Err(DataApiError::RowTypedCast);
            },
        };
        let destination = match row.remove(0) {
            CellValue::Text(s) => s,
            _ => {
                return Err(DataApiError::RowTypedCast);
            },
        };
        let destination_currency = match row.remove(0) {
            CellValue::Text(s) => s,
            _ => {
                return Err(DataApiError::RowTypedCast);
            },
        };
        let destination_currency_issuer = match row.remove(0) {
            CellValue::Text(s) => s,
            _ => {
                return Err(DataApiError::RowTypedCast);
            },
        };
        let amount = match row.remove(0) {
            CellValue::Text(s) => s,
            _ => {
                return Err(DataApiError::RowTypedCast);
            },
        };
        let delivered_amount = match row.remove(0) {
            CellValue::Text(s) => s,
            _ => {
                return Err(DataApiError::RowTypedCast);
            },
        };
        let transaction_cost = match row.remove(0) {
            CellValue::Varint(w) => w,
            _ => {
                return Err(DataApiError::RowTypedCast);
            },
        };
        let destination_tag = match row.remove(0) {
            CellValue::BigInt(v) => Some(v),
            CellValue::Null => None,
            _ => {
                return Err(DataApiError::RowTypedCast);
            },
        };
        let source_tag = match row.remove(0) {
            CellValue::BigInt(v) => Some(v),
            CellValue::Null => None,
            _ => {
                return Err(DataApiError::RowTypedCast);
            },
        };
        let timestamp = match row.remove(0) {
            CellValue::Timestamp(v) => v,
            _ => {
                return Err(DataApiError::RowTypedCast);
            },
        };
        Ok(Payment {
            tx_hash,
            ledger_index,
            tx_index,
            source,
            source_currency,
            source_currency_issuer,
            destination,
            destination_currency,
            destination_currency_issuer,
            amount,
            delivered_amount,
            transaction_cost,
            destination_tag,
            source_tag,
            timestamp,
        })
    }
}

} // verus!
