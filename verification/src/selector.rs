//! The Table Selector: maps an entity and a queried field to the physical
//! table (or materialized view) indexed on that field, together with the
//! canonical column projection for the entity.
//!
//! The projection order is load-bearing: storage rows are positional, so the
//! order returned here must be exactly the order the row decoder maps by.
//! [`lemma_projection_matches_schema`] pins the two to the same width.
use vstd::prelude::*;

use crate::errors::DataApiError;
use crate::models::account::account_schema;
use crate::models::balance_change::balance_change_schema;
use crate::models::daily_ledger::daily_ledger_schema;
use crate::models::ledger::ledger_schema;
use crate::models::payment::payment_schema;
use crate::models::transaction::transaction_schema;
use crate::values::ColType;

verus! {

/// The entities this service can look up.
#[derive(Clone, Copy, Debug, PartialEq, Eq, Structural)]
pub enum Entity {
    Ledger,
    DailyLedger,
    Transaction,
    Account,
    Payment,
    BalanceChange,
}

/// Column types of an entity's rows, in canonical projection order: exactly
/// the positional mapping its decoder expects.
pub open spec fn schema_of(e: Entity) -> Seq<ColType> {
    match e {
        Entity::Ledger => ledger_schema(),
        Entity::DailyLedger => daily_ledger_schema(),
        Entity::Transaction => transaction_schema(),
        Entity::Account => account_schema(),
        Entity::Payment => payment_schema(),
        Entity::BalanceChange => balance_change_schema(),
    }
}

/// Column names of an entity's canonical projection, in the same order as
/// [`schema_of`].
pub open spec fn column_names(e: Entity) -> Seq<Seq<char>> {
    match e {
        Entity::Ledger => seq![
            "ledger_index"@,
            "ledger_hash"@,
            "account_hash"@,
            "parent_hash"@,
            "transaction_hash"@,
            "close_flags"@,
            "close_time"@,
            "parent_close_time"@,
            "total_coins"@,
            "tx_count"@,
            "ledger_processed"@,
        ],
        Entity::DailyLedger => seq![
            "ledger_close_day"@,
            "ledger_index"@,
            "close_time"@,
            "toUnixTimestamp(close_time)"@,
        ],
        Entity::Transaction => seq![
            "account"@,
            "hash"@,
            "ctid"@,
            "ledger_index"@,
            "tx_index"@,
            "tx_type"@,
            "timestamp"@,
            "flags"@,
            "fee"@,
            "sequence"@,
            "result"@,
            "meta"@,
            "tx"@,
        ],
        Entity::Account => seq![
            "ledger_index"@,
            "tx_index"@,
            "account"@,
            "client"@,
            "initial_balance"@,
            "parent"@,
            "timestamp"@,
            "tx_hash"@,
        ],
        Entity::Payment => seq![
            "tx_hash"@,
            "ledger_index"@,
            "tx_index"@,
            "source"@,
            "source_currency"@,
            "source_currency_issuer"@,
            "destination"@,
            "destination_currency"@,
            "destination_currency_issuer"@,
            "amount"@,
            "delivered_amount"@,
            "transaction_cost"@,
            "destination_tag"@,
            "source_tag"@,
            "timestamp"@,
        ],
        Entity::BalanceChange => seq![
            "ledger_index"@,
            "tx_index"@,
            "node_index"@,
            "account"@,
            "change"@,
            "change_type"@,
            "counterparty"@,
            "currency"@,
            "final_balance"@,
            "timestamp"@,
            "tx_hash"@,
        ],
    }
}

/// The physical table or materialized view indexed on `field` for `e`, or
/// `None` when the pair is not registered. Querying transactions by account
/// goes through a materialized view that carries the identical projection
/// under a different partition key.
pub open spec fn spec_table_for(e: Entity, field: Seq<char>) -> Option<Seq<char>> {
    match e {
        Entity::Ledger => if field == "ledger_index"@ || field == "ledger_hash"@ {
            Some("ledgers"@)
        } else {
            None
        },
        Entity::DailyLedger => if field == "ledger_close_day"@ {
            Some("daily_ledgers"@)
        } else {
            None
        },
        Entity::Transaction => if field == "account"@ {
            Some("mv_account_transactions"@)
        } else if field == "hash"@ || field == "ledger_index"@ {
            Some("transactions"@)
        } else {
            None
        },
        Entity::Account => if field == "account"@ {
            Some("accounts"@)
        } else {
            None
        },
        Entity::Payment => if field == "source"@ {
            Some("payments"@)
        } else {
            None
        },
        Entity::BalanceChange => if field == "account"@ {
            Some("balance_changes"@)
        } else {
            None
        },
    }
}

/// The canonical projection of each entity is exactly as wide as the schema
/// its decoder maps rows by, name `i` naming the column decoded at position
/// `i`.
pub proof fn lemma_projection_matches_schema(e: Entity)
    ensures
        column_names(e).len() == schema_of(e).len(),
{
}

/// A selected physical source: the table to query and the exact column
/// projection, in decode order.
#[derive(Debug)]
pub struct TableSelection {
    /// Name of the backing table or materialized view.
    pub table: String,
    /// The canonical column projection, in decode order.
    pub columns: Vec<String>,
}

/// Character-by-character string equality.
fn str_eq(a: &str, b: &str) -> (r: bool)
    ensures
        r == (a@ == b@),
{
    let n = a.unicode_len();
    if n != b.unicode_len() {
        return false;
    }
    let mut i: usize = 0;
    while i < n
        invariant
            0 <= i <= n,
            n == a@.len() == b@.len(),
            forall|j: int| 0 <= j < i ==> a@[j] == b@[j],
        decreases n - i,
    {
        if a.get_char(i) != b.get_char(i) {
            return false;
        }
        i += 1;
    }
    proof {
        assert(a@ =~= b@);
    }
    true
}

/// The view of each column name in a projection, in order.
pub open spec fn names_view(columns: Seq<String>) -> Seq<Seq<char>> {
    columns.map_values(|c: String| c@)
}

/// The canonical column projection of an entity, in decode order.
fn columns_of(entity: Entity) -> (columns: Vec<String>)
    ensures
        names_view(columns@) == column_names(entity),
{
    let mut columns: Vec<String> = Vec::new();
    match entity {
        Entity::Ledger => {
            columns.push(String::from_str("ledger_index"));
            columns.push(String::from_str("ledger_hash"));
            columns.push(String::from_str("account_hash"));
            columns.push(String::from_str("parent_hash"));
            columns.push(String::from_str("transaction_hash"));
            columns.push(String::from_str("close_flags"));
            columns.push(String::from_str("close_time"));
            columns.push(String::from_str("parent_close_time"));
            columns.push(String::from_str("total_coins"));
            columns.push(String::from_str("tx_count"));
            columns.push(String::from_str("ledger_processed"));
        },
        Entity::DailyLedger => {
            columns.push(String::from_str("ledger_close_day"));
            columns.push(String::from_str("ledger_index"));
            columns.push(String::from_str("close_time"));
            columns.push(String::from_str("toUnixTimestamp(close_time)"));
        },
        Entity::Transaction => {
            columns.push(String::from_str("account"));
            columns.push(String::from_str("hash"));
            columns.push(String::from_str("ctid"));
            columns.push(String::from_str("ledger_index"));
            columns.push(String::from_str("tx_index"));
            columns.push(String::from_str("tx_type"));
            columns.push(String::from_str("timestamp"));
            columns.push(String::from_str("flags"));
            columns.push(String::from_str("fee"));
            columns.push(String::from_str("sequence"));
            columns.push(String::from_str("result"));
            columns.push(String::from_str("meta"));
            columns.push(String::from_str("tx"));
        },
        Entity::Account => {
            columns.push(String::from_str("ledger_index"));
            columns.push(String::from_str("tx_index"));
            columns.push(String::from_str("account"));
            columns.push(String::from_str("client"));
            columns.push(String::from_str("initial_balance"));
            columns.push(String::from_str("parent"));
            columns.push(String::from_str("timestamp"));
            columns.push(String::from_str("tx_hash"));
        },
        Entity::Payment => {
            columns.push(String::from_str("tx_hash"));
            columns.push(String::from_str("ledger_index"));
            columns.push(String::from_str("tx_index"));
            columns.push(String::from_str("source"));
            columns.push(String::from_str("source_currency"));
            columns.push(String::from_str("source_currency_issuer"));
            columns.push(String::from_str("destination"));
            columns.push(String::from_str("destination_currency"));
            columns.push(String::from_str("destination_currency_issuer"));
            columns.push(String::from_str("amount"));
            columns.push(String::from_str("delivered_amount"));
            columns.push(String::from_str("transaction_cost"));
            columns.push(String::from_str("destination_tag"));
            columns.push(String::from_str("source_tag"));
            columns.push(String::from_str("timestamp"));
        },
        Entity::BalanceChange => {
            columns.push(String::from_str("ledger_index"));
            columns.push(String::from_str("tx_index"));
            columns.push(String::from_str("node_index"));
            columns.push(String::from_str("account"));
            columns.push(String::from_str("change"));
            columns.push(String::from_str("change_type"));
            columns.push(String::from_str("counterparty"));
            columns.push(String::from_str("currency"));
            columns.push(String::from_str("final_balance"));
            columns.push(String::from_str("timestamp"));
            columns.push(String::from_str("tx_hash"));
        },
    }
    proof {
        assert(names_view(columns@) =~= column_names(entity));
    }
    columns
}

/// Selects the physical source for an equality lookup of `entity` by `field`:
/// the backing table indexed on that field and the canonical column
/// projection, in decode order. Fails with `UnsupportedFilter`, and returns
/// no table name at all, exactly when the pair is not registered.
pub fn select(entity: Entity, field: &str) -> (r: Result<TableSelection, DataApiError>)
    ensures
        r is Ok <==> spec_table_for(entity, field@) is Some,
        r matches Ok(sel) ==> spec_table_for(entity, field@) == Some(sel.table@)
            && names_view(sel.columns@) == column_names(entity),
        r matches Err(e) ==> e == DataApiError::UnsupportedFilter,
{
    let table: &str = match entity {
        Entity::Ledger => {
            if str_eq(field, "ledger_index") || str_eq(field, "ledger_hash") {
                "ledgers"
            } else {
                return Err(DataApiError::UnsupportedFilter);
            }
        },
        Entity::DailyLedger => {
            if str_eq(field, "ledger_close_day") {
                "daily_ledgers"
            } else {
                return Err(DataApiError::UnsupportedFilter);
            }
        },
        Entity::Transaction => {
            if str_eq(field, "account") {
                "mv_account_transactions"
            } else if str_eq(field, "hash") || str_eq(field, "ledger_index") {
                "transactions"
            } else {
                return Err(DataApiError::UnsupportedFilter);
            }
        },
        Entity::Account => {
            if str_eq(field, "account") {
                "accounts"
            } else {
                return Err(DataApiError::UnsupportedFilter);
            }
        },
        Entity::Payment => {
            if str_eq(field, "source") {
                "payments"
            } else {
                return Err(DataApiError::UnsupportedFilter);
            }
        },
        Entity::BalanceChange => {
            if str_eq(field, "account") {
                "balance_changes"
            } else {
                return Err(DataApiError::UnsupportedFilter);
            }
        },
    };
    Ok(TableSelection { table: String::from_str(table), columns: columns_of(entity) })
}

/// The column list of a projection, joined with comma separators.
pub open spec fn joined_columns(cols: Seq<Seq<char>>) -> Seq<char>
    decreases cols.len(),
{
    if cols.len() == 0 {
        Seq::empty()
    } else if cols.len() == 1 {
        cols[0]
    } else {
        joined_columns(cols.drop_last()) + ", "@ + cols.last()
    }
}

/// The text of an equality-filtered selection: the projection over the table,
/// with the filter value always left as a bound parameter, never interpolated
/// into the text.
pub open spec fn select_statement_text(
    table: Seq<char>,
    cols: Seq<Seq<char>>,
    field: Seq<char>,
) -> Seq<char> {
    "SELECT "@ + joined_columns(cols) + " FROM "@ + table + " WHERE "@ + field + "=?;"@
}

/// Builds the text of an equality-filtered selection over a projection. The
/// filter value's place is the bound-parameter marker; callers pass the value
/// separately to the storage layer.
pub fn build_select_query(table: &str, columns: &Vec<String>, field: &str) -> (q: String)
    ensures
        q@ == select_statement_text(table@, names_view(columns@), field@),
{
    let ghost cols = names_view(columns@);
    let mut q = String::from_str("SELECT ");
    let mut i: usize = 0;
    while i < columns.len()
        invariant
            0 <= i <= columns.len(),
            cols == names_view(columns@),
            cols.len() == columns.len(),
            q@ == "SELECT "@ + joined_columns(cols.take(i as int)),
        decreases columns.len() - i,
    {
        if i > 0 {
            q.append(", ");
        }
        q.append(columns[i].as_str());
        proof {
            assert(cols.take(i + 1).drop_last() =~= cols.take(i as int));
            assert(cols.take(i + 1).last() == cols[i as int]);
        }
        i += 1;
    }
    proof {
        assert(cols.take(cols.len() as int) =~= cols);
    }
    q.append(" FROM ");
    q.append(table);
    q.append(" WHERE ");
    q.append(field);
    q.append("=?;");
    q
}

} // verus!
