use xrpl_data_api::errors::DataApiError;
use xrpl_data_api::selector::{build_select_query, select, Entity};

#[test]
fn ledger_lookups_use_the_ledgers_table() {
    let by_index = select(Entity::Ledger, "ledger_index").expect("registered pair");
    assert_eq!(by_index.table, "ledgers");
    let by_hash = select(Entity::Ledger, "ledger_hash").expect("registered pair");
    assert_eq!(by_hash.table, "ledgers");
    assert_eq!(
        by_index.columns,
        vec![
            "ledger_index",
            "ledger_hash",
            "account_hash",
            "parent_hash",
            "transaction_hash",
            "close_flags",
            "close_time",
            "parent_close_time",
            "total_coins",
            "tx_count",
            "ledger_processed",
        ]
    );
}

#[test]
fn transactions_by_account_use_the_materialized_view() {
    let by_account = select(Entity::Transaction, "account").expect("registered pair");
    assert_eq!(by_account.table, "mv_account_transactions");
    let by_hash = select(Entity::Transaction, "hash").expect("registered pair");
    assert_eq!(by_hash.table, "transactions");
    let by_ledger = select(Entity::Transaction, "ledger_index").expect("registered pair");
    assert_eq!(by_ledger.table, "transactions");
    // The view carries the identical projection as the base table.
    assert_eq!(by_account.columns, by_hash.columns);
}

#[test]
fn remaining_entities_map_to_their_tables() {
    assert_eq!(select(Entity::DailyLedger, "ledger_close_day").unwrap().table, "daily_ledgers");
    assert_eq!(select(Entity::Account, "account").unwrap().table, "accounts");
    assert_eq!(select(Entity::Payment, "source").unwrap().table, "payments");
    assert_eq!(select(Entity::BalanceChange, "account").unwrap().table, "balance_changes");
}

#[test]
fn unregistered_pairs_are_unsupported_filters() {
    assert!(matches!(
        select(Entity::Ledger, "close_time"),
        Err(DataApiError::UnsupportedFilter)
    ));
}

#[test]
fn unregistered_pairs_never_leak_a_table_name() {
    let cases = [
        (Entity::Ledger, "account"),
        (Entity::DailyLedger, "close_time"),
        (Entity::Transaction, "fee"),
        (Entity::Account, "parent"),
        (Entity::Payment, "destination"),
        (Entity::Payment, "account"),
        (Entity::BalanceChange, "currency"),
        (Entity::Ledger, ""),
    ];
    for (entity, field) in cases {
        match select(entity, field) {
            Err(e) => assert_eq!(e, DataApiError::UnsupportedFilter),
            Ok(sel) => panic!("expected an unsupported filter, got table {}", sel.table),
        }
    }
}

#[test]
fn query_text_binds_the_value_instead_of_interpolating_it() {
    let sel = select(Entity::Account, "account").expect("registered pair");
    let text = build_select_query(sel.table.as_str(), &sel.columns, "account");
    assert_eq!(
        text,
        "SELECT ledger_index, tx_index, account, client, initial_balance, parent, \
         timestamp, tx_hash FROM accounts WHERE account=?;"
    );
}

#[test]
fn query_text_for_the_daily_index() {
    let sel = select(Entity::DailyLedger, "ledger_close_day").expect("registered pair");
    let text = build_select_query(sel.table.as_str(), &sel.columns, "ledger_close_day");
    assert_eq!(
        text,
        "SELECT ledger_close_day, ledger_index, close_time, toUnixTimestamp(close_time) \
         FROM daily_ledgers WHERE ledger_close_day=?;"
    );
}
