use xrpl_data_api::errors::DataApiError;
use xrpl_data_api::executor::{decode_single, fetch_all, fetch_page, PagedFetch, Record};
use xrpl_data_api::selector::Entity;
use xrpl_data_api::values::CellValue;
use xrpl_data_api::wide_int::WideInt;

fn wide(s: &str) -> WideInt {
    WideInt::from_decimal(s).expect("canonical decimal")
}

/// A well-shaped transaction row for the account `acct`, hashed `hash`.
fn tx_row(acct: &str, hash: &str) -> Vec<CellValue> {
    vec![
        CellValue::Text(String::from(acct)),
        CellValue::Text(String::from(hash)),
        CellValue::Text(String::from("C0")),
        CellValue::BigInt(1),
        CellValue::Varint(wide("0")),
        CellValue::Text(String::from("Payment")),
        CellValue::Timestamp(1_700_000_000_000),
        CellValue::BigInt(0),
        CellValue::Varint(wide("12")),
        CellValue::BigInt(1),
        CellValue::SmallInt(0),
        CellValue::Blob(Vec::new()),
        CellValue::Blob(Vec::new()),
    ]
}

fn hashes_of(records: &[Record]) -> Vec<String> {
    records
        .iter()
        .map(|r| match r {
            Record::Transaction(tx) => tx.hash.clone(),
            other => panic!("expected a transaction record, got {:?}", other),
        })
        .collect()
}

#[test]
fn partial_failure_keeps_exactly_the_decodable_rows() {
    let malformed = vec![CellValue::BigInt(3)];
    let page = vec![tx_row("rABC", "T1"), malformed, tx_row("rABC", "T2")];
    let records = fetch_page(Entity::Transaction, page).expect("two rows decode");
    assert_eq!(records.len(), 2);
    assert_eq!(hashes_of(&records), vec!["T1", "T2"]);
}

#[test]
fn no_rows_and_all_undecodable_rows_stay_distinguishable() {
    let empty: Vec<Vec<CellValue>> = Vec::new();
    assert!(matches!(
        fetch_page(Entity::Transaction, empty),
        Err(DataApiError::NoDataReturned)
    ));
    let undecodable = vec![vec![CellValue::Null], vec![CellValue::BigInt(1)]];
    assert!(matches!(
        fetch_page(Entity::Transaction, undecodable),
        Err(DataApiError::AllRowsUndecodable)
    ));
}

#[test]
fn paging_by_two_over_five_rows_returns_all_five_once() {
    let rows: Vec<Vec<CellValue>> = (1..=5).map(|i| tx_row("rABC", &format!("T{}", i))).collect();
    // Page size 2 over 5 matching rows: pages of 2, 2 and 1.
    let pages = vec![rows[0..2].to_vec(), rows[2..4].to_vec(), rows[4..5].to_vec()];
    let mut fetch = PagedFetch::new(Entity::Transaction);
    for page in pages {
        fetch.push_page(page);
    }
    let records = fetch.finish().expect("five rows decode");
    assert_eq!(records.len(), 5);
    assert_eq!(hashes_of(&records), vec!["T1", "T2", "T3", "T4", "T5"]);
}

#[test]
fn fetch_all_matches_the_unpaged_decode() {
    let rows: Vec<Vec<CellValue>> = (1..=5).map(|i| tx_row("rABC", &format!("T{}", i))).collect();
    let paged = fetch_all(
        Entity::Transaction,
        vec![rows[0..2].to_vec(), rows[2..4].to_vec(), rows[4..5].to_vec()],
    )
    .expect("five rows decode");
    let unpaged = fetch_all(Entity::Transaction, vec![rows]).expect("five rows decode");
    assert_eq!(paged, unpaged);
}

#[test]
fn repeated_identical_fetches_return_identical_sequences() {
    let rows = vec![tx_row("rABC", "T1"), vec![CellValue::Null], tx_row("rABC", "T2")];
    let first = fetch_all(Entity::Transaction, vec![rows.clone()]).expect("rows decode");
    let second = fetch_all(Entity::Transaction, vec![rows]).expect("rows decode");
    assert_eq!(first, second);
}

#[test]
fn single_row_lookup_outcomes() {
    let none: Vec<Vec<CellValue>> = Vec::new();
    assert!(matches!(
        decode_single(Entity::Transaction, none),
        Err(DataApiError::NoDataReturned)
    ));
    let two = vec![tx_row("rABC", "T1"), tx_row("rABC", "T2")];
    assert!(matches!(
        decode_single(Entity::Transaction, two),
        Err(DataApiError::RowTypedCast)
    ));
    let malformed = vec![vec![CellValue::Null]];
    assert!(matches!(
        decode_single(Entity::Transaction, malformed),
        Err(DataApiError::RowTypedCast)
    ));
    let one = vec![tx_row("rABC", "T9")];
    match decode_single(Entity::Transaction, one) {
        Ok(Record::Transaction(tx)) => assert_eq!(tx.hash, "T9"),
        other => panic!("expected a transaction record, got {:?}", other),
    }
}
