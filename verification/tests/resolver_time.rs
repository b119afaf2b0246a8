use xrpl_data_api::errors::DataApiError;
use xrpl_data_api::models::daily_ledger::DailyLedger;
use xrpl_data_api::resolver::{
    close_day_of, latest_closed_at_or_before, ResolutionStep, TemporalResolver, MILLIS_PER_DAY,
};
use xrpl_data_api::values::CellValue;
use xrpl_data_api::wide_int::WideInt;

fn entry(index: i64, close_time: i64) -> DailyLedger {
    DailyLedger {
        ledger_close_day: close_time.div_euclid(MILLIS_PER_DAY),
        ledger_index: index,
        close_time,
        close_time_unix: close_time,
    }
}

#[test]
fn close_day_truncates_to_the_utc_day() {
    assert_eq!(close_day_of(0), 0);
    assert_eq!(close_day_of(86_399_999), 0);
    assert_eq!(close_day_of(86_400_000), 1);
    assert_eq!(close_day_of(1_704_067_212_000), 19_723);
    // Instants before the epoch fall on the previous day, not day zero.
    assert_eq!(close_day_of(-1), -1);
    assert_eq!(close_day_of(-86_400_000), -1);
    assert_eq!(close_day_of(-86_400_001), -2);
}

#[test]
fn resolution_picks_the_latest_qualifying_entry() {
    // Entries of one day: indices 100, 101, 102 closed at T0, T0+5s, T0+12s.
    let t0: i64 = 1_704_067_200_000;
    let entries = vec![entry(100, t0), entry(101, t0 + 5_000), entry(102, t0 + 12_000)];
    // Resolving at T0+8s: 100 and 101 qualify, 101 has the greater index.
    let picked = latest_closed_at_or_before(&entries, t0 + 8_000).expect("one entry qualifies");
    assert_eq!(picked.ledger_index, 101);
    // Resolving at T0-1s: nothing on the day qualifies, and no fallback.
    assert!(matches!(
        latest_closed_at_or_before(&entries, t0 - 1_000),
        Err(DataApiError::NoDataReturned)
    ));
}

#[test]
fn resolution_is_order_independent_for_distinct_indices() {
    let t0: i64 = 1_704_067_200_000;
    let shuffled = vec![entry(102, t0 + 12_000), entry(100, t0), entry(101, t0 + 5_000)];
    let picked = latest_closed_at_or_before(&shuffled, t0 + 8_000).expect("one entry qualifies");
    assert_eq!(picked.ledger_index, 101);
}

#[test]
fn tied_indices_pick_the_later_entry_deterministically() {
    // Ties cannot occur in a real history (indices rise with close times),
    // but the pick must still be deterministic: the later entry wins.
    let t0: i64 = 1_704_067_200_000;
    let entries = vec![entry(100, t0), entry(100, t0 + 1_000)];
    let picked = latest_closed_at_or_before(&entries, t0 + 5_000).expect("both qualify");
    assert_eq!(picked.close_time, t0 + 1_000);
}

#[test]
fn resolution_at_the_exact_close_instant_includes_it() {
    let t0: i64 = 1_704_067_200_000;
    let entries = vec![entry(100, t0), entry(101, t0 + 5_000)];
    let picked = latest_closed_at_or_before(&entries, t0 + 5_000).expect("both qualify");
    assert_eq!(picked.ledger_index, 101);
}

fn ledger_row_with_index(index: i64) -> Vec<CellValue> {
    vec![
        CellValue::BigInt(index),
        CellValue::Text(String::from("LH")),
        CellValue::Text(String::from("AH")),
        CellValue::Text(String::from("PH")),
        CellValue::Text(String::from("TH")),
        CellValue::Int(0),
        CellValue::Timestamp(1_704_067_205_000),
        CellValue::Timestamp(1_704_067_200_000),
        CellValue::BigInt(1),
        CellValue::Varint(WideInt::from_decimal("5").unwrap()),
        CellValue::Boolean(true),
    ]
}

#[test]
fn full_resolution_walks_both_round_trips() {
    let t0: i64 = 1_704_067_200_000;
    let (resolver, first) = TemporalResolver::resolve_at_or_before(t0 + 8_000);
    match first {
        ResolutionStep::FetchDailyEntries { ledger_close_day } => {
            assert_eq!(ledger_close_day, 19_723)
        },
        other => panic!("expected a daily-entries fetch, got {:?}", other),
    }
    let entries = vec![entry(100, t0), entry(101, t0 + 5_000), entry(102, t0 + 12_000)];
    let second = resolver.supply_daily_entries(&entries);
    let index = match second {
        ResolutionStep::FetchLedgerByIndex { ledger_index } => ledger_index,
        other => panic!("expected a ledger fetch, got {:?}", other),
    };
    assert_eq!(index, 101);
    let outcome = resolver.supply_ledger_rows(vec![ledger_row_with_index(index)]);
    match outcome {
        ResolutionStep::Resolved { ledger } => assert_eq!(ledger.ledger_index, 101),
        other => panic!("expected a resolved ledger, got {:?}", other),
    }
}

#[test]
fn resolution_before_the_first_close_of_the_day_fails() {
    let t0: i64 = 1_704_067_200_000;
    let (resolver, _) = TemporalResolver::resolve_at_or_before(t0 - 1_000);
    let entries = vec![entry(100, t0), entry(101, t0 + 5_000), entry(102, t0 + 12_000)];
    let step = resolver.supply_daily_entries(&entries);
    assert!(matches!(
        step,
        ResolutionStep::Failed { error: DataApiError::NoDataReturned }
    ));
}

#[test]
fn resolution_surfaces_ledger_fetch_faults() {
    let t0: i64 = 1_704_067_200_000;
    let (resolver, _) = TemporalResolver::resolve_at_or_before(t0);
    assert!(matches!(
        resolver.supply_ledger_rows(Vec::new()),
        ResolutionStep::Failed { error: DataApiError::NoDataReturned }
    ));
    assert!(matches!(
        resolver.supply_ledger_rows(vec![vec![CellValue::Null]]),
        ResolutionStep::Failed { error: DataApiError::RowTypedCast }
    ));
    assert!(matches!(
        resolver.supply_ledger_rows(vec![ledger_row_with_index(1), ledger_row_with_index(2)]),
        ResolutionStep::Failed { error: DataApiError::RowTypedCast }
    ));
}
