use xrpl_data_api::classify::{classify, parse_index, LedgerIdentifier};
use xrpl_data_api::errors::{map_error_to_status_code, DataApiError};
use xrpl_data_api::params::{DataApiQueryParams, DEFAULT_RESULT_LIMIT};

#[test]
fn a_datetime_with_offset_resolves_temporally() {
    let id = String::from("2024-01-01T00:00:00Z");
    assert_eq!(classify(id), LedgerIdentifier::Timestamp(1_704_067_200_000));
    let with_offset = String::from("2024-01-01T01:30:00+01:30");
    assert_eq!(classify(with_offset), LedgerIdentifier::Timestamp(1_704_067_200_000));
    let with_millis = String::from("1970-01-01T00:00:00.250Z");
    assert_eq!(classify(with_millis), LedgerIdentifier::Timestamp(250));
}

#[test]
fn a_bare_number_is_an_index_lookup() {
    assert_eq!(classify(String::from("84000000")), LedgerIdentifier::Index(84_000_000));
    assert_eq!(classify(String::from("0")), LedgerIdentifier::Index(0));
    assert_eq!(classify(String::from("007")), LedgerIdentifier::Index(7));
}

#[test]
fn anything_else_is_an_opaque_hash() {
    let hash = String::from("F6A8D4C2B0E19375D4C2B0E19375F6A8D4C2B0E19375F6A8D4C2B0E19375ABCD");
    assert_eq!(classify(hash.clone()), LedgerIdentifier::Hash(hash));
    // A sign or a decimal point disqualifies an index; both fall through.
    assert_eq!(classify(String::from("-5")), LedgerIdentifier::Hash(String::from("-5")));
    assert_eq!(classify(String::from("1.5")), LedgerIdentifier::Hash(String::from("1.5")));
    assert_eq!(classify(String::from("")), LedgerIdentifier::Hash(String::from("")));
    // A date alone is not a date-time with offset, and not a number either.
    assert_eq!(
        classify(String::from("2024-01-01")),
        LedgerIdentifier::Hash(String::from("2024-01-01"))
    );
}

#[test]
fn the_timestamp_attempt_precedes_the_index_attempt() {
    // All-digit identifiers parse as indices only because the date-time
    // attempt rejects them first.
    assert_eq!(classify(String::from("20240101")), LedgerIdentifier::Index(20_240_101));
}

#[test]
fn index_parsing_is_exact_at_the_type_boundary() {
    assert_eq!(parse_index("9223372036854775807"), Some(i64::MAX));
    assert_eq!(parse_index("9223372036854775808"), None);
    assert_eq!(parse_index("99999999999999999999999"), None);
    assert_eq!(parse_index(""), None);
    assert_eq!(parse_index("12x"), None);
}

#[test]
fn limits_default_when_absent() {
    let with = DataApiQueryParams { limit: Some(25), ledger_index: None };
    assert_eq!(with.effective_limit(), 25);
    let without = DataApiQueryParams { limit: None, ledger_index: Some(7) };
    assert_eq!(without.effective_limit(), DEFAULT_RESULT_LIMIT);
    assert_eq!(DEFAULT_RESULT_LIMIT, 100);
}

#[test]
fn error_kinds_map_to_their_status_codes() {
    assert_eq!(map_error_to_status_code(&DataApiError::RowTypedCast), 500);
    assert_eq!(map_error_to_status_code(&DataApiError::QueryFailed), 500);
    assert_eq!(map_error_to_status_code(&DataApiError::NoDataReturned), 404);
    assert_eq!(map_error_to_status_code(&DataApiError::AllRowsUndecodable), 404);
    assert_eq!(map_error_to_status_code(&DataApiError::UnsupportedFilter), 404);
}
