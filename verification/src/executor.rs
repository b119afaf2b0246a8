//! The paginated query executor: per-row decoding over pages of raw rows,
//! with the at-most-best-effort policy that a row which fails to decode is
//! dropped without aborting its siblings, and an empty aggregate maps to a
//! "not found" outcome.
//!
//! The storage round trips themselves happen outside the core; the executor
//! is driven with the pages the storage layer hands back. `PagedFetch`
//! exhausts a cursor page by page (`fetch_all` consumption), `fetch_page`
//! consumes at most one page.
use vstd::prelude::*;

use crate::errors::DataApiError;
use crate::models::account::{account_of_row, Account};
use crate::models::balance_change::{balance_change_of_row, BalanceChange};
use crate::models::daily_ledger::{daily_ledger_of_row, DailyLedger};
use crate::models::ledger::{ledger_of_row, LedgerScylla};
use crate::models::payment::{payment_of_row, Payment};
use crate::models::transaction::{transaction_of_row, Transaction};
use crate::selector::{schema_of, Entity};
use crate::values::{row_matches, CellValue};

verus! {

/// A decoded record of any entity.
#[derive(Clone, Debug, PartialEq, Eq)]
pub enum Record {
    Ledger(LedgerScylla),
    DailyLedger(DailyLedger),
    Transaction(Transaction),
    Account(Account),
    Payment(Payment),
    BalanceChange(BalanceChange),
}

/// The record a row well-shaped for `e` decodes to.
pub open spec fn record_of_row(e: Entity, row: Seq<CellValue>) -> Record {
    match e {
        Entity::Ledger => Record::Ledger(ledger_of_row(row)),
        Entity::DailyLedger => Record::DailyLedger(daily_ledger_of_row(row)),
        Entity::Transaction => Record::Transaction(transaction_of_row(row)),
        Entity::Account => Record::Account(account_of_row(row)),
        Entity::Payment => Record::Payment(payment_of_row(row)),
        Entity::BalanceChange => Record::BalanceChange(balance_change_of_row(row)),
    }
}

/// The decode of one raw row: the record when the row has the entity's
/// shape, nothing otherwise.
pub open spec fn spec_decode(e: Entity, row: Seq<CellValue>) -> Option<Record> {
    if row_matches(row, schema_of(e)) {
        Some(record_of_row(e, row))
    } else {
        None
    }
}

/// Positional decode of one raw row into the entity's record. Succeeds
/// exactly on rows whose shape matches the entity's schema; a mismatch is a
/// `RowTypedCast` error, never a panic.
pub fn decode_row(entity: Entity, row: Vec<CellValue>) -> (r: Result<Record, DataApiError>)
    ensures
        r is Ok <==> spec_decode(entity, row@) is Some,
        r matches Ok(rec) ==> spec_decode(entity, row@) == Some(rec),
        r matches Err(e) ==> e == DataApiError::RowTypedCast,
{
    match entity {
        Entity::Ledger => match LedgerScylla::from_row(row) {
            Ok(rec) => Ok(Record::Ledger(rec)),
            Err(e) => Err(e),
        },
        Entity::DailyLedger => match DailyLedger::from_row(row) {
            Ok(rec) => Ok(Record::DailyLedger(rec)),
            Err(e) => Err(e),
        },
        Entity::Transaction => match Transaction::from_row(row) {
            Ok(rec) => Ok(Record::Transaction(rec)),
            Err(e) => Err(e),
        },
        Entity::Account => match Account::from_row(row) {
            Ok(rec) => Ok(Record::Account(rec)),
            Err(e) => Err(e),
        },
        Entity::Payment => match Payment::from_row(row) {
            Ok(rec) => Ok(Record::Payment(rec)),
            Err(e) => Err(e),
        },
        Entity::BalanceChange => match BalanceChange::from_row(row) {
            Ok(rec) => Ok(Record::BalanceChange(rec)),
            Err(e) => Err(e),
        },
    }
}

/// The cell sequences of a vector of raw rows, in order.
pub open spec fn rows_view(rows: Seq<Vec<CellValue>>) -> Seq<Seq<CellValue>> {
    rows.map_values(|r: Vec<CellValue>| r@)
}

/// The records the decodable rows decode to, in row order; undecodable rows
/// are dropped.
pub open spec fn decoded_seq(e: Entity, rows: Seq<Seq<CellValue>>) -> Seq<Record>
    decreases rows.len(),
{
    if rows.len() == 0 {
        Seq::empty()
    } else {
        decoded_seq(e, rows.drop_last()) + match spec_decode(e, rows.last()) {
            Some(r) => seq![r],
            None => Seq::empty(),
        }
    }
}

/// How many of the rows decode successfully.
pub open spec fn decodable_count(e: Entity, rows: Seq<Seq<CellValue>>) -> nat
    decreases rows.len(),
{
    if rows.len() == 0 {
        0
    } else {
        decodable_count(e, rows.drop_last()) + if spec_decode(e, rows.last()) is Some {
            1nat
        } else {
            0nat
        }
    }
}

/// Partial-failure tolerance: of rows where exactly the decodable ones
/// succeed, the aggregate holds exactly that many records — dropping a
/// malformed row never drops its siblings.
pub proof fn lemma_partial_failure(e: Entity, rows: Seq<Seq<CellValue>>)
    ensures
        decoded_seq(e, rows).len() == decodable_count(e, rows),
        decodable_count(e, rows) <= rows.len(),
    decreases rows.len(),
{
    if rows.len() > 0 {
        lemma_partial_failure(e, rows.drop_last());
    }
}

/// Decoding distributes over splitting the rows anywhere: paging can neither
/// drop, duplicate nor reorder a record, wherever the page boundaries fall.
pub proof fn lemma_decoded_seq_concat(e: Entity, a: Seq<Seq<CellValue>>, b: Seq<Seq<CellValue>>)
    ensures
        decoded_seq(e, a + b) == decoded_seq(e, a) + decoded_seq(e, b),
    decreases b.len(),
{
    if b.len() == 0 {
        assert(a + b =~= a);
        assert(decoded_seq(e, a) + decoded_seq(e, b) =~= decoded_seq(e, a));
    } else {
        lemma_decoded_seq_concat(e, a, b.drop_last());
        assert((a + b).drop_last() =~= a + b.drop_last());
        assert((a + b).last() == b.last());
    }
}

/// Fetching is idempotent: two identical fetches against an unchanged
/// dataset decode to identical record sequences, order and content alike —
/// the outcome is a function of the rows and of nothing else.
pub proof fn lemma_fetch_idempotent(
    e: Entity,
    pages_first: Seq<Seq<Seq<CellValue>>>,
    pages_second: Seq<Seq<Seq<CellValue>>>,
)
    requires
        pages_first == pages_second,
    ensures
        decoded_seq(e, pages_first.flatten()) == decoded_seq(e, pages_second.flatten()),
{
}

/// Decodes one page of raw rows, keeping exactly the decodable ones, in
/// order.
pub fn decode_rows(entity: Entity, rows: Vec<Vec<CellValue>>) -> (records: Vec<Record>)
    ensures
        records@ == decoded_seq(entity, rows_view(rows@)),
{
    let ghost orig: Seq<Seq<CellValue>> = rows_view(rows@);
    let mut rows = rows;
    let mut records: Vec<Record> = Vec::new();
    let ghost mut done: int = 0;
    proof {
        assert(rows_view(rows@) =~= orig.skip(0));
        assert(records@ =~= decoded_seq(entity, orig.take(0)));
    }
    while rows.len() > 0
        invariant
            0 <= done <= orig.len(),
            done + rows@.len() == orig.len(),
            rows_view(rows@) == orig.skip(done),
            records@ == decoded_seq(entity, orig.take(done)),
        decreases rows@.len(),
    {
        let ghost before = rows@;
        let row = rows.remove(0);
        proof {
            assert(row@ == rows_view(before)[0]);
            assert(row@ == orig[done]);
            assert(rows_view(rows@) =~= orig.skip(done + 1)) by {
                assert forall|j: int| 0 <= j < rows@.len() implies rows_view(rows@)[j] == orig[done
                    + 1 + j] by {
                    assert(rows@[j] == before[j + 1]);
                    assert(rows_view(before)[j + 1] == orig.skip(done)[j + 1]);
                }
            }
        }
        match decode_row(entity, row) {
            Ok(rec) => {
                records.push(rec);
            },
            Err(_) => {
                // The row is dropped; its siblings still decode.
            },
        }
        proof {
            assert(orig.take(done + 1).drop_last() =~= orig.take(done));
            assert(orig.take(done + 1).last() == orig[done]);
            done = done + 1;
        }
    }
    proof {
        assert(orig.take(done) =~= orig);
    }
    records
}

/// An in-progress cursor exhaustion: pages are pushed as the storage layer
/// returns them, each row decoded independently, and the aggregate is taken
/// at the end. This is the `fetch_all` consumption mode.
#[derive(Debug)]
pub struct PagedFetch {
    /// The entity rows decode to.
    pub entity: Entity,
    /// Successfully decoded records so far, in row order.
    pub records: Vec<Record>,
    /// Whether any raw row has been seen, decodable or not.
    pub seen_rows: bool,
}

impl PagedFetch {
    /// Starts a cursor exhaustion for `entity`.
    pub fn new(entity: Entity) -> (s: Self)
        ensures
            s.entity == entity,
            s.records@ == Seq::<Record>::empty(),
            !s.seen_rows,
    {
        PagedFetch { entity, records: Vec::new(), seen_rows: false }
    }

    /// Decodes one page of raw rows and appends the decodable ones, in
    /// order; rows that fail to decode are dropped without aborting the
    /// fetch.
    pub fn push_page(&mut self, page: Vec<Vec<CellValue>>)
        ensures
            final(self).entity == old(self).entity,
            final(self).records@ == old(self).records@ + decoded_seq(
                old(self).entity,
                rows_view(page@),
            ),
            final(self).seen_rows == (old(self).seen_rows || page@.len() > 0),
    {
        let saw = page.len() > 0;
        let mut decoded = decode_rows(self.entity, page);
        self.records.append(&mut decoded);
        self.seen_rows = self.seen_rows || saw;
    }

    /// Takes the aggregate. The empty aggregate is a "not found" outcome:
    /// `NoDataReturned` when the filter matched no rows at all,
    /// `AllRowsUndecodable` when rows matched but every one failed to decode.
    pub fn finish(self) -> (r: Result<Vec<Record>, DataApiError>)
        ensures
            self.records@.len() > 0 ==> (r matches Ok(v) && v@ == self.records@),
            self.records@.len() == 0 && !self.seen_rows ==> (r matches Err(e) && e
                == DataApiError::NoDataReturned),
            self.records@.len() == 0 && self.seen_rows ==> (r matches Err(e) && e
                == DataApiError::AllRowsUndecodable),
    {
        if self.records.len() == 0 {
            if self.seen_rows {
                Err(DataApiError::AllRowsUndecodable)
            } else {
                Err(DataApiError::NoDataReturned)
            }
        } else {
            Ok(self.records)
        }
    }
}

/// The rows of a sequence of pages, page by page.
pub open spec fn pages_view(pages: Seq<Vec<Vec<CellValue>>>) -> Seq<Seq<Seq<CellValue>>> {
    pages.map_values(|p: Vec<Vec<CellValue>>| rows_view(p@))
}

/// Exhausts a cursor whose pages are already at hand: decodes every page in
/// order and takes the aggregate, with the same outcome policy as
/// [`PagedFetch::finish`]. The result is exactly the decode of the
/// concatenated rows — wherever the page boundaries fall.
pub fn fetch_all(entity: Entity, pages: Vec<Vec<Vec<CellValue>>>) -> (r: Result<
    Vec<Record>,
    DataApiError,
>)
    ensures
        ({
            let all_rows = pages_view(pages@).flatten();
            &&& (decoded_seq(entity, all_rows).len() > 0 ==> (r matches Ok(v) && v@ == decoded_seq(
                entity,
                all_rows,
            )))
            &&& (all_rows.len() == 0 ==> (r matches Err(e) && e == DataApiError::NoDataReturned))
            &&& (all_rows.len() > 0 && decoded_seq(entity, all_rows).len() == 0 ==> (r matches Err(
                e,
            ) && e == DataApiError::AllRowsUndecodable))
        }),
{
    let ghost orig: Seq<Seq<Seq<CellValue>>> = pages_view(pages@);
    let mut pages = pages;
    let mut fetch = PagedFetch::new(entity);
    let ghost mut done: int = 0;
    proof {
        assert(pages_view(pages@) =~= orig.skip(0));
        orig.take(0).lemma_flatten_and_flatten_alt_are_equivalent();
        assert(orig.take(0).flatten() =~= Seq::<Seq<CellValue>>::empty());
        assert(fetch.records@ =~= decoded_seq(entity, orig.take(0).flatten()));
    }
    while pages.len() > 0
        invariant
            0 <= done <= orig.len(),
            done + pages@.len() == orig.len(),
            pages_view(pages@) == orig.skip(done),
            fetch.entity == entity,
            fetch.records@ == decoded_seq(entity, orig.take(done).flatten()),
            fetch.seen_rows <==> orig.take(done).flatten().len() > 0,
        decreases pages@.len(),
    {
        let ghost before = pages@;
        let page = pages.remove(0);
        proof {
            assert(rows_view(page@) == pages_view(before)[0]);
            assert(rows_view(page@) == orig[done]);
            assert(pages_view(pages@) =~= orig.skip(done + 1)) by {
                assert forall|j: int| 0 <= j < pages@.len() implies pages_view(pages@)[j]
                    == orig[done + 1 + j] by {
                    assert(pages@[j] == before[j + 1]);
                    assert(pages_view(before)[j + 1] == orig.skip(done)[j + 1]);
                }
            }
            assert(orig.take(done + 1).flatten() =~= orig.take(done).flatten() + orig[done]) by {
                orig.take(done + 1).lemma_flatten_and_flatten_alt_are_equivalent();
                orig.take(done).lemma_flatten_and_flatten_alt_are_equivalent();
                assert(orig.take(done + 1).drop_last() =~= orig.take(done));
                assert(orig.take(done + 1).last() == orig[done]);
            }
            lemma_decoded_seq_concat(entity, orig.take(done).flatten(), orig[done]);
        }
        fetch.push_page(page);
        proof {
            done = done + 1;
        }
    }
    proof {
        assert(orig.take(done) =~= orig);
    }
    fetch.finish()
}

/// Consumes at most one page: decodes it and takes the aggregate at once,
/// with the same empty-aggregate policy as a full exhaustion.
pub fn fetch_page(entity: Entity, page: Vec<Vec<CellValue>>) -> (r: Result<
    Vec<Record>,
    DataApiError,
>)
    ensures
        decoded_seq(entity, rows_view(page@)).len() > 0 ==> (r matches Ok(v) && v@ == decoded_seq(
            entity,
            rows_view(page@),
        )),
        page@.len() == 0 ==> (r matches Err(e) && e == DataApiError::NoDataReturned),
        page@.len() > 0 && decoded_seq(entity, rows_view(page@)).len() == 0 ==> (r matches Err(e)
            && e == DataApiError::AllRowsUndecodable),
{
    let mut fetch = PagedFetch::new(entity);
    fetch.push_page(page);
    fetch.finish()
}

/// Consumes a lookup that owes at most one row: the empty result is "not
/// found"; more than one row, or a single row of the wrong shape, is a cast
/// error.
pub fn decode_single(entity: Entity, rows: Vec<Vec<CellValue>>) -> (r: Result<
    Record,
    DataApiError,
>)
    ensures
        rows@.len() == 0 ==> (r matches Err(e) && e == DataApiError::NoDataReturned),
        rows@.len() > 1 ==> (r matches Err(e) && e == DataApiError::RowTypedCast),
        rows@.len() == 1 && spec_decode(entity, rows@[0]@) is Some ==> r == Result::<
            Record,
            DataApiError,
        >::Ok(spec_decode(entity, rows@[0]@)->0),
        rows@.len() == 1 && spec_decode(entity, rows@[0]@) is None ==> (r matches Err(e) && e
            == DataApiError::RowTypedCast),
{
    let mut rows = rows;
    if rows.len() == 0 {
        return Err(DataApiError::NoDataReturned);
    }
    if rows.len() > 1 {
        return Err(DataApiError::RowTypedCast);
    }
    let row = rows.remove(0);
    decode_row(entity, row)
}

} // verus!
