//! The temporal ledger resolver: finds the most recently closed ledger at or
//! before a target instant by scanning that instant's UTC calendar day in the
//! daily index, then fetching the chosen ledger by index.
//!
//! The resolver deliberately does not fall back to an earlier calendar day:
//! when no ledger on the target's own day closed at or before the target, the
//! outcome is "not found" even if an earlier day holds one.
use vstd::prelude::*;

use crate::errors::DataApiError;
use crate::executor::{decode_single, Record};
use crate::models::daily_ledger::DailyLedger;
use crate::models::ledger::LedgerScylla;
use crate::selector::Entity;
use crate::values::CellValue;

verus! {

/// Milliseconds in one UTC calendar day.
pub const MILLIS_PER_DAY: i64 = 86_400_000;

/// The UTC calendar day (days since the Unix epoch) holding a millisecond
/// instant; instants before the epoch round toward earlier days.
pub open spec fn spec_close_day_of(t: int) -> int {
    t / (MILLIS_PER_DAY as int)
}

/// The UTC calendar day holding a millisecond instant, days since the Unix
/// epoch; instants before the epoch fall on negative days.
pub fn close_day_of(t: i64) -> (d: i64)
    ensures
        d == spec_close_day_of(t as int),
{
    let q = t / MILLIS_PER_DAY;
    let r = t % MILLIS_PER_DAY;
    if r < 0 {
        q - 1
    } else {
        q
    }
}

/// Whether a daily-index entry closed at or before the target instant.
pub open spec fn closed_at_or_before(e: DailyLedger, t: int) -> bool {
    e.close_time <= t
}

/// The entry the resolver picks from a day's index: among those closed at or
/// before `t`, the one with the maximal ledger index — the last such one
/// when indices tie, which the monotonicity of indices rules out in real
/// histories. `None` when no entry qualifies.
pub open spec fn latest_spec(entries: Seq<DailyLedger>, t: int) -> Option<DailyLedger>
    decreases entries.len(),
{
    if entries.len() == 0 {
        None
    } else {
        let rest = latest_spec(entries.drop_last(), t);
        let last = entries.last();
        if closed_at_or_before(last, t) && (rest matches Some(b) ==> b.ledger_index
            <= last.ledger_index) {
            Some(last)
        } else {
            rest
        }
    }
}

/// Picks from a day's index entries the one with the maximal ledger index
/// among those closed at or before `timestamp`; "not found" when no entry
/// qualifies.
pub fn latest_closed_at_or_before(entries: &Vec<DailyLedger>, timestamp: i64) -> (r: Result<
    DailyLedger,
    DataApiError,
>)
    ensures
        latest_spec(entries@, timestamp as int) matches Some(e) ==> r == Result::<
            DailyLedger,
            DataApiError,
        >::Ok(e),
        latest_spec(entries@, timestamp as int) is None ==> (r matches Err(e) && e
            == DataApiError::NoDataReturned),
{
    let mut best: Option<DailyLedger> = None;
    let mut i: usize = 0;
    proof {
        assert(entries@.take(0) =~= Seq::<DailyLedger>::empty());
    }
    while i < entries.len()
        invariant
            0 <= i <= entries@.len(),
            best == latest_spec(entries@.take(i as int), timestamp as int),
        decreases entries@.len() - i,
    {
        let entry = *vstd::std_specs::vec::vec_index(entries, i);
        let replace = match best {
            Some(b) => entry.close_time <= timestamp && b.ledger_index <= entry.ledger_index,
            None => entry.close_time <= timestamp,
        };
        if replace {
            best = Some(entry);
        }
        proof {
            assert(entries@.take(i + 1).drop_last() =~= entries@.take(i as int));
            assert(entries@.take(i + 1).last() == entries@[i as int]);
        }
        i += 1;
    }
    proof {
        assert(entries@.take(entries@.len() as int) =~= entries@);
    }
    match best {
        Some(b) => Ok(b),
        None => Err(DataApiError::NoDataReturned),
    }
}

/// The resolver finds an entry exactly when one qualifies: the day's index
/// holds an entry closed at or before the target.
pub proof fn lemma_latest_some_iff(entries: Seq<DailyLedger>, t: int)
    ensures
        latest_spec(entries, t) is Some <==> exists|i: int|
            0 <= i < entries.len() && closed_at_or_before(#[trigger] entries[i], t),
    decreases entries.len(),
{
    if entries.len() > 0 {
        lemma_latest_some_iff(entries.drop_last(), t);
        assert(forall|i: int|
            0 <= i < entries.len() - 1 ==> #[trigger] entries.drop_last()[i] == entries[i]);
        if latest_spec(entries, t) is Some {
            if closed_at_or_before(entries.last(), t) {
                assert(closed_at_or_before(entries[entries.len() - 1], t));
            } else {
                let i = choose|i: int|
                    0 <= i < entries.drop_last().len() && closed_at_or_before(
                        #[trigger] entries.drop_last()[i],
                        t,
                    );
                assert(closed_at_or_before(entries[i], t));
            }
        } else {
            assert forall|i: int|
                0 <= i < entries.len() implies !closed_at_or_before(
                #[trigger] entries[i],
                t,
            ) by {
                if i < entries.len() - 1 {
                    assert(entries.drop_last()[i] == entries[i]);
                }
            }
        }
    }
}

/// When a day's index holds at least one entry closed at or before the
/// target, the resolver picks an entry of that day, closed at or before the
/// target, whose ledger index is maximal among all such entries.
pub proof fn lemma_resolution_picks_max(entries: Seq<DailyLedger>, t: int)
    requires
        exists|i: int| 0 <= i < entries.len() && closed_at_or_before(#[trigger] entries[i], t),
    ensures
        latest_spec(entries, t) matches Some(e) && {
            &&& exists|i: int| 0 <= i < entries.len() && entries[i] == e
            &&& closed_at_or_before(e, t)
            &&& forall|j: int|
                0 <= j < entries.len() && closed_at_or_before(#[trigger] entries[j], t)
                    ==> entries[j].ledger_index <= e.ledger_index
        },
    decreases entries.len(),
{
    lemma_latest_some_iff(entries, t);
    lemma_latest_some_iff(entries.drop_last(), t);
    assert(forall|i: int|
        0 <= i < entries.len() - 1 ==> #[trigger] entries.drop_last()[i] == entries[i]);
    let last = entries.last();
    let rest = latest_spec(entries.drop_last(), t);
    if rest is Some {
        lemma_resolution_picks_max(entries.drop_last(), t);
    }
    let e = latest_spec(entries, t)->0;
    if closed_at_or_before(last, t) && (rest matches Some(b) ==> b.ledger_index
        <= last.ledger_index) {
        assert(e == last);
        assert(entries[entries.len() - 1] == e);
        assert forall|j: int|
            0 <= j < entries.len() && closed_at_or_before(
                #[trigger] entries[j],
                t,
            ) implies entries[j].ledger_index <= e.ledger_index by {
            if j < entries.len() - 1 {
                assert(closed_at_or_before(entries.drop_last()[j], t));
            }
        }
    } else {
        assert(e == rest->0);
        let w = choose|i: int|
            0 <= i < entries.drop_last().len() && entries.drop_last()[i] == e;
        assert(entries[w] == e);
        assert forall|j: int|
            0 <= j < entries.len() && closed_at_or_before(
                #[trigger] entries[j],
                t,
            ) implies entries[j].ledger_index <= e.ledger_index by {
            if j < entries.len() - 1 {
                assert(closed_at_or_before(entries.drop_last()[j], t));
            }
        }
    }
}

/// Under the history invariant that ledger indices are strictly increasing
/// with close times — so no two entries share an index and ties cannot occur
/// — any qualifying entry of maximal index is exactly the one the resolver
/// picks.
pub proof fn lemma_resolution_unique_max(entries: Seq<DailyLedger>, t: int, j: int)
    requires
        forall|a: int, b: int|
            #![trigger entries[a].ledger_index, entries[b].ledger_index]
            0 <= a < b < entries.len() ==> entries[a].ledger_index != entries[b].ledger_index,
        0 <= j < entries.len(),
        closed_at_or_before(entries[j], t),
        forall|k: int|
            0 <= k < entries.len() && closed_at_or_before(#[trigger] entries[k], t)
                ==> entries[k].ledger_index <= entries[j].ledger_index,
    ensures
        latest_spec(entries, t) == Some(entries[j]),
{
    lemma_resolution_picks_max(entries, t);
    let e = latest_spec(entries, t)->0;
    let i = choose|i: int| 0 <= i < entries.len() && entries[i] == e;
    assert(entries[i].ledger_index == entries[j].ledger_index);
    if i < j {
        assert(entries[i].ledger_index != entries[j].ledger_index);
    } else if j < i {
        assert(entries[j].ledger_index != entries[i].ledger_index);
    }
    assert(i == j);
}

/// When the target instant is earlier than every close on its own calendar
/// day, the resolution is "not found": the resolver does not fall back to an
/// earlier day, even if one holds a ledger that would qualify.
pub proof fn lemma_resolution_no_fallback(entries: Seq<DailyLedger>, t: int)
    requires
        forall|i: int| 0 <= i < entries.len() ==> !closed_at_or_before(#[trigger] entries[i], t),
    ensures
        latest_spec(entries, t) is None,
    decreases entries.len(),
{
    if entries.len() > 0 {
        assert(forall|i: int|
            0 <= i < entries.drop_last().len() ==> entries.drop_last()[i] == entries[i]);
        lemma_resolution_no_fallback(entries.drop_last(), t);
    }
}

/// One step of a temporal resolution: what the driver must fetch next, or
/// the outcome.
#[derive(Debug)]
pub enum ResolutionStep {
    /// Fetch every daily-index entry whose partition key is this close day.
    FetchDailyEntries { ledger_close_day: i64 },
    /// Fetch the single ledger carrying this index.
    FetchLedgerByIndex { ledger_index: i64 },
    /// The resolution succeeded.
    Resolved { ledger: LedgerScylla },
    /// The resolution failed.
    Failed { error: DataApiError },
}

/// A temporal resolution in progress. The two storage round trips are
/// sequential — the ledger fetch depends on the index scan — so the driver
/// performs each [`ResolutionStep`] in turn and hands back what storage
/// returned.
#[derive(Debug)]
pub struct TemporalResolver {
    /// The target instant, milliseconds since the Unix epoch, UTC.
    pub target: i64,
}

impl TemporalResolver {
    /// Begins resolving the most recently closed ledger at or before
    /// `target`: the daily index of the target's own UTC day is scanned
    /// first.
    pub fn resolve_at_or_before(target: i64) -> (r: (TemporalResolver, ResolutionStep))
        ensures
            r.0.target == target,
            r.1 matches ResolutionStep::FetchDailyEntries { ledger_close_day } && ledger_close_day
                == spec_close_day_of(target as int),
    {
        let day = close_day_of(target);
        (TemporalResolver { target }, ResolutionStep::FetchDailyEntries { ledger_close_day: day })
    }

    /// Continues with the day's index entries: the qualifying entry with the
    /// maximal ledger index is fetched next; with no qualifying entry the
    /// resolution fails as "not found" — never by falling back to an earlier
    /// day.
    pub fn supply_daily_entries(&self, entries: &Vec<DailyLedger>) -> (step: ResolutionStep)
        ensures
            latest_spec(entries@, self.target as int) matches Some(e) ==> (step matches
                ResolutionStep::FetchLedgerByIndex { ledger_index } && ledger_index
                == e.ledger_index),
            latest_spec(entries@, self.target as int) is None ==> (step matches
                ResolutionStep::Failed { error } && error == DataApiError::NoDataReturned),
    {
        match latest_closed_at_or_before(entries, self.target) {
            Ok(entry) => ResolutionStep::FetchLedgerByIndex { ledger_index: entry.ledger_index },
            Err(error) => ResolutionStep::Failed { error },
        }
    }

    /// Finishes with the rows of the single-ledger lookup: exactly one
    /// well-shaped row resolves; no row is "not found", and any other shape
    /// is a cast error.
    pub fn supply_ledger_rows(&self, rows: Vec<Vec<CellValue>>) -> (step: ResolutionStep)
        ensures
            rows@.len() == 1 ==> (crate::executor::spec_decode(Entity::Ledger, rows@[0]@) matches
                Some(rec) ==> (step matches ResolutionStep::Resolved { ledger } && Record::Ledger(
                ledger,
            ) == rec)),
            rows@.len() == 0 ==> (step matches ResolutionStep::Failed { error } && error
                == DataApiError::NoDataReturned),
            rows@.len() > 1 ==> (step matches ResolutionStep::Failed { error } && error
                == DataApiError::RowTypedCast),
            rows@.len() == 1 && crate::executor::spec_decode(Entity::Ledger, rows@[0]@) is None
                ==> (step matches ResolutionStep::Failed { error } && error
                == DataApiError::RowTypedCast),
    {
        match decode_single(Entity::Ledger, rows) {
            Ok(record) => match record {
                Record::Ledger(ledger) => ResolutionStep::Resolved { ledger },
                _ => vstd::pervasive::unreached(),
            },
            Err(error) => ResolutionStep::Failed { error },
        }
    }
}

} // verus!
