//! The ledger identifier classifier: an opaque path identifier is tried as an
//! absolute timestamp, then as a non-negative ledger index, and otherwise
//! taken verbatim as a hash. The order is a fixed policy: real ledger hashes
//! are fixed-length hex and can never look numeric, but the classification
//! must stay deterministic and order-dependent regardless.
use vstd::prelude::*;

use crate::wide_int::is_dec_digit;

verus! {

/// What an opaque path identifier stands for.
#[derive(Debug, PartialEq, Eq)]
pub enum LedgerIdentifier {
    /// An absolute instant, milliseconds since the Unix epoch, UTC.
    Timestamp(i64),
    /// A non-negative ledger index.
    Index(i64),
    /// An opaque ledger hash, used verbatim as an equality filter value.
    Hash(String),
}

/// The instant a text denotes when read as a date-time with an offset,
/// milliseconds since the Unix epoch, UTC; nothing when the text is not such
/// a date-time.
pub uninterp spec fn utc_millis_of(s: Seq<char>) -> Option<i64>;

/// Relies on chrono's `DateTime::<Utc>::from_str` (a relaxed RFC 3339
/// date-time with offset) and `DateTime::timestamp_millis`: the outcome is a
/// function of the characters alone.
#[verifier::external_body]
fn parse_utc_timestamp(s: &str) -> (r: Option<i64>)
    ensures
        r == utc_millis_of(s@),
{
    match s.parse::<chrono::DateTime<chrono::Utc>>() {
        Ok(dt) => Some(dt.timestamp_millis()),
        Err(_) => None,
    }
}

/// The value of one decimal digit.
pub open spec fn dec_digit_val(c: char) -> int {
    (c as u32) - ('0' as u32)
}

/// Whether every character is a decimal digit.
pub open spec fn all_dec_digits(s: Seq<char>) -> bool {
    forall|i: int| 0 <= i < s.len() ==> is_dec_digit(#[trigger] s[i])
}

/// The integer a digit string denotes, most significant digit first.
pub open spec fn dec_value(s: Seq<char>) -> int
    decreases s.len(),
{
    if s.len() == 0 {
        0
    } else {
        dec_value(s.drop_last()) * 10 + dec_digit_val(s.last())
    }
}

/// The ledger index a text denotes: a non-empty, all-digit text whose value
/// fits the index type; anything else — empty, signed, non-numeric or too
/// large — is no index.
pub open spec fn parsed_index(s: Seq<char>) -> Option<i64> {
    if s.len() > 0 && all_dec_digits(s) && dec_value(s) <= i64::MAX {
        Some(dec_value(s) as i64)
    } else {
        None
    }
}

proof fn lemma_dec_value_nonneg(s: Seq<char>)
    requires
        all_dec_digits(s),
    ensures
        dec_value(s) >= 0,
    decreases s.len(),
{
    if s.len() > 0 {
        assert(forall|i: int|
            0 <= i < s.len() - 1 ==> #[trigger] s.drop_last()[i] == s[i]);
        lemma_dec_value_nonneg(s.drop_last());
    }
}

/// A digit string's value is no less than any prefix's value.
proof fn lemma_dec_value_prefix(s: Seq<char>, k: int)
    requires
        0 <= k <= s.len(),
        all_dec_digits(s),
    ensures
        dec_value(s.take(k)) <= dec_value(s),
    decreases s.len() - k,
{
    if k < s.len() {
        lemma_dec_value_prefix(s, k + 1);
        assert(s.take(k + 1).drop_last() =~= s.take(k));
        assert(s.take(k + 1).last() == s[k]);
        assert(forall|i: int| 0 <= i < k ==> #[trigger] s.take(k)[i] == s[i]);
        lemma_dec_value_nonneg(s.take(k));
        assert(dec_value(s.take(k)) <= dec_value(s.take(k)) * 10 + dec_digit_val(s[k]));
    } else {
        assert(s.take(k) =~= s);
    }
}

/// Reads a non-negative ledger index: accepts exactly the non-empty all-digit
/// texts whose value fits the index type.
pub fn parse_index(s: &str) -> (r: Option<i64>)
    ensures
        r == parsed_index(s@),
{
    let n = s.unicode_len();
    if n == 0 {
        return None;
    }
    let mut acc: i64 = 0;
    let mut i: usize = 0;
    proof {
        assert(s@.take(0) =~= Seq::<char>::empty());
    }
    while i < n
        invariant
            0 <= i <= n,
            1 <= n == s@.len(),
            all_dec_digits(s@.take(i as int)),
            acc == dec_value(s@.take(i as int)),
            0 <= acc,
        decreases n - i,
    {
        let c = s.get_char(i);
        if c < '0' || '9' < c {
            proof {
                assert(!is_dec_digit(s@[i as int]));
            }
            return None;
        }
        let d = (c as u32 - '0' as u32) as i64;
        let threshold = (i64::MAX - d) / 10;
        if acc > threshold {
            proof {
                assert(acc * 10 + d > i64::MAX) by {
                    assert(threshold == ((i64::MAX - d) as int) / 10);
                    assert(10 * threshold + ((i64::MAX - d) as int) % 10 == i64::MAX - d);
                    assert(acc * 10 >= (threshold + 1) * 10) by (nonlinear_arith)
                        requires
                            acc >= threshold + 1,
                    ;
                }
                assert(s@.take(i + 1).drop_last() =~= s@.take(i as int));
                assert(s@.take(i + 1).last() == s@[i as int]);
                assert(dec_value(s@.take(i + 1)) > i64::MAX);
                if all_dec_digits(s@) {
                    lemma_dec_value_prefix(s@, i + 1);
                    assert(dec_value(s@) > i64::MAX);
                }
            }
            return None;
        }
        proof {
            assert(acc * 10 + d <= i64::MAX) by {
                assert(threshold == ((i64::MAX - d) as int) / 10);
                assert(10 * threshold + ((i64::MAX - d) as int) % 10 == i64::MAX - d);
                assert(acc * 10 <= threshold * 10) by (nonlinear_arith)
                    requires
                        0 <= acc <= threshold,
                ;
            }
            assert(s@.take(i + 1).drop_last() =~= s@.take(i as int));
            assert(s@.take(i + 1).last() == s@[i as int]);
        }
        acc = acc * 10 + d;
        i += 1;
    }
    proof {
        assert(s@.take(n as int) =~= s@);
    }
    Some(acc)
}

/// Classifies an opaque path identifier, first match winning: a date-time
/// with offset resolves temporally; otherwise a non-negative integer is a
/// direct index lookup; anything else is an opaque hash, used verbatim.
pub fn classify(identifier: String) -> (r: LedgerIdentifier)
    ensures
        utc_millis_of(identifier@) matches Some(t) ==> r == LedgerIdentifier::Timestamp(t),
        utc_millis_of(identifier@) is None ==> (parsed_index(identifier@) matches Some(i) ==> r
            == LedgerIdentifier::Index(i)),
        utc_millis_of(identifier@) is None && parsed_index(identifier@) is None ==> r
            == LedgerIdentifier::Hash(identifier),
{
    match parse_utc_timestamp(identifier.as_str()) {
        Some(t) => LedgerIdentifier::Timestamp(t),
        None => match parse_index(identifier.as_str()) {
            Some(i) => LedgerIdentifier::Index(i),
            None => LedgerIdentifier::Hash(identifier),
        },
    }
}

} // verus!
