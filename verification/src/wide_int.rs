//! Arbitrary-precision integers carried through decode as canonical decimal
//! text, so that wide quantities are never truncated to a machine word and
//! are externalized as decimal strings rather than native numerics.
use vstd::prelude::*;

verus! {

/// A decimal digit.
pub open spec fn is_dec_digit(c: char) -> bool {
    '0' <= c && c <= '9'
}

/// A canonical unsigned decimal numeral: at least one digit, no leading zero
/// (except the single digit "0" itself).
pub open spec fn is_canonical_magnitude(s: Seq<char>) -> bool {
    &&& s.len() >= 1
    &&& (forall|i: int| 0 <= i < s.len() ==> is_dec_digit(#[trigger] s[i]))
    &&& (s.len() > 1 ==> s[0] != '0')
}

/// A canonical signed decimal numeral: an optional leading minus sign on a
/// canonical magnitude, with "-0" excluded, so that every integer has exactly
/// one representation.
pub open spec fn is_canonical_decimal(s: Seq<char>) -> bool {
    if s.len() >= 1 && s[0] == '-' {
        is_canonical_magnitude(s.skip(1)) && !(s.len() == 2 && s[1] == '0')
    } else {
        is_canonical_magnitude(s)
    }
}

/// An integer of unbounded width, held as its canonical decimal text.
#[derive(Debug, PartialEq, Eq)]
pub struct WideInt {
    digits: String,
}

impl View for WideInt {
    type V = Seq<char>;

    closed spec fn view(&self) -> Seq<char> {
        self.digits@
    }
}

impl Clone for WideInt {
    fn clone(&self) -> (r: Self)
        ensures
            r == *self,
    {
        WideInt { digits: self.digits.clone() }
    }
}

impl WideInt {
    /// Whether the held text is a canonical signed decimal numeral.
    pub open spec fn wf(&self) -> bool {
        is_canonical_decimal(self@)
    }

    /// Accepts exactly the canonical signed decimal numerals.
    pub fn from_decimal(s: &str) -> (r: Option<WideInt>)
        ensures
            r matches Some(w) ==> w@ == s@ && w.wf(),
            r is Some <==> is_canonical_decimal(s@),
    {
        let n = s.unicode_len();
        if n == 0 {
            return None;
        }
        let negative = s.get_char(0) == '-';
        let start: usize = if negative {
            1
        } else {
            0
        };
        if n == start {
            // A sign with no magnitude.
            return None;
        }
        let mut i: usize = start;
        while i < n
            invariant
                start <= i <= n,
                start <= 1,
                1 <= n == s@.len(),
                start == 1 <==> s@[0] == '-',
                start < n,
                forall|j: int| start <= j < i ==> is_dec_digit(#[trigger] s@[j]),
            decreases n - i,
        {
            let c = s.get_char(i);
            if !('0' <= c && c <= '9') {
                proof {
                    if start == 1 {
                        assert(s@.skip(1)[i - 1] == s@[i as int]);
                        assert(!is_canonical_magnitude(s@.skip(1)));
                    } else {
                        assert(!is_canonical_magnitude(s@));
                    }
                }
                return None;
            }
            i += 1;
        }
        if n - start > 1 && s.get_char(start) == '0' {
            // A leading zero on a multi-digit magnitude.
            return None;
        }
        if negative && n - start == 1 && s.get_char(start) == '0' {
            // "-0" is not canonical.
            return None;
        }
        proof {
            if negative {
                assert(forall|j: int|
                    0 <= j < s@.skip(1).len() ==> is_dec_digit(#[trigger] s@.skip(1)[j]));
            }
        }
        Some(WideInt { digits: String::from_str(s) })
    }

    /// The canonical decimal text of this integer.
    pub fn as_decimal(&self) -> (r: &str)
        ensures
            r@ == self@,
    {
        self.digits.as_str()
    }
}

} // verus!
