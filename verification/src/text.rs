//! Character-level text utilities shared by the extractor and the
//! classifier: string equality, whitespace trimming and decimal parsing,
//! each verified against a direct specification over `Seq<char>`.

use vstd::prelude::*;
use vstd::string::StrSliceExecFns;
use vstd::string::StringExecFns;

use crate::errors::ProbeError;

verus! {

/// Compares two string slices character by character.
pub fn str_eq(a: &str, b: &str) -> (r: bool)
    ensures
        r == (a@ == b@),
{
    let n: usize = a.unicode_len();
    if n != b.unicode_len() {
        proof {
            assert(a@ != b@) by {
                if a@ == b@ {
                    assert(a@.len() == b@.len());
                }
            }
        }
        return false;
    }
    let mut i: usize = 0;
    while i < n
        invariant
            0 <= i <= n,
            n == a@.len(),
            n == b@.len(),
            forall|k: int| 0 <= k < i ==> a@[k] == b@[k],
        decreases n - i,
    {
        if a.get_char(i) != b.get_char(i) {
            proof {
                assert(a@ != b@) by {
                    if a@ == b@ {
                        assert(a@[i as int] == b@[i as int]);
                    }
                }
            }
            return false;
        }
        i = i + 1;
    }
    proof {
        assert(a@ =~= b@);
    }
    true
}

/// ASCII whitespace, the only kind the probe's sources contain.
pub open spec fn is_space(c: char) -> bool {
    c == ' ' || c == '\t' || c == '\r' || c == '\n'
}

/// What a string looks like after its leading whitespace is removed.
pub open spec fn trim_front(s: Seq<char>) -> Seq<char>
    decreases s.len(),
{
    if s.len() > 0 && is_space(s[0]) {
        trim_front(s.drop_first())
    } else {
        s
    }
}

/// What a string looks like after its trailing whitespace is removed.
pub open spec fn trim_back(s: Seq<char>) -> Seq<char>
    decreases s.len(),
{
    if s.len() > 0 && is_space(s.last()) {
        trim_back(s.drop_last())
    } else {
        s
    }
}

/// What a string looks like after surrounding whitespace is removed.
pub open spec fn trim_spec(s: Seq<char>) -> Seq<char> {
    trim_back(trim_front(s))
}

proof fn lemma_trim_front_subrange(s: Seq<char>, lo: int)
    requires
        0 <= lo <= s.len(),
        forall|k: int| 0 <= k < lo ==> is_space(s[k]),
        lo == s.len() || !is_space(s[lo]),
    ensures
        trim_front(s) == s.subrange(lo, s.len() as int),
    decreases lo,
{
    if lo == 0 {
        if s.len() == 0 || !is_space(s[0]) {
            assert(s.subrange(0, s.len() as int) =~= s);
        }
    } else {
        let t = s.drop_first();
        assert(is_space(s[0]));
        lemma_trim_front_subrange(t, lo - 1);
        assert(t.subrange(lo - 1, t.len() as int) =~= s.subrange(lo, s.len() as int));
    }
}

proof fn lemma_trim_back_subrange(s: Seq<char>, hi: int)
    requires
        0 <= hi <= s.len(),
        forall|k: int| hi <= k < s.len() ==> is_space(s[k]),
        hi == 0 || !is_space(s[hi - 1]),
    ensures
        trim_back(s) == s.subrange(0, hi),
    decreases s.len() - hi,
{
    if hi == s.len() {
        assert(s.subrange(0, hi) =~= s);
    } else {
        let t = s.drop_last();
        assert(is_space(s.last()));
        lemma_trim_back_subrange(t, hi);
        assert(t.subrange(0, hi) =~= s.subrange(0, hi));
    }
}

/// Decides ASCII whitespace.
pub fn is_space_char(c: char) -> (r: bool)
    ensures
        r == is_space(c),
{
    c == ' ' || c == '\t' || c == '\r' || c == '\n'
}

/// Removes surrounding ASCII whitespace from a string slice.
pub fn trim(s: &str) -> (r: String)
    ensures
        r@ == trim_spec(s@),
{
    let n: usize = s.unicode_len();
    let mut lo: usize = 0;
    while lo < n && is_space_char(s.get_char(lo))
        invariant
            0 <= lo <= n,
            n == s@.len(),
            forall|k: int| 0 <= k < lo ==> is_space(s@[k]),
        decreases n - lo,
    {
        lo = lo + 1;
    }
    if lo == n {
        proof {
            lemma_trim_front_subrange(s@, lo as int);
            assert(trim_front(s@) =~= Seq::<char>::empty());
        }
        return String::new();
    }
    let mut hi: usize = n;
    while hi > lo && is_space_char(s.get_char(hi - 1))
        invariant
            lo <= hi <= n,
            n == s@.len(),
            lo < n,
            !is_space(s@[lo as int]),
            forall|k: int| hi <= k < n ==> is_space(s@[k]),
        decreases hi,
    {
        hi = hi - 1;
    }
    proof {
        assert(hi > lo) by {
            if hi == lo {
                assert(is_space(s@[lo as int]));
            }
        }
        lemma_trim_front_subrange(s@, lo as int);
        let t = s@.subrange(lo as int, n as int);
        lemma_trim_back_subrange(t, hi - lo);
        assert(t.subrange(0, hi - lo) =~= s@.subrange(lo as int, hi as int));
    }
    String::from_str(s.substring_char(lo, hi))
}

/// A decimal digit.
pub open spec fn is_digit(c: char) -> bool {
    48 <= c as u32 <= 57
}

/// The numeric value of a decimal digit.
pub open spec fn digit_val(c: char) -> int {
    c as u32 - 48
}

/// The number a string of decimal digits denotes.
pub open spec fn dec_value(s: Seq<char>) -> int
    decreases s.len(),
{
    if s.len() == 0 {
        0
    } else {
        10 * dec_value(s.drop_last()) + digit_val(s.last())
    }
}

/// A nonempty string made of decimal digits only.
pub open spec fn is_dec_string(s: Seq<char>) -> bool {
    s.len() > 0 && forall|i: int| 0 <= i < s.len() ==> is_digit(#[trigger] s[i])
}

proof fn lemma_dec_value_step(s: Seq<char>, i: int)
    requires
        0 <= i < s.len(),
    ensures
        dec_value(s.subrange(0, i + 1)) == 10 * dec_value(s.subrange(0, i)) + digit_val(s[i]),
{
    let t = s.subrange(0, i + 1);
    assert(t.drop_last() =~= s.subrange(0, i));
    assert(t.last() == s[i]);
}

proof fn lemma_dec_value_nonneg(s: Seq<char>)
    requires
        forall|k: int| 0 <= k < s.len() ==> is_digit(#[trigger] s[k]),
    ensures
        dec_value(s) >= 0,
    decreases s.len(),
{
    if s.len() > 0 {
        lemma_dec_value_nonneg(s.drop_last());
    }
}

proof fn lemma_dec_value_prefix_bound(s: Seq<char>, i: int)
    requires
        0 <= i <= s.len(),
        forall|k: int| 0 <= k < s.len() ==> is_digit(#[trigger] s[k]),
    ensures
        dec_value(s) >= dec_value(s.subrange(0, i)),
    decreases s.len() - i,
{
    if i == s.len() {
        assert(s.subrange(0, i) =~= s);
    } else {
        lemma_dec_value_step(s, i);
        lemma_dec_value_nonneg(s.subrange(0, i));
        lemma_dec_value_prefix_bound(s, i + 1);
    }
}

/// Parses a nonempty all-digit decimal string into a `u32`.
///
/// Exactly the strings that are nonempty, all digits, and denote a number
/// that fits in a `u32` parse; everything else is a `Parse` failure.
pub fn parse_u32(s: &str) -> (r: Result<u32, ProbeError>)
    ensures
        (is_dec_string(s@) && dec_value(s@) <= u32::MAX ==> (r matches Ok(v) && v
            == dec_value(s@))),
        (!is_dec_string(s@) || dec_value(s@) > u32::MAX ==> r == Err::<u32, ProbeError>(
            ProbeError::Parse,
        )),
{
    let n: usize = s.unicode_len();
    if n == 0 {
        return Err(ProbeError::Parse);
    }
    let mut i: usize = 0;
    let mut acc: u32 = 0;
    while i < n
        invariant
            0 <= i <= n,
            n == s@.len(),
            forall|k: int| 0 <= k < i ==> is_digit(#[trigger] s@[k]),
            acc == dec_value(s@.subrange(0, i as int)),
        decreases n - i,
    {
        let c: char = s.get_char(i);
        let cv: u32 = c as u32;
        if cv < 48 || cv > 57 {
            assert(!is_digit(s@[i as int]));
            return Err(ProbeError::Parse);
        }
        let d: u32 = cv - 48;
        let next: u64 = (acc as u64) * 10 + (d as u64);
        proof {
            lemma_dec_value_step(s@, i as int);
        }
        if next > u32::MAX as u64 {
            proof {
                assert(!(is_dec_string(s@) && dec_value(s@) <= u32::MAX)) by {
                    if is_dec_string(s@) {
                        lemma_dec_value_prefix_bound(s@, i as int + 1);
                    }
                }
            }
            return Err(ProbeError::Parse);
        }
        acc = next as u32;
        i = i + 1;
    }
    proof {
        assert(s@.subrange(0, n as int) =~= s@);
    }
    Ok(acc)
}

} // verus!
