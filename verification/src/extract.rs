//! The field extractor.
//!
//! Given a line-oriented text source, a key and a delimiter, extraction
//! scans the lines in order, takes the first line that starts with the key,
//! splits it at the first occurrence of the delimiter after the key, and
//! returns the part after the delimiter with one pair of surrounding double
//! quotes removed.  A source with no matching line is a `FieldNotFound`
//! failure; a matching line without the delimiter is a `MalformedLine`
//! failure.  Extraction never trims whitespace: that is a per-fact decision
//! layered on top by the callers that need it.

use vstd::prelude::*;
use vstd::string::StrSliceExecFns;
use vstd::string::StringExecFns;

use crate::errors::ProbeError;

verus! {

/// The number of characters from position `i` to the end of the line that
/// contains it (the next `'\n'`, or the end of the source).
pub open spec fn line_len(s: Seq<char>, i: int) -> nat
    decreases s.len() - i,
{
    if i < 0 || i >= s.len() || s[i] == '\n' {
        0
    } else {
        (1 + line_len(s, i + 1)) as nat
    }
}

/// The position just past the line that starts at `i`: the index of the
/// next `'\n'` at or after `i`, or the length of the source.
pub open spec fn line_end(s: Seq<char>, i: int) -> int {
    i + line_len(s, i)
}

/// A position that begins a line: the start of the source, or the position
/// right after a `'\n'`.
pub open spec fn is_line_start(s: Seq<char>, i: int) -> bool {
    0 <= i <= s.len() && (i == 0 || s[i - 1] == '\n')
}

/// The line that starts at position `i`.
pub open spec fn line_at(s: Seq<char>, i: int) -> Seq<char> {
    s.subrange(i, line_end(s, i))
}

/// Whether `key` is a prefix of `line`.
pub open spec fn has_prefix(line: Seq<char>, key: Seq<char>) -> bool {
    key.len() <= line.len() && line.subrange(0, key.len() as int) == key
}

/// The start of the first line at or after position `i` that begins with
/// `key`, walking the source line by line.
pub open spec fn first_hit(s: Seq<char>, key: Seq<char>, i: int) -> Option<int>
    decreases s.len() - i,
{
    if i < 0 || i > s.len() {
        None
    } else if has_prefix(line_at(s, i), key) {
        Some(i)
    } else if line_end(s, i) + 1 > s.len() {
        None
    } else {
        first_hit(s, key, line_end(s, i) + 1)
    }
}

/// The first index in `[lo, hi)` at which `s` holds the character `c`.
pub open spec fn find_in_range(s: Seq<char>, lo: int, hi: int, c: char) -> Option<int>
    decreases hi - lo,
{
    if lo < 0 || lo >= hi || hi > s.len() {
        None
    } else if s[lo] == c {
        Some(lo)
    } else {
        find_in_range(s, lo + 1, hi, c)
    }
}

/// A value with one pair of surrounding double quotes removed.
pub open spec fn strip_quotes(v: Seq<char>) -> Seq<char> {
    if v.len() >= 2 && v[0] == '"' && v[v.len() - 1] == '"' {
        v.subrange(1, v.len() - 1)
    } else {
        v
    }
}

/// What extraction returns on the source `src` for `key` and `delim`.
pub open spec fn extract_spec(src: Seq<char>, key: Seq<char>, delim: char) -> Result<
    Seq<char>,
    ProbeError,
> {
    match first_hit(src, key, 0) {
        Option::None => Err(ProbeError::FieldNotFound),
        Option::Some(i) => {
            let e = line_end(src, i);
            match find_in_range(src, i + key.len(), e, delim) {
                Option::None => Err(ProbeError::MalformedLine),
                Option::Some(j) => Ok(strip_quotes(src.subrange(j + 1, e))),
            }
        },
    }
}

proof fn lemma_line_end(s: Seq<char>, i: int)
    requires
        0 <= i <= s.len(),
    ensures
        i <= line_end(s, i) <= s.len(),
        line_end(s, i) == s.len() || s[line_end(s, i)] == '\n',
        forall|k: int| i <= k < line_end(s, i) ==> s[k] != '\n',
    decreases s.len() - i,
{
    if i < s.len() && s[i] != '\n' {
        lemma_line_end(s, i + 1);
        assert(line_len(s, i) == 1 + line_len(s, i + 1));
    }
}

proof fn lemma_line_end_agrees(s: Seq<char>, i: int, e: int)
    requires
        0 <= i <= e <= s.len(),
        e == s.len() || s[e] == '\n',
        forall|k: int| i <= k < e ==> s[k] != '\n',
    ensures
        line_end(s, i) == e,
    decreases e - i,
{
    if i < e {
        lemma_line_end_agrees(s, i + 1, e);
        assert(line_len(s, i) == 1 + line_len(s, i + 1));
    }
}

proof fn lemma_find_in_range_props(s: Seq<char>, lo: int, hi: int, c: char)
    requires
        0 <= lo <= hi <= s.len(),
    ensures
        match find_in_range(s, lo, hi, c) {
            Option::Some(j) => {
                &&& lo <= j < hi
                &&& s[j] == c
                &&& forall|k: int| lo <= k < j ==> s[k] != c
            },
            Option::None => forall|k: int| lo <= k < hi ==> s[k] != c,
        },
    decreases hi - lo,
{
    if lo < hi && s[lo] != c {
        lemma_find_in_range_props(s, lo + 1, hi, c);
    }
}

proof fn lemma_first_hit_props(s: Seq<char>, key: Seq<char>, i: int)
    requires
        is_line_start(s, i),
    ensures
        match first_hit(s, key, i) {
            Option::Some(h) => {
                &&& i <= h <= s.len()
                &&& is_line_start(s, h)
                &&& has_prefix(line_at(s, h), key)
                &&& forall|j: int|
                    i <= j < h && is_line_start(s, j) ==> !has_prefix(line_at(s, j), key)
            },
            Option::None => forall|j: int|
                j >= i && is_line_start(s, j) ==> !has_prefix(line_at(s, j), key),
        },
    decreases s.len() - i,
{
    lemma_line_end(s, i);
    let e = line_end(s, i);
    if has_prefix(line_at(s, i), key) {
    } else if e + 1 > s.len() {
        assert forall|j: int| j >= i && is_line_start(s, j) implies !has_prefix(
            line_at(s, j),
            key,
        ) by {
            if j != i {
                assert(s[j - 1] != '\n');
            }
        }
    } else {
        assert(s[e] == '\n');
        assert(is_line_start(s, e + 1));
        lemma_first_hit_props(s, key, e + 1);
        match first_hit(s, key, e + 1) {
            Option::Some(h) => {
                assert forall|j: int| i <= j < h && is_line_start(s, j) implies !has_prefix(
                    line_at(s, j),
                    key,
                ) by {
                    if i < j < e + 1 {
                        assert(s[j - 1] != '\n');
                    }
                }
            },
            Option::None => {
                assert forall|j: int| j >= i && is_line_start(s, j) implies !has_prefix(
                    line_at(s, j),
                    key,
                ) by {
                    if i < j < e + 1 {
                        assert(s[j - 1] != '\n');
                    }
                }
            },
        }
    }
}

/// First match wins: if the line starting at `i` begins with `key`, then the
/// line extraction uses starts at or before `i` and itself begins with
/// `key`.  In particular, when a key occurs on several lines, only the first
/// occurrence is ever read.
pub proof fn lemma_first_match_wins(s: Seq<char>, key: Seq<char>, i: int)
    requires
        is_line_start(s, i),
        has_prefix(line_at(s, i), key),
    ensures
        first_hit(s, key, 0) matches Some(h) && 0 <= h <= i && is_line_start(s, h) && has_prefix(
            line_at(s, h),
            key,
        ),
{
    lemma_first_hit_props(s, key, 0);
    match first_hit(s, key, 0) {
        Option::Some(h) => {
            if h > i {
                assert(!has_prefix(line_at(s, i), key));
            }
        },
        Option::None => {
            assert(!has_prefix(line_at(s, i), key));
        },
    }
}

/// A lookup fails with `FieldNotFound` exactly when no line of the source
/// starts with the key.
pub proof fn lemma_not_found_iff(src: Seq<char>, key: Seq<char>, delim: char)
    ensures
        extract_spec(src, key, delim) == Err::<Seq<char>, ProbeError>(ProbeError::FieldNotFound)
            <==> (forall|j: int| is_line_start(src, j) ==> !has_prefix(line_at(src, j), key)),
{
    lemma_first_hit_props(src, key, 0);
    match first_hit(src, key, 0) {
        Option::Some(h) => {
            assert(is_line_start(src, h) && has_prefix(line_at(src, h), key));
        },
        Option::None => {
            assert forall|j: int| is_line_start(src, j) implies !has_prefix(
                line_at(src, j),
                key,
            ) by {
                assert(j >= 0);
            }
        },
    }
}

/// A lookup fails with `MalformedLine` exactly when some line starts with
/// the key but the first such line has no delimiter after the key.
pub proof fn lemma_malformed_iff(src: Seq<char>, key: Seq<char>, delim: char)
    ensures
        extract_spec(src, key, delim) == Err::<Seq<char>, ProbeError>(ProbeError::MalformedLine)
            <==> (first_hit(src, key, 0) matches Some(h) && forall|k: int|
            h + key.len() <= k < line_end(src, h) ==> src[k] != delim),
{
    lemma_first_hit_props(src, key, 0);
    match first_hit(src, key, 0) {
        Option::Some(h) => {
            lemma_line_end(src, h);
            let e = line_end(src, h);
            assert(key.len() <= line_at(src, h).len());
            lemma_find_in_range_props(src, h + key.len(), e, delim);
        },
        Option::None => {},
    }
}

/// Extraction is a pure function of the source text: two lookups of the
/// same key and delimiter against an unchanged source give the same result.
pub proof fn lemma_extraction_deterministic(
    src: Seq<char>,
    key: Seq<char>,
    delim: char,
    r1: Result<Seq<char>, ProbeError>,
    r2: Result<Seq<char>, ProbeError>,
)
    requires
        r1 == extract_spec(src, key, delim),
        r2 == extract_spec(src, key, delim),
    ensures
        r1 == r2,
{
}

fn prefix_matches(s: &str, i: usize, e: usize, key: &str) -> (r: bool)
    requires
        i <= e <= s@.len(),
    ensures
        r == has_prefix(s@.subrange(i as int, e as int), key@),
{
    let klen: usize = key.unicode_len();
    if e - i < klen {
        return false;
    }
    let mut k: usize = 0;
    while k < klen
        invariant
            0 <= k <= klen,
            klen == key@.len(),
            i + klen <= e <= s@.len(),
            forall|t: int| 0 <= t < k ==> s@[i + t] == key@[t],
        decreases klen - k,
    {
        if s.get_char(i + k) != key.get_char(k) {
            proof {
                let line = s@.subrange(i as int, e as int);
                assert(!has_prefix(line, key@)) by {
                    if has_prefix(line, key@) {
                        assert(line.subrange(0, klen as int)[k as int] == key@[k as int]);
                    }
                }
            }
            return false;
        }
        k = k + 1;
    }
    proof {
        let line = s@.subrange(i as int, e as int);
        assert(line.subrange(0, klen as int) =~= key@);
    }
    true
}

fn find_delim(s: &str, lo: usize, hi: usize, c: char) -> (r: Option<usize>)
    requires
        lo <= hi <= s@.len(),
    ensures
        (r matches Some(j) ==> lo <= j < hi && find_in_range(s@, lo as int, hi as int, c) == Some(
            j as int,
        )),
        (r is None ==> find_in_range(s@, lo as int, hi as int, c) is None),
{
    let mut j: usize = lo;
    while j < hi
        invariant
            lo <= j <= hi <= s@.len(),
            forall|k: int| lo <= k < j ==> s@[k] != c,
        decreases hi - j,
    {
        if s.get_char(j) == c {
            proof {
                lemma_find_in_range_props(s@, lo as int, hi as int, c);
                match find_in_range(s@, lo as int, hi as int, c) {
                    Option::Some(jj) => {
                        if jj < j {
                            assert(s@[jj] != c);
                        }
                        if jj > j {
                            assert(s@[j as int] != c);
                        }
                    },
                    Option::None => {
                        assert(s@[j as int] != c);
                    },
                }
            }
            return Some(j);
        }
        j = j + 1;
    }
    proof {
        lemma_find_in_range_props(s@, lo as int, hi as int, c);
        match find_in_range(s@, lo as int, hi as int, c) {
            Option::Some(jj) => {
                assert(s@[jj] != c);
            },
            Option::None => {},
        }
    }
    None
}

fn strip_quotes_exec(v: &str) -> (r: String)
    ensures
        r@ == strip_quotes(v@),
{
    let n: usize = v.unicode_len();
    if n >= 2 && v.get_char(0) == '"' && v.get_char(n - 1) == '"' {
        String::from_str(v.substring_char(1, n - 1))
    } else {
        String::from_str(v)
    }
}

/// Extracts the value bound to `key` in the line-oriented source text
/// `src`: the first line starting with `key` is split at the first
/// occurrence of `delim` after the key, and the part after the delimiter,
/// less one pair of surrounding double quotes, is the value.
pub fn extract(src: &str, key: &str, delim: char) -> (r: Result<String, ProbeError>)
    ensures
        (extract_spec(src@, key@, delim) matches Ok(v) ==> r matches Ok(x) && x@ == v),
        (extract_spec(src@, key@, delim) matches Err(e) ==> r == Err::<String, ProbeError>(e)),
{
    let n: usize = src.unicode_len();
    let klen: usize = key.unicode_len();
    let mut i: usize = 0;
    loop
        invariant
            0 <= i <= n,
            n == src@.len(),
            klen == key@.len(),
            is_line_start(src@, i as int),
            first_hit(src@, key@, 0) == first_hit(src@, key@, i as int),
        decreases n - i,
    {
        let mut e: usize = i;
        while e < n && src.get_char(e) != '\n'
            invariant
                i <= e <= n,
                n == src@.len(),
                forall|k: int| i <= k < e ==> src@[k] != '\n',
            decreases n - e,
        {
            e = e + 1;
        }
        proof {
            lemma_line_end_agrees(src@, i as int, e as int);
        }
        let hit: bool = prefix_matches(src, i, e, key);
        if hit {
            proof {
                assert(first_hit(src@, key@, i as int) == Some(i as int));
            }
            match find_delim(src, i + klen, e, delim) {
                Option::Some(j) => {
                    let val: &str = src.substring_char(j + 1, e);
                    let out: String = strip_quotes_exec(val);
                    return Ok(out);
                },
                Option::None => {
                    return Err(ProbeError::MalformedLine);
                },
            }
        } else {
            if e == n {
                proof {
                    assert(first_hit(src@, key@, i as int) is None);
                }
                return Err(ProbeError::FieldNotFound);
            }
            proof {
                assert(first_hit(src@, key@, i as int) == first_hit(src@, key@, e as int + 1));
            }
            i = e + 1;
        }
    }
}

} // verus!
