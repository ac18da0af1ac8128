//! Character-level text operations with their mathematical meaning.
//!
//! Text is modelled as `Seq<char>`, the view of `str` and `String`.

use vstd::prelude::*;

verus! {

/// `pat` occurs in `s` starting at position `i`.
pub open spec fn occurs_at<T>(s: Seq<T>, pat: Seq<T>, i: int) -> bool {
    &&& 0 <= i
    &&& i + pat.len() <= s.len()
    &&& s.subrange(i, i + pat.len()) == pat
}

/// `pat` occurs somewhere in `s` as a contiguous run.
pub open spec fn contains<T>(s: Seq<T>, pat: Seq<T>) -> bool {
    exists|i: int| occurs_at(s, pat, i)
}

/// Position just past the last occurrence of `sep` in `s`, or 0 when `sep`
/// does not occur.
pub open spec fn segment_start<T>(s: Seq<T>, sep: T) -> int
    decreases s.len(),
{
    if s.len() == 0 {
        0
    } else if s.last() == sep {
        s.len() as int
    } else {
        segment_start(s.drop_last(), sep)
    }
}

/// What follows the last `sep` in `s`; all of `s` when `sep` does not occur.
pub open spec fn last_segment<T>(s: Seq<T>, sep: T) -> Seq<T> {
    s.subrange(segment_start(s, sep), s.len() as int)
}

/// Number of leading elements of `s` equal to `c`.
pub open spec fn leading_run<T>(s: Seq<T>, c: T) -> int
    decreases s.len(),
{
    if s.len() == 0 || s[0] != c {
        0
    } else {
        1 + leading_run(s.drop_first(), c)
    }
}

/// `s` without its leading run of `c`.
pub open spec fn trim_leading<T>(s: Seq<T>, c: T) -> Seq<T> {
    s.subrange(leading_run(s, c), s.len() as int)
}

/// The segment start is a position of `s`, nothing from it on is `sep`, and
/// it is either 0 or stands right behind a `sep`.
pub proof fn lemma_segment_start<T>(s: Seq<T>, sep: T)
    ensures
        0 <= segment_start(s, sep) <= s.len(),
        forall|j: int| segment_start(s, sep) <= j < s.len() ==> s[j] != sep,
        segment_start(s, sep) > 0 ==> s[segment_start(s, sep) - 1] == sep,
    decreases s.len(),
{
    if s.len() > 0 && s.last() != sep {
        let t = s.drop_last();
        lemma_segment_start(t, sep);
        assert forall|j: int| segment_start(s, sep) <= j < s.len() implies s[j] != sep by {
            if j < t.len() {
                assert(t[j] == s[j]);
            }
        }
        if segment_start(s, sep) > 0 {
            assert(t[segment_start(t, sep) - 1] == s[segment_start(s, sep) - 1]);
        }
    }
}

/// Any position behind which no `sep` stands, and which is 0 or follows a
/// `sep`, is the segment start.
pub proof fn lemma_segment_start_unique<T>(s: Seq<T>, sep: T, k: int)
    requires
        0 <= k <= s.len(),
        forall|j: int| k <= j < s.len() ==> s[j] != sep,
        k > 0 ==> s[k - 1] == sep,
    ensures
        segment_start(s, sep) == k,
    decreases s.len(),
{
    if s.len() > 0 && s.last() != sep {
        let t = s.drop_last();
        assert forall|j: int| k <= j < t.len() implies t[j] != sep by {
            assert(t[j] == s[j]);
        }
        if k > 0 {
            assert(t[k - 1] == s[k - 1]);
        }
        lemma_segment_start_unique(t, sep, k);
    }
}

/// The leading run is a prefix of `c`s that the next element, if any, ends.
pub proof fn lemma_leading_run<T>(s: Seq<T>, c: T)
    ensures
        0 <= leading_run(s, c) <= s.len(),
        forall|j: int| 0 <= j < leading_run(s, c) ==> s[j] == c,
        leading_run(s, c) < s.len() ==> s[leading_run(s, c)] != c,
    decreases s.len(),
{
    if s.len() > 0 && s[0] == c {
        lemma_leading_run(s.drop_first(), c);
        assert forall|j: int| 0 <= j < leading_run(s, c) implies s[j] == c by {
            if j > 0 {
                assert(s[j] == s.drop_first()[j - 1]);
            }
        }
    }
}

/// Any prefix of `c`s that the next element ends is the leading run.
pub proof fn lemma_leading_run_unique<T>(s: Seq<T>, c: T, k: int)
    requires
        0 <= k <= s.len(),
        forall|j: int| 0 <= j < k ==> s[j] == c,
        k < s.len() ==> s[k] != c,
    ensures
        leading_run(s, c) == k,
    decreases s.len(),
{
    if s.len() > 0 && s[0] == c {
        assert(k > 0);
        assert forall|j: int| 0 <= j < k - 1 implies s.drop_first()[j] == c by {
            assert(s.drop_first()[j] == s[j + 1]);
        }
        lemma_leading_run_unique(s.drop_first(), c, k - 1);
    }
}

/// The position of the first `true` in `flags`.
pub open spec fn first_true(flags: Seq<bool>) -> Option<int>
    decreases flags.len(),
{
    if flags.len() == 0 {
        None
    } else if flags[0] {
        Some(0)
    } else {
        match first_true(flags.drop_first()) {
            Some(i) => Some(i + 1),
            None => None,
        }
    }
}

/// The first `true` is a `true` with nothing but `false` before it; there
/// is none exactly where all is `false`.
pub proof fn lemma_first_true(flags: Seq<bool>)
    ensures
        match first_true(flags) {
            Some(i) => 0 <= i < flags.len() && flags[i] && forall|j: int| 0 <= j < i ==> !flags[j],
            None => forall|j: int| 0 <= j < flags.len() ==> !flags[j],
        },
    decreases flags.len(),
{
    if flags.len() > 0 && !flags[0] {
        let rest = flags.drop_first();
        lemma_first_true(rest);
        match first_true(rest) {
            Some(i) => {
                assert(flags[i + 1] == rest[i]);
                assert forall|j: int| 0 <= j < i + 1 implies !flags[j] by {
                    if j > 0 {
                        assert(flags[j] == rest[j - 1]);
                    }
                }
            },
            None => {
                assert forall|j: int| 0 <= j < flags.len() implies !flags[j] by {
                    if j > 0 {
                        assert(flags[j] == rest[j - 1]);
                    }
                }
            },
        }
    }
}

/// A `true` with nothing but `false` before it is the first `true`.
pub proof fn lemma_first_true_is(flags: Seq<bool>, i: int)
    requires
        0 <= i < flags.len(),
        flags[i],
        forall|j: int| 0 <= j < i ==> !flags[j],
    ensures
        first_true(flags) == Some(i),
{
    lemma_first_true(flags);
}

/// The characters of `s`, in order.
pub fn chars_of(s: &str) -> (v: Vec<char>)
    ensures
        v@ == s@,
{
    let mut v: Vec<char> = Vec::new();
    for c in it: s.chars()
        invariant
            v@ == it.seq().take(it.index()),
    {
        v.push(c);
    }
    v
}

/// `String::push`: appends exactly the one character `c` to `s`.
#[verifier::external_body]
pub(crate) fn push_char(s: &mut String, c: char)
    ensures
        final(s)@ == old(s)@.push(c),
{
    s.push(c)
}

/// Whether two character slices hold the same text.
pub fn same_chars(a: &[char], b: &[char]) -> (same: bool)
    ensures
        same == (a@ == b@),
{
    if a.len() != b.len() {
        return false;
    }
    let mut i: usize = 0;
    while i < a.len()
        invariant
            i <= a.len(),
            a.len() == b.len(),
            forall|j: int| 0 <= j < i ==> a@[j] == b@[j],
        decreases a.len() - i,
    {
        if a[i] != b[i] {
            return false;
        }
        i += 1;
    }
    assert(a@ =~= b@);
    true
}

/// Whether two strings hold the same text.
pub fn text_eq(a: &str, b: &str) -> (same: bool)
    ensures
        same == (a@ == b@),
{
    let x = chars_of(a);
    let y = chars_of(b);
    same_chars(x.as_slice(), y.as_slice())
}

/// Whether `pat` stands in `s` at position `at`.
fn chars_match_at(s: &[char], pat: &[char], at: usize) -> (hit: bool)
    requires
        at + pat.len() <= s.len(),
    ensures
        hit == occurs_at(s@, pat@, at as int),
{
    let mut k: usize = 0;
    while k < pat.len()
        invariant
            k <= pat.len(),
            at + pat.len() <= s.len(),
            forall|j: int| 0 <= j < k ==> s@[at + j] == pat@[j],
        decreases pat.len() - k,
    {
        if s[at + k] != pat[k] {
            assert(s@.subrange(at as int, at + pat.len())[k as int] != pat@[k as int]);
            return false;
        }
        k += 1;
    }
    assert(s@.subrange(at as int, at + pat.len()) =~= pat@);
    true
}

/// Whether `s` ends with `suffix`.
pub fn chars_end_with(s: &[char], suffix: &[char]) -> (hit: bool)
    ensures
        hit == suffix@.is_suffix_of(s@),
{
    if suffix.len() > s.len() {
        return false;
    }
    chars_match_at(s, suffix, s.len() - suffix.len())
}

/// Whether `pat` occurs in `s`.
pub fn chars_contain(s: &[char], pat: &[char]) -> (hit: bool)
    ensures
        hit == contains(s@, pat@),
{
    if pat.len() > s.len() {
        return false;
    }
    let last: usize = s.len() - pat.len();
    let mut i: usize = 0;
    while i < last
        invariant
            i <= last,
            last == s.len() - pat.len(),
            forall|j: int| 0 <= j < i ==> !occurs_at(s@, pat@, j),
        decreases last - i,
    {
        if chars_match_at(s, pat, i) {
            return true;
        }
        i += 1;
    }
    chars_match_at(s, pat, last)
}

/// How many leading characters of `s` are `c`.
pub fn chars_leading_run(s: &[char], c: char) -> (k: usize)
    ensures
        k == leading_run(s@, c),
{
    let mut k: usize = 0;
    while k < s.len() && s[k] == c
        invariant
            k <= s.len(),
            forall|j: int| 0 <= j < k ==> s@[j] == c,
        decreases s.len() - k,
    {
        k += 1;
    }
    proof {
        lemma_leading_run_unique(s@, c, k as int);
    }
    k
}

/// Whether `pat` stands in the bytes `s` at position `at`.
fn bytes_match_at(s: &[u8], pat: &[u8], at: usize) -> (hit: bool)
    requires
        at + pat.len() <= s.len(),
    ensures
        hit == occurs_at(s@, pat@, at as int),
{
    let mut k: usize = 0;
    while k < pat.len()
        invariant
            k <= pat.len(),
            at + pat.len() <= s.len(),
            forall|j: int| 0 <= j < k ==> s@[at + j] == pat@[j],
        decreases pat.len() - k,
    {
        if s[at + k] != pat[k] {
            assert(s@.subrange(at as int, at + pat.len())[k as int] != pat@[k as int]);
            return false;
        }
        k += 1;
    }
    assert(s@.subrange(at as int, at + pat.len()) =~= pat@);
    true
}

/// Whether the bytes `s` end with `suffix`.
pub fn bytes_end_with(s: &[u8], suffix: &[u8]) -> (hit: bool)
    ensures
        hit == suffix@.is_suffix_of(s@),
{
    if suffix.len() > s.len() {
        return false;
    }
    bytes_match_at(s, suffix, s.len() - suffix.len())
}

/// Where the last segment of the bytes `s` begins: just past its last `sep`.
pub fn bytes_segment_start(s: &[u8], sep: u8) -> (k: usize)
    ensures
        k == segment_start(s@, sep),
{
    let mut k: usize = s.len();
    while k > 0 && s[k - 1] != sep
        invariant
            k <= s.len(),
            forall|j: int| k <= j < s.len() ==> s@[j] != sep,
        decreases k,
    {
        k -= 1;
    }
    proof {
        lemma_segment_start_unique(s@, sep, k as int);
    }
    k
}

/// The characters that the bytes `bytes` stand for, read one byte as one
/// character.
pub open spec fn byte_chars(bytes: Seq<u8>) -> Seq<char> {
    Seq::new(bytes.len(), |i: int| bytes[i] as char)
}

/// The text of `bytes`, one character for each byte.
pub fn text_of_bytes(bytes: &[u8]) -> (s: String)
    ensures
        s@ == byte_chars(bytes@),
{
    let mut s = String::new();
    let mut i: usize = 0;
    while i < bytes.len()
        invariant
            i <= bytes.len(),
            s@ == byte_chars(bytes@.take(i as int)),
        decreases bytes.len() - i,
    {
        push_char(&mut s, bytes[i] as char);
        i += 1;
        assert(byte_chars(bytes@.take(i as int)) =~= byte_chars(bytes@.take(i - 1)).push(
            bytes@[i - 1] as char,
        ));
    }
    assert(bytes@.take(bytes.len() as int) == bytes@);
    s
}

} // verus!
