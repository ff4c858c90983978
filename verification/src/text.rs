//! Character-level text helpers: substring search, finding a character,
//! and trimming or stripping characters from the ends of a line.  All
//! server-log parsing is built on these.

use vstd::prelude::*;
use vstd::string::StrSliceExecFns;

verus! {

/// The pattern `pat` occurs in `s` starting at index `i`.
pub open spec fn contains_at(s: Seq<char>, pat: Seq<char>, i: int) -> bool {
    0 <= i && i + pat.len() <= s.len() && s.subrange(i, i + pat.len() as int) == pat
}

/// The pattern `pat` occurs somewhere in `s`.
pub open spec fn contains_seq(s: Seq<char>, pat: Seq<char>) -> bool {
    exists|i: int| contains_at(s, pat, i)
}

/// Index of the first occurrence of `c` in `s` at or after `from`.
pub open spec fn find_from(s: Seq<char>, from: int, c: char) -> Option<int>
    decreases s.len() - from,
{
    if from < 0 || from >= s.len() {
        None
    } else if s[from] == c {
        Some(from)
    } else {
        find_from(s, from + 1, c)
    }
}

/// What `find_from` promises of its result.
pub proof fn lemma_find_from_props(s: Seq<char>, from: int, c: char)
    requires
        0 <= from <= s.len(),
    ensures
        match find_from(s, from, c) {
            Some(i) => from <= i < s.len() && s[i] == c && (forall|j: int|
                from <= j < i ==> s[j] != c),
            None => forall|j: int| from <= j < s.len() ==> s[j] != c,
        },
    decreases s.len() - from,
{
    if from < s.len() && s[from] != c {
        lemma_find_from_props(s, from + 1, c);
    }
}

/// A whitespace character as far as line trimming is concerned.
pub open spec fn is_ws(c: char) -> bool {
    c == ' ' || c == '\t' || c == '\r' || c == '\n'
}

/// `s` with its leading whitespace removed.
pub open spec fn trim_front(s: Seq<char>) -> Seq<char>
    decreases s.len(),
{
    if s.len() > 0 && is_ws(s[0]) {
        trim_front(s.drop_first())
    } else {
        s
    }
}

/// `s` with its trailing whitespace removed.
pub open spec fn trim_back(s: Seq<char>) -> Seq<char>
    decreases s.len(),
{
    if s.len() > 0 && is_ws(s.last()) {
        trim_back(s.drop_last())
    } else {
        s
    }
}

/// `s` with whitespace removed from both ends.
pub open spec fn trim_spec(s: Seq<char>) -> Seq<char> {
    trim_back(trim_front(s))
}

/// `s` with every leading copy of `c` removed.
pub open spec fn strip_front(s: Seq<char>, c: char) -> Seq<char>
    decreases s.len(),
{
    if s.len() > 0 && s[0] == c {
        strip_front(s.drop_first(), c)
    } else {
        s
    }
}

/// `s` with every trailing copy of `c` removed.
pub open spec fn strip_back(s: Seq<char>, c: char) -> Seq<char>
    decreases s.len(),
{
    if s.len() > 0 && s.last() == c {
        strip_back(s.drop_last(), c)
    } else {
        s
    }
}

proof fn lemma_trim_front_range(s: Seq<char>, i: int)
    requires
        0 <= i <= s.len(),
        forall|k: int| 0 <= k < i ==> is_ws(s[k]),
        i == s.len() || !is_ws(s[i]),
    ensures
        trim_front(s) == s.subrange(i, s.len() as int),
    decreases i,
{
    if i == 0 {
        assert(s.subrange(0, s.len() as int) =~= s);
    } else {
        lemma_trim_front_range(s.drop_first(), i - 1);
        assert(s.drop_first().subrange(i - 1, s.len() - 1) =~= s.subrange(i, s.len() as int));
    }
}

proof fn lemma_trim_back_range(s: Seq<char>, j: int)
    requires
        0 <= j <= s.len(),
        forall|k: int| j <= k < s.len() ==> is_ws(s[k]),
        j == 0 || !is_ws(s[j - 1]),
    ensures
        trim_back(s) == s.subrange(0, j),
    decreases s.len() - j,
{
    if j == s.len() {
        assert(s.subrange(0, s.len() as int) =~= s);
    } else {
        lemma_trim_back_range(s.drop_last(), j);
        assert(s.drop_last().subrange(0, j) =~= s.subrange(0, j));
    }
}

proof fn lemma_strip_front_range(s: Seq<char>, c: char, i: int)
    requires
        0 <= i <= s.len(),
        forall|k: int| 0 <= k < i ==> s[k] == c,
        i == s.len() || s[i] != c,
    ensures
        strip_front(s, c) == s.subrange(i, s.len() as int),
    decreases i,
{
    if i == 0 {
        assert(s.subrange(0, s.len() as int) =~= s);
    } else {
        lemma_strip_front_range(s.drop_first(), c, i - 1);
        assert(s.drop_first().subrange(i - 1, s.len() - 1) =~= s.subrange(i, s.len() as int));
    }
}

proof fn lemma_strip_back_range(s: Seq<char>, c: char, j: int)
    requires
        0 <= j <= s.len(),
        forall|k: int| j <= k < s.len() ==> s[k] == c,
        j == 0 || s[j - 1] != c,
    ensures
        strip_back(s, c) == s.subrange(0, j),
    decreases s.len() - j,
{
    if j == s.len() {
        assert(s.subrange(0, s.len() as int) =~= s);
    } else {
        lemma_strip_back_range(s.drop_last(), c, j);
        assert(s.drop_last().subrange(0, j) =~= s.subrange(0, j));
    }
}

/// Whitespace test for a single character.
pub fn is_ws_char(c: char) -> (b: bool)
    ensures
        b == is_ws(c),
{
    c == ' ' || c == '\t' || c == '\r' || c == '\n'
}

/// Does `pat` occur in `s` starting exactly at index `i`?
pub fn str_matches_at(s: &str, pat: &str, i: usize) -> (b: bool)
    requires
        i + pat@.len() <= s@.len() <= usize::MAX,
    ensures
        b == contains_at(s@, pat@, i as int),
{
    let m = pat.unicode_len();
    let mut j: usize = 0;
    while j < m
        invariant
            m == pat@.len(),
            i + m <= s@.len() <= usize::MAX,
            j <= m,
            forall|t: int| 0 <= t < j ==> s@[i + t] == pat@[t],
        decreases m - j,
    {
        if s.get_char(i + j) != pat.get_char(j) {
            assert(!contains_at(s@, pat@, i as int)) by {
                if s@.subrange(i as int, i + m) == pat@ {
                    assert(s@.subrange(i as int, i + m)[j as int] == s@[i + j]);
                }
            }
            return false;
        }
        j += 1;
    }
    assert(s@.subrange(i as int, i + m) =~= pat@);
    true
}

/// Substring search: does `pat` occur anywhere in `s`?
pub fn str_contains(s: &str, pat: &str) -> (b: bool)
    ensures
        b == contains_seq(s@, pat@),
{
    let n = s.unicode_len();
    let m = pat.unicode_len();
    if m > n {
        return false;
    }
    if m == 0 {
        assert(contains_at(s@, pat@, 0)) by {
            assert(s@.subrange(0, 0) =~= pat@);
        }
        return true;
    }
    let mut i: usize = 0;
    while i <= n - m
        invariant
            n == s@.len(),
            m == pat@.len(),
            0 < m <= n,
            i <= n - m + 1,
            forall|k: int| 0 <= k < i ==> !contains_at(s@, pat@, k),
        decreases n - m + 1 - i,
    {
        if str_matches_at(s, pat, i) {
            return true;
        }
        i += 1;
    }
    false
}

/// Index of the first occurrence of `c` in `s` at or after `from`.
pub fn find_char_from(s: &str, from: usize, c: char) -> (r: Option<usize>)
    requires
        from <= s@.len(),
    ensures
        match r {
            Some(i) => find_from(s@, from as int, c) == Some(i as int),
            None => find_from(s@, from as int, c) is None,
        },
{
    let n = s.unicode_len();
    let mut i: usize = from;
    while i < n
        invariant
            n == s@.len(),
            from <= i <= n,
            find_from(s@, from as int, c) == find_from(s@, i as int, c),
        decreases n - i,
    {
        if s.get_char(i) == c {
            return Some(i);
        }
        i += 1;
    }
    None
}

/// `s` with whitespace removed from both ends.
pub fn trim_str<'a>(s: &'a str) -> (r: &'a str)
    ensures
        r@ == trim_spec(s@),
{
    let n = s.unicode_len();
    let mut i: usize = 0;
    while i < n && is_ws_char(s.get_char(i))
        invariant
            n == s@.len(),
            i <= n,
            forall|k: int| 0 <= k < i ==> is_ws(s@[k]),
        decreases n - i,
    {
        i += 1;
    }
    proof {
        lemma_trim_front_range(s@, i as int);
    }
    let mut j: usize = n;
    while j > i && is_ws_char(s.get_char(j - 1))
        invariant
            n == s@.len(),
            i <= j <= n,
            forall|k: int| j <= k < n ==> is_ws(s@[k]),
        decreases j,
    {
        j -= 1;
    }
    let r = s.substring_char(i, j);
    proof {
        let t = s@.subrange(i as int, n as int);
        lemma_trim_back_range(t, j - i);
        assert(t.subrange(0, j - i) =~= s@.subrange(i as int, j as int));
    }
    r
}

/// `s` with every leading copy of `c` removed.
pub fn strip_leading<'a>(s: &'a str, c: char) -> (r: &'a str)
    ensures
        r@ == strip_front(s@, c),
{
    let n = s.unicode_len();
    let mut i: usize = 0;
    while i < n && s.get_char(i) == c
        invariant
            n == s@.len(),
            i <= n,
            forall|k: int| 0 <= k < i ==> s@[k] == c,
        decreases n - i,
    {
        i += 1;
    }
    proof {
        lemma_strip_front_range(s@, c, i as int);
    }
    s.substring_char(i, n)
}

/// `s` with every trailing copy of `c` removed.
pub fn strip_trailing<'a>(s: &'a str, c: char) -> (r: &'a str)
    ensures
        r@ == strip_back(s@, c),
{
    let n = s.unicode_len();
    let mut j: usize = n;
    while j > 0 && s.get_char(j - 1) == c
        invariant
            n == s@.len(),
            j <= n,
            forall|k: int| j <= k < n ==> s@[k] == c,
        decreases j,
    {
        j -= 1;
    }
    proof {
        lemma_strip_back_range(s@, c, j as int);
    }
    s.substring_char(0, j)
}

} // verus!
