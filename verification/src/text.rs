//! Character and substring searches over `&str`, with their specification
//! counterparts over `Seq<char>`.
//!
//! The redirect-URI, request-line and properties parsers are all built from
//! the first-occurrence searches defined here.

use vstd::prelude::*;

verus! {

/// The smallest index `i >= from` with `s[i] == c`, if any.
pub open spec fn find_from(s: Seq<char>, from: int, c: char) -> Option<int>
    decreases s.len() - from,
{
    if from < 0 || from >= s.len() {
        None
    } else if s[from] == c {
        Some(from)
    } else {
        find_from(s, from + 1, c)
    }
}

/// What `find_from` returns, characterized without recursion.
pub proof fn lemma_find_from(s: Seq<char>, from: int, c: char)
    requires
        0 <= from,
    ensures
        match find_from(s, from, c) {
            Some(i) => from <= i < s.len() && s[i] == c
                && (forall|k: int| from <= k < i ==> s[k] != c),
            None => forall|k: int| from <= k < s.len() ==> s[k] != c,
        },
    decreases s.len() - from,
{
    if from < s.len() && s[from] != c {
        lemma_find_from(s, from + 1, c);
    }
}

/// The converse: a witness pins `find_from` down to `Some(i)`.
pub proof fn lemma_find_from_value(s: Seq<char>, from: int, c: char, i: int)
    requires
        0 <= from <= i < s.len(),
        s[i] == c,
        forall|k: int| from <= k < i ==> s[k] != c,
    ensures
        find_from(s, from, c) == Some(i),
    decreases i - from,
{
    if from < i {
        lemma_find_from_value(s, from + 1, c, i);
    }
}

/// The converse for the absent case.
pub proof fn lemma_find_from_none(s: Seq<char>, from: int, c: char)
    requires
        0 <= from,
        forall|k: int| from <= k < s.len() ==> s[k] != c,
    ensures
        find_from(s, from, c) is None,
{
    lemma_find_from(s, from, c);
    if find_from(s, from, c) is Some {
        let i = find_from(s, from, c).unwrap();
        assert(s[i] != c);
    }
}

/// Searching a subrange is searching the whole string, clipped.
pub proof fn lemma_find_from_subrange(s: Seq<char>, lo: int, hi: int, c: char)
    requires
        0 <= lo <= hi <= s.len(),
    ensures
        find_from(s.subrange(lo, hi), 0, c) == match find_from(s, lo, c) {
            Some(p) => if p < hi { Some(p - lo) } else { None::<int> },
            None => None::<int>,
        },
{
    let sub = s.subrange(lo, hi);
    lemma_find_from(s, lo, c);
    match find_from(s, lo, c) {
        Some(p) => {
            if p < hi {
                assert(sub[p - lo] == c);
                lemma_find_from_value(sub, 0, c, p - lo);
            } else {
                assert forall|k: int| 0 <= k < sub.len() implies sub[k] != c by {
                    assert(sub[k] == s[lo + k]);
                }
                lemma_find_from_none(sub, 0, c);
            }
        },
        None => {
            assert forall|k: int| 0 <= k < sub.len() implies sub[k] != c by {
                assert(sub[k] == s[lo + k]);
            }
            lemma_find_from_none(sub, 0, c);
        },
    }
}

/// Executable counterpart of `find_from`.
pub fn find_char(s: &str, from: usize, c: char) -> (r: Option<usize>)
    ensures
        match r {
            Some(i) => find_from(s@, from as int, c) == Some(i as int),
            None => find_from(s@, from as int, c) is None,
        },
{
    let n = s.unicode_len();
    let mut i = from;
    if i >= n {
        proof {
            lemma_find_from(s@, from as int, c);
        }
        return None;
    }
    while i < n
        invariant
            from <= i <= n,
            n == s@.len(),
            find_from(s@, from as int, c) == find_from(s@, i as int, c),
        decreases n - i,
    {
        if s.get_char(i) == c {
            return Some(i);
        }
        i = i + 1;
    }
    None
}

/// The pattern `pat` occurs in `s` at position `i`.
pub open spec fn match_at(s: Seq<char>, pat: Seq<char>, i: int) -> bool {
    0 <= i && i + pat.len() <= s.len() && s.subrange(i, i + pat.len() as int) == pat
}

/// The smallest position `i >= from` where `pat` occurs in `s`, if any.
pub open spec fn find_sub_from(s: Seq<char>, pat: Seq<char>, from: int) -> Option<int>
    decreases s.len() - from + 1,
{
    if from < 0 || from + pat.len() > s.len() {
        None
    } else if match_at(s, pat, from) {
        Some(from)
    } else {
        find_sub_from(s, pat, from + 1)
    }
}

/// What `find_sub_from` returns, characterized without recursion.
pub proof fn lemma_find_sub_from(s: Seq<char>, pat: Seq<char>, from: int)
    requires
        0 <= from,
    ensures
        match find_sub_from(s, pat, from) {
            Some(i) => from <= i && match_at(s, pat, i)
                && (forall|k: int| from <= k < i ==> !match_at(s, pat, k)),
            None => forall|k: int| from <= k ==> !match_at(s, pat, k),
        },
    decreases s.len() - from + 1,
{
    if from + pat.len() > s.len() {
        assert forall|k: int| from <= k implies !match_at(s, pat, k) by {
            assert(k + pat.len() > s.len());
        }
    } else if !match_at(s, pat, from) {
        lemma_find_sub_from(s, pat, from + 1);
    }
}

/// The converse: a witness pins `find_sub_from` down to `Some(i)`.
pub proof fn lemma_find_sub_from_value(s: Seq<char>, pat: Seq<char>, from: int, i: int)
    requires
        0 <= from <= i,
        match_at(s, pat, i),
        forall|k: int| from <= k < i ==> !match_at(s, pat, k),
    ensures
        find_sub_from(s, pat, from) == Some(i),
    decreases i - from,
{
    if from < i {
        lemma_find_sub_from_value(s, pat, from + 1, i);
    }
}

/// Executable check that `pat` occurs in `s` at position `i`.
fn matches_at(s: &str, pat: &str, i: usize) -> (r: bool)
    ensures
        r == match_at(s@, pat@, i as int),
{
    let n = s.unicode_len();
    let m = pat.unicode_len();
    if i > n || m > n - i {
        return false;
    }
    let mut j: usize = 0;
    while j < m
        invariant
            j <= m,
            i + m <= n,
            n == s@.len(),
            m == pat@.len(),
            forall|k: int| 0 <= k < j ==> s@[i + k] == pat@[k],
        decreases m - j,
    {
        let sc = s.get_char(i + j);
        let pc = pat.get_char(j);
        if sc != pc {
            proof {
                if match_at(s@, pat@, i as int) {
                    assert(s@.subrange(i as int, i as int + pat@.len() as int)[j as int]
                        == s@[i + j]);
                }
            }
            return false;
        }
        j = j + 1;
    }
    proof {
        assert(s@.subrange(i as int, i as int + pat@.len() as int) =~= pat@);
    }
    true
}

/// Executable counterpart of `find_sub_from`.
pub fn find_sub(s: &str, pat: &str, from: usize) -> (r: Option<usize>)
    ensures
        match r {
            Some(i) => find_sub_from(s@, pat@, from as int) == Some(i as int),
            None => find_sub_from(s@, pat@, from as int) is None,
        },
{
    let n = s.unicode_len();
    let m = pat.unicode_len();
    if m > n || from > n - m {
        proof {
            lemma_find_sub_from_bound(s@, pat@, from as int);
        }
        return None;
    }
    if m == 0 {
        proof {
            assert(s@.subrange(from as int, from as int) =~= pat@);
            lemma_find_sub_from_value(s@, pat@, from as int, from as int);
        }
        return Some(from);
    }
    let mut i = from;
    while i <= n - m
        invariant
            from <= i,
            0 < m <= n,
            i <= n - m + 1,
            n == s@.len(),
            m == pat@.len(),
            find_sub_from(s@, pat@, from as int) == find_sub_from(s@, pat@, i as int),
        decreases n - i,
    {
        if matches_at(s, pat, i) {
            return Some(i);
        }
        i = i + 1;
    }
    proof {
        lemma_find_sub_from_bound(s@, pat@, i as int);
    }
    None
}

/// Past the last possible start there is no occurrence.
proof fn lemma_find_sub_from_bound(s: Seq<char>, pat: Seq<char>, from: int)
    requires
        from + pat.len() > s.len() || from < 0,
    ensures
        find_sub_from(s, pat, from) is None,
{
}

/// The whitespace a request line can contain.
pub open spec fn is_space(c: char) -> bool {
    c == ' ' || c == '\t' || c == '\r' || c == '\n'
}

/// The smallest index `i >= from` holding whitespace, if any.
pub open spec fn find_space_from(s: Seq<char>, from: int) -> Option<int>
    decreases s.len() - from,
{
    if from < 0 || from >= s.len() {
        None
    } else if is_space(s[from]) {
        Some(from)
    } else {
        find_space_from(s, from + 1)
    }
}

/// What `find_space_from` returns, characterized without recursion.
pub proof fn lemma_find_space_from(s: Seq<char>, from: int)
    requires
        0 <= from,
    ensures
        match find_space_from(s, from) {
            Some(i) => from <= i < s.len() && is_space(s[i])
                && (forall|k: int| from <= k < i ==> !is_space(s[k])),
            None => forall|k: int| from <= k < s.len() ==> !is_space(s[k]),
        },
    decreases s.len() - from,
{
    if from < s.len() && !is_space(s[from]) {
        lemma_find_space_from(s, from + 1);
    }
}

/// The converse: a witness pins `find_space_from` down to `Some(i)`.
pub proof fn lemma_find_space_from_value(s: Seq<char>, from: int, i: int)
    requires
        0 <= from <= i < s.len(),
        is_space(s[i]),
        forall|k: int| from <= k < i ==> !is_space(s[k]),
    ensures
        find_space_from(s, from) == Some(i),
    decreases i - from,
{
    if from < i {
        lemma_find_space_from_value(s, from + 1, i);
    }
}

/// The converse for the absent case.
pub proof fn lemma_find_space_from_none(s: Seq<char>, from: int)
    requires
        0 <= from,
        forall|k: int| from <= k < s.len() ==> !is_space(s[k]),
    ensures
        find_space_from(s, from) is None,
{
    lemma_find_space_from(s, from);
    if find_space_from(s, from) is Some {
        let i = find_space_from(s, from).unwrap();
        assert(!is_space(s[i]));
    }
}

/// Executable counterpart of `is_space`.
pub fn space_char(c: char) -> (r: bool)
    ensures
        r == is_space(c),
{
    c == ' ' || c == '\t' || c == '\r' || c == '\n'
}

/// Executable counterpart of `find_space_from`.
pub fn find_space(s: &str, from: usize) -> (r: Option<usize>)
    ensures
        match r {
            Some(i) => find_space_from(s@, from as int) == Some(i as int),
            None => find_space_from(s@, from as int) is None,
        },
{
    let n = s.unicode_len();
    let mut i = from;
    if i >= n {
        proof {
            lemma_find_space_from(s@, from as int);
        }
        return None;
    }
    while i < n
        invariant
            from <= i <= n,
            n == s@.len(),
            find_space_from(s@, from as int) == find_space_from(s@, i as int),
        decreases n - i,
    {
        if space_char(s.get_char(i)) {
            return Some(i);
        }
        i = i + 1;
    }
    None
}

/// Executable equality of two string views.
pub fn str_eq(a: &str, b: &str) -> (r: bool)
    ensures
        r == (a@ == b@),
{
    let n = a.unicode_len();
    if n != b.unicode_len() {
        return false;
    }
    let mut i: usize = 0;
    while i < n
        invariant
            i <= n,
            n == a@.len(),
            n == b@.len(),
            forall|k: int| 0 <= k < i ==> a@[k] == b@[k],
        decreases n - i,
    {
        if a.get_char(i) != b.get_char(i) {
            return false;
        }
        i = i + 1;
    }
    proof {
        assert(a@ =~= b@);
    }
    true
}

} // verus!
