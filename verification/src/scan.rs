//! Positional text-scanning helpers shared by the color extractor and the
//! source locator: first occurrence of a character or of a substring, and
//! matching a pattern at a position.

use vstd::prelude::*;

verus! {

/// The first index at or after `i` holding `c`, or `s.len()` if none does.
pub open spec fn find_from(s: Seq<char>, i: int, c: char) -> int
    decreases s.len() - i,
{
    if 0 <= i < s.len() {
        if s[i] == c {
            i
        } else {
            find_from(s, i + 1, c)
        }
    } else {
        s.len() as int
    }
}

pub proof fn lemma_find_from(s: Seq<char>, i: int, c: char)
    requires
        0 <= i <= s.len(),
    ensures
        i <= find_from(s, i, c) <= s.len(),
        find_from(s, i, c) < s.len() ==> s[find_from(s, i, c)] == c,
        forall|j: int| i <= j < find_from(s, i, c) ==> s[j] != c,
    decreases s.len() - i,
{
    if i < s.len() && s[i] != c {
        lemma_find_from(s, i + 1, c);
    }
}

/// Whether `pat` occurs in `s` starting exactly at `i`.
pub open spec fn matches_at(s: Seq<char>, i: int, pat: Seq<char>) -> bool {
    0 <= i && i + pat.len() <= s.len() && s.subrange(i, i + pat.len()) == pat
}

/// The first index at or after `i` where `pat` occurs, or `s.len()` if it
/// occurs nowhere there.
pub open spec fn find_sub(s: Seq<char>, i: int, pat: Seq<char>) -> int
    decreases s.len() + 1 - i,
{
    if !(0 <= i && i + pat.len() <= s.len()) {
        s.len() as int
    } else if matches_at(s, i, pat) {
        i
    } else {
        find_sub(s, i + 1, pat)
    }
}

pub proof fn lemma_find_sub(s: Seq<char>, i: int, pat: Seq<char>)
    requires
        0 <= i <= s.len(),
        pat.len() > 0,
    ensures
        i <= find_sub(s, i, pat) <= s.len(),
        find_sub(s, i, pat) < s.len() ==> matches_at(s, find_sub(s, i, pat), pat),
        forall|j: int| i <= j < find_sub(s, i, pat) ==> !matches_at(s, j, pat),
    decreases s.len() + 1 - i,
{
    if i + pat.len() <= s.len() && !matches_at(s, i, pat) {
        lemma_find_sub(s, i + 1, pat);
    } else if !(i + pat.len() <= s.len()) {
        assert forall|j: int| i <= j < s.len() implies !matches_at(s, j, pat) by {}
    }
}

/// First index at or after `i` holding `c`, or the length if none does.
pub fn vec_find_from(v: &Vec<char>, i: usize, c: char) -> (r: usize)
    requires
        i <= v@.len(),
    ensures
        r == find_from(v@, i as int, c),
{
    let n = v.len();
    let mut j: usize = i;
    while j < n
        invariant
            i <= j <= n,
            n == v@.len(),
            find_from(v@, i as int, c) == find_from(v@, j as int, c),
        decreases n - j,
    {
        if v[j] == c {
            return j;
        }
        j += 1;
    }
    j
}

/// Whether the characters of `pat` stand in `v` starting exactly at `i`.
pub fn vec_matches_at(v: &Vec<char>, i: usize, pat: &str) -> (r: bool)
    ensures
        r == matches_at(v@, i as int, pat@),
{
    let m = pat.unicode_len();
    let n = v.len();
    if i > n || m > n - i {
        return false;
    }
    let mut k: usize = 0;
    while k < m
        invariant
            0 <= k <= m,
            i + m <= n,
            n == v@.len(),
            m == pat@.len(),
            forall|j: int| 0 <= j < k ==> v@[i + j] == pat@[j],
        decreases m - k,
    {
        if v[i + k] != pat.get_char(k) {
            assert(v@.subrange(i as int, i + m) != pat@) by {
                assert(v@.subrange(i as int, i + m)[k as int] != pat@[k as int]);
            }
            return false;
        }
        k += 1;
    }
    assert(v@.subrange(i as int, i + m) =~= pat@);
    true
}

/// First index at or after `i` where `pat` occurs, or the length if nowhere.
pub fn vec_find_sub(v: &Vec<char>, i: usize, pat: &str) -> (r: usize)
    requires
        i <= v@.len(),
    ensures
        r == find_sub(v@, i as int, pat@),
{
    let n = v.len();
    let mut j: usize = i;
    while j < n
        invariant
            i <= j <= n,
            n == v@.len(),
            find_sub(v@, i as int, pat@) == find_sub(v@, j as int, pat@),
        decreases n - j,
    {
        if vec_matches_at(v, j, pat) {
            return j;
        }
        j += 1;
    }
    proof {
        if pat@.len() == 0 {
            assert(v@.subrange(j as int, j as int) =~= pat@);
        }
    }
    j
}

/// The last index in `[i, end)` holding `c`, if any does.
pub open spec fn rfind_in(s: Seq<char>, i: int, end: int, c: char) -> Option<int>
    decreases end - i,
{
    if !(0 <= i <= end <= s.len()) || end == i {
        None
    } else if s[end - 1] == c {
        Some(end - 1)
    } else {
        rfind_in(s, i, end - 1, c)
    }
}

pub proof fn lemma_rfind_in(s: Seq<char>, i: int, end: int, c: char)
    requires
        0 <= i <= end <= s.len(),
    ensures
        match rfind_in(s, i, end, c) {
            Some(j) => i <= j < end && s[j] == c && forall|t: int| j < t < end ==> s[t] != c,
            None => forall|t: int| i <= t < end ==> s[t] != c,
        },
    decreases end - i,
{
    if end > i && s[end - 1] != c {
        lemma_rfind_in(s, i, end - 1, c);
    }
}

/// The last index in `[i, end)` holding `c`, if any does.
pub fn vec_rfind_in(v: &Vec<char>, i: usize, end: usize, c: char) -> (r: Option<usize>)
    requires
        i <= end <= v@.len(),
    ensures
        match r {
            Some(j) => Some(j as int) == rfind_in(v@, i as int, end as int, c),
            None => rfind_in(v@, i as int, end as int, c) is None,
        },
{
    let mut j: usize = end;
    while j > i
        invariant
            i <= j <= end <= v@.len(),
            rfind_in(v@, i as int, end as int, c) == rfind_in(v@, i as int, j as int, c),
        decreases j,
    {
        if v[j - 1] == c {
            return Some(j - 1);
        }
        j -= 1;
    }
    None
}

/// How many characters satisfying `p` the sequence `s` begins with.
pub open spec fn run_len(s: Seq<char>, p: spec_fn(char) -> bool) -> nat
    decreases s.len(),
{
    if s.len() == 0 || !p(s[0]) {
        0
    } else {
        1 + run_len(s.skip(1), p)
    }
}

pub proof fn lemma_run_len_le(s: Seq<char>, p: spec_fn(char) -> bool)
    ensures
        run_len(s, p) <= s.len(),
    decreases s.len(),
{
    if s.len() > 0 && p(s[0]) {
        lemma_run_len_le(s.skip(1), p);
    }
}

pub proof fn lemma_run_at(s: Seq<char>, p: spec_fn(char) -> bool, i: int, e: int)
    requires
        0 <= i <= e <= s.len(),
        forall|k: int| i <= k < e ==> p(s[k]),
        e == s.len() || !p(s[e]),
    ensures
        i + run_len(s.skip(i), p) == e,
    decreases e - i,
{
    if i == e {
        if i < s.len() {
            assert(s.skip(i)[0] == s[i]);
        }
    } else {
        assert(s.skip(i)[0] == s[i]);
        assert(s.skip(i).skip(1) =~= s.skip(i + 1));
        lemma_run_at(s, p, i + 1, e);
    }
}

/// The characters of `v` in the range `[i, j)`, as their own vector.
pub fn vec_slice(v: &Vec<char>, i: usize, j: usize) -> (r: Vec<char>)
    requires
        i <= j <= v@.len(),
    ensures
        r@ == v@.subrange(i as int, j as int),
{
    let mut r: Vec<char> = Vec::new();
    let mut k: usize = i;
    while k < j
        invariant
            i <= k <= j <= v@.len(),
            r@ == v@.subrange(i as int, k as int),
        decreases j - k,
    {
        r.push(v[k]);
        k += 1;
        assert(r@ =~= v@.subrange(i as int, k as int));
    }
    r
}

} // verus!
