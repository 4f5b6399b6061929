//! Character-sequence utilities shared by the rendering and serving logic:
//! first-occurrence search for characters and substrings, and literal
//! substring replacement.

use vstd::prelude::*;

verus! {

/// Index of the first occurrence of `c` in `s` at or after `from`;
/// `s.len()` when there is none.
pub open spec fn char_index_from(s: Seq<char>, from: int, c: char) -> int
    decreases s.len() - from,
{
    if from < 0 || from >= s.len() {
        s.len() as int
    } else if s[from] == c {
        from
    } else {
        char_index_from(s, from + 1, c)
    }
}

/// Characterization of `char_index_from`: the result is the first
/// occurrence at or after `from`, or the length when there is none.
pub proof fn lemma_char_index_from(s: Seq<char>, from: int, c: char)
    requires
        0 <= from <= s.len(),
    ensures
        from <= char_index_from(s, from, c) <= s.len(),
        char_index_from(s, from, c) < s.len() ==> s[char_index_from(s, from, c)] == c,
        forall|i: int| from <= i < char_index_from(s, from, c) ==> s[i] != c,
    decreases s.len() - from,
{
    if from < s.len() && s[from] != c {
        lemma_char_index_from(s, from + 1, c);
    }
}

/// If `p` is an occurrence of `c` with none before it (at or after `from`),
/// then `p` is exactly what `char_index_from` returns.
pub proof fn lemma_char_index_is(s: Seq<char>, from: int, c: char, p: int)
    requires
        0 <= from <= p < s.len(),
        s[p] == c,
        forall|i: int| from <= i < p ==> s[i] != c,
    ensures
        char_index_from(s, from, c) == p,
{
    lemma_char_index_from(s, from, c);
    let r = char_index_from(s, from, c);
    if r < p {
        assert(s[r] == c);
    }
}

/// First index at or after `from` where `c` occurs in `s`, or the character
/// length of `s` when it does not occur.
pub fn find_char(s: &str, from: usize, c: char) -> (r: usize)
    requires
        from <= s@.len(),
    ensures
        r == char_index_from(s@, from as int, c),
{
    let n = s.unicode_len();
    let mut i = from;
    while i < n
        invariant
            from <= i <= n,
            n == s@.len(),
            char_index_from(s@, from as int, c) == char_index_from(s@, i as int, c),
        decreases n - i,
    {
        if s.get_char(i) == c {
            return i;
        }
        i = i + 1;
    }
    i
}

/// `pat` occurs in `s` starting at index `i`.
pub open spec fn match_at(s: Seq<char>, pat: Seq<char>, i: int) -> bool {
    0 <= i && i + pat.len() <= s.len() && s.subrange(i, i + pat.len()) == pat
}

/// Index of the first occurrence of `pat` in `s` at or after `from`;
/// `s.len()` when there is none (unambiguous for non-empty `pat`).
pub open spec fn first_match_from(s: Seq<char>, pat: Seq<char>, from: int) -> int
    decreases s.len() - from,
{
    if from < 0 || from >= s.len() || from + pat.len() > s.len() {
        s.len() as int
    } else if match_at(s, pat, from) {
        from
    } else {
        first_match_from(s, pat, from + 1)
    }
}

/// Characterization of `first_match_from` for non-empty patterns.
pub proof fn lemma_first_match_from(s: Seq<char>, pat: Seq<char>, from: int)
    requires
        0 <= from <= s.len(),
        pat.len() >= 1,
    ensures
        from <= first_match_from(s, pat, from) <= s.len(),
        first_match_from(s, pat, from) < s.len() ==> match_at(s, pat, first_match_from(s, pat, from)),
        forall|i: int| from <= i < first_match_from(s, pat, from) ==> !match_at(s, pat, i),
    decreases s.len() - from,
{
    if from + pat.len() > s.len() {
        assert forall|i: int| from <= i < s.len() implies !match_at(s, pat, i) by {}
    } else if !match_at(s, pat, from) {
        lemma_first_match_from(s, pat, from + 1);
    }
}

/// If `pat` matches at `p` and nowhere earlier (at or after `from`), then
/// `p` is exactly what `first_match_from` returns.
pub proof fn lemma_first_match_is(s: Seq<char>, pat: Seq<char>, from: int, p: int)
    requires
        pat.len() >= 1,
        0 <= from <= p,
        match_at(s, pat, p),
        forall|i: int| from <= i < p ==> !match_at(s, pat, i),
    ensures
        first_match_from(s, pat, from) == p,
{
    lemma_first_match_from(s, pat, from);
    let r = first_match_from(s, pat, from);
    if r < p {
        assert(match_at(s, pat, r));
    } else if r > p {
        assert(!match_at(s, pat, p));
    }
}

/// Whether `pat` occurs in `s` starting exactly at index `at`.
pub fn match_prefix(s: &str, at: usize, pat: &str) -> (r: bool)
    requires
        at + pat@.len() <= s@.len(),
    ensures
        r == match_at(s@, pat@, at as int),
{
    let n = s.unicode_len();
    let m = pat.unicode_len();
    let mut k: usize = 0;
    while k < m
        invariant
            k <= m,
            m == pat@.len(),
            n == s@.len(),
            at + m <= n,
            forall|t: int| 0 <= t < k ==> s@[at + t] == pat@[t],
        decreases m - k,
    {
        if s.get_char(at + k) != pat.get_char(k) {
            proof {
                assert(s@.subrange(at as int, at + m)[k as int] == s@[at + k]);
            }
            return false;
        }
        k = k + 1;
    }
    proof {
        assert(s@.subrange(at as int, at + m) =~= pat@);
    }
    true
}

/// First index at or after `from` where `pat` occurs in `s`, or the
/// character length of `s` when it does not occur.
pub fn find_sub(s: &str, pat: &str, from: usize) -> (r: usize)
    requires
        pat@.len() >= 1,
        from <= s@.len(),
    ensures
        r == first_match_from(s@, pat@, from as int),
{
    let n = s.unicode_len();
    let m = pat.unicode_len();
    if m > n {
        return n;
    }
    if from > n - m {
        return n;
    }
    let mut i = from;
    while i <= n - m
        invariant
            from <= i,
            i <= n - m + 1,
            1 <= m <= n,
            m == pat@.len(),
            n == s@.len(),
            first_match_from(s@, pat@, from as int) == first_match_from(s@, pat@, i as int),
        decreases n - i,
    {
        if match_prefix(s, i, pat) {
            return i;
        }
        i = i + 1;
    }
    n
}

/// `s` with every non-overlapping occurrence of `pat` (leftmost first)
/// replaced by `rep`, as `str::replace` does.
pub open spec fn spec_replace(s: Seq<char>, pat: Seq<char>, rep: Seq<char>) -> Seq<char>
    decreases s.len(),
{
    if pat.len() == 0 || pat.len() > s.len() {
        s
    } else if match_at(s, pat, 0) {
        rep + spec_replace(s.skip(pat.len() as int), pat, rep)
    } else {
        s.take(1) + spec_replace(s.skip(1), pat, rep)
    }
}

/// A match of `pat` inside `s` at `i` is a match at the front of `s.skip(i)`.
pub proof fn lemma_match_at_skip(s: Seq<char>, pat: Seq<char>, i: int)
    requires
        0 <= i <= s.len(),
    ensures
        match_at(s, pat, i) <==> match_at(s.skip(i), pat, 0),
{
    if i + pat.len() <= s.len() {
        assert(s.skip(i).subrange(0, pat.len() as int) =~= s.subrange(i, i + pat.len()));
    }
}

/// Replacement steps over a single unmatched character.
pub proof fn lemma_replace_step_char(s: Seq<char>, pat: Seq<char>, rep: Seq<char>, i: int)
    requires
        pat.len() >= 1,
        0 <= i < s.len(),
        !match_at(s, pat, i),
    ensures
        spec_replace(s.skip(i), pat, rep) == seq![s[i]] + spec_replace(s.skip(i + 1), pat, rep),
{
    let t = s.skip(i);
    assert(t.skip(1) =~= s.skip(i + 1));
    assert(t.take(1) =~= seq![s[i]]);
    lemma_match_at_skip(s, pat, i);
    if pat.len() > t.len() {
        assert(spec_replace(t, pat, rep) == t);
        assert(pat.len() > s.skip(i + 1).len());
        assert(t =~= seq![s[i]] + s.skip(i + 1));
    }
}

/// Replacement steps over a match: the match becomes `rep` and scanning
/// resumes after it.
pub proof fn lemma_replace_step_match(s: Seq<char>, pat: Seq<char>, rep: Seq<char>, i: int)
    requires
        pat.len() >= 1,
        0 <= i <= s.len(),
        match_at(s, pat, i),
    ensures
        spec_replace(s.skip(i), pat, rep) == rep + spec_replace(s.skip(i + pat.len()), pat, rep),
{
    let t = s.skip(i);
    lemma_match_at_skip(s, pat, i);
    assert(t.skip(pat.len() as int) =~= s.skip(i + pat.len()));
}

/// `s` with every occurrence of `pat` replaced by `rep`, scanning from the
/// left, as `str::replace` does.
pub fn replace_all(s: &str, pat: &str, rep: &str) -> (r: String)
    requires
        pat@.len() >= 1,
    ensures
        r@ == spec_replace(s@, pat@, rep@),
{
    let n = s.unicode_len();
    let m = pat.unicode_len();
    let mut out = String::new();
    let mut i: usize = 0;
    proof {
        assert(s@.skip(0) =~= s@);
    }
    while i < n
        invariant
            i <= n,
            n == s@.len(),
            m == pat@.len(),
            m >= 1,
            out@ + spec_replace(s@.skip(i as int), pat@, rep@) == spec_replace(s@, pat@, rep@),
        decreases n - i,
    {
        if m <= n - i && match_prefix(s, i, pat) {
            out.append(rep);
            proof {
                lemma_replace_step_match(s@, pat@, rep@, i as int);
            }
            i = i + m;
        } else {
            let piece = s.substring_char(i, i + 1);
            out.append(piece);
            proof {
                assert(!match_at(s@, pat@, i as int));
                lemma_replace_step_char(s@, pat@, rep@, i as int);
                assert(piece@ =~= seq![s@[i as int]]);
            }
            i = i + 1;
        }
    }
    proof {
        assert(s@.skip(n as int) =~= Seq::<char>::empty());
        assert(spec_replace(Seq::<char>::empty(), pat@, rep@) == Seq::<char>::empty());
        assert(out@ =~= out@ + Seq::<char>::empty());
    }
    out
}

/// How many times `c` occurs in `s`.
pub open spec fn count_char(s: Seq<char>, c: char) -> int
    decreases s.len(),
{
    if s.len() == 0 {
        0
    } else {
        (if s[0] == c {
            1int
        } else {
            0int
        }) + count_char(s.skip(1), c)
    }
}

/// Occurrences add up over concatenation.
pub proof fn lemma_count_char_concat(x: Seq<char>, y: Seq<char>, c: char)
    ensures
        count_char(x + y, c) == count_char(x, c) + count_char(y, c),
    decreases x.len(),
{
    if x.len() == 0 {
        assert(x + y =~= y);
    } else {
        assert((x + y)[0] == x[0]);
        assert((x + y).skip(1) =~= x.skip(1) + y);
        lemma_count_char_concat(x.skip(1), y, c);
    }
}

/// A sequence without `c` counts zero occurrences.
pub proof fn lemma_count_char_none(s: Seq<char>, c: char)
    requires
        forall|i: int| 0 <= i < s.len() ==> s[i] != c,
    ensures
        count_char(s, c) == 0,
    decreases s.len(),
{
    if s.len() > 0 {
        lemma_count_char_none(s.skip(1), c);
    }
}

/// A sequence whose only occurrence of `c` is at `p` counts exactly one.
pub proof fn lemma_count_char_one(s: Seq<char>, c: char, p: int)
    requires
        0 <= p < s.len(),
        s[p] == c,
        forall|i: int| 0 <= i < s.len() && i != p ==> s[i] != c,
    ensures
        count_char(s, c) == 1,
    decreases s.len(),
{
    if p == 0 {
        lemma_count_char_none(s.skip(1), c);
    } else {
        lemma_count_char_one(s.skip(1), c, p - 1);
    }
}

} // verus!
