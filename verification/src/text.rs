//! Character-level text helpers shared by the pool and peer modules.
use vstd::prelude::*;

verus! {

/// `pat` occurs as a contiguous run of characters in `text` (the empty
/// pattern occurs in every text).
pub open spec fn occurs_in(pat: Seq<char>, text: Seq<char>) -> bool {
    exists|i: int|
        0 <= i && i + pat.len() <= text.len() && #[trigger] text.subrange(i, i + pat.len()) == pat
}

/// The position of the last occurrence of `c` in `s`, or -1 if there is none.
pub open spec fn last_index_of(s: Seq<char>, c: char) -> int
    decreases s.len(),
{
    if s.len() == 0 {
        -1
    } else if s.last() == c {
        s.len() - 1
    } else {
        last_index_of(s.drop_last(), c)
    }
}

/// `last_index_of` is the position of the last `c`: it holds a `c`, nothing
/// after it does, and it is -1 exactly when `s` holds no `c`.
pub proof fn lemma_last_index_of(s: Seq<char>, c: char)
    ensures
        -1 <= last_index_of(s, c) < s.len(),
        last_index_of(s, c) >= 0 ==> s[last_index_of(s, c)] == c,
        forall|j: int| last_index_of(s, c) < j < s.len() ==> s[j] != c,
        last_index_of(s, c) >= 0 <==> s.contains(c),
    decreases s.len(),
{
    if s.len() > 0 {
        if s.last() == c {
            assert(s[s.len() - 1] == c);
        } else {
            let t = s.drop_last();
            lemma_last_index_of(t, c);
            assert forall|j: int| last_index_of(s, c) < j < s.len() implies s[j] != c by {
                if j < s.len() - 1 {
                    assert(s[j] == t[j]);
                }
            }
            if s.contains(c) {
                let j = choose|j: int| 0 <= j < s.len() && s[j] == c;
                assert(t[j] == c);
            }
            if t.contains(c) {
                let j = choose|j: int| 0 <= j < t.len() && t[j] == c;
                assert(s[j] == c);
            }
        }
    }
}

/// A position that holds `c`, with no `c` after it, is the last occurrence.
pub proof fn lemma_last_index_at(s: Seq<char>, c: char, k: int)
    requires
        0 <= k < s.len(),
        s[k] == c,
        forall|j: int| k < j < s.len() ==> s[j] != c,
    ensures
        last_index_of(s, c) == k,
{
    lemma_last_index_of(s, c);
}

/// The position of the last `c` among the first `end` characters of `v`.
pub fn find_last(v: &Vec<char>, c: char, end: usize) -> (r: Option<usize>)
    requires
        end <= v@.len(),
    ensures
        match r {
            Some(i) => i == last_index_of(v@.subrange(0, end as int), c),
            None => last_index_of(v@.subrange(0, end as int), c) == -1,
        },
{
    let ghost s = v@.subrange(0, end as int);
    proof {
        lemma_last_index_of(s, c);
    }
    let mut i = end;
    while i > 0
        invariant
            i <= end <= v@.len(),
            s == v@.subrange(0, end as int),
            -1 <= last_index_of(s, c) < s.len(),
            last_index_of(s, c) >= 0 ==> s[last_index_of(s, c)] == c,
            forall|j: int| last_index_of(s, c) < j < s.len() ==> s[j] != c,
            forall|j: int| i <= j < end ==> v@[j] != c,
        decreases i,
    {
        if v[i - 1] == c {
            assert(s[i - 1] == c);
            return Some(i - 1);
        }
        i = i - 1;
    }
    None
}

/// The characters of a string, one per element.
pub fn chars_of(s: &str) -> (v: Vec<char>)
    ensures
        v@ == s@,
{
    let n = s.unicode_len();
    let mut v: Vec<char> = Vec::new();
    let mut i: usize = 0;
    while i < n
        invariant
            n == s@.len(),
            i <= n,
            v@ == s@.subrange(0, i as int),
        decreases n - i,
    {
        v.push(s.get_char(i));
        i = i + 1;
        assert(v@ =~= s@.subrange(0, i as int));
    }
    assert(s@.subrange(0, n as int) =~= s@);
    v
}

/// Whether `pat` occurs in `text` starting at position `i`.
pub fn matches_at(text: &Vec<char>, pat: &Vec<char>, i: usize) -> (b: bool)
    requires
        i + pat@.len() <= text@.len(),
    ensures
        b == (text@.subrange(i as int, i + pat@.len()) == pat@),
{
    let text_len = text.len();
    let mut j: usize = 0;
    while j < pat.len()
        invariant
            i + pat@.len() <= text@.len(),
            text_len == text@.len(),
            j <= pat@.len(),
            forall|m: int| 0 <= m < j ==> text@[i + m] == pat@[m],
        decreases pat@.len() - j,
    {
        if text[i + j] != pat[j] {
            assert(text@.subrange(i as int, i + pat@.len())[j as int] != pat@[j as int]);
            return false;
        }
        j = j + 1;
    }
    assert(text@.subrange(i as int, i + pat@.len()) =~= pat@);
    true
}

/// Whether `pat` occurs anywhere in `text`.
pub fn occurs(text: &Vec<char>, pat: &Vec<char>) -> (b: bool)
    ensures
        b == occurs_in(pat@, text@),
{
    if pat.len() == 0 {
        assert(text@.subrange(0, 0 + pat@.len() as int) =~= pat@);
        return true;
    }
    if pat.len() > text.len() {
        return false;
    }
    let last = text.len() - pat.len();
    let mut i: usize = 0;
    while i <= last
        invariant
            pat@.len() >= 1,
            pat@.len() <= text@.len(),
            text@.len() <= usize::MAX,
            last == text@.len() - pat@.len(),
            i <= last + 1,
            forall|j: int| 0 <= j < i ==> #[trigger] text@.subrange(j, j + pat@.len()) != pat@,
        decreases last + 1 - i,
    {
        if matches_at(text, pat, i) {
            return true;
        }
        i = i + 1;
    }
    false
}

} // verus!
