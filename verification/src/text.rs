//! Character-level text operations with their specifications: taking a
//! string apart into its characters, and finding the first occurrence of a
//! pattern.

use vstd::prelude::*;

verus! {

/// The characters of `s`, in order.
pub fn chars_of(s: &str) -> (chars: Vec<char>)
    ensures
        chars@ == s@,
{
    let mut chars: Vec<char> = Vec::new();
    for c in it: s.chars()
        invariant
            it.seq() == s@,
            chars@ == it.seq().take(it.index() as int),
    {
        chars.push(c);
    }
    chars
}


/// `pattern` stands in `s` at index `i`.
pub open spec fn occurs_at(s: Seq<char>, pattern: Seq<char>, i: int) -> bool {
    &&& 0 <= i
    &&& i + pattern.len() <= s.len()
    &&& s.subrange(i, i + pattern.len()) == pattern
}

/// `pattern` stands somewhere in `s`.
pub open spec fn contains(s: Seq<char>, pattern: Seq<char>) -> bool {
    exists|i: int| occurs_at(s, pattern, i)
}

/// The first index at or after `from` at which `pattern` stands in `s`,
/// if there is one.
pub open spec fn find_from(s: Seq<char>, pattern: Seq<char>, from: int) -> Option<int>
    decreases s.len() + 1 - from,
{
    if from < 0 || from + pattern.len() > s.len() {
        None
    } else if s.subrange(from, from + pattern.len()) == pattern {
        Some(from)
    } else {
        find_from(s, pattern, from + 1)
    }
}

/// What `find_from` finds is the first occurrence at or after `from`, and
/// it finds nothing exactly when there is no occurrence there.
pub proof fn lemma_find_from_is_first(s: Seq<char>, pattern: Seq<char>, from: int)
    requires
        0 <= from,
    ensures
        find_from(s, pattern, from) matches Some(i) ==> {
            &&& from <= i
            &&& occurs_at(s, pattern, i)
            &&& forall|j: int| from <= j < i ==> !occurs_at(s, pattern, j)
        },
        find_from(s, pattern, from) is None ==> forall|j: int|
            from <= j ==> !occurs_at(s, pattern, j),
    decreases s.len() + 1 - from,
{
    if from + pattern.len() > s.len() {
    } else if s.subrange(from, from + pattern.len()) == pattern {
    } else {
        lemma_find_from_is_first(s, pattern, from + 1);
    }
}

/// A pattern is contained in `s` exactly when a search from the start finds it.
pub proof fn lemma_contains_iff_found(s: Seq<char>, pattern: Seq<char>)
    ensures
        contains(s, pattern) <==> find_from(s, pattern, 0) is Some,
{
    lemma_find_from_is_first(s, pattern, 0);
    if let Some(i) = find_from(s, pattern, 0) {
        assert(occurs_at(s, pattern, i));
    }
}

/// Whether `pattern` stands in `s` at index `i`.
fn matches_at(s: &Vec<char>, pattern: &Vec<char>, i: usize) -> (r: bool)
    requires
        i + pattern@.len() <= s@.len(),
    ensures
        r == (s@.subrange(i as int, i + pattern@.len()) == pattern@),
{
    let mut k: usize = 0;
    while k < pattern.len()
        invariant
            k <= pattern@.len(),
            i + pattern@.len() <= s@.len(),
            forall|j: int| 0 <= j < k ==> s@[i + j] == pattern@[j],
        decreases pattern@.len() - k,
    {
        assert(i + k < s.len());
        if s[i + k] != pattern[k] {
            assert(s@.subrange(i as int, i + pattern@.len())[k as int] != pattern@[k as int]);
            return false;
        }
        k = k + 1;
    }
    assert(s@.subrange(i as int, i + pattern@.len()) =~= pattern@);
    true
}

/// The first index at or after `from` at which `pattern` stands in `s`.
pub fn find_chars(s: &Vec<char>, pattern: &Vec<char>, from: usize) -> (r: Option<usize>)
    ensures
        r matches Some(i) ==> find_from(s@, pattern@, from as int) == Some(i as int),
        r is None ==> find_from(s@, pattern@, from as int) is None,
{
    if pattern.len() > s.len() {
        return None;
    }
    let last: usize = s.len() - pattern.len();
    let mut i: usize = from;
    while i <= last
        invariant
            from <= i,
            last + pattern@.len() == s@.len(),
            find_from(s@, pattern@, from as int) == find_from(s@, pattern@, i as int),
        decreases last + 1 - i,
    {
        if matches_at(s, pattern, i) {
            return Some(i);
        }
        if i == last {
            assert(find_from(s@, pattern@, i + 1) is None);
            return None;
        }
        i = i + 1;
    }
    None
}

/// Whether `pattern` stands somewhere in `s`.
pub fn contains_chars(s: &Vec<char>, pattern: &Vec<char>) -> (r: bool)
    ensures
        r == contains(s@, pattern@),
{
    proof {
        lemma_contains_iff_found(s@, pattern@);
    }
    find_chars(s, pattern, 0).is_some()
}

} // verus!
