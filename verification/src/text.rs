//! Searching and cutting text, seen as a sequence of characters.

use vstd::prelude::*;
use vstd::string::*;

verus! {

/// `pattern` stands in `text`, starting at index `at`.
pub open spec fn occurs_at(text: Seq<char>, pattern: Seq<char>, at: int) -> bool {
    &&& 0 <= at
    &&& at + pattern.len() <= text.len()
    &&& text.subrange(at, at + pattern.len()) == pattern
}

/// `at` is the leftmost place at or after `from` where `pattern` stands in `text`.
pub open spec fn first_from(text: Seq<char>, pattern: Seq<char>, from: int, at: int) -> bool {
    &&& from <= at
    &&& occurs_at(text, pattern, at)
    &&& forall|j: int| from <= j < at ==> !occurs_at(text, pattern, j)
}

/// The leftmost place at or after `from` where `pattern` stands in `text`, if there is one.
pub open spec fn find_from(text: Seq<char>, pattern: Seq<char>, from: int) -> Option<int> {
    if exists|at: int| first_from(text, pattern, from, at) {
        Some(choose|at: int| first_from(text, pattern, from, at))
    } else {
        None
    }
}

/// The leftmost place where `pattern` stands in `text`, if there is one.
pub open spec fn find(text: Seq<char>, pattern: Seq<char>) -> Option<int> {
    find_from(text, pattern, 0)
}

/// `pattern` stands somewhere in `text`.
pub open spec fn contains(text: Seq<char>, pattern: Seq<char>) -> bool {
    exists|at: int| occurs_at(text, pattern, at)
}

/// `text` begins with `pattern`.
pub open spec fn starts_with(text: Seq<char>, pattern: Seq<char>) -> bool {
    occurs_at(text, pattern, 0)
}

/// A leftmost occurrence is unique, so `find_from` is that place.
pub proof fn lemma_first_is_found(text: Seq<char>, pattern: Seq<char>, from: int, at: int)
    requires
        first_from(text, pattern, from, at),
    ensures
        find_from(text, pattern, from) == Some(at),
{
    let found = choose|k: int| first_from(text, pattern, from, k);
    assert(first_from(text, pattern, from, found));
    if found < at {
        assert(!occurs_at(text, pattern, found));
    }
    if at < found {
        assert(!occurs_at(text, pattern, at));
    }
}

/// Where nothing occurs at or after `from`, `find_from` finds nothing.
pub proof fn lemma_none_is_found(text: Seq<char>, pattern: Seq<char>, from: int)
    requires
        forall|j: int| from <= j ==> !occurs_at(text, pattern, j),
    ensures
        find_from(text, pattern, from) is None,
{
    if exists|at: int| first_from(text, pattern, from, at) {
        let at = choose|at: int| first_from(text, pattern, from, at);
        assert(occurs_at(text, pattern, at));
    }
}

/// What `find_from` returns is a leftmost occurrence, and it returns one whenever
/// the pattern occurs at or after `from`.
pub proof fn lemma_find_from(text: Seq<char>, pattern: Seq<char>, from: int)
    ensures
        match find_from(text, pattern, from) {
            Some(at) => first_from(text, pattern, from, at),
            None => forall|j: int| from <= j ==> !occurs_at(text, pattern, j),
        },
{
    if find_from(text, pattern, from) is None {
        assert forall|j: int| from <= j implies !occurs_at(text, pattern, j) by {
            if occurs_at(text, pattern, j) {
                lemma_leftmost_exists(text, pattern, from, j);
            }
        }
    }
}

/// An occurrence at or after `from` has a leftmost one at or before it.
pub proof fn lemma_leftmost_exists(text: Seq<char>, pattern: Seq<char>, from: int, at: int)
    requires
        from <= at,
        occurs_at(text, pattern, at),
    ensures
        exists|k: int| k <= at && first_from(text, pattern, from, k),
    decreases at - from,
{
    if exists|j: int| from <= j < at && occurs_at(text, pattern, j) {
        let j = choose|j: int| from <= j < at && occurs_at(text, pattern, j);
        lemma_leftmost_exists(text, pattern, from, j);
        let k = choose|k: int| k <= j && first_from(text, pattern, from, k);
        assert(k <= at && first_from(text, pattern, from, k));
    } else {
        assert(first_from(text, pattern, from, at));
    }
}

/// `pattern` occurs in `text` exactly when `find` finds it.
pub proof fn lemma_contains_is_found(text: Seq<char>, pattern: Seq<char>)
    ensures
        contains(text, pattern) == (find(text, pattern) is Some),
{
    lemma_find_from(text, pattern, 0);
    if contains(text, pattern) {
        let at = choose|at: int| occurs_at(text, pattern, at);
        assert(occurs_at(text, pattern, at));
    }
    if find(text, pattern) is Some {
        assert(occurs_at(text, pattern, find(text, pattern).unwrap()));
    }
}

/// An occurrence inside the window `[lo, hi)` of `text` is an occurrence in `text`,
/// `lo` places further on, that ends at or before `hi`.
pub proof fn lemma_occurs_in_window(text: Seq<char>, pattern: Seq<char>, lo: int, hi: int, k: int)
    requires
        0 <= lo <= hi <= text.len(),
    ensures
        occurs_at(text.subrange(lo, hi), pattern, k) == (0 <= k && lo + k + pattern.len() <= hi
            && occurs_at(text, pattern, lo + k)),
{
    let window = text.subrange(lo, hi);
    if 0 <= k && lo + k + pattern.len() <= hi {
        assert(window.subrange(k, k + pattern.len()) =~= text.subrange(
            lo + k,
            lo + k + pattern.len(),
        ));
    }
}

/// The characters of `s`, in order.
pub(crate) fn chars_of(s: &str) -> (v: Vec<char>)
    ensures
        v@ == s@,
{
    let mut v: Vec<char> = Vec::new();
    for c in it: s.chars()
        invariant
            v@ == it.seq().take(it.index() as int),
            it.seq() == s@,
    {
        v.push(c);
    }
    v
}

/// The part of `s` from character `from` up to, not including, character `to`.
pub(crate) fn piece(s: &str, from: usize, to: usize) -> (r: String)
    requires
        from <= to <= s@.len(),
    ensures
        r@ == s@.subrange(from as int, to as int),
{
    s.substring_char(from, to).to_owned()
}

/// Whether the two sequences hold the same characters.
pub(crate) fn same_chars(a: &Vec<char>, b: &Vec<char>) -> (r: bool)
    ensures
        r == (a@ == b@),
{
    if a.len() != b.len() {
        return false;
    }
    let mut i: usize = 0;
    while i < a.len()
        invariant
            i <= a.len(),
            a.len() == b.len(),
            forall|j: int| 0 <= j < i ==> a@[j] == b@[j],
        decreases a.len() - i,
    {
        if a[i] != b[i] {
            return false;
        }
        i += 1;
    }
    assert(a@ =~= b@);
    true
}

/// Whether the two texts hold the same characters.
pub fn same_text(a: &str, b: &str) -> (r: bool)
    ensures
        r == (a@ == b@),
{
    let left = chars_of(a);
    let right = chars_of(b);
    same_chars(&left, &right)
}

/// Whether `pattern` stands in `text` at index `at`, ending at or before `hi`.
pub(crate) fn matches_at(text: &Vec<char>, pattern: &Vec<char>, at: usize, hi: usize) -> (r: bool)
    requires
        at <= hi <= text.len(),
    ensures
        r == (at + pattern.len() <= hi && occurs_at(text@, pattern@, at as int)),
{
    if hi - at < pattern.len() {
        return false;
    }
    let mut i: usize = 0;
    while i < pattern.len()
        invariant
            i <= pattern.len(),
            at + pattern.len() <= hi <= text.len(),
            forall|j: int| 0 <= j < i ==> text@[at + j] == pattern@[j],
        decreases pattern.len() - i,
    {
        if text[at + i] != pattern[i] {
            return false;
        }
        i += 1;
    }
    assert(text@.subrange(at as int, at + pattern.len()) =~= pattern@);
    true
}

/// The leftmost place where `pattern` stands inside the window `[lo, hi)` of `text`,
/// counted from the start of `text`.
pub(crate) fn find_in(text: &Vec<char>, pattern: &Vec<char>, lo: usize, hi: usize) -> (r: Option<usize>)
    requires
        lo <= hi <= text.len(),
    ensures
        match find(text@.subrange(lo as int, hi as int), pattern@) {
            Some(k) => r == Some((lo + k) as usize) && lo + k + pattern.len() <= hi,
            None => r is None,
        },
{
    let ghost window = text@.subrange(lo as int, hi as int);
    let mut i: usize = lo;
    while i < hi
        invariant
            lo <= i <= hi <= text.len(),
            window == text@.subrange(lo as int, hi as int),
            forall|k: int| 0 <= k < i - lo ==> !occurs_at(window, pattern@, k),
        decreases hi - i,
    {
        proof {
            lemma_occurs_in_window(text@, pattern@, lo as int, hi as int, i - lo);
        }
        if matches_at(text, pattern, i, hi) {
            proof {
                lemma_first_is_found(window, pattern@, 0, i - lo);
            }
            return Some(i);
        }
        i += 1;
    }
    proof {
        lemma_occurs_in_window(text@, pattern@, lo as int, hi as int, hi - lo);
    }
    if matches_at(text, pattern, hi, hi) {
        proof {
            lemma_first_is_found(window, pattern@, 0, hi - lo);
        }
        return Some(hi);
    }
    proof {
        assert forall|k: int| 0 <= k implies !occurs_at(window, pattern@, k) by {}
        lemma_none_is_found(window, pattern@, 0);
    }
    None
}

/// Whether `pattern` stands somewhere in `text`.
pub fn text_contains(text: &str, pattern: &str) -> (r: bool)
    ensures
        r == contains(text@, pattern@),
{
    let hay = chars_of(text);
    let needle = chars_of(pattern);
    let found = find_in(&hay, &needle, 0, hay.len());
    proof {
        assert(hay@.subrange(0, hay@.len() as int) =~= hay@);
        lemma_contains_is_found(text@, pattern@);
    }
    found.is_some()
}

/// Whether `text` begins with `pattern`.
pub fn text_starts_with(text: &str, pattern: &str) -> (r: bool)
    ensures
        r == starts_with(text@, pattern@),
{
    let hay = chars_of(text);
    let needle = chars_of(pattern);
    matches_at(&hay, &needle, 0, hay.len())
}

} // verus!
