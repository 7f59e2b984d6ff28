//! Searching text by characters.
//!
//! Text is modelled as `Seq<char>`, the view of `str` and `String`. A pattern
//! occurs at an index when the characters from that index on spell it out;
//! the first occurrence is the least such index.

use vstd::prelude::*;

verus! {

/// `pat` stands in `text` at index `i`.
pub open spec fn occurs_at(text: Seq<char>, pat: Seq<char>, i: int) -> bool {
    &&& 0 <= i
    &&& i + pat.len() <= text.len()
    &&& text.subrange(i, i + pat.len()) == pat
}

/// `text` starts with `pat`.
pub open spec fn begins_with(text: Seq<char>, pat: Seq<char>) -> bool {
    occurs_at(text, pat, 0)
}

/// `pat` stands in `text` at `i` and at no index before `i`.
pub open spec fn is_first_occurrence(text: Seq<char>, pat: Seq<char>, i: int) -> bool {
    &&& occurs_at(text, pat, i)
    &&& forall|j: int| 0 <= j < i ==> !occurs_at(text, pat, j)
}

/// The least index at which `pat` stands in `text`, if there is one.
pub open spec fn first_occurrence(text: Seq<char>, pat: Seq<char>) -> Option<int> {
    if exists|i: int| occurs_at(text, pat, i) {
        Some(choose|i: int| is_first_occurrence(text, pat, i))
    } else {
        None
    }
}

/// An index that is a first occurrence is the first occurrence.
pub proof fn lemma_first_occurrence_is(text: Seq<char>, pat: Seq<char>, i: int)
    requires
        is_first_occurrence(text, pat, i),
    ensures
        first_occurrence(text, pat) == Some(i),
{
    let k = choose|k: int| is_first_occurrence(text, pat, k);
    assert(is_first_occurrence(text, pat, k));
    if k < i {
        assert(!occurs_at(text, pat, k));
    }
    if i < k {
        assert(!occurs_at(text, pat, i));
    }
}

/// Where the pattern stands nowhere, there is no first occurrence.
pub proof fn lemma_first_occurrence_none(text: Seq<char>, pat: Seq<char>)
    requires
        forall|j: int| !occurs_at(text, pat, j),
    ensures
        first_occurrence(text, pat) is None,
{
}

/// What `first_occurrence` returns is a first occurrence, and `None` means
/// that the pattern stands nowhere.
pub proof fn lemma_first_occurrence_answers(text: Seq<char>, pat: Seq<char>)
    ensures
        match first_occurrence(text, pat) {
            Some(i) => is_first_occurrence(text, pat, i),
            None => forall|j: int| !occurs_at(text, pat, j),
        },
{
    if exists|i: int| occurs_at(text, pat, i) {
        let w = choose|i: int| occurs_at(text, pat, i);
        lemma_least_occurrence(text, pat, w);
    }
}

/// Below any occurrence there is a first one.
proof fn lemma_least_occurrence(text: Seq<char>, pat: Seq<char>, w: int)
    requires
        occurs_at(text, pat, w),
    ensures
        exists|i: int| is_first_occurrence(text, pat, i),
    decreases w,
{
    if forall|j: int| 0 <= j < w ==> !occurs_at(text, pat, j) {
        assert(is_first_occurrence(text, pat, w));
    } else {
        let j = choose|j: int| 0 <= j < w && occurs_at(text, pat, j);
        lemma_least_occurrence(text, pat, j);
    }
}

/// Dropping the first `n` characters shifts every occurrence by `n`.
pub proof fn lemma_occurs_at_skip(text: Seq<char>, pat: Seq<char>, n: int, i: int)
    requires
        0 <= n <= text.len(),
        0 <= i,
    ensures
        occurs_at(text.skip(n), pat, i) == occurs_at(text, pat, n + i),
{
    if i + pat.len() <= text.len() - n {
        assert(text.skip(n).subrange(i, i + pat.len()) =~= text.subrange(
            n + i,
            n + i + pat.len(),
        ));
    }
}

/// The characters of `s`, in order.
pub fn chars_of(s: &str) -> (chars: Vec<char>)
    ensures
        chars@ == s@,
{
    let mut chars: Vec<char> = Vec::new();
    for c in it: s.chars()
        invariant
            chars@ == it.seq().take(it.index()),
            it.seq() == s@,
    {
        chars.push(c);
    }
    chars
}

/// Tests whether `pat` stands in `text` at index `i`.
pub fn stands_at(text: &[char], pat: &[char], i: usize) -> (b: bool)
    ensures
        b == occurs_at(text@, pat@, i as int),
{
    if pat.len() > text.len() || i > text.len() - pat.len() {
        return false;
    }
    let mut k: usize = 0;
    while k < pat.len()
        invariant
            k <= pat.len(),
            i + pat.len() <= text.len(),
            forall|j: int| 0 <= j < k ==> text@[i + j] == pat@[j],
        decreases pat.len() - k,
    {
        if text[i + k] != pat[k] {
            assert(text@.subrange(i as int, i + pat.len())[k as int] != pat@[k as int]);
            return false;
        }
        k += 1;
    }
    assert(text@.subrange(i as int, i + pat.len()) =~= pat@);
    true
}

/// Tests whether `text` starts with `pat`.
pub fn starts_with(text: &[char], pat: &[char]) -> (b: bool)
    ensures
        b == begins_with(text@, pat@),
{
    stands_at(text, pat, 0)
}

/// Finds the first occurrence of `pat` in what follows the first `from`
/// characters of `text`, as an index into `text`. Past the end of `text`
/// nothing is found.
pub fn find_from(text: &[char], pat: &[char], from: usize) -> (found: Option<usize>)
    ensures
        from > text.len() ==> found is None,
        from <= text.len() ==> match found {
            Some(i) => from <= i && first_occurrence(text@.skip(from as int), pat@) == Some(
                i - from,
            ),
            None => first_occurrence(text@.skip(from as int), pat@) is None,
        },
{
    if from > text.len() {
        return None;
    }
    let ghost rest = text@.skip(from as int);
    if pat.len() > text.len() {
        proof {
            lemma_first_occurrence_none(rest, pat@);
        }
        return None;
    }
    let last: usize = text.len() - pat.len();
    let mut i: usize = from;
    while i < last
        invariant
            from <= i,
            last == text.len() - pat.len(),
            from <= text.len(),
            rest == text@.skip(from as int),
            forall|j: int| 0 <= j < i - from ==> !occurs_at(rest, pat@, j),
        decreases last - i,
    {
        proof {
            lemma_occurs_at_skip(text@, pat@, from as int, i - from);
        }
        if stands_at(text, pat, i) {
            proof {
                lemma_first_occurrence_is(rest, pat@, i - from);
            }
            return Some(i);
        }
        i += 1;
    }
    proof {
        lemma_occurs_at_skip(text@, pat@, from as int, i - from);
    }
    if i == last && stands_at(text, pat, i) {
        proof {
            lemma_first_occurrence_is(rest, pat@, i - from);
        }
        return Some(i);
    }
    proof {
        lemma_first_occurrence_none(rest, pat@);
    }
    None
}

} // verus!
