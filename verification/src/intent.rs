//! Reading the author's name out of a confirmation sentence.
//!
//! A confirmation reads `Looking up <target> by <author>.`: the lead, a
//! target that is not empty and ends where ` by ` first appears, then the
//! author, who is not empty and ends before the first full stop.

use vstd::prelude::*;
use crate::text::{
    begins_with, chars_of, find_from, first_occurrence, is_first_occurrence,
    lemma_first_occurrence_answers, lemma_first_occurrence_is, lemma_first_occurrence_none,
    occurs_at, starts_with,
};

verus! {

/// The words every confirmation starts with.
pub open spec fn lead() -> Seq<char> {
    "Looking up "@
}

/// What stands between the target and the author.
pub open spec fn separator() -> Seq<char> {
    " by "@
}

/// What ends the author's name.
pub open spec fn terminator() -> Seq<char> {
    "."@
}

/// The author that `text` names, or `None` where `text` is no confirmation.
pub open spec fn author_of(text: Seq<char>) -> Option<Seq<char>> {
    if !begins_with(text, lead()) {
        None
    } else {
        let rest = text.skip(lead().len() as int);
        match first_occurrence(rest, separator()) {
            None => None,
            Some(k) => if k == 0 {
                None
            } else {
                let tail = rest.skip(k + separator().len());
                match first_occurrence(tail, terminator()) {
                    None => None,
                    Some(m) => if m == 0 {
                        None
                    } else {
                        Some(tail.take(m))
                    },
                }
            },
        }
    }
}

/// The text held no author: the lead, the separator or the full stop was
/// missing, or the target or the author was empty.
#[derive(Clone, Copy, Debug, PartialEq, Eq, Structural)]
pub struct ParseFailure;

/// Reads the author out of a confirmation sentence.
pub fn author_get(input: &str) -> (res: Result<String, ParseFailure>)
    ensures
        match author_of(input@) {
            Some(author) => res matches Ok(name) && name@ == author,
            None => res is Err,
        },
{
    let text = chars_of(input);
    let opening = chars_of("Looking up ");
    let sep = chars_of(" by ");
    let term = chars_of(".");
    if !starts_with(text.as_slice(), opening.as_slice()) {
        return Err(ParseFailure);
    }
    let start = opening.len();
    let ghost rest = text@.skip(start as int);
    let at = match find_from(text.as_slice(), sep.as_slice(), start) {
        Some(at) => at,
        None => {
            return Err(ParseFailure);
        },
    };
    if at == start {
        return Err(ParseFailure);
    }
    proof {
        lemma_first_occurrence_answers(rest, sep@);
    }
    let from = at + sep.len();
    let ghost tail = rest.skip(at - start + sep@.len());
    assert(tail =~= text@.skip(from as int));
    let end = match find_from(text.as_slice(), term.as_slice(), from) {
        Some(end) => end,
        None => {
            return Err(ParseFailure);
        },
    };
    if end == from {
        return Err(ParseFailure);
    }
    proof {
        lemma_first_occurrence_answers(tail, term@);
    }
    assert(tail.take(end - from) =~= input@.subrange(from as int, end as int));
    Ok(input.substring_char(from, end).to_owned())
}

/// A target and an author that a confirmation can carry: neither is empty,
/// the separator first appears right behind the target, and the author
/// holds no full stop.
pub open spec fn well_formed(target: Seq<char>, author: Seq<char>) -> bool {
    &&& target.len() > 0
    &&& is_first_occurrence(target + separator(), separator(), target.len() as int)
    &&& author.len() > 0
    &&& !author.contains('.')
}

/// Text that nowhere holds the lead names no author.
pub proof fn lemma_no_lead_no_author(text: Seq<char>)
    requires
        forall|i: int| !occurs_at(text, lead(), i),
    ensures
        author_of(text) is None,
{
}

/// In what starts with a well-formed target and the separator, the
/// separator first appears right behind the target.
proof fn lemma_separator_behind_target(target: Seq<char>, author: Seq<char>, rest: Seq<char>)
    requires
        well_formed(target, author),
        (target + separator()).is_prefix_of(rest),
    ensures
        first_occurrence(rest, separator()) == Some(target.len() as int),
{
    reveal_strlit(" by ");
    let sep = separator();
    let head = target + sep;
    let n = target.len() as int;
    assert(rest.subrange(n, n + sep.len()) =~= head.subrange(n, n + sep.len()));
    assert forall|j: int| 0 <= j < n implies !occurs_at(rest, sep, j) by {
        assert(rest.subrange(j, j + sep.len()) =~= head.subrange(j, j + sep.len()));
        assert(!occurs_at(head, sep, j));
    }
    lemma_first_occurrence_is(rest, sep, n);
}

/// A sentence made of a well-formed target and author names that author,
/// whatever follows its full stop.
pub proof fn lemma_confirmation_names_author_before(
    target: Seq<char>,
    author: Seq<char>,
    trailing: Seq<char>,
)
    requires
        well_formed(target, author),
    ensures
        author_of(lead() + target + separator() + author + terminator() + trailing) == Some(
            author,
        ),
{
    reveal_strlit(".");
    let text = lead() + target + separator() + author + terminator() + trailing;
    let rest = text.skip(lead().len() as int);
    assert(text.subrange(0, lead().len() as int) =~= lead());
    assert(rest =~= target + separator() + author + terminator() + trailing);
    lemma_separator_behind_target(target, author, rest);
    let tail = rest.skip((target.len() + separator().len()) as int);
    assert(tail =~= author + terminator() + trailing);
    let m = author.len() as int;
    assert(tail.subrange(m, m + 1) =~= terminator());
    assert forall|j: int| 0 <= j < m implies !occurs_at(tail, terminator(), j) by {
        assert(author.contains(author[j]));
        assert(tail.subrange(j, j + 1)[0] == author[j]);
    }
    lemma_first_occurrence_is(tail, terminator(), m);
    assert(tail.take(m) =~= author);
}

/// The sentence made of a well-formed target and author names that author.
pub proof fn lemma_confirmation_names_author(target: Seq<char>, author: Seq<char>)
    requires
        well_formed(target, author),
    ensures
        author_of(lead() + target + separator() + author + terminator()) == Some(author),
{
    let text = lead() + target + separator() + author + terminator();
    assert(text + Seq::<char>::empty() =~= text);
    lemma_confirmation_names_author_before(target, author, Seq::empty());
}

/// Text that names an author is a sentence made of a well-formed target and
/// that author, followed by anything.
pub proof fn lemma_named_author_was_written(text: Seq<char>)
    requires
        author_of(text) is Some,
    ensures
        exists|target: Seq<char>, trailing: Seq<char>|
            well_formed(target, author_of(text)->0) && text == lead() + target + separator()
                + author_of(text)->0 + terminator() + trailing,
{
    reveal_strlit(" by ");
    reveal_strlit(".");
    let author = author_of(text)->0;
    let rest = text.skip(lead().len() as int);
    lemma_first_occurrence_answers(rest, separator());
    let k = first_occurrence(rest, separator())->0;
    let tail = rest.skip(k + separator().len());
    lemma_first_occurrence_answers(tail, terminator());
    let m = first_occurrence(tail, terminator())->0;
    let target = rest.take(k);
    let trailing = tail.skip(m + 1);
    let head = target + separator();
    assert(head.subrange(k, k + separator().len()) =~= separator());
    assert forall|j: int| 0 <= j < k implies !occurs_at(head, separator(), j) by {
        assert(head.subrange(j, j + separator().len()) =~= rest.subrange(
            j,
            j + separator().len(),
        ));
        assert(!occurs_at(rest, separator(), j));
    }
    assert(!author.contains('.')) by {
        if author.contains('.') {
            let j = choose|j: int| 0 <= j < author.len() && author[j] == '.';
            assert(tail.subrange(j, j + 1) =~= terminator());
            assert(occurs_at(tail, terminator(), j));
        }
    }
    assert(well_formed(target, author));
    assert(text =~= lead() + target + separator() + author + terminator() + trailing);
}

/// The same sentence without its full stop names no author.
pub proof fn lemma_unterminated_names_none(target: Seq<char>, author: Seq<char>)
    requires
        well_formed(target, author),
    ensures
        author_of(lead() + target + separator() + author) is None,
{
    reveal_strlit(".");
    let text = lead() + target + separator() + author;
    let rest = text.skip(lead().len() as int);
    assert(text.subrange(0, lead().len() as int) =~= lead());
    assert(rest =~= target + separator() + author);
    lemma_separator_behind_target(target, author, rest);
    let tail = rest.skip((target.len() + separator().len()) as int);
    assert(tail =~= author);
    assert forall|j: int| !occurs_at(tail, terminator(), j) by {
        if 0 <= j && j + 1 <= tail.len() {
            assert(author.contains(author[j]));
            assert(tail.subrange(j, j + 1)[0] == author[j]);
        }
    }
    lemma_first_occurrence_none(tail, terminator());
}

} // verus!
