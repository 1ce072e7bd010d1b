//! Mathematical models of the strings and lists of strings that the engine
//! works on.

use vstd::prelude::*;

verus! {

/// The character sequences of a list of strings, in the same order.
pub open spec fn texts(list: Seq<String>) -> Seq<Seq<char>> {
    list.map_values(|s: String| s@)
}

/// The names of `list`, in their order, that differ from `name`.
pub open spec fn without(list: Seq<Seq<char>>, name: Seq<char>) -> Seq<Seq<char>> {
    list.filter(|other: Seq<char>| other != name)
}

/// `needle` occurs in `hay` as a run of neighbouring characters.
pub open spec fn is_substring(needle: Seq<char>, hay: Seq<char>) -> bool {
    exists|start: int|
        0 <= start && start + needle.len() <= hay.len() && #[trigger] hay.subrange(
            start,
            start + needle.len(),
        ) == needle
}

/// Whether `needle` occurs in `hay`; this is `str::contains` with a string
/// pattern, which std documents as true exactly when the pattern matches a
/// sub-slice of the string.
#[verifier::external_body]
pub(crate) fn contains_text(hay: &str, needle: &str) -> (found: bool)
    ensures
        found == is_substring(needle@, hay@),
{
    hay.contains(needle)
}

/// Whether two strings hold the same characters; this is `==` on `str`.
#[verifier::external_body]
pub(crate) fn same_text(a: &str, b: &str) -> (same: bool)
    ensures
        same == (a@ == b@),
{
    a == b
}

/// `String::push` appends one character.
pub assume_specification[ String::push ](text: &mut String, c: char)
    ensures
        final(text)@ == old(text)@.push(c),
;

/// `String::pop` takes the last character off and returns it; an empty string
/// stays empty and gives `None`.
pub assume_specification[ String::pop ](text: &mut String) -> (last: Option<char>)
    ensures
        old(text)@.len() == 0 ==> last is None && final(text)@ == old(text)@,
        old(text)@.len() > 0 ==> last == Some(old(text)@.last()) && final(text)@ == old(
            text,
        )@.drop_last(),
;

/// Whether `name` is one of `list`.
pub fn contains_name(list: &Vec<String>, name: &str) -> (found: bool)
    ensures
        found == texts(list@).contains(name@),
{
    let mut i: usize = 0;
    while i < list.len()
        invariant
            i <= list@.len(),
            forall|k: int| 0 <= k < i ==> texts(list@)[k] != name@,
        decreases list@.len() - i,
    {
        if same_text(list[i].as_str(), name) {
            assert(texts(list@)[i as int] == name@);
            return true;
        }
        i += 1;
    }
    false
}

/// The strings of `list`, in their order, that contain `query`.
pub fn containing(list: &Vec<String>, query: &str) -> (found: Vec<String>)
    ensures
        texts(found@) == texts(list@).filter(|name: Seq<char>| is_substring(query@, name)),
{
    let ghost keep = |name: Seq<char>| is_substring(query@, name);
    let mut found: Vec<String> = Vec::new();
    let mut i: usize = 0;
    proof {
        lemma_filter_empty(keep);
        assert(texts(list@).subrange(0, 0) =~= Seq::<Seq<char>>::empty());
        assert(texts(found@) =~= Seq::<Seq<char>>::empty());
    }
    while i < list.len()
        invariant
            i <= list@.len(),
            keep == |name: Seq<char>| is_substring(query@, name),
            texts(found@) == texts(list@).subrange(0, i as int).filter(keep),
        decreases list@.len() - i,
    {
        let ghost before = texts(found@);
        proof {
            lemma_filter_push(texts(list@).subrange(0, i as int), texts(list@)[i as int], keep);
            assert(texts(list@).subrange(0, i + 1) =~= texts(list@).subrange(0, i as int).push(
                texts(list@)[i as int],
            ));
        }
        if contains_text(list[i].as_str(), query) {
            found.push(list[i].clone());
            assert(texts(found@) =~= before.push(texts(list@)[i as int]));
        }
        i += 1;
    }
    assert(texts(list@).subrange(0, i as int) =~= texts(list@));
    found
}

/// The strings of `list`, in their order, that differ from `name`.
pub fn without_name(list: &Vec<String>, name: &str) -> (left: Vec<String>)
    ensures
        texts(left@) == without(texts(list@), name@),
{
    let ghost keep = |other: Seq<char>| other != name@;
    let mut left: Vec<String> = Vec::new();
    let mut i: usize = 0;
    proof {
        lemma_filter_empty(keep);
        assert(texts(list@).subrange(0, 0) =~= Seq::<Seq<char>>::empty());
        assert(texts(left@) =~= Seq::<Seq<char>>::empty());
    }
    while i < list.len()
        invariant
            i <= list@.len(),
            keep == |other: Seq<char>| other != name@,
            texts(left@) == texts(list@).subrange(0, i as int).filter(keep),
        decreases list@.len() - i,
    {
        let ghost before = texts(left@);
        proof {
            lemma_filter_push(texts(list@).subrange(0, i as int), texts(list@)[i as int], keep);
            assert(texts(list@).subrange(0, i + 1) =~= texts(list@).subrange(0, i as int).push(
                texts(list@)[i as int],
            ));
        }
        if !same_text(list[i].as_str(), name) {
            left.push(list[i].clone());
            assert(texts(left@) =~= before.push(texts(list@)[i as int]));
        }
        i += 1;
    }
    assert(texts(list@).subrange(0, i as int) =~= texts(list@));
    left
}

/// Filtering an empty sequence leaves it empty.
pub proof fn lemma_filter_empty<A>(keep: spec_fn(A) -> bool)
    ensures
        Seq::<A>::empty().filter(keep) == Seq::<A>::empty(),
{
    reveal(Seq::filter);
}

/// Filtering a sequence with one more item at its end keeps that item after
/// the others if it passes, and drops it if not.
pub proof fn lemma_filter_push<A>(s: Seq<A>, last: A, keep: spec_fn(A) -> bool)
    ensures
        s.push(last).filter(keep) == if keep(last) {
            s.filter(keep).push(last)
        } else {
            s.filter(keep)
        },
{
    reveal(Seq::filter);
    assert(s.push(last).drop_last() =~= s);
}

/// The empty string occurs in every string.
pub proof fn lemma_empty_is_substring(hay: Seq<char>)
    ensures
        is_substring(Seq::<char>::empty(), hay),
{
    let needle = Seq::<char>::empty();
    assert(hay.subrange(0int, 0int + needle.len()) =~= needle);
}

} // verus!
