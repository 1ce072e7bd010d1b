//! The branches marked for deletion.

use crate::text::{same_text, texts, without};
use vstd::prelude::*;

verus! {

/// The order that results from marking `name` in `order`: unchanged if the
/// name is already there, otherwise with the name at the end.
pub open spec fn marked_with(order: Seq<Seq<char>>, name: Seq<char>) -> Seq<Seq<char>> {
    if order.contains(name) {
        order
    } else {
        order.push(name)
    }
}

/// A set of branch names that remembers the order in which they were marked,
/// so that the marks are shown and deleted in one fixed order.
pub struct SelectedSet {
    names: Vec<String>,
}

impl View for SelectedSet {
    type V = Set<Seq<char>>;

    open spec fn view(&self) -> Set<Seq<char>> {
        self.order().to_set()
    }
}

impl SelectedSet {
    /// No name is marked twice.
    #[verifier::type_invariant]
    pub closed spec fn distinct(&self) -> bool {
        self.order().no_duplicates()
    }

    /// The marked names, oldest first.
    pub closed spec fn order(&self) -> Seq<Seq<char>> {
        texts(self.names@)
    }

    /// A set with nothing marked.
    pub fn new() -> (set: SelectedSet)
        ensures
            set.order() == Seq::<Seq<char>>::empty(),
            set@ == Set::<Seq<char>>::empty(),
    {
        let set = SelectedSet { names: Vec::new() };
        assert(set.order() =~= Seq::<Seq<char>>::empty());
        assert(set@ =~= Set::<Seq<char>>::empty());
        set
    }

    /// How many names are marked.
    pub fn len(&self) -> (n: usize)
        ensures
            n == self.order().len(),
            n == self@.len(),
            self.order().no_duplicates(),
    {
        proof {
            use_type_invariant(self);
            self.order().unique_seq_to_set();
        }
        self.names.len()
    }

    /// Whether nothing is marked.
    pub fn is_empty(&self) -> (empty: bool)
        ensures
            empty == (self.order().len() == 0),
            empty == (self@ == Set::<Seq<char>>::empty()),
    {
        proof {
            if self.order().len() == 0 {
                assert(self@ =~= Set::<Seq<char>>::empty());
            } else {
                assert(self@.contains(self.order()[0]));
            }
        }
        self.names.len() == 0
    }

    /// The marked names, oldest first.
    pub fn names(&self) -> (list: &Vec<String>)
        ensures
            texts(list@) == self.order(),
            self.order().no_duplicates(),
    {
        proof {
            use_type_invariant(self);
        }
        &self.names
    }

    /// Whether `name` is marked.
    pub fn contains(&self, name: &str) -> (found: bool)
        ensures
            found == self.order().contains(name@),
            found == self@.contains(name@),
    {
        let mut i: usize = 0;
        while i < self.names.len()
            invariant
                i <= self.names@.len(),
                forall|k: int| 0 <= k < i ==> texts(self.names@)[k] != name@,
            decreases self.names@.len() - i,
        {
            if same_text(self.names[i].as_str(), name) {
                assert(texts(self.names@)[i as int] == name@);
                return true;
            }
            i += 1;
        }
        false
    }

    /// Marks `name`. Says whether it was not marked before.
    pub fn insert(&mut self, name: String) -> (added: bool)
        ensures
            final(self).order() == marked_with(old(self).order(), name@),
            final(self)@ == old(self)@.insert(name@),
            added == !old(self)@.contains(name@),
    {
        proof {
            use_type_invariant(&*self);
        }
        if self.contains(name.as_str()) {
            assert(self@ =~= self@.insert(name@));
            false
        } else {
            let ghost before = self.order();
            let mut names: Vec<String> = Vec::new();
            std::mem::swap(&mut self.names, &mut names);
            names.push(name);
            assert(texts(names@) =~= before.push(name@));
            self.names = names;
            proof {
                before.lemma_push_to_set_commute(name@);
            }
            true
        }
    }

    /// Takes the mark off `name`. Says whether it was marked.
    pub fn remove(&mut self, name: &str) -> (removed: bool)
        ensures
            final(self).order() == without(old(self).order(), name@),
            final(self)@ == old(self)@.remove(name@),
            removed == old(self)@.contains(name@),
    {
        proof {
            use_type_invariant(&*self);
        }
        let mut i: usize = 0;
        while i < self.names.len()
            invariant
                i <= self.names@.len(),
                *self == *old(self),
                texts(self.names@).no_duplicates(),
                forall|k: int| 0 <= k < i ==> texts(self.names@)[k] != name@,
            decreases self.names@.len() - i,
        {
            if same_text(self.names[i].as_str(), name) {
                let ghost before = self.order();
                let mut names: Vec<String> = Vec::new();
                std::mem::swap(&mut self.names, &mut names);
                names.remove(i);
                proof {
                    assert(before[i as int] == name@);
                    assert(texts(names@) =~= before.remove(i as int));
                    lemma_without_at(before, i as int);
                    lemma_remove_distinct(before, i as int);
                }
                self.names = names;
                return true;
            }
            i += 1;
        }
        proof {
            lemma_without_absent(self.order(), name@);
            assert(self@ =~= self@.remove(name@));
        }
        false
    }
}

/// Marking a name that is marked already changes nothing: after the first
/// mark a second one leaves the order, the set and the number of marks as
/// they are.
pub proof fn lemma_marking_is_idempotent(order: Seq<Seq<char>>, name: Seq<char>)
    ensures
        marked_with(marked_with(order, name), name) == marked_with(order, name),
        marked_with(marked_with(order, name), name).to_set().len() == marked_with(
            order,
            name,
        ).to_set().len(),
        marked_with(order, name).contains(name),
        marked_with(order, name).to_set() == order.to_set().insert(name),
        order.to_set().insert(name).insert(name) == order.to_set().insert(name),
        order.no_duplicates() ==> marked_with(order, name).no_duplicates(),
{
    let once = marked_with(order, name);
    if order.contains(name) {
        assert(order.to_set() =~= order.to_set().insert(name));
    } else {
        assert(once[order.len() as int] == name);
        order.lemma_push_to_set_commute(name);
    }
    assert(order.to_set().insert(name).insert(name) =~= order.to_set().insert(name));
}

/// The marks in the middle of a run over the names `pending`: the names in
/// `kept`, which the run has left marked, followed by the names from position
/// `from` on, which it has not reached yet.
#[verifier::opaque]
pub open spec fn marks_midway(kept: Seq<Seq<char>>, pending: Seq<Seq<char>>, from: int) -> Seq<
    Seq<char>,
> {
    kept + pending.subrange(from, pending.len() as int)
}

/// A run starts with every name pending and ends with the kept names alone.
pub proof fn lemma_marks_at_ends(kept: Seq<Seq<char>>, pending: Seq<Seq<char>>)
    ensures
        marks_midway(Seq::empty(), pending, 0) == pending,
        marks_midway(kept, pending, pending.len() as int) == kept,
{
    reveal(marks_midway);
    assert(Seq::<Seq<char>>::empty() + pending.subrange(0, pending.len() as int) =~= pending);
    assert(kept + pending.subrange(pending.len() as int, pending.len() as int) =~= kept);
}

/// Keeping the name at position `from` marked moves the run one name on
/// without changing the marks.
pub proof fn lemma_mark_kept(kept: Seq<Seq<char>>, pending: Seq<Seq<char>>, from: int)
    requires
        0 <= from < pending.len(),
    ensures
        marks_midway(kept.push(pending[from]), pending, from + 1) == marks_midway(
            kept,
            pending,
            from,
        ),
{
    reveal(marks_midway);
    assert(kept.push(pending[from]) + pending.subrange(from + 1, pending.len() as int) =~= kept
        + pending.subrange(from, pending.len() as int));
}

/// Taking the name at position `from` out of a set's marks moves the run one
/// name on and leaves the other marks as they stand.
pub proof fn lemma_mark_taken_out(
    marks: SelectedSet,
    kept: Seq<Seq<char>>,
    pending: Seq<Seq<char>>,
    from: int,
)
    requires
        0 <= from < pending.len(),
        marks.distinct(),
        marks.order() == marks_midway(kept, pending, from),
    ensures
        without(marks.order(), pending[from]) == marks_midway(kept, pending, from + 1),
{
    reveal(marks_midway);
    let order = marks.order();
    assert(order[kept.len() as int] == pending[from]);
    lemma_without_at(order, kept.len() as int);
    assert(order.remove(kept.len() as int) =~= kept + pending.subrange(
        from + 1,
        pending.len() as int,
    ));
}

/// Removing one position from an order without repetition leaves an order
/// without repetition that holds every name but the removed one.
pub proof fn lemma_remove_distinct(order: Seq<Seq<char>>, at: int)
    requires
        order.no_duplicates(),
        0 <= at < order.len(),
    ensures
        order.remove(at).no_duplicates(),
        order.remove(at).to_set() == order.to_set().remove(order[at]),
{
    let left = order.remove(at);
    assert forall|n: Seq<char>| left.to_set().contains(n) <==> order.to_set().remove(
        order[at],
    ).contains(n) by {
        if left.contains(n) {
            let k = choose|k: int| 0 <= k < left.len() && left[k] == n;
            if k < at {
                assert(order[k] == n);
            } else {
                assert(order[k + 1] == n);
            }
        }
        if order.contains(n) && n != order[at] {
            let k = choose|k: int| 0 <= k < order.len() && order[k] == n;
            if k < at {
                assert(left[k] == n);
            } else {
                assert(left[k - 1] == n);
            }
        }
    }
    assert(left.to_set() =~= order.to_set().remove(order[at]));
}

/// Taking out a name that does not occur changes nothing.
pub proof fn lemma_without_absent(order: Seq<Seq<char>>, name: Seq<char>)
    requires
        !order.contains(name),
    ensures
        without(order, name) == order,
    decreases order.len(),
{
    reveal(Seq::filter);
    if order.len() > 0 {
        let rest = order.drop_last();
        assert forall|k: int| 0 <= k < rest.len() implies rest[k] != name by {
            assert(order[k] == rest[k]);
        }
        lemma_without_absent(rest, name);
        assert(order.last() != name);
        assert(order =~= rest.push(order.last()));
    }
}

/// In an order without repetition, taking out the name at position `at`
/// leaves the other names as they stand.
pub proof fn lemma_without_at(order: Seq<Seq<char>>, at: int)
    requires
        order.no_duplicates(),
        0 <= at < order.len(),
    ensures
        without(order, order[at]) == order.remove(at),
    decreases order.len(),
{
    reveal(Seq::filter);
    let name = order[at];
    let rest = order.drop_last();
    if at == order.len() - 1 {
        assert forall|k: int| 0 <= k < rest.len() implies rest[k] != name by {
            assert(order[k] == rest[k]);
        }
        lemma_without_absent(rest, name);
        assert(order.remove(at) =~= rest);
    } else {
        assert(rest[at] == name);
        lemma_without_at(rest, at);
        assert(order.last() != name);
        assert(order.remove(at) =~= rest.remove(at).push(order.last()));
    }
}

} // verus!
