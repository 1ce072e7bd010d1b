//! The session as a mathematical value, and what each request makes of it.
//! The executable engine is specified against this model.

use crate::mode::{Action, Command, InputMode};
use crate::selection::marked_with;
use crate::text::{is_substring, lemma_empty_is_substring, lemma_filter_push, without};
use crate::util::stateful_list::{cursor_fits, reset_cursor, step_backward, step_forward};
use vstd::prelude::*;

verus! {

/// The branches of `all`, in their order, whose names contain `query`.
pub open spec fn filtered(all: Seq<Seq<char>>, query: Seq<char>) -> Seq<Seq<char>> {
    all.filter(|name: Seq<char>| is_substring(query, name))
}

/// The name that no key press can mark for deletion.
pub open spec fn protected_name() -> Seq<char> {
    "master"@
}

/// Everything that a session remembers from one key press to the next.
#[verifier::ext_equal]
pub struct Session {
    /// What the session is doing.
    pub mode: InputMode,
    /// The filter that the user has typed.
    pub query: Seq<char>,
    /// Every local branch, as listed when the session began.
    pub all: Seq<Seq<char>>,
    /// The branches on display.
    pub shown: Seq<Seq<char>>,
    /// The position of the cursor among the branches on display.
    pub cursor: Option<usize>,
    /// The branches marked for deletion, oldest mark first.
    pub marked: Seq<Seq<char>>,
}

impl Session {
    /// The session at its start, with `all` as the repository's branches.
    pub open spec fn start(all: Seq<Seq<char>>) -> Session {
        Session {
            mode: InputMode::Search,
            query: Seq::empty(),
            all,
            shown: all,
            cursor: reset_cursor(all.len()),
            marked: Seq::empty(),
        }
    }

    /// The display shows exactly the branches that pass the filter, and the
    /// cursor is on one of them unless there is none.
    pub open spec fn consistent(self) -> bool {
        &&& self.shown == filtered(self.all, self.query)
        &&& cursor_fits(self.cursor, self.shown.len())
    }

    /// The branch under the cursor.
    pub open spec fn current(self) -> Option<Seq<char>> {
        match self.cursor {
            Some(i) => if i < self.shown.len() {
                Some(self.shown[i as int])
            } else {
                None
            },
            None => None,
        }
    }

    /// The display brought up to date with the filter, the cursor back at
    /// the top.
    pub open spec fn refreshed(self) -> Session {
        let shown = filtered(self.all, self.query);
        Session { shown, cursor: reset_cursor(shown.len()), ..self }
    }

    /// After `c` was added to the filter.
    pub open spec fn typed(self, c: char) -> Session {
        Session { query: self.query.push(c), ..self }.refreshed()
    }

    /// After the last character was taken off the filter.
    pub open spec fn erased(self) -> Session {
        let query = if self.query.len() > 0 {
            self.query.drop_last()
        } else {
            self.query
        };
        Session { query, ..self }.refreshed()
    }

    /// After the cursor moved down.
    pub open spec fn moved_down(self) -> Session {
        Session { cursor: step_forward(self.cursor, self.shown.len()), ..self }
    }

    /// After the cursor moved up.
    pub open spec fn moved_up(self) -> Session {
        Session { cursor: step_backward(self.cursor, self.shown.len()), ..self }
    }

    /// After the branch under the cursor was marked for deletion and the
    /// cursor moved on. Without a branch under the cursor, or on the
    /// protected branch, nothing changes.
    pub open spec fn marked_current(self) -> Session {
        match self.current() {
            Some(name) => if name == protected_name() {
                self
            } else {
                Session { marked: marked_with(self.marked, name), ..self }.moved_down()
            },
            None => self,
        }
    }

    /// After a request to check out: granted only with a branch under the
    /// cursor.
    pub open spec fn asked_checkout(self) -> Session {
        if self.current() is Some {
            Session { mode: InputMode::Command(Command::Checkout), ..self }
        } else {
            self
        }
    }

    /// After a request to delete: granted only if a branch is marked.
    pub open spec fn asked_delete(self) -> Session {
        if self.marked.len() > 0 {
            Session { mode: InputMode::Command(Command::DeleteBranch), ..self }
        } else {
            self
        }
    }

    /// After a request for the log: granted only with a branch under the
    /// cursor.
    pub open spec fn asked_log(self) -> Session {
        if self.current() is Some {
            Session { mode: InputMode::ShowLog, ..self }
        } else {
            self
        }
    }

    /// After a request for the help page, which is always granted.
    pub open spec fn asked_help(self) -> Session {
        Session { mode: InputMode::Help, ..self }
    }

    /// Back in search mode.
    pub open spec fn dismissed(self) -> Session {
        Session { mode: InputMode::Search, ..self }
    }

    /// The session after `action`, for every action that leaves the
    /// repository alone. `Execute`, which does not, is not described here.
    pub open spec fn after(self, action: Action) -> Session {
        match action {
            Action::Quit => self,
            Action::Dismiss => self.dismissed(),
            Action::Execute => self,
            Action::Mark => self.marked_current(),
            Action::Type(c) => self.typed(c),
            Action::Erase => self.erased(),
            Action::Next => self.moved_down(),
            Action::Previous => self.moved_up(),
            Action::AskCheckout => self.asked_checkout(),
            Action::AskLog => self.asked_log(),
            Action::AskHelp => self.asked_help(),
            Action::AskDelete => self.asked_delete(),
            Action::Ignore => self,
        }
    }

    /// After the branch `name` was deleted: it has left the marks, the
    /// repository's branches and the display.
    pub open spec fn forgotten(self, name: Seq<char>) -> Session {
        Session {
            all: without(self.all, name),
            marked: without(self.marked, name),
            ..self
        }.refreshed()
    }

    /// After the branches of `gone` were deleted one after the other.
    pub open spec fn after_deleting(self, gone: Seq<Seq<char>>) -> Session
        decreases gone.len(),
    {
        if gone.len() == 0 {
            self
        } else {
            self.after_deleting(gone.drop_last()).forgotten(gone.last())
        }
    }
}

/// Filtering by a predicate that every item meets keeps every item.
pub proof fn lemma_filter_all<A>(s: Seq<A>, keep: spec_fn(A) -> bool)
    requires
        forall|i: int| 0 <= i < s.len() ==> keep(#[trigger] s[i]),
    ensures
        s.filter(keep) == s,
    decreases s.len(),
{
    reveal(Seq::filter);
    if s.len() > 0 {
        lemma_filter_all(s.drop_last(), keep);
        assert(s =~= s.drop_last().push(s.last()));
    }
}

/// The display is the list of the branches, in their order, whose names
/// contain the filter; with an empty filter it is the whole list.
pub proof fn lemma_filtered_view(all: Seq<Seq<char>>, query: Seq<char>)
    ensures
        forall|name: Seq<char>| #[trigger]
            filtered(all, query).contains(name) <==> all.contains(name) && is_substring(
                query,
                name,
            ),
        filtered(all, query).len() <= all.len(),
        filtered(all, Seq::empty()) == all,
{
    let keep = |name: Seq<char>| is_substring(query, name);
    let shown = filtered(all, query);
    all.lemma_filter_len(keep);
    assert forall|name: Seq<char>| #[trigger]
        shown.contains(name) <==> all.contains(name) && is_substring(query, name) by {
        if shown.contains(name) {
            let j = choose|j: int| 0 <= j < shown.len() && shown[j] == name;
            all.lemma_filter_pred(keep, j);
            all.lemma_filter_contains_rev(keep, name);
        }
        if all.contains(name) && is_substring(query, name) {
            let i = choose|i: int| 0 <= i < all.len() && all[i] == name;
            all.lemma_filter_contains(keep, i);
        }
    }
    let any = |name: Seq<char>| is_substring(Seq::<char>::empty(), name);
    assert forall|i: int| 0 <= i < all.len() implies any(#[trigger] all[i]) by {
        lemma_empty_is_substring(all[i]);
    }
    lemma_filter_all(all, any);
}

/// Filtering what a first filter has left keeps the items that pass both.
pub proof fn lemma_filter_twice<A>(
    s: Seq<A>,
    p: spec_fn(A) -> bool,
    q: spec_fn(A) -> bool,
    both: spec_fn(A) -> bool,
)
    requires
        forall|x: A| #[trigger] both(x) == (p(x) && q(x)),
    ensures
        s.filter(p).filter(q) == s.filter(both),
    decreases s.len(),
{
    if s.len() == 0 {
        reveal(Seq::filter);
    } else {
        let rest = s.drop_last();
        assert(s =~= rest.push(s.last()));
        lemma_filter_twice(rest, p, q, both);
        lemma_filter_push(rest, s.last(), p);
        lemma_filter_push(rest, s.last(), both);
        if p(s.last()) {
            lemma_filter_push(rest.filter(p), s.last(), q);
        }
    }
}

/// The names of `list`, in their order, that are none of `gone`.
pub open spec fn outside(list: Seq<Seq<char>>, gone: Seq<Seq<char>>) -> Seq<Seq<char>> {
    list.filter(|name: Seq<char>| !gone.contains(name))
}

/// Taking a name out is filtering by any predicate that holds of the other
/// names alone.
pub proof fn lemma_without_is_filter(
    list: Seq<Seq<char>>,
    name: Seq<char>,
    other: spec_fn(Seq<char>) -> bool,
)
    requires
        forall|x: Seq<char>| #[trigger] other(x) == (x != name),
    ensures
        without(list, name) == list.filter(other),
    decreases list.len(),
{
    reveal(Seq::filter);
    if list.len() > 0 {
        lemma_without_is_filter(list.drop_last(), name, other);
    }
}

/// Taking the last name of `gone` out of what the names before it have left
/// leaves the names that are none of `gone`, in their order.
pub proof fn lemma_without_last(list: Seq<Seq<char>>, gone: Seq<Seq<char>>)
    requires
        gone.len() > 0,
    ensures
        without(outside(list, gone.drop_last()), gone.last()) == outside(list, gone),
{
    let before = gone.drop_last();
    let last = gone.last();
    let p = |name: Seq<char>| !before.contains(name);
    let q = |other: Seq<char>| other != last;
    let all = |name: Seq<char>| !gone.contains(name);
    assert forall|name: Seq<char>| #[trigger] all(name) == (p(name) && q(name)) by {
        if gone.contains(name) {
            let k = choose|k: int| 0 <= k < gone.len() && gone[k] == name;
            if k < gone.len() - 1 {
                assert(before[k] == name);
            }
        }
        if before.contains(name) {
            let k = choose|k: int| 0 <= k < before.len() && before[k] == name;
            assert(gone[k] == name);
        }
        if name == last {
            assert(gone[gone.len() - 1] == name);
        }
    }
    lemma_filter_twice(list, p, q, all);
    lemma_without_is_filter(list.filter(p), last, q);
}

/// Deleting branches leaves, of the repository's branches and of the marks,
/// exactly those that are not among the deleted, in their order; where a
/// branch was deleted, the display shows those of them that pass the filter,
/// with the cursor at the top.
pub proof fn lemma_deleting_is_filtering(session: Session, gone: Seq<Seq<char>>)
    ensures
        session.after_deleting(gone).all == outside(session.all, gone),
        session.after_deleting(gone).marked == outside(session.marked, gone),
        session.after_deleting(gone).query == session.query,
        session.after_deleting(gone).mode == session.mode,
        gone.len() > 0 ==> session.after_deleting(gone).shown == filtered(
            outside(session.all, gone),
            session.query,
        ),
        gone.len() > 0 ==> session.after_deleting(gone).cursor == reset_cursor(
            session.after_deleting(gone).shown.len(),
        ),
        gone.len() == 0 ==> session.after_deleting(gone) == session,
    decreases gone.len(),
{
    if gone.len() == 0 {
        lemma_filter_all(session.all, |name: Seq<char>| !gone.contains(name));
        lemma_filter_all(session.marked, |name: Seq<char>| !gone.contains(name));
    } else {
        lemma_deleting_is_filtering(session, gone.drop_last());
        lemma_without_last(session.all, gone);
        lemma_without_last(session.marked, gone);
    }
}

/// A session starts consistent, in search mode, with nothing marked.
pub proof fn lemma_start_is_consistent(all: Seq<Seq<char>>)
    ensures
        Session::start(all).consistent(),
        Session::start(all).mode == InputMode::Search,
        Session::start(all).marked.len() == 0,
{
    lemma_filtered_view(all, Seq::empty());
}

/// No request can break the consistency of the display and the cursor.
pub proof fn lemma_after_keeps_consistent(session: Session, action: Action)
    requires
        session.consistent(),
    ensures
        session.after(action).consistent(),
{
}

/// Deleting branches leaves the display and the cursor consistent, and never
/// adds a mark or a branch.
pub proof fn lemma_deleting_keeps_consistent(session: Session, gone: Seq<Seq<char>>)
    requires
        session.consistent(),
    ensures
        session.after_deleting(gone).consistent(),
        session.after_deleting(gone).query == session.query,
        session.after_deleting(gone).marked.len() <= session.marked.len(),
        session.after_deleting(gone).all.len() <= session.all.len(),
    decreases gone.len(),
{
    if gone.len() > 0 {
        lemma_deleting_keeps_consistent(session, gone.drop_last());
        let before = session.after_deleting(gone.drop_last());
        let keep = |other: Seq<char>| other != gone.last();
        before.all.lemma_filter_len(keep);
        before.marked.lemma_filter_len(keep);
    }
}

/// Deleting one more branch after others is deleting them all in turn.
pub proof fn lemma_deleting_one_more(session: Session, gone: Seq<Seq<char>>, name: Seq<char>)
    ensures
        session.after_deleting(gone.push(name)) == session.after_deleting(gone).forgotten(name),
{
    assert(gone.push(name).drop_last() =~= gone);
}

/// Marking the protected branch changes nothing.
pub proof fn lemma_protected_branch_is_never_marked(session: Session)
    requires
        session.current() == Some(protected_name()),
    ensures
        session.marked_current() == session,
        session.after(Action::Mark).marked == session.marked,
{
}

/// A request to check out without a branch under the cursor, and a request
/// to delete with nothing marked, leave the session as it is.
pub proof fn lemma_guards_hold(session: Session)
    ensures
        session.current() is None ==> session.asked_checkout() == session,
        session.current() is None ==> session.asked_log() == session,
        session.marked.len() == 0 ==> session.asked_delete() == session,
        session.current() is Some ==> session.asked_checkout().mode == InputMode::Command(
            Command::Checkout,
        ),
        session.marked.len() > 0 ==> session.asked_delete().mode == InputMode::Command(
            Command::DeleteBranch,
        ),
        session.asked_help().mode == InputMode::Help,
{
}

} // verus!
