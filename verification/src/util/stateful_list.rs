//! A list of items with a cursor that moves in a circle.

use tui::widgets::ListState;
use vstd::prelude::*;

verus! {

/// `tui::widgets::ListState`, the widget state that remembers which row of a
/// list is highlighted. Nothing inside it is visible to proofs.
#[verifier::external_type_specification]
#[verifier::external_body]
pub struct ExListState(ListState);

/// The row that a `ListState` marks as highlighted, if any.
pub uninterp spec fn marked(state: ListState) -> Option<usize>;

/// `ListState::selected` hands back the marked row.
pub assume_specification[ ListState::selected ](state: &ListState) -> (index: Option<usize>)
    ensures
        index == marked(*state),
;

/// `ListState::select` replaces the marked row by `index`.
pub assume_specification[ ListState::select ](state: &mut ListState, index: Option<usize>)
    ensures
        marked(*final(state)) == index,
;

/// `ListState::default` builds a state with no row marked.
pub assume_specification[ <ListState as Default>::default ]() -> (state: ListState)
    ensures
        marked(state) is None,
;

/// Cloning a `ListState` keeps the marked row.
pub assume_specification[ <ListState as Clone>::clone ](state: &ListState) -> (copy: ListState)
    ensures
        marked(copy) == marked(*state),
;

/// Where the cursor stands after one step towards the end of a list of `len`
/// items: one further, or back at the first item after the last one.
pub open spec fn step_forward(cursor: Option<usize>, len: nat) -> Option<usize> {
    match cursor {
        Some(i) => if len == 0 {
            None
        } else if i >= len - 1 {
            Some(0)
        } else {
            Some((i + 1) as usize)
        },
        None => None,
    }
}

/// Where the cursor stands after one step towards the start of a list of
/// `len` items: one back, or at the last item before the first one.
pub open spec fn step_backward(cursor: Option<usize>, len: nat) -> Option<usize> {
    match cursor {
        Some(i) => if len == 0 {
            None
        } else if i == 0 {
            Some((len - 1) as usize)
        } else {
            Some((i - 1) as usize)
        },
        None => None,
    }
}

/// Where the cursor is put when a list receives fresh items: on the first
/// one, or nowhere if there is none.
pub open spec fn reset_cursor(len: nat) -> Option<usize> {
    if len > 0 {
        Some(0)
    } else {
        None
    }
}

/// The cursor points at an item exactly when there is one to point at.
pub open spec fn cursor_fits(cursor: Option<usize>, len: nat) -> bool {
    match cursor {
        Some(i) => i < len,
        None => len == 0,
    }
}

/// In a list of more than one item the cursor moves in a circle: forward from
/// the last item to the first, backward from the first to the last. In an
/// empty list it stays nowhere.
pub proof fn lemma_navigation_is_circular(len: usize, cursor: Option<usize>)
    ensures
        len > 1 ==> step_forward(Some((len - 1) as usize), len as nat) == Some(0usize),
        len > 1 ==> step_backward(Some(0usize), len as nat) == Some((len - 1) as usize),
        step_forward(cursor, 0) is None,
        step_backward(cursor, 0) is None,
        step_forward(None, len as nat) is None,
        step_backward(None, len as nat) is None,
{
}

/// A cursor that fits the list still fits it after a step in either
/// direction.
pub proof fn lemma_steps_keep_cursor_fitting(cursor: Option<usize>, len: nat)
    requires
        cursor_fits(cursor, len),
    ensures
        cursor_fits(step_forward(cursor, len), len),
        cursor_fits(step_backward(cursor, len), len),
        cursor_fits(reset_cursor(len), len),
{
}

/// Items with a cursor among them.
#[derive(Clone)]
pub struct StatefulList<T> {
    pub state: ListState,
    pub items: Vec<T>,
}

impl<T> StatefulList<T> {
    /// The index under the cursor.
    pub open spec fn cursor(&self) -> Option<usize> {
        marked(self.state)
    }

    /// The cursor is on an item, or the list is empty and the cursor nowhere.
    pub open spec fn well_formed(&self) -> bool {
        cursor_fits(self.cursor(), self.items@.len())
    }

    /// An empty list.
    pub fn new() -> (list: StatefulList<T>)
        ensures
            list.items@ == Seq::<T>::empty(),
            list.cursor() is None,
            list.well_formed(),
    {
        StatefulList { state: ListState::default(), items: Vec::new() }
    }

    /// A list of `items` with the cursor on the first of them.
    pub fn with_items(items: Vec<T>) -> (list: StatefulList<T>)
        ensures
            list.items == items,
            list.cursor() == reset_cursor(items@.len()),
            list.well_formed(),
    {
        let mut list = StatefulList { state: ListState::default(), items: items };
        if list.items.len() > 0 {
            list.state.select(Some(0));
        }
        list
    }

    /// Replaces the items and puts the cursor on the first of them.
    pub fn set_items(&mut self, items: Vec<T>)
        ensures
            final(self).items == items,
            final(self).cursor() == reset_cursor(items@.len()),
            final(self).well_formed(),
    {
        self.items = items;
        if self.items.len() > 0 {
            self.state.select(Some(0));
        } else {
            self.unselect();
        }
    }

    /// Moves the cursor one item on, from the last item to the first. A
    /// cursor that is nowhere stays there.
    pub fn next(&mut self)
        ensures
            final(self).items == old(self).items,
            final(self).cursor() == step_forward(old(self).cursor(), old(self).items@.len()),
            old(self).well_formed() ==> final(self).well_formed(),
    {
        match self.state.selected() {
            Some(i) => {
                if self.items.len() == 0 {
                    self.unselect();
                } else {
                    let i: usize = if i >= self.items.len() - 1 {
                        0
                    } else {
                        i + 1
                    };
                    self.state.select(Some(i));
                }
            },
            None => self.unselect(),
        }
    }

    /// Moves the cursor one item back, from the first item to the last. A
    /// cursor that is nowhere stays there.
    pub fn previous(&mut self)
        ensures
            final(self).items == old(self).items,
            final(self).cursor() == step_backward(old(self).cursor(), old(self).items@.len()),
            old(self).well_formed() ==> final(self).well_formed(),
    {
        match self.state.selected() {
            Some(i) => {
                if self.items.len() == 0 {
                    self.unselect();
                } else {
                    let i: usize = if i == 0 {
                        self.items.len() - 1
                    } else {
                        i - 1
                    };
                    self.state.select(Some(i));
                }
            },
            None => self.unselect(),
        }
    }

    /// Takes the cursor off the list.
    pub fn unselect(&mut self)
        ensures
            final(self).items == old(self).items,
            final(self).cursor() is None,
    {
        self.state.select(None);
    }

    /// The item under the cursor.
    pub fn selected(&self) -> (item: Option<&T>)
        ensures
            item == match self.cursor() {
                Some(i) => if i < self.items@.len() {
                    Some(&self.items@[i as int])
                } else {
                    None
                },
                None => None,
            },
    {
        match self.state.selected() {
            Some(i) => if i < self.items.len() {
                Some(&self.items[i])
            } else {
                None
            },
            None => None,
        }
    }
}

} // verus!
