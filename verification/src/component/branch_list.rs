//! The list of branches.

use crate::component::{colored, plain, Color, Span, SpanView};
use crate::text::same_text;
use vstd::prelude::*;
use vstd::string::*;

verus! {

/// The characters of a name that may be missing.
pub open spec fn name_text(name: Option<String>) -> Option<Seq<char>> {
    match name {
        Some(name) => Some(name@),
        None => None,
    }
}

pub struct BranchList;

impl BranchList {
    /// The line for `branch`: the name alone, or, for the branch that is
    /// checked out, the name behind an anchor, in a colour of its own.
    pub open spec fn line(branch: Seq<char>, current: Option<Seq<char>>) -> SpanView {
        if current == Some(branch) {
            colored("\u{2693} "@ + branch, Color::LightCyan)
        } else {
            plain(branch)
        }
    }

    /// One line for each of `branches`, in their order.
    pub fn items(branches: &Vec<String>, current_branch: &Option<String>) -> (items: Vec<Span>)
        ensures
            items@.len() == branches@.len(),
            forall|i: int|
                0 <= i < branches@.len() ==> (#[trigger] items@[i])@ == Self::line(
                    branches@[i]@,
                    name_text(*current_branch),
                ),
    {
        let ghost current = name_text(*current_branch);
        let mut items: Vec<Span> = Vec::new();
        let mut i: usize = 0;
        while i < branches.len()
            invariant
                i <= branches@.len(),
                items@.len() == i,
                current == name_text(*current_branch),
                forall|k: int|
                    0 <= k < i ==> (#[trigger] items@[k])@ == Self::line(branches@[k]@, current),
            decreases branches@.len() - i,
        {
            let is_current = match current_branch {
                Some(name) => same_text(name.as_str(), branches[i].as_str()),
                None => false,
            };
            if is_current {
                let label = String::from_str("\u{2693} ").concat(branches[i].as_str());
                items.push(Span::styled(label.as_str(), Color::LightCyan));
            } else {
                items.push(Span::raw(branches[i].as_str()));
            }
            i += 1;
        }
        items
    }
}

} // verus!
