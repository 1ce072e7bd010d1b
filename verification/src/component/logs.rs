//! The log of a branch.

use crate::component::{colored, plain, Color, Span};
use crate::git::Commit;
use vstd::prelude::*;

verus! {

pub struct Logs;

impl Logs {
    /// The log as text: for each commit its abbreviated hash, a space and
    /// its message.
    pub fn text(commits: &Vec<Commit>) -> (text: Vec<Span>)
        ensures
            text@.len() == 3 * commits@.len(),
            forall|i: int|
                0 <= i < commits@.len() ==> {
                    &&& text@[3 * i]@ == colored((#[trigger] commits@[i]).id@, Color::Yellow)
                    &&& text@[3 * i + 1]@ == plain(" "@)
                    &&& text@[3 * i + 2]@ == plain(commits@[i].message@)
                },
    {
        let mut text: Vec<Span> = Vec::new();
        let mut i: usize = 0;
        while i < commits.len()
            invariant
                i <= commits@.len(),
                text@.len() == 3 * i,
                forall|k: int|
                    0 <= k < i ==> {
                        &&& text@[3 * k]@ == colored((#[trigger] commits@[k]).id@, Color::Yellow)
                        &&& text@[3 * k + 1]@ == plain(" "@)
                        &&& text@[3 * k + 2]@ == plain(commits@[k].message@)
                    },
            decreases commits@.len() - i,
        {
            text.push(Span::styled(commits[i].id.as_str(), Color::Yellow));
            text.push(Span::raw(" "));
            text.push(Span::raw(commits[i].message.as_str()));
            i += 1;
        }
        text
    }
}

} // verus!
