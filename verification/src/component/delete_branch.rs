//! The question asked before branches are deleted.

use crate::component::{colored, pieces, plain, Color, Span, SpanView};
use crate::selection::SelectedSet;
use crate::text::texts;
use vstd::prelude::*;

verus! {

pub struct DeleteBranchConfirmation;

impl DeleteBranchConfirmation {
    /// The question whether to delete branches, with the two answers and the
    /// heading of the list of branches.
    pub open spec fn question() -> Seq<SpanView> {
        seq![
            plain("Would you like to "@),
            colored("delete branches"@, Color::Green),
            plain(" ?"@),
            plain("\n"@),
            plain("Enter: "@),
            colored("y"@, Color::Green),
            plain(" or "@),
            colored("n"@, Color::LightMagenta),
            plain("\n\n"@),
            colored("selected branches:\n"@, Color::Yellow),
        ]
    }

    /// The question, followed by one line for each marked branch: an arrow,
    /// the branch's name, a line break.
    pub fn text(selected: &SelectedSet) -> (text: Vec<Span>)
        ensures
            text@.len() == 10 + 3 * selected.order().len(),
            pieces(text@).subrange(0, 10) == Self::question(),
            forall|i: int|
                0 <= i < selected.order().len() ==> {
                    &&& text@[10 + 3 * i]@ == plain("--> "@)
                    &&& text@[10 + 3 * i + 1]@ == colored(
                        #[trigger] selected.order()[i],
                        Color::Cyan,
                    )
                    &&& text@[10 + 3 * i + 2]@ == plain("\n"@)
                },
    {
        let mut text: Vec<Span> = Vec::new();
        text.push(Span::raw("Would you like to "));
        text.push(Span::styled("delete branches", Color::Green));
        text.push(Span::raw(" ?"));
        text.push(Span::raw("\n"));
        text.push(Span::raw("Enter: "));
        text.push(Span::styled("y", Color::Green));
        text.push(Span::raw(" or "));
        text.push(Span::styled("n", Color::LightMagenta));
        text.push(Span::raw("\n\n"));
        text.push(Span::styled("selected branches:\n", Color::Yellow));
        assert(pieces(text@).subrange(0, 10) =~= Self::question());
        let names = selected.names();
        let mut i: usize = 0;
        while i < names.len()
            invariant
                i <= names@.len(),
                texts(names@) == selected.order(),
                text@.len() == 10 + 3 * i,
                pieces(text@).subrange(0, 10) == Self::question(),
                forall|k: int|
                    0 <= k < i ==> {
                        &&& text@[10 + 3 * k]@ == plain("--> "@)
                        &&& text@[10 + 3 * k + 1]@ == colored(
                            #[trigger] selected.order()[k],
                            Color::Cyan,
                        )
                        &&& text@[10 + 3 * k + 2]@ == plain("\n"@)
                    },
            decreases names@.len() - i,
        {
            let ghost before = pieces(text@);
            text.push(Span::raw("--> "));
            text.push(Span::styled(names[i].as_str(), Color::Cyan));
            text.push(Span::raw("\n"));
            assert(pieces(text@).subrange(0, 10) =~= before.subrange(0, 10));
            assert(texts(names@)[i as int] == names@[i as int]@);
            i += 1;
        }
        text
    }
}

} // verus!
