//! The help page.

use crate::component::{colored, pieces, plain, Color, Span, SpanView};
use vstd::prelude::*;

verus! {

pub struct Help;

impl Help {
    /// One line of the help page: what a key does, the key, a line break.
    pub open spec fn entry(what: Seq<char>, key: Seq<char>) -> Seq<SpanView> {
        seq![colored(what, Color::Green), plain(key), plain("\n"@)]
    }

    /// The help page: one line for each command of the search mode.
    pub open spec fn spec_text() -> Seq<SpanView> {
        Self::entry("Show Help      "@, ": Alt+h"@) + Self::entry("Checkout Branch"@, ": Ctrl+o"@)
            + Self::entry("Delete Branches"@, ": Ctrl+d"@) + Self::entry(
            "Show log       "@,
            ": Ctrl+l"@,
        )
    }

    /// The help page: one line for each command of the search mode.
    pub fn text() -> (text: Vec<Span>)
        ensures
            pieces(text@) == Self::spec_text(),
    {
        let mut text: Vec<Span> = Vec::new();
        text.push(Span::styled("Show Help      ", Color::Green));
        text.push(Span::raw(": Alt+h"));
        text.push(Span::raw("\n"));
        text.push(Span::styled("Checkout Branch", Color::Green));
        text.push(Span::raw(": Ctrl+o"));
        text.push(Span::raw("\n"));
        text.push(Span::styled("Delete Branches", Color::Green));
        text.push(Span::raw(": Ctrl+d"));
        text.push(Span::raw("\n"));
        text.push(Span::styled("Show log       ", Color::Green));
        text.push(Span::raw(": Ctrl+l"));
        text.push(Span::raw("\n"));
        assert(pieces(text@) =~= Self::spec_text());
        text
    }
}

} // verus!
