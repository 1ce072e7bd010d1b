//! The question asked before a checkout.

use crate::component::{colored, pieces, plain, Color, Span, SpanView};
use vstd::prelude::*;

verus! {

pub struct CheckoutConfirmation;

impl CheckoutConfirmation {
    /// The question whether to check out `branch_name`, with the two answers.
    pub open spec fn spec_text(branch_name: Seq<char>) -> Seq<SpanView> {
        seq![
            plain("Would you like to checkout "@),
            colored(branch_name, Color::Green),
            plain(" ?"@),
            plain("\n\n"@),
            plain("Enter: "@),
            colored("y"@, Color::Green),
            plain(" or "@),
            colored("n"@, Color::LightMagenta),
        ]
    }

    /// The question whether to check out `branch_name`, with the two answers.
    pub fn text(branch_name: &str) -> (text: Vec<Span>)
        ensures
            pieces(text@) == Self::spec_text(branch_name@),
    {
        let mut text: Vec<Span> = Vec::new();
        text.push(Span::raw("Would you like to checkout "));
        text.push(Span::styled(branch_name, Color::Green));
        text.push(Span::raw(" ?"));
        text.push(Span::raw("\n\n"));
        text.push(Span::raw("Enter: "));
        text.push(Span::styled("y", Color::Green));
        text.push(Span::raw(" or "));
        text.push(Span::styled("n", Color::LightMagenta));
        assert(pieces(text@) =~= Self::spec_text(branch_name@));
        text
    }
}

} // verus!
