//! The box that shows the filter.

use unicode_width::UnicodeWidthStr;
use vstd::prelude::*;

verus! {

/// The margin round the whole screen.
pub const TOP_MARGIN: u16 = 1;

/// The height of the help line.
pub const HELP_MESSAGE_HEIGHT: u16 = 1;

/// The height of the filter box, borders included.
pub const TEXT_INPUT_HEIGHT: u16 = 3;

/// The number of terminal columns that `unicode_width` gives to `text`.
pub uninterp spec fn display_width(text: Seq<char>) -> nat;

/// `UnicodeWidthStr::width`: the displayed width of `text` in columns, with
/// characters of ambiguous width counted as narrow.
#[verifier::external_body]
fn text_width(text: &str) -> (width: usize)
    ensures
        width == display_width(text@),
{
    UnicodeWidthStr::width(text)
}

pub struct SearchInput;

impl SearchInput {
    /// Where the terminal's cursor belongs behind a filter that is `width`
    /// columns wide: column and row, or nothing if the column is beyond what
    /// a terminal can address.
    pub open spec fn spec_cursor(width: nat) -> Option<(u16, u16)> {
        if TOP_MARGIN + 2 + width <= u16::MAX {
            Some(
                (
                    (TOP_MARGIN + 2 + width) as u16,
                    (TOP_MARGIN + HELP_MESSAGE_HEIGHT + TEXT_INPUT_HEIGHT - 1) as u16,
                ),
            )
        } else {
            None
        }
    }

    /// Where the terminal's cursor belongs behind a filter that is `width`
    /// columns wide.
    pub fn cursor_after(width: usize) -> (position: Option<(u16, u16)>)
        ensures
            position == Self::spec_cursor(width as nat),
    {
        if width <= (u16::MAX - TOP_MARGIN - 2) as usize {
            Some((TOP_MARGIN + 2 + width as u16, TOP_MARGIN + HELP_MESSAGE_HEIGHT + TEXT_INPUT_HEIGHT - 1))
        } else {
            None
        }
    }

    /// Where the terminal's cursor belongs behind the filter `input`.
    pub fn cursor(input: &str) -> (position: Option<(u16, u16)>)
        ensures
            position == Self::spec_cursor(display_width(input@)),
    {
        Self::cursor_after(text_width(input))
    }
}

} // verus!
