//! The line of help at the top of the screen.

use crate::component::{colored, Color, Span, SpanView};
use crate::mode::InputMode;
use vstd::prelude::*;

verus! {

pub const HELP_COMMAND: &'static str = "Press q or Ctrl+c to exit, e to start search mode.";

pub const HELP_SEARCH: &'static str =
    "Press Esc or Ctrl+c to exit, Enter to record the message. (Help: Alt+h)";

pub const HELP_OTHER: &'static str = "Press Esc or q or Ctrl+c or Enter back to Search";

pub struct DefaultHelp;

impl DefaultHelp {
    /// The help line for `mode`.
    pub open spec fn spec_message(mode: InputMode) -> Seq<char> {
        match mode {
            InputMode::Command(_) => HELP_COMMAND@,
            InputMode::Search => HELP_SEARCH@,
            InputMode::Help => HELP_OTHER@,
            InputMode::ShowLog => HELP_OTHER@,
        }
    }

    /// The help line for `mode` as the screen shows it, in cyan.
    pub open spec fn spec_line(mode: InputMode) -> SpanView {
        colored(Self::spec_message(mode), Color::Cyan)
    }

    /// The help line for `mode` as the screen shows it, in cyan.
    pub fn line(mode: &InputMode) -> (line: Span)
        ensures
            line@ == Self::spec_line(*mode),
    {
        Span::styled(Self::message(mode), Color::Cyan)
    }

    /// The help line for `mode`.
    pub fn message(mode: &InputMode) -> (line: &'static str)
        ensures
            line@ == Self::spec_message(*mode),
    {
        match mode {
            InputMode::Command(_) => HELP_COMMAND,
            InputMode::Search => HELP_SEARCH,
            _ => HELP_OTHER,
        }
    }
}

} // verus!
