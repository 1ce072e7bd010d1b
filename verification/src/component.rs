//! What each part of the screen shows, as plain text with colours. Drawing
//! it is left to the terminal front end.

use vstd::prelude::*;

pub mod branch_list;
pub mod checkout;
pub mod default_help;
pub mod delete_branch;
pub mod help;
pub mod logs;
pub mod search_input;
pub mod selected_list;

pub use branch_list::BranchList;
pub use checkout::CheckoutConfirmation;
pub use default_help::DefaultHelp;
pub use delete_branch::DeleteBranchConfirmation;
pub use help::Help;
pub use logs::Logs;
pub use search_input::SearchInput;
pub use selected_list::SelectedList;

verus! {

/// The colours that the screen uses.
#[derive(Debug, Clone, Copy, PartialEq, Eq, Structural)]
pub enum Color {
    Green,
    Yellow,
    Cyan,
    LightCyan,
    LightMagenta,
}

/// A piece of text, in a colour of its own or in that of its surroundings.
#[derive(Debug, Clone, PartialEq, Eq)]
pub struct Span {
    pub content: String,
    pub color: Option<Color>,
}

/// A piece of text as a mathematical value.
pub struct SpanView {
    pub content: Seq<char>,
    pub color: Option<Color>,
}

impl View for Span {
    type V = SpanView;

    open spec fn view(&self) -> SpanView {
        SpanView { content: self.content@, color: self.color }
    }
}

/// `content` in the colour of its surroundings.
pub open spec fn plain(content: Seq<char>) -> SpanView {
    SpanView { content, color: None }
}

/// `content` in `color`.
pub open spec fn colored(content: Seq<char>, color: Color) -> SpanView {
    SpanView { content, color: Some(color) }
}

/// The pieces of `spans` as mathematical values.
pub open spec fn pieces(spans: Seq<Span>) -> Seq<SpanView> {
    spans.map_values(|span: Span| span@)
}

impl Span {
    /// `content` in the colour of its surroundings.
    pub fn raw(content: &str) -> (span: Span)
        ensures
            span@ == plain(content@),
    {
        Span { content: content.to_owned(), color: None }
    }

    /// `content` in `color`.
    pub fn styled(content: &str, color: Color) -> (span: Span)
        ensures
            span@ == colored(content@, color),
    {
        Span { content: content.to_owned(), color: Some(color) }
    }
}

} // verus!
