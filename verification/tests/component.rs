use git_ex::component::selected_list::to_decimal;
use git_ex::component::{
    BranchList, CheckoutConfirmation, Color, DeleteBranchConfirmation, Help, Logs, SearchInput,
    SelectedList, Span,
};
use git_ex::git::{Commit, Signature};
use git_ex::selection::SelectedSet;

fn raw(content: &str) -> Span {
    Span {
        content: content.to_owned(),
        color: None,
    }
}

fn styled(content: &str, color: Color) -> Span {
    Span {
        content: content.to_owned(),
        color: Some(color),
    }
}

fn commit(id: &str, message: &str) -> Commit {
    Commit {
        id: id.to_owned(),
        author: Signature {
            name: "Ada".to_owned(),
            email: "ada@example.com".to_owned(),
        },
        message: message.to_owned(),
        timestamp: 0,
    }
}

#[test]
fn span_constructors() {
    assert_eq!(Span::raw("x"), raw("x"));
    assert_eq!(Span::styled("x", Color::Cyan), styled("x", Color::Cyan));
}

#[test]
fn checkout_question_names_the_branch() {
    assert_eq!(
        CheckoutConfirmation::text("beta"),
        vec![
            raw("Would you like to checkout "),
            styled("beta", Color::Green),
            raw(" ?"),
            raw("\n\n"),
            raw("Enter: "),
            styled("y", Color::Green),
            raw(" or "),
            styled("n", Color::LightMagenta),
        ]
    );
}

#[test]
fn delete_question_lists_the_marked_branches() {
    let mut selected = SelectedSet::new();
    selected.insert("beta".to_owned());
    selected.insert("alpha".to_owned());
    assert_eq!(
        DeleteBranchConfirmation::text(&selected),
        vec![
            raw("Would you like to "),
            styled("delete branches", Color::Green),
            raw(" ?"),
            raw("\n"),
            raw("Enter: "),
            styled("y", Color::Green),
            raw(" or "),
            styled("n", Color::LightMagenta),
            raw("\n\n"),
            styled("selected branches:\n", Color::Yellow),
            raw("--> "),
            styled("beta", Color::Cyan),
            raw("\n"),
            raw("--> "),
            styled("alpha", Color::Cyan),
            raw("\n"),
        ]
    );
    assert_eq!(DeleteBranchConfirmation::text(&SelectedSet::new()).len(), 10);
}

#[test]
fn help_page_lists_the_four_commands() {
    assert_eq!(
        Help::text(),
        vec![
            styled("Show Help      ", Color::Green),
            raw(": Alt+h"),
            raw("\n"),
            styled("Checkout Branch", Color::Green),
            raw(": Ctrl+o"),
            raw("\n"),
            styled("Delete Branches", Color::Green),
            raw(": Ctrl+d"),
            raw("\n"),
            styled("Show log       ", Color::Green),
            raw(": Ctrl+l"),
            raw("\n"),
        ]
    );
}

#[test]
fn log_text_has_three_pieces_per_commit() {
    let commits = vec![commit("abc1234", "first\n"), commit("def5678", "second\n")];
    assert_eq!(
        Logs::text(&commits),
        vec![
            styled("abc1234", Color::Yellow),
            raw(" "),
            raw("first\n"),
            styled("def5678", Color::Yellow),
            raw(" "),
            raw("second\n"),
        ]
    );
    assert_eq!(Logs::text(&Vec::new()), Vec::new());
}

#[test]
fn branch_list_marks_the_current_branch() {
    let branches = vec!["alpha".to_owned(), "beta".to_owned()];
    assert_eq!(
        BranchList::items(&branches, &Some("beta".to_owned())),
        vec![raw("alpha"), styled("\u{2693} beta", Color::LightCyan)]
    );
    assert_eq!(
        BranchList::items(&branches, &None),
        vec![raw("alpha"), raw("beta")]
    );
    assert_eq!(
        BranchList::items(&branches, &Some("gamma".to_owned())),
        vec![raw("alpha"), raw("beta")]
    );
}

#[test]
fn selected_list_numbers_the_marks() {
    let mut selected = SelectedSet::new();
    for i in 0..12 {
        selected.insert(format!("b{}", i));
    }
    let items = SelectedList::items(&selected);
    assert_eq!(items.len(), 12);
    assert_eq!(items[0], "0: b0");
    assert_eq!(items[9], "9: b9");
    assert_eq!(items[10], "10: b10");
    assert_eq!(items[11], "11: b11");
}

#[test]
fn decimal_digits() {
    assert_eq!(to_decimal(0), "0");
    assert_eq!(to_decimal(7), "7");
    assert_eq!(to_decimal(10), "10");
    assert_eq!(to_decimal(409), "409");
    assert_eq!(to_decimal(usize::MAX), usize::MAX.to_string());
}

#[test]
fn cursor_follows_the_displayed_width() {
    assert_eq!(SearchInput::cursor(""), Some((3, 4)));
    assert_eq!(SearchInput::cursor("abc"), Some((6, 4)));
    assert_eq!(SearchInput::cursor("\u{65e5}\u{672c}"), Some((7, 4)));
    assert_eq!(SearchInput::cursor("e\u{301}"), Some((4, 4)));
}

#[test]
fn cursor_column_stops_at_the_last_addressable_column() {
    assert_eq!(SearchInput::cursor_after(0), Some((3, 4)));
    assert_eq!(SearchInput::cursor_after(65_532), Some((65_535, 4)));
    assert_eq!(SearchInput::cursor_after(65_533), None);
    assert_eq!(SearchInput::cursor_after(usize::MAX), None);
}
