//! The modes of the session, the keys it understands and what each key asks
//! for in each mode.

use vstd::prelude::*;

verus! {

/// A command that waits for the user's yes or no.
#[derive(Debug, Clone, Copy, PartialEq, Eq, Structural)]
pub enum Command {
    Checkout,
    DeleteBranch,
}

/// What the session is doing. It starts in `Search` and comes back to it
/// after every command, help page or log.
#[derive(Debug, Clone, Copy, PartialEq, Eq, Structural)]
pub enum InputMode {
    Command(Command),
    Search,
    Help,
    ShowLog,
}

/// A key press, as the terminal reports it.
#[derive(Debug, Clone, Copy, PartialEq, Eq, Structural)]
pub enum Key {
    Backspace,
    Left,
    Right,
    Up,
    Down,
    Home,
    End,
    PageUp,
    PageDown,
    BackTab,
    Delete,
    Insert,
    F(u8),
    Char(char),
    Alt(char),
    Ctrl(char),
    Null,
    Esc,
}

/// What a key press asks the session to do.
#[derive(Debug, Clone, Copy, PartialEq, Eq, Structural)]
pub enum Action {
    /// End the session.
    Quit,
    /// Leave a command, the help page or the log and go back to searching.
    Dismiss,
    /// Run the command that is waiting.
    Execute,
    /// Mark the branch under the cursor for deletion.
    Mark,
    /// Add a character to the filter.
    Type(char),
    /// Take the last character off the filter.
    Erase,
    /// Move the cursor down.
    Next,
    /// Move the cursor up.
    Previous,
    /// Ask whether to check out the branch under the cursor.
    AskCheckout,
    /// Show the log of the branch under the cursor.
    AskLog,
    /// Show the help page.
    AskHelp,
    /// Ask whether to delete the marked branches.
    AskDelete,
    /// Nothing.
    Ignore,
}

/// What `key` asks for while a command waits for its answer.
pub open spec fn command_action(key: Key) -> Action {
    match key {
        Key::Esc => Action::Dismiss,
        Key::Ctrl(c) => if c == 'c' {
            Action::Dismiss
        } else {
            Action::Ignore
        },
        Key::Char(c) => if c == 'n' || c == 'q' {
            Action::Dismiss
        } else if c == 'y' || c == '\n' {
            Action::Execute
        } else {
            Action::Ignore
        },
        _ => Action::Ignore,
    }
}

/// What `key` asks for while the user searches.
pub open spec fn search_action(key: Key) -> Action {
    match key {
        Key::Esc => Action::Quit,
        Key::Char(c) => if c == '\n' {
            Action::Mark
        } else {
            Action::Type(c)
        },
        Key::Backspace => Action::Erase,
        Key::Delete => Action::Erase,
        Key::Down => Action::Next,
        Key::Up => Action::Previous,
        Key::Ctrl(c) => if c == 'c' {
            Action::Quit
        } else if c == 'h' {
            Action::Erase
        } else if c == 'n' {
            Action::Next
        } else if c == 'p' {
            Action::Previous
        } else if c == 'o' {
            Action::AskCheckout
        } else if c == 'l' {
            Action::AskLog
        } else if c == 'd' {
            Action::AskDelete
        } else {
            Action::Ignore
        },
        Key::Alt(c) => if c == 'h' {
            Action::AskHelp
        } else {
            Action::Ignore
        },
        _ => Action::Ignore,
    }
}

/// What `key` asks for while the help page or a log is shown.
pub open spec fn reading_action(key: Key) -> Action {
    match key {
        Key::Esc => Action::Dismiss,
        Key::Char(c) => if c == 'y' || c == 'q' || c == '\n' {
            Action::Dismiss
        } else {
            Action::Ignore
        },
        Key::Ctrl(c) => if c == 'n' {
            Action::Dismiss
        } else {
            Action::Ignore
        },
        _ => Action::Ignore,
    }
}

/// What `key` asks for in `mode`.
pub open spec fn key_action(mode: InputMode, key: Key) -> Action {
    match mode {
        InputMode::Command(_) => command_action(key),
        InputMode::Search => search_action(key),
        InputMode::Help => reading_action(key),
        InputMode::ShowLog => reading_action(key),
    }
}

/// What `key` asks for in `mode`.
pub fn action_for(mode: InputMode, key: Key) -> (action: Action)
    ensures
        action == key_action(mode, key),
{
    match mode {
        InputMode::Command(_) => match key {
            Key::Esc => Action::Dismiss,
            Key::Ctrl(c) => if c == 'c' {
                Action::Dismiss
            } else {
                Action::Ignore
            },
            Key::Char(c) => if c == 'n' || c == 'q' {
                Action::Dismiss
            } else if c == 'y' || c == '\n' {
                Action::Execute
            } else {
                Action::Ignore
            },
            _ => Action::Ignore,
        },
        InputMode::Search => match key {
            Key::Esc => Action::Quit,
            Key::Char(c) => if c == '\n' {
                Action::Mark
            } else {
                Action::Type(c)
            },
            Key::Backspace | Key::Delete => Action::Erase,
            Key::Down => Action::Next,
            Key::Up => Action::Previous,
            Key::Ctrl(c) => if c == 'c' {
                Action::Quit
            } else if c == 'h' {
                Action::Erase
            } else if c == 'n' {
                Action::Next
            } else if c == 'p' {
                Action::Previous
            } else if c == 'o' {
                Action::AskCheckout
            } else if c == 'l' {
                Action::AskLog
            } else if c == 'd' {
                Action::AskDelete
            } else {
                Action::Ignore
            },
            Key::Alt(c) => if c == 'h' {
                Action::AskHelp
            } else {
                Action::Ignore
            },
            _ => Action::Ignore,
        },
        InputMode::Help | InputMode::ShowLog => match key {
            Key::Esc => Action::Dismiss,
            Key::Char(c) => if c == 'y' || c == 'q' || c == '\n' {
                Action::Dismiss
            } else {
                Action::Ignore
            },
            Key::Ctrl(c) => if c == 'n' {
                Action::Dismiss
            } else {
                Action::Ignore
            },
            _ => Action::Ignore,
        },
    }
}

} // verus!
