//! The session engine: the state that one run keeps, and what each key press
//! does to it.

use crate::error::Error;
use crate::git::{has_nul, Commit, Repository};
use crate::mode::{action_for, key_action, Action, Key};
use crate::selection::{
    lemma_mark_kept, lemma_mark_taken_out, lemma_marks_at_ends, marks_midway, SelectedSet,
};
use crate::session::{
    lemma_deleting_is_filtering, lemma_deleting_keeps_consistent, lemma_deleting_one_more,
    lemma_start_is_consistent, outside, Session,
};
use crate::text::{containing, same_text, texts, without_name};
use crate::util::stateful_list::StatefulList;
use vstd::prelude::*;
use vstd::string::*;

pub use crate::mode::{Command, InputMode};

verus! {

/// How many commits a log shows at most.
pub const LOG_LIMIT: usize = 40;

/// A branch that could not be deleted, and why.
#[derive(Debug, PartialEq, Eq)]
pub struct DeleteFailure {
    pub branch: String,
    pub error: Error,
}

/// What became of the branches that were marked for deletion.
#[derive(Debug, PartialEq, Eq)]
pub struct DeleteReport {
    /// The branches that are gone, in the order of their marks.
    pub deleted: Vec<String>,
    /// The branches that are still there, in the order of their marks.
    pub failures: Vec<DeleteFailure>,
}

/// Why a command did not go through.
#[derive(Debug, PartialEq, Eq)]
pub enum CommandError {
    /// The branch under the cursor could not be checked out.
    Checkout(Error),
    /// At least one marked branch could not be deleted.
    DeleteBranches(DeleteReport),
}

/// What the event loop does after a key press.
#[derive(Debug, PartialEq, Eq)]
pub enum Outcome {
    /// Wait for the next key.
    Continue,
    /// End the session.
    Exit,
    /// Tell the user that the command failed, then wait for the next key.
    Failed(CommandError),
}

/// What the screen shows on top of the lists.
#[derive(Debug, PartialEq, Eq)]
pub enum Popup {
    /// Nothing.
    Nothing,
    /// The help page.
    Help,
    /// The log of the branch under the cursor.
    Log,
    /// The question whether to check out the branch of this name.
    Checkout(String),
    /// The question whether to delete the marked branches.
    DeleteBranches,
}

/// `popup` is what the screen shows on top of the lists of `session`: the
/// help page and the question before a deletion whenever their mode is on,
/// the log and the question before a checkout only with a branch under the
/// cursor.
pub open spec fn shows(session: Session, popup: Popup) -> bool {
    match session.mode {
        InputMode::Search => popup is Nothing,
        InputMode::Help => popup is Help,
        InputMode::ShowLog => if session.current() is Some {
            popup is Log
        } else {
            popup is Nothing
        },
        InputMode::Command(Command::Checkout) => match session.current() {
            Some(name) => popup is Checkout && popup->Checkout_0@ == name,
            None => popup is Nothing,
        },
        InputMode::Command(Command::DeleteBranch) => popup is DeleteBranches,
    }
}

/// The line that tells the user of the failure `failure`: the branch, a
/// colon, the backend's words.
pub open spec fn failure_line(failure: DeleteFailure) -> Seq<char> {
    failure.branch@ + ": "@ + failure.error.text()
}

/// The lines for `failures`, with a semicolon between one and the next.
pub open spec fn failure_lines(failures: Seq<DeleteFailure>) -> Seq<char>
    decreases failures.len(),
{
    if failures.len() == 0 {
        Seq::empty()
    } else if failures.len() == 1 {
        failure_line(failures[0])
    } else {
        failure_lines(failures.drop_last()) + "; "@ + failure_line(failures.last())
    }
}

impl DeleteReport {
    /// What a run of deletions comes to: it went through if nothing is
    /// listed as failed, and fails with the whole report otherwise.
    pub fn into_result(self) -> (done: Result<(), CommandError>)
        ensures
            self.failures@.len() == 0 ==> done is Ok,
            self.failures@.len() > 0 ==> done == Err::<(), CommandError>(
                CommandError::DeleteBranches(self),
            ),
    {
        if self.failures.len() == 0 {
            Ok(())
        } else {
            Err(CommandError::DeleteBranches(self))
        }
    }
}

impl CommandError {
    /// What the user is told of the failure.
    pub open spec fn notice(self) -> Seq<char> {
        match self {
            CommandError::Checkout(cause) => "checkout failed: "@ + cause.text(),
            CommandError::DeleteBranches(report) => "could not delete "@ + failure_lines(
                report.failures@,
            ),
        }
    }

    /// What the user is told of the failure.
    pub fn describe(&self) -> (text: String)
        ensures
            text@ == self.notice(),
    {
        match self {
            CommandError::Checkout(cause) => {
                let mut text = String::from_str("checkout failed: ");
                text.append(cause.message().as_str());
                text
            },
            CommandError::DeleteBranches(report) => {
                let mut lines = String::new();
                let mut i: usize = 0;
                assert(report.failures@.subrange(0, 0) =~= Seq::<DeleteFailure>::empty());
                while i < report.failures.len()
                    invariant
                        i <= report.failures@.len(),
                        lines@ == failure_lines(report.failures@.subrange(0, i as int)),
                    decreases report.failures@.len() - i,
                {
                    let ghost done = report.failures@.subrange(0, i as int);
                    let ghost more = report.failures@.subrange(0, i + 1);
                    assert(more.drop_last() =~= done);
                    assert(more.last() == report.failures@[i as int]);
                    if i > 0 {
                        lines.append("; ");
                    }
                    lines.append(report.failures[i].branch.as_str());
                    lines.append(": ");
                    lines.append(report.failures[i].error.message().as_str());
                    assert(lines@ =~= failure_lines(more));
                    i += 1;
                }
                assert(report.failures@.subrange(0, i as int) =~= report.failures@);
                let mut text = String::from_str("could not delete ");
                text.append(lines.as_str());
                text
            },
        }
    }
}

/// What the screen is drawn from after a key press: a copy of the session
/// with the state of the repository that the screen shows.
#[derive(Debug, PartialEq, Eq)]
pub struct Snapshot {
    pub mode: InputMode,
    pub filter_text: String,
    pub filtered_branches: Vec<String>,
    pub cursor_index: Option<usize>,
    pub selected: Vec<String>,
    pub popup: Popup,
    /// The branch that is checked out, if the repository could say.
    pub current_branch: Option<String>,
    /// The log of the branch under the cursor while the log is shown, empty
    /// otherwise and where the history could not be walked.
    pub log_entries: Vec<Commit>,
    /// What the repository refused while the snapshot was taken.
    pub errors: Vec<Error>,
}

/// What the user is told of `errors`: the words of each, with a semicolon
/// between one and the next.
pub open spec fn error_lines(errors: Seq<Error>) -> Seq<char>
    decreases errors.len(),
{
    if errors.len() == 0 {
        Seq::empty()
    } else if errors.len() == 1 {
        errors[0].text()
    } else {
        error_lines(errors.drop_last()) + "; "@ + errors.last().text()
    }
}

impl Snapshot {
    /// What the user is told of the failures met while the snapshot was
    /// taken, if there were any.
    pub fn complaint(&self) -> (text: Option<String>)
        ensures
            self.errors@.len() == 0 ==> text is None,
            self.errors@.len() > 0 ==> (text matches Some(lines) && lines@ == error_lines(
                self.errors@,
            )),
    {
        if self.errors.len() == 0 {
            return None;
        }
        let mut lines = String::new();
        let mut i: usize = 0;
        assert(self.errors@.subrange(0, 0) =~= Seq::<Error>::empty());
        while i < self.errors.len()
            invariant
                i <= self.errors@.len(),
                lines@ == error_lines(self.errors@.subrange(0, i as int)),
            decreases self.errors@.len() - i,
        {
            let ghost done = self.errors@.subrange(0, i as int);
            let ghost more = self.errors@.subrange(0, i + 1);
            assert(more.drop_last() =~= done);
            assert(more.last() == self.errors@[i as int]);
            if i > 0 {
                lines.append("; ");
            }
            lines.append(self.errors[i].message().as_str());
            assert(lines@ =~= error_lines(more));
            i += 1;
        }
        assert(self.errors@.subrange(0, i as int) =~= self.errors@);
        Some(lines)
    }
}

/// The names of the branches of `failures`, in their order.
pub open spec fn failure_names(failures: Seq<DeleteFailure>) -> Seq<Seq<char>> {
    failures.map_values(|failure: DeleteFailure| failure.branch@)
}

/// One run of the browser: the session and the repository it works on.
pub struct App {
    /// The filter that the user has typed.
    pub input: String,
    pub input_mode: InputMode,
    /// The branches marked for deletion.
    pub selected: SelectedSet,
    pub repo: Repository,
    /// The branches on display, with the cursor.
    pub branches: StatefulList<String>,
    /// Every local branch, as listed when the session began.
    pub all_branches: Vec<String>,
}

impl View for App {
    type V = Session;

    open spec fn view(&self) -> Session {
        Session {
            mode: self.input_mode,
            query: self.input@,
            all: texts(self.all_branches@),
            shown: texts(self.branches.items@),
            cursor: self.branches.cursor(),
            marked: self.selected.order(),
        }
    }
}

/// The names after one more was added behind them.
proof fn lemma_pushed_name(list: Seq<String>, name: String)
    ensures
        texts(list.push(name)) == texts(list).push(name@),
{
    assert(texts(list.push(name)) =~= texts(list).push(name@));
}

/// A copy of `list`.
fn copy_names(list: &Vec<String>) -> (copy: Vec<String>)
    ensures
        texts(copy@) == texts(list@),
{
    let mut copy: Vec<String> = Vec::new();
    let mut i: usize = 0;
    while i < list.len()
        invariant
            i <= list@.len(),
            copy@.len() == i,
            forall|k: int| 0 <= k < i ==> copy@[k]@ == list@[k]@,
        decreases list@.len() - i,
    {
        copy.push(list[i].clone());
        i += 1;
    }
    assert(texts(copy@) =~= texts(list@));
    copy
}

impl App {
    /// Opens the repository at `path` and starts a session on its local
    /// branches.
    pub fn new(path: &std::path::PathBuf) -> (started: Result<App, Error>)
        ensures
            started matches Ok(app) ==> app@ == Session::start(app@.all) && app@.consistent(),
            started matches Err(e) ==> e is RepositoryAccess || e is BranchEnumeration,
    {
        let repo = match Repository::new(path) {
            Ok(repo) => repo,
            Err(e) => {
                return Err(e);
            },
        };
        let branches = match repo.branches() {
            Ok(branches) => branches,
            Err(e) => {
                return Err(e);
            },
        };
        Ok(App::with_branches(repo, branches))
    }

    /// Starts a session on `repo` with `branches` as its local branches.
    pub fn with_branches(repo: Repository, branches: Vec<String>) -> (app: App)
        ensures
            app@ == Session::start(texts(branches@)),
            app@.consistent(),
            app.repo == repo,
    {
        let list = StatefulList::with_items(copy_names(&branches));
        let app = App {
            input: String::new(),
            input_mode: InputMode::Search,
            selected: SelectedSet::new(),
            repo,
            branches: list,
            all_branches: branches,
        };
        proof {
            assert(app@ =~= Session::start(texts(branches@)));
            lemma_start_is_consistent(texts(branches@));
        }
        app
    }

    /// Brings the display up to date with the filter and puts the cursor
    /// back at the top.
    pub fn refresh_branches(&mut self)
        ensures
            final(self)@ == old(self)@.refreshed(),
            final(self).repo == old(self).repo,
    {
        let shown = containing(&self.all_branches, self.input.as_str());
        self.branches.set_items(shown);
        assert(self@ =~= old(self)@.refreshed());
    }

    /// Asks whether to check out the branch under the cursor, if there is
    /// one.
    pub fn checkout_mode(&mut self)
        ensures
            final(self)@ == old(self)@.asked_checkout(),
            final(self).repo == old(self).repo,
    {
        if self.selected_branch().is_some() {
            self.input_mode = InputMode::Command(Command::Checkout);
        }
    }

    /// Goes back to searching.
    pub fn search_mode(&mut self)
        ensures
            final(self)@ == old(self)@.dismissed(),
            final(self).repo == old(self).repo,
    {
        self.input_mode = InputMode::Search;
    }

    /// Shows the log of the branch under the cursor, if there is one.
    pub fn log_mode(&mut self)
        ensures
            final(self)@ == old(self)@.asked_log(),
            final(self).repo == old(self).repo,
    {
        if self.selected_branch().is_some() {
            self.input_mode = InputMode::ShowLog;
        }
    }

    /// Shows the help page.
    pub fn help_mode(&mut self)
        ensures
            final(self)@ == old(self)@.asked_help(),
            final(self).repo == old(self).repo,
    {
        self.input_mode = InputMode::Help;
    }

    /// Asks whether to delete the marked branches, if there are any.
    pub fn delete_branch_mode(&mut self)
        ensures
            final(self)@ == old(self)@.asked_delete(),
            final(self).repo == old(self).repo,
    {
        if !self.selected.is_empty() {
            self.input_mode = InputMode::Command(Command::DeleteBranch);
        }
    }

    /// The branch under the cursor.
    pub fn selected_branch(&self) -> (branch: Option<&String>)
        ensures
            branch is Some <==> self@.current() is Some,
            branch matches Some(name) ==> self@.current() == Some(name@),
    {
        self.branches.selected()
    }

    /// Marks the branch under the cursor for deletion and moves the cursor
    /// on. The protected branch cannot be marked.
    pub fn confirm_current(&mut self)
        ensures
            final(self)@ == old(self)@.marked_current(),
            final(self).repo == old(self).repo,
    {
        let name = match self.branches.selected() {
            Some(name) => if same_text(name.as_str(), "master") {
                None
            } else {
                Some(name.clone())
            },
            None => None,
        };
        if let Some(name) = name {
            self.selected.insert(name);
            self.branches.next();
        }
        assert(self@ =~= old(self)@.marked_current());
    }

    /// Adds `c` to the filter.
    pub fn type_char(&mut self, c: char)
        ensures
            final(self)@ == old(self)@.typed(c),
            final(self).repo == old(self).repo,
    {
        self.input.push(c);
        self.refresh_branches();
    }

    /// Takes the last character off the filter.
    pub fn erase_char(&mut self)
        ensures
            final(self)@ == old(self)@.erased(),
            final(self).repo == old(self).repo,
    {
        self.input.pop();
        self.refresh_branches();
    }

    /// Moves the cursor down, from the last branch to the first.
    pub fn next(&mut self)
        ensures
            final(self)@ == old(self)@.moved_down(),
            final(self).repo == old(self).repo,
    {
        self.branches.next();
    }

    /// Moves the cursor up, from the first branch to the last.
    pub fn previous(&mut self)
        ensures
            final(self)@ == old(self)@.moved_up(),
            final(self).repo == old(self).repo,
    {
        self.branches.previous();
    }
}

/// What running `command` may make of the session `before`.
pub open spec fn ran(
    command: Command,
    before: Session,
    after: Session,
    done: Result<(), CommandError>,
) -> bool {
    match command {
        Command::Checkout => {
            &&& after == before
            &&& before.current() is None ==> done is Ok
            &&& done matches Err(e) ==> (e matches CommandError::Checkout(cause) && cause is Checkout)
        },
        Command::DeleteBranch => match done {
            Ok(()) => after == before.after_deleting(before.marked),
            Err(CommandError::DeleteBranches(report)) => {
                &&& after == before.after_deleting(texts(report.deleted@))
                &&& after.marked == failure_names(report.failures@)
                &&& report.failures@.len() > 0
                &&& report.deleted@.len() + report.failures@.len() == before.marked.len()
            },
            Err(_) => false,
        },
    }
}

/// What running the waiting command may make of the session `before`: without
/// a waiting command, nothing.
pub open spec fn executed(before: Session, after: Session, done: Result<(), CommandError>) -> bool {
    match before.mode {
        InputMode::Command(command) => ran(command, before, after, done),
        _ => after == before && done is Ok,
    }
}

/// What an answer of yes may make of the session `before`: a command that
/// goes through ends the session; one that fails is reported, and the session
/// goes on in search mode.
pub open spec fn concluded(before: Session, after: Session, outcome: Outcome) -> bool {
    match before.mode {
        InputMode::Command(command) => match outcome {
            Outcome::Exit => ran(command, before, after, Ok(())),
            Outcome::Failed(e) => ran(command, before, Session { mode: before.mode, ..after }, Err(e))
                && after.mode == InputMode::Search,
            Outcome::Continue => false,
        },
        _ => outcome is Continue && after == before,
    }
}

impl Command {
    /// Runs the command on the session `app`.
    pub fn run(&self, app: &mut App) -> (done: Result<(), CommandError>)
        ensures
            ran(*self, old(app)@, final(app)@, done),
            final(app).repo == old(app).repo,
            old(app)@.consistent() ==> final(app)@.consistent(),
    {
        match self {
            Command::Checkout => match app.run_checkout() {
                Ok(()) => Ok(()),
                Err(e) => Err(CommandError::Checkout(e)),
            },
            Command::DeleteBranch => app.run_delete_branches().into_result(),
        }
    }
}

impl App {
    /// Checks out the branch under the cursor, if there is one. Without one
    /// there is nothing to do; a name with a NUL character names no branch.
    pub fn run_checkout(&self) -> (done: Result<(), Error>)
        ensures
            self@.current() is None ==> done is Ok,
            self@.current() matches Some(name) && has_nul(name) ==> done is Err,
            done matches Err(e) ==> e is Checkout,
    {
        match self.selected_branch() {
            Some(branch) => self.repo.checkout(branch.as_str()),
            None => Ok(()),
        }
    }

    /// Takes the deleted branch `name` out of the marks, the repository's
    /// branches and the display.
    pub fn forget_branch(&mut self, name: &str)
        ensures
            final(self)@ == old(self)@.forgotten(name@),
            final(self).repo == old(self).repo,
    {
        self.selected.remove(name);
        self.all_branches = without_name(&self.all_branches, name);
        self.refresh_branches();
        assert(self@ =~= old(self)@.forgotten(name@));
    }

    /// Takes note of what the repository answered to the attempt to delete
    /// the branch `name`. A branch that is gone leaves the session and is
    /// listed as deleted; one that is still there stays as it is and is
    /// listed with the repository's refusal.
    pub fn record_deletion(
        &mut self,
        name: String,
        answer: Result<(), Error>,
        report: &mut DeleteReport,
    )
        ensures
            final(self).repo == old(self).repo,
            answer is Ok ==> final(self)@ == old(self)@.forgotten(name@) && final(report).deleted@
                == old(report).deleted@.push(name) && final(report).failures@ == old(
                report,
            ).failures@,
            answer matches Err(e) ==> final(self)@ == old(self)@ && final(report).deleted@ == old(
                report,
            ).deleted@ && final(report).failures@ == old(report).failures@.push(
                DeleteFailure { branch: name, error: e },
            ),
    {
        match answer {
            Ok(()) => {
                self.forget_branch(name.as_str());
                report.deleted.push(name);
            },
            Err(e) => {
                report.failures.push(DeleteFailure { branch: name, error: e });
            },
        }
    }

    /// Tries to delete every marked branch, whatever becomes of the others.
    /// The branches that are gone leave the session; those that are still
    /// there stay marked.
    pub fn run_delete_branches(&mut self) -> (report: DeleteReport)
        ensures
            final(self).repo == old(self).repo,
            final(self)@ == old(self)@.after_deleting(texts(report.deleted@)),
            final(self)@.all == outside(old(self)@.all, texts(report.deleted@)),
            final(self)@.marked == outside(old(self)@.marked, texts(report.deleted@)),
            final(self)@.marked == failure_names(report.failures@),
            report.deleted@.len() + report.failures@.len() == old(self)@.marked.len(),
            report.failures@.len() == 0 ==> texts(report.deleted@) == old(self)@.marked,
            forall|k: int|
                0 <= k < report.failures@.len() ==> (#[trigger] report.failures@[k]).error
                    is DeleteBranch,
            old(self)@.consistent() ==> final(self)@.consistent(),
    {
        let names = copy_names(self.selected.names());
        let mut report = DeleteReport { deleted: Vec::new(), failures: Vec::new() };
        let ghost start = self@;
        let ghost pending = texts(names@);
        let ghost mut gone = Seq::<Seq<char>>::empty();
        let ghost mut kept = Seq::<Seq<char>>::empty();
        let mut i: usize = 0;
        proof {
            assert(texts(report.deleted@) =~= gone);
            assert(failure_names(report.failures@) =~= kept);
            assert(gone =~= pending.subrange(0, 0));
            lemma_marks_at_ends(kept, pending);
        }
        while i < names.len()
            invariant
                i <= names@.len(),
                pending == texts(names@),
                start == old(self)@,
                self.repo == old(self).repo,
                texts(report.deleted@) == gone,
                failure_names(report.failures@) == kept,
                self@ == start.after_deleting(gone),
                self@.marked == marks_midway(kept, pending, i as int),
                gone.len() + kept.len() == i,
                kept.len() == 0 ==> gone == pending.subrange(0, i as int),
                forall|k: int|
                    0 <= k < report.failures@.len() ==> (#[trigger] report.failures@[k]).error
                        is DeleteBranch,
            decreases names@.len() - i,
        {
            let ghost name = pending[i as int];
            let ghost marks = self.selected;
            let ghost listed = report.deleted@;
            proof {
                use_type_invariant(&self.selected);
            }
            let branch = names[i].clone();
            let answer = self.repo.delete_branch(branch.as_str());
            let ghost answered = answer;
            self.record_deletion(branch, answer, &mut report);
            proof {
                if answered is Ok {
                    lemma_pushed_name(listed, names@[i as int]);
                    lemma_deleting_one_more(start, gone, name);
                    lemma_mark_taken_out(marks, kept, pending, i as int);
                    if kept.len() == 0 {
                        assert(gone.push(name) =~= pending.subrange(0, i + 1));
                    }
                    gone = gone.push(name);
                } else {
                    assert(failure_names(report.failures@) =~= kept.push(name));
                    lemma_mark_kept(kept, pending, i as int);
                    kept = kept.push(name);
                }
            }
            i += 1;
        }
        proof {
            lemma_marks_at_ends(kept, pending);
            lemma_deleting_is_filtering(start, gone);
            assert(pending.subrange(0, i as int) =~= pending);
            if start.consistent() {
                lemma_deleting_keeps_consistent(start, gone);
            }
        }
        report
    }

    /// Runs the command that is waiting for its answer.
    pub fn run_command(&mut self) -> (done: Result<(), CommandError>)
        ensures
            executed(old(self)@, final(self)@, done),
            final(self).repo == old(self).repo,
            old(self)@.consistent() ==> final(self)@.consistent(),
    {
        match self.input_mode {
            InputMode::Command(command) => command.run(self),
            _ => Ok(()),
        }
    }

    /// Does what `action` asks for.
    pub fn apply(&mut self, action: Action) -> (outcome: Outcome)
        ensures
            final(self).repo == old(self).repo,
            action != Action::Execute ==> final(self)@ == old(self)@.after(action),
            action != Action::Execute ==> outcome == if action == Action::Quit {
                Outcome::Exit
            } else {
                Outcome::Continue
            },
            action == Action::Execute ==> concluded(old(self)@, final(self)@, outcome),
            old(self)@.consistent() ==> final(self)@.consistent(),
    {
        match action {
            Action::Quit => {
                return Outcome::Exit;
            },
            Action::Dismiss => self.search_mode(),
            Action::Execute => {
                return self.conclude();
            },
            Action::Mark => self.confirm_current(),
            Action::Type(c) => self.type_char(c),
            Action::Erase => self.erase_char(),
            Action::Next => self.next(),
            Action::Previous => self.previous(),
            Action::AskCheckout => self.checkout_mode(),
            Action::AskLog => self.log_mode(),
            Action::AskHelp => self.help_mode(),
            Action::AskDelete => self.delete_branch_mode(),
            Action::Ignore => {},
        }
        Outcome::Continue
    }

    /// What follows a command that has run: one that went through ends the
    /// session; one that failed is handed on to be reported, and the session
    /// goes back to searching.
    pub fn settle_command(&mut self, done: Result<(), CommandError>) -> (outcome: Outcome)
        ensures
            final(self).repo == old(self).repo,
            done is Ok ==> outcome == Outcome::Exit && final(self)@ == old(self)@,
            done matches Err(e) ==> outcome == Outcome::Failed(e) && final(self)@ == old(
                self,
            )@.dismissed(),
    {
        match done {
            Ok(()) => Outcome::Exit,
            Err(e) => {
                self.search_mode();
                Outcome::Failed(e)
            },
        }
    }

    /// Answers yes to the command that is waiting.
    pub fn conclude(&mut self) -> (outcome: Outcome)
        ensures
            final(self).repo == old(self).repo,
            concluded(old(self)@, final(self)@, outcome),
            old(self)@.consistent() ==> final(self)@.consistent(),
    {
        match self.input_mode {
            InputMode::Command(_) => {
                let done = self.run_command();
                let ghost ran = self@;
                proof {
                    lemma_deleting_is_filtering(old(self)@, old(self)@.marked);
                    if done is Err && done->Err_0 is DeleteBranches {
                        lemma_deleting_is_filtering(
                            old(self)@,
                            texts(done->Err_0->DeleteBranches_0.deleted@),
                        );
                    }
                }
                let outcome = self.settle_command(done);
                assert(Session { mode: old(self)@.mode, ..self@ } =~= ran);
                outcome
            },
            _ => Outcome::Continue,
        }
    }

    /// Takes one key press: works out what it asks for in the present mode
    /// and does it.
    pub fn handle_key(&mut self, key: Key) -> (outcome: Outcome)
        ensures
            final(self).repo == old(self).repo,
            key_action(old(self)@.mode, key) != Action::Execute ==> final(self)@ == old(
                self,
            )@.after(key_action(old(self)@.mode, key)),
            key_action(old(self)@.mode, key) != Action::Execute ==> outcome == if key_action(
                old(self)@.mode,
                key,
            ) == Action::Quit {
                Outcome::Exit
            } else {
                Outcome::Continue
            },
            key_action(old(self)@.mode, key) == Action::Execute ==> concluded(
                old(self)@,
                final(self)@,
                outcome,
            ),
            old(self)@.consistent() ==> final(self)@.consistent(),
    {
        let action = action_for(self.input_mode, key);
        self.apply(action)
    }

    /// What the screen shows on top of the lists.
    pub fn popup(&self) -> (popup: Popup)
        ensures
            shows(self@, popup),
    {
        match self.input_mode {
            InputMode::Help => Popup::Help,
            InputMode::ShowLog => if self.selected_branch().is_some() {
                Popup::Log
            } else {
                Popup::Nothing
            },
            InputMode::Command(Command::Checkout) => match self.selected_branch() {
                Some(name) => Popup::Checkout(name.clone()),
                None => Popup::Nothing,
            },
            InputMode::Command(Command::DeleteBranch) => Popup::DeleteBranches,
            InputMode::Search => Popup::Nothing,
        }
    }

    /// The log that the screen shows for what the walk came to: the entries
    /// of a walk that went through, none for one that failed, whose failure
    /// is kept in `errors`.
    pub fn shown_log(answer: Result<Vec<Commit>, Error>, errors: &mut Vec<Error>) -> (entries: Vec<
        Commit,
    >)
        ensures
            answer matches Ok(log) ==> entries == log && final(errors)@ == old(errors)@,
            answer matches Err(e) ==> entries@.len() == 0 && final(errors)@ == old(errors)@.push(e),
    {
        match answer {
            Ok(log) => log,
            Err(e) => {
                errors.push(e);
                Vec::new()
            },
        }
    }

    /// The checked-out branch that the screen shows for what the repository
    /// said of it: the branch as it came, none where the repository failed,
    /// whose failure is kept in `errors`.
    pub fn shown_branch(answer: Result<Option<String>, Error>, errors: &mut Vec<Error>) -> (current:
        Option<String>)
        ensures
            answer matches Ok(branch) ==> current == branch && final(errors)@ == old(errors)@,
            answer matches Err(e) ==> current is None && final(errors)@ == old(errors)@.push(e),
    {
        match answer {
            Ok(branch) => branch,
            Err(e) => {
                errors.push(e);
                None
            },
        }
    }

    /// Takes the snapshot that the screen is drawn from.
    pub fn snapshot(&self) -> (shot: Snapshot)
        ensures
            shot.mode == self@.mode,
            shot.filter_text@ == self@.query,
            texts(shot.filtered_branches@) == self@.shown,
            shot.cursor_index == self@.cursor,
            texts(shot.selected@) == self@.marked,
            shows(self@, shot.popup),
            shot.log_entries@.len() <= LOG_LIMIT,
            self@.mode != InputMode::ShowLog || self@.current() is None
                ==> shot.log_entries@.len() == 0,
            forall|k: int|
                0 <= k < shot.errors@.len() ==> (#[trigger] shot.errors@[k]) is RepositoryAccess
                    || shot.errors@[k] is LogTraversal,
    {
        let mut errors: Vec<Error> = Vec::new();
        let current_branch = App::shown_branch(self.repo.current_branch(), &mut errors);
        let log_entries = match self.input_mode {
            InputMode::ShowLog => App::shown_log(self.execute_log(), &mut errors),
            _ => Vec::new(),
        };
        Snapshot {
            mode: self.input_mode,
            filter_text: self.input.clone(),
            filtered_branches: copy_names(&self.branches.items),
            cursor_index: self.branches.state.selected(),
            selected: copy_names(self.selected.names()),
            popup: self.popup(),
            current_branch,
            log_entries,
            errors,
        }
    }

    /// The log of the branch under the cursor: at most `LOG_LIMIT` commits,
    /// none without a branch under the cursor.
    pub fn execute_log(&self) -> (log: Result<Vec<Commit>, Error>)
        ensures
            log matches Ok(entries) ==> entries@.len() <= LOG_LIMIT,
            self@.current() is None ==> (log matches Ok(entries) && entries@.len() == 0),
            self@.current() matches Some(name) && has_nul(name) ==> log is Err,
            log matches Err(e) ==> e is LogTraversal,
    {
        match self.selected_branch() {
            Some(branch) => self.repo.logs(branch.as_str(), LOG_LIMIT),
            None => Ok(Vec::new()),
        }
    }
}

} // verus!
