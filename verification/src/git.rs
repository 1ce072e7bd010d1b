//! The gateway to the repository: every call into the git backend is made
//! here.

use crate::error::{Error, ErrorKind};
use git2::Commit as GitCommit;
use git2::Error as GitError;
use git2::Repository as GitRepository;
use vstd::prelude::*;
use vstd::string::*;
use vstd::utf8::{decode_utf8, valid_utf8};

verus! {

/// `git2::Repository`, an open repository.
#[verifier::external_type_specification]
#[verifier::external_body]
pub struct ExRepository(GitRepository);

/// `git2::Error`, the backend's error value.
#[verifier::external_type_specification]
#[verifier::external_body]
pub struct ExGitError(GitError);

/// `git2::Reference`, a named pointer into the repository.
#[verifier::external_type_specification]
#[verifier::external_body]
pub struct ExReference<'repo>(git2::Reference<'repo>);

/// `git2::Branch`, a reference that is a branch.
#[verifier::external_type_specification]
#[verifier::external_body]
pub struct ExBranch<'repo>(git2::Branch<'repo>);

/// `git2::Oid`, the identity of an object.
#[verifier::external_type_specification]
#[verifier::external_body]
pub struct ExOid(git2::Oid);

/// `git2::Object`, any object of the repository.
#[verifier::external_type_specification]
#[verifier::external_body]
pub struct ExObject<'repo>(git2::Object<'repo>);

/// `git2::Commit`, a commit of the repository.
#[verifier::external_type_specification]
#[verifier::external_body]
pub struct ExGitCommit<'repo>(GitCommit<'repo>);

/// `git2::Revwalk`, a traversal of the commit graph.
#[verifier::external_type_specification]
#[verifier::external_body]
pub struct ExRevwalk<'repo>(git2::Revwalk<'repo>);

/// `std::path::PathBuf`, a path of the file system, which need not be UTF-8.
#[verifier::external_type_specification]
#[verifier::external_body]
pub struct ExPathBuf(std::path::PathBuf);

/// The text holds a NUL character, which the backend takes in no name.
pub open spec fn has_nul(text: Seq<char>) -> bool {
    text.contains('\0')
}

/// `git2::Repository::open` on `path`.
#[verifier::external_body]
fn open_repository(path: &std::path::PathBuf) -> Result<GitRepository, GitError> {
    GitRepository::open(path)
}

/// The words that a backend error carries.
pub uninterp spec fn error_text(error: GitError) -> Seq<char>;

/// `git2::Error::message`, copied into a `String`: the words that the error
/// was made with.
#[verifier::external_body]
fn error_message(error: &GitError) -> (text: String)
    ensures
        text@ == error_text(*error),
{
    error.message().to_owned()
}

/// `git2::Repository::head`: the reference that HEAD resolves to.
#[verifier::external_body]
fn head<'repo>(repo: &'repo GitRepository) -> Result<git2::Reference<'repo>, GitError> {
    repo.head()
}

/// `git2::Reference::is_branch`.
#[verifier::external_body]
fn reference_is_branch(reference: &git2::Reference) -> bool {
    reference.is_branch()
}

/// `git2::Reference::shorthand`, copied into a `String`; `None` where the
/// shorthand is not UTF-8.
#[verifier::external_body]
fn reference_shorthand(reference: &git2::Reference) -> Option<String> {
    reference.shorthand().map(ToOwned::to_owned)
}

/// `git2::Reference::name`, copied into a `String`; `None` where the name is
/// not UTF-8.
#[verifier::external_body]
fn reference_name(reference: &git2::Reference) -> Option<String> {
    reference.name().map(ToOwned::to_owned)
}

/// `git2::Reference::target`: the object that a direct reference points to.
#[verifier::external_body]
fn reference_target(reference: &git2::Reference) -> Option<git2::Oid> {
    reference.target()
}

/// `git2::Repository::branches` over the local branches, each item turned
/// into the branch's name by `git2::Branch::name`: an error where the backend
/// reports one, `None` where the name is not UTF-8.
#[verifier::external_body]
fn local_branch_names(repo: &GitRepository) -> Result<
    Vec<Result<Option<String>, GitError>>,
    GitError,
> {
    let branches = repo.branches(Some(git2::BranchType::Local))?;
    Ok(
        branches.map(
            |item| item.and_then(|(branch, _)| Ok(branch.name()?.map(ToOwned::to_owned))),
        ).collect(),
    )
}

/// `git2::Repository::find_branch` among the local branches. The name is
/// turned into a C string first, which fails on a NUL character.
#[verifier::external_body]
fn find_local_branch<'repo>(repo: &'repo GitRepository, name: &str) -> (found: Result<
    git2::Branch<'repo>,
    GitError,
>)
    ensures
        has_nul(name@) ==> found is Err,
{
    repo.find_branch(name, git2::BranchType::Local)
}

/// `git2::Branch::get`: the reference behind a branch.
#[verifier::external_body]
fn branch_reference<'a, 'repo>(branch: &'a git2::Branch<'repo>) -> &'a git2::Reference<'repo> {
    branch.get()
}

/// `git2::Branch::delete`.
#[verifier::external_body]
fn branch_delete(branch: &mut git2::Branch) -> Result<(), GitError> {
    branch.delete()
}

/// `git2::Repository::find_object` of any kind.
#[verifier::external_body]
fn find_object<'repo>(repo: &'repo GitRepository, oid: git2::Oid) -> Result<
    git2::Object<'repo>,
    GitError,
> {
    repo.find_object(oid, None)
}

/// `git2::Repository::checkout_tree` with the backend's default options.
#[verifier::external_body]
fn checkout_tree(repo: &GitRepository, treeish: &git2::Object) -> Result<(), GitError> {
    repo.checkout_tree(treeish, None)
}

/// `git2::Repository::set_head`.
#[verifier::external_body]
fn set_head(repo: &GitRepository, reference_name: &str) -> Result<(), GitError> {
    repo.set_head(reference_name)
}

/// `git2::Repository::find_commit`.
#[verifier::external_body]
fn find_commit<'repo>(repo: &'repo GitRepository, oid: git2::Oid) -> Result<
    GitCommit<'repo>,
    GitError,
> {
    repo.find_commit(oid)
}

/// `git2::Repository::branch`, which refuses to replace an existing branch.
/// The name is turned into a C string first, which fails on a NUL character.
#[verifier::external_body]
fn create_branch<'repo>(repo: &'repo GitRepository, name: &str, target: &GitCommit) -> (created:
    Result<git2::Branch<'repo>, GitError>)
    ensures
        has_nul(name@) ==> created is Err,
{
    repo.branch(name, target, false)
}

/// `git2::Repository::revwalk`.
#[verifier::external_body]
fn new_revwalk<'repo>(repo: &'repo GitRepository) -> Result<git2::Revwalk<'repo>, GitError> {
    repo.revwalk()
}

/// `git2::Revwalk::set_sorting` to the topological order, in which no commit
/// comes before one of its children, refined by commit time.
#[verifier::external_body]
fn revwalk_sort_children_first(walk: &mut git2::Revwalk) -> Result<(), GitError> {
    walk.set_sorting(git2::Sort::TOPOLOGICAL | git2::Sort::TIME)
}

/// `git2::Revwalk::push_ref`: start the walk at what `reference_name` points
/// to.
#[verifier::external_body]
fn revwalk_push_ref(walk: &mut git2::Revwalk, reference_name: &str) -> Result<(), GitError> {
    walk.push_ref(reference_name)
}

/// `git2::Revwalk::next`: the next commit of the walk, `None` at its end.
#[verifier::external_body]
fn revwalk_next(walk: &mut git2::Revwalk) -> Option<Result<git2::Oid, GitError>> {
    walk.next()
}

/// `git2::Object::short_id` of a commit, copied into a `String`; `None` where
/// the abbreviation is not UTF-8.
#[verifier::external_body]
fn commit_short_id(commit: &GitCommit) -> Result<Option<String>, GitError> {
    commit.as_object().short_id().map(|buf| buf.as_str().map(ToOwned::to_owned))
}

/// `git2::Signature::name_bytes` of `git2::Commit::author`.
#[verifier::external_body]
fn commit_author_name(commit: &GitCommit) -> Vec<u8> {
    commit.author().name_bytes().to_vec()
}

/// `git2::Signature::email_bytes` of `git2::Commit::author`.
#[verifier::external_body]
fn commit_author_email(commit: &GitCommit) -> Vec<u8> {
    commit.author().email_bytes().to_vec()
}

/// `git2::Commit::message_bytes`.
#[verifier::external_body]
fn commit_message(commit: &GitCommit) -> Vec<u8> {
    commit.message_bytes().to_vec()
}

/// `git2::Time::seconds` of `git2::Commit::time`.
#[verifier::external_body]
fn commit_seconds(commit: &GitCommit) -> i64 {
    commit.time().seconds()
}

/// The text that `String::from_utf8_lossy` makes of `bytes`.
pub uninterp spec fn lossy_decoded(bytes: Seq<u8>) -> Seq<char>;

/// `String::from_utf8_lossy`: the bytes read as UTF-8, each malformed run
/// replaced by U+FFFD. Well-formed input is decoded as it stands.
#[verifier::external_body]
fn lossy_text(bytes: &[u8]) -> (text: String)
    ensures
        text@ == lossy_decoded(bytes@),
        valid_utf8(bytes@) ==> text@ == decode_utf8(bytes@),
{
    String::from_utf8_lossy(bytes).into_owned()
}

/// Who wrote a commit.
#[derive(Debug, Clone, PartialEq, Eq)]
pub struct Signature {
    pub name: String,
    pub email: String,
}

/// One entry of a branch's history.
#[derive(Debug, Clone, PartialEq, Eq)]
pub struct Commit {
    /// The abbreviated hash.
    pub id: String,
    pub author: Signature,
    pub message: String,
    /// Commit time in seconds since the Unix epoch; the local date and time
    /// follow from it and the time zone of the machine.
    pub timestamp: i64,
}

impl Commit {
    /// The entry for a commit with the abbreviated hash `id`, whose author
    /// and message are stored as the given bytes. Bytes that are not UTF-8
    /// are replaced, never refused.
    pub fn from_raw(id: String, name: &[u8], email: &[u8], message: &[u8], timestamp: i64) -> (entry:
        Commit)
        ensures
            entry.id == id,
            entry.author.name@ == lossy_decoded(name@),
            entry.author.email@ == lossy_decoded(email@),
            entry.message@ == lossy_decoded(message@),
            entry.timestamp == timestamp,
    {
        Commit {
            id,
            author: Signature { name: lossy_text(name), email: lossy_text(email) },
            message: lossy_text(message),
            timestamp,
        }
    }
}

/// What an error says of a name that the backend could not hand out as text.
pub open spec fn not_utf8_text() -> Seq<char> {
    "a name in the repository is not valid UTF-8"@
}

/// What the gateway makes of a result of the backend: the value as it came,
/// or the backend's words as a failure of `kind`.
pub fn settled<T>(result: Result<T, GitError>, kind: ErrorKind) -> (settled: Result<T, Error>)
    ensures
        result matches Ok(value) ==> settled == Ok::<T, Error>(value),
        result matches Err(refusal) ==> (settled matches Err(e) && e.kind() == kind && e.text()
            == error_text(refusal)),
{
    match result {
        Ok(value) => Ok(value),
        Err(refusal) => Err(Error::new(kind, error_message(&refusal))),
    }
}

/// What the gateway makes of a name that the backend hands out as text only
/// if it is UTF-8: the name as it came, or a failure of `kind`.
pub fn readable(name: Option<String>, kind: ErrorKind) -> (text: Result<String, Error>)
    ensures
        name matches Some(n) ==> text == Ok::<String, Error>(n),
        name is None ==> (text matches Err(e) && e.kind() == kind && e.text() == not_utf8_text()),
{
    match name {
        Some(n) => Ok(n),
        None => Err(Error::new(kind, String::from_str("a name in the repository is not valid UTF-8"))),
    }
}

/// The name that one item of a branch listing carries, if the backend read
/// it and it is UTF-8.
pub open spec fn listed_name(item: Result<Option<String>, GitError>) -> Option<String> {
    match item {
        Ok(Some(name)) => Some(name),
        _ => None,
    }
}

/// What an error says of an item of a branch listing that carries no name:
/// the backend's words, or that the name is not UTF-8.
pub open spec fn unlisted_text(item: Result<Option<String>, GitError>) -> Seq<char> {
    match item {
        Err(refusal) => error_text(refusal),
        _ => not_utf8_text(),
    }
}

/// The item at `at` is the first of `listing` that carries no name.
pub open spec fn first_unlisted(listing: Seq<Result<Option<String>, GitError>>, at: int) -> bool {
    &&& 0 <= at < listing.len()
    &&& listed_name(listing[at]) is None
    &&& forall|k: int| 0 <= k < at ==> listed_name(#[trigger] listing[k]) is Some
}

/// The branch that HEAD is on, given what the backend says of the reference
/// that HEAD resolves to: its short name if it is a branch, nothing if HEAD
/// is detached.
pub fn attached_branch(is_branch: bool, shorthand: Option<String>) -> (branch: Option<String>)
    ensures
        branch == if is_branch {
            shorthand
        } else {
            None
        },
{
    if is_branch {
        shorthand
    } else {
        None
    }
}

/// The names of a branch listing, in the listing's order. The listing is
/// refused as a whole if one of its items is an error or a name that is not
/// UTF-8; the failure then speaks of the first such item.
pub fn listed_names(listing: &Vec<Result<Option<String>, GitError>>) -> (names: Result<
    Vec<String>,
    Error,
>)
    ensures
        names is Ok <==> forall|i: int| 0 <= i < listing@.len() ==> listed_name(listing@[i]) is Some,
        names matches Ok(list) ==> list@.len() == listing@.len() && forall|i: int|
            0 <= i < list@.len() ==> listed_name(listing@[i]) == Some(#[trigger] list@[i]),
        names matches Err(e) ==> e is BranchEnumeration && exists|at: int| #[trigger]
            first_unlisted(listing@, at) && e.text() == unlisted_text(listing@[at]),
{
    let mut list: Vec<String> = Vec::new();
    let mut i: usize = 0;
    while i < listing.len()
        invariant
            i <= listing@.len(),
            list@.len() == i,
            forall|k: int| 0 <= k < i ==> listed_name(#[trigger] listing@[k]) == Some(list@[k]),
        decreases listing@.len() - i,
    {
        match &listing[i] {
            Ok(Some(name)) => {
                list.push(name.clone());
            },
            Ok(None) => {
                assert(first_unlisted(listing@, i as int));
                return Err(
                    Error::new(
                        ErrorKind::BranchEnumeration,
                        String::from_str("a name in the repository is not valid UTF-8"),
                    ),
                );
            },
            Err(refusal) => {
                assert(first_unlisted(listing@, i as int));
                return Err(Error::new(ErrorKind::BranchEnumeration, error_message(refusal)));
            },
        }
        i += 1;
    }
    Ok(list)
}

/// An open repository. Every operation hands the backend's refusal back as
/// an error of its own kind and never panics.
pub struct Repository {
    repo: GitRepository,
}

impl Repository {
    /// Opens the repository at `path`.
    pub fn new(path: &std::path::PathBuf) -> (opened: Result<Repository, Error>)
        ensures
            opened matches Err(e) ==> e is RepositoryAccess,
    {
        match settled(open_repository(path), ErrorKind::RepositoryAccess) {
            Ok(repo) => Ok(Repository { repo }),
            Err(e) => Err(e),
        }
    }

    /// The branch that is checked out, or `None` while HEAD is detached.
    pub fn current_branch(&self) -> (current: Result<Option<String>, Error>)
        ensures
            current matches Err(e) ==> e is RepositoryAccess,
    {
        match settled(head(&self.repo), ErrorKind::RepositoryAccess) {
            Ok(reference) => Ok(
                attached_branch(reference_is_branch(&reference), reference_shorthand(&reference)),
            ),
            Err(e) => Err(e),
        }
    }

    /// The names of the local branches, in the backend's order.
    pub fn branches(&self) -> (names: Result<Vec<String>, Error>)
        ensures
            names matches Err(e) ==> e is RepositoryAccess || e is BranchEnumeration,
    {
        match settled(local_branch_names(&self.repo), ErrorKind::RepositoryAccess) {
            Ok(listing) => listed_names(&listing),
            Err(e) => Err(e),
        }
    }

    /// The first `limit` commits that a walk from the tip of `branch_name`
    /// meets, children before their parents. The texts of a commit are read
    /// permissively; whatever else the backend refuses ends the walk in a
    /// failure. A name with a NUL character names no branch.
    pub fn logs(&self, branch_name: &str, limit: usize) -> (log: Result<Vec<Commit>, Error>)
        ensures
            has_nul(branch_name@) ==> log is Err,
            log matches Ok(entries) ==> entries@.len() <= limit,
            log matches Err(e) ==> e is LogTraversal,
    {
        let branch = match settled(
            find_local_branch(&self.repo, branch_name),
            ErrorKind::LogTraversal,
        ) {
            Ok(branch) => branch,
            Err(e) => {
                return Err(e);
            },
        };
        let tip = match readable(reference_name(branch_reference(&branch)), ErrorKind::LogTraversal) {
            Ok(tip) => tip,
            Err(e) => {
                return Err(e);
            },
        };
        let mut walk = match settled(new_revwalk(&self.repo), ErrorKind::LogTraversal) {
            Ok(walk) => walk,
            Err(e) => {
                return Err(e);
            },
        };
        if let Err(e) = settled(revwalk_sort_children_first(&mut walk), ErrorKind::LogTraversal) {
            return Err(e);
        }
        if let Err(e) = settled(revwalk_push_ref(&mut walk, tip.as_str()), ErrorKind::LogTraversal) {
            return Err(e);
        }
        let mut entries: Vec<Commit> = Vec::new();
        while entries.len() < limit
            invariant
                entries@.len() <= limit,
            decreases limit - entries@.len(),
        {
            let oid = match revwalk_next(&mut walk) {
                Some(item) => match settled(item, ErrorKind::LogTraversal) {
                    Ok(oid) => oid,
                    Err(e) => {
                        return Err(e);
                    },
                },
                None => {
                    break ;
                },
            };
            let commit = match settled(find_commit(&self.repo, oid), ErrorKind::LogTraversal) {
                Ok(commit) => commit,
                Err(e) => {
                    return Err(e);
                },
            };
            let id = match settled(commit_short_id(&commit), ErrorKind::LogTraversal) {
                Ok(id) => match readable(id, ErrorKind::LogTraversal) {
                    Ok(id) => id,
                    Err(e) => {
                        return Err(e);
                    },
                },
                Err(e) => {
                    return Err(e);
                },
            };
            let name = commit_author_name(&commit);
            let email = commit_author_email(&commit);
            let message = commit_message(&commit);
            entries.push(
                Commit::from_raw(
                    id,
                    name.as_slice(),
                    email.as_slice(),
                    message.as_slice(),
                    commit_seconds(&commit),
                ),
            );
        }
        Ok(entries)
    }

    /// Moves the working tree and HEAD to the tip of `branch_name`. A branch
    /// that points at no object is left alone. A name with a NUL character
    /// names no branch.
    pub fn checkout(&self, branch_name: &str) -> (done: Result<(), Error>)
        ensures
            has_nul(branch_name@) ==> done is Err,
            done matches Err(e) ==> e is Checkout,
    {
        let branch = match settled(find_local_branch(&self.repo, branch_name), ErrorKind::Checkout) {
            Ok(branch) => branch,
            Err(e) => {
                return Err(e);
            },
        };
        let reference = branch_reference(&branch);
        let oid = match reference_target(reference) {
            Some(oid) => oid,
            None => {
                return Ok(());
            },
        };
        let name = match readable(reference_name(reference), ErrorKind::Checkout) {
            Ok(name) => name,
            Err(e) => {
                return Err(e);
            },
        };
        let object = match settled(find_object(&self.repo, oid), ErrorKind::Checkout) {
            Ok(object) => object,
            Err(e) => {
                return Err(e);
            },
        };
        if let Err(e) = settled(checkout_tree(&self.repo, &object), ErrorKind::Checkout) {
            return Err(e);
        }
        settled(set_head(&self.repo, name.as_str()), ErrorKind::Checkout)
    }

    /// Creates the branch `branch_name` at the commit that HEAD points to. A
    /// name with a NUL character is refused.
    pub fn checkout_new_branch(&self, branch_name: &str) -> (created: Result<git2::Branch<'_>, Error>)
        ensures
            has_nul(branch_name@) ==> created is Err,
            created matches Err(e) ==> e is RepositoryAccess || e is BranchCreation,
    {
        let reference = match settled(head(&self.repo), ErrorKind::RepositoryAccess) {
            Ok(reference) => reference,
            Err(e) => {
                return Err(e);
            },
        };
        let oid = match reference_target(&reference) {
            Some(oid) => oid,
            None => {
                return Err(
                    Error::new(
                        ErrorKind::BranchCreation,
                        String::from_str("HEAD points at no commit"),
                    ),
                );
            },
        };
        let commit = match settled(find_commit(&self.repo, oid), ErrorKind::BranchCreation) {
            Ok(commit) => commit,
            Err(e) => {
                return Err(e);
            },
        };
        settled(create_branch(&self.repo, branch_name, &commit), ErrorKind::BranchCreation)
    }

    /// Removes the local branch `branch_name`. A name with a NUL character
    /// names no branch.
    pub fn delete_branch(&self, branch_name: &str) -> (deleted: Result<(), Error>)
        ensures
            has_nul(branch_name@) ==> deleted is Err,
            deleted matches Err(e) ==> e is DeleteBranch,
    {
        match settled(find_local_branch(&self.repo, branch_name), ErrorKind::DeleteBranch) {
            Ok(mut branch) => settled(branch_delete(&mut branch), ErrorKind::DeleteBranch),
            Err(e) => Err(e),
        }
    }
}

} // verus!
