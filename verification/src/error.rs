//! What can go wrong between the engine and the repository.

use vstd::prelude::*;

verus! {

/// What kind of repository operation failed.
#[derive(Debug, Clone, Copy, PartialEq, Eq, Structural)]
pub enum ErrorKind {
    RepositoryAccess,
    BranchEnumeration,
    Checkout,
    DeleteBranch,
    LogTraversal,
    BranchCreation,
}

/// A failure of one repository operation, with the backend's own words.
#[derive(Debug, PartialEq, Eq)]
pub enum Error {
    /// The repository could not be opened or read.
    RepositoryAccess(String),
    /// The local branches could not be listed.
    BranchEnumeration(String),
    /// The branch could not be checked out.
    Checkout(String),
    /// The branch could not be deleted.
    DeleteBranch(String),
    /// The history of the branch could not be walked.
    LogTraversal(String),
    /// The new branch could not be created.
    BranchCreation(String),
}

impl Clone for Error {
    fn clone(&self) -> (copy: Error)
        ensures
            copy == *self,
    {
        match self {
            Error::RepositoryAccess(m) => Error::RepositoryAccess(m.clone()),
            Error::BranchEnumeration(m) => Error::BranchEnumeration(m.clone()),
            Error::Checkout(m) => Error::Checkout(m.clone()),
            Error::DeleteBranch(m) => Error::DeleteBranch(m.clone()),
            Error::LogTraversal(m) => Error::LogTraversal(m.clone()),
            Error::BranchCreation(m) => Error::BranchCreation(m.clone()),
        }
    }
}

impl Error {
    /// What kind of operation failed.
    pub open spec fn kind(self) -> ErrorKind {
        match self {
            Error::RepositoryAccess(_) => ErrorKind::RepositoryAccess,
            Error::BranchEnumeration(_) => ErrorKind::BranchEnumeration,
            Error::Checkout(_) => ErrorKind::Checkout,
            Error::DeleteBranch(_) => ErrorKind::DeleteBranch,
            Error::LogTraversal(_) => ErrorKind::LogTraversal,
            Error::BranchCreation(_) => ErrorKind::BranchCreation,
        }
    }

    /// The failure of an operation of `kind`, described by `message`.
    pub fn new(kind: ErrorKind, message: String) -> (error: Error)
        ensures
            error.kind() == kind,
            error.text() == message@,
    {
        match kind {
            ErrorKind::RepositoryAccess => Error::RepositoryAccess(message),
            ErrorKind::BranchEnumeration => Error::BranchEnumeration(message),
            ErrorKind::Checkout => Error::Checkout(message),
            ErrorKind::DeleteBranch => Error::DeleteBranch(message),
            ErrorKind::LogTraversal => Error::LogTraversal(message),
            ErrorKind::BranchCreation => Error::BranchCreation(message),
        }
    }

    /// The backend's description of the failure.
    pub open spec fn text(self) -> Seq<char> {
        match self {
            Error::RepositoryAccess(m) => m@,
            Error::BranchEnumeration(m) => m@,
            Error::Checkout(m) => m@,
            Error::DeleteBranch(m) => m@,
            Error::LogTraversal(m) => m@,
            Error::BranchCreation(m) => m@,
        }
    }

    /// The backend's description of the failure.
    pub fn message(&self) -> (text: &String)
        ensures
            text@ == self.text(),
    {
        match self {
            Error::RepositoryAccess(m) => m,
            Error::BranchEnumeration(m) => m,
            Error::Checkout(m) => m,
            Error::DeleteBranch(m) => m,
            Error::LogTraversal(m) => m,
            Error::BranchCreation(m) => m,
        }
    }
}

} // verus!
