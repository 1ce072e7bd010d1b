use git_ex::error::{Error, ErrorKind};
use git_ex::git::{attached_branch, listed_names, readable, settled, Commit, Repository};

struct Fixture {
    dir: tempfile::TempDir,
}

impl Fixture {
    fn path(&self) -> std::path::PathBuf {
        self.dir.path().to_path_buf()
    }

    fn raw(&self) -> git2::Repository {
        git2::Repository::open(self.dir.path()).unwrap()
    }
}

fn commit_at(repo: &git2::Repository, message: &str, seconds: i64) -> git2::Oid {
    let when = git2::Time::new(seconds, 0);
    let sig = git2::Signature::new("Ada", "ada@example.com", &when).unwrap();
    let tree_id = repo.treebuilder(None).unwrap().write().unwrap();
    let tree = repo.find_tree(tree_id).unwrap();
    let parents: Vec<git2::Commit> = match repo.head() {
        Ok(head) => vec![head.peel_to_commit().unwrap()],
        Err(_) => Vec::new(),
    };
    let refs: Vec<&git2::Commit> = parents.iter().collect();
    repo.commit(Some("HEAD"), &sig, &sig, message, &tree, &refs)
        .unwrap()
}

fn fixture(branches: &[&str]) -> Fixture {
    let dir = tempfile::tempdir().unwrap();
    let repo = git2::Repository::init(dir.path()).unwrap();
    repo.set_head("refs/heads/trunk").unwrap();
    let first = commit_at(&repo, "first", 1_000);
    let commit = repo.find_commit(first).unwrap();
    for name in branches {
        repo.branch(name, &commit, false).unwrap();
    }
    Fixture { dir }
}

#[test]
fn open_fails_where_there_is_no_repository() {
    let dir = tempfile::tempdir().unwrap();
    let missing = dir.path().join("nothing-here");
    match Repository::new(&missing) {
        Err(Error::RepositoryAccess(message)) => assert!(!message.is_empty()),
        Err(other) => panic!("unexpected error: {:?}", other),
        Ok(_) => panic!("opened a repository that does not exist"),
    }
}

#[test]
fn branches_lists_every_local_branch() {
    let fx = fixture(&["alpha", "beta", "gamma"]);
    let repo = Repository::new(&fx.path()).unwrap();
    let mut names = repo.branches().unwrap();
    names.sort();
    assert_eq!(names, vec!["alpha", "beta", "gamma", "trunk"]);
}

#[test]
fn current_branch_names_the_branch_under_head() {
    let fx = fixture(&["alpha"]);
    let repo = Repository::new(&fx.path()).unwrap();
    assert_eq!(repo.current_branch().unwrap(), Some("trunk".to_owned()));
}

#[test]
fn current_branch_is_none_while_head_is_detached() {
    let fx = fixture(&["alpha"]);
    {
        let raw = fx.raw();
        let tip = raw.head().unwrap().target().unwrap();
        raw.set_head_detached(tip).unwrap();
    }
    let repo = Repository::new(&fx.path()).unwrap();
    assert_eq!(repo.current_branch().unwrap(), None);
}

#[test]
fn current_branch_fails_on_a_repository_without_commits() {
    let dir = tempfile::tempdir().unwrap();
    git2::Repository::init(dir.path()).unwrap();
    let repo = Repository::new(&dir.path().to_path_buf()).unwrap();
    assert!(matches!(
        repo.current_branch(),
        Err(Error::RepositoryAccess(_))
    ));
}

#[test]
fn checkout_moves_head_to_the_branch() {
    let fx = fixture(&["alpha", "beta", "gamma"]);
    let repo = Repository::new(&fx.path()).unwrap();
    assert_eq!(repo.checkout("beta"), Ok(()));
    assert_eq!(repo.current_branch().unwrap(), Some("beta".to_owned()));
    assert_eq!(fx.raw().head().unwrap().name(), Some("refs/heads/beta"));
}

#[test]
fn checkout_of_a_missing_branch_fails() {
    let fx = fixture(&["alpha"]);
    let repo = Repository::new(&fx.path()).unwrap();
    assert!(matches!(repo.checkout("nope"), Err(Error::Checkout(_))));
    assert_eq!(repo.current_branch().unwrap(), Some("trunk".to_owned()));
}

#[test]
fn delete_branch_removes_the_reference() {
    let fx = fixture(&["alpha", "beta"]);
    let repo = Repository::new(&fx.path()).unwrap();
    assert_eq!(repo.delete_branch("alpha"), Ok(()));
    let mut names = repo.branches().unwrap();
    names.sort();
    assert_eq!(names, vec!["beta", "trunk"]);
}

#[test]
fn delete_branch_fails_for_the_checked_out_branch() {
    let fx = fixture(&["alpha"]);
    let repo = Repository::new(&fx.path()).unwrap();
    assert!(matches!(
        repo.delete_branch("trunk"),
        Err(Error::DeleteBranch(_))
    ));
    assert!(repo.branches().unwrap().contains(&"trunk".to_owned()));
}

#[test]
fn delete_branch_fails_for_a_missing_branch() {
    let fx = fixture(&["alpha"]);
    let repo = Repository::new(&fx.path()).unwrap();
    assert!(matches!(
        repo.delete_branch("nope"),
        Err(Error::DeleteBranch(_))
    ));
}

#[test]
fn logs_show_a_child_before_its_parent_whatever_their_dates() {
    let fx = fixture(&[]);
    {
        let raw = fx.raw();
        commit_at(&raw, "dated late", 9_000);
        commit_at(&raw, "dated early", 500);
        commit_at(&raw, "dated in between", 4_000);
    }
    let repo = Repository::new(&fx.path()).unwrap();
    let log = repo.logs("trunk", 10).unwrap();
    let messages: Vec<&str> = log.iter().map(|c| c.message.as_str()).collect();
    assert_eq!(
        messages,
        vec!["dated in between", "dated early", "dated late", "first"]
    );
}

#[test]
fn logs_returns_the_newest_commits_first() {
    let fx = fixture(&[]);
    {
        let raw = fx.raw();
        for i in 2..=5 {
            commit_at(&raw, &format!("commit {}", i), 1_000 + i);
        }
        let tip = raw.head().unwrap().peel_to_commit().unwrap();
        raw.branch("beta", &tip, false).unwrap();
    }
    let repo = Repository::new(&fx.path()).unwrap();
    let log = repo.logs("beta", 2).unwrap();
    assert_eq!(log.len(), 2);
    assert_eq!(log[0].message, "commit 5");
    assert_eq!(log[1].message, "commit 4");
    for entry in &log {
        assert!(!entry.id.is_empty());
        assert_eq!(entry.author.name, "Ada");
        assert_eq!(entry.author.email, "ada@example.com");
    }
    assert_eq!(log[0].timestamp, 1_005);
    assert_eq!(log[1].timestamp, 1_004);
}

#[test]
fn logs_ids_abbreviate_the_commit_hashes() {
    let fx = fixture(&[]);
    let repo = Repository::new(&fx.path()).unwrap();
    let log = repo.logs("trunk", 10).unwrap();
    assert_eq!(log.len(), 1);
    let full = fx.raw().head().unwrap().target().unwrap().to_string();
    assert!(full.starts_with(&log[0].id));
    assert!(log[0].id.len() >= 4);
    assert_eq!(log[0].message, "first");
}

#[test]
fn logs_stop_at_the_end_of_history() {
    let fx = fixture(&[]);
    {
        let raw = fx.raw();
        commit_at(&raw, "second", 2_000);
    }
    let repo = Repository::new(&fx.path()).unwrap();
    let log = repo.logs("trunk", 40).unwrap();
    assert_eq!(log.len(), 2);
    assert_eq!(log[0].message, "second");
    assert_eq!(log[1].message, "first");
}

#[test]
fn logs_with_limit_zero_are_empty() {
    let fx = fixture(&["alpha"]);
    let repo = Repository::new(&fx.path()).unwrap();
    assert_eq!(repo.logs("alpha", 0).unwrap(), Vec::<Commit>::new());
}

#[test]
fn logs_of_a_missing_branch_fail() {
    let fx = fixture(&["alpha"]);
    let repo = Repository::new(&fx.path()).unwrap();
    assert!(matches!(repo.logs("nope", 3), Err(Error::LogTraversal(_))));
}

#[test]
fn checkout_new_branch_creates_a_branch_at_head() {
    let fx = fixture(&["alpha"]);
    let repo = Repository::new(&fx.path()).unwrap();
    {
        let branch = repo.checkout_new_branch("feature/1-new").unwrap();
        assert_eq!(branch.name().unwrap(), Some("feature/1-new"));
    }
    assert!(repo.branches().unwrap().contains(&"feature/1-new".to_owned()));
}

#[test]
fn checkout_new_branch_refuses_an_existing_name() {
    let fx = fixture(&["alpha"]);
    let repo = Repository::new(&fx.path()).unwrap();
    assert!(matches!(
        repo.checkout_new_branch("alpha"),
        Err(Error::BranchCreation(_))
    ));
}

#[test]
fn commit_from_raw_decodes_permissively() {
    let entry = Commit::from_raw(
        "abc1234".to_owned(),
        b"Gr\xC3\xBC\xC3\x9Fe",
        b"a@b.c",
        b"bad \xFF byte",
        42,
    );
    assert_eq!(entry.id, "abc1234");
    assert_eq!(entry.author.name, "Gr\u{fc}\u{df}e");
    assert_eq!(entry.author.email, "a@b.c");
    assert_eq!(entry.message, "bad \u{fffd} byte");
    assert_eq!(entry.timestamp, 42);
}

#[test]
fn attached_branch_is_none_when_detached() {
    assert_eq!(attached_branch(true, Some("beta".to_owned())), Some("beta".to_owned()));
    assert_eq!(attached_branch(false, Some("HEAD".to_owned())), None);
    assert_eq!(attached_branch(true, None), None);
}

#[test]
fn listed_names_keeps_the_order() {
    let listing = vec![Ok(Some("b".to_owned())), Ok(Some("a".to_owned()))];
    assert_eq!(listed_names(&listing), Ok(vec!["b".to_owned(), "a".to_owned()]));
    assert_eq!(listed_names(&Vec::new()), Ok(Vec::new()));
}

#[test]
fn listed_names_refuses_a_failed_item() {
    let listing = vec![
        Ok(Some("b".to_owned())),
        Err(git2::Error::from_str("broken reference")),
        Ok(Some("a".to_owned())),
    ];
    assert_eq!(
        listed_names(&listing),
        Err(Error::BranchEnumeration("broken reference".to_owned()))
    );
}

#[test]
fn listed_names_refuses_a_name_that_is_not_utf8() {
    let listing = vec![Ok(None), Ok(Some("a".to_owned()))];
    assert!(matches!(
        listed_names(&listing),
        Err(Error::BranchEnumeration(_))
    ));
}

#[test]
fn error_message_is_the_backends_text() {
    let e = Error::Checkout("conflict".to_owned());
    assert_eq!(e.message(), "conflict");
    assert_eq!(e.clone(), e);
}

#[test]
fn error_new_builds_each_kind() {
    let m = || "why".to_owned();
    assert_eq!(Error::new(ErrorKind::RepositoryAccess, m()), Error::RepositoryAccess(m()));
    assert_eq!(Error::new(ErrorKind::BranchEnumeration, m()), Error::BranchEnumeration(m()));
    assert_eq!(Error::new(ErrorKind::Checkout, m()), Error::Checkout(m()));
    assert_eq!(Error::new(ErrorKind::DeleteBranch, m()), Error::DeleteBranch(m()));
    assert_eq!(Error::new(ErrorKind::LogTraversal, m()), Error::LogTraversal(m()));
    assert_eq!(Error::new(ErrorKind::BranchCreation, m()), Error::BranchCreation(m()));
}

#[test]
fn settled_keeps_a_value_and_names_a_refusal() {
    assert_eq!(settled(Ok(7u8), ErrorKind::Checkout), Ok(7u8));
    assert_eq!(
        settled::<u8>(Err(git2::Error::from_str("locked")), ErrorKind::Checkout),
        Err(Error::Checkout("locked".to_owned()))
    );
    assert_eq!(
        settled::<()>(Err(git2::Error::from_str("gone")), ErrorKind::DeleteBranch),
        Err(Error::DeleteBranch("gone".to_owned()))
    );
}

#[test]
fn readable_refuses_a_missing_text() {
    assert_eq!(
        readable(Some("refs/heads/a".to_owned()), ErrorKind::LogTraversal),
        Ok("refs/heads/a".to_owned())
    );
    assert_eq!(
        readable(None, ErrorKind::LogTraversal),
        Err(Error::LogTraversal(
            "a name in the repository is not valid UTF-8".to_owned()
        ))
    );
}

#[test]
fn listed_names_reports_the_first_item_without_a_name() {
    let listing = vec![
        Ok(Some("a".to_owned())),
        Ok(None),
        Err(git2::Error::from_str("later")),
    ];
    assert_eq!(
        listed_names(&listing),
        Err(Error::BranchEnumeration(
            "a name in the repository is not valid UTF-8".to_owned()
        ))
    );
    let listing = vec![Err(git2::Error::from_str("first")), Ok(None)];
    assert_eq!(
        listed_names(&listing),
        Err(Error::BranchEnumeration("first".to_owned()))
    );
}

#[test]
fn failures_carry_the_backends_words() {
    let fx = fixture(&["alpha"]);
    let repo = Repository::new(&fx.path()).unwrap();
    let expected = fx
        .raw()
        .find_branch("nope", git2::BranchType::Local)
        .err()
        .unwrap()
        .message()
        .to_owned();
    assert_eq!(repo.checkout("nope"), Err(Error::Checkout(expected.clone())));
    assert_eq!(repo.delete_branch("nope"), Err(Error::DeleteBranch(expected.clone())));
    assert_eq!(repo.logs("nope", 1), Err(Error::LogTraversal(expected)));
}

#[test]
fn names_with_a_nul_character_are_refused() {
    let fx = fixture(&["alpha"]);
    let repo = Repository::new(&fx.path()).unwrap();
    assert!(matches!(repo.checkout("al\0pha"), Err(Error::Checkout(_))));
    assert!(matches!(repo.delete_branch("alpha\0"), Err(Error::DeleteBranch(_))));
    assert!(matches!(repo.logs("\0", 5), Err(Error::LogTraversal(_))));
    assert!(matches!(
        repo.checkout_new_branch("new\0branch"),
        Err(Error::BranchCreation(_))
    ));
    let mut names = repo.branches().unwrap();
    names.sort();
    assert_eq!(names, vec!["alpha", "trunk"]);
    assert_eq!(repo.current_branch().unwrap(), Some("trunk".to_owned()));
}

#[test]
fn a_path_with_a_nul_character_is_refused() {
    let fx = fixture(&[]);
    let path = format!("{}\0", fx.path().display());
    assert!(matches!(
        Repository::new(&std::path::PathBuf::from(path)),
        Err(Error::RepositoryAccess(_))
    ));
}
