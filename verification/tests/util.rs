use git_ex::text::{containing, contains_name, without_name};
use git_ex::util::{centered_fix_rect, centered_margins, find_git_root_dir, to_refs, Rect};

fn words(list: &[&str]) -> Vec<String> {
    list.iter().map(|w| w.to_string()).collect()
}

#[test]
fn test_to_refs() {
    assert_eq!(to_refs("test"), "refs/heads/test")
}

#[test]
fn to_refs_of_nested_and_empty_names() {
    assert_eq!(to_refs("feature/1-x"), "refs/heads/feature/1-x");
    assert_eq!(to_refs(""), "refs/heads/");
}

#[test]
fn test_find_git_root_dir() {
    // a directory that holds `.git` is its own root
    let at_root = vec![words(&[".git", "src", "Cargo.toml"]), words(&["project"])];
    assert_eq!(find_git_root_dir(&at_root), Some(0));

    // nothing to look at: not a directory
    assert_eq!(find_git_root_dir(&Vec::new()), None);

    // from `src`, the root is the parent
    let from_src = vec![
        words(&["lib.rs", "main.rs"]),
        words(&[".git", "src", "Cargo.toml"]),
        words(&["project"]),
    ];
    assert_eq!(find_git_root_dir(&from_src), Some(1));
}

#[test]
fn find_git_root_dir_takes_the_nearest_root() {
    let nested = vec![words(&["a"]), words(&[".git"]), words(&[".git"])];
    assert_eq!(find_git_root_dir(&nested), Some(1));
}

#[test]
fn find_git_root_dir_needs_the_exact_name() {
    let near = vec![words(&[".gitignore", "x.git", ".git2", "git"]), words(&[])];
    assert_eq!(find_git_root_dir(&near), None);
}

#[test]
fn centered_fix_rect_fits_inside_the_area() {
    let area = Rect { x: 0, y: 0, width: 120, height: 40 };
    assert_eq!(
        centered_fix_rect(100, 5, area),
        Rect { x: 10, y: 17, width: 100, height: 5 }
    );
    assert_eq!(
        centered_fix_rect(100, 30, area),
        Rect { x: 10, y: 5, width: 100, height: 30 }
    );
}

#[test]
fn centered_fix_rect_shrinks_to_a_small_area() {
    let area = Rect { x: 3, y: 4, width: 80, height: 3 };
    assert_eq!(
        centered_fix_rect(100, 5, area),
        Rect { x: 0, y: 0, width: 80, height: 3 }
    );
    let nothing = Rect { x: 0, y: 0, width: 0, height: 0 };
    assert_eq!(centered_fix_rect(100, 5, nothing), nothing);
}

#[test]
fn containing_is_an_exact_substring_filter() {
    let list = words(&["alpha", "beta", "gamma", "Beta"]);
    assert_eq!(containing(&list, "eta"), words(&["beta", "Beta"]));
    assert_eq!(containing(&list, "a"), words(&["alpha", "beta", "gamma", "Beta"]));
    assert_eq!(containing(&list, ""), list);
    assert_eq!(containing(&list, "beta!"), Vec::<String>::new());
    assert_eq!(containing(&list, "B"), words(&["Beta"]));
}

#[test]
fn without_name_drops_every_equal_entry() {
    let list = words(&["a", "b", "a", "ab"]);
    assert_eq!(without_name(&list, "a"), words(&["b", "ab"]));
    assert_eq!(without_name(&list, "zz"), list);
}

#[test]
fn contains_name_compares_whole_names() {
    let list = words(&["alpha", "beta"]);
    assert!(contains_name(&list, "beta"));
    assert!(!contains_name(&list, "bet"));
    assert!(!contains_name(&Vec::new(), ""));
}

#[test]
fn centered_margins_split_what_is_left() {
    assert_eq!(centered_margins(50), (25, 50, 25));
    assert_eq!(centered_margins(60), (20, 60, 20));
    assert_eq!(centered_margins(100), (0, 100, 0));
    assert_eq!(centered_margins(0), (50, 0, 50));
    assert_eq!(centered_margins(75), (12, 75, 12));
}
