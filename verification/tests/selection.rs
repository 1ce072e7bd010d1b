use git_ex::selection::SelectedSet;

fn names(set: &SelectedSet) -> Vec<&str> {
    set.names().iter().map(|n| n.as_str()).collect()
}

#[test]
fn new_set_is_empty() {
    let set = SelectedSet::new();
    assert!(set.is_empty());
    assert_eq!(set.len(), 0);
    assert!(!set.contains("alpha"));
}

#[test]
fn insert_is_idempotent() {
    let mut set = SelectedSet::new();
    assert!(set.insert("alpha".to_owned()));
    assert_eq!(set.len(), 1);
    assert!(!set.insert("alpha".to_owned()));
    assert_eq!(set.len(), 1);
    assert_eq!(names(&set), vec!["alpha"]);
}

#[test]
fn insert_keeps_the_order_of_marks() {
    let mut set = SelectedSet::new();
    set.insert("gamma".to_owned());
    set.insert("alpha".to_owned());
    set.insert("gamma".to_owned());
    set.insert("beta".to_owned());
    assert_eq!(names(&set), vec!["gamma", "alpha", "beta"]);
    assert!(set.contains("alpha"));
    assert!(!set.contains("alph"));
    assert!(!set.is_empty());
}

#[test]
fn remove_takes_out_one_name() {
    let mut set = SelectedSet::new();
    set.insert("gamma".to_owned());
    set.insert("alpha".to_owned());
    set.insert("beta".to_owned());
    assert!(set.remove("alpha"));
    assert_eq!(names(&set), vec!["gamma", "beta"]);
    assert!(!set.remove("alpha"));
    assert_eq!(names(&set), vec!["gamma", "beta"]);
    assert!(set.remove("gamma"));
    assert!(set.remove("beta"));
    assert!(set.is_empty());
}
