use findrep::path_filter::{basename, include_entry, is_hidden, Candidate};

fn entry(path: &str, is_file: bool) -> Candidate {
    Candidate { path: path.to_string(), is_file, is_dir: !is_file }
}

#[test]
fn basename_takes_last_component() {
    assert_eq!(basename("src/main.rs"), Some("main.rs".to_string()));
    assert_eq!(basename("/abs/dir/"), Some("dir".to_string()));
    assert_eq!(basename("a/b/."), Some("b".to_string()));
    assert_eq!(basename("plain"), Some("plain".to_string()));
}

#[test]
fn basename_of_root_dot_and_parent_is_none() {
    assert_eq!(basename(""), None);
    assert_eq!(basename("/"), None);
    assert_eq!(basename("."), None);
    assert_eq!(basename(".."), None);
    assert_eq!(basename("a/.."), None);
}

#[test]
fn hidden_names_start_with_dot() {
    assert!(is_hidden(".env"));
    assert!(is_hidden("dir/.git"));
    assert!(is_hidden("dir/.git/"));
    assert!(!is_hidden("dir/visible.txt"));
    assert!(!is_hidden("."));
    assert!(!is_hidden(".."));
}

#[test]
fn hidden_files_are_kept_and_hidden_dirs_pruned() {
    // a root holding `.env` and `.git/config`
    assert!(include_entry(&entry("root", false)));
    assert!(include_entry(&entry("root/.env", true)));
    assert!(!include_entry(&entry("root/.git", false)));
    assert!(include_entry(&entry("root/src", false)));
    assert!(include_entry(&entry("root/src/lib.rs", true)));
}
