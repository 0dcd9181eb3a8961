use coursework::archive::{ArchiveJob, EntryAction};
use coursework::path_filter::{archive_name, is_ignored_name, is_included, segments};

fn names(v: &[&str]) -> Vec<String> {
    v.iter().map(|s| s.to_string()).collect()
}

fn job(ignore: &[&str], file_name: &str) -> ArchiveJob {
    ArchiveJob {
        root: ".".to_string(),
        ignore: names(ignore),
        file_name: file_name.to_string(),
        password: None,
    }
}

#[test]
fn segments_split_at_every_separator() {
    assert_eq!(segments("a/b/c", '/'), names(&["a", "b", "c"]));
    assert_eq!(segments("a//b", '/'), names(&["a", "", "b"]));
    assert_eq!(segments("", '/'), names(&[""]));
    assert_eq!(segments("a\\b", '\\'), names(&["a", "b"]));
}

#[test]
fn ignored_segment_excludes_path_at_any_depth() {
    let ignore = names(&[".git", "target"]);
    assert!(!is_included(".git", '/', &ignore));
    assert!(!is_included(".git/config", '/', &ignore));
    assert!(!is_included("src/.git/objects/ab", '/', &ignore));
    assert!(!is_included("deep/er/target", '/', &ignore));
    assert!(is_included("src/main.rs", '/', &ignore));
}

#[test]
fn matching_is_exact_per_segment() {
    let ignore = names(&[".git"]);
    assert!(is_included(".github/workflows", '/', &ignore));
    assert!(is_included("my.git", '/', &ignore));
    assert!(is_included(".git2/x", '/', &ignore));
    assert!(is_ignored_name(".git", &ignore));
    assert!(!is_ignored_name(".Git", &ignore));
}

#[test]
fn empty_ignore_set_includes_everything() {
    let ignore: Vec<String> = Vec::new();
    assert!(is_included("a/b/c", '/', &ignore));
    assert!(is_included("", '/', &ignore));
}

#[test]
fn archive_names_use_forward_slashes() {
    assert_eq!(archive_name("sub\\dir\\b.txt", '\\'), "sub/dir/b.txt");
    assert_eq!(archive_name("sub/b.txt", '/'), "sub/b.txt");
    assert_eq!(archive_name("plain", '/'), "plain");
}

#[test]
fn scenario_git_directory_left_out() {
    let j = job(&[".git"], "cs101_alice_20240115.zip");
    assert_eq!(j.plan_entry("a.txt", '/', false), EntryAction::AddFile("a.txt".to_string()));
    assert_eq!(j.plan_entry(".git", '/', true), EntryAction::Skip);
    assert_eq!(j.plan_entry(".git/config", '/', false), EntryAction::Skip);
    assert_eq!(j.plan_entry("sub", '/', true), EntryAction::AddDirectory("sub".to_string()));
    assert_eq!(
        j.plan_entry("sub/b.txt", '/', false),
        EntryAction::AddFile("sub/b.txt".to_string())
    );
}

#[test]
fn empty_directory_kept_as_entry() {
    let j = job(&[], "out.zip");
    assert_eq!(j.plan_entry("empty", '/', true), EntryAction::AddDirectory("empty".to_string()));
    assert_eq!(
        j.plan_entry("a\\empty", '\\', true),
        EntryAction::AddDirectory("a/empty".to_string())
    );
}

#[test]
fn root_and_archive_itself_skipped() {
    let j = job(&[], "out.zip");
    assert_eq!(j.plan_entry("", '/', true), EntryAction::Skip);
    assert_eq!(j.plan_entry("out.zip", '/', false), EntryAction::Skip);
    assert_eq!(j.plan_entry("sub/out.zip", '/', false), EntryAction::AddFile("sub/out.zip".to_string()));
}
