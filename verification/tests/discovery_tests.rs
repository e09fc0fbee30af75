use rit::discovery::{DiscoveryManager, EntryKind, WalkEntry};
use rit::errors::Error;

fn dir(path: &str, repo_marker: bool) -> WalkEntry {
    WalkEntry { path: path.to_string(), kind: EntryKind::Directory { repo_marker } }
}

fn file(path: &str) -> WalkEntry {
    WalkEntry { path: path.to_string(), kind: EntryKind::RegularFile }
}

fn other(path: &str) -> WalkEntry {
    WalkEntry { path: path.to_string(), kind: EntryKind::Other }
}

fn sample_tree() -> Vec<WalkEntry> {
    vec![
        dir("/r", false),
        dir("/r/repo1", true),
        dir("/r/repo1/src", false),
        file("/r/repo1/src/main.c"),
        file("/r/notes.txt"),
        dir("/r/tmp", false),
        file("/r/tmp/junk.txt"),
        dir("/r/plain", false),
        file("/r/plain/keep.txt"),
        other("/r/link"),
    ]
}

#[test]
fn classify_partitions_the_tree() {
    let excludes = vec!["/r/tmp".to_string()];
    let c = DiscoveryManager::classify(sample_tree(), &excludes).unwrap();
    assert_eq!(c.repository_roots, vec!["/r/repo1".to_string()]);
    assert_eq!(
        c.file_paths,
        vec!["/r/notes.txt".to_string(), "/r/plain/keep.txt".to_string()]
    );
}

#[test]
fn classify_is_idempotent_on_an_unchanged_tree() {
    let excludes = vec!["/r/tmp".to_string()];
    let first = DiscoveryManager::classify(sample_tree(), &excludes).unwrap();
    let second = DiscoveryManager::classify(sample_tree(), &excludes).unwrap();
    assert_eq!(first.repository_roots, second.repository_roots);
    assert_eq!(first.file_paths, second.file_paths);
}

#[test]
fn excluded_directory_hides_a_repository_beneath_it() {
    let entries = vec![
        dir("/r", false),
        dir("/r/ex", false),
        dir("/r/ex/repo", true),
        file("/r/ex/loose.txt"),
        file("/r/kept.txt"),
    ];
    let excludes = vec!["/r/ex".to_string()];
    let c = DiscoveryManager::classify(entries, &excludes).unwrap();
    assert!(c.repository_roots.is_empty());
    assert_eq!(c.file_paths, vec!["/r/kept.txt".to_string()]);
}

#[test]
fn repository_contents_are_not_walked_individually() {
    let entries = vec![
        dir("/r", false),
        dir("/r/repo", true),
        file("/r/repo/README"),
        dir("/r/repo/nested", true),
    ];
    let c = DiscoveryManager::classify(entries, &Vec::new()).unwrap();
    assert_eq!(c.repository_roots, vec!["/r/repo".to_string()]);
    assert!(c.file_paths.is_empty());
}

#[test]
fn glob_patterns_match_whole_paths() {
    let entries = vec![dir("/r", false), file("/r/build.log"), file("/r/build.txt")];
    let excludes = vec!["*.log".to_string()];
    let c = DiscoveryManager::classify(entries, &excludes).unwrap();
    assert_eq!(c.file_paths, vec!["/r/build.txt".to_string()]);
}

#[test]
fn an_invalid_exclude_pattern_is_rejected() {
    let entries = vec![dir("/r", false)];
    let excludes = vec!["a[".to_string()];
    match DiscoveryManager::classify(entries, &excludes) {
        Err(Error::InvalidPattern { pattern }) => assert_eq!(pattern, "a["),
        other => panic!("expected an invalid-pattern error, got {:?}", other.is_ok()),
    }
}

#[test]
fn empty_walk_discovers_nothing() {
    let c = DiscoveryManager::classify(Vec::new(), &Vec::new()).unwrap();
    assert!(c.repository_roots.is_empty());
    assert!(c.file_paths.is_empty());
}
