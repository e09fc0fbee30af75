use rit::checkout::{file_needs_write, CheckoutManager, LiveState};
use rit::repository::{File, Remote, Repository};

fn remote(name: &str, url: &str) -> Remote {
    Remote { name: name.to_string(), url: url.to_string() }
}

fn repo(name: &str, path: &str, branch: &str) -> Repository {
    Repository {
        name: name.to_string(),
        path: path.to_string(),
        branch: branch.to_string(),
        remotes: vec![remote("origin", "ssh://git@host/r")],
        fetch: remote("origin", "ssh://git@host/r"),
    }
}

#[test]
fn plan_for_one_settled_and_one_diverged_repository() {
    let a = repo("a", "", "main");
    let b = repo("b", "", "release");
    let live = vec![
        LiveState::Present { branch: "main".to_string() },
        LiveState::Present { branch: "old".to_string() },
    ];
    let plan = CheckoutManager::build_plan(vec![a, b], live);
    assert!(plan.clone.is_empty());
    assert_eq!(plan.branches.len(), 1);
    assert_eq!(plan.branches[0].repository.name, "b");
    assert_eq!(plan.branches[0].current, "old");
    assert_eq!(plan.branches[0].next, "release");

    let f = File {
        path: "conf".to_string(),
        content: Some(String::new()),
        checksum: Some(17),
    };
    assert!(!file_needs_write(&f, Some(17)));
}

#[test]
fn plan_is_empty_when_live_state_matches_the_manifest() {
    let repos = vec![repo("a", "x", "main"), repo("b", "y", "dev")];
    let live = vec![
        LiveState::Present { branch: "main".to_string() },
        LiveState::Present { branch: "dev".to_string() },
    ];
    let plan = CheckoutManager::build_plan(repos, live);
    assert!(plan.clone.is_empty());
    assert!(plan.branches.is_empty());
}

#[test]
fn absent_repositories_are_cloned_in_manifest_order() {
    let repos = vec![repo("a", "", "main"), repo("b", "", "main"), repo("c", "", "main")];
    let live = vec![
        LiveState::Absent,
        LiveState::Present { branch: "main".to_string() },
        LiveState::Absent,
    ];
    let plan = CheckoutManager::build_plan(repos, live);
    assert_eq!(plan.clone.len(), 2);
    assert_eq!(plan.clone[0].name, "a");
    assert_eq!(plan.clone[1].name, "c");
    assert!(plan.branches.is_empty());
}

#[test]
fn matching_checksum_skips_the_rewrite() {
    let f = File {
        path: "a.txt".to_string(),
        content: Some("x".to_string()),
        checksum: Some(42),
    };
    assert!(!file_needs_write(&f, Some(42)));
    assert!(file_needs_write(&f, Some(41)));
    assert!(file_needs_write(&f, None));
}

#[test]
fn uncaptured_files_are_never_written() {
    let f = File { path: "a.txt".to_string(), content: None, checksum: None };
    assert!(!file_needs_write(&f, None));
    assert!(!file_needs_write(&f, Some(7)));
}

#[test]
fn a_stored_file_without_checksum_is_rewritten() {
    let f = File { path: "a.txt".to_string(), content: Some("x".to_string()), checksum: None };
    assert!(file_needs_write(&f, Some(7)));
}

#[test]
fn capture_keeps_a_payload_only_for_empty_files() {
    let captured = File::capture("empty.txt".to_string(), 0, String::new());
    assert_eq!(captured.path, "empty.txt");
    assert_eq!(captured.content, Some(String::new()));
    assert_eq!(captured.checksum, Some(0));

    let skipped = File::capture("big.txt".to_string(), 10, String::new());
    assert_eq!(skipped.path, "big.txt");
    assert_eq!(skipped.content, None);
    assert_eq!(skipped.checksum, None);
}

#[test]
fn content_checksum_is_the_crc32_of_the_text() {
    assert_eq!(File::content_checksum(""), 0);
    assert_eq!(File::content_checksum("hello"), 907060870);
}
