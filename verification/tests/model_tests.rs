use rit::errors::Error;
use rit::pool::Pool;
use rit::repository::{File, Remote, Repository};
use rit::settings::Settings;
use rit::text::{last_slash, path_join, rel_to};

fn remote(name: &str, url: &str) -> Remote {
    Remote { name: name.to_string(), url: url.to_string() }
}

#[test]
fn paths_join_with_a_single_separator() {
    assert_eq!(path_join("/r", "sub"), "/r/sub");
    assert_eq!(path_join("", "sub"), "sub");
    assert_eq!(path_join("/r", ""), "/r");
    assert_eq!(path_join("", ""), "");
}

#[test]
fn relative_paths_strip_the_root() {
    assert_eq!(rel_to("/r/a/b", "/r"), Some("a/b".to_string()));
    assert_eq!(rel_to("/r", "/r"), Some(String::new()));
    assert_eq!(rel_to("/rext/a", "/r"), None);
    assert_eq!(rel_to("/q/a", "/r"), None);
}

#[test]
fn the_last_separator_is_found_from_the_end() {
    assert_eq!(last_slash("/r/a/b"), Some(4));
    assert_eq!(last_slash("plain"), None);
    assert_eq!(last_slash(""), None);
}

#[test]
fn full_paths_are_rooted() {
    let repo = Repository {
        name: "repo".to_string(),
        path: "group".to_string(),
        branch: "main".to_string(),
        remotes: vec![remote("origin", "u")],
        fetch: remote("origin", "u"),
    };
    assert_eq!(repo.full_path("/pool"), "/pool/group/repo");

    let top = Repository { path: String::new(), ..repo };
    assert_eq!(top.full_path("/pool"), "/pool/repo");

    let file = File { path: "notes/a.txt".to_string(), content: None, checksum: None };
    assert_eq!(file.full_path("/pool"), "/pool/notes/a.txt");
}

#[test]
fn a_repository_is_assembled_from_its_inspection() {
    let remotes = vec![remote("backup", "ssh://git@mirror/r"), remote("origin", "ssh://git@host/r")];
    let repo = Repository::from_parts(
        "/pool",
        "/pool/group/repo",
        "refs/heads/main".to_string(),
        remotes,
        "origin",
    )
    .unwrap();
    assert_eq!(repo.name, "repo");
    assert_eq!(repo.path, "group");
    assert_eq!(repo.branch, "refs/heads/main");
    assert_eq!(repo.remotes.len(), 2);
    assert_eq!(repo.fetch.name, "origin");
    assert_eq!(repo.fetch.url, "ssh://git@host/r");
}

#[test]
fn a_repository_directly_under_the_root_has_an_empty_path() {
    let remotes = vec![remote("origin", "u")];
    let repo = Repository::from_parts("/pool", "/pool/repo", "main".to_string(), remotes, "origin")
        .unwrap();
    assert_eq!(repo.name, "repo");
    assert_eq!(repo.path, "");
}

#[test]
fn a_directory_outside_the_root_is_no_repository() {
    let remotes = vec![remote("origin", "u")];
    match Repository::from_parts("/pool", "/elsewhere/repo", "main".to_string(), remotes, "origin")
    {
        Err(Error::RepositoryDoesNotExists { path }) => assert_eq!(path, "/elsewhere/repo"),
        _ => panic!("expected a repository-does-not-exist error"),
    }
}

#[test]
fn a_missing_upstream_remote_is_a_delegate_failure() {
    let remotes = vec![remote("backup", "u")];
    match Repository::from_parts("/pool", "/pool/repo", "main".to_string(), remotes, "origin") {
        Err(e @ Error::DelegateFailure { .. }) => {
            assert_eq!(e.message(), "Delegate failed: remote 'origin' not found")
        }
        _ => panic!("expected a delegate failure"),
    }
}

#[test]
fn error_messages_name_their_subject() {
    let e = Error::PoolAlreadyExists { label: "work".to_string() };
    assert_eq!(e.message(), "Pool 'work' already exists.");
    let e = Error::PoolDoesNotExists { label: "work".to_string() };
    assert_eq!(e.message(), "Pool 'work' does not exists.");
    let e = Error::RepositoryDoesNotExists { path: "/r/a".to_string() };
    assert_eq!(e.message(), "Repository '/r/a' does not exists.");
    let e = Error::FileDoesNotExists { path: "/r/f".to_string() };
    assert_eq!(e.message(), "File '/r/f' does not exists.");
    assert_eq!(
        Error::InvalidSettingsFile.message(),
        "Settings file is invalid, do you have a home folder ?"
    );
    let e = Error::InvalidPattern { pattern: "(".to_string() };
    assert_eq!(e.message(), "Pattern '(' is invalid.");
    assert!(Error::NoCurrentPoolSet.message().contains("No pool is currently set"));
}

#[test]
fn a_fresh_pool_is_empty_and_grows_by_excludes() {
    let mut pool = Pool::new("work".to_string(), "/pool".to_string());
    assert_eq!(pool.label, "work");
    assert_eq!(pool.root, "/pool");
    assert!(pool.excludes.is_empty());
    assert!(pool.repositories.is_empty());
    assert!(pool.files.is_empty());

    pool.add_exclude("*.log".to_string());
    pool.add_exclude("/pool/tmp".to_string());
    assert_eq!(pool.excludes, vec!["*.log".to_string(), "/pool/tmp".to_string()]);

    pool.set_label("home".to_string());
    pool.set_root("/elsewhere".to_string());
    assert_eq!(pool.label, "home");
    assert_eq!(pool.root, "/elsewhere");
}

#[test]
fn pools_are_stored_as_yml_files_under_the_store() {
    assert_eq!(Pool::storage_path("/cfg/store", "work"), "/cfg/store/work.yml");
}

#[test]
fn the_store_resolves_against_the_configuration_directory() {
    let s = Settings {
        store: "/abs/store".to_string(),
        executable: "git".to_string(),
        current: None,
    };
    assert_eq!(s.store_full_path(&Some("/cfg".to_string())), "/abs/store");

    let s = Settings { store: "store".to_string(), executable: "git".to_string(), current: None };
    assert_eq!(s.store_full_path(&Some("/cfg".to_string())), "/cfg/store");
    assert_eq!(s.store_full_path(&None), "store");
}

#[test]
fn the_user_settings_file_lives_in_the_configuration_directory() {
    assert_eq!(
        Settings::user_config_file(&Some("/cfg/gmux".to_string())),
        Some("/cfg/gmux/gmux.yml".to_string())
    );
    assert_eq!(Settings::user_config_file(&None), None);
}

#[test]
fn setting_the_current_pool_keeps_the_rest() {
    let mut s = Settings {
        store: "store".to_string(),
        executable: "git".to_string(),
        current: None,
    };
    s.set_current("work".to_string());
    assert_eq!(s.current, Some("work".to_string()));
    assert_eq!(s.store, "store");
    assert_eq!(s.executable, "git");
}
