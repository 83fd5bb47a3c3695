use configparser::ini::Ini;
use wyag::commands::{init, CommandError};
use wyag::config::repository_format_version;
use wyag::git_repository::{
    clean_unc, find_repo_step, parent_of, repo_path, GitRepository, RepositoryError, SearchStep,
};

#[test]
fn create_repo_path() {
    let base = "/tmp/testing/create_repo_path";
    let test_repo = GitRepository::new(
        base.to_string(),
        format!("{}/.git", base),
        Ini::new(),
    );
    let head = repo_path(&test_repo, "refs/head");
    let res_path = format!("{}/.git/refs/head", base);
    assert!(head == res_path, "was {}", head);
}

#[test]
fn opening_without_a_git_directory_fails() {
    let r = GitRepository::at_path("/w".to_string(), false, None, false);
    assert!(matches!(r, Err(RepositoryError::NoGitDirectory())));
}

#[test]
fn opening_without_a_config_file_fails() {
    let r = GitRepository::at_path("/w".to_string(), true, None, false);
    assert!(matches!(r, Err(RepositoryError::MissingConfig())));
}

#[test]
fn force_skips_every_check() {
    let repo = GitRepository::at_path("/w".to_string(), false, None, true).expect("force failed");
    assert_eq!(repo.worktree(), "/w");
    assert_eq!(repo.gitdir(), "/w/.git");
    // an unreadable config is treated as absent under force
    let repo = GitRepository::at_path(
        "/w".to_string(),
        true,
        Some(Err("permission denied".to_string())),
        true,
    )
    .expect("force over unreadable config failed");
    assert_eq!(repository_format_version(repo.config()), Ok(None));
    // so is one that does not parse
    let repo = GitRepository::at_path(
        "/w".to_string(),
        true,
        Some(Ok("[core".to_string())),
        true,
    )
    .expect("force over unparsable config failed");
    assert_eq!(repo.gitdir(), "/w/.git");
    assert_eq!(repository_format_version(repo.config()), Ok(None));
    // a config that does load is still taken along
    let text = "[core]\nrepositoryformatversion=7\n";
    let repo = GitRepository::at_path("/w".to_string(), false, Some(Ok(text.to_string())), true)
        .expect("force with readable config failed");
    assert_eq!(repository_format_version(repo.config()), Ok(Some(7)));
}

#[test]
fn opening_with_version_zero_succeeds() {
    let text = "[core]\nrepositoryformatversion=0\nfilemode=false\nbare=false\n";
    let repo = GitRepository::at_path("/w".to_string(), true, Some(Ok(text.to_string())), false)
        .expect("open failed");
    assert_eq!(repo.gitdir(), "/w/.git");
    assert_eq!(
        repository_format_version(repo.config()),
        Ok(Some(0))
    );
}

#[test]
fn opening_with_another_version_fails() {
    let text = "[core]\nrepositoryformatversion=2\n";
    let r = GitRepository::at_path("/w".to_string(), true, Some(Ok(text.to_string())), false);
    assert!(matches!(r, Err(RepositoryError::UnsupportedVersion(2))));
}

#[test]
fn opening_without_a_version_key_fails() {
    let text = "[core]\nbare=false\n";
    let r = GitRepository::at_path("/w".to_string(), true, Some(Ok(text.to_string())), false);
    assert!(matches!(r, Err(RepositoryError::VersionNotFound())));
    let text = "[core]\nrepositoryformatversion=soon\n";
    let r = GitRepository::at_path("/w".to_string(), true, Some(Ok(text.to_string())), false);
    assert!(matches!(r, Err(RepositoryError::VersionNotFound())));
}

#[test]
fn unreadable_or_unparsable_config_fails() {
    let r = GitRepository::at_path(
        "/w".to_string(),
        true,
        Some(Err("permission denied".to_string())),
        false,
    );
    match r {
        Err(RepositoryError::ConfigLoadFail(msg)) => assert_eq!(msg, "permission denied"),
        other => panic!("expected load failure, got {:?}", other.map(|r| r.worktree)),
    }
    let r = GitRepository::at_path(
        "/w".to_string(),
        true,
        Some(Ok("[core".to_string())),
        false,
    );
    assert!(matches!(r, Err(RepositoryError::ConfigLoadFail(_))));
}

#[test]
fn init_writes_a_version_zero_config() {
    let r = init("/fresh", false).expect("init failed");
    assert_eq!(r.0, "/fresh/.git");
    assert_eq!(repository_format_version(&r.1), Ok(Some(0)));
    assert_eq!(r.1.get("core", "repositoryformatversion"), Some("0".to_string()));
    assert_eq!(r.1.get("core", "filemode"), Some("false".to_string()));
    assert_eq!(r.1.get("core", "bare"), Some("false".to_string()));
}

#[test]
fn init_refuses_an_existing_git_directory() {
    match init("/fresh", true) {
        Err(CommandError::Init(msg)) => assert_eq!(msg, "Already a git directory"),
        _ => panic!("expected init to refuse"),
    }
}

#[test]
fn discovery_walks_upward_to_the_repository() {
    // dir/a/.git exists: starting from dir/a/b/c the search ascends twice and
    // then finds dir/a
    let mut candidate = "/dir/a/b/c".to_string();
    match find_repo_step(candidate.clone(), false) {
        SearchStep::Ascend(p) => candidate = p,
        _ => panic!("expected to ascend"),
    }
    assert_eq!(candidate, "/dir/a/b");
    match find_repo_step(candidate.clone(), false) {
        SearchStep::Ascend(p) => candidate = p,
        _ => panic!("expected to ascend"),
    }
    assert_eq!(candidate, "/dir/a");
    match find_repo_step(candidate.clone(), true) {
        SearchStep::Found(p) => assert_eq!(p, "/dir/a"),
        _ => panic!("expected to find the repository"),
    }
}

#[test]
fn discovery_stops_at_the_filesystem_root() {
    assert_eq!(parent_of("/dir"), Some("/".to_string()));
    assert_eq!(parent_of("/"), None);
    assert_eq!(parent_of("relative"), None);
    assert!(matches!(
        find_repo_step("/".to_string(), false),
        SearchStep::NotFound
    ));
}

#[test]
fn extended_path_prefixes_are_stripped() {
    assert_eq!(clean_unc(r"\\?\C:\repo".to_string()), r"C:\repo");
    assert_eq!(clean_unc("/plain/path".to_string()), "/plain/path");
    assert_eq!(clean_unc(r"\\?".to_string()), r"\\?");
}
