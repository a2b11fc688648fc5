use shared_kit::repo::{parse_repo_input, GitRef, RepoError, RepoInfo, RepoPlatform};

#[test]
fn test_parse_from_short_branch() {
    let input = "user/repo#dev".to_string();
    let parsed = parse_repo_input(&input).unwrap();
    assert_eq!(parsed.user, "user");
    assert_eq!(parsed.repo, "repo");
    assert_eq!(parsed.git_ref, GitRef::Branch("dev".to_string()));
}

#[test]
fn test_parse_from_short_tag() {
    let input = "user/repo@v1.0.0".to_string();
    let parsed = parse_repo_input(&input).unwrap();
    assert_eq!(parsed.git_ref, GitRef::Tag("v1.0.0".to_string()));
}

#[test]
fn test_parse_from_short_commit() {
    let input = "user/repo@0123456789abcdef0123456789abcdef01234567".to_string();
    let parsed = parse_repo_input(&input).unwrap();
    assert_eq!(
        parsed.git_ref,
        GitRef::Commit("0123456789abcdef0123456789abcdef01234567".to_string())
    );
}

#[test]
fn test_parse_from_url_github() {
    let input = "https://github.com/octocat/Hello-World.git".to_string();
    let parsed = parse_repo_input(&input).unwrap();
    assert_eq!(parsed.platform, RepoPlatform::GitHub);
    assert_eq!(parsed.user, "octocat");
    assert_eq!(parsed.repo, "Hello-World");
    assert_eq!(parsed.git_ref, GitRef::Default);
}

#[test]
fn test_parse_from_url_with_ref() {
    let input = "https://github.com/octocat/Hello-World#dev".to_string();
    let parsed = parse_repo_input(&input).unwrap();
    assert_eq!(parsed.git_ref, GitRef::Branch("dev".to_string()));
}

#[test]
fn test_download_url_generation_github() {
    let repo = RepoInfo {
        platform: RepoPlatform::GitHub,
        user: "octocat".to_string(),
        repo: "Hello-World".to_string(),
        git_ref: GitRef::Branch("main".to_string()),
    };
    let url = repo.download_url();
    assert_eq!(url, "https://github.com/octocat/Hello-World/archive/refs/heads/main.zip");
}

#[test]
fn test_download_url_generation_gitlab() {
    let repo = RepoInfo {
        platform: RepoPlatform::GitLab,
        user: "gitlab-org".to_string(),
        repo: "gitlab".to_string(),
        git_ref: GitRef::Tag("v16.0".to_string()),
    };
    let url = repo.download_url();
    assert_eq!(url, "https://gitlab.com/gitlab-org/gitlab/-/archive/v16.0/gitlab-v16.0.zip");
}

#[test]
fn test_invalid_url_should_fail() {
    let input = "invalid_url".to_string();
    let result = parse_repo_input(&input);
    assert!(result.is_err());
}

#[test]
fn test_empty_download_url_should_fail() {
    let repo = RepoInfo {
        platform: RepoPlatform::Other("unknown.com".to_string()),
        user: "foo".to_string(),
        repo: "bar".to_string(),
        git_ref: GitRef::Default,
    };
    assert_eq!(repo.download_url(), "");
}

#[test]
fn test_short_format_rejects_whitespace() {
    let input = "user/re po".to_string();
    match parse_repo_input(&input) {
        Err(RepoError::ShortFormat { input: v }) => assert_eq!(v, "user/re po"),
        other => panic!("expected a short-format error, got {:?}", other),
    }
}

#[test]
fn test_url_missing_user_repo() {
    let input = "https://github.com/onlyuser".to_string();
    match parse_repo_input(&input) {
        Err(RepoError::MissingUserRepo { input: v }) => assert_eq!(v, "https://github.com/onlyuser"),
        other => panic!("expected a missing-user-repo error, got {:?}", other),
    }
}

#[test]
fn test_url_without_host_is_invalid() {
    let input = "http://".to_string();
    match parse_repo_input(&input) {
        Err(RepoError::InvalidUrl { input: v }) => assert_eq!(v, "http://"),
        other => panic!("expected an invalid-url error, got {:?}", other),
    }
}

#[test]
fn test_parse_from_url_gitea_platform() {
    let input = "https://gitea.example.org/someone/thing".to_string();
    let parsed = parse_repo_input(&input).unwrap();
    assert_eq!(parsed.platform, RepoPlatform::Gitea);
}

#[test]
fn test_download_url_gitea() {
    let repo = RepoInfo {
        platform: RepoPlatform::Gitea,
        user: "someone".to_string(),
        repo: "thing".to_string(),
        git_ref: GitRef::Default,
    };
    assert_eq!(repo.download_url(), "https://gitea.com/someone/thing/archive/main.zip");
}

#[test]
fn test_repo_trims_every_git_suffix() {
    let input = "https://github.com/u/r.git.git".to_string();
    let parsed = parse_repo_input(&input).unwrap();
    assert_eq!(parsed.repo, "r");
}
