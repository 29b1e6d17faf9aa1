use paastel::git_shell::{parse_git_command, sanitize_repo_path, GitShellError};

#[test]
fn parses_single_quoted_receive_pack() {
    let (cmd, repo) = parse_git_command("git-receive-pack '/kovi/devsecops/site-estatico.git'").unwrap();
    assert_eq!(cmd, "git-receive-pack");
    assert_eq!(repo, "/kovi/devsecops/site-estatico.git");
}

#[test]
fn parses_double_quoted_upload_pack() {
    let (cmd, repo) = parse_git_command("  git-upload-pack \"/kovi/devsecops/site-estatico.git\"  ").unwrap();
    assert_eq!(cmd, "git-upload-pack");
    assert_eq!(repo, "/kovi/devsecops/site-estatico.git");
}

#[test]
fn parses_unquoted_upload_archive() {
    let (cmd, repo) = parse_git_command("git-upload-archive   org/app.git").unwrap();
    assert_eq!(cmd, "git-upload-archive");
    assert_eq!(repo, "org/app.git");
}

#[test]
fn rejects_unknown_command() {
    assert!(matches!(parse_git_command("rm -rf /"), Err(GitShellError::UnsupportedCommand(_))));
    assert!(matches!(parse_git_command("git-receive-pack"), Err(GitShellError::UnsupportedCommand(_))));
}

#[test]
fn rejects_missing_repository() {
    assert!(matches!(parse_git_command("git-receive-pack ''"), Err(GitShellError::MissingRepoPath(_))));
    assert!(matches!(parse_git_command("git-upload-pack    "), Err(GitShellError::UnsupportedCommand(_))));
    assert!(matches!(parse_git_command("git-upload-pack  \t "), Err(GitShellError::UnsupportedCommand(_))));
}

#[test]
fn lone_quote_is_kept() {
    let (_, repo) = parse_git_command("git-receive-pack '").unwrap();
    assert_eq!(repo, "'");
}

#[test]
fn sanitize_strips_leading_slashes() {
    assert_eq!(sanitize_repo_path("///org/team/app.git").unwrap(), "org/team/app.git");
    assert_eq!(sanitize_repo_path("org/app.git").unwrap(), "org/app.git");
}

#[test]
fn sanitize_rejects_traversal_and_empty() {
    assert!(matches!(sanitize_repo_path("/org/../etc/passwd"), Err(GitShellError::PathTraversal(_))));
    assert!(matches!(sanitize_repo_path("a..b"), Err(GitShellError::PathTraversal(_))));
    assert!(matches!(sanitize_repo_path("///"), Err(GitShellError::InvalidRepoPath(_))));
    assert!(matches!(sanitize_repo_path(""), Err(GitShellError::InvalidRepoPath(_))));
}
