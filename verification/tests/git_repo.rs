//! The repository detectors against real repositories.

use git2::Repository;
use pursue::repo::{branch_name, is_ahead_behind_remote, is_dirty};
use std::path::Path;
use tempfile::TempDir;

fn temp_repo() -> (TempDir, Repository) {
    let dir = TempDir::new().unwrap();
    let repo = Repository::init(dir.path()).unwrap();
    (dir, repo)
}

fn init_repo(repo: &Repository) {
    let mut config = repo.config().unwrap();
    config.set_str("user.name", "name").unwrap();
    config.set_str("user.email", "email").unwrap();
    let mut index = repo.index().unwrap();
    let id = index.write_tree().unwrap();

    let tree = repo.find_tree(id).unwrap();
    let sig = repo.signature().unwrap();
    repo.commit(Some("HEAD"), &sig, &sig, "initial", &tree, &[])
        .unwrap();
}

fn create_file(root: &Path, name: &str) {
    tempfile::Builder::new()
        .prefix(name)
        .rand_bytes(0)
        .keep(true)
        .tempfile_in(root)
        .unwrap();
}

fn make_commit(repo: &Repository, file_name: &str, msg: &str) {
    let mut index = repo.index().unwrap();
    let sig = repo.signature().unwrap();
    let root = repo.path().parent().unwrap();
    let head = repo.head().unwrap();
    let target = head.target().unwrap();
    let commit = repo.find_commit(target).unwrap();

    create_file(root, file_name);
    index.add_path(Path::new(file_name)).unwrap();
    index.write().unwrap();
    let id = index.write_tree().unwrap();
    let tree = repo.find_tree(id).unwrap();
    repo.commit(Some("HEAD"), &sig, &sig, msg, &tree, &[&commit])
        .unwrap();
}

#[test]
fn branch_name_uses_master_with_brand_new_repo() {
    let (_td, repo) = temp_repo();
    let branch = branch_name(&repo);
    assert_eq!(branch, "master");
}

#[test]
fn branch_name_returns_correct_name() {
    let (_td, repo) = temp_repo();
    init_repo(&repo);
    let branch = repo
        .branch(
            "test_branch",
            &repo.head().unwrap().peel_to_commit().unwrap(),
            false,
        )
        .unwrap();
    repo.set_head("refs/heads/test_branch").unwrap();
    repo.checkout_head(None).unwrap();
    assert!(branch.is_head());

    let branch = branch_name(&repo);
    assert_eq!(branch, "test_branch");
}

#[test]
fn is_dirty_with_untracked_change() {
    let (_td, repo) = temp_repo();
    init_repo(&repo);

    let root = repo.path().parent().unwrap();
    create_file(root, "unstaged_file");

    assert!(is_dirty(&repo));
}

#[test]
fn is_dirty_with_unstaged_change() {
    let (_td, repo) = temp_repo();
    init_repo(&repo);
    let mut index = repo.index().unwrap();

    let root = repo.path().parent().unwrap();
    create_file(root, "unstaged_file");
    index.add_path(Path::new("unstaged_file")).unwrap();
    index.write().unwrap();

    assert!(is_dirty(&repo));
}

#[test]
fn fresh_commit_is_not_dirty() {
    let (_td, repo) = temp_repo();
    init_repo(&repo);
    assert!(!is_dirty(&repo));
}

#[test]
fn untracked_file_removed_restores_clean_state() {
    let (_td, repo) = temp_repo();
    init_repo(&repo);

    let root = repo.path().parent().unwrap().to_owned();
    {
        let file = tempfile::Builder::new()
            .prefix("passing_file")
            .rand_bytes(0)
            .tempfile_in(&root)
            .unwrap();
        assert!(is_dirty(&repo));
        drop(file);
    }
    assert!(!is_dirty(&repo));
}

#[test]
fn unset_remote_is_not_ahead_or_behind() {
    let (_td, repo) = temp_repo();
    init_repo(&repo);
    assert_eq!(is_ahead_behind_remote(&repo), (false, false));
}

#[test]
fn is_ahead_and_behind_remote() {
    let (_td, repo) = temp_repo();
    init_repo(&repo);

    // Make a "local" branch
    let mut local = repo
        .branch(
            "local_branch",
            &repo.head().unwrap().peel_to_commit().unwrap(),
            false,
        )
        .unwrap();

    // Make a "remote" branch
    repo.branch(
        "remote_branch",
        &repo.head().unwrap().peel_to_commit().unwrap(),
        false,
    )
    .unwrap();
    repo.set_head("refs/heads/remote_branch").unwrap();
    repo.checkout_head(None).unwrap();

    // Make a second commit on the remote branch
    make_commit(&repo, "remote_file", "remote commit");

    repo.set_head("refs/heads/local_branch").unwrap();
    repo.checkout_head(None).unwrap();
    assert_eq!(is_ahead_behind_remote(&repo), (false, false));

    // Track the "remote" branch which should be ahead of the "local" branch
    local.set_upstream(Some("remote_branch")).unwrap();
    assert_eq!(is_ahead_behind_remote(&repo), (false, true));

    // Make a second commit on the local branch
    make_commit(&repo, "local_file", "local commit");

    // The "local" branch should now have a commit ahead of the "remote"
    assert_eq!(is_ahead_behind_remote(&repo), (true, true));
}
