use repo_metadata::path::{HostId, LocalOrRemotePath, RemoteNavigationResult, RemotePath, StandardizedPath};
use repo_metadata::repositories::{
    remote_git_repo_root, DetectedRepositories, LocalDetectionStep, RepoDetectionSource,
};

fn p(s: &str) -> StandardizedPath {
    StandardizedPath::try_from_local(s).unwrap()
}

fn local(s: &str) -> LocalOrRemotePath {
    LocalOrRemotePath::Local(p(s))
}

fn remote(host: &str, s: &str) -> LocalOrRemotePath {
    LocalOrRemotePath::Remote(RemotePath::new(HostId::new(host.to_string()), p(s)))
}

const SRC: RepoDetectionSource = RepoDetectionSource::TerminalNavigation;

#[test]
fn lookup_finds_nearest_registered_ancestor() {
    let mut repos = DetectedRepositories::new();
    repos.insert_test_repo_root(p("/home/u/repo"));
    repos.insert_test_repo_root(p("/home/u/repo/vendor/lib"));
    assert_eq!(repos.get_root_for_canonical_path(&local("/home/u/repo/src/main")), Some(local("/home/u/repo")));
    assert_eq!(
        repos.get_root_for_canonical_path(&local("/home/u/repo/vendor/lib/x")),
        Some(local("/home/u/repo/vendor/lib"))
    );
    assert_eq!(repos.get_root_for_canonical_path(&local("/home/u/repo")), Some(local("/home/u/repo")));
    assert_eq!(repos.get_root_for_canonical_path(&local("/home/u")), None);
    assert_eq!(repos.get_root_for_canonical_path(&local("/home/u/repository")), None);
}

#[test]
fn root_at_filesystem_root_covers_everything_local() {
    let mut repos = DetectedRepositories::new();
    repos.insert_test_repo_root(p("/"));
    assert_eq!(repos.get_root_for_canonical_path(&local("/a/b")), Some(local("/")));
    assert_eq!(repos.get_root_for_canonical_path(&remote("h", "/a/b")), None);
}

#[test]
fn remote_roots_are_per_host() {
    let mut repos = DetectedRepositories::new();
    repos.register_remote_repo_root(RemotePath::new(HostId::new("h1".to_string()), p("/srv/repo")));
    repos.register_remote_repo_root(RemotePath::new(HostId::new("h2".to_string()), p("/opt")));
    assert_eq!(repos.get_root_for_canonical_path(&remote("h1", "/srv/repo/a")), Some(remote("h1", "/srv/repo")));
    assert_eq!(repos.get_root_for_canonical_path(&remote("h2", "/srv/repo/a")), None);
    assert_eq!(repos.get_root_for_canonical_path(&local("/srv/repo/a")), None);
    assert_eq!(repos.get_root_for_canonical_path(&remote("h2", "/opt/x")), Some(remote("h2", "/opt")));
}

#[test]
fn removing_a_host_keeps_the_others() {
    let mut repos = DetectedRepositories::new();
    repos.register_remote_repo_root(RemotePath::new(HostId::new("h1".to_string()), p("/srv/repo")));
    repos.register_remote_repo_root(RemotePath::new(HostId::new("h2".to_string()), p("/srv/repo")));
    repos.insert_test_repo_root(p("/srv/repo"));
    repos.remove_roots_for_host(&HostId::new("h1".to_string()));
    assert_eq!(repos.get_root_for_canonical_path(&remote("h1", "/srv/repo/a")), None);
    assert_eq!(repos.get_root_for_canonical_path(&remote("h2", "/srv/repo/a")), Some(remote("h2", "/srv/repo")));
    assert_eq!(repos.get_root_for_canonical_path(&local("/srv/repo/a")), Some(local("/srv/repo")));
    assert!(repos.is_registered_root(&local("/srv/repo")));
    assert!(!repos.is_registered_root(&remote("h1", "/srv/repo")));
}

#[test]
fn registering_twice_keeps_one_root() {
    let mut repos = DetectedRepositories::new();
    repos.insert_test_repo_root(p("/w/a"));
    repos.insert_test_repo_root(p("/w/a"));
    assert_eq!(repos.child_repos_for_path(&local("/w")), vec![local("/w/a")]);
}

#[test]
fn child_repos_are_direct_children_only() {
    let mut repos = DetectedRepositories::new();
    repos.insert_test_repo_root(p("/w/a"));
    repos.insert_test_repo_root(p("/w/b"));
    repos.insert_test_repo_root(p("/w/b/c"));
    repos.insert_test_repo_root(p("/x/d"));
    repos.register_remote_repo_root(RemotePath::new(HostId::new("h".to_string()), p("/w/e")));
    let mut children = repos.child_repos_for_path(&local("/w"));
    children.sort_by_key(|c| format!("{:?}", c));
    assert_eq!(children, vec![local("/w/a"), local("/w/b")]);
    assert!(repos.child_repos_for_path(&remote("h", "/w")).is_empty());
    assert!(repos.child_repos_for_path(&local("/")).is_empty());
    // Upward resolution never yields a child of the directory.
    assert_eq!(repos.get_root_for_canonical_path(&local("/w")), None);
}

#[test]
fn each_parent_is_scanned_once_until_cleared() {
    let mut repos = DetectedRepositories::new();
    assert!(repos.detect_child_git_repos(&p("/w"), SRC));
    assert!(!repos.detect_child_git_repos(&p("/w"), SRC));
    assert!(repos.detect_child_git_repos(&p("/v"), SRC));
    repos.clear_child_repo_scan_cache();
    assert!(repos.detect_child_git_repos(&p("/w"), SRC));
}

#[test]
fn recorded_child_roots_resolve() {
    let mut repos = DetectedRepositories::new();
    repos.record_child_repo_roots(&vec![p("/w/a"), p("/w/b")]);
    assert_eq!(repos.get_root_for_canonical_path(&local("/w/b/src")), Some(local("/w/b")));
    assert_eq!(repos.child_repos_for_path(&local("/w")).len(), 2);
}

#[test]
fn local_detection_steps() {
    let mut repos = DetectedRepositories::new();
    assert_eq!(repos.detect_possible_local_git_repo(None, SRC), LocalDetectionStep::Unresolved);
    assert_eq!(repos.detect_possible_local_git_repo(Some(&p("/r")), SRC), LocalDetectionStep::Search(p("/r")));
    repos.insert_test_repo_root(p("/r"));
    assert_eq!(repos.detect_possible_local_git_repo(Some(&p("/r")), SRC), LocalDetectionStep::KnownRoot(p("/r")));
    assert_eq!(repos.detect_possible_local_git_repo(Some(&p("/r/sub")), SRC), LocalDetectionStep::Search(p("/r/sub")));
}

#[test]
fn register_detected_root_watches_outside_git_dir_only() {
    let mut repos = DetectedRepositories::new();
    let req = repos.register_detected_root(Some(p("/r")), Some(p("/r/.git")), SRC).unwrap();
    assert_eq!(req.repo_root, p("/r"));
    assert_eq!(req.external_git_dir, None);
    let req = repos.register_detected_root(Some(p("/wt")), Some(p("/r/.git/worktrees/wt")), SRC).unwrap();
    assert_eq!(req.external_git_dir, Some(p("/r/.git/worktrees/wt")));
    assert!(repos.is_registered_root(&local("/wt")));
    let req = repos.register_detected_root(Some(p("/x")), None, SRC).unwrap();
    assert_eq!(req.external_git_dir, None);
}

#[test]
fn bare_repository_is_not_registered() {
    let mut repos = DetectedRepositories::new();
    assert_eq!(repos.register_detected_root(None, Some(p("/srv/proj.git")), SRC), None);
    assert_eq!(repos.get_root_for_canonical_path(&local("/srv/proj.git")), None);
}

#[test]
fn remote_answer_names_root_only_for_git() {
    let rp = RemotePath::new(HostId::new("h".to_string()), p("/srv/repo"));
    assert_eq!(
        remote_git_repo_root(Some(RemoteNavigationResult { remote_path: rp.clone(), is_git: true })),
        Some(LocalOrRemotePath::Remote(rp.clone()))
    );
    assert_eq!(remote_git_repo_root(Some(RemoteNavigationResult { remote_path: rp, is_git: false })), None);
    assert_eq!(remote_git_repo_root(None), None);
}
