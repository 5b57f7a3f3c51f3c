use repo_metadata::detection::{
    dot_git_path, find_git_repo_candidates, gitfile_target, is_bare_repo_dir_name, resolve_gitdir,
};
use repo_metadata::path::StandardizedPath;
use repo_metadata::text::{ends_with, starts_with, strip_prefix, trim};

fn p(s: &str) -> StandardizedPath {
    StandardizedPath::try_from_local(s).unwrap()
}

fn texts(v: &[StandardizedPath]) -> Vec<String> {
    v.iter().map(|x| x.to_local_path()).collect()
}

#[test]
fn upward_search_stops_below_home() {
    let dirs = find_git_repo_candidates(&p("/home/u/code/app"), Some(&p("/home/u")));
    assert_eq!(texts(&dirs), vec!["/home/u/code/app", "/home/u/code"]);
}

#[test]
fn upward_search_outside_home_reaches_root() {
    let dirs = find_git_repo_candidates(&p("/srv/app"), Some(&p("/home/u")));
    assert_eq!(texts(&dirs), vec!["/srv/app", "/srv", "/"]);
    let dirs = find_git_repo_candidates(&p("/srv/app"), None);
    assert_eq!(dirs.len(), 3);
}

#[test]
fn upward_search_from_home_probes_nothing() {
    assert!(find_git_repo_candidates(&p("/home/u"), Some(&p("/home/u"))).is_empty());
}

#[test]
fn bare_repository_names() {
    assert!(is_bare_repo_dir_name(&p("/srv/proj.git")));
    assert!(is_bare_repo_dir_name(&p("/srv/.git")));
    assert!(!is_bare_repo_dir_name(&p("/srv/proj")));
    assert!(!is_bare_repo_dir_name(&p("/srv/git")));
    assert!(!is_bare_repo_dir_name(&p("/")));
    assert_eq!(dot_git_path(&p("/srv/proj")).to_local_path(), "/srv/proj/.git");
    assert_eq!(dot_git_path(&p("/")).to_local_path(), "/.git");
}

#[test]
fn gitfile_contents() {
    assert_eq!(gitfile_target("gitdir: /r/.git/worktrees/wt\n"), Some("/r/.git/worktrees/wt"));
    assert_eq!(gitfile_target("  gitdir:../.git/modules/m  "), Some("../.git/modules/m"));
    assert_eq!(gitfile_target("gitdir:"), Some(""));
    assert_eq!(gitfile_target("ref: refs/heads/main"), None);
    assert_eq!(gitfile_target(""), None);
    assert_eq!(gitfile_target("GITDIR: /x"), None);
}

#[test]
fn gitdir_resolution() {
    assert_eq!(resolve_gitdir(&p("/w/sub"), "/abs/.git"), "/abs/.git");
    assert_eq!(resolve_gitdir(&p("/w/sub"), "../.git/modules/sub"), "/w/sub/../.git/modules/sub");
    assert_eq!(resolve_gitdir(&p("/"), "x/.git"), "/x/.git");
}

#[test]
fn text_helpers_match_std() {
    for s in ["", "  a b  ", "\u{3000}x\u{85}", "\t\n", "abc"] {
        assert_eq!(trim(s), s.trim());
    }
    assert!(starts_with("gitdir: x", "gitdir:"));
    assert!(!starts_with("git", "gitdir:"));
    assert_eq!(strip_prefix("gitdir: x", "gitdir:"), Some(" x"));
    assert!(ends_with("a.git", ".git"));
    assert!(!ends_with("git", ".git"));
}
