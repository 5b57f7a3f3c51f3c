use repo_metadata::path::{HostId, LocalOrRemotePath, PathError, RemotePath, StandardizedPath};

fn p(s: &str) -> StandardizedPath {
    StandardizedPath::try_from_local(s).unwrap()
}

#[test]
fn normalizes_lexically() {
    let path = p("/home//user/./code/../repo/");
    assert_eq!(path.to_local_path(), "/home/user/repo");
    assert_eq!(path.depth(), 3);
    assert_eq!(p("/").to_local_path(), "/");
    assert_eq!(p("/..").to_local_path(), "/");
    assert_eq!(p("/a/b/../../..").depth(), 0);
}

#[test]
fn relative_text_is_refused() {
    assert_eq!(StandardizedPath::try_from_local("home/user"), Err(PathError::NotAbsolute));
    assert_eq!(StandardizedPath::try_from_local(""), Err(PathError::NotAbsolute));
    assert_eq!(StandardizedPath::try_from_local("./x"), Err(PathError::NotAbsolute));
}

#[test]
fn rendered_path_reads_back() {
    for text in ["/", "/a", "/home/user/repo", "/a b/c.d/é"] {
        let path = p(text);
        let again = StandardizedPath::try_from_local(&path.to_local_path()).unwrap();
        assert_eq!(again, path);
        assert_eq!(again.to_local_path(), text);
    }
}

#[test]
fn ancestors_and_parents() {
    let path = p("/home/user/repo");
    assert_eq!(path.parent().unwrap().to_local_path(), "/home/user");
    assert_eq!(p("/").parent(), None);
    assert_eq!(path.ancestor(1).to_local_path(), "/home");
    assert!(path.starts_with(&p("/home")));
    assert!(path.starts_with(&path));
    assert!(!path.starts_with(&p("/home/us")));
    assert!(!p("/home").starts_with(&path));
    assert_eq!(path.file_name(), Some("repo"));
    assert_eq!(p("/").file_name(), None);
    assert_eq!(path.join_component(".git").to_local_path(), "/home/user/repo/.git");
}

#[test]
fn keys_compare_by_host_and_path() {
    let local = LocalOrRemotePath::Local(p("/srv/repo"));
    let remote = LocalOrRemotePath::Remote(RemotePath::new(HostId::new("box".to_string()), p("/srv/repo")));
    let other = LocalOrRemotePath::Remote(RemotePath::new(HostId::new("other".to_string()), p("/srv/repo")));
    assert!(local.same_path(&local.duplicate()));
    assert!(!local.same_path(&remote));
    assert!(!remote.same_path(&other));
    assert!(remote.same_path(&remote.clone()));
    assert_eq!(local.to_local_path().unwrap().to_local_path(), "/srv/repo");
    assert!(remote.to_local_path().is_none());
}
