//! The registry of detected git repository roots, and the decisions that
//! detection takes on it.

use vstd::prelude::*;

use crate::path::{
    is_ancestor, opt_path_view, HostId, LocalOrRemotePath, PathKey, RemoteNavigationResult, RemotePath, StandardizedPath,
};

verus! {

/// Indicates why a repository detection event was emitted.
#[derive(Debug, Clone, Copy, PartialEq, Eq, Structural)]
pub enum RepoDetectionSource {
    /// User actively navigated to this repo in a terminal (via cd/pwd change).
    TerminalNavigation,
    /// Repo was detected during project rules indexing.
    ProjectRulesIndexing,
    /// Repo was detected for code review/diff state initialization.
    CodeReviewInitialization,
    /// Repo was cloned or discovered during cloud agent environment preparation.
    CloudEnvironmentPrep,
}

/// Emitted when a repository root is detected.
#[derive(Debug, Clone, PartialEq, Eq)]
pub enum DetectedRepositoriesEvent {
    DetectedGitRepo { repository_root: StandardizedPath, source: RepoDetectionSource },
}

/// The next step of local repository detection for a working directory.
#[derive(Debug, Clone, PartialEq, Eq)]
pub enum LocalDetectionStep {
    /// The directory could not be canonicalized: there is no repository.
    Unresolved,
    /// The directory is itself a registered root; it is the answer when its
    /// watcher is still alive, and is searched for afresh otherwise.
    KnownRoot(StandardizedPath),
    /// The directory is to be searched for the repository that holds it.
    Search(StandardizedPath),
}

/// What a detected repository needs watched: its root, and its git
/// directory where that lies outside the working tree.
#[derive(Debug, Clone, PartialEq, Eq)]
pub struct WatchRequest {
    pub repo_root: StandardizedPath,
    pub external_git_dir: Option<StandardizedPath>,
}

/// The git directory of a repository where it lies outside the working tree
/// `root`; nothing where it lies inside or is unknown.
pub open spec fn external_git_dir(git_dir: Option<Seq<Seq<char>>>, root: Seq<Seq<char>>) -> Option<Seq<Seq<char>>> {
    match git_dir {
        Some(g) => if is_ancestor(root, g) {
            None
        } else {
            Some(g)
        },
        None => None,
    }
}

/// The repository root that a remote server's answer names: the remote path
/// when the server found a git repository there, and nothing otherwise.
pub fn remote_git_repo_root(answer: Option<RemoteNavigationResult>) -> (r: Option<LocalOrRemotePath>)
    ensures
        opt_key(r) == (match answer {
            Some(a) => if a.is_git {
                Some((Some(a.remote_path.host_id@), a.remote_path.path@))
            } else {
                None
            },
            None => None,
        }),
{
    match answer {
        Some(RemoteNavigationResult { remote_path, is_git: true }) => Some(LocalOrRemotePath::Remote(remote_path)),
        _ => None,
    }
}

/// The keys that a sequence of paths holds.
pub open spec fn keys_of(v: Seq<LocalOrRemotePath>) -> Set<PathKey> {
    Set::new(|k: PathKey| exists|i: int| 0 <= i < v.len() && v[i]@ == k)
}

/// No key occurs twice in the sequence.
pub open spec fn no_duplicate_keys(v: Seq<LocalOrRemotePath>) -> bool {
    forall|i: int, j: int| 0 <= i < v.len() && 0 <= j < v.len() && i != j ==> v[i]@ != v[j]@
}

/// No path occurs twice in the sequence.
pub open spec fn no_duplicate_paths(v: Seq<StandardizedPath>) -> bool {
    forall|i: int, j: int| 0 <= i < v.len() && 0 <= j < v.len() && i != j ==> v[i]@ != v[j]@
}

/// The optional key of an optional path.
pub open spec fn opt_key(o: Option<LocalOrRemotePath>) -> Option<PathKey> {
    match o {
        Some(p) => Some(p@),
        None => None,
    }
}

/// The optional host id as a key's host part.
pub open spec fn host_key(h: Option<&HostId>) -> Option<Seq<char>> {
    match h {
        Some(h) => Some(h@),
        None => None,
    }
}

/// The depth of the nearest registered root among the first `n + 1`
/// ancestors of `p` (those with at most `n` components) on `host`,
/// searching from the deepest.
pub open spec fn nearest_root_depth(
    roots: Set<PathKey>,
    host: Option<Seq<char>>,
    p: Seq<Seq<char>>,
    n: nat,
) -> Option<nat>
    decreases n,
{
    if roots.contains((host, p.take(n as int))) {
        Some(n)
    } else if n == 0 {
        None
    } else {
        nearest_root_depth(roots, host, p, (n - 1) as nat)
    }
}

/// The registered root that contains path `p` on `host`: its nearest
/// registered ancestor, the path itself included.
pub open spec fn root_lookup(roots: Set<PathKey>, host: Option<Seq<char>>, p: Seq<Seq<char>>) -> Option<PathKey> {
    match nearest_root_depth(roots, host, p, p.len()) {
        Some(n) => Some((host, p.take(n as int))),
        None => None,
    }
}

/// `k` is a local root whose immediate parent is the local path `parent`.
pub open spec fn is_child_root(k: PathKey, parent: PathKey) -> bool {
    &&& parent.0 is None
    &&& k.0 is None
    &&& k.1.len() > 0
    &&& k.1.drop_last() == parent.1
}

/// The local keys of a sequence of paths.
pub open spec fn local_keys(v: Seq<StandardizedPath>) -> Set<PathKey> {
    Set::new(|k: PathKey| exists|i: int| 0 <= i < v.len() && k == (None::<Seq<char>>, v[i]@))
}

/// Tracks the detected git repositories: the roots found so far, and the
/// parent directories already scanned for child repositories.
pub struct DetectedRepositories {
    repository_roots: Vec<LocalOrRemotePath>,
    scanned_child_parents: Vec<StandardizedPath>,
}

impl DetectedRepositories {
    #[verifier::type_invariant]
    closed spec fn no_duplicates(self) -> bool {
        &&& no_duplicate_keys(self.repository_roots@)
        &&& no_duplicate_paths(self.scanned_child_parents@)
    }

    /// The registered repository roots.
    pub closed spec fn roots(&self) -> Set<PathKey> {
        keys_of(self.repository_roots@)
    }

    /// The parent directories already scanned for child repositories.
    pub closed spec fn scanned_parents(&self) -> Set<Seq<Seq<char>>> {
        Set::new(|p: Seq<Seq<char>>| exists|i: int| 0 <= i < self.scanned_child_parents@.len()
            && self.scanned_child_parents@[i]@ == p)
    }

    /// A registry with no roots and no scanned parents.
    pub fn new() -> (r: Self)
        ensures
            r.roots() == Set::<PathKey>::empty(),
            r.scanned_parents() == Set::<Seq<Seq<char>>>::empty(),
    {
        let r = DetectedRepositories { repository_roots: Vec::new(), scanned_child_parents: Vec::new() };
        assert(r.roots() =~= Set::<PathKey>::empty());
        assert(r.scanned_parents() =~= Set::<Seq<Seq<char>>>::empty());
        r
    }

    /// Whether `key` is a registered root.
    pub fn is_registered_root(&self, key: &LocalOrRemotePath) -> (b: bool)
        ensures
            b == self.roots().contains(key@),
    {
        let n = self.repository_roots.len();
        let mut i: usize = 0;
        while i < n
            invariant
                i <= n,
                n == self.repository_roots@.len(),
                forall|j: int| 0 <= j < i ==> self.repository_roots@[j]@ != key@,
            decreases n - i,
        {
            if self.repository_roots[i].same_path(key) {
                assert(self.roots().contains(key@));
                return true;
            }
            i = i + 1;
        }
        false
    }

    /// Whether the ancestor of `path` with `k` components is a registered
    /// root on `host` (a local root where `host` is `None`).
    fn contains_ancestor(&self, host: Option<&HostId>, path: &StandardizedPath, k: usize) -> (b: bool)
        requires
            k <= path@.len(),
        ensures
            b == self.roots().contains((host_key(host), path@.take(k as int))),
    {
        let ghost key = (host_key(host), path@.take(k as int));
        let n = self.repository_roots.len();
        let mut i: usize = 0;
        while i < n
            invariant
                i <= n,
                n == self.repository_roots@.len(),
                k <= path@.len(),
                key == (host_key(host), path@.take(k as int)),
                forall|j: int| 0 <= j < i ==> self.repository_roots@[j]@ != key,
            decreases n - i,
        {
            let hit = match (&self.repository_roots[i], host) {
                (LocalOrRemotePath::Local(q), None) => path.prefix_equals(k, q),
                (LocalOrRemotePath::Remote(r), Some(h)) => h.eq_host(&r.host_id) && path.prefix_equals(k, &r.path),
                _ => false,
            };
            if hit {
                assert(self.repository_roots@[i as int]@ == key);
                assert(self.roots().contains(key));
                return true;
            }
            i = i + 1;
        }
        false
    }

    /// The nearest registered root on `host` that contains `path`.
    fn find_repository_root(&self, host: Option<&HostId>, path: &StandardizedPath) -> (r: Option<LocalOrRemotePath>)
        ensures
            opt_key(r) == root_lookup(self.roots(), host_key(host), path@),
    {
        let ghost roots = self.roots();
        let ghost hk = host_key(host);
        let mut k: usize = path.depth();
        loop
            invariant
                k <= path@.len(),
                roots == self.roots(),
                hk == host_key(host),
                nearest_root_depth(roots, hk, path@, path@.len()) == nearest_root_depth(roots, hk, path@, k as nat),
            decreases k,
        {
            if self.contains_ancestor(host, path, k) {
                let ancestor = path.ancestor(k);
                return match host {
                    None => Some(LocalOrRemotePath::Local(ancestor)),
                    Some(h) => Some(LocalOrRemotePath::Remote(RemotePath::new(h.duplicate(), ancestor))),
                };
            }
            if k == 0 {
                return None;
            }
            k = k - 1;
        }
    }

    /// Find the local repository that contains the given path, if any.
    fn find_local_repository_root(&self, path: &StandardizedPath) -> (r: Option<LocalOrRemotePath>)
        ensures
            opt_key(r) == root_lookup(self.roots(), None, path@),
    {
        self.find_repository_root(None, path)
    }

    /// Find the remote repository that contains the given path, if any.
    fn find_remote_repository_root(&self, remote_path: &RemotePath) -> (r: Option<LocalOrRemotePath>)
        ensures
            opt_key(r) == root_lookup(self.roots(), Some(remote_path.host_id@), remote_path.path@),
    {
        self.find_repository_root(Some(&remote_path.host_id), &remote_path.path)
    }

    /// Given a local or remote path, return its corresponding repo root: the
    /// nearest registered root among the path and its ancestors. No file
    /// system access happens here; local paths are taken as canonical.
    pub fn get_root_for_canonical_path(&self, path: &LocalOrRemotePath) -> (r: Option<LocalOrRemotePath>)
        ensures
            opt_key(r) == root_lookup(self.roots(), path@.0, path@.1),
    {
        match path {
            LocalOrRemotePath::Local(local_path) => self.find_local_repository_root(local_path),
            LocalOrRemotePath::Remote(remote_path) => self.find_remote_repository_root(remote_path),
        }
    }
}

impl DetectedRepositories {
    /// Adds `key` to the registered roots unless it is there already.
    fn insert_root(&mut self, key: LocalOrRemotePath)
        ensures
            final(self).roots() == old(self).roots().insert(key@),
            final(self).scanned_parents() == old(self).scanned_parents(),
    {
        proof {
            use_type_invariant(&*self);
        }
        let ghost old_roots = self.roots();
        if self.is_registered_root(&key) {
            assert(old_roots.insert(key@) =~= old_roots);
            return;
        }
        let ghost k = key@;
        let mut roots: Vec<LocalOrRemotePath> = Vec::new();
        std::mem::swap(&mut roots, &mut self.repository_roots);
        let ghost before = roots@;
        roots.push(key);
        assert(keys_of(roots@) =~= old_roots.insert(k)) by {
            assert(roots@[roots@.len() - 1]@ == k);
            assert forall|x: PathKey| old_roots.contains(x) implies keys_of(roots@).contains(x) by {
                let j = choose|j: int| 0 <= j < before.len() && before[j]@ == x;
                assert(roots@[j] == before[j]);
            }
        }
        assert(no_duplicate_keys(roots@)) by {
            assert forall|a: int, b: int| 0 <= a < roots@.len() && 0 <= b < roots@.len() && a != b implies roots@[a]@ != roots@[b]@ by {
                if a < before.len() && b < before.len() {
                    assert(roots@[a] == before[a] && roots@[b] == before[b]);
                } else if a < before.len() {
                    assert(roots@[a] == before[a]);
                    assert(old_roots.contains(before[a]@));
                } else {
                    assert(roots@[b] == before[b]);
                    assert(old_roots.contains(before[b]@));
                }
            }
        }
        self.repository_roots = roots;
    }

    /// Register a remote repository root discovered via the remote server.
    pub fn register_remote_repo_root(&mut self, remote_path: RemotePath)
        ensures
            final(self).roots() == old(self).roots().insert(
                (Some(remote_path.host_id@), remote_path.path@),
            ),
            final(self).scanned_parents() == old(self).scanned_parents(),
    {
        self.insert_root(LocalOrRemotePath::Remote(remote_path));
    }

    /// Insert a local repository root path directly, bypassing git detection.
    pub fn insert_test_repo_root(&mut self, path: StandardizedPath)
        ensures
            final(self).roots() == old(self).roots().insert((None, path@)),
            final(self).scanned_parents() == old(self).scanned_parents(),
    {
        self.insert_root(LocalOrRemotePath::Local(path));
    }

    /// Remove all cached repository roots for a given remote host; local
    /// roots and those of other hosts stay.
    pub fn remove_roots_for_host(&mut self, host_id: &HostId)
        ensures
            final(self).roots() == old(self).roots().filter(|k: PathKey| k.0 != Some(host_id@)),
            final(self).scanned_parents() == old(self).scanned_parents(),
    {
        proof {
            use_type_invariant(&*self);
        }
        let ghost old_v = self.repository_roots@;
        let ghost keep = |k: PathKey| k.0 != Some(host_id@);
        let n = self.repository_roots.len();
        let mut kept: Vec<LocalOrRemotePath> = Vec::new();
        let ghost mut from: Seq<int> = Seq::empty();
        let mut i: usize = 0;
        while i < n
            invariant
                i <= n,
                n == old_v.len(),
                old_v == self.repository_roots@,
                no_duplicate_keys(old_v),
                keep == (|k: PathKey| k.0 != Some(host_id@)),
                kept@.len() == from.len(),
                forall|j: int| 0 <= j < from.len() ==> 0 <= #[trigger] from[j] < i,
                forall|j: int, l: int| 0 <= j < l < from.len() ==> from[j] < from[l],
                forall|j: int| 0 <= j < kept@.len() ==> #[trigger] kept@[j]@ == old_v[from[j]]@,
                forall|j: int| 0 <= j < kept@.len() ==> keep(#[trigger] kept@[j]@),
                forall|m: int| 0 <= m < i && keep(old_v[m]@) ==> exists|j: int| 0 <= j < kept@.len() && #[trigger] kept@[j]@ == old_v[m]@,
            decreases n - i,
        {
            let drop = match &self.repository_roots[i] {
                LocalOrRemotePath::Local(_) => false,
                LocalOrRemotePath::Remote(remote) => remote.host_id.eq_host(host_id),
            };
            assert(drop == !keep(old_v[i as int]@));
            if !drop {
                let ghost before = kept@;
                kept.push(self.repository_roots[i].duplicate());
                proof {
                    from = from.push(i as int);
                    assert forall|m: int| 0 <= m < i + 1 && keep(old_v[m]@) implies exists|j: int| 0 <= j < kept@.len() && #[trigger] kept@[j]@ == old_v[m]@ by {
                        if m < i {
                            let j = choose|j: int| 0 <= j < before.len() && #[trigger] before[j]@ == old_v[m]@;
                            assert(kept@[j] == before[j]);
                        } else {
                            assert(kept@[kept@.len() - 1]@ == old_v[m]@);
                        }
                    }
                }
            }
            i = i + 1;
        }
        assert(no_duplicate_keys(kept@)) by {
            assert forall|a: int, b: int| 0 <= a < kept@.len() && 0 <= b < kept@.len() && a != b implies kept@[a]@ != kept@[b]@ by {
                if a < b {
                    assert(from[a] < from[b]);
                } else {
                    assert(from[b] < from[a]);
                }
            }
        }
        let ghost new_roots = keys_of(kept@);
        assert(new_roots =~= keys_of(old_v).filter(keep)) by {
            assert forall|k: PathKey| new_roots.contains(k) implies keys_of(old_v).filter(keep).contains(k) by {
                let j = choose|j: int| 0 <= j < kept@.len() && kept@[j]@ == k;
                assert(old_v[from[j]]@ == k);
            }
            assert forall|k: PathKey| keys_of(old_v).filter(keep).contains(k) implies new_roots.contains(k) by {
                let m = choose|m: int| 0 <= m < old_v.len() && old_v[m]@ == k;
                let j = choose|j: int| 0 <= j < kept@.len() && #[trigger] kept@[j]@ == old_v[m]@;
            }
        }
        self.repository_roots = kept;
    }

    /// The first step of detecting the repository of a working directory,
    /// given the directory canonicalized (`None` where that failed): a
    /// directory that is a registered root is answered from the registry,
    /// any other is searched.
    pub fn detect_possible_local_git_repo(&self, canonical: Option<&StandardizedPath>, _source: RepoDetectionSource) -> (step: LocalDetectionStep)
        ensures
            canonical is None ==> step == LocalDetectionStep::Unresolved,
            canonical matches Some(p) ==> (if self.roots().contains((None, p@)) {
                step matches LocalDetectionStep::KnownRoot(q) && q@ == p@
            } else {
                step matches LocalDetectionStep::Search(q) && q@ == p@
            }),
    {
        match canonical {
            None => LocalDetectionStep::Unresolved,
            Some(p) => {
                let key = LocalOrRemotePath::Local(p.clone());
                if self.is_registered_root(&key) {
                    LocalDetectionStep::KnownRoot(p.clone())
                } else {
                    LocalDetectionStep::Search(p.clone())
                }
            },
        }
    }

    /// Registers a discovered repository, given its working tree and git
    /// directory canonicalized (`None` for a bare repository or where
    /// canonicalization failed). A repository without a working tree is not
    /// a reviewable root and changes nothing. Otherwise its root is
    /// registered, and the answer names what to watch: the root, and the git
    /// directory where it lies outside the working tree.
    pub fn register_detected_root(
        &mut self,
        working_tree: Option<StandardizedPath>,
        git_dir: Option<StandardizedPath>,
        _source: RepoDetectionSource,
    ) -> (request: Option<WatchRequest>)
        ensures
            working_tree is None ==> request is None && final(self).roots() == old(self).roots(),
            working_tree matches Some(w) ==> final(self).roots() == old(self).roots().insert((None, w@)),
            working_tree matches Some(w) ==> request matches Some(req) && req.repo_root@ == w@
                && opt_path_view(req.external_git_dir) == external_git_dir(opt_path_view(git_dir), w@),
            final(self).scanned_parents() == old(self).scanned_parents(),
    {
        let repo_root = match working_tree {
            Some(w) => w,
            None => return None,
        };
        self.insert_root(LocalOrRemotePath::Local(repo_root.clone()));
        let external_git_dir = match git_dir {
            Some(g) => if g.starts_with(&repo_root) {
                None
            } else {
                Some(g)
            },
            None => None,
        };
        Some(WatchRequest { repo_root, external_git_dir })
    }

    /// Whether `parent` was already scanned for child repositories.
    fn was_scanned(&self, parent: &StandardizedPath) -> (b: bool)
        ensures
            b == self.scanned_parents().contains(parent@),
    {
        let n = self.scanned_child_parents.len();
        let mut i: usize = 0;
        while i < n
            invariant
                i <= n,
                n == self.scanned_child_parents@.len(),
                forall|j: int| 0 <= j < i ==> self.scanned_child_parents@[j]@ != parent@,
            decreases n - i,
        {
            if self.scanned_child_parents[i].eq_path(parent) {
                assert(self.scanned_parents().contains(parent@));
                return true;
            }
            i = i + 1;
        }
        assert(!self.scanned_parents().contains(parent@));
        false
    }

    /// Decides whether the direct children of the canonical directory
    /// `parent_dir` are to be scanned for git repositories. Each parent is
    /// scanned at most once until the scan cache is cleared: the answer is
    /// `true` exactly when `parent_dir` was not scanned before, and it is
    /// recorded as scanned either way.
    pub fn detect_child_git_repos(&mut self, parent_dir: &StandardizedPath, _source: RepoDetectionSource) -> (scan: bool)
        ensures
            scan == !old(self).scanned_parents().contains(parent_dir@),
            final(self).scanned_parents() == old(self).scanned_parents().insert(parent_dir@),
            final(self).roots() == old(self).roots(),
    {
        proof {
            use_type_invariant(&*self);
        }
        let ghost old_set = self.scanned_parents();
        if self.was_scanned(parent_dir) {
            assert(old_set.insert(parent_dir@) =~= old_set);
            return false;
        }
        let mut parents: Vec<StandardizedPath> = Vec::new();
        std::mem::swap(&mut parents, &mut self.scanned_child_parents);
        let ghost before = parents@;
        parents.push(parent_dir.clone());
        assert(no_duplicate_paths(parents@)) by {
            assert forall|a: int, b: int| 0 <= a < parents@.len() && 0 <= b < parents@.len() && a != b implies parents@[a]@ != parents@[b]@ by {
                if a < before.len() {
                    assert(parents@[a] == before[a]);
                }
                if b < before.len() {
                    assert(parents@[b] == before[b]);
                }
            }
        }
        self.scanned_child_parents = parents;
        assert(self.scanned_parents() =~= old_set.insert(parent_dir@)) by {
            let v = self.scanned_child_parents@;
            assert(v[v.len() - 1]@ == parent_dir@);
            assert forall|x: Seq<Seq<char>>| old_set.contains(x) implies self.scanned_parents().contains(x) by {
                let j = choose|j: int| 0 <= j < before.len() && before[j]@ == x;
                assert(v[j] == before[j]);
            }
        }
        true
    }

    /// Records the roots of child repositories found by a scan, without
    /// watching them: each becomes a registered local root.
    pub fn record_child_repo_roots(&mut self, children: &Vec<StandardizedPath>)
        ensures
            final(self).roots() == old(self).roots().union(local_keys(children@)),
            final(self).scanned_parents() == old(self).scanned_parents(),
    {
        let ghost old_roots = self.roots();
        let ghost old_scanned = self.scanned_parents();
        let n = children.len();
        let mut i: usize = 0;
        assert(old_roots.union(local_keys(children@.take(0))) =~= old_roots);
        while i < n
            invariant
                i <= n,
                n == children@.len(),
                self.roots() == old_roots.union(local_keys(children@.take(i as int))),
                self.scanned_parents() == old_scanned,
            decreases n - i,
        {
            self.insert_root(LocalOrRemotePath::Local(children[i].clone()));
            assert(local_keys(children@.take(i + 1)) =~= local_keys(children@.take(i as int)).insert(
                (None::<Seq<char>>, children@[i as int]@),
            )) by {
                let t = children@.take(i + 1);
                assert(t[i as int] == children@[i as int]);
                assert forall|k: PathKey| local_keys(t).contains(k) implies local_keys(children@.take(i as int)).insert(
                    (None::<Seq<char>>, children@[i as int]@)).contains(k) by {
                    let j = choose|j: int| 0 <= j < t.len() && k == (None::<Seq<char>>, t[j]@);
                    if j < i {
                        assert(children@.take(i as int)[j] == t[j]);
                    }
                }
                assert forall|k: PathKey| local_keys(children@.take(i as int)).contains(k) implies local_keys(t).contains(k) by {
                    let j = choose|j: int| 0 <= j < i && k == (None::<Seq<char>>, children@.take(i as int)[j]@);
                    assert(t[j] == children@.take(i as int)[j]);
                }
            }
            assert(old_roots.union(local_keys(children@.take(i + 1))) =~= old_roots.union(local_keys(children@.take(i as int))).insert(
                (None::<Seq<char>>, children@[i as int]@)));
            i = i + 1;
        }
        assert(children@.take(n as int) =~= children@);
    }

    /// The registered local roots whose immediate parent is the canonical
    /// local path `parent`; none for a remote path. Unlike
    /// `get_root_for_canonical_path`, which walks up from a path, this looks
    /// down one level.
    pub fn child_repos_for_path(&self, parent: &LocalOrRemotePath) -> (children: Vec<LocalOrRemotePath>)
        ensures
            keys_of(children@) == self.roots().filter(|k: PathKey| is_child_root(k, parent@)),
            no_duplicate_keys(children@),
    {
        proof {
            use_type_invariant(self);
        }
        let ghost v = self.repository_roots@;
        let ghost pred = |k: PathKey| is_child_root(k, parent@);
        let mut out: Vec<LocalOrRemotePath> = Vec::new();
        let parent_path = match parent {
            LocalOrRemotePath::Local(p) => p,
            LocalOrRemotePath::Remote(_) => {
                assert(self.roots().filter(pred) =~= Set::<PathKey>::empty());
                assert(keys_of(out@) =~= Set::<PathKey>::empty());
                return out;
            },
        };
        let depth = parent_path.depth();
        let n = self.repository_roots.len();
        let ghost mut from: Seq<int> = Seq::empty();
        let mut i: usize = 0;
        while i < n
            invariant
                i <= n,
                n == v.len(),
                v == self.repository_roots@,
                no_duplicate_keys(v),
                parent@ == (None::<Seq<char>>, parent_path@),
                depth == parent_path@.len(),
                pred == (|k: PathKey| is_child_root(k, parent@)),
                out@.len() == from.len(),
                forall|j: int| 0 <= j < from.len() ==> 0 <= #[trigger] from[j] < i,
                forall|j: int, l: int| 0 <= j < l < from.len() ==> from[j] < from[l],
                forall|j: int| 0 <= j < out@.len() ==> #[trigger] out@[j]@ == v[from[j]]@,
                forall|j: int| 0 <= j < out@.len() ==> pred(#[trigger] out@[j]@),
                forall|m: int| 0 <= m < i && pred(v[m]@) ==> exists|j: int| 0 <= j < out@.len() && #[trigger] out@[j]@ == v[m]@,
            decreases n - i,
        {
            let is_child = match &self.repository_roots[i] {
                LocalOrRemotePath::Local(root) => {
                    if depth < root.depth() && root.depth() - depth == 1 {
                        let b = root.prefix_equals(depth, parent_path);
                        assert(root@.drop_last() =~= root@.take(depth as int));
                        b
                    } else {
                        false
                    }
                },
                LocalOrRemotePath::Remote(_) => false,
            };
            assert(is_child == pred(v[i as int]@));
            if is_child {
                let ghost before = out@;
                out.push(self.repository_roots[i].duplicate());
                proof {
                    from = from.push(i as int);
                    assert forall|m: int| 0 <= m < i + 1 && pred(v[m]@) implies exists|j: int| 0 <= j < out@.len() && #[trigger] out@[j]@ == v[m]@ by {
                        if m < i {
                            let j = choose|j: int| 0 <= j < before.len() && #[trigger] before[j]@ == v[m]@;
                            assert(out@[j] == before[j]);
                        } else {
                            assert(out@[out@.len() - 1]@ == v[m]@);
                        }
                    }
                }
            }
            i = i + 1;
        }
        assert(no_duplicate_keys(out@)) by {
            assert forall|a: int, b: int| 0 <= a < out@.len() && 0 <= b < out@.len() && a != b implies out@[a]@ != out@[b]@ by {
                if a < b {
                    assert(from[a] < from[b]);
                } else {
                    assert(from[b] < from[a]);
                }
            }
        }
        assert(keys_of(out@) =~= keys_of(v).filter(pred)) by {
            assert forall|k: PathKey| keys_of(out@).contains(k) implies keys_of(v).filter(pred).contains(k) by {
                let j = choose|j: int| 0 <= j < out@.len() && out@[j]@ == k;
                assert(v[from[j]]@ == k);
            }
            assert forall|k: PathKey| keys_of(v).filter(pred).contains(k) implies keys_of(out@).contains(k) by {
                let m = choose|m: int| 0 <= m < v.len() && v[m]@ == k;
                let j = choose|j: int| 0 <= j < out@.len() && #[trigger] out@[j]@ == v[m]@;
            }
        }
        out
    }

    /// Clears the record of which parent directories have been scanned for
    /// child repositories, so that the next scan of any parent runs afresh.
    pub fn clear_child_repo_scan_cache(&mut self)
        ensures
            final(self).scanned_parents() == Set::<Seq<Seq<char>>>::empty(),
            final(self).roots() == old(self).roots(),
    {
        proof {
            use_type_invariant(&*self);
        }
        self.scanned_child_parents = Vec::new();
        assert(self.scanned_parents() =~= Set::<Seq<Seq<char>>>::empty());
    }
}


impl Default for DetectedRepositories {
    /// A registry with no roots and no scanned parents.
    fn default() -> (r: Self)
        ensures
            r.roots() == Set::<PathKey>::empty(),
            r.scanned_parents() == Set::<Seq<Seq<char>>>::empty(),
    {
        DetectedRepositories::new()
    }
}

/// The search among the first `n + 1` ancestors finds the deepest registered
/// one, and nothing when none is registered.
proof fn lemma_nearest_root_depth(roots: Set<PathKey>, host: Option<Seq<char>>, p: Seq<Seq<char>>, n: nat)
    requires
        n <= p.len(),
    ensures
        match nearest_root_depth(roots, host, p, n) {
            Some(d) => d <= n && roots.contains((host, p.take(d as int))) && forall|m: nat|
                d < m <= n ==> !roots.contains((host, #[trigger] p.take(m as int))),
            None => forall|m: nat| m <= n ==> !roots.contains((host, #[trigger] p.take(m as int))),
        },
    decreases n,
{
    if !roots.contains((host, p.take(n as int))) && n > 0 {
        lemma_nearest_root_depth(roots, host, p, (n - 1) as nat);
    }
}

/// Resolving a path gives its nearest registered ancestor on the same
/// machine, the path itself included, and nothing exactly when no ancestor
/// is registered.
pub proof fn law_lookup_finds_nearest_registered_ancestor(
    roots: Set<PathKey>,
    host: Option<Seq<char>>,
    p: Seq<Seq<char>>,
)
    ensures
        match root_lookup(roots, host, p) {
            Some(k) => {
                &&& k.0 == host
                &&& is_ancestor(k.1, p)
                &&& roots.contains(k)
                &&& forall|a: Seq<Seq<char>>| #[trigger] is_ancestor(a, p) && a.len() > k.1.len() ==> !roots.contains((host, a))
            },
            None => forall|a: Seq<Seq<char>>| #[trigger] is_ancestor(a, p) ==> !roots.contains((host, a)),
        },
{
    lemma_nearest_root_depth(roots, host, p, p.len());
    match nearest_root_depth(roots, host, p, p.len()) {
        Some(d) => {
            assert(p.take(d as int).len() == d);
            assert forall|a: Seq<Seq<char>>| #[trigger] is_ancestor(a, p) && a.len() > d implies !roots.contains((host, a)) by {
                assert(a == p.take(a.len() as int));
            }
        },
        None => {
            assert forall|a: Seq<Seq<char>>| #[trigger] is_ancestor(a, p) implies !roots.contains((host, a)) by {
                assert(a == p.take(a.len() as int));
            }
        },
    }
}

/// A root, once registered, resolves to itself.
pub proof fn law_registered_root_resolves_to_itself(roots: Set<PathKey>, host: Option<Seq<char>>, p: Seq<Seq<char>>)
    ensures
        root_lookup(roots.insert((host, p)), host, p) == Some((host, p)),
{
    assert(p.take(p.len() as int) =~= p);
}

/// Once a root is registered, every path below it resolves to that root or
/// to a registered root nested deeper inside it.
pub proof fn law_registered_root_covers_descendants(
    roots: Set<PathKey>,
    host: Option<Seq<char>>,
    root: Seq<Seq<char>>,
    p: Seq<Seq<char>>,
)
    requires
        is_ancestor(root, p),
    ensures
        root_lookup(roots.insert((host, root)), host, p) matches Some(k) && k.0 == host && is_ancestor(root, k.1)
            && is_ancestor(k.1, p),
{
    let after = roots.insert((host, root));
    law_lookup_finds_nearest_registered_ancestor(after, host, p);
    assert(is_ancestor(root, p) && after.contains((host, root)));
    match root_lookup(after, host, p) {
        Some(k) => {
            assert(k.1.len() >= root.len());
            assert(root =~= k.1.take(root.len() as int));
        },
        None => {},
    }
}

/// A child repository of a directory is never what the directory resolves
/// to: resolution walks up, and a child lies below.
pub proof fn law_child_repos_not_found_upward(roots: Set<PathKey>, parent: PathKey, child: PathKey)
    requires
        is_child_root(child, parent),
    ensures
        root_lookup(roots, parent.0, parent.1) != Some(child),
{
    law_lookup_finds_nearest_registered_ancestor(roots, parent.0, parent.1);
}

/// The search among the first `n + 1` ancestors on a host other than the
/// removed one sees the same roots before and after the removal.
proof fn lemma_nearest_after_host_removal(
    roots: Set<PathKey>,
    removed: Seq<char>,
    host: Option<Seq<char>>,
    p: Seq<Seq<char>>,
    n: nat,
)
    requires
        host != Some(removed),
    ensures
        nearest_root_depth(roots.filter(|k: PathKey| k.0 != Some(removed)), host, p, n)
            == nearest_root_depth(roots, host, p, n),
    decreases n,
{
    if n > 0 {
        lemma_nearest_after_host_removal(roots, removed, host, p, (n - 1) as nat);
    }
}

/// After the roots of a host are removed, no path on that host resolves to a
/// root, and every other path resolves as before.
pub proof fn law_removed_host_resolves_nothing(
    roots: Set<PathKey>,
    removed: Seq<char>,
    host: Option<Seq<char>>,
    p: Seq<Seq<char>>,
)
    ensures
        host == Some(removed) ==> root_lookup(roots.filter(|k: PathKey| k.0 != Some(removed)), host, p) is None,
        host != Some(removed) ==> root_lookup(roots.filter(|k: PathKey| k.0 != Some(removed)), host, p)
            == root_lookup(roots, host, p),
{
    let after = roots.filter(|k: PathKey| k.0 != Some(removed));
    if host == Some(removed) {
        law_lookup_finds_nearest_registered_ancestor(after, host, p);
        match root_lookup(after, host, p) {
            Some(k) => {
                assert(after.contains(k));
            },
            None => {},
        }
    } else {
        lemma_nearest_after_host_removal(roots, removed, host, p, p.len());
    }
}

/// Each parent directory is scanned for child repositories once: right after
/// a scan is decided the parent is recorded, so the next request is turned
/// down, until the scan cache is cleared, after which it is granted again.
pub proof fn law_each_parent_scanned_once(scanned: Set<Seq<Seq<char>>>, parent: Seq<Seq<char>>)
    ensures
        scanned.insert(parent).contains(parent),
        !Set::<Seq<Seq<char>>>::empty().contains(parent),
{
}

} // verus!
