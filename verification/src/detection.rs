//! The decisions of git repository detection: which directories to probe,
//! how a directory is recognized as a bare repository, and how a gitfile is
//! read.

use vstd::prelude::*;

use crate::path::{is_ancestor, render, valid_component, StandardizedPath};
use crate::text::{
    all_whitespace, ends_with, is_whitespace_spec, law_trim_ignores_surrounding_whitespace, strip_prefix,
    strip_prefix_spec, trim, trim_end, trim_start, trimmed,
};

verus! {

/// The components of each path in a sequence.
pub open spec fn paths_view(v: Seq<StandardizedPath>) -> Seq<Seq<Seq<char>>> {
    Seq::new(v.len(), |i: int| v[i]@)
}

/// The directories probed when looking upward for the repository of `p`,
/// starting at its ancestor of depth `n`: each directory from there up to
/// the root, stopping before the home directory when the walk reaches it.
pub open spec fn candidates_from(p: Seq<Seq<char>>, home: Option<Seq<Seq<char>>>, n: nat) -> Seq<Seq<Seq<char>>>
    decreases n,
{
    if home == Some(p.take(n as int)) {
        Seq::empty()
    } else if n == 0 {
        seq![p.take(0)]
    } else {
        seq![p.take(n as int)] + candidates_from(p, home, (n - 1) as nat)
    }
}

/// The directories probed, in order, when looking upward for the repository
/// that contains `p`.
pub open spec fn upward_candidates(p: Seq<Seq<char>>, home: Option<Seq<Seq<char>>>) -> Seq<Seq<Seq<char>>> {
    candidates_from(p, home, p.len())
}

/// The directories to probe, nearest first, for the repository that contains
/// the canonical directory `path`: `path` and each of its ancestors up to the
/// root, stopping before the home directory where the walk reaches it.
pub fn find_git_repo_candidates(path: &StandardizedPath, home: Option<&StandardizedPath>) -> (dirs: Vec<StandardizedPath>)
    ensures
        paths_view(dirs@) == upward_candidates(
            path@,
            match home {
                Some(h) => Some(h@),
                None => None,
            },
        ),
{
    let ghost hv: Option<Seq<Seq<char>>> = match home {
        Some(h) => Some(h@),
        None => None,
    };
    let mut dirs: Vec<StandardizedPath> = Vec::new();
    let mut k: usize = path.depth();
    assert(paths_view(dirs@) =~= Seq::<Seq<Seq<char>>>::empty());
    loop
        invariant
            k <= path@.len(),
            hv == (match home {
                Some(h) => Some(h@),
                None => None::<Seq<Seq<char>>>,
            }),
            paths_view(dirs@) + candidates_from(path@, hv, k as nat) == upward_candidates(path@, hv),
        decreases k,
    {
        let ghost before = paths_view(dirs@);
        let at_home = match home {
            Some(h) => path.prefix_equals(k, h),
            None => false,
        };
        if at_home {
            assert(candidates_from(path@, hv, k as nat) =~= Seq::<Seq<Seq<char>>>::empty());
            assert(before + candidates_from(path@, hv, k as nat) =~= before);
            return dirs;
        }
        dirs.push(path.ancestor(k));
        assert(paths_view(dirs@) =~= before.push(path@.take(k as int)));
        if k == 0 {
            assert(candidates_from(path@, hv, 0) =~= seq![path@.take(0)]);
            assert(before + seq![path@.take(0)] =~= before.push(path@.take(0)));
            return dirs;
        }
        assert(before + candidates_from(path@, hv, k as nat) =~= paths_view(dirs@) + candidates_from(path@, hv, (k - 1) as nat));
        k = k - 1;
    }
}

/// The walk from depth `n` probes each ancestor from there upward, and stops
/// right before the home directory when it meets it.
proof fn lemma_candidates_from(p: Seq<Seq<char>>, home: Option<Seq<Seq<char>>>, n: nat)
    requires
        n <= p.len(),
    ensures
        forall|i: int| 0 <= i < candidates_from(p, home, n).len() ==> #[trigger] candidates_from(p, home, n)[i] == p.take(n - i)
            && Some(p.take(n - i)) != home,
        match home {
            Some(h) if is_ancestor(h, p) && h.len() <= n => candidates_from(p, home, n).len() == n - h.len(),
            _ => candidates_from(p, home, n).len() == n + 1,
        },
    decreases n,
{
    if home == Some(p.take(n as int)) {
        assert(p.take(n as int).len() == n);
    } else if n == 0 {
        if let Some(h) = home {
            if is_ancestor(h, p) && h.len() <= n {
                assert(h =~= p.take(0));
            }
        }
    } else {
        lemma_candidates_from(p, home, (n - 1) as nat);
        let rest = candidates_from(p, home, (n - 1) as nat);
        assert forall|i: int| 0 <= i < candidates_from(p, home, n).len() implies #[trigger] candidates_from(p, home, n)[i] == p.take(n - i)
            && Some(p.take(n - i)) != home by {
            if i > 0 {
                assert(candidates_from(p, home, n)[i] == rest[i - 1]);
            }
        }
        if let Some(h) = home {
            if is_ancestor(h, p) && h.len() == n {
                assert(h =~= p.take(n as int));
            }
        }
    }
}

/// The upward search for the repository of `p` probes `p` and its ancestors,
/// nearest first, one level at a time, and never the home directory: when
/// the home directory lies above `p` the search stops right below it, and
/// otherwise it goes up to the root.
pub proof fn law_upward_search_stays_below_home(p: Seq<Seq<char>>, home: Option<Seq<Seq<char>>>)
    ensures
        forall|i: int| 0 <= i < upward_candidates(p, home).len() ==> #[trigger] upward_candidates(p, home)[i] == p.take(p.len() - i)
            && Some(p.take(p.len() - i)) != home,
        match home {
            Some(h) if is_ancestor(h, p) => upward_candidates(p, home).len() == p.len() - h.len(),
            _ => upward_candidates(p, home).len() == p.len() + 1,
        },
{
    lemma_candidates_from(p, home, p.len());
}

/// A directory whose name ends in `.git` may be a bare repository.
pub fn is_bare_repo_dir_name(dir: &StandardizedPath) -> (b: bool)
    ensures
        b == (dir@.len() > 0 && ".git"@.is_suffix_of(dir@.last())),
{
    match dir.file_name() {
        Some(name) => ends_with(name, ".git"),
        None => false,
    }
}

/// The path of the `.git` entry in `dir`.
pub fn dot_git_path(dir: &StandardizedPath) -> (p: StandardizedPath)
    ensures
        p@ == dir@.push(".git"@),
{
    proof {
        reveal_strlit(".git");
        assert(!".git"@.contains('/'));
        assert(".git"@ != seq!['.']) by {
            assert(".git"@.len() == 4);
        }
        assert(".git"@ != seq!['.', '.']) by {
            assert(".git"@[1] == 'g');
        }
    }
    dir.join_component(".git")
}

/// The target that a gitfile names: its content, trimmed, must start with
/// `gitdir:`, and the rest, trimmed again, is the target.
pub open spec fn gitfile_target_spec(contents: Seq<char>) -> Option<Seq<char>> {
    match strip_prefix_spec(trimmed(contents), "gitdir:"@) {
        Some(rest) => Some(trimmed(rest)),
        None => None,
    }
}

/// Reads a gitfile, as worktrees and submodules write it
/// (`gitdir: <path>`), and returns the path it names.
pub fn gitfile_target(contents: &str) -> (target: Option<&str>)
    ensures
        match target {
            Some(t) => gitfile_target_spec(contents@) == Some(t@),
            None => gitfile_target_spec(contents@) is None,
        },
{
    match strip_prefix(trim(contents), "gitdir:") {
        Some(rest) => Some(trim(rest)),
        None => None,
    }
}

/// A gitfile `gitdir:<t>` names `t`, whatever whitespace stands between the
/// prefix and `t` and around the whole content, line endings included.
pub proof fn law_gitfile_names_its_target(t: Seq<char>, w: Seq<char>, v: Seq<char>)
    requires
        t.len() > 0,
        !is_whitespace_spec(t[0]),
        !is_whitespace_spec(t.last()),
        all_whitespace(w),
        all_whitespace(v),
    ensures
        gitfile_target_spec(v + ("gitdir:"@ + w + t) + w) == Some(t),
{
    reveal_strlit("gitdir:");
    let p = "gitdir:"@;
    let core = p + w + t;
    law_trim_ignores_surrounding_whitespace(core, w);
    law_trim_ignores_surrounding_whitespace(core + w, v);
    assert(v + core + w =~= v + (core + w));
    assert(core[0] == 'g');
    assert(trim_start(core) == core);
    assert(core.last() == t.last());
    assert(trim_end(core) == core);
    assert(trimmed(v + core + w) == core);
    assert(p.is_prefix_of(core)) by {
        assert(core.subrange(0, p.len() as int) =~= p);
    }
    let rest = core.skip(p.len() as int);
    assert(rest =~= w + t);
    law_trim_ignores_surrounding_whitespace(t, w);
    assert(trim_start(t) == t);
    assert(trim_end(t) == t);
}

/// The git directory that a gitfile target names, relative to the working
/// tree `dir` unless it is absolute.
pub open spec fn resolve_gitdir_spec(dir: Seq<Seq<char>>, target: Seq<char>) -> Seq<char> {
    if target.len() > 0 && target[0] == '/' {
        target
    } else if dir.len() == 0 {
        seq!['/'] + target
    } else {
        render(dir) + seq!['/'] + target
    }
}

/// The path of the git directory that a gitfile in `dir` names.
pub fn resolve_gitdir(dir: &StandardizedPath, target: &str) -> (p: String)
    ensures
        p@ == resolve_gitdir_spec(dir@, target@),
{
    let n = target.unicode_len();
    if n > 0 && target.get_char(0) == '/' {
        return String::from_str(target);
    }
    proof {
        reveal_strlit("/");
    }
    if dir.depth() == 0 {
        let mut p = String::from_str("/");
        p.append(target);
        return p;
    }
    let mut p = dir.to_local_path();
    p.append("/");
    p.append(target);
    p
}

} // verus!
