//! Absolute, lexically normalized paths, modelled as a sequence of components.

use vstd::prelude::*;

verus! {

/// A component that may stand in a normalized path: not empty, no separator,
/// and neither `.` nor `..`.
pub open spec fn valid_component(c: Seq<char>) -> bool {
    &&& c.len() > 0
    &&& !c.contains('/')
    &&& c != seq!['.']
    &&& c != seq!['.', '.']
}

pub open spec fn valid_components(cs: Seq<Seq<char>>) -> bool {
    forall|i: int| 0 <= i < cs.len() ==> valid_component(#[trigger] cs[i])
}

/// `a` names `p` itself or one of the directories above it.
pub open spec fn is_ancestor(a: Seq<Seq<char>>, p: Seq<Seq<char>>) -> bool {
    a.len() <= p.len() && a == p.take(a.len() as int)
}

/// Folds one segment of a path text into the components read so far: empty
/// and `.` segments vanish, `..` climbs one level (never above the root), and
/// any other segment is appended.
pub open spec fn push_segment(comps: Seq<Seq<char>>, seg: Seq<char>) -> Seq<Seq<char>> {
    if seg.len() == 0 || seg == seq!['.'] {
        comps
    } else if seg == seq!['.', '.'] {
        if comps.len() > 0 {
            comps.drop_last()
        } else {
            comps
        }
    } else {
        comps.push(seg)
    }
}

/// The state after reading a path text from the left: the components whose
/// separator has been seen, and the segment still being read.
pub open spec fn scan_path(s: Seq<char>) -> (Seq<Seq<char>>, Seq<char>)
    decreases s.len(),
{
    if s.len() == 0 {
        (Seq::empty(), Seq::empty())
    } else {
        let prev = scan_path(s.drop_last());
        if s.last() == '/' {
            (push_segment(prev.0, prev.1), Seq::empty())
        } else {
            (prev.0, prev.1.push(s.last()))
        }
    }
}

/// The components that a path text names once `.`, `..`, empty segments and
/// repeated separators are resolved lexically.
pub open spec fn normalize_chars(s: Seq<char>) -> Seq<Seq<char>> {
    push_segment(scan_path(s).0, scan_path(s).1)
}

/// A path text is absolute when it starts at the root.
pub open spec fn is_absolute_text(s: Seq<char>) -> bool {
    s.len() > 0 && s[0] == '/'
}

/// The components joined, each preceded by a separator.
pub open spec fn join_components(cs: Seq<Seq<char>>) -> Seq<char>
    decreases cs.len(),
{
    if cs.len() == 0 {
        Seq::empty()
    } else {
        join_components(cs.drop_last()) + seq!['/'] + cs.last()
    }
}

/// The text of a path: `/` for the root, else `/a/b/c`.
pub open spec fn render(cs: Seq<Seq<char>>) -> Seq<char> {
    if cs.len() == 0 {
        seq!['/']
    } else {
        join_components(cs)
    }
}

/// Reading a segment without separators only extends the segment in progress.
proof fn lemma_scan_append_segment(s: Seq<char>, seg: Seq<char>)
    requires
        !seg.contains('/'),
    ensures
        scan_path(s + seg) == (scan_path(s).0, scan_path(s).1 + seg),
    decreases seg.len(),
{
    if seg.len() == 0 {
        assert(s + seg =~= s);
        assert(scan_path(s).1 + seg =~= scan_path(s).1);
    } else {
        let init = seg.drop_last();
        assert(!init.contains('/')) by {
            if init.contains('/') {
                let k = choose|k: int| 0 <= k < init.len() && init[k] == '/';
                assert(seg[k] == '/');
            }
        }
        lemma_scan_append_segment(s, init);
        assert((s + seg).drop_last() =~= s + init);
        assert((s + seg).last() == seg.last());
        assert(seg.last() != '/') by {
            if seg.last() == '/' {
                assert(seg[seg.len() - 1] == '/');
            }
        }
        assert((scan_path(s).1 + init).push(seg.last()) =~= scan_path(s).1 + seg);
    }
}

/// Reading the text of non-empty valid components leaves the last one in
/// progress and all others complete.
proof fn lemma_scan_joined(cs: Seq<Seq<char>>)
    requires
        valid_components(cs),
        cs.len() > 0,
    ensures
        scan_path(join_components(cs)) == (cs.drop_last(), cs.last()),
        join_components(cs).len() > 0,
        join_components(cs)[0] == '/',
    decreases cs.len(),
{
    let init = cs.drop_last();
    let j = join_components(init) + seq!['/'];
    assert(valid_component(cs[cs.len() - 1]));
    if init.len() == 0 {
        assert(join_components(init) =~= Seq::<char>::empty());
        assert(j.drop_last() =~= Seq::<char>::empty());
        assert(j.last() == '/');
        assert(scan_path(j.drop_last()) == (Seq::<Seq<char>>::empty(), Seq::<char>::empty()));
        assert(scan_path(j) == (Seq::<Seq<char>>::empty(), Seq::<char>::empty()));
        assert(init =~= Seq::<Seq<char>>::empty());
    } else {
        assert(valid_components(init)) by {
            assert forall|i: int| 0 <= i < init.len() implies valid_component(#[trigger] init[i]) by {
                assert(init[i] == cs[i]);
            }
        }
        lemma_scan_joined(init);
        assert(j.drop_last() =~= join_components(init));
        assert(valid_component(init[init.len() - 1]));
        assert(init.drop_last().push(init.last()) =~= init);
        assert(scan_path(j) == (init, Seq::<char>::empty()));
    }
    lemma_scan_append_segment(j, cs.last());
    assert(join_components(cs) == j + cs.last());
    assert(Seq::<char>::empty() + cs.last() =~= cs.last());
}

/// A path written out as text reads back as the same path.
pub proof fn law_rendered_path_reads_back(cs: Seq<Seq<char>>)
    requires
        valid_components(cs),
    ensures
        is_absolute_text(render(cs)),
        normalize_chars(render(cs)) == cs,
{
    if cs.len() == 0 {
        let t = seq!['/'];
        assert(t.drop_last() =~= Seq::<char>::empty());
        assert(t.last() == '/');
        assert(scan_path(t.drop_last()) == (Seq::<Seq<char>>::empty(), Seq::<char>::empty()));
        assert(scan_path(t) == (Seq::<Seq<char>>::empty(), Seq::<char>::empty()));
    } else {
        lemma_scan_joined(cs);
        assert(valid_component(cs[cs.len() - 1]));
        assert(cs.drop_last().push(cs.last()) =~= cs);
    }
}

/// Normalization is compositional in the last segment: the text `t`,
/// a separator and a segment `seg` name what `t` names with `seg` folded in.
pub proof fn law_normalize_appends_segment(t: Seq<char>, seg: Seq<char>)
    requires
        !seg.contains('/'),
    ensures
        normalize_chars(t + seq!['/'] + seg) == push_segment(normalize_chars(t), seg),
{
    let ts = t + seq!['/'];
    assert(ts.drop_last() =~= t);
    assert(ts.last() == '/');
    assert(scan_path(ts) == (normalize_chars(t), Seq::<char>::empty()));
    lemma_scan_append_segment(ts, seg);
    assert(Seq::<char>::empty() + seg =~= seg);
}

/// A trailing `..` climbs one level from what the rest of the text names
/// (the root stays the root); a trailing `.` or separator changes nothing;
/// a trailing valid component descends into it.
pub proof fn law_trailing_segment_moves_one_level(t: Seq<char>, c: Seq<char>)
    requires
        valid_component(c),
    ensures
        normalize_chars(t + seq!['/', '.', '.']) == (if normalize_chars(t).len() > 0 {
            normalize_chars(t).drop_last()
        } else {
            normalize_chars(t)
        }),
        normalize_chars(t + seq!['/', '.']) == normalize_chars(t),
        normalize_chars(t + seq!['/']) == normalize_chars(t),
        normalize_chars(t + seq!['/'] + c) == normalize_chars(t).push(c),
{
    let dd = seq!['.', '.'];
    let d = seq!['.'];
    let e = Seq::<char>::empty();
    assert(!dd.contains('/')) by {
        assert(forall|i: int| 0 <= i < dd.len() ==> dd[i] == '.');
    }
    assert(!d.contains('/')) by {
        assert(forall|i: int| 0 <= i < d.len() ==> d[i] == '.');
    }
    assert(!e.contains('/'));
    law_normalize_appends_segment(t, dd);
    law_normalize_appends_segment(t, d);
    law_normalize_appends_segment(t, e);
    law_normalize_appends_segment(t, c);
    assert(t + seq!['/'] + dd =~= t + seq!['/', '.', '.']);
    assert(t + seq!['/'] + d =~= t + seq!['/', '.']);
    assert(t + seq!['/'] + e =~= t + seq!['/']);
}

/// Reading `..` after the text of a path gives the path's parent; after the
/// root, the root.
pub proof fn law_parent_text_names_parent(cs: Seq<Seq<char>>)
    requires
        valid_components(cs),
    ensures
        normalize_chars(render(cs) + seq!['/', '.', '.']) == (if cs.len() > 0 {
            cs.drop_last()
        } else {
            cs
        }),
{
    law_rendered_path_reads_back(cs);
    assert(valid_component(seq!['a'])) by {
        assert(forall|i: int| 0 <= i < seq!['a'].len() ==> seq!['a'][i] == 'a');
        assert(seq!['a'][0] != seq!['.'][0]);
        assert(seq!['a'].len() != seq!['.', '.'].len());
    }
    law_trailing_segment_moves_one_level(render(cs), seq!['a']);
}

/// Why a text does not name a local path.
#[derive(Debug, Clone, Copy, PartialEq, Eq, Structural)]
pub enum PathError {
    /// The text does not start at the root.
    NotAbsolute,
}

/// The character views of a sequence of strings.
pub open spec fn strings_view(v: Seq<String>) -> Seq<Seq<char>> {
    Seq::new(v.len(), |i: int| v[i]@)
}

/// An absolute path, kept as its components from the root down. The root
/// itself has no components.
#[derive(Debug, PartialEq, Eq, Hash)]
pub struct StandardizedPath {
    components: Vec<String>,
}

impl View for StandardizedPath {
    type V = Seq<Seq<char>>;

    closed spec fn view(&self) -> Seq<Seq<char>> {
        strings_view(self.components@)
    }
}

impl StandardizedPath {
    #[verifier::type_invariant]
    closed spec fn components_are_valid(self) -> bool {
        valid_components(self@)
    }

    /// The file-system root, `/`.
    pub fn root() -> (p: Self)
        ensures
            p@ == Seq::<Seq<char>>::empty(),
    {
        let p = StandardizedPath { components: Vec::new() };
        assert(p@ =~= Seq::<Seq<char>>::empty());
        p
    }

    /// Reads a local path text, resolving `.`, `..`, empty segments and
    /// repeated separators lexically, without touching the file system.
    pub fn try_from_local(s: &str) -> (r: Result<Self, PathError>)
        ensures
            r is Ok <==> is_absolute_text(s@),
            r matches Ok(p) ==> p@ == normalize_chars(s@),
            r matches Err(e) ==> e == PathError::NotAbsolute,
    {
        let n = s.unicode_len();
        if n == 0 || s.get_char(0) != '/' {
            return Err(PathError::NotAbsolute);
        }
        let mut comps: Vec<String> = Vec::new();
        let mut start: usize = 0;
        let mut i: usize = 0;
        assert(s@.take(0) =~= Seq::<char>::empty());
        assert(s@.subrange(0, 0) =~= Seq::<char>::empty());
        assert(strings_view(comps@) =~= Seq::<Seq<char>>::empty());
        while i < n
            invariant
                n == s@.len(),
                start <= i <= n,
                scan_path(s@.take(i as int)) == (strings_view(comps@), s@.subrange(start as int, i as int)),
                valid_components(strings_view(comps@)),
                forall|j: int| start <= j < i ==> s@[j] != '/',
            decreases n - i,
        {
            let c = s.get_char(i);
            let ghost prev = s@.take(i as int);
            assert(s@.take(i + 1).drop_last() =~= prev);
            if c == '/' {
                let seg = s.substring_char(start, i);
                assert(!seg@.contains('/'));
                push_segment_into(&mut comps, seg);
                start = i + 1;
                assert(s@.subrange(start as int, start as int) =~= Seq::<char>::empty());
            } else {
                assert(s@.subrange(start as int, i + 1) =~= s@.subrange(start as int, i as int).push(c));
            }
            i = i + 1;
        }
        let seg = s.substring_char(start, n);
        assert(!seg@.contains('/'));
        assert(s@.take(n as int) =~= s@);
        push_segment_into(&mut comps, seg);
        Ok(StandardizedPath { components: comps })
    }

    /// The text of the path: `/` for the root, else `/a/b/c`.
    pub fn to_local_path(&self) -> (s: String)
        ensures
            s@ == render(self@),
            valid_components(self@),
    {
        proof {
            use_type_invariant(self);
        }
        let n = self.components.len();
        if n == 0 {
            let slash = String::from_str("/");
            proof {
                reveal_strlit("/");
            }
            assert(slash@ =~= seq!['/']);
            return slash;
        }
        let mut out = String::new();
        let mut i: usize = 0;
        proof {
            reveal_strlit("/");
        }
        assert(self@.take(0) =~= Seq::<Seq<char>>::empty());
        while i < n
            invariant
                i <= n,
                n == self@.len(),
                n == self.components@.len(),
                out@ == join_components(self@.take(i as int)),
                "/"@ == seq!['/'],
            decreases n - i,
        {
            assert(self@.take(i + 1).drop_last() =~= self@.take(i as int));
            assert(self@.take(i + 1).last() == self.components@[i as int]@);
            out.append("/");
            out.append(self.components[i].as_str());
            i = i + 1;
        }
        assert(self@.take(n as int) =~= self@);
        out
    }

    /// Number of components below the root.
    pub fn depth(&self) -> (n: usize)
        ensures
            n == self@.len(),
    {
        self.components.len()
    }

    /// Whether `other` is the ancestor of `self` with `k` components.
    pub fn prefix_equals(&self, k: usize, other: &StandardizedPath) -> (b: bool)
        requires
            k <= self@.len(),
        ensures
            b == (other@ == self@.take(k as int)),
    {
        if other.components.len() != k {
            assert(other@.len() != self@.take(k as int).len());
            return false;
        }
        let mut i: usize = 0;
        while i < k
            invariant
                i <= k,
                k <= self@.len(),
                other@.len() == k,
                self.components@.len() == self@.len(),
                other.components@.len() == k,
                forall|j: int| 0 <= j < i ==> other@[j] == self@[j],
            decreases k - i,
        {
            if self.components[i] != other.components[i] {
                assert(other@[i as int] != self@.take(k as int)[i as int]);
                return false;
            }
            i = i + 1;
        }
        assert(other@ =~= self@.take(k as int));
        true
    }

    /// The path of the entry `name` inside this directory.
    pub fn join_component(&self, name: &str) -> (p: Self)
        requires
            valid_component(name@),
        ensures
            p@ == self@.push(name@),
    {
        proof {
            use_type_invariant(self);
        }
        let mut comps: Vec<String> = Vec::new();
        let n = self.components.len();
        let mut i: usize = 0;
        while i < n
            invariant
                i <= n,
                n == self@.len(),
                n == self.components@.len(),
                valid_components(self@),
                comps@.len() == i,
                strings_view(comps@) =~= self@.take(i as int),
            decreases n - i,
        {
            let ghost before = comps@;
            comps.push(self.components[i].clone());
            assert forall|j: int| 0 <= j <= i implies #[trigger] strings_view(comps@)[j] == self@[j] by {
                if j < i {
                    assert(strings_view(before)[j] == self@.take(i as int)[j]);
                }
            }
            i = i + 1;
            assert(strings_view(comps@) =~= self@.take(i as int));
        }
        let ghost before = comps@;
        comps.push(String::from_str(name));
        assert(strings_view(comps@) =~= self@.push(name@)) by {
            assert forall|j: int| 0 <= j < n implies #[trigger] strings_view(comps@)[j] == self@[j] by {
                assert(strings_view(before)[j] == self@.take(n as int)[j]);
            }
        }
        StandardizedPath { components: comps }
    }

    /// The last component, when the path is not the root.
    pub fn file_name(&self) -> (name: Option<&str>)
        ensures
            name is None <==> self@.len() == 0,
            name matches Some(s) ==> s@ == self@.last(),
    {
        let n = self.components.len();
        if n == 0 {
            None
        } else {
            Some(self.components[n - 1].as_str())
        }
    }

    /// Whether `base` is this path or one of its ancestors.
    pub fn starts_with(&self, base: &StandardizedPath) -> (b: bool)
        ensures
            b == is_ancestor(base@, self@),
    {
        let k = base.depth();
        if k > self.depth() {
            return false;
        }
        self.prefix_equals(k, base)
    }

    /// The directory that holds this path; none for the root.
    pub fn parent(&self) -> (p: Option<Self>)
        ensures
            p is None <==> self@.len() == 0,
            p matches Some(q) ==> q@ == self@.drop_last(),
    {
        let n = self.depth();
        if n == 0 {
            None
        } else {
            let q = self.ancestor(n - 1);
            assert(q@ =~= self@.drop_last());
            Some(q)
        }
    }

    /// Structural equality of two paths.
    pub fn eq_path(&self, other: &StandardizedPath) -> (b: bool)
        ensures
            b == (self@ == other@),
    {
        let n = self.components.len();
        let b = self.prefix_equals(n, other);
        assert(self@.take(n as int) =~= self@);
        b
    }

    /// The ancestor of `self` with `k` components.
    pub fn ancestor(&self, k: usize) -> (a: Self)
        requires
            k <= self@.len(),
        ensures
            a@ == self@.take(k as int),
    {
        proof { use_type_invariant(self); }
        let mut comps: Vec<String> = Vec::new();
        let mut i: usize = 0;
        while i < k
            invariant
                i <= k,
                k <= self@.len(),
                self.components@.len() == self@.len(),
                valid_components(self@),
                comps@.len() == i,
                strings_view(comps@) =~= self@.take(i as int),
            decreases k - i,
        {
            let ghost before = comps@;
            let c = self.components[i].clone();
            comps.push(c);
            assert forall|j: int| 0 <= j <= i implies #[trigger] strings_view(comps@)[j] == self@[j] by {
                if j < i {
                    assert(strings_view(before)[j] == self@.take(i as int)[j]);
                }
            }
            i = i + 1;
            assert(strings_view(comps@) =~= self@.take(i as int));
        }
        StandardizedPath { components: comps }
    }
}

/// Folds one segment into `comps` as `push_segment` says.
fn push_segment_into(comps: &mut Vec<String>, seg: &str)
    requires
        valid_components(strings_view(old(comps)@)),
        !seg@.contains('/'),
    ensures
        strings_view(final(comps)@) == push_segment(strings_view(old(comps)@), seg@),
        valid_components(strings_view(final(comps)@)),
{
    let n = seg.unicode_len();
    let ghost before = strings_view(comps@);
    if n == 0 {
        return;
    }
    let first = seg.get_char(0);
    if n == 1 && first == '.' {
        assert(seg@ =~= seq!['.']);
        return;
    }
    if n == 2 && first == '.' && seg.get_char(1) == '.' {
        assert(seg@ =~= seq!['.', '.']);
        if comps.len() > 0 {
            comps.pop();
            assert(strings_view(comps@) =~= before.drop_last());
        }
        return;
    }
    assert(seg@ != seq!['.']) by {
        if n == 1 {
            assert(seq!['.'][0] == '.');
        }
    }
    assert(seg@ != seq!['.', '.']) by {
        if n == 2 {
            assert(seq!['.', '.'][0] == '.' && seq!['.', '.'][1] == '.');
        }
    }
    comps.push(String::from_str(seg));
    assert(strings_view(comps@) =~= before.push(seg@));
}

impl Clone for StandardizedPath {
    fn clone(&self) -> (p: Self)
        ensures
            p@ == self@,
    {
        self.ancestor(self.depth())
    }
}

/// The components of an optional path.
pub open spec fn opt_path_view(o: Option<StandardizedPath>) -> Option<Seq<Seq<char>>> {
    match o {
        Some(p) => Some(p@),
        None => None,
    }
}

/// The identity of a remote host.
#[derive(Clone, Debug, PartialEq, Eq, Hash)]
pub struct HostId(String);

impl View for HostId {
    type V = Seq<char>;

    closed spec fn view(&self) -> Seq<char> {
        self.0@
    }
}

impl HostId {
    pub fn new(id: String) -> (h: Self)
        ensures
            h@ == id@,
    {
        HostId(id)
    }

    pub fn as_str(&self) -> (s: &str)
        ensures
            s@ == self@,
    {
        self.0.as_str()
    }

    pub fn eq_host(&self, other: &HostId) -> (b: bool)
        ensures
            b == (self@ == other@),
    {
        self.0 == other.0
    }

    pub fn duplicate(&self) -> (h: Self)
        ensures
            h@ == self@,
    {
        HostId(self.0.clone())
    }
}

/// A path on a remote host.
#[derive(Clone, Debug, PartialEq, Eq, Hash)]
pub struct RemotePath {
    pub host_id: HostId,
    pub path: StandardizedPath,
}

impl RemotePath {
    pub fn new(host_id: HostId, path: StandardizedPath) -> (r: Self)
        ensures
            r.host_id@ == host_id@,
            r.path@ == path@,
    {
        RemotePath { host_id, path }
    }
}

/// What the remote server answers when asked to navigate to a directory.
#[derive(Clone, Debug, PartialEq, Eq, Hash)]
pub struct RemoteNavigationResult {
    pub remote_path: RemotePath,
    pub is_git: bool,
}

/// What identifies a path in contracts: no host for a local path, the host's
/// id for a remote one, and the path's components.
pub type PathKey = (Option<Seq<char>>, Seq<Seq<char>>);

/// A path on this machine or on a remote host.
#[derive(Clone, Debug, PartialEq, Eq, Hash)]
pub enum LocalOrRemotePath {
    Local(StandardizedPath),
    Remote(RemotePath),
}

impl View for LocalOrRemotePath {
    type V = PathKey;

    open spec fn view(&self) -> PathKey {
        match self {
            LocalOrRemotePath::Local(p) => (None, p@),
            LocalOrRemotePath::Remote(r) => (Some(r.host_id@), r.path@),
        }
    }
}

impl LocalOrRemotePath {
    /// Whether the two name the same path on the same machine.
    pub fn same_path(&self, other: &LocalOrRemotePath) -> (b: bool)
        ensures
            b == (self@ == other@),
    {
        match (self, other) {
            (LocalOrRemotePath::Local(a), LocalOrRemotePath::Local(b)) => a.eq_path(b),
            (LocalOrRemotePath::Remote(a), LocalOrRemotePath::Remote(b)) => {
                a.host_id.eq_host(&b.host_id) && a.path.eq_path(&b.path)
            },
            _ => false,
        }
    }

    pub fn duplicate(&self) -> (d: Self)
        ensures
            d@ == self@,
    {
        match self {
            LocalOrRemotePath::Local(p) => LocalOrRemotePath::Local(p.clone()),
            LocalOrRemotePath::Remote(r) => LocalOrRemotePath::Remote(
                RemotePath::new(r.host_id.duplicate(), r.path.clone()),
            ),
        }
    }

    /// The local path, when this is one.
    pub fn to_local_path(&self) -> (p: Option<&StandardizedPath>)
        ensures
            p is Some <==> self@.0 is None,
            p matches Some(q) ==> q@ == self@.1,
    {
        match self {
            LocalOrRemotePath::Local(p) => Some(p),
            LocalOrRemotePath::Remote(_) => None,
        }
    }
}

} // verus!
