//! Character-level text operations, with their meaning stated over the
//! characters of the text.

use vstd::prelude::*;

verus! {

/// Characters with the Unicode `White_Space` property, which is what `trim`
/// removes.
pub open spec fn is_whitespace_spec(c: char) -> bool {
    let u = c as u32;
    ||| 0x09 <= u <= 0x0d
    ||| u == 0x20
    ||| u == 0x85
    ||| u == 0xa0
    ||| u == 0x1680
    ||| 0x2000 <= u <= 0x200a
    ||| u == 0x2028
    ||| u == 0x2029
    ||| u == 0x202f
    ||| u == 0x205f
    ||| u == 0x3000
}

/// Whether `c` has the Unicode `White_Space` property.
pub fn is_whitespace(c: char) -> (b: bool)
    ensures
        b == is_whitespace_spec(c),
{
    let u = c as u32;
    (0x09 <= u && u <= 0x0d) || u == 0x20 || u == 0x85 || u == 0xa0 || u == 0x1680 || (0x2000 <= u
        && u <= 0x200a) || u == 0x2028 || u == 0x2029 || u == 0x202f || u == 0x205f || u == 0x3000
}

/// `s` without its leading whitespace.
pub open spec fn trim_start(s: Seq<char>) -> Seq<char>
    decreases s.len(),
{
    if s.len() > 0 && is_whitespace_spec(s[0]) {
        trim_start(s.drop_first())
    } else {
        s
    }
}

/// `s` without its trailing whitespace.
pub open spec fn trim_end(s: Seq<char>) -> Seq<char>
    decreases s.len(),
{
    if s.len() > 0 && is_whitespace_spec(s.last()) {
        trim_end(s.drop_last())
    } else {
        s
    }
}

/// `s` without leading and trailing whitespace.
pub open spec fn trimmed(s: Seq<char>) -> Seq<char> {
    trim_end(trim_start(s))
}

proof fn lemma_trim_start(s: Seq<char>)
    ensures
        trim_start(s).len() == 0 || !is_whitespace_spec(trim_start(s)[0]),
        trim_start(s).is_suffix_of(s),
    decreases s.len(),
{
    if s.len() > 0 && is_whitespace_spec(s[0]) {
        lemma_trim_start(s.drop_first());
        assert(s.drop_first().subrange(0, s.len() - 1) =~= s.subrange(1, s.len() as int));
        let t = trim_start(s.drop_first());
        assert(t =~= s.subrange(s.len() - t.len(), s.len() as int));
    } else {
        assert(s =~= s.subrange(0, s.len() as int));
    }
}

proof fn lemma_trim_end(s: Seq<char>)
    ensures
        trim_end(s).len() == 0 || !is_whitespace_spec(trim_end(s).last()),
        trim_end(s).is_prefix_of(s),
    decreases s.len(),
{
    if s.len() > 0 && is_whitespace_spec(s.last()) {
        lemma_trim_end(s.drop_last());
        let t = trim_end(s.drop_last());
        assert(t =~= s.subrange(0, t.len() as int));
    } else {
        assert(s =~= s.subrange(0, s.len() as int));
    }
}

/// Trimmed text neither starts nor ends with whitespace, and stands whole
/// inside the original text.
pub proof fn law_trimmed_has_no_outer_whitespace(s: Seq<char>)
    ensures
        trimmed(s).len() > 0 ==> !is_whitespace_spec(trimmed(s)[0]) && !is_whitespace_spec(trimmed(s).last()),
        exists|i: int| 0 <= i <= s.len() - trimmed(s).len() && trimmed(s) == #[trigger] s.subrange(i, i + trimmed(s).len()),
{
    lemma_trim_start(s);
    lemma_trim_end(trim_start(s));
    let a = trim_start(s);
    let t = trimmed(s);
    if t.len() > 0 {
        assert(t[0] == a[0]);
    }
    let i = s.len() - a.len();
    assert(t =~= s.subrange(i, i + t.len()));
}

/// Every character of `w` is whitespace.
pub open spec fn all_whitespace(w: Seq<char>) -> bool {
    forall|i: int| 0 <= i < w.len() ==> is_whitespace_spec(#[trigger] w[i])
}

proof fn lemma_trim_end_drops_whitespace_tail(x: Seq<char>, w: Seq<char>)
    requires
        all_whitespace(w),
    ensures
        trim_end(x + w) == trim_end(x),
    decreases w.len(),
{
    if w.len() == 0 {
        assert(x + w =~= x);
    } else {
        assert((x + w).drop_last() =~= x + w.drop_last());
        assert((x + w).last() == w[w.len() - 1]);
        lemma_trim_end_drops_whitespace_tail(x, w.drop_last());
    }
}

proof fn lemma_trim_start_drops_whitespace_head(w: Seq<char>, x: Seq<char>)
    requires
        all_whitespace(w),
    ensures
        trim_start(w + x) == trim_start(x),
    decreases w.len(),
{
    if w.len() == 0 {
        assert(w + x =~= x);
    } else {
        assert((w + x).drop_first() =~= w.drop_first() + x);
        assert((w + x)[0] == w[0]);
        lemma_trim_start_drops_whitespace_head(w.drop_first(), x);
    }
}

proof fn lemma_trim_start_of_whitespace_tail(x: Seq<char>, w: Seq<char>)
    requires
        all_whitespace(w),
    ensures
        trim_start(x).len() > 0 ==> trim_start(x + w) == trim_start(x) + w,
        trim_start(x).len() == 0 ==> trim_start(x + w).len() == 0,
    decreases x.len(),
{
    if x.len() == 0 {
        assert(x + w =~= w + Seq::<char>::empty());
        lemma_trim_start_drops_whitespace_head(w, Seq::<char>::empty());
    } else {
        assert((x + w)[0] == x[0]);
        if is_whitespace_spec(x[0]) {
            assert((x + w).drop_first() =~= x.drop_first() + w);
            lemma_trim_start_of_whitespace_tail(x.drop_first(), w);
        }
    }
}

/// Whitespace around a text does not change what trimming gives.
pub proof fn law_trim_ignores_surrounding_whitespace(s: Seq<char>, w: Seq<char>)
    requires
        all_whitespace(w),
    ensures
        trimmed(s + w) == trimmed(s),
        trimmed(w + s) == trimmed(s),
{
    lemma_trim_start_drops_whitespace_head(w, s);
    lemma_trim_start_of_whitespace_tail(s, w);
    if trim_start(s).len() > 0 {
        lemma_trim_end_drops_whitespace_tail(trim_start(s), w);
    } else {
        assert(trim_start(s) =~= Seq::<char>::empty());
        assert(trim_start(s + w) =~= Seq::<char>::empty());
    }
}

/// Line endings of every platform, tabs and spaces at either end of a text
/// are trimmed away: `\r\n`, `\n`, `\r`, `\t` and ` ` are whitespace.
pub proof fn law_trim_removes_line_endings(s: Seq<char>)
    ensures
        trimmed(s + seq!['\r', '\n']) == trimmed(s),
        trimmed(seq!['\r', '\n'] + s) == trimmed(s),
        trimmed(s + seq!['\n']) == trimmed(s),
        trimmed(s + seq!['\r']) == trimmed(s),
        trimmed(s + seq!['\t']) == trimmed(s),
        trimmed(s + seq![' ']) == trimmed(s),
        trimmed(seq!['\t', ' '] + s) == trimmed(s),
{
    let crlf = seq!['\r', '\n'];
    assert(all_whitespace(crlf)) by {
        assert(crlf[0] == '\r' && crlf[1] == '\n');
    }
    assert(all_whitespace(seq!['\n'])) by {
        assert(seq!['\n'][0] == '\n');
    }
    assert(all_whitespace(seq!['\r'])) by {
        assert(seq!['\r'][0] == '\r');
    }
    assert(all_whitespace(seq!['\t'])) by {
        assert(seq!['\t'][0] == '\t');
    }
    assert(all_whitespace(seq![' '])) by {
        assert(seq![' '][0] == ' ');
    }
    assert(all_whitespace(seq!['\t', ' '])) by {
        assert(seq!['\t', ' '][0] == '\t' && seq!['\t', ' '][1] == ' ');
    }
    law_trim_ignores_surrounding_whitespace(s, crlf);
    law_trim_ignores_surrounding_whitespace(s, seq!['\n']);
    law_trim_ignores_surrounding_whitespace(s, seq!['\r']);
    law_trim_ignores_surrounding_whitespace(s, seq!['\t']);
    law_trim_ignores_surrounding_whitespace(s, seq![' ']);
    law_trim_ignores_surrounding_whitespace(s, seq!['\t', ' ']);
}

/// The other Unicode spaces and line separators are trimmed as well:
/// vertical tab, form feed, next line, no-break space, ogham space mark, the
/// typographic spaces, line and paragraph separators, the narrow no-break
/// space, the medium mathematical space and the ideographic space.
pub proof fn law_trim_removes_unicode_spaces(s: Seq<char>)
    ensures
        forall|c: char| #![trigger seq![c]]
            c == '\u{0B}' || c == '\u{0C}' || c == '\u{85}' || c == '\u{A0}' || c == '\u{1680}' || c
                == '\u{2000}' || c == '\u{2005}' || c == '\u{200A}' || c == '\u{2028}' || c == '\u{2029}'
                || c == '\u{202F}' || c == '\u{205F}' || c == '\u{3000}' ==> trimmed(s + seq![c]) == trimmed(s)
                && trimmed(seq![c] + s) == trimmed(s),
{
    assert forall|c: char| #![trigger seq![c]]
        c == '\u{0B}' || c == '\u{0C}' || c == '\u{85}' || c == '\u{A0}' || c == '\u{1680}' || c
            == '\u{2000}' || c == '\u{2005}' || c == '\u{200A}' || c == '\u{2028}' || c == '\u{2029}'
            || c == '\u{202F}' || c == '\u{205F}' || c == '\u{3000}' implies trimmed(s + seq![c]) == trimmed(s)
            && trimmed(seq![c] + s) == trimmed(s) by {
        assert(seq![c][0] == c);
        assert(all_whitespace(seq![c]));
        law_trim_ignores_surrounding_whitespace(s, seq![c]);
    }
}

/// A character that is not whitespace survives trimming at either end.
pub proof fn law_trim_keeps_visible_ends(s: Seq<char>, c: char)
    requires
        !is_whitespace_spec(c),
    ensures
        trimmed(s + seq![c]).len() > 0 && trimmed(s + seq![c]).last() == c,
        trimmed(seq![c] + s).len() > 0 && trimmed(seq![c] + s)[0] == c,
{
    let y = s + seq![c];
    lemma_trim_start_cut(y);
    let i = choose|i: int| 0 <= i <= y.len() && trim_start(y) == y.subrange(i, y.len() as int)
        && all_whitespace(#[trigger] y.subrange(0, i));
    if i == y.len() {
        assert(y.subrange(0, i)[y.len() - 1] == c);
    }
    let a = y.subrange(i, y.len() as int);
    assert(a.last() == c);
    assert(trim_end(a) == a);
    let z = seq![c] + s;
    assert(z[0] == c);
    assert(trim_start(z) == z);
    lemma_trim_end_cut(z);
    let j = choose|j: int| 0 <= j <= z.len() && trim_end(z) == z.subrange(0, j)
        && all_whitespace(#[trigger] z.subrange(j, z.len() as int));
    if j == 0 {
        assert(z.subrange(j, z.len() as int)[0] == c);
    }
}

/// Characters that only look blank, and path characters, are not whitespace:
/// zero-width space, zero-width no-break space, `/`, `.` and `:` stay.
pub proof fn law_invisible_and_path_characters_are_kept(s: Seq<char>)
    ensures
        forall|c: char| #![trigger seq![c]]
            c == '\u{200B}' || c == '\u{FEFF}' || c == '/' || c == '.' || c == ':' ==> trimmed(s + seq![c]).last()
                == c,
{
    assert forall|c: char| #![trigger seq![c]]
        c == '\u{200B}' || c == '\u{FEFF}' || c == '/' || c == '.' || c == ':' implies trimmed(s + seq![c]).last()
            == c by {
        law_trim_keeps_visible_ends(s, c);
    }
}

proof fn lemma_trim_start_cut(s: Seq<char>)
    ensures
        exists|i: int| 0 <= i <= s.len() && trim_start(s) == s.subrange(i, s.len() as int)
            && all_whitespace(#[trigger] s.subrange(0, i)),
    decreases s.len(),
{
    if s.len() > 0 && is_whitespace_spec(s[0]) {
        lemma_trim_start_cut(s.drop_first());
        let t = s.drop_first();
        let i = choose|i: int| 0 <= i <= t.len() && trim_start(t) == t.subrange(i, t.len() as int)
            && all_whitespace(#[trigger] t.subrange(0, i));
        assert(t.subrange(i, t.len() as int) =~= s.subrange(i + 1, s.len() as int));
        assert(all_whitespace(s.subrange(0, i + 1))) by {
            assert forall|k: int| 0 <= k < i + 1 implies is_whitespace_spec(#[trigger] s.subrange(0, i + 1)[k]) by {
                if k > 0 {
                    assert(s.subrange(0, i + 1)[k] == t.subrange(0, i)[k - 1]);
                }
            }
        }
    } else {
        assert(s =~= s.subrange(0, s.len() as int));
        assert(all_whitespace(s.subrange(0, 0)));
    }
}

proof fn lemma_trim_end_cut(s: Seq<char>)
    ensures
        exists|j: int| 0 <= j <= s.len() && trim_end(s) == s.subrange(0, j)
            && all_whitespace(#[trigger] s.subrange(j, s.len() as int)),
    decreases s.len(),
{
    if s.len() > 0 && is_whitespace_spec(s.last()) {
        lemma_trim_end_cut(s.drop_last());
        let t = s.drop_last();
        let j = choose|j: int| 0 <= j <= t.len() && trim_end(t) == t.subrange(0, j)
            && all_whitespace(#[trigger] t.subrange(j, t.len() as int));
        assert(t.subrange(0, j) =~= s.subrange(0, j));
        assert(all_whitespace(s.subrange(j, s.len() as int))) by {
            assert forall|k: int| 0 <= k < s.len() - j implies is_whitespace_spec(#[trigger] s.subrange(j, s.len() as int)[k]) by {
                if k < t.len() - j {
                    assert(s.subrange(j, s.len() as int)[k] == t.subrange(j, t.len() as int)[k]);
                }
            }
        }
    } else {
        assert(s =~= s.subrange(0, s.len() as int));
        assert(all_whitespace(s.subrange(s.len() as int, s.len() as int)));
    }
}

/// Trimming removes only whitespace, and all of it at both ends: the trimmed
/// text is a slice of the original, everything cut off before and after it
/// is whitespace, and the slice neither starts nor ends with whitespace.
pub proof fn law_trim_removes_exactly_outer_whitespace(s: Seq<char>)
    ensures
        exists|i: int, j: int| 0 <= i <= j <= s.len() && trimmed(s) == s.subrange(i, j)
            && all_whitespace(#[trigger] s.subrange(0, i)) && all_whitespace(#[trigger] s.subrange(j, s.len() as int)),
        trimmed(s).len() > 0 ==> !is_whitespace_spec(trimmed(s)[0]) && !is_whitespace_spec(trimmed(s).last()),
{
    law_trimmed_has_no_outer_whitespace(s);
    lemma_trim_start_cut(s);
    let i = choose|i: int| 0 <= i <= s.len() && trim_start(s) == s.subrange(i, s.len() as int)
        && all_whitespace(#[trigger] s.subrange(0, i));
    let a = s.subrange(i, s.len() as int);
    lemma_trim_end_cut(a);
    let j = choose|j: int| 0 <= j <= a.len() && trim_end(a) == a.subrange(0, j)
        && all_whitespace(#[trigger] a.subrange(j, a.len() as int));
    assert(a.subrange(0, j) =~= s.subrange(i, i + j));
    assert(a.subrange(j, a.len() as int) =~= s.subrange(i + j, s.len() as int));
}

/// The text without leading and trailing whitespace.
pub fn trim(s: &str) -> (t: &str)
    ensures
        t@ == trimmed(s@),
{
    let n = s.unicode_len();
    let mut i: usize = 0;
    assert(s@.subrange(0, n as int) =~= s@);
    loop
        invariant
            i <= n,
            n == s@.len(),
            trim_start(s@) == trim_start(s@.subrange(i as int, n as int)),
        ensures
            i <= n,
            trim_start(s@) == s@.subrange(i as int, n as int),
        decreases n - i,
    {
        if i == n {
            break;
        }
        let c = s.get_char(i);
        if !is_whitespace(c) {
            break;
        }
        assert(s@.subrange(i as int, n as int).drop_first() =~= s@.subrange(i + 1, n as int));
        i = i + 1;
    }
    let mut j: usize = n;
    assert(s@.subrange(i as int, n as int) =~= s@.subrange(i as int, j as int));
    loop
        invariant
            i <= j <= n,
            n == s@.len(),
            trim_end(s@.subrange(i as int, n as int)) == trim_end(s@.subrange(i as int, j as int)),
        ensures
            i <= j <= n,
            trim_end(s@.subrange(i as int, n as int)) == s@.subrange(i as int, j as int),
        decreases j - i,
    {
        if j == i {
            break;
        }
        let c = s.get_char(j - 1);
        if !is_whitespace(c) {
            break;
        }
        assert(s@.subrange(i as int, j as int).drop_last() =~= s@.subrange(i as int, j - 1));
        j = j - 1;
    }
    s.substring_char(i, j)
}

/// The rest of `s` after `prefix`, where `s` starts with `prefix`.
pub open spec fn strip_prefix_spec(s: Seq<char>, prefix: Seq<char>) -> Option<Seq<char>> {
    if prefix.is_prefix_of(s) {
        Some(s.skip(prefix.len() as int))
    } else {
        None
    }
}

/// Whether `s` starts with `prefix`.
pub fn starts_with(s: &str, prefix: &str) -> (b: bool)
    ensures
        b == prefix@.is_prefix_of(s@),
{
    let n = s.unicode_len();
    let m = prefix.unicode_len();
    if m > n {
        return false;
    }
    let mut k: usize = 0;
    while k < m
        invariant
            k <= m <= n,
            n == s@.len(),
            m == prefix@.len(),
            forall|l: int| 0 <= l < k ==> prefix@[l] == s@[l],
        decreases m - k,
    {
        if s.get_char(k) != prefix.get_char(k) {
            assert(prefix@[k as int] != s@.subrange(0, m as int)[k as int]);
            return false;
        }
        k = k + 1;
    }
    assert(prefix@ =~= s@.subrange(0, m as int));
    true
}

/// The rest of the text after `prefix`, where it starts with `prefix`.
pub fn strip_prefix<'a>(s: &'a str, prefix: &str) -> (r: Option<&'a str>)
    ensures
        match r {
            Some(rest) => strip_prefix_spec(s@, prefix@) == Some(rest@),
            None => strip_prefix_spec(s@, prefix@) is None,
        },
{
    if starts_with(s, prefix) {
        let n = s.unicode_len();
        let m = prefix.unicode_len();
        let rest = s.substring_char(m, n);
        assert(rest@ =~= s@.skip(m as int));
        Some(rest)
    } else {
        None
    }
}

/// Whether `s` ends with `suffix`.
pub fn ends_with(s: &str, suffix: &str) -> (b: bool)
    ensures
        b == suffix@.is_suffix_of(s@),
{
    let n = s.unicode_len();
    let m = suffix.unicode_len();
    if m > n {
        return false;
    }
    let off = n - m;
    let mut k: usize = 0;
    while k < m
        invariant
            k <= m <= n,
            off == n - m,
            n == s@.len(),
            m == suffix@.len(),
            forall|l: int| 0 <= l < k ==> suffix@[l] == s@[off + l],
        decreases m - k,
    {
        if s.get_char(off + k) != suffix.get_char(k) {
            assert(suffix@[k as int] != s@.subrange(off as int, n as int)[k as int]);
            return false;
        }
        k = k + 1;
    }
    assert(suffix@ =~= s@.subrange(off as int, n as int));
    true
}

} // verus!
