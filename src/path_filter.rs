//! The per-segment ignore filter applied to paths relative to an archive root.

use vstd::prelude::*;

use crate::text::{push_char, same_text};

verus! {

/// The segments of `p` between occurrences of `sep`, as `str::split` yields
/// them: `"a/b"` gives `["a", "b"]` and the empty path gives one empty segment.
pub open spec fn split_segments(p: Seq<char>, sep: char) -> Seq<Seq<char>>
    decreases p.len(),
{
    if p.len() == 0 {
        seq![Seq::empty()]
    } else {
        let init = split_segments(p.drop_last(), sep);
        if p.last() == sep {
            init.push(Seq::empty())
        } else {
            init.update(init.len() - 1, init.last().push(p.last()))
        }
    }
}

/// The texts held by a list of strings.
pub open spec fn names(v: Seq<String>) -> Seq<Seq<char>> {
    v.map_values(|s: String| s@)
}

/// A path is included when none of its segments is an ignored name.
pub open spec fn path_included(p: Seq<char>, sep: char, ignore: Seq<Seq<char>>) -> bool {
    forall|k: int|
        0 <= k < split_segments(p, sep).len() ==> !ignore.contains(
            #[trigger] split_segments(p, sep)[k],
        )
}

/// The name a relative path is stored under in an archive: every separator
/// becomes a forward slash.
pub open spec fn archive_path(p: Seq<char>, sep: char) -> Seq<char> {
    p.map_values(|c: char| if c == sep { '/' } else { c })
}

/// Every path has at least one segment.
pub proof fn lemma_split_nonempty(p: Seq<char>, sep: char)
    ensures
        split_segments(p, sep).len() >= 1,
    decreases p.len(),
{
    if p.len() > 0 {
        lemma_split_nonempty(p.drop_last(), sep);
    }
}

/// Splitting `a`, a separator and `b` gives the segments of `a` followed by
/// those of `b`.
pub proof fn lemma_split_concat(a: Seq<char>, b: Seq<char>, sep: char)
    ensures
        split_segments(a.push(sep) + b, sep) == split_segments(a, sep) + split_segments(b, sep),
    decreases b.len(),
{
    let ab = a.push(sep) + b;
    if b.len() == 0 {
        assert(ab =~= a.push(sep));
        assert(ab.drop_last() =~= a);
        assert(split_segments(a, sep) + split_segments(b, sep) =~= split_segments(a, sep).push(
            Seq::empty(),
        ));
    } else {
        let b0 = b.drop_last();
        lemma_split_concat(a, b0, sep);
        lemma_split_nonempty(b0, sep);
        lemma_split_nonempty(a, sep);
        assert(ab.drop_last() =~= a.push(sep) + b0);
        assert(ab.last() == b.last());
        let sa = split_segments(a, sep);
        let sb0 = split_segments(b0, sep);
        if b.last() == sep {
            assert(split_segments(ab, sep) =~= sa + sb0.push(Seq::empty()));
        } else {
            assert((sa + sb0).last() == sb0.last());
            assert(split_segments(ab, sep) =~= sa + sb0.update(
                sb0.len() - 1,
                sb0.last().push(b.last()),
            ));
        }
    }
}

/// Everything below an excluded path is excluded too: an ignored directory
/// takes its whole subtree out of the archive.
pub proof fn lemma_descendants_excluded(
    dir: Seq<char>,
    rest: Seq<char>,
    sep: char,
    ignore: Seq<Seq<char>>,
)
    requires
        !path_included(dir, sep, ignore),
    ensures
        !path_included(dir.push(sep) + rest, sep, ignore),
{
    lemma_split_concat(dir, rest, sep);
    let k = choose|k: int|
        0 <= k < split_segments(dir, sep).len() && ignore.contains(
            #[trigger] split_segments(dir, sep)[k],
        );
    assert(split_segments(dir.push(sep) + rest, sep)[k] == split_segments(dir, sep)[k]);
}

/// Splits `path` at every `sep`.
pub fn segments(path: &str, sep: char) -> (r: Vec<String>)
    ensures
        names(r@) == split_segments(path@, sep),
{
    let n = path.unicode_len();
    let mut segs: Vec<String> = Vec::new();
    let mut cur = String::new();
    let mut i: usize = 0;
    assert(path@.subrange(0, 0) =~= Seq::<char>::empty());
    while i < n
        invariant
            i <= n,
            n == path@.len(),
            names(segs@).push(cur@) == split_segments(path@.subrange(0, i as int), sep),
        decreases n - i,
    {
        let c = path.get_char(i);
        let ghost prefix = path@.subrange(0, i + 1);
        assert(prefix.drop_last() =~= path@.subrange(0, i as int));
        assert(prefix.last() == c);
        if c == sep {
            let done = cur;
            segs.push(done);
            cur = String::new();
            assert(names(segs@).push(cur@) =~= split_segments(prefix, sep));
        } else {
            let ghost before = cur@;
            push_char(&mut cur, c);
            assert(names(segs@).push(cur@) =~= split_segments(prefix, sep));
        }
        i = i + 1;
    }
    assert(path@.subrange(0, n as int) =~= path@);
    let done = cur;
    segs.push(done);
    assert(names(segs@) =~= split_segments(path@, sep));
    segs
}

/// Whether `name` is one of `ignore`, compared as exact text.
pub fn is_ignored_name(name: &str, ignore: &Vec<String>) -> (r: bool)
    ensures
        r == names(ignore@).contains(name@),
{
    let mut j: usize = 0;
    while j < ignore.len()
        invariant
            j <= ignore.len(),
            forall|t: int| 0 <= t < j ==> ignore@[t]@ != name@,
        decreases ignore.len() - j,
    {
        if same_text(ignore[j].as_str(), name) {
            assert(names(ignore@)[j as int] == name@);
            return true;
        }
        j = j + 1;
    }
    assert(!names(ignore@).contains(name@)) by {
        if names(ignore@).contains(name@) {
            let t = choose|t: int| 0 <= t < names(ignore@).len() && names(ignore@)[t] == name@;
            assert(ignore@[t]@ == name@);
        }
    }
    false
}

/// Whether the relative path `path` passes the filter: it is excluded exactly
/// when one of its segments, split at `sep`, is a name in `ignore`.
pub fn is_included(path: &str, sep: char, ignore: &Vec<String>) -> (r: bool)
    ensures
        r == path_included(path@, sep, names(ignore@)),
        !r <==> exists|k: int|
            0 <= k < split_segments(path@, sep).len() && names(ignore@).contains(
                #[trigger] split_segments(path@, sep)[k],
            ),
{
    let segs = segments(path, sep);
    let mut k: usize = 0;
    while k < segs.len()
        invariant
            k <= segs.len(),
            names(segs@) == split_segments(path@, sep),
            forall|t: int| 0 <= t < k ==> !names(ignore@).contains(#[trigger] names(segs@)[t]),
        decreases segs.len() - k,
    {
        if is_ignored_name(segs[k].as_str(), ignore) {
            assert(names(segs@)[k as int] == segs@[k as int]@);
            return false;
        }
        assert(names(segs@)[k as int] == segs@[k as int]@);
        k = k + 1;
    }
    true
}

/// The path under which an entry is stored in the archive.
pub fn archive_name(path: &str, sep: char) -> (r: String)
    ensures
        r@ == archive_path(path@, sep),
{
    let n = path.unicode_len();
    let mut out = String::new();
    let mut i: usize = 0;
    while i < n
        invariant
            i <= n,
            n == path@.len(),
            out@ == archive_path(path@.subrange(0, i as int), sep),
        decreases n - i,
    {
        let c = path.get_char(i);
        if c == sep {
            push_char(&mut out, '/');
        } else {
            push_char(&mut out, c);
        }
        assert(out@ =~= archive_path(path@.subrange(0, i + 1), sep));
        i = i + 1;
    }
    assert(path@.subrange(0, n as int) =~= path@);
    out
}

} // verus!
