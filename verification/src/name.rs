//! The display name of a path: its final component. Trailing separators and
//! trailing `.` components are ignored, and a path with no component left,
//! or whose final component is `..`, has no display name.

use vstd::prelude::*;

verus! {

/// The path with every trailing `/`, and every trailing `.` component, removed.
/// A `.` component is a `.` that stands alone: at the start of the path or
/// right after a `/`.
pub open spec fn trim_path(s: Seq<char>) -> Seq<char>
    decreases s.len(),
{
    if s.len() == 0 {
        s
    } else if s.last() == '/' {
        trim_path(s.drop_last())
    } else if s.last() == '.' && (s.len() == 1 || s[s.len() - 2] == '/') {
        trim_path(s.drop_last())
    } else {
        s
    }
}

/// The suffix of `s` after its last `/` (all of `s` when it has none).
pub open spec fn after_last_slash(s: Seq<char>) -> Seq<char>
    decreases s.len(),
{
    if s.len() == 0 || s.last() == '/' {
        Seq::empty()
    } else {
        after_last_slash(s.drop_last()).push(s.last())
    }
}

/// Whether a final component is the parent marker `..`, which names no entry
/// of its own.
pub open spec fn is_parent_marker(c: Seq<char>) -> bool {
    c.len() == 2 && c[0] == '.' && c[1] == '.'
}

/// The display name of a path: the final component once trailing separators
/// and `.` components are dropped; `None` when no component is left (the
/// root, an empty path, or only `.` components) or the last one is `..`.
pub open spec fn spec_display_name(s: Seq<char>) -> Option<Seq<char>> {
    let c = after_last_slash(trim_path(s));
    if c.len() == 0 || is_parent_marker(c) {
        None
    } else {
        Some(c)
    }
}

/// The suffix after the last slash of `s.take(end)` is the run of
/// non-separator characters that ends at `end`.
proof fn lemma_after_is_subrange(s: Seq<char>, start: int, end: int)
    requires
        0 <= start <= end <= s.len(),
        forall|k: int| start <= k < end ==> s[k] != '/',
        start == 0 || s[start - 1] == '/',
    ensures
        after_last_slash(s.take(end)) == s.subrange(start, end),
    decreases end - start,
{
    if start == end {
        assert(s.subrange(start, end) =~= Seq::<char>::empty());
        if end == 0 {
            assert(s.take(end).len() == 0);
        } else {
            assert(s.take(end).last() == s[end - 1]);
        }
    } else {
        assert(s.take(end).last() == s[end - 1]);
        assert(s.take(end).drop_last() =~= s.take(end - 1));
        lemma_after_is_subrange(s, start, end - 1);
        assert(s.subrange(start, end - 1).push(s[end - 1]) =~= s.subrange(start, end));
    }
}

/// The final path component, as [`spec_display_name`] describes it.
pub fn display_name(path: &str) -> (r: Option<String>)
    ensures
        r matches Some(s) ==> spec_display_name(path@) == Some(s@),
        r is None ==> spec_display_name(path@) is None,
{
    let n = path.unicode_len();
    let mut end = n;
    proof {
        assert(path@.take(n as int) =~= path@);
    }
    while end > 0 && (path.get_char(end - 1) == '/' || (path.get_char(end - 1) == '.' && (end == 1
        || path.get_char(end - 2) == '/')))
        invariant
            end <= n,
            n == path@.len(),
            trim_path(path@) == trim_path(path@.take(end as int)),
        decreases end,
    {
        proof {
            assert(path@.take(end as int).last() == path@[end - 1]);
            assert(path@.take(end as int).drop_last() =~= path@.take(end as int - 1));
        }
        end = end - 1;
    }
    proof {
        if end > 0 {
            assert(path@.take(end as int).last() == path@[end - 1]);
        }
        assert(trim_path(path@) == path@.take(end as int));
    }
    let mut start = end;
    while start > 0 && path.get_char(start - 1) != '/'
        invariant
            start <= end <= n,
            n == path@.len(),
            forall|k: int| start <= k < end ==> path@[k] != '/',
        decreases start,
    {
        start = start - 1;
    }
    proof {
        lemma_after_is_subrange(path@, start as int, end as int);
    }
    if start == end {
        return None;
    }
    let comp = path.substring_char(start, end);
    let len: usize = end - start;
    if len == 2 && comp.get_char(0) == '.' && comp.get_char(1) == '.' {
        return None;
    }
    Some(String::from_str(comp))
}

} // verus!
