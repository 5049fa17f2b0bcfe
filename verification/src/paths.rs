//! Textual path algebra: separator classification, absolute-path detection,
//! joining a path against a base directory, and parent computation.
//!
//! Paths are plain strings over the Unix path syntax, where `/` is the one
//! separator character. Resolution is purely textual: no symlink resolution,
//! no canonicalization, and `.` / `..` components are carried through
//! verbatim for the operating system to interpret.

use vstd::prelude::*;
use vstd::string::StrSliceExecFns;
use vstd::string::StringExecFns;

verus! {

/// The Unix path separator is exactly `/`.
pub open spec fn is_sep(c: char) -> bool {
    c == '/'
}

/// Executable separator test.
pub fn is_path_separator(c: char) -> (r: bool)
    ensures
        r == is_sep(c),
{
    c == '/'
}

/// A path is absolute when it starts with a separator.
pub open spec fn spec_is_absolute(p: Seq<char>) -> bool {
    p.len() > 0 && is_sep(p[0])
}

/// Executable absolute-path test.
pub fn is_absolute_path(p: &str) -> (r: bool)
    ensures
        r == spec_is_absolute(p@),
{
    let n = p.unicode_len();
    n > 0 && is_path_separator(p.get_char(0))
}

/// A path ends with a separator when its final character is one.
pub open spec fn ends_with_sep(p: Seq<char>) -> bool {
    p.len() > 0 && is_sep(p[p.len() - 1])
}

/// Joining a path onto a base directory: an absolute path discards the
/// base entirely; otherwise the two are concatenated, inserting a single
/// separator unless the base is empty or already ends with one.
pub open spec fn spec_join(base: Seq<char>, p: Seq<char>) -> Seq<char> {
    if spec_is_absolute(p) {
        p
    } else if base.len() == 0 {
        p
    } else if ends_with_sep(base) {
        base + p
    } else {
        base + seq!['/'] + p
    }
}

/// Join `p` onto the base directory `base`, textually.
pub fn join_path(base: &str, p: &str) -> (r: String)
    ensures
        r@ == spec_join(base@, p@),
{
    proof {
        reveal_strlit("/");
    }
    if is_absolute_path(p) {
        String::from_str(p)
    } else {
        let bn = base.unicode_len();
        if bn == 0 {
            String::from_str(p)
        } else if is_path_separator(base.get_char(bn - 1)) {
            String::from_str(base).concat(p)
        } else {
            let mut joined = String::from_str(base);
            joined.append("/");
            proof {
                assert(joined@ =~= base@ + seq!['/']);
            }
            joined.concat(p)
        }
    }
}

/// Drop every separator at the end of the path.
pub open spec fn drop_trailing_seps(p: Seq<char>) -> Seq<char>
    decreases p.len(),
{
    if p.len() > 0 && is_sep(p[p.len() - 1]) {
        drop_trailing_seps(p.drop_last())
    } else {
        p
    }
}

/// Drop the non-separator characters at the end of the path: the final
/// path component.
pub open spec fn drop_last_component(p: Seq<char>) -> Seq<char>
    decreases p.len(),
{
    if p.len() > 0 && !is_sep(p[p.len() - 1]) {
        drop_last_component(p.drop_last())
    } else {
        p
    }
}

/// The parent of a path: the path minus its final component, with trailing
/// separators trimmed. The root and the empty path have no parent, and
/// neither does a bare single component, which names an entry of the base
/// directory itself. The parent of a top-level entry such as `/a` is the
/// root `/`.
pub open spec fn spec_parent(p: Seq<char>) -> Option<Seq<char>> {
    let trimmed = drop_trailing_seps(p);
    if trimmed.len() == 0 {
        None
    } else {
        let head = drop_last_component(trimmed);
        if head.len() == 0 {
            None
        } else {
            let parent = drop_trailing_seps(head);
            if parent.len() == 0 {
                Some(seq!['/'])
            } else {
                Some(parent)
            }
        }
    }
}

/// Scan left from `end` past separators; the prefix that remains is
/// `drop_trailing_seps` of the prefix of length `end`.
fn trim_seps_end(p: &str, end: usize) -> (r: usize)
    requires
        end <= p@.len(),
    ensures
        r <= end,
        p@.subrange(0, r as int) == drop_trailing_seps(p@.subrange(0, end as int)),
{
    let mut i: usize = end;
    while i > 0 && is_path_separator(p.get_char(i - 1))
        invariant
            i <= end <= p@.len(),
            drop_trailing_seps(p@.subrange(0, end as int)) == drop_trailing_seps(
                p@.subrange(0, i as int),
            ),
        decreases i,
    {
        proof {
            let s = p@.subrange(0, i as int);
            assert(s.drop_last() =~= p@.subrange(0, i as int - 1));
            assert(drop_trailing_seps(s) == drop_trailing_seps(p@.subrange(0, i as int - 1)));
        }
        i = i - 1;
    }
    proof {
        let s = p@.subrange(0, i as int);
        assert(drop_trailing_seps(s) == s);
    }
    i
}

/// Scan left from `end` past non-separators; the prefix that remains is
/// `drop_last_component` of the prefix of length `end`.
fn trim_component_end(p: &str, end: usize) -> (r: usize)
    requires
        end <= p@.len(),
    ensures
        r <= end,
        p@.subrange(0, r as int) == drop_last_component(p@.subrange(0, end as int)),
{
    let mut i: usize = end;
    while i > 0 && !is_path_separator(p.get_char(i - 1))
        invariant
            i <= end <= p@.len(),
            drop_last_component(p@.subrange(0, end as int)) == drop_last_component(
                p@.subrange(0, i as int),
            ),
        decreases i,
    {
        proof {
            let s = p@.subrange(0, i as int);
            assert(s.drop_last() =~= p@.subrange(0, i as int - 1));
            assert(drop_last_component(s) == drop_last_component(p@.subrange(0, i as int - 1)));
        }
        i = i - 1;
    }
    proof {
        let s = p@.subrange(0, i as int);
        assert(drop_last_component(s) == s);
    }
    i
}

/// Compute the parent directory of `p`, or `None` where there is no parent
/// component to create.
pub fn parent_dir(p: &str) -> (r: Option<String>)
    ensures
        r is Some <==> spec_parent(p@) is Some,
        r matches Some(s) ==> spec_parent(p@) == Some(s@),
{
    let n = p.unicode_len();
    proof {
        assert(p@.subrange(0, n as int) =~= p@);
    }
    let trimmed_end = trim_seps_end(p, n);
    if trimmed_end == 0 {
        return None;
    }
    let head_end = trim_component_end(p, trimmed_end);
    if head_end == 0 {
        return None;
    }
    let parent_end = trim_seps_end(p, head_end);
    if parent_end == 0 {
        let root = String::from_str("/");
        proof {
            reveal_strlit("/");
            assert(root@ =~= seq!['/']);
        }
        Some(root)
    } else {
        let parent = String::from_str(p.substring_char(0, parent_end));
        Some(parent)
    }
}

} // verus!
