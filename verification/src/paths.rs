//! Starting-directory handling: relative directories resolve against the
//! working directory captured once when the tool started, never against
//! anything the multiplexer reports.

use vstd::prelude::*;

verus! {

/// A path is absolute when it starts at the filesystem root.
pub open spec fn is_absolute(p: Seq<char>) -> bool {
    p.len() > 0 && p[0] == '/'
}

/// `rel` appended to `base` with exactly one separator between them, as the
/// standard library joins paths.
pub open spec fn joined(base: Seq<char>, rel: Seq<char>) -> Seq<char> {
    if base.len() == 0 {
        rel
    } else if base.last() == '/' {
        base + rel
    } else {
        base + "/"@ + rel
    }
}

/// What a starting directory means: absolute paths stand as written, relative
/// ones resolve against the captured working directory `wd`.
pub open spec fn normalized(wd: Seq<char>, p: Seq<char>) -> Seq<char> {
    if is_absolute(p) {
        p
    } else {
        joined(wd, p)
    }
}

/// Joins `rel` onto `base` with a single separator.
pub fn join_path(base: &str, rel: &str) -> (r: String)
    ensures
        r@ == joined(base@, rel@),
{
    let base_len = base.unicode_len();
    if base_len == 0 {
        return rel.to_owned();
    }
    let mut r = base.to_owned();
    if base.get_char(base_len - 1) != '/' {
        r.append("/");
    }
    r.append(rel);
    r
}

/// Resolves `path` against the captured startup working directory
/// `working_dir`: absolute paths are kept, relative ones are joined onto it.
pub fn normalize_path(path: &str, working_dir: &str) -> (r: String)
    ensures
        r@ == normalized(working_dir@, path@),
{
    if path.unicode_len() > 0 && path.get_char(0) == '/' {
        path.to_owned()
    } else {
        join_path(working_dir, path)
    }
}

} // verus!
