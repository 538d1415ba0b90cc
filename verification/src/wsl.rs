//! Paths into a local Linux distribution.

use crate::text::chars_of;
use vstd::prelude::*;

verus! {

/// `c` with a slash turned into a backslash.
pub open spec fn spec_flip(c: char) -> char {
    if c == '/' {
        '\\'
    } else {
        c
    }
}

/// `s` with every slash turned into a backslash.
pub open spec fn spec_to_backslashes(s: Seq<char>) -> Seq<char> {
    Seq::new(s.len(), |i: int| spec_flip(s[i]))
}

/// Index of the first character at or after `from` that is neither a
/// slash nor a backslash, or the length of `s`.
pub open spec fn spec_first_name_char(s: Seq<char>, from: int) -> int
    decreases s.len() - from,
{
    if from < 0 || from >= s.len() {
        s.len() as int
    } else if spec_flip(s[from]) != '\\' {
        from
    } else {
        spec_first_name_char(s, from + 1)
    }
}

/// The Windows path under which the file `path` of the distribution
/// `distro` is reached: the share of the distribution, then `path` with
/// backslashes for slashes and without leading separators.
pub open spec fn spec_to_wsl_path(distro: Seq<char>, path: Seq<char>) -> Seq<char> {
    "\\\\wsl$\\"@ + distro + "\\"@ + spec_to_backslashes(path).skip(
        spec_first_name_char(path, 0),
    )
}

/// The Windows path of a file inside a local Linux distribution.
pub fn to_wsl_path(distro: &str, path: &str) -> (out: String)
    ensures
        out@ == spec_to_wsl_path(distro@, path@),
{
    let p = chars_of(path);
    let mut out = String::new();
    out.append("\\\\wsl$\\");
    out.append(distro);
    out.append("\\");
    let ghost head = out@;
    let mut i: usize = 0;
    while i < p.len() && (p[i] == '/' || p[i] == '\\')
        invariant
            i <= p.len(),
            out@ == head,
            spec_first_name_char(p@, i as int) == spec_first_name_char(p@, 0),
        decreases p.len() - i,
    {
        i += 1;
    }
    let first = i;
    assert(spec_first_name_char(p@, 0) == first);
    while i < p.len()
        invariant
            first <= i <= p.len(),
            out@ == head + spec_to_backslashes(p@).subrange(first as int, i as int),
        decreases p.len() - i,
    {
        let c = p[i];
        out.push(if c == '/' {
            '\\'
        } else {
            c
        });
        i += 1;
        assert(out@ =~= head + spec_to_backslashes(p@).subrange(first as int, i as int));
    }
    assert(spec_to_backslashes(p@).subrange(first as int, p@.len() as int) =~= spec_to_backslashes(
        p@,
    ).skip(first as int));
    out
}

} // verus!
