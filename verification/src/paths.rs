//! Paths as strings, joined the way `Path::join` joins them on Unix.

use vstd::prelude::*;

verus! {

/// `base` joined with `p`: an absolute `p` (one that starts with `/`)
/// replaces `base`; otherwise `p` is appended, with a `/` between the two
/// unless `base` is empty or already ends with `/`.
pub open spec fn joined(base: Seq<char>, p: Seq<char>) -> Seq<char> {
    if p.len() > 0 && p[0] == '/' {
        p
    } else if base.len() == 0 || base[base.len() - 1] == '/' {
        base + p
    } else {
        base + seq!['/'] + p
    }
}

/// Joining a relative path keeps the base as a prefix and ends with the
/// joined path; an absolute path replaces the base.
pub proof fn law_join_keeps_both(base: Seq<char>, p: Seq<char>)
    ensures
        !(p.len() > 0 && p[0] == '/') ==> joined(base, p).subrange(0, base.len() as int) == base
            && joined(base, p).subrange(joined(base, p).len() - p.len(), joined(base, p).len() as int)
            == p,
        !(p.len() > 0 && p[0] == '/') ==> joined(base, p).len() <= base.len() + p.len() + 1,
        (p.len() > 0 && p[0] == '/') ==> joined(base, p) == p,
{
    if !(p.len() > 0 && p[0] == '/') {
        let j = joined(base, p);
        assert(j.subrange(0, base.len() as int) =~= base);
        assert(j.subrange(j.len() - p.len(), j.len() as int) =~= p);
    }
}

/// `base` joined with `p` (see [`joined`]).
pub fn join_path(base: &str, p: &str) -> (r: String)
    ensures
        r@ == joined(base@, p@),
{
    proof {
        reveal_strlit("/");
    }
    let n = base.unicode_len();
    let m = p.unicode_len();
    if m > 0 && p.get_char(0) == '/' {
        return String::from_str(p);
    }
    let mut out = String::from_str(base);
    if n > 0 && base.get_char(n - 1) != '/' {
        out.append("/");
    }
    out.append(p);
    out
}

} // verus!
