//! Which paths the daemon shows: direct children of the watched directory
//! whose file name does not begin with a dot.
//!
//! Paths are compared as their UTF-8 bytes; `/` and `.` never occur inside a
//! multi-byte character, so a byte scan finds exactly the separators.

use vstd::prelude::*;
use vstd::utf8::encode_utf8;

verus! {

/// Path separator byte.
pub const SLASH: u8 = 0x2f;

/// Leading byte of a hidden file name.
pub const DOT: u8 = 0x2e;

/// Where a child's file name starts in a path under directory `d`.
pub open spec fn name_start(d: Seq<u8>) -> int {
    if d.len() > 0 && d.last() == SLASH {
        d.len() as int
    } else {
        d.len() + 1int
    }
}

/// `p` names an entry directly inside directory `d`: it is `d`, a separator
/// (unless `d` ends with one), and a non-empty name without separators.
pub open spec fn is_child_bytes(d: Seq<u8>, p: Seq<u8>) -> bool {
    let k = name_start(d);
    &&& p.len() > k
    &&& p.subrange(0, d.len() as int) == d
    &&& p[k - 1] == SLASH
    &&& forall|j: int| k <= j < p.len() ==> p[j] != SLASH
}

/// `p` names a direct child of `d` whose name does not begin with a dot.
pub open spec fn is_visible_child_bytes(d: Seq<u8>, p: Seq<u8>) -> bool {
    is_child_bytes(d, p) && p[name_start(d)] != DOT
}

/// `path` is an entry directly inside `dir` and is not hidden.
pub open spec fn visible_child(dir: Seq<char>, path: Seq<char>) -> bool {
    is_visible_child_bytes(encode_utf8(dir), encode_utf8(path))
}

/// `path` is an entry directly inside `dir` whose name begins with a dot.
pub open spec fn hidden_child(dir: Seq<char>, path: Seq<char>) -> bool {
    let d = encode_utf8(dir);
    let p = encode_utf8(path);
    is_child_bytes(d, p) && p[name_start(d)] == DOT
}

/// Decides whether `path` is a visible direct child of `dir`.
pub fn is_visible_child(dir: &String, path: &String) -> (r: bool)
    ensures
        r == visible_child(dir@, path@),
{
    let d = dir.as_str().as_bytes();
    let p = path.as_str().as_bytes();
    let dl: usize = d.len();
    let pl: usize = p.len();
    if pl <= dl {
        return false;
    }
    let k: usize = if dl > 0 && d[dl - 1] == SLASH {
        dl
    } else {
        dl + 1
    };
    assert(k == name_start(d@));
    if pl <= k {
        return false;
    }
    let mut j: usize = 0;
    while j < dl
        invariant
            d@ == encode_utf8(dir@),
            p@ == encode_utf8(path@),
            k == name_start(d@),
            dl == d@.len(),
            dl < pl,
            pl == p@.len(),
            j <= dl,
            forall|i: int| 0 <= i < j ==> p@[i] == d@[i],
        decreases dl - j,
    {
        if p[j] != d[j] {
            assert(p@.subrange(0, dl as int)[j as int] != d@[j as int]);
            return false;
        }
        j = j + 1;
    }
    assert(p@.subrange(0, dl as int) =~= d@);
    if p[k - 1] != SLASH {
        return false;
    }
    let mut j: usize = k;
    while j < pl
        invariant
            d@ == encode_utf8(dir@),
            p@ == encode_utf8(path@),
            k == name_start(d@),
            p@.subrange(0, d@.len() as int) == d@,
            p@[k - 1] == SLASH,
            k < pl,
            pl == p@.len(),
            k <= j <= pl,
            forall|i: int| k <= i < j ==> p@[i] != SLASH,
        decreases pl - j,
    {
        if p[j] == SLASH {
            return false;
        }
        j = j + 1;
    }
    p[k] != DOT
}

} // verus!
