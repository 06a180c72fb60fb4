//! The path of a request, as the router reads it.

use vstd::prelude::*;
use vstd::utf8::{encode_utf8, encode_utf8_decode_utf8};

verus! {

/// `path` without the `/` characters that it starts with. Nothing else is
/// changed: no `..` is resolved and no letter changes its case.
pub open spec fn normalized(path: Seq<char>) -> Seq<char>
    decreases path.len(),
{
    if path.len() > 0 && path[0] == '/' {
        normalized(path.drop_first())
    } else {
        path
    }
}

/// Whether `path` reads like the name of a file rather than a route of the
/// application: it holds a `.` somewhere.
pub open spec fn looks_like_file(path: Seq<char>) -> bool {
    path.contains('.')
}

/// Strips every leading `/` from `path`.
pub fn normalize<'a>(path: &'a str) -> (rest: &'a str)
    ensures
        rest@ == normalized(path@),
{
    let n = path.unicode_len();
    let mut k: usize = 0;
    assert(path@.skip(0) == path@);
    for c in it: path.chars()
        invariant
            it.seq() == path@,
            n == path@.len(),
            k == it.index(),
            normalized(path@) == normalized(path@.skip(k as int)),
    {
        if c != '/' {
            return path.substring_char(k, n);
        }
        assert(path@.skip(k as int).drop_first() == path@.skip(k + 1));
        k += 1;
    }
    path.substring_char(n, n)
}

/// Tells whether `path` holds a `.`.
pub fn has_dot(path: &str) -> (found: bool)
    ensures
        found == looks_like_file(path@),
{
    for c in it: path.chars()
        invariant
            it.seq() == path@,
            forall|j: int| 0 <= j < it.index() ==> path@[j] != '.',
    {
        if c == '.' {
            return true;
        }
    }
    false
}

/// Tells whether two strings hold the same text.
pub fn same_text(a: &str, b: &str) -> (same: bool)
    ensures
        same == (a@ == b@),
{
    let x = a.as_bytes();
    let y = b.as_bytes();
    proof {
        encode_utf8_decode_utf8(a@);
        encode_utf8_decode_utf8(b@);
    }
    if x.len() != y.len() {
        return false;
    }
    let mut i: usize = 0;
    while i < x.len()
        invariant
            x@.len() == y@.len(),
            i <= x@.len(),
            x@ == encode_utf8(a@),
            y@ == encode_utf8(b@),
            forall|j: int| 0 <= j < i ==> x@[j] == y@[j],
        decreases x@.len() - i,
    {
        if x[i] != y[i] {
            return false;
        }
        i += 1;
    }
    assert(x@ =~= y@);
    true
}

} // verus!
