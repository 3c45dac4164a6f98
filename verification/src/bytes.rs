//! Byte-level helpers shared by the protocol modules: the ASCII bytes
//! the wire format is made of, and searching a byte sequence for the
//! first occurrence of a byte.

use vstd::prelude::*;
use vstd::slice::{slice_index_get, slice_subrange, slice_to_vec};

verus! {

/// ASCII space, the token separator of the request line.
pub const SP: u8 = 32;
/// ASCII line feed, the request-line terminator.
pub const NL: u8 = 10;
/// ASCII carriage return, optionally preceding the line feed.
pub const CR: u8 = 13;
/// ASCII `/`, the path segment separator.
pub const SLASH: u8 = 47;
/// ASCII `.`, the byte a traversal segment is made of.
pub const DOT: u8 = 46;

/// Index of the first occurrence of `b` in `s`; `s.len()` when `b`
/// does not occur.
pub open spec fn first_index(s: Seq<u8>, b: u8) -> int
    decreases s.len(),
{
    if s.len() == 0 {
        0
    } else if s[0] == b {
        0
    } else {
        1 + first_index(s.subrange(1, s.len() as int), b)
    }
}

/// `first_index` is in bounds, everything before it differs from `b`,
/// and it points at `b` whenever it is a proper index.
pub proof fn lemma_first_index(s: Seq<u8>, b: u8)
    ensures
        0 <= first_index(s, b) <= s.len(),
        forall|j: int| 0 <= j < first_index(s, b) ==> s[j] != b,
        first_index(s, b) < s.len() ==> s[first_index(s, b)] == b,
    decreases s.len(),
{
    if s.len() == 0 {
    } else if s[0] == b {
    } else {
        let t = s.subrange(1, s.len() as int);
        lemma_first_index(t, b);
        assert(forall|j: int| 1 <= j < s.len() ==> s[j] == t[j - 1]);
    }
}

/// A position whose prefix is free of `b` and which either holds `b`
/// or is the end of the sequence is exactly `first_index`.
pub proof fn lemma_first_index_unique(s: Seq<u8>, b: u8, i: int)
    requires
        0 <= i <= s.len(),
        forall|j: int| 0 <= j < i ==> s[j] != b,
        i < s.len() ==> s[i] == b,
    ensures
        first_index(s, b) == i,
{
    lemma_first_index(s, b);
    if first_index(s, b) < i {
        assert(s[first_index(s, b)] == b);
    }
    if i < first_index(s, b) {
        assert(s[i] != b);
    }
}

/// Scans `v` for the first occurrence of `b`, returning its index, or
/// the length of `v` when `b` does not occur.
pub fn find_byte(v: &[u8], b: u8) -> (r: usize)
    ensures
        r == first_index(v@, b),
{
    let n: usize = v.len();
    let mut i: usize = 0;
    while i < n
        invariant
            0 <= i <= n,
            n == v@.len(),
            forall|j: int| 0 <= j < i ==> v@[j] != b,
        decreases n - i,
    {
        if *slice_index_get(v, i) == b {
            proof {
                lemma_first_index_unique(v@, b, i as int);
            }
            return i;
        }
        i = i + 1;
    }
    proof {
        lemma_first_index_unique(v@, b, n as int);
    }
    n
}

/// Copies the bytes of `v` between `from` and `to` into a fresh vector.
pub fn copy_range(v: &[u8], from: usize, to: usize) -> (r: Vec<u8>)
    requires
        from <= to <= v@.len(),
    ensures
        r@ == v@.subrange(from as int, to as int),
{
    slice_to_vec(slice_subrange(v, from, to))
}

} // verus!
