//! Resource resolution: turning the resource token of a request into
//! a candidate file path under the configured root. The token is
//! stripped of its leading separator and joined onto the root; a
//! token holding a parent-directory segment (`..`) is rejected, so a
//! resolved path never names anything outside the root.

use vstd::prelude::*;
use vstd::slice::{slice_index_get, slice_subrange, slice_to_vec};
use crate::bytes::{DOT, SLASH};

verus! {

/// The resource token without its leading `/`, when it has one.
pub open spec fn spec_strip_slash(uri: Seq<u8>) -> Seq<u8> {
    if uri.len() > 0 && uri[0] == SLASH {
        uri.subrange(1, uri.len() as int)
    } else {
        uri
    }
}

/// Whether position `i` of `t` starts a `/`-delimited segment that is
/// exactly `..`.
pub open spec fn dotdot_at(t: Seq<u8>, i: int) -> bool {
    &&& 0 <= i
    &&& i + 2 <= t.len()
    &&& t[i] == DOT
    &&& t[i + 1] == DOT
    &&& (i == 0 || t[i - 1] == SLASH)
    &&& (i + 2 == t.len() || t[i + 2] == SLASH)
}

/// Whether some `/`-delimited segment of `t` is exactly `..`, the
/// parent-directory traversal the resolver rejects.
pub open spec fn has_traversal(t: Seq<u8>) -> bool {
    exists|i: int| dotdot_at(t, i)
}

/// The candidate path: the root, a separator, and the stripped token.
pub open spec fn spec_join(root: Seq<u8>, t: Seq<u8>) -> Seq<u8> {
    root + seq![SLASH] + t
}

/// Strips the leading `/` from the resource token, when it has one.
pub fn strip_slash(uri: &[u8]) -> (r: Vec<u8>)
    ensures
        r@ == spec_strip_slash(uri@),
{
    if uri.len() > 0 && *slice_index_get(uri, 0) == SLASH {
        slice_to_vec(slice_subrange(uri, 1, uri.len()))
    } else {
        slice_to_vec(uri)
    }
}

/// Scans a stripped token for a `..` segment.
pub fn contains_traversal(t: &[u8]) -> (r: bool)
    ensures
        r == has_traversal(t@),
{
    let n: usize = t.len();
    if n < 2 {
        proof {
            assert(forall|i: int| dotdot_at(t@, i) ==> i + 2 <= n);
        }
        return false;
    }
    let mut i: usize = 0;
    while i <= n - 2
        invariant
            2 <= n,
            0 <= i <= n - 1,
            n == t@.len(),
            forall|j: int| 0 <= j < i ==> !dotdot_at(t@, j),
        decreases n - i,
    {
        let seg_start = i == 0 || *slice_index_get(t, i - 1) == SLASH;
        let seg_end = i + 2 == n || *slice_index_get(t, i + 2) == SLASH;
        if seg_start && seg_end && *slice_index_get(t, i) == DOT && *slice_index_get(t, i + 1) == DOT
        {
            proof {
                assert(dotdot_at(t@, i as int));
            }
            return true;
        }
        i = i + 1;
    }
    proof {
        assert(forall|j: int| dotdot_at(t@, j) ==> 0 <= j && j + 2 <= n);
    }
    false
}

/// Joins the root and a stripped token into a candidate path.
pub fn join_path(root: &[u8], t: &[u8]) -> (r: Vec<u8>)
    ensures
        r@ == spec_join(root@, t@),
{
    let mut r = slice_to_vec(root);
    r.push(SLASH);
    let mut i: usize = 0;
    while i < t.len()
        invariant
            0 <= i <= t@.len(),
            r@ == root@ + seq![SLASH] + t@.subrange(0, i as int),
        decreases t@.len() - i,
    {
        r.push(*slice_index_get(t, i));
        proof {
            assert(r@ =~= root@ + seq![SLASH] + t@.subrange(0, i + 1));
        }
        i = i + 1;
    }
    proof {
        assert(r@ =~= spec_join(root@, t@));
    }
    r
}

/// Resolves a resource token against the root: strips the leading
/// separator, rejects traversal, and joins the rest onto the root.
/// `None` exactly when the token holds a `..` segment.
pub fn resolve(root: &[u8], uri: &[u8]) -> (r: Option<Vec<u8>>)
    ensures
        match r {
            Some(p) => !has_traversal(spec_strip_slash(uri@)) && p@ == spec_join(
                root@,
                spec_strip_slash(uri@),
            ),
            None => has_traversal(spec_strip_slash(uri@)),
        },
{
    let t = strip_slash(uri);
    if contains_traversal(t.as_slice()) {
        None
    } else {
        Some(join_path(root, t.as_slice()))
    }
}

} // verus!
