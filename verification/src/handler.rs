//! The per-connection decision logic. A worker hands the received
//! bytes to `plan_request`, which either names the one file path to
//! fetch or refuses the request outright; the caller then attempts
//! the fetch (the only step that touches the filesystem) and hands
//! the outcome to `respond`, which produces the exact bytes to write
//! back. Refusal and a failed fetch both yield the not-found
//! response.

use vstd::prelude::*;
use vstd::slice::slice_index_get;
use crate::request::{parse_request, spec_request_line, spec_tokens};
use crate::resolve::{has_traversal, resolve, spec_join, spec_strip_slash};
use crate::response::{
    build_response, spec_not_found_body, spec_response, spec_status_not_found, spec_status_ok,
};

verus! {

/// The bytes of the one recognized method token, `GET`.
pub open spec fn spec_method_get() -> Seq<u8> {
    seq![71u8, 69u8, 84u8]
}

/// What a request amounts to: the one path to fetch, or nothing.
/// `Some(path)` exactly when the request line has two tokens, the
/// method is the recognized one, and the stripped resource token is
/// free of traversal; every other request is refused.
pub open spec fn spec_plan(req: Seq<u8>, root: Seq<u8>) -> Option<Seq<u8>> {
    match spec_tokens(spec_request_line(req)) {
        None => None,
        Some((m, uri)) => {
            let t = spec_strip_slash(uri);
            if m == spec_method_get() && !has_traversal(t) {
                Some(spec_join(root, t))
            } else {
                None
            }
        },
    }
}

/// What a worker does with a request: fetch one file, or refuse.
pub enum Plan {
    /// Attempt to read this path and serve its bytes.
    Fetch(Vec<u8>),
    /// Respond not-found without touching the filesystem.
    Refuse,
}

/// Whether the method token is the recognized one (case-sensitive
/// exact match).
pub fn is_recognized_method(m: &[u8]) -> (r: bool)
    ensures
        r == (m@ == spec_method_get()),
{
    let r = m.len() == 3 && *slice_index_get(m, 0) == 71
        && *slice_index_get(m, 1) == 69 && *slice_index_get(m, 2) == 84;
    proof {
        if r {
            assert(m@ =~= spec_method_get());
        }
    }
    r
}

/// Decides what to do with a request: parses the first line, checks
/// the method, and resolves the resource token against the root.
pub fn plan_request(req: &[u8], root: &[u8]) -> (r: Plan)
    ensures
        match r {
            Plan::Fetch(p) => spec_plan(req@, root@) == Some(p@),
            Plan::Refuse => spec_plan(req@, root@) is None,
        },
{
    match parse_request(req) {
        None => Plan::Refuse,
        Some(q) => {
            if is_recognized_method(q.method.as_slice()) {
                match resolve(root, q.uri.as_slice()) {
                    Some(p) => Plan::Fetch(p),
                    None => Plan::Refuse,
                }
            } else {
                Plan::Refuse
            }
        },
    }
}

/// The full response for a request, given the outcome of the fetch
/// its plan called for. `fetched` must be `None` when the plan was a
/// refusal (there was nothing to fetch) and is the fetched bytes, or
/// `None` on any read failure, when the plan named a path.
pub fn respond(req: &[u8], root: &[u8], fetched: Option<Vec<u8>>) -> (r: Vec<u8>)
    requires
        spec_plan(req@, root@) is None ==> fetched is None,
    ensures
        match fetched {
            Some(body) => spec_plan(req@, root@) is Some && r@ == spec_response(
                spec_status_ok(),
                body@,
            ),
            None => r@ == spec_response(spec_status_not_found(), spec_not_found_body()),
        },
{
    build_response(fetched)
}

/// Every request whose method is not the recognized one is refused,
/// whether or not the resource exists: its plan names no path.
pub proof fn lemma_other_method_refused(req: Seq<u8>, root: Seq<u8>)
    requires
        spec_tokens(spec_request_line(req)) matches Some((m, uri)) && m != spec_method_get(),
    ensures
        spec_plan(req, root) is None,
{
}

/// Every malformed request line (fewer than two tokens) is refused.
pub proof fn lemma_malformed_refused(req: Seq<u8>, root: Seq<u8>)
    requires
        spec_tokens(spec_request_line(req)) is None,
    ensures
        spec_plan(req, root) is None,
{
}

/// Every resource token holding a parent-directory segment is
/// refused: traversal never reaches the filesystem.
pub proof fn lemma_traversal_refused(req: Seq<u8>, root: Seq<u8>)
    requires
        spec_tokens(spec_request_line(req)) matches Some((m, uri)) && has_traversal(
            spec_strip_slash(uri),
        ),
    ensures
        spec_plan(req, root) is None,
{
}

/// Every path a plan names lies under the root: it is the root
/// followed by a separator and a suffix free of `..` segments, so it
/// never resolves outside the configured root.
pub proof fn lemma_planned_path_under_root(req: Seq<u8>, root: Seq<u8>)
    requires
        spec_plan(req, root) is Some,
    ensures
        spec_plan(req, root) matches Some(p) && p.len() > root.len() && p.subrange(
            0,
            root.len() as int,
        ) == root && p[root.len() as int] == crate::bytes::SLASH && !has_traversal(
            p.subrange(root.len() as int + 1, p.len() as int),
        ),
{
    let (m, uri) = spec_tokens(spec_request_line(req)).unwrap();
    let t = spec_strip_slash(uri);
    let p = spec_plan(req, root).unwrap();
    assert(p == spec_join(root, t));
    assert(p.subrange(0, root.len() as int) =~= root);
    assert(p.subrange(root.len() as int + 1, p.len() as int) =~= t);
}

} // verus!
