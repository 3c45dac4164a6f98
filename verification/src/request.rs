//! The wire request: extracting the first line from the received
//! bytes and splitting it into a method token and a resource token.
//! Only the first line is consulted; header lines and any body after
//! it are ignored.

use vstd::prelude::*;
use vstd::slice::{slice_index_get, slice_subrange, slice_to_vec};
use crate::bytes::{CR, NL, SP, copy_range, find_byte, first_index, lemma_first_index};

verus! {

/// The request line of `req`: the bytes before the first line feed
/// (all of `req` when none occurs), with a trailing carriage return
/// removed.
pub open spec fn spec_request_line(req: Seq<u8>) -> Seq<u8> {
    let line = req.take(first_index(req, NL));
    if line.len() > 0 && line[line.len() - 1] == CR {
        line.drop_last()
    } else {
        line
    }
}

/// The method and resource tokens of a request line, split on the
/// ASCII space. `None` when the line holds fewer than two tokens,
/// that is, no space at all. The resource token ends at the next
/// space or at the end of the line; anything after it (an HTTP
/// version, say) is ignored.
pub open spec fn spec_tokens(line: Seq<u8>) -> Option<(Seq<u8>, Seq<u8>)> {
    let i = first_index(line, SP);
    if i == line.len() {
        None
    } else {
        let rest = line.subrange(i + 1, line.len() as int);
        Some((line.take(i), rest.take(first_index(rest, SP))))
    }
}

/// A parsed request line: the method token and the resource token.
pub struct Request {
    /// The method token, the first whitespace-separated word.
    pub method: Vec<u8>,
    /// The resource token, the second whitespace-separated word.
    pub uri: Vec<u8>,
}

/// Whether the received bytes already hold a complete request line,
/// i.e. a line-feed terminator. The reader keeps receiving until this
/// holds or the peer closes the stream.
pub fn has_full_line(buf: &[u8]) -> (r: bool)
    ensures
        r == (first_index(buf@, NL) < buf@.len()),
{
    proof {
        lemma_first_index(buf@, NL);
    }
    find_byte(buf, NL) < buf.len()
}

/// Extracts the request line from the received bytes.
pub fn request_line(req: &[u8]) -> (r: Vec<u8>)
    ensures
        r@ == spec_request_line(req@),
{
    proof {
        lemma_first_index(req@, NL);
    }
    let n = find_byte(req, NL);
    let line = slice_subrange(req, 0, n);
    if line.len() > 0 && *slice_index_get(line, line.len() - 1) == CR {
        let r = copy_range(line, 0, line.len() - 1);
        proof {
            assert(r@ =~= spec_request_line(req@));
        }
        r
    } else {
        let r = slice_to_vec(line);
        proof {
            assert(r@ =~= spec_request_line(req@));
        }
        r
    }
}

/// Splits the received bytes into method and resource tokens, or
/// reports a malformed request line (fewer than two tokens).
pub fn parse_request(req: &[u8]) -> (r: Option<Request>)
    ensures
        match r {
            Some(q) => spec_tokens(spec_request_line(req@)) == Some((q.method@, q.uri@)),
            None => spec_tokens(spec_request_line(req@)) is None,
        },
{
    let line_vec = request_line(req);
    let line = line_vec.as_slice();
    proof {
        lemma_first_index(line@, SP);
    }
    let i = find_byte(line, SP);
    if i == line.len() {
        return None;
    }
    let method = copy_range(line, 0, i);
    let rest = slice_subrange(line, i + 1, line.len());
    proof {
        lemma_first_index(rest@, SP);
    }
    let j = find_byte(rest, SP);
    let uri = copy_range(rest, 0, j);
    proof {
        let sline = spec_request_line(req@);
        let srest = sline.subrange(first_index(sline, SP) + 1, sline.len() as int);
        assert(method@ =~= sline.take(first_index(sline, SP)));
        assert(uri@ =~= srest.take(first_index(srest, SP)));
    }
    Some(Request { method, uri })
}

} // verus!
