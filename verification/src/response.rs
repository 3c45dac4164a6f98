//! Response framing: the exact bytes written back on a connection.
//! A response is one status line, one `Content-Length` header giving
//! the exact byte count of the body, a blank line, and the body
//! bytes. Exactly two status lines exist: success and not-found. The
//! configured not-found payload is a fixed one-line HTML fragment.

use vstd::prelude::*;

verus! {

/// The decimal digits of `n`, most significant first, as ASCII bytes.
pub open spec fn spec_decimal(n: nat) -> Seq<u8>
    decreases n,
{
    if n < 10 {
        seq![(48 + n) as u8]
    } else {
        spec_decimal(n / 10).push((48 + n % 10) as u8)
    }
}

/// The number a string of decimal digits denotes, most significant
/// digit first.
pub open spec fn spec_decimal_value(s: Seq<u8>) -> nat
    decreases s.len(),
{
    if s.len() == 0 {
        0
    } else {
        spec_decimal_value(s.drop_last()) * 10 + (s.last() - 48) as nat
    }
}

/// Writing a number in decimal and reading the digits back is the
/// identity: the `Content-Length` digits of a response denote exactly
/// the byte count they were framed from.
pub proof fn lemma_decimal_round_trip(n: nat)
    ensures
        spec_decimal_value(spec_decimal(n)) == n,
    decreases n,
{
    if n < 10 {
        let s = spec_decimal(n);
        assert(s.drop_last() =~= Seq::<u8>::empty());
        assert(spec_decimal_value(Seq::<u8>::empty()) == 0);
        assert(spec_decimal_value(s) == 0 * 10 + (s.last() - 48) as nat);
        assert(s.last() == (48 + n) as u8);
    } else {
        lemma_decimal_round_trip(n / 10);
        let s = spec_decimal(n);
        assert(s.drop_last() =~= spec_decimal(n / 10));
        assert(s.last() == (48 + n % 10) as u8);
        assert(spec_decimal_value(s) == spec_decimal_value(spec_decimal(n / 10)) * 10 + (s.last()
            - 48) as nat);
        assert(n / 10 * 10 + n % 10 == n) by {
            vstd::arithmetic::div_mod::lemma_fundamental_div_mod(n as int, 10);
        }
    }
}

/// The bytes of the success status line, `HTTP/1.1 200 OK`.
pub open spec fn spec_status_ok() -> Seq<u8> {
    seq![72u8, 84u8, 84u8, 80u8, 47u8, 49u8, 46u8, 49u8, 32u8, 50u8, 48u8, 48u8, 32u8, 79u8, 75u8]
}

/// The bytes of the not-found status line, `HTTP/1.1 404 NOT FOUND`.
pub open spec fn spec_status_not_found() -> Seq<u8> {
    seq![
        72u8, 84u8, 84u8, 80u8, 47u8, 49u8, 46u8, 49u8, 32u8, 52u8, 48u8, 52u8, 32u8, 78u8, 79u8,
        84u8, 32u8, 70u8, 79u8, 85u8, 78u8, 68u8,
    ]
}

/// The bytes of the header label `Content-Length: `.
pub open spec fn spec_length_label() -> Seq<u8> {
    seq![
        67u8, 111u8, 110u8, 116u8, 101u8, 110u8, 116u8, 45u8, 76u8, 101u8, 110u8, 103u8, 116u8,
        104u8, 58u8, 32u8,
    ]
}

/// The line terminator, `\r\n`.
pub open spec fn spec_crlf() -> Seq<u8> {
    seq![13u8, 10u8]
}

/// The configured not-found payload, `<h1>Oops!</h1>`: sent as the
/// body of every not-found response.
pub open spec fn spec_not_found_body() -> Seq<u8> {
    seq![60u8, 104u8, 49u8, 62u8, 79u8, 111u8, 112u8, 115u8, 33u8, 60u8, 47u8, 104u8, 49u8, 62u8]
}

/// The full wire image of a response: status line, `Content-Length`
/// header holding the exact byte count of the body, blank line, body.
pub open spec fn spec_response(status: Seq<u8>, body: Seq<u8>) -> Seq<u8> {
    status + spec_crlf() + spec_length_label() + spec_decimal(body.len()) + spec_crlf()
        + spec_crlf() + body
}

/// Writes `n` in decimal, most significant digit first.
pub fn decimal_digits(n: usize) -> (r: Vec<u8>)
    ensures
        r@ == spec_decimal(n as nat),
    decreases n,
{
    if n < 10 {
        let mut r: Vec<u8> = Vec::new();
        r.push(48 + n as u8);
        proof {
            assert(r@ =~= spec_decimal(n as nat));
        }
        r
    } else {
        let mut r = decimal_digits(n / 10);
        r.push(48 + (n % 10) as u8);
        r
    }
}

/// The success status line as bytes.
pub fn status_ok() -> (r: Vec<u8>)
    ensures
        r@ == spec_status_ok(),
{
    let r: Vec<u8> = vec![72, 84, 84, 80, 47, 49, 46, 49, 32, 50, 48, 48, 32, 79, 75];
    proof {
        assert(r@ =~= spec_status_ok());
    }
    r
}

/// The not-found status line as bytes.
pub fn status_not_found() -> (r: Vec<u8>)
    ensures
        r@ == spec_status_not_found(),
{
    let r: Vec<u8> = vec![
        72, 84, 84, 80, 47, 49, 46, 49, 32, 52, 48, 52, 32, 78, 79, 84, 32, 70, 79, 85, 78, 68,
    ];
    proof {
        assert(r@ =~= spec_status_not_found());
    }
    r
}

/// The configured not-found payload as bytes.
pub fn not_found_body() -> (r: Vec<u8>)
    ensures
        r@ == spec_not_found_body(),
{
    let r: Vec<u8> = vec![60, 104, 49, 62, 79, 111, 112, 115, 33, 60, 47, 104, 49, 62];
    proof {
        assert(r@ =~= spec_not_found_body());
    }
    r
}

/// Frames one response: the given status line, the body's exact byte
/// count as `Content-Length`, and the body.
pub fn frame_response(status: &[u8], body: &[u8]) -> (r: Vec<u8>)
    ensures
        r@ == spec_response(status@, body@),
{
    let mut r: Vec<u8> = Vec::new();
    r.extend_from_slice(status);
    r.push(13);
    r.push(10);
    let label: Vec<u8> = vec![
        67, 111, 110, 116, 101, 110, 116, 45, 76, 101, 110, 103, 116, 104, 58, 32,
    ];
    r.extend_from_slice(label.as_slice());
    let digits = decimal_digits(body.len());
    r.extend_from_slice(digits.as_slice());
    r.push(13);
    r.push(10);
    r.push(13);
    r.push(10);
    r.extend_from_slice(body);
    proof {
        assert(label@ =~= spec_length_label());
        assert(r@ =~= spec_response(status@, body@));
    }
    r
}

/// Builds the response for the outcome of a content fetch: the file's
/// bytes under the success status when the fetch succeeded, the
/// configured not-found payload under the not-found status when it
/// did not (or when the request never reached a fetch).
pub fn build_response(found: Option<Vec<u8>>) -> (r: Vec<u8>)
    ensures
        match found {
            Some(body) => r@ == spec_response(spec_status_ok(), body@),
            None => r@ == spec_response(spec_status_not_found(), spec_not_found_body()),
        },
{
    match found {
        Some(body) => {
            let status = status_ok();
            frame_response(status.as_slice(), body.as_slice())
        },
        None => {
            let status = status_not_found();
            let body = not_found_body();
            frame_response(status.as_slice(), body.as_slice())
        },
    }
}

} // verus!
