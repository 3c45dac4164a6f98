use serve_rs::config::parse_options;
use serve_rs::handler::{plan_request, respond, Plan};
use serve_rs::request::{has_full_line, parse_request};
use serve_rs::resolve::{contains_traversal, resolve, strip_slash};
use serve_rs::response::{build_response, decimal_digits};

const NOT_FOUND_PAYLOAD: &[u8] = b"<h1>Oops!</h1>";

fn not_found_response() -> Vec<u8> {
    let mut want = b"HTTP/1.1 404 NOT FOUND\r\nContent-Length: 14\r\n\r\n".to_vec();
    want.extend_from_slice(NOT_FOUND_PAYLOAD);
    want
}

#[test]
fn existing_file_served_with_exact_length() {
    // Root holds index.html with the 11 bytes <h1>Hi</h1>.
    let req = b"GET /index.html HTTP/1.1\r\nHost: x\r\n\r\n";
    let root = b"root";
    let plan = plan_request(req, root);
    match plan {
        Plan::Fetch(p) => assert_eq!(p, b"root/index.html".to_vec()),
        Plan::Refuse => panic!("a well-formed GET must name a path"),
    }
    let body = b"<h1>Hi</h1>".to_vec();
    let resp = respond(req, root, Some(body));
    assert_eq!(
        resp,
        b"HTTP/1.1 200 OK\r\nContent-Length: 11\r\n\r\n<h1>Hi</h1>".to_vec()
    );
}

#[test]
fn missing_file_yields_not_found_payload() {
    let req = b"GET /missing.html HTTP/1.1\r\n\r\n";
    let root = b"root";
    match plan_request(req, root) {
        Plan::Fetch(p) => assert_eq!(p, b"root/missing.html".to_vec()),
        Plan::Refuse => panic!("the plan must try the fetch"),
    }
    // The fetch fails: no such file under root.
    let resp = respond(req, root, None);
    assert_eq!(resp, not_found_response());
}

#[test]
fn other_method_refused_even_for_existing_file() {
    let req = b"POST /index.html HTTP/1.1\r\n\r\n";
    let root = b"root";
    match plan_request(req, root) {
        Plan::Refuse => {}
        Plan::Fetch(_) => panic!("only the recognized method may reach the filesystem"),
    }
    let resp = respond(req, root, None);
    assert_eq!(resp, not_found_response());
}

#[test]
fn method_match_is_case_sensitive() {
    match plan_request(b"get /index.html HTTP/1.1\r\n", b"root") {
        Plan::Refuse => {}
        Plan::Fetch(_) => panic!("the method match is case-sensitive"),
    }
}

#[test]
fn traversal_refused() {
    let req = b"GET /../secret.txt HTTP/1.1\r\n\r\n";
    let root = b"root";
    match plan_request(req, root) {
        Plan::Refuse => {}
        Plan::Fetch(_) => panic!("a traversal token must never resolve to a path"),
    }
    let resp = respond(req, root, None);
    assert_eq!(resp, not_found_response());
}

#[test]
fn traversal_refused_in_the_middle() {
    match plan_request(b"GET /x/../y HTTP/1.1\r\n", b"root") {
        Plan::Refuse => {}
        Plan::Fetch(_) => panic!("an inner parent segment is still a traversal"),
    }
    match plan_request(b"GET /.. HTTP/1.1\r\n", b"root") {
        Plan::Refuse => {}
        Plan::Fetch(_) => panic!("a bare parent segment is a traversal"),
    }
}

#[test]
fn dotted_names_are_not_traversal() {
    // A segment merely containing dots is an ordinary file name.
    match plan_request(b"GET /a../b.. HTTP/1.1\r\n", b"root") {
        Plan::Fetch(p) => assert_eq!(p, b"root/a../b..".to_vec()),
        Plan::Refuse => panic!("dotted names are not parent segments"),
    }
    match plan_request(b"GET /...x HTTP/1.1\r\n", b"root") {
        Plan::Fetch(p) => assert_eq!(p, b"root/...x".to_vec()),
        Plan::Refuse => panic!("dotted names are not parent segments"),
    }
}

#[test]
fn malformed_line_refused() {
    match plan_request(b"GETONLY\r\n\r\n", b"root") {
        Plan::Refuse => {}
        Plan::Fetch(_) => panic!("a one-token line is malformed"),
    }
    match plan_request(b"", b"root") {
        Plan::Refuse => {}
        Plan::Fetch(_) => panic!("an empty request is malformed"),
    }
}

#[test]
fn only_first_line_is_consulted() {
    let req = b"GET /a HTTP/1.1\r\nX-Junk: POST /b\r\n\r\n";
    match plan_request(req, b"root") {
        Plan::Fetch(p) => assert_eq!(p, b"root/a".to_vec()),
        Plan::Refuse => panic!("headers after the first line are ignored"),
    }
}

#[test]
fn token_without_version_accepted() {
    // The resource token may be the last thing on the line.
    match plan_request(b"GET /plain\r\n", b"root") {
        Plan::Fetch(p) => assert_eq!(p, b"root/plain".to_vec()),
        Plan::Refuse => panic!("a two-token line is well formed"),
    }
}

#[test]
fn full_line_detection() {
    assert!(!has_full_line(b""));
    assert!(!has_full_line(b"GET /index.ht"));
    assert!(has_full_line(b"GET / HTTP/1.1\r\n"));
    assert!(has_full_line(b"GET / HTTP/1.1\n tail"));
}

#[test]
fn parse_request_tokens() {
    let q = parse_request(b"GET /x/y.html HTTP/1.1\r\nMore\r\n").expect("well formed");
    assert_eq!(q.method, b"GET".to_vec());
    assert_eq!(q.uri, b"/x/y.html".to_vec());
    let q = parse_request(b"PUT thing\n").expect("two tokens");
    assert_eq!(q.method, b"PUT".to_vec());
    assert_eq!(q.uri, b"thing".to_vec());
    assert!(parse_request(b"nospace\r\n").is_none());
}

#[test]
fn strip_and_resolve() {
    assert_eq!(strip_slash(b"/abc"), b"abc".to_vec());
    assert_eq!(strip_slash(b"abc"), b"abc".to_vec());
    assert_eq!(strip_slash(b""), b"".to_vec());
    assert!(contains_traversal(b".."));
    assert!(contains_traversal(b"a/../b"));
    assert!(contains_traversal(b"a/.."));
    assert!(!contains_traversal(b"a..b"));
    assert!(!contains_traversal(b"..."));
    assert!(!contains_traversal(b""));
    assert_eq!(resolve(b"root", b"/f.txt"), Some(b"root/f.txt".to_vec()));
    assert_eq!(resolve(b"root", b"/../f.txt"), None);
}

#[test]
fn empty_body_has_zero_length() {
    let resp = build_response(Some(Vec::new()));
    assert_eq!(resp, b"HTTP/1.1 200 OK\r\nContent-Length: 0\r\n\r\n".to_vec());
}

#[test]
fn binary_body_passes_through_unchanged() {
    let body = vec![0u8, 255, 13, 10, 128, 0];
    let resp = build_response(Some(body.clone()));
    let mut want = b"HTTP/1.1 200 OK\r\nContent-Length: 6\r\n\r\n".to_vec();
    want.extend_from_slice(&body);
    assert_eq!(resp, want);
}

#[test]
fn decimal_rendering_exact() {
    assert_eq!(decimal_digits(0), b"0".to_vec());
    assert_eq!(decimal_digits(7), b"7".to_vec());
    assert_eq!(decimal_digits(10), b"10".to_vec());
    assert_eq!(decimal_digits(123), b"123".to_vec());
    assert_eq!(decimal_digits(100200), b"100200".to_vec());
}

#[test]
fn parse_options_takes_first_argument() {
    let args = vec!["serve".to_string(), "/srv/files".to_string()];
    let opts = parse_options(&args);
    assert_eq!(opts.path, "/srv/files");
    assert_eq!(opts.root_bytes(), b"/srv/files".to_vec());
}
