use hreq::body::Body;
use hreq::charset::CharsetConfig;
use hreq::headers::MAX_HEADER_NAMES;
use hreq::params::HReqParams;
use hreq::request::{
    can_configure, check_header_value, configure_request, indicates_body, RequestParts,
    TooManyHeaders,
};
use http::header::{HeaderMap, HeaderName, HeaderValue};

const AGENT: &str = "rust/hreq";

fn parts(indicates_body: bool, pairs: &[(&'static str, &str)]) -> RequestParts {
    let mut headers = HeaderMap::new();
    for (name, value) in pairs {
        headers.append(*name, value.parse().unwrap());
    }
    RequestParts {
        indicates_body,
        headers,
    }
}

fn value<'a>(parts: &'a RequestParts, name: &str) -> Option<&'a str> {
    parts.headers.get(name).map(|v| v.to_str().unwrap())
}

fn gzipped(content: &str) -> Body<u8> {
    let charset = CharsetConfig {
        enabled: true,
        other: None,
    };
    let params = HReqParams {
        content_encode: true,
        content_decode: true,
        charset_tx: charset,
        charset_rx: charset,
        prebuffer: false,
    };
    let mut headers = HeaderMap::new();
    headers.insert("content-encoding", "gzip".parse().unwrap());
    let mut body = Body::from_str(content);
    body.configure(&params, &headers, false);
    body
}

#[test]
fn a_sized_body_has_a_content_length() {
    let mut p = parts(true, &[]);
    let body: Body<u8> = Body::from_vec(vec![0; 1204]);
    assert_eq!(configure_request(&mut p, &body, false, AGENT), Ok(()));
    assert_eq!(value(&p, "content-length"), Some("1204"));
    assert_eq!(value(&p, "transfer-encoding"), None);
    assert_eq!(value(&p, "user-agent"), Some("rust/hreq"));
    assert_eq!(value(&p, "accept"), Some("*/*"));
    assert_eq!(value(&p, "content-type"), Some("application/octet-stream"));
    assert_eq!(p.headers.len(), 4);
    assert!(p.indicates_body);
}

#[test]
fn an_empty_body_has_a_content_length_where_one_is_expected() {
    let body: Body<u8> = Body::empty();
    let mut post = parts(true, &[]);
    assert_eq!(configure_request(&mut post, &body, false, AGENT), Ok(()));
    assert_eq!(value(&post, "content-length"), Some("0"));
    let mut get = parts(false, &[]);
    assert_eq!(configure_request(&mut get, &body, false, AGENT), Ok(()));
    assert_eq!(value(&get, "content-length"), None);
    assert_eq!(value(&get, "transfer-encoding"), None);
    assert_eq!(value(&get, "content-type"), Some("text/plain; charset=utf-8"));
}

#[test]
fn an_unsized_body_is_chunked() {
    let body = Body::from_async_read(1_u8, None);
    let mut h1 = parts(true, &[]);
    assert_eq!(configure_request(&mut h1, &body, false, AGENT), Ok(()));
    assert_eq!(value(&h1, "transfer-encoding"), Some("chunked"));
    assert_eq!(value(&h1, "content-length"), None);
    let mut h2 = parts(true, &[]);
    assert_eq!(configure_request(&mut h2, &body, true, AGENT), Ok(()));
    assert_eq!(value(&h2, "transfer-encoding"), None);
    assert_eq!(value(&h2, "content-length"), None);
}

#[test]
fn a_compressed_body_is_chunked() {
    let mut p = parts(true, &[("content-encoding", "gzip")]);
    assert_eq!(configure_request(&mut p, &gzipped("abc"), false, AGENT), Ok(()));
    assert_eq!(value(&p, "transfer-encoding"), Some("chunked"));
    assert_eq!(value(&p, "content-length"), None);
    // unless there is nothing to compress
    let mut p = parts(false, &[("content-encoding", "gzip")]);
    assert_eq!(configure_request(&mut p, &gzipped(""), false, AGENT), Ok(()));
    assert_eq!(value(&p, "transfer-encoding"), None);
    assert_eq!(value(&p, "content-length"), None);
}

#[test]
fn no_content_length_where_chunked_encoding_is_used() {
    let body: Body<u8> = Body::from_str("abc");
    let mut p = parts(true, &[("transfer-encoding", "chunked")]);
    assert_eq!(configure_request(&mut p, &body, false, AGENT), Ok(()));
    assert_eq!(value(&p, "content-length"), None);
    // all but identity is sent in chunks
    for coding in ["gzip, chunked", "Chunked", "gzip", ""] {
        let mut p = parts(true, &[("transfer-encoding", coding)]);
        assert_eq!(configure_request(&mut p, &body, false, AGENT), Ok(()));
        assert_eq!(value(&p, "content-length"), None);
    }
    // HTTP/2 has no chunked encoding
    let mut p = parts(true, &[("transfer-encoding", "chunked")]);
    assert_eq!(configure_request(&mut p, &body, true, AGENT), Ok(()));
    assert_eq!(value(&p, "content-length"), Some("3"));
    for coding in ["identity", "x, identity; y"] {
        let mut p = parts(true, &[("transfer-encoding", coding)]);
        assert_eq!(configure_request(&mut p, &body, false, AGENT), Ok(()));
        assert_eq!(value(&p, "content-length"), Some("3"));
    }
}

#[test]
fn user_headers_are_kept() {
    let mut p = parts(
        true,
        &[
            ("content-length", "77"),
            ("user-agent", "me"),
            ("accept", "text/html"),
            ("accept", "text/plain"),
            ("content-type", "image/png"),
            ("x-other", "y"),
        ],
    );
    let before = p.headers.clone();
    let body: Body<u8> = Body::from_str("abc");
    assert_eq!(configure_request(&mut p, &body, false, AGENT), Ok(()));
    assert_eq!(p.headers, before);
    let mut p = parts(true, &[("transfer-encoding", "identity")]);
    assert_eq!(configure_request(&mut p, &Body::from_async_read(1_u8, None), false, AGENT), Ok(()));
    assert_eq!(value(&p, "transfer-encoding"), Some("identity"));
}

#[test]
fn configuring_a_request_twice_changes_nothing() {
    let body: Body<u8> = Body::from_str("abc");
    let mut p = parts(true, &[("x-other", "y")]);
    assert_eq!(configure_request(&mut p, &body, false, AGENT), Ok(()));
    let once = p.headers.clone();
    assert_eq!(configure_request(&mut p, &body, false, AGENT), Ok(()));
    assert_eq!(p.headers, once);
}

#[test]
fn a_response_body_has_no_content_type_to_give() {
    let mut p = parts(true, &[]);
    assert_eq!(configure_request(&mut p, &Body::from_response(1_u8, false), false, AGENT), Ok(()));
    assert_eq!(value(&p, "content-type"), None);
}

fn many(count: usize) -> RequestParts {
    let mut p = parts(true, &[]);
    for i in 0..count {
        let name = HeaderName::from_bytes(format!("x-{}", i).as_bytes()).unwrap();
        p.headers.insert(name, HeaderValue::from_static("v"));
    }
    p
}

#[test]
fn what_can_be_configured_for_sure() {
    let body: Body<u8> = Body::from_str("abc");
    let p = parts(true, &[]);
    assert!(can_configure(&p, &body, false, AGENT));
    assert!(!can_configure(&p, &body, false, "rust\nhreq"));
    assert!(check_header_value(AGENT.as_bytes()));
    assert!(!check_header_value(b"rust\nhreq"));

    let mut p = many(MAX_HEADER_NAMES - 4);
    assert!(can_configure(&p, &body, false, AGENT));
    assert_eq!(configure_request(&mut p, &body, false, AGENT), Ok(()));
    assert_eq!(p.headers.keys_len(), MAX_HEADER_NAMES);
    // nothing is left to add
    p.headers.insert("x-one-more", HeaderValue::from_static("v"));
    assert!(can_configure(&p, &body, false, AGENT));
    assert_eq!(configure_request(&mut p, &body, false, AGENT), Ok(()));
    assert_eq!(p.headers.keys_len(), MAX_HEADER_NAMES + 1);

    // one name that is there already leaves room for another
    let mut p = many(MAX_HEADER_NAMES - 4);
    p.headers.insert("accept", HeaderValue::from_static("v"));
    assert!(can_configure(&p, &body, false, AGENT));
    p.headers.insert("x-one-more", HeaderValue::from_static("v"));
    assert!(!can_configure(&p, &body, false, AGENT));
    // a body of unknown length over HTTP/2 has no framing header to add
    let unsized_body = Body::from_async_read(1_u8, None);
    assert!(can_configure(&p, &unsized_body, true, AGENT));
    assert!(!can_configure(&p, &unsized_body, false, AGENT));
}

#[test]
fn many_headers_are_configured_too() {
    let body: Body<u8> = Body::from_str("abc");
    let mut p = many(MAX_HEADER_NAMES + 1000);
    assert!(!can_configure(&p, &body, false, AGENT));
    assert_eq!(configure_request(&mut p, &body, false, AGENT), Ok(()));
    assert_eq!(value(&p, "content-length"), Some("3"));
    assert_eq!(p.headers.keys_len(), MAX_HEADER_NAMES + 1004);
}

#[test]
fn too_many_headers() {
    let body: Body<u8> = Body::from_str("abc");
    // a map that holds as many names as it can
    let mut p = many(24_576);
    assert_eq!(
        configure_request(&mut p, &body, false, AGENT),
        Err(TooManyHeaders)
    );
    assert_eq!(p.headers.keys_len(), 24_576);
    // there is room for the first of the headers that are added
    let mut p = many(24_575);
    assert_eq!(
        configure_request(&mut p, &body, false, AGENT),
        Err(TooManyHeaders)
    );
    assert_eq!(value(&p, "content-length"), Some("3"));
    assert_eq!(value(&p, "user-agent"), None);
    assert_eq!(p.headers.keys_len(), 24_576);
}

#[test]
fn methods_with_a_body() {
    for method in ["POST", "PUT", "PATCH"] {
        assert!(indicates_body(method));
    }
    for method in ["GET", "HEAD", "DELETE", "OPTIONS", "post", ""] {
        assert!(!indicates_body(method));
    }
}

#[test]
fn header_values_that_are_not_text() {
    let body: Body<u8> = Body::from_str("abc");
    let mut p = parts(true, &[]);
    p.headers.insert(
        "transfer-encoding",
        HeaderValue::from_bytes(b"chunked\xff").unwrap(),
    );
    assert_eq!(configure_request(&mut p, &body, false, AGENT), Ok(()));
    assert_eq!(value(&p, "content-length"), Some("3"));
}
