use hreq::body::{Body, ReadStep};
use hreq::charset::CharsetConfig;
use hreq::codec::{BandwidthMonitor, BodyCodec};
use hreq::conn::{receive_response, unfinished_of, Connection, HostPort, Protocol};
use hreq::params::HReqParams;
use hreq::request::RequestParts;
use hreq::text::{bytes_equal, decimal_text, find, occurs, text_equal};
use hreq::ticket::{IdSource, Ticket};
use http::header::HeaderMap;

fn params(prebuffer: bool) -> HReqParams {
    let charset = CharsetConfig {
        enabled: true,
        other: None,
    };
    HReqParams {
        content_encode: true,
        content_decode: true,
        charset_tx: charset,
        charset_rx: charset,
        prebuffer,
    }
}

fn host_port() -> HostPort {
    HostPort {
        host: "host".to_string(),
        port: 443,
    }
}

#[test]
fn kinds_of_connections() {
    let mut ids = IdSource::new();
    let h1 = Connection::new_h1(&mut ids, host_port());
    assert_eq!(h1.id(), 0);
    assert!(!h1.is_http2());
    assert_eq!(h1.host_port().host, "host");
    assert_eq!(h1.host_port().port, 443);
    assert_eq!(h1.protocol().as_str(), "Http1");
    let h2 = Connection::new_h2(&mut ids, host_port(), BandwidthMonitor { id: 9 });
    assert_eq!(h2.id(), 1);
    assert!(h2.is_http2());
    assert_eq!(h2.protocol(), Protocol::H2);
    assert_eq!(h2.protocol().as_str(), "Http2");
}

#[test]
fn connections_are_equal_by_id() {
    let mut ids = IdSource::new();
    let a = Connection::new_h1(&mut ids, host_port());
    let b = Connection::new_h1(&mut ids, host_port());
    assert!(a == a);
    assert!(a != b);
    let mut others = IdSource::new();
    let c = Connection::new_h2(&mut others, host_port(), BandwidthMonitor { id: 9 });
    assert!(a == c);
}

#[test]
fn every_connection_has_an_id_of_its_own() {
    let mut ids = IdSource::new();
    let connections: Vec<Connection> = (0..100)
        .map(|i| match i % 2 {
            0 => Connection::new_h1(&mut ids, host_port()),
            _ => Connection::new_h2(&mut ids, host_port(), BandwidthMonitor { id: 9 }),
        })
        .collect();
    for (i, a) in connections.iter().enumerate() {
        assert_eq!(a.id(), i);
        for (j, b) in connections.iter().enumerate() {
            assert_eq!(a == b, i == j);
        }
    }
    assert_eq!(ids.next_id(), 100);
    assert_eq!(Ticket::new(7).connection_id(), 7);
}

#[test]
fn requests_are_unfinished_until_the_response_was_read() {
    let conn = Connection::new_h1(&mut IdSource::new(), host_port());
    assert_eq!(conn.unfinished_requests(), 0);
    let mut body: Body<u8> = Body::from_str("abc");
    let first = conn.start_request(&params(false), &HeaderMap::new(), &mut body);
    assert_eq!(conn.unfinished_requests(), 1);
    let mut body: Body<u8> = Body::from_str("abc");
    let second = conn.start_request(&params(false), &HeaderMap::new(), &mut body);
    assert_eq!(conn.unfinished_requests(), 2);

    let mut response = Body::from_response(1_u8, false);
    receive_response(
        &mut response,
        first.unfin,
        None,
        &params(false),
        &HeaderMap::new(),
    );
    assert_eq!(conn.unfinished_requests(), 2);
    response.finish_read(10);
    assert_eq!(conn.unfinished_requests(), 2);
    response.finish_read(0);
    assert_eq!(conn.unfinished_requests(), 1);
    // a request that failed
    drop(second);
    assert_eq!(conn.unfinished_requests(), 0);
    assert_eq!(unfinished_of(1), 0);
    assert_eq!(unfinished_of(4), 3);
}

#[test]
fn a_request_counts_for_its_own_connection() {
    let mut ids = IdSource::new();
    let conn = Connection::new_h1(&mut ids, host_port());
    let other = Connection::new_h1(&mut ids, host_port());
    let mut body: Body<u8> = Body::from_str("abc");
    let started = other.start_request(&params(false), &HeaderMap::new(), &mut body);
    assert_eq!(started.unfin.connection_id(), other.id());
    assert_eq!(conn.unfinished_requests(), 0);
    assert_eq!(other.unfinished_requests(), 1);

    let mut response = Body::from_response(1_u8, false);
    receive_response(
        &mut response,
        started.unfin,
        None,
        &params(false),
        &HeaderMap::new(),
    );
    assert_eq!(other.unfinished_requests(), 1);
    // a read that has to wait, one that times out, and one that comes to some bytes
    let mut buf = [0; 4];
    assert_eq!(
        response.poll_read(false, &mut buf),
        ReadStep::Source { char_codec: false }
    );
    assert_eq!(response.poll_read(true, &mut buf), ReadStep::TimedOut);
    response.finish_read(4);
    assert_eq!(other.unfinished_requests(), 1);
    // the end is reached once
    response.finish_read(0);
    assert_eq!(other.unfinished_requests(), 0);
    response.finish_read(0);
    assert_eq!(other.unfinished_requests(), 0);
}

#[test]
fn a_dropped_response_is_not_counted() {
    let conn = Connection::new_h1(&mut IdSource::new(), host_port());
    let mut body: Body<u8> = Body::from_str("abc");
    let started = conn.start_request(&params(false), &HeaderMap::new(), &mut body);
    let mut response = Body::from_response(1_u8, false);
    receive_response(
        &mut response,
        started.unfin,
        None,
        &params(false),
        &HeaderMap::new(),
    );
    assert_eq!(conn.unfinished_requests(), 1);
    drop(response);
    assert_eq!(conn.unfinished_requests(), 0);
}

#[test]
fn a_discarded_body_is_not_counted() {
    let conn = Connection::new_h1(&mut IdSource::new(), host_port());
    let mut body: Body<u8> = Body::from_vec(vec![7; 40_000]);
    let started = conn.start_request(&params(false), &HeaderMap::new(), &mut body);
    body.set_unfinished_recs(started.unfin);
    assert_eq!(conn.unfinished_requests(), 1);
    assert_eq!(body.read_and_discard(None, true), Err(ReadStep::TimedOut));
    assert_eq!(conn.unfinished_requests(), 1);
    assert_eq!(body.read_and_discard(None, false), Ok(()));
    assert_eq!(conn.unfinished_requests(), 0);
    assert_eq!(body.read_to_vec(false), Ok(vec![]));
    assert_eq!(conn.unfinished_requests(), 0);
}

#[test]
fn a_discarded_response_is_not_counted() {
    let conn = Connection::new_h1(&mut IdSource::new(), host_port());
    let mut body: Body<u8> = Body::from_str("abc");
    let started = conn.start_request(&params(false), &HeaderMap::new(), &mut body);
    let mut response = Body::from_response(1_u8, false);
    receive_response(
        &mut response,
        started.unfin,
        None,
        &params(false),
        &HeaderMap::new(),
    );
    let poll = Err(ReadStep::Source { char_codec: false });
    assert_eq!(response.read_and_discard(None, false), poll);
    for amount in [1, 16_384, 7] {
        assert_eq!(response.read_and_discard(Some(amount), false), poll);
        assert_eq!(conn.unfinished_requests(), 1);
    }
    assert_eq!(
        response.read_and_discard(Some(3), true),
        Err(ReadStep::TimedOut)
    );
    assert_eq!(conn.unfinished_requests(), 1);
    assert_eq!(response.read_and_discard(Some(0), true), Ok(()));
    assert_eq!(conn.unfinished_requests(), 0);
}

#[test]
fn a_request_is_configured_once() {
    let conn = Connection::new_h1(&mut IdSource::new(), host_port());
    let mut gzip = HeaderMap::new();
    gzip.insert("content-encoding", "gzip".parse().unwrap());
    let mut body: Body<u8> = Body::from_str("abc");
    let started = conn.start_request(&params(true), &gzip, &mut body);
    assert!(started.prebuffer);
    assert!(matches!(body.codec(), BodyCodec::GzipEncoder(_)));
    assert_eq!(
        body.read(false, &mut [0; 4]),
        Err(ReadStep::Source { char_codec: false })
    );
    // the body of a redirected request was read before
    let again = conn.start_request(&params(true), &HeaderMap::new(), &mut body);
    assert!(!again.prebuffer);
    assert!(matches!(body.codec(), BodyCodec::GzipEncoder(_)));
    // read ahead only on demand
    let mut body: Body<u8> = Body::from_str("abc");
    assert!(
        !conn
            .start_request(&params(false), &HeaderMap::new(), &mut body)
            .prebuffer
    );
}

#[test]
fn headers_of_a_request_by_protocol() {
    let bw = BandwidthMonitor { id: 9 };
    let body = Body::from_async_read(1_u8, None);
    let mut parts = RequestParts {
        indicates_body: true,
        headers: HeaderMap::new(),
    };
    let mut ids = IdSource::new();
    let h2 = Connection::new_h2(&mut ids, host_port(), bw);
    assert_eq!(h2.send_request(&mut parts, &body, "rust/hreq"), Ok(Some(bw)));
    assert!(!parts.headers.contains_key("transfer-encoding"));
    let h1 = Connection::new_h1(&mut ids, host_port());
    assert_eq!(h1.send_request(&mut parts, &body, "rust/hreq"), Ok(None));
    assert_eq!(parts.headers["transfer-encoding"], "chunked");
    assert_eq!(parts.headers["user-agent"], "rust/hreq");
}

#[test]
fn a_response_is_configured() {
    let bw = BandwidthMonitor { id: 9 };
    let conn = Connection::new_h2(&mut IdSource::new(), host_port(), bw);
    let mut body: Body<u8> = Body::empty();
    let started = conn.start_request(&params(false), &HeaderMap::new(), &mut body);
    let mut headers = HeaderMap::new();
    headers.insert("content-encoding", "gzip".parse().unwrap());
    headers.insert("content-type", "text/plain; charset=latin1".parse().unwrap());
    let mut response = Body::from_response(1_u8, true);
    receive_response(&mut response, started.unfin, Some(bw), &params(false), &headers);
    match response.codec() {
        BodyCodec::GzipDecoder(reader) => assert_eq!(reader.bw, Some(bw)),
        _ => panic!("not decompressed"),
    }
    assert_eq!(response.char_codec().unwrap().source().name(), "windows-1252");
    assert!(response.has_deadline());
    assert_eq!(conn.unfinished_requests(), 1);
}

#[test]
fn numbers_in_decimal() {
    assert_eq!(decimal_text(0), "0");
    assert_eq!(decimal_text(7), "7");
    assert_eq!(decimal_text(10), "10");
    assert_eq!(decimal_text(1_234_567_890), "1234567890");
    assert_eq!(decimal_text(u64::MAX), "18446744073709551615");
}

#[test]
fn text_and_bytes() {
    assert!(bytes_equal(b"ab", b"ab"));
    assert!(!bytes_equal(b"ab", b"ac"));
    assert!(!bytes_equal(b"ab", b"abc"));
    assert!(text_equal("h\u{e5}j", "h\u{e5}j"));
    assert!(!text_equal("haj", "h\u{e5}j"));
    assert_eq!(find(b"abcbc", b"bc"), Some(1));
    assert_eq!(find(b"abc", b"abc"), Some(0));
    assert_eq!(find(b"abc", b""), Some(0));
    assert_eq!(find(b"abc", b"cd"), None);
    assert_eq!(find(b"a", b"ab"), None);
    assert!(occurs(b"abc", b"bc", 1));
    assert!(!occurs(b"abc", b"bc", 2));
}
