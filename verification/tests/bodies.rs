use hreq::body::{body_text, Body, ContentType, OpenFile, ReadStep};
use hreq::charset::{find_charset_label, Charset, CharsetConfig};
use hreq::codec::{BandwidthMonitor, BodyCodec, BodyImpl, Cursor, Prebuffer, PREBUFFER_LIMIT};
use hreq::params::HReqParams;
use hreq::ticket::Ticket;
use http::header::HeaderMap;
use std::sync::Arc;

const LATIN: &str = "windows-1252";

fn params() -> HReqParams {
    let charset = CharsetConfig {
        enabled: true,
        other: None,
    };
    HReqParams {
        content_encode: true,
        content_decode: true,
        charset_tx: charset,
        charset_rx: charset,
        prebuffer: false,
    }
}

fn headers(pairs: &[(&'static str, &str)]) -> HeaderMap {
    let mut map = HeaderMap::new();
    for (name, value) in pairs {
        map.append(*name, value.parse().unwrap());
    }
    map
}

fn charset(label: &str) -> Charset {
    Charset::for_label(label.as_bytes()).unwrap()
}

/// The names of the charsets of the conversion, and of the one that text is encoded in.
fn conversion(body: &Body<u8>) -> Option<(&'static str, Option<&'static str>)> {
    body.char_codec()
        .map(|c| (c.source().name(), c.target().map(|t| t.name())))
}

#[test]
fn empty_body() {
    let mut body: Body<u8> = Body::empty();
    assert!(body.is_definitely_no_body());
    assert!(!body.is_definitely_a_body());
    assert_eq!(body.content_encoded_length(), Some(0));
    assert_eq!(body.content_type(), Some("text/plain; charset=utf-8"));
    assert!(body.is_configurable());
    body.set_codec_pass();
    assert_eq!(body.read_to_vec(false), Ok(vec![]));
}

#[test]
fn body_from_str() {
    let body: Body<u8> = Body::from_str("h\u{e5}j");
    assert_eq!(body.content_encoded_length(), Some(4));
    assert_eq!(body.content_type(), Some("text/plain; charset=utf-8"));
    assert!(body.is_definitely_a_body());
    assert!(!body.is_definitely_no_body());
}

#[test]
fn body_from_bytes_and_vec() {
    let body: Body<u8> = Body::from_bytes(&[0x42, 0x43]);
    assert_eq!(body.content_encoded_length(), Some(2));
    assert_eq!(body.content_type(), Some("application/octet-stream"));
    let mut body: Body<u8> = Body::from_vec(vec![0x42, 0x43, 0x44]);
    assert_eq!(body.content_encoded_length(), Some(3));
    assert_eq!(body.content_type(), Some("application/octet-stream"));
    body.set_codec_pass();
    assert_eq!(body.read_to_vec(false), Ok(vec![0x42, 0x43, 0x44]));
}

#[test]
fn body_from_json() {
    let json = serde_json::to_vec(&vec![1, 2]).unwrap();
    let mut body: Body<u8> = Body::from_json(json);
    assert_eq!(body.content_type(), Some("application/json; charset=utf-8"));
    assert_eq!(body.content_encoded_length(), Some(5));
    body.set_codec_pass();
    let text = body.read_to_string(false).unwrap();
    let read: Vec<u8> = serde_json::from_str(&text).unwrap();
    assert_eq!(read, vec![1, 2]);
}

#[test]
fn body_from_readers() {
    for mut body in vec![
        Body::from_async_read(7_u8, Some(10)),
        Body::from_sync_read(7_u8, Some(10)),
        Body::from_file(OpenFile {
            reader: 7_u8,
            length: Some(10),
        }),
        OpenFile {
            reader: 7_u8,
            length: Some(10),
        }
        .into(),
    ] {
        assert_eq!(body.content_type(), Some("application/octet-stream"));
        assert_eq!(body.content_encoded_length(), Some(10));
        assert_eq!(body.reader_mut(), Some(&mut 7));
        *body.reader_mut().unwrap() = 9;
        assert_eq!(body.reader_mut(), Some(&mut 9));
        assert_eq!(body.read_source(&mut [0; 4]), None);
    }
    let body = Body::from_async_read(7_u8, None);
    assert_eq!(body.content_encoded_length(), None);
    assert!(body.is_definitely_a_body());
    assert!(!body.is_definitely_no_body());
}

#[test]
fn body_from_response() {
    let body = Body::from_response(1_u8, false);
    assert_eq!(body.content_type(), None);
    assert_eq!(body.content_encoded_length(), None);
    match body.codec() {
        BodyCodec::Deferred(Some(reader)) => {
            assert!(matches!(reader.source, BodyImpl::Http1(1)));
            assert!(!reader.prebuffer);
        }
        _ => panic!("not deferred"),
    }
    let body = Body::from_response(2_u8, true);
    match body.codec() {
        BodyCodec::Deferred(Some(reader)) => assert!(matches!(reader.source, BodyImpl::Http2(2))),
        _ => panic!("not deferred"),
    }
}

#[test]
fn bodies_from_values() {
    let data = [0x42_u8, 0x43];
    let text = "abc".to_string();
    let bodies: Vec<(Body<u8>, &[u8], &str)> = vec![
        (().into(), b"", "text/plain; charset=utf-8"),
        ("abc".into(), b"abc", "text/plain; charset=utf-8"),
        ((&text).into(), b"abc", "text/plain; charset=utf-8"),
        (text.clone().into(), b"abc", "text/plain; charset=utf-8"),
        ((&data[..]).into(), &data, "application/octet-stream"),
        (data.to_vec().into(), &data, "application/octet-stream"),
        ((&data.to_vec()).into(), &data, "application/octet-stream"),
    ];
    for (mut body, content, content_type) in bodies {
        assert_eq!(body.content_type(), Some(content_type));
        assert_eq!(body.content_encoded_length(), Some(content.len() as u64));
        body.set_codec_pass();
        assert_eq!(body.read_to_vec(false).unwrap(), content);
    }
}

#[test]
fn bytes_are_read_back() {
    let mut body: Body<u8> = Body::from_vec((0..20_000_u32).map(|i| i as u8).collect());
    body.configure(&params(), &headers(&[]), false);
    assert_eq!(body.content_encoded_length(), Some(20_000));
    let read = body.read_to_vec(false).unwrap();
    assert_eq!(read.len(), 20_000);
    assert!(read.iter().enumerate().all(|(i, b)| *b == i as u8));
    assert_eq!(body.read_to_vec(false), Ok(vec![]));
}

#[test]
fn text_is_read_back() {
    let mut body: Body<u8> = Body::from_str("H\u{e5}llo w\u{f6}rld \u{1f600}");
    body.configure(
        &params(),
        &headers(&[("content-type", "text/html; charset=utf-8")]),
        false,
    );
    assert_eq!(conversion(&body), None);
    assert_eq!(
        body.read_to_string(false).unwrap(),
        "H\u{e5}llo w\u{f6}rld \u{1f600}"
    );
}

#[test]
fn reads_come_in_order() {
    let mut body: Body<u8> = Body::from_str("abcdefg");
    body.set_codec_pass();
    let mut buf = [b'.'; 3];
    assert_eq!(body.read(false, &mut buf), Ok(3));
    assert_eq!(&buf, b"abc");
    assert!(!body.is_configurable());
    assert_eq!(body.read(false, &mut buf[..1]), Ok(1));
    assert_eq!(&buf, b"dbc");
    assert_eq!(body.poll_read(false, &mut buf), ReadStep::Ready(3));
    assert_eq!(&buf, b"efg");
    let mut buf = [b'.'; 3];
    assert_eq!(body.read(false, &mut buf), Ok(0));
    assert_eq!(&buf, b"...");
}

#[test]
fn a_short_read_leaves_the_rest_of_the_buffer() {
    let mut body: Body<u8> = Body::from_str("ab");
    body.set_codec_pass();
    let mut buf = [b'.'; 4];
    assert_eq!(body.read(false, &mut buf), Ok(2));
    assert_eq!(&buf, b"ab..");
}

#[test]
fn the_end_of_a_body_finishes_it() {
    let token = Arc::new(Ticket::new(1));
    let mut body: Body<u8> = Body::from_str("ab");
    body.set_codec_pass();
    body.set_unfinished_recs(token.clone());
    assert_eq!(Arc::strong_count(&token), 2);
    let mut buf = [0; 8];
    assert_eq!(body.read(false, &mut buf), Ok(2));
    assert_eq!(Arc::strong_count(&token), 2);
    assert_eq!(body.read(false, &mut buf), Ok(0));
    assert_eq!(Arc::strong_count(&token), 1);
}

#[test]
fn a_reader_at_its_end_finishes_the_body() {
    let token = Arc::new(Ticket::new(1));
    let mut body = Body::from_response(1_u8, false);
    body.configure(&params(), &headers(&[]), true);
    body.set_unfinished_recs(token.clone());
    let mut buf = [0; 8];
    assert_eq!(
        body.poll_read(false, &mut buf),
        ReadStep::Source { char_codec: false }
    );
    body.finish_read(3);
    assert_eq!(Arc::strong_count(&token), 2);
    body.finish_read(0);
    assert_eq!(Arc::strong_count(&token), 1);
}

#[test]
fn reading_and_discarding() {
    let mut body: Body<u8> = Body::from_vec(vec![7; 40_000]);
    body.set_codec_pass();
    assert_eq!(body.read_and_discard(None, false), Ok(()));
    assert_eq!(body.read_to_vec(false), Ok(vec![]));
    let mut body = Body::from_response(1_u8, true);
    body.set_codec_pass();
    assert_eq!(
        body.read_and_discard(None, false),
        Err(ReadStep::Source { char_codec: false })
    );
}

#[test]
fn a_deadline_holds_for_configured_bodies() {
    let mut body: Body<u8> = Body::from_str("ab");
    body.set_codec_pass();
    assert!(!body.has_deadline());
    assert_eq!(body.read(true, &mut [0; 1]), Ok(1));

    let mut body: Body<u8> = Body::from_str("ab");
    body.configure(&params(), &headers(&[]), false);
    assert!(body.has_deadline());
    assert_eq!(body.read(true, &mut [0; 1]), Err(ReadStep::TimedOut));
    assert_eq!(body.read_to_vec(true), Err(ReadStep::TimedOut));
    assert_eq!(body.read_to_vec(false), Ok(b"ab".to_vec()));
}

#[test]
fn gzip_is_the_only_coding() {
    let gzip = headers(&[("content-encoding", "gzip")]);
    let mut sent: Body<u8> = Body::from_str("abc");
    sent.configure(&params(), &gzip, false);
    assert!(matches!(sent.codec(), BodyCodec::GzipEncoder(_)));
    assert_eq!(sent.content_encoded_length(), None);
    assert_eq!(
        sent.read_to_vec(false),
        Err(ReadStep::Source { char_codec: false })
    );
    let mut raw = [0; 8];
    assert_eq!(sent.read_source(&mut raw), Some(3));
    assert_eq!(&raw[..3], b"abc");
    assert_eq!(sent.read_source(&mut raw), Some(0));

    let mut received = Body::from_response(1_u8, false);
    received.configure(&params(), &gzip, true);
    assert!(matches!(received.codec(), BodyCodec::GzipDecoder(_)));

    for other in ["br", "GZIP", "gzip, br", ""] {
        let mut body: Body<u8> = Body::from_str("abc");
        body.configure(&params(), &headers(&[("content-encoding", other)]), false);
        assert!(matches!(body.codec(), BodyCodec::Pass(_)));
        assert_eq!(body.content_encoded_length(), Some(3));
    }
}

#[test]
fn coding_can_be_disabled() {
    let gzip = headers(&[("content-encoding", "gzip")]);
    let off = HReqParams {
        content_encode: false,
        ..params()
    };
    let mut sent: Body<u8> = Body::from_str("abc");
    sent.configure(&off, &gzip, false);
    assert!(matches!(sent.codec(), BodyCodec::Pass(_)));
    let mut received = Body::from_response(1_u8, false);
    received.configure(&off, &gzip, true);
    assert!(matches!(received.codec(), BodyCodec::GzipDecoder(_)));
    let off = HReqParams {
        content_decode: false,
        ..params()
    };
    let mut received = Body::from_response(1_u8, false);
    received.configure(&off, &gzip, true);
    assert!(matches!(received.codec(), BodyCodec::Pass(_)));
}

#[test]
fn the_monitor_is_passed_to_the_reader() {
    let bw = BandwidthMonitor { id: 12 };
    let mut body = Body::from_response(1_u8, true);
    body.set_bw_monitor(Some(bw));
    body.configure(&params(), &headers(&[]), true);
    match body.codec() {
        BodyCodec::Pass(reader) => assert_eq!(reader.bw, Some(bw)),
        _ => panic!("not passed"),
    }
}

#[test]
fn request_text_is_encoded_in_the_named_charset() {
    // both spellings that a content type is written in
    for content_type in ["text/html charset=iso8859-1", "text/html; charset=latin1; x=y"] {
        let mut body: Body<u8> = Body::from_str("h\u{e5}j");
        body.configure(&params(), &headers(&[("content-type", content_type)]), false);
        assert_eq!(conversion(&body), Some(("UTF-8", Some(LATIN))));
        assert_eq!(body.content_encoded_length(), None);
        assert_eq!(
            body.read_to_vec(false),
            Err(ReadStep::Source { char_codec: true })
        );
    }
}

#[test]
fn the_source_charset_of_a_request() {
    let latin = headers(&[("content-type", "text/plain; charset=iso-8859-2")]);
    let from_koi8 = HReqParams {
        charset_tx: CharsetConfig {
            enabled: true,
            other: Some(charset("koi8-r")),
        },
        ..params()
    };
    // bytes are in the charset that was configured
    let mut body: Body<u8> = Body::from_vec(vec![1]);
    body.configure(&from_koi8, &latin, false);
    assert_eq!(conversion(&body), Some(("KOI8-R", Some("ISO-8859-2"))));
    // a string is in UTF-8 whatever was configured
    let mut body: Body<u8> = Body::from_string("abc".to_string());
    body.configure(&from_koi8, &latin, false);
    assert_eq!(conversion(&body), Some(("UTF-8", Some("ISO-8859-2"))));
    // and UTF-8 is what is assumed
    let mut body: Body<u8> = Body::from_vec(vec![1]);
    body.configure(&params(), &latin, false);
    assert_eq!(conversion(&body), Some(("UTF-8", Some("ISO-8859-2"))));
}

#[test]
fn response_text_is_decoded_to_the_wanted_charset() {
    let latin = headers(&[("content-type", "text/html; charset=ISO-8859-1")]);
    let mut body = Body::from_response(1_u8, false);
    body.configure(&params(), &latin, true);
    assert_eq!(conversion(&body), Some((LATIN, Some("UTF-8"))));

    let to_utf16 = HReqParams {
        charset_rx: CharsetConfig {
            enabled: true,
            other: Some(charset("utf-16be")),
        },
        ..params()
    };
    let mut body = Body::from_response(1_u8, false);
    body.configure(&to_utf16, &latin, true);
    assert_eq!(conversion(&body), Some((LATIN, Some("UTF-16BE"))));
}

#[test]
fn only_enabled_text_is_converted() {
    for content_type in [
        "application/json; charset=latin1",
        "text/html",
        "text/html; charset=no-such-charset",
        "text/html; charset=utf-8",
    ] {
        let mut body = Body::from_response(1_u8, false);
        body.configure(&params(), &headers(&[("content-type", content_type)]), true);
        assert_eq!(conversion(&body), None);
    }
    let off = HReqParams {
        charset_rx: CharsetConfig {
            enabled: false,
            other: None,
        },
        ..params()
    };
    let mut body = Body::from_response(1_u8, false);
    body.configure(
        &off,
        &headers(&[("content-type", "text/html; charset=latin1")]),
        true,
    );
    assert_eq!(conversion(&body), None);
}

#[test]
fn reading_a_string_ignores_the_wanted_charset() {
    let latin = headers(&[("content-type", "text/html; charset=latin1")]);
    for other in [None, Some(charset("utf-16le")), Some(charset("latin1"))] {
        let wanted = HReqParams {
            charset_rx: CharsetConfig {
                enabled: true,
                other,
            },
            ..params()
        };
        let mut body = Body::from_response(1_u8, false);
        body.configure(&wanted, &latin, true);
        assert_eq!(
            body.read_to_string(false).unwrap_err(),
            ReadStep::Source { char_codec: true }
        );
        assert_eq!(conversion(&body), Some((LATIN, None)));
    }
}

#[test]
fn reading_utf_8_to_a_string_needs_no_conversion() {
    let mut body: Body<u8> = Body::from_str("abc");
    body.configure(
        &params(),
        &headers(&[("content-type", "text/html; charset=utf8")]),
        false,
    );
    body.remove_encoder();
    assert_eq!(conversion(&body), None);
    assert_eq!(body.read_to_string(false).unwrap(), "abc");
}

#[test]
fn text_of_bodies() {
    assert_eq!(body_text(b"h\xc3\xa5j".to_vec()), Some("h\u{e5}j".to_string()));
    assert_eq!(body_text(vec![0xe5]), None);
}

#[test]
fn configuring_twice_changes_nothing() {
    let all = headers(&[
        ("content-encoding", "gzip"),
        ("content-type", "text/html; charset=latin1"),
    ]);
    let mut body: Body<u8> = Body::from_str("abc");
    body.configure(&params(), &all, false);
    let once = body.debug_string();
    body.configure(&params(), &all, false);
    assert_eq!(body.debug_string(), once);
    // a coding that was settled stays
    body.configure(&params(), &headers(&[]), false);
    assert!(matches!(body.codec(), BodyCodec::GzipEncoder(_)));
}

#[test]
fn unconfigure_undoes_configure() {
    let all = headers(&[
        ("content-encoding", "gzip"),
        ("content-type", "text/html; charset=latin1"),
    ]);
    let mut body: Body<u8> = Body::from_str("abc");
    body.configure(&params(), &all, false);
    let mut body = body.unconfigure();
    assert!(body.is_configurable());
    assert!(!body.has_deadline());
    assert_eq!(body.content_type(), Some("text/plain; charset=utf-8"));
    assert!(matches!(body.codec(), BodyCodec::Deferred(Some(_))));
    assert_eq!(conversion(&body), None);
    assert_eq!(body.content_encoded_length(), Some(3));
    body.configure(&params(), &headers(&[]), false);
    assert!(matches!(body.codec(), BodyCodec::Pass(_)));
    assert!(body.has_deadline());
    assert_eq!(body.read_to_vec(false), Ok(b"abc".to_vec()));
}

#[test]
fn an_unconfigured_body_has_no_deadline() {
    let mut body: Body<u8> = Body::from_str("abc");
    body.configure(&params(), &headers(&[]), false);
    let mut body = body.unconfigure();
    body.set_codec_pass();
    assert_eq!(body.read_to_vec(true), Ok(b"abc".to_vec()));
}

#[test]
fn a_body_that_is_sent_is_read_as_it_is() {
    let from_latin = HReqParams {
        charset_tx: CharsetConfig {
            enabled: true,
            other: Some(charset("latin1")),
        },
        ..params()
    };
    let mut body: Body<u8> = Body::from_vec(vec![0xc3, 0xa9]);
    body.configure(
        &from_latin,
        &headers(&[("content-type", "text/plain; charset=latin1")]),
        false,
    );
    assert_eq!(conversion(&body), None);
    assert_eq!(body.read_to_string(false).unwrap(), "\u{e9}");
    assert_eq!(conversion(&body), None);
}

#[test]
fn prebuffered_content_has_a_length() {
    let mut body: Body<u8> = Body::from_str("abc");
    body.configure(&params(), &headers(&[]), false);
    assert_eq!(body.prebuffer_source(None, 16), Prebuffer::Complete(3));
    assert_eq!(body.attempt_prebuffer(Some(3), false), Ok(()));
    assert!(!body.is_configurable());
    assert_eq!(body.content_encoded_length(), Some(3));
    assert_eq!(body.read_to_vec(false), Ok(b"abc".to_vec()));

    // content that went through a codec
    let mut body: Body<u8> = Body::from_str("abc");
    body.configure(&params(), &headers(&[("content-encoding", "gzip")]), false);
    assert_eq!(
        body.attempt_prebuffer(Some(3), false),
        Err(ReadStep::Source { char_codec: false })
    );
    body.set_prebuffered(vec![9, 9, 9, 9, 9]);
    assert_eq!(body.content_encoded_length(), Some(5));
    assert_eq!(body.read_to_vec(false), Ok(vec![9; 5]));
    assert_eq!(body.content_encoded_length(), Some(5));
}

#[test]
fn nothing_to_prebuffer() {
    let mut body = Body::from_response(1_u8, false);
    body.configure(&params(), &headers(&[]), true);
    assert_eq!(body.prebuffer_source(None, 16), Prebuffer::GiveUp);
    assert_eq!(body.attempt_prebuffer(None, false), Ok(()));
    assert!(body.is_configurable());
    let mut body: Body<u8> = Body::from_str("abc");
    body.configure(&params(), &headers(&[]), false);
    assert_eq!(
        body.attempt_prebuffer(Some(3), true),
        Err(ReadStep::TimedOut)
    );
}

#[test]
fn a_small_reader_is_read_ahead() {
    for mut body in vec![
        Body::from_async_read(1_u8, None),
        Body::from_sync_read(1_u8, None),
        Body::from_async_read(1_u8, Some(99)),
    ] {
        body.configure(&params(), &headers(&[]), false);
        assert_eq!(body.prebuffer_source(None, 5), Prebuffer::ReadOn);
        for chunk in [b"ab".to_vec(), b"cde".to_vec()] {
            assert_eq!(body.prebuffer_source(Some(chunk), 5), Prebuffer::ReadOn);
        }
        assert_eq!(
            body.prebuffer_source(Some(vec![]), 5),
            Prebuffer::Complete(5)
        );
        assert!(body.is_configurable());
        assert_eq!(body.attempt_prebuffer(Some(5), false), Ok(()));
        assert_eq!(body.content_encoded_length(), Some(5));
        assert_eq!(body.read_to_vec(false), Ok(b"abcde".to_vec()));
        assert_eq!(body.read_to_vec(false), Ok(vec![]));
    }
}

#[test]
fn a_small_reader_is_read_ahead_for_its_codec() {
    let mut body = Body::from_async_read(1_u8, None);
    body.configure(&params(), &headers(&[("content-encoding", "gzip")]), false);
    assert_eq!(body.prebuffer_source(None, 5), Prebuffer::ReadOn);
    assert_eq!(
        body.prebuffer_source(Some(b"abc".to_vec()), 5),
        Prebuffer::ReadOn
    );
    assert_eq!(
        body.prebuffer_source(Some(vec![]), 5),
        Prebuffer::Complete(3)
    );
    // what was read ahead has yet to be compressed
    assert_eq!(
        body.attempt_prebuffer(Some(3), false),
        Err(ReadStep::Source { char_codec: false })
    );
    let mut raw = [0; 8];
    assert_eq!(body.read_source(&mut raw), Some(3));
    assert_eq!(&raw[..3], b"abc");
    assert_eq!(body.read_source(&mut raw), Some(0));
    body.set_prebuffered(vec![9; 20]);
    assert_eq!(body.content_encoded_length(), Some(20));
}

#[test]
fn a_large_reader_is_given_up_and_loses_nothing() {
    let mut body = Body::from_async_read(1_u8, None);
    body.configure(&params(), &headers(&[]), false);
    assert_eq!(body.prebuffer_source(None, 5), Prebuffer::ReadOn);
    assert_eq!(
        body.prebuffer_source(Some(b"abcde".to_vec()), 5),
        Prebuffer::ReadOn
    );
    assert_eq!(
        body.prebuffer_source(Some(b"fgh".to_vec()), 5),
        Prebuffer::GiveUp
    );
    assert_eq!(body.content_encoded_length(), None);
    assert!(body.is_configurable());
    let mut raw = [b'.'; 6];
    assert_eq!(
        body.read(false, &mut raw),
        Err(ReadStep::Source { char_codec: false })
    );
    // first what was read ahead, then the rest of the reader
    assert_eq!(body.read_source(&mut raw), Some(6));
    assert_eq!(&raw, b"abcdef");
    assert_eq!(body.read_source(&mut raw), Some(2));
    assert_eq!(&raw, b"ghcdef");
    assert_eq!(body.read_source(&mut raw), None);
    assert_eq!(body.reader_mut(), Some(&mut 1));
}

#[test]
fn large_content_in_memory_is_not_read_ahead() {
    for (size, step) in [
        (PREBUFFER_LIMIT, Prebuffer::Complete(PREBUFFER_LIMIT)),
        (PREBUFFER_LIMIT + 1, Prebuffer::GiveUp),
    ] {
        let mut body: Body<u8> = Body::from_vec(vec![7; size]);
        body.configure(&params(), &headers(&[]), false);
        assert_eq!(body.prebuffer_source(None, PREBUFFER_LIMIT), step);
        assert_eq!(body.content_encoded_length(), Some(size as u64));
        assert_eq!(body.read_to_vec(false).unwrap().len(), size);
    }
    let mut body: Body<u8> = Body::empty();
    body.configure(&params(), &headers(&[]), false);
    assert_eq!(body.prebuffer_source(None, 0), Prebuffer::Complete(0));
}

#[test]
fn descriptions_of_bodies() {
    let mut body: Body<u8> = Body::from_str("abc");
    assert_eq!(body.debug_string(), "Body { codec: deferred, len: 3 }");
    body.configure(
        &params(),
        &headers(&[
            ("content-encoding", "gzip"),
            ("content-type", "text/html; charset=latin1"),
        ]),
        false,
    );
    assert_eq!(
        body.debug_string(),
        "Body { codec: gzip_enc, char_codec: UTF-8 to windows-1252, len: unknown }"
    );
    body.set_prebuffered(vec![0; 1204]);
    assert_eq!(
        body.debug_string(),
        "Body { codec: gzip_enc, char_codec: UTF-8 to windows-1252, len: 1204, prebuffered }"
    );
}

#[test]
fn content_types() {
    assert_eq!(ContentType::Text.as_str(), "text/plain; charset=utf-8");
    assert_eq!(ContentType::Binary.as_str(), "application/octet-stream");
    assert_eq!(ContentType::Json.as_str(), "application/json; charset=utf-8");
}

#[test]
fn cursors() {
    let mut cursor = Cursor::new(vec![1, 2, 3]);
    assert_eq!(cursor.left(), 3);
    let mut buf = [0; 2];
    assert_eq!(cursor.read(&mut buf), 2);
    assert_eq!(buf, [1, 2]);
    assert_eq!(cursor.left(), 1);
    assert_eq!(cursor.read(&mut buf), 1);
    assert_eq!(buf, [3, 2]);
    assert_eq!(cursor.read(&mut buf), 0);
    cursor.append(&[4, 5]);
    assert_eq!(cursor.left(), 2);
    assert_eq!(cursor.read(&mut buf), 2);
    assert_eq!(buf, [4, 5]);
}

#[test]
fn charsets() {
    assert_eq!(Charset::utf_8().name(), encoding_rs::UTF_8.name());
    assert_eq!(charset("latin1").name(), LATIN);
    assert_eq!(charset(" UTF8 ").name(), "UTF-8");
    assert!(charset("iso8859-1").same(&charset("latin1")));
    assert!(!charset("iso8859-1").same(&Charset::utf_8()));
    assert!(Charset::for_label(b"unrecognized label").is_none());
    assert_eq!(
        find_charset_label(b"text/html; charset=utf-8; x=charset=y"),
        Some(b"utf-8".to_vec())
    );
    assert_eq!(find_charset_label(b"text/html; charset="), Some(vec![]));
    assert_eq!(find_charset_label(b"text/html"), None);
}
