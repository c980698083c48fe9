//! What calls on bodies come to.

use crate::body::body_text;
use crate::body::Body;
use crate::body::BodyView;
use crate::body::ContentType;
use crate::body::OpenFile;
use crate::body::ReadStep;
use crate::charset::charset_of_headers;
use crate::charset::CharCodec;
use crate::charset::CharCodecView;
use crate::charset::Charset;
use crate::codec::BandwidthMonitor;
use crate::codec::BodyCodec;
use crate::codec::BodyImpl;
use crate::codec::CodecView;
use crate::codec::Prebuffer;
use crate::codec::ReaderView;
use crate::codec::SourceView;
use crate::headers::header_contents;
use crate::params::HReqParams;
use crate::text::decimal_text;
use crate::ticket::Ticket;
use http::header::HeaderMap;
use http::header::HeaderValue;
use std::sync::Arc;
use vstd::prelude::*;
use vstd::string::*;
use vstd::utf8::*;

verus! {

/// A body that was just made has the source and the length that it was made with, and nothing was
/// settled, read or counted of it.
pub proof fn law_a_new_body_has_its_source<R>(
    source: BodyImpl<R>,
    length: Option<u64>,
    prebuffer: bool,
    r: Body<R>,
)
    requires
        call_ensures(Body::<R>::new, (source, length, prebuffer), r),
    ensures
        r@ == (BodyView {
            codec: CodecView::Deferred(
                Some(
                    ReaderView {
                        source: source@,
                        prebuffer,
                        bw: None,
                        ahead: Seq::empty(),
                        at_end: false,
                    },
                ),
            ),
            length,
            content_typ: None,
            override_source_enc: None,
            has_read: false,
            char_codec: None,
            passed_charset: None,
            deadline: false,
            unfinished: None,
            prebuffered: None,
            bw: None,
        }),
{
}

/// A body made from bytes is one from these bytes, with their number as its length.
pub proof fn law_bodies_of_bytes<R>(
    bytes: Vec<u8>,
    source: BodyImpl<R>,
    plain: Body<R>,
    r: Body<R>,
    slice: &[u8],
    from_slice: Body<R>,
    json: Body<R>,
)
    requires
        source@ == SourceView::<R>::RequestBytes(bytes@),
        call_ensures(Body::<R>::new, (source, Some(bytes@.len() as u64), true), plain),
        call_ensures(Body::<R>::from_vec, (bytes,), r),
        slice@ == bytes@,
        call_ensures(Body::<R>::from_bytes, (slice,), from_slice),
        call_ensures(Body::<R>::from_json, (bytes,), json),
    ensures
        r@ == (BodyView { content_typ: Some(ContentType::Binary), ..plain@ }),
        from_slice@ == r@,
        json@ == (BodyView { content_typ: Some(ContentType::Json), ..plain@ }),
{
}

/// A body made from text is one from the bytes of its UTF-8 encoding, and is known to be in UTF-8.
pub proof fn law_bodies_of_text<R>(
    bytes: Vec<u8>,
    source: BodyImpl<R>,
    plain: Body<R>,
    text: String,
    r: Body<R>,
    str: &str,
    from_str: Body<R>,
)
    requires
        bytes@ == encode_utf8(text@),
        source@ == SourceView::<R>::RequestBytes(bytes@),
        call_ensures(Body::<R>::new, (source, Some(bytes@.len() as u64), true), plain),
        call_ensures(Body::<R>::from_string, (text,), r),
        str@ == text@,
        call_ensures(Body::<R>::from_str, (str,), from_str),
    ensures
        r@ == (BodyView {
            content_typ: Some(ContentType::Text),
            override_source_enc: Some("UTF-8"@),
            ..plain@
        }),
        from_str@ == r@,
{
}

/// A body without content is known to have none, and is text.
pub proof fn law_the_empty_body<R>(source: BodyImpl<R>, plain: Body<R>, r: Body<R>)
    requires
        source@ == SourceView::<R>::RequestEmpty,
        call_ensures(Body::<R>::new, (source, Some(0u64), true), plain),
        call_ensures(Body::<R>::empty, (), r),
    ensures
        r@ == (BodyView { content_typ: Some(ContentType::Text), ..plain@ }),
{
}

/// A body made from a reader has the length that it is given, and is read from this reader. A file
/// is read in the asynchronous way.
pub proof fn law_bodies_of_readers<R>(
    reader: R,
    length: Option<u64>,
    asynchronous: BodyImpl<R>,
    plain: Body<R>,
    r: Body<R>,
    blocking: BodyImpl<R>,
    plain_blocking: Body<R>,
    from_blocking: Body<R>,
    from_file: Body<R>,
)
    requires
        asynchronous@ == SourceView::RequestAsyncRead(reader),
        call_ensures(Body::<R>::new, (asynchronous, length, true), plain),
        call_ensures(Body::<R>::from_async_read, (reader, length), r),
        blocking@ == SourceView::RequestRead(reader),
        call_ensures(Body::<R>::new, (blocking, length, true), plain_blocking),
        call_ensures(Body::<R>::from_sync_read, (reader, length), from_blocking),
        call_ensures(Body::<R>::from_file, (OpenFile { reader, length },), from_file),
    ensures
        r@ == (BodyView { content_typ: Some(ContentType::Binary), ..plain@ }),
        from_blocking@ == (BodyView { content_typ: Some(ContentType::Binary), ..plain_blocking@ }),
        from_file@ == r@,
{
}

/// A value that stands for a body is the body that is made of it.
pub proof fn law_values_stand_for_the_bodies_made_of_them<R>(
    str: &str,
    from_str: Body<R>,
    as_str: Body<R>,
    text: String,
    from_string: Body<R>,
    as_string: Body<R>,
    as_string_ref: Body<R>,
    slice: &[u8],
    from_slice: Body<R>,
    as_slice: Body<R>,
    bytes: Vec<u8>,
    from_vec: Body<R>,
    as_vec: Body<R>,
    as_vec_ref: Body<R>,
    empty: Body<R>,
    as_unit: Body<R>,
    file: OpenFile<R>,
    from_file: Body<R>,
    as_file: Body<R>,
)
    requires
        call_ensures(Body::<R>::from_str, (str,), from_str),
        call_ensures(<Body<R> as From<&str>>::from, (str,), as_str),
        call_ensures(Body::<R>::from_string, (text,), from_string),
        call_ensures(<Body<R> as From<String>>::from, (text,), as_string),
        call_ensures(<Body<R> as From<&String>>::from, (&text,), as_string_ref),
        call_ensures(Body::<R>::from_bytes, (slice,), from_slice),
        call_ensures(<Body<R> as From<&[u8]>>::from, (slice,), as_slice),
        call_ensures(Body::<R>::from_vec, (bytes,), from_vec),
        call_ensures(<Body<R> as From<Vec<u8>>>::from, (bytes,), as_vec),
        call_ensures(<Body<R> as From<&Vec<u8>>>::from, (&bytes,), as_vec_ref),
        call_ensures(Body::<R>::empty, (), empty),
        call_ensures(<Body<R> as From<()>>::from, ((),), as_unit),
        call_ensures(Body::<R>::from_file, (file,), from_file),
        call_ensures(<Body<R> as From<OpenFile<R>>>::from, (file,), as_file),
    ensures
        as_str@ == from_str@,
        as_string@ == from_string@,
        as_string_ref@ == from_string@,
        as_slice@ == from_slice@,
        as_vec@ == from_vec@,
        as_vec_ref@ == from_vec@,
        as_unit@ == empty@,
        as_file@ == from_file@,
{
}

/// The body of a response is read from the reader that it comes over, has no length or type of its
/// own, and is not read ahead.
pub proof fn law_bodies_of_responses<R>(
    reader: R,
    is_http2: bool,
    source: BodyImpl<R>,
    plain: Body<R>,
    r: Body<R>,
)
    requires
        source@ == if is_http2 {
            SourceView::Http2(reader)
        } else {
            SourceView::Http1(reader)
        },
        call_ensures(Body::<R>::new, (source, None::<u64>, false), plain),
        call_ensures(Body::<R>::from_response, (reader, is_http2), r),
    ensures
        r@ == plain@,
{
}

/// What is set of a body is set, and nothing else is changed.
pub proof fn law_setting_one_thing_changes_no_other<R>(
    counted: &mut Body<R>,
    ticket: Arc<Ticket>,
    monitored: &mut Body<R>,
    bw: Option<BandwidthMonitor>,
    ahead: &mut Body<R>,
    content: Vec<u8>,
)
    requires
        call_ensures(Body::<R>::set_unfinished_recs, (counted, ticket), ()),
        call_ensures(Body::<R>::set_bw_monitor, (monitored, bw), ()),
        call_ensures(Body::<R>::set_prebuffered, (ahead, content), ()),
    ensures
        ({
            let (b, a) = (old(counted)@, final(counted)@);
            &&& a.unfinished == Some(*ticket)
            &&& a.codec == b.codec
            &&& a.length == b.length
            &&& a.content_typ == b.content_typ
            &&& a.override_source_enc == b.override_source_enc
            &&& a.has_read == b.has_read
            &&& a.char_codec == b.char_codec
            &&& a.passed_charset == b.passed_charset
            &&& a.deadline == b.deadline
            &&& a.prebuffered == b.prebuffered
            &&& a.bw == b.bw
        }),
        ({
            let (b, a) = (old(monitored)@, final(monitored)@);
            &&& a.bw == bw
            &&& a.codec == b.codec
            &&& a.length == b.length
            &&& a.content_typ == b.content_typ
            &&& a.override_source_enc == b.override_source_enc
            &&& a.has_read == b.has_read
            &&& a.char_codec == b.char_codec
            &&& a.passed_charset == b.passed_charset
            &&& a.deadline == b.deadline
            &&& a.unfinished == b.unfinished
            &&& a.prebuffered == b.prebuffered
        }),
        ({
            let (b, a) = (old(ahead)@, final(ahead)@);
            &&& a.prebuffered == Some(content@)
            &&& a.length == Some(content@.len() as u64)
            &&& a.codec == b.codec
            &&& a.content_typ == b.content_typ
            &&& a.override_source_enc == b.override_source_enc
            &&& a.has_read == b.has_read
            &&& a.char_codec == b.char_codec
            &&& a.passed_charset == b.passed_charset
            &&& a.deadline == b.deadline
            &&& a.unfinished == b.unfinished
            &&& a.bw == b.bw
        }),
{
}

/// What a body tells of itself is what it was made with, and what has become of it.
pub proof fn law_what_a_body_tells<R>(
    body: Body<R>,
    no_body: bool,
    a_body: bool,
    configurable: bool,
    deadline: bool,
    content_type: Option<&'static str>,
    codec: &BodyCodec<R>,
    char_codec: Option<&CharCodec>,
)
    requires
        call_ensures(Body::<R>::is_definitely_no_body, (&body,), no_body),
        call_ensures(Body::<R>::is_definitely_a_body, (&body,), a_body),
        call_ensures(Body::<R>::is_configurable, (&body,), configurable),
        call_ensures(Body::<R>::has_deadline, (&body,), deadline),
        call_ensures(Body::<R>::content_type, (&body,), content_type),
        call_ensures(Body::<R>::codec, (&body,), codec),
        call_ensures(Body::<R>::char_codec, (&body,), char_codec),
    ensures
        no_body == (body@.length is Some && body@.length->0 == 0),
        a_body == !no_body,
        configurable == !body@.has_read,
        deadline == body@.deadline,
        match body@.content_typ {
            Some(ContentType::Text) => content_type is Some && content_type->0@
                == "text/plain; charset=utf-8"@,
            Some(ContentType::Binary) => content_type is Some && content_type->0@
                == "application/octet-stream"@,
            Some(ContentType::Json) => content_type is Some && content_type->0@
                == "application/json; charset=utf-8"@,
            None => content_type is None,
        },
        codec@ == body@.codec,
        body@.char_codec == match char_codec {
            Some(char_codec) => Some(char_codec@),
            None => None,
        },
{
}

/// A content type stands in a header as it is known there.
pub proof fn law_content_types_in_headers(content_typ: ContentType, r: &'static str)
    requires
        call_ensures(ContentType::as_str, (content_typ,), r),
    ensures
        content_typ == ContentType::Text ==> r@ == "text/plain; charset=utf-8"@,
        content_typ == ContentType::Binary ==> r@ == "application/octet-stream"@,
        content_typ == ContentType::Json ==> r@ == "application/json; charset=utf-8"@,
{
}

/// The length of a body as it is sent is the length that is known of it, also where its bytes come
/// from a reader and however much of it was read ahead. Only where the content passes through gzip
/// or a charset conversion, and was not read ahead through it, it is not known.
pub proof fn law_the_encoded_length_is_the_length<R>(body: Body<R>, r: Option<u64>)
    requires
        call_ensures(Body::<R>::content_encoded_length, (&body,), r),
    ensures
        body@.prebuffered is Some ==> r == body@.length,
        body@.codec !is GzipDecoder && body@.codec !is GzipEncoder && body@.char_codec is None
            ==> r == body@.length,
        body@.prebuffered is None && (body@.codec is GzipDecoder || body@.codec is GzipEncoder
            || body@.char_codec is Some) ==> r is None,
{
}

/// What is read ahead of the source does not change the length of a body: it is that which the body
/// was made with, as long as no codec is settled that changes it.
pub proof fn law_reading_ahead_keeps_the_length<R>(
    reader: R,
    length: Option<u64>,
    made: Body<R>,
    configured: &mut Body<R>,
    params: HReqParams,
    headers: HeaderMap<HeaderValue>,
    ahead: &mut Body<R>,
    read: Option<Vec<u8>>,
    limit: usize,
    step: Prebuffer,
    r: Option<u64>,
)
    requires
        call_ensures(Body::<R>::from_file, (OpenFile { reader, length },), made),
        *old(configured) == made,
        call_ensures(Body::<R>::configure, (configured, &params, &headers, false), ()),
        !params.content_encode,
        !params.charset_tx.enabled,
        final(configured)@ == old(ahead)@,
        call_ensures(Body::<R>::prebuffer_source, (ahead, read, limit), step),
        call_ensures(Body::<R>::content_encoded_length, (&*final(ahead),), r),
    ensures
        r == length,
{
}

/// The content coding is settled by the headers and by the one parameter of the direction: what is
/// received is decompressed if `content_decode` is set, what is sent is compressed if
/// `content_encode` is set, and both only where the first `content-encoding` is `gzip`. A coding
/// that was settled stays. Nothing else is changed.
pub proof fn law_the_coding_is_settled_by_direction<R>(
    body: &mut Body<R>,
    params: HReqParams,
    headers: HeaderMap<HeaderValue>,
    is_incoming: bool,
)
    requires
        call_ensures(Body::<R>::configure_codec, (body, &params, &headers, is_incoming), ()),
    ensures
        ({
            let (b, a) = (old(body)@, final(body)@);
            let contents = header_contents(headers);
            let gzip = contents.contains_key("content-encoding"@)
                && contents["content-encoding"@][0] == encode_utf8("gzip"@);
            &&& a.length == b.length
            &&& a.content_typ == b.content_typ
            &&& a.override_source_enc == b.override_source_enc
            &&& a.has_read == b.has_read
            &&& a.char_codec == b.char_codec
            &&& a.passed_charset == b.passed_charset
            &&& a.deadline == b.deadline
            &&& a.unfinished == b.unfinished
            &&& a.prebuffered == b.prebuffered
            &&& a.bw == b.bw
            &&& match b.codec {
                CodecView::Deferred(Some(reader)) => {
                    let counted = ReaderView { bw: b.bw, ..reader };
                    &&& is_incoming && params.content_decode && gzip ==> a.codec
                        == CodecView::GzipDecoder(counted)
                    &&& !is_incoming && params.content_encode && gzip ==> a.codec
                        == CodecView::GzipEncoder(counted)
                    &&& !gzip || is_incoming && !params.content_decode || !is_incoming
                        && !params.content_encode ==> a.codec == CodecView::Pass(counted)
                },
                _ => a.codec == b.codec,
            }
        }),
{
    lemma_gzip_is_visible();
}

proof fn lemma_gzip_is_visible()
    ensures
        forall|i: int|
            0 <= i < encode_utf8("gzip"@).len() ==> 32 <= #[trigger] encode_utf8("gzip"@)[i] < 127,
{
    reveal_strlit("gzip");
    assert(is_ascii_chars("gzip"@));
    is_ascii_chars_encode_utf8("gzip"@);
}

/// Configuring a body settles its coding, by the headers and by the one parameter of the direction,
/// its charset conversion, by the charset that the headers name, and its deadline. Nothing else is
/// changed.
pub proof fn law_configuring_settles_a_body<R>(
    body: &mut Body<R>,
    params: HReqParams,
    headers: HeaderMap<HeaderValue>,
    is_incoming: bool,
    named: Option<Charset>,
)
    requires
        call_ensures(Body::<R>::configure, (body, &params, &headers, is_incoming), ()),
        call_ensures(charset_of_headers, (&headers,), named),
    ensures
        ({
            let (b, a) = (old(body)@, final(body)@);
            let contents = header_contents(headers);
            let gzip = contents.contains_key("content-encoding"@)
                && contents["content-encoding"@][0] == encode_utf8("gzip"@);
            &&& a.deadline
            &&& a.length == b.length
            &&& a.content_typ == b.content_typ
            &&& a.override_source_enc == b.override_source_enc
            &&& a.has_read == b.has_read
            &&& a.unfinished == b.unfinished
            &&& a.prebuffered == b.prebuffered
            &&& a.bw == b.bw
            &&& match b.codec {
                CodecView::Deferred(Some(reader)) => {
                    let counted = ReaderView { bw: b.bw, ..reader };
                    &&& is_incoming && params.content_decode && gzip ==> a.codec
                        == CodecView::GzipDecoder(counted)
                    &&& !is_incoming && params.content_encode && gzip ==> a.codec
                        == CodecView::GzipEncoder(counted)
                    &&& !gzip || is_incoming && !params.content_decode || !is_incoming
                        && !params.content_encode ==> a.codec == CodecView::Pass(counted)
                },
                _ => a.codec == b.codec,
            }
        }),
        ({
            let (b, a) = (old(body)@, final(body)@);
            let enabled = if is_incoming {
                params.charset_rx.enabled
            } else {
                params.charset_tx.enabled
            };
            let wanted = match params.charset_rx.other {
                Some(charset) => charset@,
                None => "UTF-8"@,
            };
            let source = match (b.override_source_enc, params.charset_tx.other) {
                (Some(name), _) => name,
                (None, Some(charset)) => charset@,
                (None, None) => "UTF-8"@,
            };
            if named is None || !enabled {
                a.char_codec == b.char_codec && a.passed_charset == b.passed_charset
            } else if is_incoming && named->0@ == wanted {
                a.char_codec == b.char_codec && a.passed_charset == Some(wanted)
            } else if is_incoming {
                &&& a.char_codec == Some(
                    CharCodecView { from: named->0@, to: wanted, encoder: true },
                )
                &&& a.passed_charset is None
            } else if named->0@ == source {
                a.char_codec == b.char_codec && a.passed_charset is None
            } else {
                &&& a.char_codec == Some(
                    CharCodecView { from: source, to: named->0@, encoder: true },
                )
                &&& a.passed_charset is None
            }
        }),
{
    lemma_gzip_is_visible();
}

/// Two charsets that were resolved are converted from the one to the other, unless they are the
/// same. Nothing else is changed.
pub proof fn law_different_charsets_are_converted<R>(
    body: &mut Body<R>,
    resolved: Option<(Charset, Charset)>,
    is_incoming: bool,
)
    requires
        call_ensures(Body::<R>::configure_charset, (body, resolved, is_incoming), ()),
    ensures
        ({
            let (b, a) = (old(body)@, final(body)@);
            &&& a.codec == b.codec
            &&& a.length == b.length
            &&& a.content_typ == b.content_typ
            &&& a.override_source_enc == b.override_source_enc
            &&& a.has_read == b.has_read
            &&& a.deadline == b.deadline
            &&& a.unfinished == b.unfinished
            &&& a.prebuffered == b.prebuffered
            &&& a.bw == b.bw
            &&& match resolved {
                None => a.char_codec == b.char_codec && a.passed_charset == b.passed_charset,
                Some((from, to)) => {
                    &&& from@ == to@ ==> a.char_codec == b.char_codec
                    &&& from@ != to@ ==> a.char_codec == Some(
                        CharCodecView { from: from@, to: to@, encoder: true },
                    )
                    &&& from@ == to@ && is_incoming ==> a.passed_charset == Some(from@)
                    &&& from@ != to@ || !is_incoming ==> a.passed_charset is None
                },
            }
        }),
{
}

/// Unconfiguring a body leaves no codec, no conversion and no deadline, and changes nothing else.
pub proof fn law_unconfiguring_leaves_nothing_settled<R>(body: Body<R>, r: Body<R>)
    requires
        call_ensures(Body::<R>::unconfigure, (body,), r),
    ensures
        ({
            let (b, a) = (body@, r@);
            &&& a.char_codec is None
            &&& a.passed_charset is None
            &&& !a.deadline
            &&& a.codec is Deferred
            &&& a.length == b.length
            &&& a.content_typ == b.content_typ
            &&& a.override_source_enc == b.override_source_enc
            &&& a.has_read == b.has_read
            &&& a.unfinished == b.unfinished
            &&& a.prebuffered == b.prebuffered
            &&& a.bw == b.bw
            &&& match b.codec {
                CodecView::Deferred(reader) => a.codec == CodecView::Deferred(reader),
                CodecView::Pass(reader) => a.codec == CodecView::Deferred(Some(reader)),
                CodecView::GzipDecoder(reader) => a.codec == CodecView::Deferred(Some(reader)),
                CodecView::GzipEncoder(reader) => a.codec == CodecView::Deferred(Some(reader)),
            }
        }),
{
}

/// Configured, unconfigured and configured again, a body is the one that is configured only once.
pub proof fn law_unconfiguring_makes_room_for_another_configuration<R>(
    body: Body<R>,
    first: &mut Body<R>,
    first_params: HReqParams,
    first_headers: HeaderMap<HeaderValue>,
    first_is_incoming: bool,
    undone: Body<R>,
    second: &mut Body<R>,
    only: &mut Body<R>,
    params: HReqParams,
    headers: HeaderMap<HeaderValue>,
    is_incoming: bool,
)
    requires
        body@.codec is Deferred,
        body@.char_codec is None,
        body@.passed_charset is None,
        *old(first) == body,
        call_ensures(
            Body::<R>::configure,
            (first, &first_params, &first_headers, first_is_incoming),
            (),
        ),
        call_ensures(Body::<R>::unconfigure, (*final(first),), undone),
        *old(second) == undone,
        call_ensures(Body::<R>::configure, (second, &params, &headers, is_incoming), ()),
        *old(only) == body,
        call_ensures(Body::<R>::configure, (only, &params, &headers, is_incoming), ()),
    ensures
        final(second)@ == final(only)@,
        !undone@.deadline,
{
}

/// A deadline that has passed is all that a poll of a configured body comes to, whatever the body
/// holds.
pub proof fn law_a_passed_deadline_comes_first<R>(body: &mut Body<R>, buf: &mut [u8], r: ReadStep)
    requires
        call_ensures(Body::<R>::poll_read, (body, true, buf), r),
        old(body)@.deadline,
    ensures
        r == ReadStep::TimedOut,
        final(buf)@ == old(buf)@,
        final(body)@ == (BodyView { has_read: true, ..old(body)@ }),
{
}

/// A poll of a body whose content is there gives the content in its order: what is put into the
/// buffer, followed by what is left, is what there was. It gives as much as there is and as fits.
/// When nothing is given the body is finished. Nothing else is changed.
pub proof fn law_a_poll_gives_the_content_in_order<R>(
    body: &mut Body<R>,
    deadline_passed: bool,
    buf: &mut [u8],
    content: Seq<u8>,
    rest: Seq<u8>,
    r: ReadStep,
)
    requires
        call_ensures(Body::<R>::poll_read, (body, deadline_passed, buf), r),
        !old(body)@.deadline || !deadline_passed,
        ({
            let b = old(body)@;
            (b.prebuffered == Some(content) || b.prebuffered is None && b.char_codec is None
                && b.codec is Pass && match b.codec->Pass_0.source {
                SourceView::RequestEmpty => content.len() == 0,
                SourceView::RequestBytes(bytes) => bytes == content,
                _ => b.codec->Pass_0.at_end && b.codec->Pass_0.ahead == content,
            })
        }),
        r is Ready ==> rest == content.skip(r->Ready_0 as int),
    ensures
        r is Ready,
        r->Ready_0 == content.len() || r->Ready_0 == old(buf)@.len(),
        final(buf)@.len() == old(buf)@.len(),
        content == final(buf)@.take(r->Ready_0 as int) + rest,
        final(buf)@.skip(r->Ready_0 as int) == old(buf)@.skip(r->Ready_0 as int),
        ({
            let (b, a) = (old(body)@, final(body)@);
            &&& (a.prebuffered == Some(rest) || a.prebuffered is None && a.char_codec is None
                && a.codec is Pass && match a.codec->Pass_0.source {
                SourceView::RequestEmpty => rest.len() == 0,
                SourceView::RequestBytes(bytes) => bytes == rest,
                _ => a.codec->Pass_0.at_end && a.codec->Pass_0.ahead == rest,
            })
            &&& a.has_read
            &&& a.unfinished == if r->Ready_0 == 0 {
                None
            } else {
                b.unfinished
            }
            &&& a.length == b.length
            &&& a.content_typ == b.content_typ
            &&& a.override_source_enc == b.override_source_enc
            &&& a.char_codec == b.char_codec
            &&& a.passed_charset == b.passed_charset
            &&& a.deadline == b.deadline
            &&& a.bw == b.bw
            &&& b.prebuffered is Some ==> a.codec == b.codec
            &&& b.prebuffered is None ==> a.codec->Pass_0.prebuffer == b.codec->Pass_0.prebuffer
                && a.codec->Pass_0.bw == b.codec->Pass_0.bw && a.codec->Pass_0.at_end
                == b.codec->Pass_0.at_end
        }),
{
    let n = r->Ready_0 as int;
    assert(content =~= final(buf)@.take(n) + rest);
    assert(final(buf)@.skip(n) =~= old(buf)@.skip(n));
    assert(old(body)@.codec is Pass && old(body)@.codec->Pass_0.source is RequestEmpty
        && old(body)@.prebuffered is None ==> rest =~= Seq::empty());
}

/// A body whose content is not all there, or has yet to pass through a codec, is to be read from its
/// source, through the charset conversion if there is one. Nothing is given or taken before that.
pub proof fn law_other_content_is_read_from_the_source<R>(
    body: &mut Body<R>,
    deadline_passed: bool,
    buf: &mut [u8],
    r: ReadStep,
)
    requires
        call_ensures(Body::<R>::poll_read, (body, deadline_passed, buf), r),
        !old(body)@.deadline || !deadline_passed,
        ({
            let b = old(body)@;
            b.prebuffered is None && (b.char_codec is Some || b.codec !is Pass
                || match b.codec->Pass_0.source {
                SourceView::RequestEmpty => false,
                SourceView::RequestBytes(_) => false,
                _ => !b.codec->Pass_0.at_end,
            })
        }),
    ensures
        r == (ReadStep::Source { char_codec: old(body)@.char_codec is Some }),
        final(buf)@ == old(buf)@,
        final(body)@ == (BodyView { has_read: true, ..old(body)@ }),
{
}

/// A read is a poll whose bytes count, and whose other outcomes are in the way of it.
pub proof fn law_a_read_is_a_poll<R>(
    read: &mut Body<R>,
    read_buf: &mut [u8],
    polled: &mut Body<R>,
    polled_buf: &mut [u8],
    deadline_passed: bool,
    r: Result<usize, ReadStep>,
    step: ReadStep,
)
    requires
        call_ensures(Body::<R>::read, (read, deadline_passed, read_buf), r),
        call_ensures(Body::<R>::poll_read, (polled, deadline_passed, polled_buf), step),
        old(read)@ == old(polled)@,
        old(read_buf)@ == old(polled_buf)@,
    ensures
        final(read)@ == final(polled)@,
        final(read_buf)@ == final(polled_buf)@,
        step is Ready ==> r == Ok::<usize, ReadStep>(step->Ready_0),
        step !is Ready ==> r == Err::<usize, ReadStep>(step),
{
}

/// Reading a body to the end gives all of its content that is there, in its order, and leaves
/// nothing: the body is finished, and reading it again gives no bytes. Discarding it leaves the same.
pub proof fn law_reading_to_the_end_gives_all_content<R>(
    body: &mut Body<R>,
    content: Seq<u8>,
    deadline_passed: bool,
    r: Result<Vec<u8>, ReadStep>,
    again: &mut Body<R>,
    nothing: Result<Vec<u8>, ReadStep>,
    discarded: &mut Body<R>,
    done: Result<(), ReadStep>,
)
    requires
        call_ensures(Body::<R>::read_to_vec, (body, deadline_passed), r),
        *final(body) == *old(again),
        call_ensures(Body::<R>::read_to_vec, (again, deadline_passed), nothing),
        *old(discarded) == *old(body),
        call_ensures(
            Body::<R>::read_and_discard,
            (discarded, None::<usize>, deadline_passed),
            done,
        ),
        !old(body)@.deadline || !deadline_passed,
        ({
            let b = old(body)@;
            (b.prebuffered == Some(content) || b.prebuffered is None && b.char_codec is None
                && b.codec is Pass && match b.codec->Pass_0.source {
                SourceView::RequestEmpty => content.len() == 0,
                SourceView::RequestBytes(bytes) => bytes == content,
                _ => b.codec->Pass_0.at_end && b.codec->Pass_0.ahead == content,
            })
        }),
    ensures
        r is Ok,
        r->Ok_0@ == content,
        nothing is Ok,
        nothing->Ok_0@.len() == 0,
        done is Ok,
        final(discarded)@ == final(body)@,
        ({
            let (b, a) = (old(body)@, final(body)@);
            &&& a.has_read
            &&& a.unfinished is None
            &&& a.length == b.length
            &&& a.content_typ == b.content_typ
            &&& a.override_source_enc == b.override_source_enc
            &&& a.char_codec == b.char_codec
            &&& a.passed_charset == b.passed_charset
            &&& a.deadline == b.deadline
            &&& a.bw == b.bw
            &&& b.prebuffered is Some ==> a.prebuffered == Some(Seq::<u8>::empty()) && a.codec
                == b.codec
            &&& b.prebuffered is None ==> a.prebuffered is None && a.codec is Pass
                && a.codec->Pass_0.bw == b.codec->Pass_0.bw && a.codec->Pass_0.prebuffer
                == b.codec->Pass_0.prebuffer && a.codec->Pass_0.at_end == b.codec->Pass_0.at_end
        }),
{
}

/// What is in the way of reading a body to the end is in the way of reading it at all: a deadline
/// that has passed, or a source that is to be read.
pub proof fn law_what_is_in_the_way_of_the_end<R>(
    body: &mut Body<R>,
    deadline_passed: bool,
    r: Result<Vec<u8>, ReadStep>,
    discarded: &mut Body<R>,
    done: Result<(), ReadStep>,
    polled: &mut Body<R>,
    buf: &mut [u8],
    step: ReadStep,
)
    requires
        call_ensures(Body::<R>::read_to_vec, (body, deadline_passed), r),
        *old(discarded) == *old(body),
        call_ensures(
            Body::<R>::read_and_discard,
            (discarded, None::<usize>, deadline_passed),
            done,
        ),
        *old(polled) == *old(body),
        call_ensures(Body::<R>::poll_read, (polled, deadline_passed, buf), step),
        step !is Ready,
    ensures
        r is Err,
        r->Err_0 == step,
        done is Err,
        done->Err_0 == step,
        final(body)@ == final(polled)@,
        final(discarded)@ == final(polled)@,
{
}

/// What polling the reader of a body comes to is reported: some bytes leave the body as it is, none
/// finish it. Discarding reports it the same way, is at its end when there are none, and goes on
/// otherwise.
pub proof fn law_a_read_without_bytes_is_the_end<R>(
    body: &mut Body<R>,
    amount: usize,
    discarded: &mut Body<R>,
    deadline_passed: bool,
    done: Result<(), ReadStep>,
    further: &mut Body<R>,
    further_done: Result<(), ReadStep>,
)
    requires
        call_ensures(Body::<R>::finish_read, (body, amount), ()),
        *old(discarded) == *old(body),
        call_ensures(
            Body::<R>::read_and_discard,
            (discarded, Some(amount), deadline_passed),
            done,
        ),
        *old(further) == *old(body),
        call_ensures(
            Body::<R>::read_and_discard,
            (further, None::<usize>, deadline_passed),
            further_done,
        ),
    ensures
        ({
            let (b, a) = (old(body)@, final(body)@);
            &&& a.unfinished == if amount == 0 {
                None
            } else {
                b.unfinished
            }
            &&& a.codec == b.codec
            &&& a.length == b.length
            &&& a.content_typ == b.content_typ
            &&& a.override_source_enc == b.override_source_enc
            &&& a.has_read == b.has_read
            &&& a.char_codec == b.char_codec
            &&& a.passed_charset == b.passed_charset
            &&& a.deadline == b.deadline
            &&& a.prebuffered == b.prebuffered
            &&& a.bw == b.bw
        }),
        amount == 0 ==> done is Ok && final(discarded)@ == final(body)@,
        amount > 0 ==> done == further_done && final(discarded)@ == final(further)@,
{
}

/// Raw bytes come from a source in memory, whatever codec stands before it, in their order and to
/// the last: what a read gives, followed by what is left, is what there was.
pub proof fn law_a_source_gives_all_its_bytes<R>(
    body: &mut Body<R>,
    buf: &mut [u8],
    reader: ReaderView<R>,
    bytes: Seq<u8>,
    r: Option<usize>,
)
    requires
        call_ensures(Body::<R>::read_source, (body, buf), r),
        old(body)@.codec == CodecView::Deferred(Some(reader)) || old(body)@.codec
            == CodecView::Pass(reader) || old(body)@.codec == CodecView::GzipDecoder(reader)
            || old(body)@.codec == CodecView::GzipEncoder(reader),
        reader.source == SourceView::<R>::RequestBytes(bytes),
    ensures
        r is Some,
        r->0 == bytes.len() || r->0 == old(buf)@.len(),
        r->0 <= bytes.len(),
        final(buf)@.len() == old(buf)@.len(),
        bytes == final(buf)@.take(r->0 as int) + bytes.skip(r->0 as int),
        final(buf)@.skip(r->0 as int) == old(buf)@.skip(r->0 as int),
        ({
            let (b, a) = (old(body)@, final(body)@);
            let left = ReaderView {
                source: SourceView::<R>::RequestBytes(bytes.skip(r->0 as int)),
                ..reader
            };
            &&& a.codec == match b.codec {
                CodecView::Deferred(_) => CodecView::Deferred(Some(left)),
                CodecView::Pass(_) => CodecView::Pass(left),
                CodecView::GzipDecoder(_) => CodecView::GzipDecoder(left),
                CodecView::GzipEncoder(_) => CodecView::GzipEncoder(left),
            }
            &&& a.length == b.length
            &&& a.content_typ == b.content_typ
            &&& a.override_source_enc == b.override_source_enc
            &&& a.has_read == b.has_read
            &&& a.char_codec == b.char_codec
            &&& a.passed_charset == b.passed_charset
            &&& a.deadline == b.deadline
            &&& a.unfinished == b.unfinished
            &&& a.prebuffered == b.prebuffered
            &&& a.bw == b.bw
        }),
{
    let n = r->0 as int;
    assert(bytes =~= final(buf)@.take(n) + bytes.skip(n));
    assert(final(buf)@.skip(n) =~= old(buf)@.skip(n));
}

/// The same of what was read ahead of a reader, whatever codec stands before it. It comes before the
/// reader is polled, and after its end there is nothing.
pub proof fn law_what_was_read_ahead_comes_first<R>(
    body: &mut Body<R>,
    buf: &mut [u8],
    reader: ReaderView<R>,
    r: Option<usize>,
)
    requires
        call_ensures(Body::<R>::read_source, (body, buf), r),
        old(body)@.codec == CodecView::Deferred(Some(reader)) || old(body)@.codec
            == CodecView::Pass(reader) || old(body)@.codec == CodecView::GzipDecoder(reader)
            || old(body)@.codec == CodecView::GzipEncoder(reader),
        reader.source !is RequestEmpty,
        reader.source !is RequestBytes,
    ensures
        (r is None) == (reader.ahead.len() == 0 && !reader.at_end),
        r is None ==> final(buf)@ == old(buf)@ && final(body)@ == old(body)@,
        r is Some ==> {
            let (b, a) = (old(body)@, final(body)@);
            let left = ReaderView { ahead: reader.ahead.skip(r->0 as int), ..reader };
            &&& r->0 == reader.ahead.len() || r->0 == old(buf)@.len()
            &&& r->0 <= reader.ahead.len()
            &&& final(buf)@.len() == old(buf)@.len()
            &&& reader.ahead == final(buf)@.take(r->0 as int) + reader.ahead.skip(r->0 as int)
            &&& final(buf)@.skip(r->0 as int) == old(buf)@.skip(r->0 as int)
            &&& a.codec == match b.codec {
                CodecView::Deferred(_) => CodecView::Deferred(Some(left)),
                CodecView::Pass(_) => CodecView::Pass(left),
                CodecView::GzipDecoder(_) => CodecView::GzipDecoder(left),
                CodecView::GzipEncoder(_) => CodecView::GzipEncoder(left),
            }
            &&& a.length == b.length
            &&& a.content_typ == b.content_typ
            &&& a.override_source_enc == b.override_source_enc
            &&& a.has_read == b.has_read
            &&& a.char_codec == b.char_codec
            &&& a.passed_charset == b.passed_charset
            &&& a.deadline == b.deadline
            &&& a.unfinished == b.unfinished
            &&& a.prebuffered == b.prebuffered
            &&& a.bw == b.bw
        },
{
    if r is Some {
        let n = r->0 as int;
        assert(reader.ahead =~= final(buf)@.take(n) + reader.ahead.skip(n));
        assert(final(buf)@.skip(n) =~= old(buf)@.skip(n));
    }
}

/// A body without content has no bytes to give, and one whose coding is being settled has no source.
pub proof fn law_no_bytes_come_from_nothing<R>(
    body: &mut Body<R>,
    buf: &mut [u8],
    n: Option<usize>,
    other: &mut Body<R>,
    reader: Option<&mut R>,
    ahead: &mut Body<R>,
    limit: usize,
    step: Prebuffer,
)
    requires
        call_ensures(Body::<R>::read_source, (body, buf), n),
        call_ensures(Body::<R>::reader_mut, (other,), reader),
        call_ensures(Body::<R>::prebuffer_source, (ahead, None::<Vec<u8>>, limit), step),
    ensures
        match old(body)@.codec {
            CodecView::Deferred(None) => n is None && final(body)@ == old(body)@ && final(buf)@
                == old(buf)@,
            CodecView::Deferred(Some(reader)) => reader.source is RequestEmpty ==> n == Some(0usize)
                && final(body)@ == old(body)@ && final(buf)@ == old(buf)@,
            CodecView::Pass(reader) => reader.source is RequestEmpty ==> n == Some(0usize)
                && final(body)@ == old(body)@ && final(buf)@ == old(buf)@,
            CodecView::GzipDecoder(reader) => reader.source is RequestEmpty ==> n == Some(0usize)
                && final(body)@ == old(body)@ && final(buf)@ == old(buf)@,
            CodecView::GzipEncoder(reader) => reader.source is RequestEmpty ==> n == Some(0usize)
                && final(body)@ == old(body)@ && final(buf)@ == old(buf)@,
        },
        old(other)@.codec == CodecView::<R>::Deferred(None) ==> reader is None && final(other)@
            == old(other)@,
        old(ahead)@.codec == CodecView::<R>::Deferred(None) ==> step is GiveUp && final(ahead)@
            == old(ahead)@,
{
    if n is Some {
        assert(n->0 == 0 ==> final(buf)@ =~= old(buf)@);
    }
}

/// A body can be configured as long as reading it has not begun, and everything else can be done with
/// it at any time. A string can be read of it if what is read, once text is left in UTF-8, is valid.
pub proof fn law_what_can_be_done_with_a_body<R>(
    body: &mut Body<R>,
    params: HReqParams,
    headers: HeaderMap<HeaderValue>,
    is_incoming: bool,
    deadline_passed: bool,
    buf: &mut [u8],
    read: Option<usize>,
    amount: Option<usize>,
    limit: usize,
    content: Seq<u8>,
)
    ensures
        !old(body)@.has_read ==> call_requires(
            Body::<R>::configure,
            (body, &params, &headers, is_incoming),
        ),
        call_requires(Body::<R>::poll_read, (body, deadline_passed, buf)),
        call_requires(Body::<R>::read, (body, deadline_passed, buf)),
        call_requires(Body::<R>::read_to_vec, (body, deadline_passed)),
        call_requires(Body::<R>::read_and_discard, (body, read, deadline_passed)),
        call_requires(Body::<R>::attempt_prebuffer, (body, amount, deadline_passed)),
        call_requires(Body::<R>::prebuffer_source, (body, None::<Vec<u8>>, limit)),
        call_requires(Body::<R>::read_source, (body, buf)),
        call_requires(Body::<R>::reader_mut, (body,)),
        call_requires(Body::<R>::remove_encoder, (body,)),
        call_requires(Body::<R>::content_encoded_length, (&*old(body),)),
        old(body)@.prebuffered == Some(content) && valid_utf8(content) ==> call_requires(
            Body::<R>::read_to_string,
            (body, deadline_passed),
        ),
        old(body)@.prebuffered is None && old(body)@.codec !is Pass ==> call_requires(
            Body::<R>::read_to_string,
            (body, deadline_passed),
        ),
        old(body)@.char_codec is Some && old(body)@.prebuffered is None ==> call_requires(
            Body::<R>::read_to_string,
            (body, deadline_passed),
        ),
{
}

/// Bytes that are read from a source in memory with one buffer after the other are the bytes of the
/// source, in their order: none is dropped between two reads.
pub proof fn law_two_reads_of_a_source_are_one<R>(
    first: &mut Body<R>,
    first_buf: &mut [u8],
    n: Option<usize>,
    second: &mut Body<R>,
    second_buf: &mut [u8],
    m: Option<usize>,
    reader: ReaderView<R>,
    bytes: Seq<u8>,
)
    requires
        old(first)@.codec == CodecView::Deferred(Some(reader)) || old(first)@.codec
            == CodecView::Pass(reader) || old(first)@.codec == CodecView::GzipDecoder(reader)
            || old(first)@.codec == CodecView::GzipEncoder(reader),
        reader.source == SourceView::<R>::RequestBytes(bytes),
        call_ensures(Body::<R>::read_source, (first, first_buf), n),
        *old(second) == *final(first),
        call_ensures(Body::<R>::read_source, (second, second_buf), m),
    ensures
        n is Some,
        m is Some,
        n->0 + m->0 == bytes.len() || m->0 == old(second_buf)@.len(),
        bytes.take(n->0 + m->0) == final(first_buf)@.take(n->0 as int) + final(second_buf)@.take(
            m->0 as int,
        ),
{
    law_a_source_gives_all_its_bytes(first, first_buf, reader, bytes, n);
    let left = ReaderView {
        source: SourceView::<R>::RequestBytes(bytes.skip(n->0 as int)),
        ..reader
    };
    law_a_source_gives_all_its_bytes(second, second_buf, left, bytes.skip(n->0 as int), m);
    assert(bytes.take(n->0 + m->0) =~= final(first_buf)@.take(n->0 as int)
        + final(second_buf)@.take(m->0 as int));
}

/// The reader of a body is the one that it was made with, whatever codec stands before it, and a
/// change of it changes nothing else.
pub proof fn law_the_reader_of_a_body<R>(
    body: &mut Body<R>,
    reader: ReaderView<R>,
    r: Option<&mut R>,
)
    requires
        call_ensures(Body::<R>::reader_mut, (body,), r),
        old(body)@.codec == CodecView::Deferred(Some(reader)) || old(body)@.codec
            == CodecView::Pass(reader) || old(body)@.codec == CodecView::GzipDecoder(reader)
            || old(body)@.codec == CodecView::GzipEncoder(reader),
    ensures
        (r is None) == (reader.source is RequestEmpty || reader.source is RequestBytes),
        r is None ==> final(body)@ == old(body)@,
        r matches Some(inner) ==> {
            let (b, a) = (old(body)@, final(body)@);
            let changed = ReaderView {
                source: match reader.source {
                    SourceView::RequestRead(_) => SourceView::RequestRead(*final(inner)),
                    SourceView::RequestAsyncRead(_) => SourceView::RequestAsyncRead(*final(inner)),
                    SourceView::Http1(_) => SourceView::Http1(*final(inner)),
                    SourceView::Http2(_) => SourceView::Http2(*final(inner)),
                    _ => reader.source,
                },
                ..reader
            };
            &&& match reader.source {
                SourceView::RequestRead(it) => it == *inner,
                SourceView::RequestAsyncRead(it) => it == *inner,
                SourceView::Http1(it) => it == *inner,
                SourceView::Http2(it) => it == *inner,
                _ => false,
            }
            &&& a.codec == match b.codec {
                CodecView::Deferred(_) => CodecView::Deferred(Some(changed)),
                CodecView::Pass(_) => CodecView::Pass(changed),
                CodecView::GzipDecoder(_) => CodecView::GzipDecoder(changed),
                CodecView::GzipEncoder(_) => CodecView::GzipEncoder(changed),
            }
            &&& a.length == b.length
            &&& a.content_typ == b.content_typ
            &&& a.override_source_enc == b.override_source_enc
            &&& a.has_read == b.has_read
            &&& a.char_codec == b.char_codec
            &&& a.passed_charset == b.passed_charset
            &&& a.deadline == b.deadline
            &&& a.unfinished == b.unfinished
            &&& a.prebuffered == b.prebuffered
            &&& a.bw == b.bw
        },
{
}

/// Content is passed on as it is, unless the coding was settled before.
pub proof fn law_content_can_be_passed_on<R>(body: &mut Body<R>)
    requires
        call_ensures(Body::<R>::set_codec_pass, (body,), ()),
    ensures
        ({
            let (b, a) = (old(body)@, final(body)@);
            &&& match b.codec {
                CodecView::Deferred(Some(reader)) => a.codec == CodecView::Pass(reader),
                _ => a.codec == b.codec,
            }
            &&& a.length == b.length
            &&& a.content_typ == b.content_typ
            &&& a.override_source_enc == b.override_source_enc
            &&& a.has_read == b.has_read
            &&& a.char_codec == b.char_codec
            &&& a.passed_charset == b.passed_charset
            &&& a.deadline == b.deadline
            &&& a.unfinished == b.unfinished
            &&& a.prebuffered == b.prebuffered
            &&& a.bw == b.bw
        }),
{
}

/// What comes to a body by reading its source ahead is decided as for the source itself, and
/// nothing but the source is changed.
pub proof fn law_a_body_is_read_ahead_by_its_source<R>(
    body: &mut Body<R>,
    read: Option<Vec<u8>>,
    limit: usize,
    reader: ReaderView<R>,
    r: Prebuffer,
)
    requires
        call_ensures(Body::<R>::prebuffer_source, (body, read, limit), r),
        old(body)@.codec == CodecView::Deferred(Some(reader)) || old(body)@.codec
            == CodecView::Pass(reader) || old(body)@.codec == CodecView::GzipDecoder(reader)
            || old(body)@.codec == CodecView::GzipEncoder(reader),
    ensures
        ({
            let (b, a) = (old(body)@, final(body)@);
            let left = ReaderView {
                ahead: match read {
                    Some(chunk) => reader.ahead + chunk@,
                    None => reader.ahead,
                },
                at_end: reader.at_end || read is Some && read->0@.len() == 0,
                ..reader
            };
            &&& a.codec == match b.codec {
                CodecView::Deferred(_) => CodecView::Deferred(Some(left)),
                CodecView::Pass(_) => CodecView::Pass(left),
                CodecView::GzipDecoder(_) => CodecView::GzipDecoder(left),
                CodecView::GzipEncoder(_) => CodecView::GzipEncoder(left),
            }
            &&& a.length == b.length
            &&& a.content_typ == b.content_typ
            &&& a.override_source_enc == b.override_source_enc
            &&& a.has_read == b.has_read
            &&& a.char_codec == b.char_codec
            &&& a.passed_charset == b.passed_charset
            &&& a.deadline == b.deadline
            &&& a.unfinished == b.unfinished
            &&& a.prebuffered == b.prebuffered
            &&& a.bw == b.bw
            &&& !reader.prebuffer ==> r is GiveUp
            &&& reader.prebuffer ==> match reader.source {
                SourceView::RequestEmpty => r == Prebuffer::Complete(0),
                SourceView::RequestBytes(bytes) => if bytes.len() <= limit {
                    r is Complete && r->Complete_0 == bytes.len()
                } else {
                    r is GiveUp
                },
                _ => if left.ahead.len() > limit {
                    r is GiveUp
                } else if left.at_end {
                    r is Complete && r->Complete_0 == left.ahead.len()
                } else {
                    r is ReadOn
                },
            }
        }),
{
    if read is Some && read->0@.len() == 0 {
        assert(reader.ahead + read->0@ =~= reader.ahead);
    }
}

/// Content that is all there is read ahead as reading the body to the end gives it, and its length is
/// known from then on. Without an amount, nothing is read ahead.
pub proof fn law_prebuffered_content_is_what_is_read<R>(
    body: &mut Body<R>,
    amount: Option<usize>,
    deadline_passed: bool,
    r: Result<(), ReadStep>,
    read: &mut Body<R>,
    content: Result<Vec<u8>, ReadStep>,
)
    requires
        call_ensures(Body::<R>::attempt_prebuffer, (body, amount, deadline_passed), r),
        *old(read) == *old(body),
        call_ensures(Body::<R>::read_to_vec, (read, deadline_passed), content),
    ensures
        amount is None ==> r is Ok && final(body)@ == old(body)@,
        amount is Some && content is Err ==> {
            &&& r is Err
            &&& r->Err_0 == content->Err_0
            &&& final(body)@ == final(read)@
        },
        amount is Some && content is Ok ==> {
            let (b, a) = (final(read)@, final(body)@);
            &&& r is Ok
            &&& a.prebuffered == Some(content->Ok_0@)
            &&& a.length == Some(content->Ok_0@.len() as u64)
            &&& a.codec == b.codec
            &&& a.content_typ == b.content_typ
            &&& a.override_source_enc == b.override_source_enc
            &&& a.has_read == b.has_read
            &&& a.char_codec == b.char_codec
            &&& a.passed_charset == b.passed_charset
            &&& a.deadline == b.deadline
            &&& a.unfinished == b.unfinished
            &&& a.bw == b.bw
        },
{
}

/// Text is left in UTF-8 where a charset is decoded: a conversion loses its encoder, and content
/// that is received in the wanted charset is decoded, unless that is UTF-8. Nothing else is changed.
pub proof fn law_text_is_left_in_utf_8<R>(body: &mut Body<R>)
    requires
        call_ensures(Body::<R>::remove_encoder, (body,), ()),
    ensures
        ({
            let (b, a) = (old(body)@, final(body)@);
            &&& match b.char_codec {
                Some(char_codec) => {
                    &&& a.char_codec is Some
                    &&& a.char_codec->0.from == char_codec.from
                    &&& a.char_codec->0.to == char_codec.to
                    &&& !a.char_codec->0.encoder
                },
                None => if b.passed_charset is None || b.passed_charset->0 == "UTF-8"@ {
                    a.char_codec is None
                } else {
                    &&& a.char_codec is Some
                    &&& a.char_codec->0.from == b.passed_charset->0
                    &&& !a.char_codec->0.encoder
                },
            }
            &&& a.codec == b.codec
            &&& a.length == b.length
            &&& a.content_typ == b.content_typ
            &&& a.override_source_enc == b.override_source_enc
            &&& a.has_read == b.has_read
            &&& a.passed_charset == b.passed_charset
            &&& a.deadline == b.deadline
            &&& a.unfinished == b.unfinished
            &&& a.prebuffered == b.prebuffered
            &&& a.bw == b.bw
        }),
{
}

/// A string that is read is the text of the bytes that are read once text is left in UTF-8, and what
/// is in the way of these bytes is in the way of the string.
pub proof fn law_a_string_is_the_text_of_the_bytes<R>(
    body: &mut Body<R>,
    deadline_passed: bool,
    r: Result<String, ReadStep>,
    plain: &mut Body<R>,
    read: &mut Body<R>,
    bytes: Result<Vec<u8>, ReadStep>,
)
    requires
        call_ensures(Body::<R>::read_to_string, (body, deadline_passed), r),
        *old(plain) == *old(body),
        call_ensures(Body::<R>::remove_encoder, (plain,), ()),
        *old(read) == *final(plain),
        call_ensures(Body::<R>::read_to_vec, (read, deadline_passed), bytes),
    ensures
        final(body)@ == final(read)@,
        bytes is Err ==> r is Err && r->Err_0 == bytes->Err_0,
        bytes is Ok ==> r is Ok && r->Ok_0@ == decode_utf8(bytes->Ok_0@),
{
}

/// The text of bytes is what they are the UTF-8 encoding of, and there is none if they are not.
pub proof fn law_text_of_bytes(bytes: Vec<u8>, text: Seq<char>, r: Option<String>)
    requires
        call_ensures(body_text, (bytes,), r),
    ensures
        bytes@ == encode_utf8(text) ==> r is Some && r->0@ == text,
        !valid_utf8(bytes@) ==> r is None,
        r is Some ==> valid_utf8(bytes@),
{
    encode_utf8_valid_utf8(text);
    encode_utf8_decode_utf8(text);
}

/// Bytes are read back as they were put in: those that a body is made of, passed on as they are, are
/// what reading it to the end gives.
pub proof fn law_bytes_come_back<R>(
    bytes: Vec<u8>,
    made: Body<R>,
    passed: &mut Body<R>,
    read: &mut Body<R>,
    deadline_passed: bool,
    r: Result<Vec<u8>, ReadStep>,
)
    requires
        call_ensures(Body::<R>::from_vec, (bytes,), made),
        *old(passed) == made,
        call_ensures(Body::<R>::set_codec_pass, (passed,), ()),
        *old(read) == *final(passed),
        call_ensures(Body::<R>::read_to_vec, (read, deadline_passed), r),
    ensures
        r is Ok,
        r->Ok_0@ == bytes@,
{
}

/// Text is read back as it was put in, where the headers name no charset other than UTF-8 and no
/// coding: whatever else they hold, and whatever the parameters are.
pub proof fn law_text_comes_back<R>(
    text: String,
    made: Body<R>,
    configured: &mut Body<R>,
    params: HReqParams,
    headers: HeaderMap<HeaderValue>,
    named: Option<Charset>,
    read: &mut Body<R>,
    r: Result<String, ReadStep>,
)
    requires
        call_ensures(Body::<R>::from_string, (text,), made),
        *old(configured) == made,
        call_ensures(Body::<R>::configure, (configured, &params, &headers, false), ()),
        call_ensures(charset_of_headers, (&headers,), named),
        named is None || named->0@ == "UTF-8"@ || !params.charset_tx.enabled,
        !header_contents(headers).contains_key("content-encoding"@) || !params.content_encode,
        *old(read) == *final(configured),
        call_ensures(Body::<R>::read_to_string, (read, false), r),
    ensures
        r is Ok,
        r->Ok_0@ == text@,
{
    encode_utf8_decode_utf8(text@);
}

/// Content that was read ahead through the codecs is what is read of a body, whatever its codecs
/// are, and its number of bytes is the length that is announced.
pub proof fn law_prebuffered_content_comes_back<R>(
    ahead: &mut Body<R>,
    content: Vec<u8>,
    len: Option<u64>,
    read: &mut Body<R>,
    r: Result<Vec<u8>, ReadStep>,
)
    requires
        call_ensures(Body::<R>::set_prebuffered, (ahead, content), ()),
        call_ensures(Body::<R>::content_encoded_length, (&*final(ahead),), len),
        *old(read) == *final(ahead),
        call_ensures(Body::<R>::read_to_vec, (read, false), r),
    ensures
        len == Some(content@.len() as u64),
        r is Ok,
        r->Ok_0@ == content@,
{
}

/// The description of a body names its coding, its charset conversion if there is one, its length as
/// it is sent, and whether it was read ahead.
pub proof fn law_a_description_names_what_a_body_is<R>(
    body: Body<R>,
    codec: &BodyCodec<R>,
    name: &'static str,
    length: Option<u64>,
    digits: String,
    r: String,
)
    requires
        call_ensures(Body::<R>::debug_string, (&body,), r),
        call_ensures(Body::<R>::codec, (&body,), codec),
        call_ensures(BodyCodec::<R>::name, (codec,), name),
        call_ensures(Body::<R>::content_encoded_length, (&body,), length),
        length is Some ==> call_ensures(decimal_text, (length->0,), digits),
    ensures
        r@ == "Body { codec: "@ + name@ + match body@.char_codec {
            Some(char_codec) => ", char_codec: "@ + (char_codec.from + " to "@
                + if char_codec.encoder {
                char_codec.to
            } else {
                "UTF-8"@
            }),
            None => Seq::empty(),
        } + (", len: "@ + if length is Some {
            digits@
        } else {
            "unknown"@
        }) + if body@.prebuffered is Some {
            ", prebuffered"@
        } else {
            Seq::empty()
        } + " }"@,
{
}

} // verus!
