//! What bodies promise across several calls.

use crate::body::after_read;
use crate::body::begun;
use crate::body::bytes_body;
use crate::body::configured;
use crate::body::encoded_length;
use crate::body::exhausted;
use crate::body::fresh_body;
use crate::body::local_bytes;
use crate::body::prebuffered_body;
use crate::body::read_obstacle;
use crate::body::text_body;
use crate::body::unconfigured;
use crate::body::with_local_bytes;
use crate::body::without_encoder;
use crate::body::BodyView;
use crate::body::ContentType;
use crate::body_buf::BufView;
use crate::charset::header_charset;
use crate::charset::local_charset;
use crate::charset::resolution;
use crate::charset::CharCodecView;
use crate::codec::codec_reader;
use crate::codec::min_len;
use crate::codec::prebuffer_step;
use crate::codec::ready_bytes;
use crate::codec::source_bytes;
use crate::codec::whole_bytes;
use crate::codec::with_chunk;
use crate::codec::CodecView;
use crate::codec::Prebuffer;
use crate::codec::ReaderView;
use crate::codec::SourceView;
use crate::headers::header_text;
use crate::params::HReqParams;
use crate::request::is_chunked;
use crate::request::law_content_length_is_exact;
use crate::request::request_headers;
use crate::send::goes_without_body;
use crate::send::is_possible;
use crate::send::law_body_is_sent_completely;
use crate::send::law_no_body_sends_nothing;
use crate::send::read_bytes;
use crate::send::run;
use crate::send::sent_bytes;
use crate::send::EventView;
use crate::send::SendState;
use crate::text::decimal;
use crate::text::occurs_at;
use crate::text::text_bytes;
use vstd::prelude::*;
use vstd::utf8::*;

verus! {

/// The headers and the parameters leave the bytes of a body of this direction as they are.
pub open spec fn is_uncoded(
    params: HReqParams,
    contents: Map<Seq<char>, Seq<Seq<u8>>>,
    is_incoming: bool,
) -> bool {
    !params.uses_coding(is_incoming) || header_text(contents, "content-encoding"@) != Some(
        text_bytes("gzip"@),
    )
}

/// Bytes are read back as they were put in: a body made from bytes, that is sent without content
/// coding and without charset conversion, has these bytes to read, also where it is read to a
/// string.
pub proof fn law_bytes_are_read_back<R>(
    bytes: Seq<u8>,
    content_typ: ContentType,
    params: HReqParams,
    contents: Map<Seq<char>, Seq<Seq<u8>>>,
)
    requires
        is_uncoded(params, contents, false),
        match resolution(params.charset_tx, false, header_charset(contents), None) {
            Some((from, to)) => from == to,
            None => true,
        },
    ensures
        ({
            let body = configured(bytes_body::<R>(bytes, content_typ), params, contents, false);
            &&& local_bytes(body) == Some(bytes)
            &&& without_encoder(body) == body
        }),
{
}

/// Text is read back as it was put in: a body made from text, that is sent without content coding
/// and whose headers name no charset other than UTF-8, reads as this text.
pub proof fn law_text_is_read_back<R>(
    text: Seq<char>,
    params: HReqParams,
    contents: Map<Seq<char>, Seq<Seq<u8>>>,
)
    requires
        is_uncoded(params, contents, false),
        header_charset(contents) is None || header_charset(contents) == Some("UTF-8"@)
            || !params.charset_tx.enabled,
    ensures
        ({
            let body = without_encoder(configured(text_body::<R>(text), params, contents, false));
            &&& local_bytes(body) == Some(text_bytes(text))
            &&& valid_utf8(text_bytes(text))
            &&& decode_utf8(text_bytes(text)) == text
        }),
{
    encode_utf8_valid_utf8(text);
    encode_utf8_decode_utf8(text);
}

/// A request body is converted to the charset that its text content type names, from UTF-8, from
/// the charset that was configured as its source, or from the one that it is known to be in.
pub proof fn law_request_charset_is_encoded<R>(
    body: BodyView<R>,
    params: HReqParams,
    contents: Map<Seq<char>, Seq<Seq<u8>>>,
    named: Seq<char>,
)
    requires
        body.char_codec is None,
        params.charset_tx.enabled,
        header_charset(contents) == Some(named),
    ensures
        ({
            let source = local_charset(params.charset_tx, body.override_source_enc);
            configured(body, params, contents, false).char_codec == if source == named {
                None
            } else {
                Some(CharCodecView { from: source, to: named, encoder: true })
            }
        }),
{
}

/// A response body is converted from the charset that its text content type names, to UTF-8 or to
/// the charset that was configured as the target.
pub proof fn law_response_charset_is_decoded<R>(
    body: BodyView<R>,
    params: HReqParams,
    contents: Map<Seq<char>, Seq<Seq<u8>>>,
    named: Seq<char>,
)
    requires
        body.char_codec is None,
        params.charset_rx.enabled,
        header_charset(contents) == Some(named),
    ensures
        ({
            let target = local_charset(params.charset_rx, None);
            configured(body, params, contents, true).char_codec == if named == target {
                None
            } else {
                Some(CharCodecView { from: named, to: target, encoder: true })
            }
        }),
{
}

/// Only MIME types that start with `text/` are converted, and none where that is disabled.
pub proof fn law_only_enabled_text_is_converted<R>(
    body: BodyView<R>,
    params: HReqParams,
    contents: Map<Seq<char>, Seq<Seq<u8>>>,
    is_incoming: bool,
)
    requires
        !params.charset_config(is_incoming).enabled || match header_text(
            contents,
            "content-type"@,
        ) {
            Some(content_type) => !occurs_at(content_type, text_bytes("text/"@), 0),
            None => true,
        },
    ensures
        configured(body, params, contents, is_incoming).char_codec == body.char_codec,
{
}

/// Gzip is the only content coding. A body that is sent is compressed, and a body that is received
/// is decompressed, if its `content-encoding` is `gzip` and that is enabled. Its length is then
/// not known. Any other body passes as it is.
pub proof fn law_gzip_is_the_only_coding<R>(
    body: BodyView<R>,
    reader: ReaderView<R>,
    params: HReqParams,
    contents: Map<Seq<char>, Seq<Seq<u8>>>,
    is_incoming: bool,
)
    requires
        body.codec == CodecView::Deferred(Some(reader)),
        body.prebuffered is None,
    ensures
        ({
            let after = configured(body, params, contents, is_incoming);
            let counted = ReaderView { bw: body.bw, ..reader };
            if is_uncoded(params, contents, is_incoming) {
                after.codec == CodecView::Pass(counted)
            } else {
                &&& encoded_length(after) is None
                &&& after.codec == if is_incoming {
                    CodecView::GzipDecoder(counted)
                } else {
                    CodecView::GzipEncoder(counted)
                }
            }
        }),
{
}

/// To configure a body again, with the same headers and parameters, changes nothing.
pub proof fn law_configuring_twice_is_configuring_once<R>(
    body: BodyView<R>,
    params: HReqParams,
    contents: Map<Seq<char>, Seq<Seq<u8>>>,
    is_incoming: bool,
)
    ensures
        ({
            let once = configured(body, params, contents, is_incoming);
            configured(once, params, contents, is_incoming) == once
        }),
{
}

/// What was configured can be undone: a body that was configured and unconfigured is as it was
/// before, but that its reader has the monitor of the body. No deadline is left in force, and the
/// body is configured anew as if for the first time.
pub proof fn law_unconfigure_undoes_configure<R>(
    body: BodyView<R>,
    reader: ReaderView<R>,
    params: HReqParams,
    contents: Map<Seq<char>, Seq<Seq<u8>>>,
    is_incoming: bool,
    new_params: HReqParams,
    new_contents: Map<Seq<char>, Seq<Seq<u8>>>,
    new_is_incoming: bool,
)
    requires
        body.codec == CodecView::Deferred(Some(reader)),
        body.char_codec is None,
        body.passed_charset is None,
        !body.deadline,
    ensures
        ({
            let undone = unconfigured(configured(body, params, contents, is_incoming));
            &&& undone == BodyView {
                codec: CodecView::Deferred(Some(ReaderView { bw: body.bw, ..reader })),
                ..body
            }
            &&& reader.bw == body.bw ==> undone == body
            &&& read_obstacle(undone, true) == read_obstacle(undone, false)
            &&& configured(undone, new_params, new_contents, new_is_incoming) == configured(
                body,
                new_params,
                new_contents,
                new_is_incoming,
            )
        }),
{
}

/// A body that was just made is given back as it was: configured and unconfigured, it is the same
/// body.
pub proof fn law_unconfigure_gives_a_fresh_body_back<R>(
    source: SourceView<R>,
    length: Option<u64>,
    prebuffer: bool,
    content_typ: Option<ContentType>,
    params: HReqParams,
    contents: Map<Seq<char>, Seq<Seq<u8>>>,
    is_incoming: bool,
)
    ensures
        ({
            let body = fresh_body(source, length, prebuffer, content_typ);
            unconfigured(configured(body, params, contents, is_incoming)) == body
        }),
{
}

/// A response is read to a string whatever charset was wanted: if its charset is known it is
/// decoded, and never encoded again. Only what is in UTF-8 already may pass as it is.
pub proof fn law_reading_a_string_ignores_the_target<R>(
    reader: R,
    is_http2: bool,
    params: HReqParams,
    contents: Map<Seq<char>, Seq<Seq<u8>>>,
    named: Seq<char>,
)
    requires
        params.charset_rx.enabled,
        header_charset(contents) == Some(named),
    ensures
        ({
            let source = if is_http2 {
                SourceView::Http2(reader)
            } else {
                SourceView::Http1(reader)
            };
            let response = fresh_body(source, None, false, None);
            match without_encoder(configured(response, params, contents, true)).char_codec {
                Some(char_codec) => char_codec.from == named && !char_codec.encoder,
                None => named == "UTF-8"@,
            }
        }),
{
}

/// The bytes that come of reading a body with buffers of the given sizes, one after the other, and
/// the body after that. Reading stops where a reader would have to be polled.
pub open spec fn read_all<R>(body: BodyView<R>, sizes: Seq<nat>) -> (BodyView<R>, Seq<u8>)
    decreases sizes.len(),
{
    if sizes.len() == 0 {
        (body, Seq::empty())
    } else {
        let (mid, data) = read_all(body, sizes.drop_last());
        match local_bytes(mid) {
            Some(bytes) => {
                let n = min_len(bytes.len(), sizes.last());
                (
                    after_read(with_local_bytes(begun(mid), bytes.skip(n as int)), n),
                    data + bytes.take(n as int),
                )
            },
            None => (begun(mid), data),
        }
    }
}

/// However a body is read, its bytes come in their order, none is left out and none comes twice.
pub proof fn law_reads_give_the_content_in_order<R>(
    body: BodyView<R>,
    content: Seq<u8>,
    sizes: Seq<nat>,
)
    requires
        local_bytes(body) == Some(content),
    ensures
        ({
            let (after, data) = read_all(body, sizes);
            &&& local_bytes(after) is Some
            &&& data + local_bytes(after)->0 == content
        }),
    decreases sizes.len(),
{
    if sizes.len() > 0 {
        law_reads_give_the_content_in_order(body, content, sizes.drop_last());
        let (mid, data) = read_all(body, sizes.drop_last());
        let left = local_bytes(mid)->0;
        let n = min_len(left.len(), sizes.last()) as int;
        let after = read_all(body, sizes).0;
        assert(local_bytes(after)->0 =~= left.skip(n));
        assert((data + left.take(n)) + left.skip(n) =~= data + left);
    } else {
        assert(Seq::<u8>::empty() + content =~= content);
    }
}

/// A read into a buffer that is not empty gives no bytes only at the end of the body; from then on
/// the body counts as finished.
pub proof fn law_no_bytes_is_the_end<R>(body: BodyView<R>, content: Seq<u8>, size: nat)
    requires
        local_bytes(body) == Some(content),
        size > 0,
    ensures
        (min_len(content.len(), size) == 0) == (content.len() == 0),
        content.len() == 0 ==> read_all(body, seq![size]).0.unfinished is None,
        content.len() > 0 ==> read_all(body, seq![size]).0.unfinished == body.unfinished,
{
    assert(seq![size].drop_last() =~= Seq::empty());
    reveal_with_fuel(read_all, 2);
}

/// A body that was read to the end has nothing left, counts as finished, and cannot be configured
/// any more.
pub proof fn law_an_exhausted_body_stays_exhausted<R>(body: BodyView<R>)
    requires
        local_bytes(body) is Some,
    ensures
        local_bytes(exhausted(body)) == Some(Seq::<u8>::empty()),
        exhausted(body).unfinished is None,
        exhausted(body).has_read,
        exhausted(exhausted(body)) == exhausted(body),
{
}

/// The length of content that was read ahead is known, whatever codecs it passed through, and it
/// is read without polling the source.
pub proof fn law_prebuffered_content_has_a_length<R>(body: BodyView<R>, content: Seq<u8>)
    requires
        content.len() <= u64::MAX,
    ensures
        encoded_length(prebuffered_body(body, content)) is Some,
        encoded_length(prebuffered_body(body, content))->0 == content.len(),
        local_bytes(prebuffered_body(body, content)) == Some(content),
        read_obstacle(prebuffered_body(body, content), false) is None,
{
}

/// Chunks of bytes, one after the other.
pub open spec fn joined(chunks: Seq<Seq<u8>>) -> Seq<u8>
    decreases chunks.len(),
{
    if chunks.len() == 0 {
        Seq::empty()
    } else {
        joined(chunks.drop_last()) + chunks.last()
    }
}

/// A source after reads ahead of it came to these chunks.
pub open spec fn after_chunks<R>(reader: ReaderView<R>, chunks: Seq<Seq<u8>>) -> ReaderView<R>
    decreases chunks.len(),
{
    if chunks.len() == 0 {
        reader
    } else {
        with_chunk(after_chunks(reader, chunks.drop_last()), chunks.last())
    }
}

/// Each of the chunks was read because that was to be done.
pub open spec fn is_read_ahead<R>(
    reader: ReaderView<R>,
    chunks: Seq<Seq<u8>>,
    limit: nat,
) -> bool
    decreases chunks.len(),
{
    chunks.len() > 0 ==> {
        &&& is_read_ahead(reader, chunks.drop_last(), limit)
        &&& prebuffer_step(after_chunks(reader, chunks.drop_last()), limit) is ReadOn
    }
}

/// What is read ahead is kept, in its order, and read before the rest of the source.
pub proof fn law_reading_ahead_loses_nothing<R>(reader: ReaderView<R>, chunks: Seq<Seq<u8>>)
    ensures
        ({
            let after = after_chunks(reader, chunks);
            &&& after.ahead == reader.ahead + joined(chunks)
            &&& after.source == reader.source
            &&& after.prebuffer == reader.prebuffer
            &&& source_bytes(reader.source) is None && after.ahead.len() > 0 ==> ready_bytes(after)
                == Some(reader.ahead + joined(chunks))
        }),
    decreases chunks.len(),
{
    if chunks.len() > 0 {
        law_reading_ahead_loses_nothing(reader, chunks.drop_last());
        let before = joined(chunks.drop_last());
        assert((reader.ahead + before) + chunks.last() =~= reader.ahead + (before
            + chunks.last()));
    } else {
        assert(reader.ahead + Seq::<u8>::empty() =~= reader.ahead);
    }
}

/// Small content is read ahead, whatever it comes from: a reader is read on until its end, or until
/// more than `limit` bytes have come. At the end the content is complete. With more than that it is
/// given up, and what has come is read first.
pub proof fn law_small_content_is_read_ahead<R>(
    source: SourceView<R>,
    chunks: Seq<Seq<u8>>,
    limit: nat,
)
    requires
        source_bytes(source) is None,
        chunks.len() > 0,
        is_read_ahead(ReaderView::fresh(source, true), chunks, limit),
    ensures
        ({
            let after = after_chunks(ReaderView::fresh(source, true), chunks);
            let content = joined(chunks);
            if chunks.last().len() == 0 {
                &&& content.len() <= limit
                &&& prebuffer_step(after, limit) == Prebuffer::Complete(content.len() as usize)
                &&& whole_bytes(after) == Some(content)
            } else if content.len() > limit {
                &&& prebuffer_step(after, limit) == Prebuffer::GiveUp
                &&& ready_bytes(after) == Some(content)
                &&& !after.at_end
            } else {
                &&& prebuffer_step(after, limit) == Prebuffer::ReadOn
                &&& ready_bytes(after) == Some(content)
            }
        }),
{
    let reader = ReaderView::fresh(source, true);
    law_reading_ahead_loses_nothing(reader, chunks);
    law_reading_ahead_loses_nothing(reader, chunks.drop_last());
    assert(reader.ahead + joined(chunks) =~= joined(chunks));
    assert(reader.ahead + joined(chunks.drop_last()) =~= joined(chunks.drop_last()));
    if chunks.last().len() == 0 {
        assert(joined(chunks) =~= joined(chunks.drop_last()));
    }
}

/// Content in memory is small if it has no more than `limit` bytes; nothing has to be read for it.
pub proof fn law_small_content_in_memory_is_complete<R>(
    source: SourceView<R>,
    content: Seq<u8>,
    limit: nat,
)
    requires
        source_bytes(source) == Some(content),
    ensures
        prebuffer_step(ReaderView::fresh(source, true), limit) == if content.len() <= limit {
            Prebuffer::Complete(content.len() as usize)
        } else {
            Prebuffer::GiveUp
        },
        prebuffer_step(ReaderView::fresh(source, false), limit) == Prebuffer::GiveUp,
{
}

/// Content that was read ahead is announced by its length, also where it comes from a reader or
/// passed through a codec, unless chunked encoding is used or the user set the `content-length`.
pub proof fn law_prebuffered_content_has_a_content_length<R>(
    body: BodyView<R>,
    content: Seq<u8>,
    contents: Map<Seq<char>, Seq<Seq<u8>>>,
    indicates_body: bool,
    is_http2: bool,
    agent_ident: Seq<char>,
)
    requires
        0 < content.len() <= u64::MAX,
        !contents.contains_key("content-length"@),
        is_http2 || !is_chunked(contents),
    ensures
        ({
            let body = prebuffered_body(body, content);
            let sent = request_headers(contents, body, indicates_body, is_http2, agent_ident);
            &&& sent.contains_key("content-length"@)
            &&& sent["content-length"@] == seq![text_bytes(decimal(content.len()))]
        }),
{
    let body = prebuffered_body(body, content);
    law_content_length_is_exact(contents, body, indicates_body, is_http2, agent_ident);
}

/// The length of a body is that of its content: of the content that was read ahead, or else of
/// the content in memory.
pub open spec fn has_content_length<R>(body: BodyView<R>) -> bool {
    match body.prebuffered {
        Some(content) => body.length == Some(content.len() as u64),
        None => match codec_reader(body.codec) {
            Some(reader) => match whole_bytes(reader) {
                Some(content) => body.length == Some(content.len() as u64),
                None => true,
            },
            None => true,
        },
    }
}

/// Bodies are made with the length of their content, and keep it while they are configured.
pub proof fn law_bodies_have_their_content_length<R>(
    body: BodyView<R>,
    bytes: Seq<u8>,
    text: Seq<char>,
    content_typ: ContentType,
    params: HReqParams,
    contents: Map<Seq<char>, Seq<Seq<u8>>>,
    is_incoming: bool,
)
    ensures
        has_content_length(bytes_body::<R>(bytes, content_typ)),
        has_content_length(text_body::<R>(text)),
        has_content_length(
            fresh_body::<R>(SourceView::RequestEmpty, Some(0), true, Some(content_typ)),
        ),
        has_content_length(prebuffered_body(body, bytes)),
        has_content_length(body) ==> has_content_length(
            configured(body, params, contents, is_incoming),
        ),
        has_content_length(body) ==> has_content_length(unconfigured(body)),
{
}

/// A length that is known is right: it is the number of bytes that there are to read.
pub proof fn law_a_known_length_is_right<R>(body: BodyView<R>, content: Seq<u8>)
    requires
        has_content_length(body),
        local_bytes(body) == Some(content),
        content.len() <= u64::MAX,
    ensures
        encoded_length(body) is Some,
        encoded_length(body)->0 == content.len(),
{
}

/// Content whose length a codec changes has no length that is known, unless it was read ahead.
pub proof fn law_a_changed_length_is_unknown<R>(body: BodyView<R>)
    requires
        body.prebuffered is None,
        body.codec is GzipDecoder || body.codec is GzipEncoder || body.char_codec is Some,
    ensures
        encoded_length(body) is None,
{
}

/// A request with a body made from bytes announces their number, unless compression, a charset
/// conversion or chunked encoding is used, or the user set the `content-length`.
pub proof fn law_bytes_have_a_content_length<R>(
    bytes: Seq<u8>,
    content_typ: ContentType,
    params: HReqParams,
    contents: Map<Seq<char>, Seq<Seq<u8>>>,
    indicates_body: bool,
    is_http2: bool,
    agent_ident: Seq<char>,
)
    requires
        0 < bytes.len() <= u64::MAX,
        is_uncoded(params, contents, false),
        match resolution(params.charset_tx, false, header_charset(contents), None) {
            Some((from, to)) => from == to,
            None => true,
        },
        !contents.contains_key("content-length"@),
        is_http2 || !is_chunked(contents),
    ensures
        ({
            let body = configured(bytes_body::<R>(bytes, content_typ), params, contents, false);
            let sent = request_headers(contents, body, indicates_body, is_http2, agent_ident);
            &&& sent.contains_key("content-length"@)
            &&& sent["content-length"@] == seq![text_bytes(decimal(bytes.len()))]
        }),
{
    let body = configured(bytes_body::<R>(bytes, content_typ), params, contents, false);
    law_content_length_is_exact(contents, body, indicates_body, is_http2, agent_ident);
}

/// A request with a body made from text announces the number of its UTF-8 bytes, unless
/// compression, another charset or chunked encoding is used, or the user set the
/// `content-length`.
pub proof fn law_text_has_a_content_length<R>(
    text: Seq<char>,
    params: HReqParams,
    contents: Map<Seq<char>, Seq<Seq<u8>>>,
    indicates_body: bool,
    is_http2: bool,
    agent_ident: Seq<char>,
)
    requires
        0 < text_bytes(text).len() <= u64::MAX,
        is_uncoded(params, contents, false),
        header_charset(contents) is None || header_charset(contents) == Some("UTF-8"@)
            || !params.charset_tx.enabled,
        !contents.contains_key("content-length"@),
        is_http2 || !is_chunked(contents),
    ensures
        ({
            let body = configured(text_body::<R>(text), params, contents, false);
            let sent = request_headers(contents, body, indicates_body, is_http2, agent_ident);
            &&& sent.contains_key("content-length"@)
            &&& sent["content-length"@] == seq![text_bytes(decimal(text_bytes(text).len()))]
        }),
{
    let body = configured(text_body::<R>(text), params, contents, false);
    law_content_length_is_exact(contents, body, indicates_body, is_http2, agent_ident);
}

/// As many bytes are sent as the `content-length` says, whatever the body comes from: a request that
/// is not cut short by an early response, and whose body, with what was retained of it, has the
/// length that is known of it, sends so many bytes, and none if it goes without a body.
pub proof fn law_content_length_is_what_is_sent<R, B>(
    body: BodyView<R>,
    buf: BufView<B>,
    steps: Seq<(EventView, nat)>,
    len: u64,
    contents: Map<Seq<char>, Seq<Seq<u8>>>,
    indicates_body: bool,
    is_http2: bool,
    agent_ident: Seq<char>,
)
    requires
        encoded_length(body) == Some(len),
        buf.wf(),
        ({
            let no_body = goes_without_body(body, buf);
            let (state, _, _) = run(SendState::initial(no_body), buf, steps);
            &&& is_possible(SendState::initial(no_body), buf, steps)
            &&& !state.is_sending()
            &&& !state.early_response
            &&& !no_body ==> (buf.unread() + read_bytes(steps)).len() == len
        }),
        !contents.contains_key("content-length"@),
    ensures
        ({
            let no_body = goes_without_body(body, buf);
            let (_, _, actions) = run(SendState::initial(no_body), buf, steps);
            let sent = request_headers(contents, body, indicates_body, is_http2, agent_ident);
            &&& sent_bytes(actions) == buf.unread() + read_bytes(steps)
            &&& sent_bytes(actions).len() == len
            &&& sent.contains_key("content-length"@) ==> sent["content-length"@] == seq![
                text_bytes(decimal(sent_bytes(actions).len())),
            ]
        }),
{
    law_content_length_is_exact(contents, body, indicates_body, is_http2, agent_ident);
    if goes_without_body(body, buf) {
        law_no_body_sends_nothing(buf, steps);
        assert(buf.unread() + read_bytes(steps) =~= Seq::empty());
    } else {
        law_body_is_sent_completely(buf, steps);
    }
}

} // verus!
