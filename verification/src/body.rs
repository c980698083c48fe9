//! Request and response bodies.

use crate::charset::charset_name;
use crate::charset::charset_names;
use crate::charset::header_charset;
use crate::charset::resolution;
use crate::charset::CharCodec;
use crate::charset::CharCodecView;
use crate::charset::Charset;
use crate::codec::changes_size;
use crate::codec::codec_for;
use crate::codec::codec_reader;
use crate::codec::codec_text;
use crate::codec::codec_with_reader;
use crate::codec::min_len;
use crate::codec::overwritten;
use crate::codec::prebuffer_step;
use crate::codec::ready_bytes;
use crate::codec::source_reader;
use crate::codec::source_with_reader;
use crate::codec::unsettled;
use crate::codec::wants_chunk;
use crate::codec::whole_bytes;
use crate::codec::with_chunk;
use crate::codec::with_ready_bytes;
use crate::codec::BandwidthMonitor;
use crate::codec::BodyCodec;
use crate::codec::BodyImpl;
use crate::codec::BodyReader;
use crate::codec::CodecView;
use crate::codec::Cursor;
use crate::codec::Prebuffer;
use crate::codec::ReaderView;
use crate::codec::SourceView;
use crate::headers::get_str;
use crate::headers::header_contents;
use crate::headers::header_text;
use crate::params::HReqParams;
use crate::send::START_BUF_SIZE;
use crate::text::decimal;
use crate::text::decimal_text;
use crate::text::text_bytes;
use crate::ticket::Ticket;
use http::header::HeaderMap;
use http::header::HeaderValue;
use std::sync::Arc;
use vstd::prelude::*;
use vstd::string::*;
use vstd::utf8::*;

verus! {

const CT_TEXT: &'static str = "text/plain; charset=utf-8";

const CT_BIN: &'static str = "application/octet-stream";

const CT_JSON: &'static str = "application/json; charset=utf-8";

const READ_SIZE: usize = 8192;

/// The content type that a body has by the way it was made.
#[derive(Clone, Copy, Debug, PartialEq, Eq, Structural)]
pub enum ContentType {
    Text,
    Binary,
    Json,
}

impl ContentType {
    /// The content type as it stands in a header.
    pub open spec fn text(self) -> Seq<char> {
        match self {
            ContentType::Text => "text/plain; charset=utf-8"@,
            ContentType::Binary => "application/octet-stream"@,
            ContentType::Json => "application/json; charset=utf-8"@,
        }
    }

    /// The content type as it stands in a header.
    pub fn as_str(self) -> (r: &'static str)
        ensures
            r@ == self.text(),
    {
        match self {
            ContentType::Text => CT_TEXT,
            ContentType::Binary => CT_BIN,
            ContentType::Json => CT_JSON,
        }
    }
}

/// A file that was opened for reading.
pub struct OpenFile<R> {
    /// Reads the content of the file.
    pub reader: R,
    /// The size of the file, if it is known.
    pub length: Option<u64>,
}

/// Body of an http request or response.
pub struct Body<R> {
    codec: BodyCodec<R>,
    // incoming length if given with reader
    length: Option<u64>,
    content_typ: Option<ContentType>,
    override_source_enc: Option<Charset>,
    has_read: bool,
    char_codec: Option<CharCodec>,
    // charset of content that is received in the wanted charset
    passed_charset: Option<Charset>,
    deadline: bool,
    unfinished_recs: Option<Arc<Ticket>>,
    prebuffered: Option<Cursor>,
    bw: Option<BandwidthMonitor>,
}

/// The state of a body.
pub struct BodyView<R> {
    /// The source of the body, and the content coding.
    pub codec: CodecView<R>,
    /// The length of the content, if it is known.
    pub length: Option<u64>,
    /// The content type that comes with the way the body was made.
    pub content_typ: Option<ContentType>,
    /// The name of the charset that the content is known to be in.
    pub override_source_enc: Option<Seq<char>>,
    /// Reading has begun.
    pub has_read: bool,
    /// The charset conversion.
    pub char_codec: Option<CharCodecView>,
    /// The name of the charset of content that is received in the wanted charset already.
    pub passed_charset: Option<Seq<char>>,
    /// Reading is held to a deadline.
    pub deadline: bool,
    /// The ticket of the connection among whose unfinished requests the body counts.
    pub unfinished: Option<Ticket>,
    /// The content that was read ahead, as far as it is left.
    pub prebuffered: Option<Seq<u8>>,
    /// Counts the bytes that are read.
    pub bw: Option<BandwidthMonitor>,
}

impl<R> View for Body<R> {
    type V = BodyView<R>;

    closed spec fn view(&self) -> BodyView<R> {
        BodyView {
            codec: self.codec@,
            length: self.length,
            content_typ: self.content_typ,
            override_source_enc: charset_name(self.override_source_enc),
            has_read: self.has_read,
            char_codec: match self.char_codec {
                Some(char_codec) => Some(char_codec@),
                None => None,
            },
            passed_charset: charset_name(self.passed_charset),
            deadline: self.deadline,
            unfinished: match self.unfinished_recs {
                Some(ticket) => Some(*ticket),
                None => None,
            },
            prebuffered: match self.prebuffered {
                Some(cursor) => Some(cursor@),
                None => None,
            },
            bw: self.bw,
        }
    }
}

/// A body that was just made.
pub open spec fn fresh_body<R>(
    source: SourceView<R>,
    length: Option<u64>,
    prebuffer: bool,
    content_typ: Option<ContentType>,
) -> BodyView<R> {
    BodyView {
        codec: CodecView::Deferred(Some(ReaderView::fresh(source, prebuffer))),
        length,
        content_typ,
        override_source_enc: None,
        has_read: false,
        char_codec: None,
        passed_charset: None,
        deadline: false,
        unfinished: None,
        prebuffered: None,
        bw: None,
    }
}

/// A body that was just made from bytes.
pub open spec fn bytes_body<R>(bytes: Seq<u8>, content_typ: ContentType) -> BodyView<R> {
    fresh_body(
        SourceView::RequestBytes(bytes),
        Some(bytes.len() as u64),
        true,
        Some(content_typ),
    )
}

/// A body that was just made from text.
pub open spec fn text_body<R>(text: Seq<char>) -> BodyView<R> {
    BodyView {
        override_source_enc: Some("UTF-8"@),
        ..bytes_body(text_bytes(text), ContentType::Text)
    }
}

/// The length of a body as it goes over the wire, if it is known. Content that was read ahead has
/// passed through the codecs; of other content the codecs may change the length.
pub open spec fn encoded_length<R>(body: BodyView<R>) -> Option<u64> {
    if body.prebuffered is None && (changes_size(body.codec) || body.char_codec is Some) {
        None
    } else {
        body.length
    }
}

/// The content coding after `configure`: a coding that was settled stays.
pub open spec fn configured_codec<R>(
    codec: CodecView<R>,
    bw: Option<BandwidthMonitor>,
    params: HReqParams,
    contents: Map<Seq<char>, Seq<Seq<u8>>>,
    is_incoming: bool,
) -> CodecView<R> {
    match codec {
        CodecView::Deferred(Some(reader)) => {
            let reader = ReaderView { bw, ..reader };
            if params.uses_coding(is_incoming) {
                codec_for(reader, header_text(contents, "content-encoding"@), is_incoming)
            } else {
                CodecView::Pass(reader)
            }
        },
        _ => codec,
    }
}

/// The charset conversion after `configure`, where `resolved` are the charsets.
pub open spec fn configured_charset(
    char_codec: Option<CharCodecView>,
    resolved: Option<(Seq<char>, Seq<char>)>,
) -> Option<CharCodecView> {
    match resolved {
        Some((from, to)) if from != to => Some(CharCodecView { from, to, encoder: true }),
        _ => char_codec,
    }
}

/// The charset of content that is received in the wanted charset already, where `resolved` are
/// the charsets.
pub open spec fn configured_passed(
    passed_charset: Option<Seq<char>>,
    resolved: Option<(Seq<char>, Seq<char>)>,
    is_incoming: bool,
) -> Option<Seq<char>> {
    match resolved {
        Some((from, to)) => if is_incoming && from == to {
            Some(from)
        } else {
            None
        },
        None => passed_charset,
    }
}

/// A body whose charsets are settled.
pub open spec fn with_charsets<R>(
    body: BodyView<R>,
    resolved: Option<(Seq<char>, Seq<char>)>,
    is_incoming: bool,
) -> BodyView<R> {
    BodyView {
        char_codec: configured_charset(body.char_codec, resolved),
        passed_charset: configured_passed(body.passed_charset, resolved, is_incoming),
        ..body
    }
}

/// A body after `configure`.
pub open spec fn configured<R>(
    body: BodyView<R>,
    params: HReqParams,
    contents: Map<Seq<char>, Seq<Seq<u8>>>,
    is_incoming: bool,
) -> BodyView<R> {
    with_charsets(
        BodyView {
            deadline: true,
            codec: configured_codec(body.codec, body.bw, params, contents, is_incoming),
            ..body
        },
        resolution(
            params.charset_config(is_incoming),
            is_incoming,
            header_charset(contents),
            body.override_source_enc,
        ),
        is_incoming,
    )
}

/// A body before `configure`.
pub open spec fn unconfigured<R>(body: BodyView<R>) -> BodyView<R> {
    BodyView {
        codec: unsettled(body.codec),
        char_codec: None,
        passed_charset: None,
        deadline: false,
        ..body
    }
}

/// The charset conversion of a body in words.
pub open spec fn char_codec_text(char_codec: CharCodecView) -> Seq<char> {
    char_codec.from + " to "@ + (if char_codec.encoder {
        char_codec.to
    } else {
        "UTF-8"@
    })
}

/// The description of a body.
pub open spec fn debug_text<R>(body: BodyView<R>) -> Seq<char> {
    let codec = "Body { codec: "@ + codec_text(body.codec);
    let char_codec = match body.char_codec {
        Some(char_codec) => ", char_codec: "@ + char_codec_text(char_codec),
        None => Seq::empty(),
    };
    let len = ", len: "@ + match encoded_length(body) {
        Some(len) => decimal(len as nat),
        None => "unknown"@,
    };
    let prebuffered = if body.prebuffered is Some {
        ", prebuffered"@
    } else {
        Seq::empty()
    };
    codec + char_codec + len + prebuffered + " }"@
}

/// What a poll for bytes of a body comes to.
#[derive(Clone, Copy, Debug, PartialEq, Eq, Structural)]
pub enum ReadStep {
    /// The deadline of the body has passed.
    TimedOut,
    /// That many bytes were read. `0` is the end of the body.
    Ready(usize),
    /// The reader of the body is to be polled, through the codecs, and what comes of it is to be
    /// reported with `finish_read`.
    Source {
        /// The bytes pass through the charset conversion too.
        char_codec: bool,
    },
}

/// The bytes that can be read without polling a reader, if these are all there are: content that
/// was read ahead through the codecs, or content in memory that passes through no codec.
pub open spec fn local_bytes<R>(body: BodyView<R>) -> Option<Seq<u8>> {
    match body.prebuffered {
        Some(bytes) => Some(bytes),
        None => match body.codec {
            CodecView::Pass(reader) if body.char_codec is None => whole_bytes(reader),
            _ => None,
        },
    }
}

/// A body of whose local bytes `rest` is left.
pub open spec fn with_local_bytes<R>(body: BodyView<R>, rest: Seq<u8>) -> BodyView<R> {
    match body.prebuffered {
        Some(_) => BodyView { prebuffered: Some(rest), ..body },
        None => match codec_reader(body.codec) {
            Some(reader) => BodyView {
                codec: codec_with_reader(body.codec, with_ready_bytes(reader, rest)),
                ..body
            },
            None => body,
        },
    }
}

/// A body of which reading has begun.
pub open spec fn begun<R>(body: BodyView<R>) -> BodyView<R> {
    BodyView { has_read: true, ..body }
}

/// A body after `amount` bytes were read. It is finished when there are none.
pub open spec fn after_read<R>(body: BodyView<R>, amount: nat) -> BodyView<R> {
    if amount == 0 {
        BodyView { unfinished: None, ..body }
    } else {
        body
    }
}

/// A body that was read to the end.
pub open spec fn exhausted<R>(body: BodyView<R>) -> BodyView<R> {
    after_read(with_local_bytes(begun(body), Seq::empty()), 0)
}

/// A body whose content was read ahead.
pub open spec fn prebuffered_body<R>(body: BodyView<R>, content: Seq<u8>) -> BodyView<R> {
    BodyView { length: Some(content.len() as u64), prebuffered: Some(content), ..body }
}

/// A body that is read as UTF-8 text: its charset is decoded, and nothing is encoded again. That
/// holds too of content that is received in the wanted charset already, and would pass as it is.
pub open spec fn without_encoder<R>(body: BodyView<R>) -> BodyView<R> {
    BodyView {
        char_codec: match (body.char_codec, body.passed_charset) {
            (Some(char_codec), _) => Some(CharCodecView { encoder: false, ..char_codec }),
            (None, Some(name)) if name != "UTF-8"@ => Some(
                CharCodecView { from: name, to: name, encoder: false },
            ),
            _ => None,
        },
        ..body
    }
}

/// Why a body cannot be read to the end here and now.
pub open spec fn read_obstacle<R>(body: BodyView<R>, deadline_passed: bool) -> Option<ReadStep> {
    if body.deadline && deadline_passed {
        Some(ReadStep::TimedOut)
    } else if local_bytes(body) is None {
        Some(ReadStep::Source { char_codec: body.char_codec is Some })
    } else {
        None
    }
}

/// A body that is discarded, and whether it is at its end, or what stands against that, where
/// polling its reader came to `read` bytes, if it was polled.
pub open spec fn discarded<R>(
    body: BodyView<R>,
    read: Option<usize>,
    deadline_passed: bool,
) -> (BodyView<R>, Result<(), ReadStep>) {
    let reported = match read {
        Some(amount) => after_read(body, amount as nat),
        None => body,
    };
    if read == Some(0usize) {
        (reported, Ok(()))
    } else {
        match read_obstacle(reported, deadline_passed) {
            Some(step) => (begun(reported), Err(step)),
            None => (exhausted(reported), Ok(())),
        }
    }
}

/// Calls `String::from_utf8`: bytes that are valid UTF-8 become the string that they encode,
/// others none.
#[verifier::external_body]
fn string_from_utf8(bytes: Vec<u8>) -> (r: Option<String>)
    ensures
        match r {
            Some(text) => valid_utf8(bytes@) && text@ == decode_utf8(bytes@),
            None => !valid_utf8(bytes@),
        },
{
    String::from_utf8(bytes).ok()
}

/// The text of a body that was read to the end, if it is valid UTF-8.
pub fn body_text(bytes: Vec<u8>) -> (r: Option<String>)
    ensures
        match r {
            Some(text) => valid_utf8(bytes@) && text@ == decode_utf8(bytes@),
            None => !valid_utf8(bytes@),
        },
{
    string_from_utf8(bytes)
}

/// The UTF-8 encoding of a string.
fn string_into_bytes(text: String) -> (r: Vec<u8>)
    ensures
        r@ == encode_utf8(text@),
{
    vstd::slice::slice_to_vec(text.as_str().as_bytes())
}

impl<R> Body<R> {
    /// Constructs an empty request body.
    ///
    /// The `content-length` is known to be `0` and will be set for requests where a body
    /// is expected.
    pub fn empty() -> (r: Body<R>)
        ensures
            r@ == fresh_body::<R>(
                SourceView::RequestEmpty,
                Some(0),
                true,
                Some(ContentType::Text),
            ),
    {
        Self::new(BodyImpl::RequestEmpty, Some(0), true).ctype(ContentType::Text)
    }

    /// Creates a body from a `&str` by cloning the data.
    pub fn from_str(text: &str) -> (r: Body<R>)
        ensures
            r@ == text_body::<R>(text@),
    {
        Self::from_string(text.to_owned()).ctype(ContentType::Text)
    }

    /// Creates a body from a `String`.
    pub fn from_string(text: String) -> (r: Body<R>)
        ensures
            r@ == text_body::<R>(text@),
    {
        let mut new: Body<R> = Self::from_vec(string_into_bytes(text)).ctype(ContentType::Text);
        // any string source is definitely UTF-8
        new.override_source_enc = Some(Charset::utf_8());
        new
    }

    /// Creates a body from a `&[u8]` by cloning the data.
    pub fn from_bytes(bytes: &[u8]) -> (r: Body<R>)
        ensures
            r@ == bytes_body::<R>(bytes@, ContentType::Binary),
    {
        Self::from_vec(vstd::slice::slice_to_vec(bytes)).ctype(ContentType::Binary)
    }

    /// Creates a body from a `Vec<u8>`.
    pub fn from_vec(bytes: Vec<u8>) -> (r: Body<R>)
        ensures
            r@ == bytes_body::<R>(bytes@, ContentType::Binary),
    {
        let len: u64 = bytes.len() as u64;
        Self::new(BodyImpl::RequestBytes(Cursor::new(bytes)), Some(len), true).ctype(
            ContentType::Binary,
        )
    }

    /// Creates a body from a file.
    ///
    /// The request will have a `content-length` header, if the size of the file is known, unless
    /// compression or chunked encoding is used. Uses `content-type` from the headers if set, and
    /// falls back to `application/octet-stream`.
    pub fn from_file(file: OpenFile<R>) -> (r: Body<R>)
        ensures
            r@ == fresh_body(
                SourceView::RequestAsyncRead(file.reader),
                file.length,
                true,
                Some(ContentType::Binary),
            ),
    {
        Self::from_async_read(file.reader, file.length).ctype(ContentType::Binary)
    }

    /// Creates a body from encoded JSON.
    ///
    /// This also sets the `content-type` and `content-length` headers.
    pub fn from_json(json: Vec<u8>) -> (r: Body<R>)
        ensures
            r@ == bytes_body::<R>(json@, ContentType::Json),
    {
        Self::from_vec(json).ctype(ContentType::Json)
    }

    /// Creates a body from an asynchronous reader.
    ///
    /// The `content-length` header will be set depending on whether a
    /// `length` is provided. Combinations of charset and compression might
    /// make it so `content-length` is not known despite being provided.
    pub fn from_async_read(reader: R, length: Option<u64>) -> (r: Body<R>)
        ensures
            r@ == fresh_body(
                SourceView::RequestAsyncRead(reader),
                length,
                true,
                Some(ContentType::Binary),
            ),
    {
        Self::new(BodyImpl::RequestAsyncRead(reader), length, true).ctype(ContentType::Binary)
    }

    /// Creates a body from a blocking reader.
    ///
    /// The `content-length` header will be set depending on whether a
    /// `length` is provided. Combinations of charset and compression might
    /// make it so `content-length` is not known despite being provided.
    pub fn from_sync_read(reader: R, length: Option<u64>) -> (r: Body<R>)
        ensures
            r@ == fresh_body(
                SourceView::RequestRead(reader),
                length,
                true,
                Some(ContentType::Binary),
            ),
    {
        Self::new(BodyImpl::RequestRead(reader), length, true).ctype(ContentType::Binary)
    }

    /// Creates the body of a response that is received over HTTP/1.1 or HTTP/2.
    pub fn from_response(reader: R, is_http2: bool) -> (r: Body<R>)
        ensures
            r@ == fresh_body(
                if is_http2 {
                    SourceView::Http2(reader)
                } else {
                    SourceView::Http1(reader)
                },
                None,
                false,
                None,
            ),
    {
        if is_http2 {
            Self::new(BodyImpl::Http2(reader), None, false)
        } else {
            Self::new(BodyImpl::Http1(reader), None, false)
        }
    }

    /// Creates a new Body
    pub fn new(source: BodyImpl<R>, length: Option<u64>, prebuffer: bool) -> (r: Body<R>)
        ensures
            r@ == fresh_body(source@, length, prebuffer, None),
    {
        let codec: BodyCodec<R> = BodyCodec::deferred(source, prebuffer);
        Body {
            codec,
            length,
            content_typ: None,
            override_source_enc: None,
            has_read: false,
            char_codec: None,
            passed_charset: None,
            deadline: false,
            unfinished_recs: None,
            prebuffered: None,
            bw: None,
        }
    }

    fn ctype(self, content_typ: ContentType) -> (r: Body<R>)
        ensures
            r@ == (BodyView { content_typ: Some(content_typ), ..self@ }),
    {
        Body { content_typ: Some(content_typ), ..self }
    }

    /// Counts the body among the unfinished requests of the connection that the ticket belongs to,
    /// until it is read to the end or dropped.
    pub fn set_unfinished_recs(&mut self, unfin: Arc<Ticket>)
        ensures
            final(self)@ == (BodyView { unfinished: Some(*unfin), ..old(self)@ }),
    {
        self.unfinished_recs = Some(unfin);
    }

    /// Sets the monitor that counts the bytes of the body.
    pub fn set_bw_monitor(&mut self, bw: Option<BandwidthMonitor>)
        ensures
            final(self)@ == (BodyView { bw, ..old(self)@ }),
    {
        self.bw = bw;
    }

    /// Tells if we know _for sure_, there is no body.
    pub fn is_definitely_no_body(&self) -> (r: bool)
        ensures
            r == (self@.length == Some(0u64)),
    {
        match self.length {
            Some(l) => l == 0,
            None => false,
        }
    }

    /// Tells if we know _for sure_, there is a body. Sized or unsized.
    pub fn is_definitely_a_body(&self) -> (r: bool)
        ensures
            r == (self@.length != Some(0u64)),
    {
        match self.length {
            Some(l) => l > 0,
            None => true,
        }
    }

    /// Tells the length of the body _with content encoding_. This could
    /// take both gzip and charset into account, or just bail if we don't know.
    pub fn content_encoded_length(&self) -> (r: Option<u64>)
        ensures
            r == encoded_length(self@),
    {
        if self.prebuffered.is_some() {
            self.length
        } else if self.codec.affects_content_size() || self.char_codec.is_some() {
            // things like gzip will affect self.length
            None
        } else {
            self.length
        }
    }

    /// The content type set by the body, if any.
    pub fn content_type(&self) -> (r: Option<&'static str>)
        ensures
            match r {
                Some(text) => self@.content_typ is Some && text@ == self@.content_typ->0.text(),
                None => self@.content_typ is None,
            },
    {
        match self.content_typ {
            Some(content_typ) => Some(content_typ.as_str()),
            None => None,
        }
    }

    /// Tells whether reading has not begun, so that the body can still be configured.
    pub fn is_configurable(&self) -> (r: bool)
        ensures
            r == !self@.has_read,
    {
        !self.has_read
    }

    /// Undo the effects of configure()
    pub fn unconfigure(self) -> (r: Body<R>)
        ensures
            r@ == unconfigured(self@),
    {
        Body {
            codec: self.codec.into_deferred(),
            char_codec: None,
            passed_charset: None,
            deadline: false,
            ..self
        }
    }

    /// Configures the codecs in the body as part of the request or response.
    ///
    /// When calling this "content-encoding" and "content-type" must be settled.
    pub fn configure(
        &mut self,
        params: &HReqParams,
        headers: &HeaderMap<HeaderValue>,
        is_incoming: bool,
    )
        requires
            !old(self)@.has_read,
        ensures
            final(self)@ == configured(
                old(self)@,
                *params,
                header_contents(*headers),
                is_incoming,
            ),
    {
        self.deadline = true;
        self.configure_codec(params, headers, is_incoming);
        let resolved: Option<(Charset, Charset)> = if is_incoming {
            params.charset_rx.resolve(is_incoming, headers, self.override_source_enc)
        } else {
            params.charset_tx.resolve(is_incoming, headers, self.override_source_enc)
        };
        self.configure_charset(resolved, is_incoming);
    }

    /// Settles the content coding, unless that was done before.
    pub fn configure_codec(
        &mut self,
        params: &HReqParams,
        headers: &HeaderMap<HeaderValue>,
        is_incoming: bool,
    )
        ensures
            final(self)@ == (BodyView {
                codec: configured_codec(
                    old(self)@.codec,
                    old(self)@.bw,
                    *params,
                    header_contents(*headers),
                    is_incoming,
                ),
                ..old(self)@
            }),
    {
        let taken: Option<BodyReader<R>> = match &mut self.codec {
            BodyCodec::Deferred(reader) => reader.take(),
            _ => None,
        };
        if let Some(reader) = taken {
            // pass bw monitor on to reader where the counting actually happens.
            let reader: BodyReader<R> = BodyReader { bw: self.bw, ..reader };
            let use_enc: bool = !is_incoming && params.content_encode || is_incoming
                && params.content_decode;
            self.codec = if use_enc {
                proof {
                    reveal_strlit("content-encoding");
                }
                BodyCodec::from_encoding(reader, get_str(headers, "content-encoding"), is_incoming)
            } else {
                BodyCodec::Pass(reader)
            };
        }
    }

    /// Settles the charset conversion. There is none where both charsets are the same.
    pub fn configure_charset(&mut self, resolved: Option<(Charset, Charset)>, is_incoming: bool)
        ensures
            final(self)@ == with_charsets(old(self)@, charset_names(resolved), is_incoming),
    {
        if let Some((from, to)) = resolved {
            self.passed_charset = None;
            // don't use a codec if this is pass-thru
            if !from.same(&to) {
                self.char_codec = Some(CharCodec::new(from, to));
            } else if is_incoming {
                self.passed_charset = Some(from);
            }
        }
    }

    /// Settles that the content is passed on as it is, unless the coding was settled before.
    pub fn set_codec_pass(&mut self)
        ensures
            final(self)@ == (BodyView {
                codec: match old(self)@.codec {
                    CodecView::Deferred(Some(reader)) => CodecView::Pass(reader),
                    _ => old(self)@.codec,
                },
                ..old(self)@
            }),
    {
        let taken: Option<BodyReader<R>> = match &mut self.codec {
            BodyCodec::Deferred(reader) => reader.take(),
            _ => None,
        };
        if let Some(reader) = taken {
            self.codec = BodyCodec::Pass(reader);
        }
    }

    /// Polls for bytes of the body. `deadline_passed` tells whether the deadline has passed by
    /// now; it only matters to a body that was configured.
    pub fn poll_read(&mut self, deadline_passed: bool, buf: &mut [u8]) -> (r: ReadStep)
        ensures
            match read_obstacle(old(self)@, deadline_passed) {
                Some(step) => {
                    &&& r == step
                    &&& final(buf)@ == old(buf)@
                    &&& final(self)@ == begun(old(self)@)
                },
                None => {
                    let bytes = local_bytes(old(self)@)->0;
                    let n = min_len(bytes.len(), old(buf)@.len());
                    &&& n <= usize::MAX
                    &&& r == ReadStep::Ready(n as usize)
                    &&& final(buf)@ == overwritten(old(buf)@, bytes.take(n as int))
                    &&& final(self)@ == after_read(
                        with_local_bytes(begun(old(self)@), bytes.skip(n as int)),
                        n,
                    )
                },
            },
    {
        if !self.has_read {
            self.has_read = true;
        }
        // use deadline if it's present
        if self.deadline && deadline_passed {
            return ReadStep::TimedOut;
        }
        let local: Option<usize> = if let Some(prebuf) = &mut self.prebuffered {
            // entire contents is prebuffered
            Some(prebuf.read(buf))
        } else if self.char_codec.is_some() {
            None
        } else if let BodyCodec::Pass(reader) = &mut self.codec {
            if reader.is_whole() {
                reader.read_bytes(buf)
            } else {
                None
            }
        } else {
            None
        };
        match local {
            Some(amount) => {
                self.finish_read(amount);
                ReadStep::Ready(amount)
            },
            None => ReadStep::Source { char_codec: self.char_codec.is_some() },
        }
    }

    /// Reports how many bytes came of polling the reader of the body.
    pub fn finish_read(&mut self, amount: usize)
        ensures
            final(self)@ == after_read(old(self)@, amount as nat),
    {
        if amount == 0 {
            // by removing this arc, we reduce the unfinished recs count.
            self.unfinished_recs = None;
        }
    }

    /// Reads bytes in memory, or bytes that were read ahead, that have yet to pass through the
    /// codecs. `None` if the bytes come from the reader now.
    pub fn read_source(&mut self, buf: &mut [u8]) -> (r: Option<usize>)
        ensures
            match codec_reader(old(self)@.codec) {
                Some(reader) if ready_bytes(reader) is Some => {
                    let bytes = ready_bytes(reader)->0;
                    let n = min_len(bytes.len(), old(buf)@.len());
                    &&& n <= usize::MAX
                    &&& r == Some(n as usize)
                    &&& final(buf)@ == overwritten(old(buf)@, bytes.take(n as int))
                    &&& final(self)@ == (BodyView {
                        codec: codec_with_reader(
                            old(self)@.codec,
                            with_ready_bytes(reader, bytes.skip(n as int)),
                        ),
                        ..old(self)@
                    })
                },
                _ => {
                    &&& r is None
                    &&& final(buf)@ == old(buf)@
                    &&& final(self)@ == old(self)@
                },
            },
    {
        match self.codec.reader_mut() {
            Some(reader) => reader.read_bytes(buf),
            None => None,
        }
    }

    /// The reader that the bytes come from, if they are not in memory.
    pub fn reader_mut(&mut self) -> (r: Option<&mut R>)
        ensures
            match r {
                Some(reader) => {
                    &&& codec_reader(old(self)@.codec) is Some
                    &&& source_reader(codec_reader(old(self)@.codec)->0.source) == Some(*reader)
                    &&& final(self)@ == (BodyView {
                        codec: codec_with_reader(
                            old(self)@.codec,
                            ReaderView {
                                source: source_with_reader(
                                    codec_reader(old(self)@.codec)->0.source,
                                    *final(reader),
                                ),
                                ..codec_reader(old(self)@.codec)->0
                            },
                        ),
                        ..old(self)@
                    })
                },
                None => {
                    &&& match codec_reader(old(self)@.codec) {
                        Some(reader) => source_reader(reader.source) is None,
                        None => true,
                    }
                    &&& final(self)@ == old(self)@
                },
            },
    {
        match self.codec.reader_mut() {
            Some(reader) => reader.source.reader_mut(),
            None => None,
        }
    }

    /// Read some bytes from this body into the specified buffer,
    /// returning how many bytes were read.
    ///
    /// If the returned amount is `0`, the end of the body has been reached.
    pub fn read(&mut self, deadline_passed: bool, buf: &mut [u8]) -> (r: Result<usize, ReadStep>)
        ensures
            match read_obstacle(old(self)@, deadline_passed) {
                Some(step) => {
                    &&& r == Err::<usize, ReadStep>(step)
                    &&& final(buf)@ == old(buf)@
                    &&& final(self)@ == begun(old(self)@)
                },
                None => {
                    let bytes = local_bytes(old(self)@)->0;
                    let n = min_len(bytes.len(), old(buf)@.len());
                    &&& n <= usize::MAX
                    &&& r == Ok::<usize, ReadStep>(n as usize)
                    &&& final(buf)@ == overwritten(old(buf)@, bytes.take(n as int))
                    &&& final(self)@ == after_read(
                        with_local_bytes(begun(old(self)@), bytes.skip(n as int)),
                        n,
                    )
                },
            },
    {
        match self.poll_read(deadline_passed, buf) {
            ReadStep::Ready(amount) => Ok(amount),
            step => Err(step),
        }
    }

    /// Reads the body to the end, chunk by chunk, and appends it to `vec` if `keep` is set.
    fn read_to_end(
        &mut self,
        deadline_passed: bool,
        size: usize,
        keep: bool,
        vec: &mut Vec<u8>,
    ) -> (r: Result<(), ReadStep>)
        requires
            size > 0,
        ensures
            match read_obstacle(old(self)@, deadline_passed) {
                Some(step) => {
                    &&& r == Err::<(), ReadStep>(step)
                    &&& final(vec)@ == old(vec)@
                    &&& final(self)@ == begun(old(self)@)
                },
                None => {
                    &&& r == Ok::<(), ReadStep>(())
                    &&& keep ==> final(vec)@ == old(vec)@ + local_bytes(old(self)@)->0
                    &&& !keep ==> final(vec)@ == old(vec)@
                    &&& final(self)@ == exhausted(old(self)@)
                },
            },
    {
        let mut chunk: Vec<u8> = vec![0u8; size];
        let ghost obstacle = read_obstacle(self@, deadline_passed);
        let ghost start = begun(self@);
        let ghost mut left = local_bytes(self@)->0;
        let mut step: ReadStep = self.poll_read(deadline_passed, chunk.as_mut_slice());
        loop
            invariant
                size > 0,
                chunk@.len() == size,
                obstacle == read_obstacle(old(self)@, deadline_passed),
                start == begun(old(self)@),
                match obstacle {
                    Some(obstacle) => {
                        &&& step == obstacle
                        &&& obstacle !is Ready
                        &&& vec@ == old(vec)@
                        &&& self@ == start
                    },
                    None => {
                        let n = min_len(left.len(), size as nat);
                        &&& step == ReadStep::Ready(n as usize)
                        &&& chunk@.take(n as int) == left.take(n as int)
                        &&& self@ == after_read(with_local_bytes(start, left.skip(n as int)), n)
                        &&& keep ==> vec@ + left == old(vec)@ + local_bytes(old(self)@)->0
                        &&& !keep ==> vec@ == old(vec)@
                        &&& left.len() > 0 ==> local_bytes(with_local_bytes(start, left)) == Some(
                            left,
                        )
                    },
                },
            decreases left.len(),
        {
            match step {
                ReadStep::Ready(n) => {
                    if n == 0 {
                        assert(left.skip(0) =~= Seq::<u8>::empty());
                        assert(vec@ + left =~= vec@);
                        return Ok(());
                    }
                    let ghost seen = vec@;
                    if keep {
                        vec.extend_from_slice(vstd::slice::slice_subrange(chunk.as_slice(), 0, n));
                        assert(vec@ =~= seen + left.take(n as int));
                        assert(seen + left =~= vec@ + left.skip(n as int));
                    }
                    proof {
                        left = left.skip(n as int);
                    }
                    step = self.poll_read(deadline_passed, chunk.as_mut_slice());
                },
                _ => {
                    return Err(step);
                },
            }
        }
    }

    /// Reads to body to end into a new `Vec`.
    ///
    /// This can potentially take up a lot of memory (or even exhaust your RAM), depending on
    /// how big the response body is.
    pub fn read_to_vec(&mut self, deadline_passed: bool) -> (r: Result<Vec<u8>, ReadStep>)
        ensures
            match read_obstacle(old(self)@, deadline_passed) {
                Some(step) => {
                    &&& r matches Err(e) && e == step
                    &&& final(self)@ == begun(old(self)@)
                },
                None => {
                    &&& r matches Ok(vec) && vec@ == local_bytes(old(self)@)->0
                    &&& final(self)@ == exhausted(old(self)@)
                },
            },
    {
        let mut vec: Vec<u8> = Vec::with_capacity(READ_SIZE);
        match self.read_to_end(deadline_passed, READ_SIZE, true, &mut vec) {
            Ok(_) => Ok(vec),
            Err(step) => Err(step),
        }
    }

    /// Leaves decoded text in UTF-8, as a reader that reads to a rust string wants it.
    pub fn remove_encoder(&mut self)
        ensures
            final(self)@ == without_encoder(old(self)@),
    {
        if let Some(char_codec) = &mut self.char_codec {
            char_codec.remove_encoder();
        } else if let Some(charset) = self.passed_charset {
            if !charset.same(&Charset::utf_8()) {
                let mut char_codec: CharCodec = CharCodec::new(charset, charset);
                char_codec.remove_encoder();
                self.char_codec = Some(char_codec);
            }
        }
    }

    /// Reads to body to end into a new `String`.
    ///
    /// Since a rust string is always `utf-8`, the charset that was wanted is ignored.
    pub fn read_to_string(&mut self, deadline_passed: bool) -> (r: Result<String, ReadStep>)
        requires
            read_obstacle(without_encoder(old(self)@), deadline_passed) is None ==> valid_utf8(
                local_bytes(without_encoder(old(self)@))->0,
            ),
        ensures
            match read_obstacle(without_encoder(old(self)@), deadline_passed) {
                Some(step) => {
                    &&& r matches Err(e) && e == step
                    &&& final(self)@ == begun(without_encoder(old(self)@))
                },
                None => {
                    let bytes = local_bytes(without_encoder(old(self)@))->0;
                    &&& r matches Ok(text) && text@ == decode_utf8(bytes)
                    &&& final(self)@ == exhausted(without_encoder(old(self)@))
                },
            },
    {
        // Remove any user set char encoder since we're reading to a rust string.
        self.remove_encoder();
        match self.read_to_vec(deadline_passed) {
            Ok(vec) => Ok(string_from_utf8(vec).unwrap()),
            Err(step) => Err(step),
        }
    }

    /// Reads to body to end and discards it.
    ///
    /// HTTP/1.1 has no "multiplexing" of several concurrent request over the same socket;
    /// One must read the previous request's body to end before being able to
    /// read the next response header.
    ///
    /// Where the reader of the body is to be polled, this is called again with the number of bytes
    /// that came of it.
    pub fn read_and_discard(&mut self, read: Option<usize>, deadline_passed: bool) -> (r: Result<
        (),
        ReadStep,
    >)
        ensures
            (final(self)@, r) == discarded(old(self)@, read, deadline_passed),
    {
        if let Some(amount) = read {
            self.finish_read(amount);
            if amount == 0 {
                return Ok(());
            }
        }
        let mut none: Vec<u8> = Vec::new();
        self.read_to_end(deadline_passed, START_BUF_SIZE, false, &mut none)
    }

    /// Takes note of what a read ahead of the source came to, if there was one, and decides what
    /// is to be done to read small content ahead. None of what is read ahead is lost.
    pub fn prebuffer_source(&mut self, read: Option<Vec<u8>>, limit: usize) -> (r: Prebuffer)
        requires
            read is Some ==> wants_chunk(old(self)@.codec, limit as nat),
        ensures
            match codec_reader(old(self)@.codec) {
                Some(reader) => {
                    let after = match read {
                        Some(chunk) => with_chunk(reader, chunk@),
                        None => reader,
                    };
                    &&& final(self)@ == (BodyView {
                        codec: codec_with_reader(old(self)@.codec, after),
                        ..old(self)@
                    })
                    &&& r == prebuffer_step(after, limit as nat)
                },
                None => final(self)@ == old(self)@ && r == Prebuffer::GiveUp,
            },
    {
        self.codec.attempt_prebuffer(read, limit)
    }

    /// Reads the content ahead through the codecs, if `amount` tells that all of it is there.
    pub fn attempt_prebuffer(&mut self, amount: Option<usize>, deadline_passed: bool) -> (r: Result<
        (),
        ReadStep,
    >)
        ensures
            match amount {
                None => r == Ok::<(), ReadStep>(()) && final(self)@ == old(self)@,
                Some(_) => match read_obstacle(old(self)@, deadline_passed) {
                    Some(step) => {
                        &&& r == Err::<(), ReadStep>(step)
                        &&& final(self)@ == begun(old(self)@)
                    },
                    None => {
                        &&& r == Ok::<(), ReadStep>(())
                        &&& final(self)@ == prebuffered_body(
                            exhausted(old(self)@),
                            local_bytes(old(self)@)->0,
                        )
                    },
                },
            },
    {
        if let Some(amt) = amount {
            // content is fully buffered
            let mut buffer_into: Vec<u8> = Vec::with_capacity(
                if amt <= READ_SIZE {
                    amt
                } else {
                    READ_SIZE
                },
            );
            match self.read_to_end(deadline_passed, READ_SIZE, true, &mut buffer_into) {
                Ok(_) => {
                    assert(buffer_into@ =~= local_bytes(old(self)@)->0);
                    self.set_prebuffered(buffer_into);
                },
                Err(step) => {
                    return Err(step);
                },
            }
        }
        Ok(())
    }

    /// Takes content that was read ahead, to the end, through the codecs.
    pub fn set_prebuffered(&mut self, content: Vec<u8>)
        ensures
            final(self)@ == prebuffered_body(old(self)@, content@),
    {
        self.length = Some(content.len() as u64);
        self.prebuffered = Some(Cursor::new(content));
    }

    /// The content coding, and the source behind it.
    pub fn codec(&self) -> (r: &BodyCodec<R>)
        ensures
            r@ == self@.codec,
    {
        &self.codec
    }

    /// The charset conversion, if there is one.
    pub fn char_codec(&self) -> (r: Option<&CharCodec>)
        ensures
            match r {
                Some(char_codec) => self@.char_codec == Some(char_codec@),
                None => self@.char_codec is None,
            },
    {
        self.char_codec.as_ref()
    }

    /// Tells whether reading is held to a deadline.
    pub fn has_deadline(&self) -> (r: bool)
        ensures
            r == self@.deadline,
    {
        self.deadline
    }

    /// A description of the body, for logs.
    pub fn debug_string(&self) -> (r: String)
        ensures
            r@ == debug_text(self@),
    {
        let mut r: String = "Body { codec: ".to_owned();
        r.append(self.codec.name());
        if let Some(char_codec) = &self.char_codec {
            r.append(", char_codec: ");
            r.append(char_codec.source().name());
            r.append(" to ");
            match char_codec.target() {
                Some(target) => {
                    r.append(target.name());
                },
                None => {
                    r.append("UTF-8");
                },
            }
        }
        r.append(", len: ");
        match self.content_encoded_length() {
            Some(v) => {
                r.append(decimal_text(v).as_str());
            },
            None => {
                r.append("unknown");
            },
        }
        if self.prebuffered.is_some() {
            r.append(", prebuffered");
        }
        r.append(" }");
        r
    }
}

} // verus!
