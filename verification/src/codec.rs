//! Where the bytes of a body come from, and the content coding that they pass through.

use crate::text::bytes_equal;
use crate::text::text_bytes;
use vstd::prelude::*;
use vstd::string::*;

verus! {

/// Bytes held in memory that are read from start to end.
pub struct Cursor {
    bytes: Vec<u8>,
    pos: usize,
}

impl View for Cursor {
    type V = Seq<u8>;

    /// What is left to read.
    closed spec fn view(&self) -> Seq<u8> {
        if self.pos <= self.bytes@.len() {
            self.bytes@.subrange(self.pos as int, self.bytes@.len() as int)
        } else {
            Seq::empty()
        }
    }
}

/// The smaller of two lengths.
pub open spec fn min_len(a: nat, b: nat) -> nat {
    if a <= b {
        a
    } else {
        b
    }
}

/// A buffer after `bytes` were copied to its start.
pub open spec fn overwritten(buf: Seq<u8>, bytes: Seq<u8>) -> Seq<u8> {
    bytes + buf.skip(bytes.len() as int)
}

/// Copies as many bytes as fit from `bytes`, starting at `from`, to the start of `buf`.
pub(crate) fn copy_into(bytes: &Vec<u8>, from: usize, buf: &mut [u8]) -> (n: usize)
    requires
        from <= bytes@.len(),
    ensures
        n == min_len((bytes@.len() - from) as nat, old(buf)@.len()),
        final(buf)@ == overwritten(old(buf)@, bytes@.subrange(from as int, from + n)),
{
    let count: usize = bytes.len();
    let left: usize = count - from;
    let n: usize = if left <= buf.len() {
        left
    } else {
        buf.len()
    };
    let mut i: usize = 0;
    while i < n
        invariant
            i <= n,
            n <= left,
            n <= buf@.len(),
            count == bytes@.len(),
            from + left == count,
            buf@.len() == old(buf)@.len(),
            buf@ == overwritten(old(buf)@, bytes@.subrange(from as int, from + i)),
        decreases n - i,
    {
        buf[i] = bytes[from + i];
        i = i + 1;
        assert(buf@ =~= overwritten(old(buf)@, bytes@.subrange(from as int, from + i)));
    }
    n
}

impl Cursor {
    /// A cursor at the start of `bytes`.
    pub fn new(bytes: Vec<u8>) -> (r: Cursor)
        ensures
            r@ == bytes@,
    {
        let r: Cursor = Cursor { bytes, pos: 0 };
        assert(r@ =~= bytes@);
        r
    }

    /// The number of bytes that are left to read.
    pub fn left(&self) -> (n: usize)
        ensures
            n == self@.len(),
    {
        if self.pos <= self.bytes.len() {
            self.bytes.len() - self.pos
        } else {
            0
        }
    }

    /// Adds bytes at the end.
    pub fn append(&mut self, bytes: &[u8])
        ensures
            final(self)@ == old(self)@ + bytes@,
    {
        if self.pos > self.bytes.len() {
            self.pos = self.bytes.len();
        }
        let ghost before = self.bytes@;
        self.bytes.extend_from_slice(bytes);
        assert(self.bytes@ =~= before + bytes@);
        assert(self@ =~= old(self)@ + bytes@);
    }

    /// Copies bytes to the start of `buf` and moves past them.
    pub fn read(&mut self, buf: &mut [u8]) -> (n: usize)
        ensures
            n == min_len(old(self)@.len(), old(buf)@.len()),
            final(buf)@ == overwritten(old(buf)@, old(self)@.take(n as int)),
            final(self)@ == old(self)@.skip(n as int),
    {
        if self.pos > self.bytes.len() {
            assert(final(buf)@ =~= overwritten(buf@, old(self)@.take(0)));
            return 0;
        }
        let n: usize = copy_into(&self.bytes, self.pos, buf);
        assert(self.bytes@.subrange(self.pos as int, self.pos + n) =~= old(self)@.take(n as int));
        self.pos = self.pos + n;
        assert(self@ =~= old(self)@.skip(n as int));
        n
    }
}

/// Stands for a monitor that counts the bytes received over a connection. The counters are kept
/// by the transport, under this number.
#[derive(Clone, Copy, Debug, PartialEq, Eq, Structural)]
pub struct BandwidthMonitor {
    pub id: u64,
}

/// Where the bytes of a body come from. A reader of type `R` is polled by whoever drives the
/// body; bytes in memory are read here.
pub enum BodyImpl<R> {
    /// A request body without content.
    RequestEmpty,
    /// A request body held in memory.
    RequestBytes(Cursor),
    /// A request body from a blocking reader.
    RequestRead(R),
    /// A request body from an asynchronous reader.
    RequestAsyncRead(R),
    /// A response body received over HTTP/1.1.
    Http1(R),
    /// A response body received over HTTP/2.
    Http2(R),
}

/// What a source has left, and the reader that it has.
pub enum SourceView<R> {
    RequestEmpty,
    RequestBytes(Seq<u8>),
    RequestRead(R),
    RequestAsyncRead(R),
    Http1(R),
    Http2(R),
}

impl<R> View for BodyImpl<R> {
    type V = SourceView<R>;

    open spec fn view(&self) -> SourceView<R> {
        match *self {
            BodyImpl::RequestEmpty => SourceView::RequestEmpty,
            BodyImpl::RequestBytes(cursor) => SourceView::RequestBytes(cursor@),
            BodyImpl::RequestRead(reader) => SourceView::RequestRead(reader),
            BodyImpl::RequestAsyncRead(reader) => SourceView::RequestAsyncRead(reader),
            BodyImpl::Http1(reader) => SourceView::Http1(reader),
            BodyImpl::Http2(reader) => SourceView::Http2(reader),
        }
    }
}

/// The bytes that a source holds in memory.
pub open spec fn source_bytes<R>(source: SourceView<R>) -> Option<Seq<u8>> {
    match source {
        SourceView::RequestEmpty => Some(Seq::empty()),
        SourceView::RequestBytes(bytes) => Some(bytes),
        _ => None,
    }
}

/// A source after which `rest` is left of the bytes in memory.
pub open spec fn source_with_bytes<R>(source: SourceView<R>, rest: Seq<u8>) -> SourceView<R> {
    match source {
        SourceView::RequestBytes(_) => SourceView::RequestBytes(rest),
        _ => source,
    }
}

/// The reader of a source.
pub open spec fn source_reader<R>(source: SourceView<R>) -> Option<R> {
    match source {
        SourceView::RequestEmpty => None,
        SourceView::RequestBytes(_) => None,
        SourceView::RequestRead(reader) => Some(reader),
        SourceView::RequestAsyncRead(reader) => Some(reader),
        SourceView::Http1(reader) => Some(reader),
        SourceView::Http2(reader) => Some(reader),
    }
}

/// A source whose reader has become `reader`.
pub open spec fn source_with_reader<R>(source: SourceView<R>, reader: R) -> SourceView<R> {
    match source {
        SourceView::RequestEmpty => source,
        SourceView::RequestBytes(_) => source,
        SourceView::RequestRead(_) => SourceView::RequestRead(reader),
        SourceView::RequestAsyncRead(_) => SourceView::RequestAsyncRead(reader),
        SourceView::Http1(_) => SourceView::Http1(reader),
        SourceView::Http2(_) => SourceView::Http2(reader),
    }
}

impl<R> BodyImpl<R> {
    /// Reads bytes that are held in memory. `None` if the source is a reader.
    pub fn read_bytes(&mut self, buf: &mut [u8]) -> (r: Option<usize>)
        ensures
            match source_bytes(old(self)@) {
                Some(bytes) => {
                    let n = min_len(bytes.len(), old(buf)@.len());
                    &&& r == Some(n as usize)
                    &&& n <= usize::MAX
                    &&& final(buf)@ == overwritten(old(buf)@, bytes.take(n as int))
                    &&& final(self)@ == source_with_bytes(old(self)@, bytes.skip(n as int))
                },
                None => {
                    &&& r is None
                    &&& final(buf)@ == old(buf)@
                    &&& final(self)@ == old(self)@
                },
            },
    {
        match self {
            BodyImpl::RequestEmpty => {
                assert(overwritten(buf@, Seq::<u8>::empty().take(0)) =~= buf@);
                Some(0)
            },
            BodyImpl::RequestBytes(cursor) => Some(cursor.read(buf)),
            _ => None,
        }
    }

    /// The reader of the source, if it is not in memory.
    pub fn reader_mut(&mut self) -> (r: Option<&mut R>)
        ensures
            match r {
                Some(reader) => {
                    &&& source_reader(old(self)@) == Some(*reader)
                    &&& final(self)@ == source_with_reader(old(self)@, *final(reader))
                },
                None => source_reader(old(self)@) is None && final(self)@ == old(self)@,
            },
    {
        match self {
            BodyImpl::RequestEmpty => None,
            BodyImpl::RequestBytes(_) => None,
            BodyImpl::RequestRead(reader) => Some(reader),
            BodyImpl::RequestAsyncRead(reader) => Some(reader),
            BodyImpl::Http1(reader) => Some(reader),
            BodyImpl::Http2(reader) => Some(reader),
        }
    }
}

/// A source and how it is read.
pub struct BodyReader<R> {
    pub source: BodyImpl<R>,
    /// Small content of this source is read ahead.
    pub prebuffer: bool,
    /// Counts the bytes that are read.
    pub bw: Option<BandwidthMonitor>,
    /// The bytes that were read ahead of the source, as far as they are left.
    pub ahead: Cursor,
    /// The source was read ahead to its end.
    pub at_end: bool,
}

/// What a source has left, and how it is read.
pub struct ReaderView<R> {
    pub source: SourceView<R>,
    pub prebuffer: bool,
    pub bw: Option<BandwidthMonitor>,
    pub ahead: Seq<u8>,
    pub at_end: bool,
}

impl<R> ReaderView<R> {
    /// A source of which nothing was read.
    pub open spec fn fresh(source: SourceView<R>, prebuffer: bool) -> ReaderView<R> {
        ReaderView { source, prebuffer, bw: None, ahead: Seq::empty(), at_end: false }
    }
}

impl<R> View for BodyReader<R> {
    type V = ReaderView<R>;

    open spec fn view(&self) -> ReaderView<R> {
        ReaderView {
            source: self.source@,
            prebuffer: self.prebuffer,
            bw: self.bw,
            ahead: self.ahead@,
            at_end: self.at_end,
        }
    }
}

/// The bytes that can be read before the reader of the source is polled: those of a source in
/// memory, or those that were read ahead.
pub open spec fn ready_bytes<R>(reader: ReaderView<R>) -> Option<Seq<u8>> {
    match source_bytes(reader.source) {
        Some(bytes) => Some(bytes),
        None => if reader.ahead.len() > 0 || reader.at_end {
            Some(reader.ahead)
        } else {
            None
        },
    }
}

/// All bytes that are left, if there are none but those that can be read before the reader of the
/// source is polled.
pub open spec fn whole_bytes<R>(reader: ReaderView<R>) -> Option<Seq<u8>> {
    match source_bytes(reader.source) {
        Some(bytes) => Some(bytes),
        None => if reader.at_end {
            Some(reader.ahead)
        } else {
            None
        },
    }
}

/// A source of whose bytes that can be read without polling `rest` is left.
pub open spec fn with_ready_bytes<R>(reader: ReaderView<R>, rest: Seq<u8>) -> ReaderView<R> {
    match source_bytes(reader.source) {
        Some(_) => ReaderView { source: source_with_bytes(reader.source, rest), ..reader },
        None => ReaderView { ahead: rest, ..reader },
    }
}

/// A source after a read ahead of it came to `chunk`. There are no bytes at its end.
pub open spec fn with_chunk<R>(reader: ReaderView<R>, chunk: Seq<u8>) -> ReaderView<R> {
    if chunk.len() == 0 {
        ReaderView { at_end: true, ..reader }
    } else {
        ReaderView { ahead: reader.ahead + chunk, ..reader }
    }
}

/// The size up to which content is small, so that it is read ahead.
pub const PREBUFFER_LIMIT: usize = 16_384;

/// What is to be done to read content ahead.
#[derive(Clone, Copy, Debug, PartialEq, Eq, Structural)]
pub enum Prebuffer {
    /// Poll the reader of the source for more bytes, and report what came of it.
    ReadOn,
    /// Nothing more: the content is all there, in so many bytes.
    Complete(usize),
    /// Nothing more: the content is not small, or not one to read ahead. What was read ahead is
    /// kept.
    GiveUp,
}

/// What is to be done to read content ahead that is small if it has no more than `limit` bytes.
pub open spec fn prebuffer_step<R>(reader: ReaderView<R>, limit: nat) -> Prebuffer {
    if !reader.prebuffer {
        Prebuffer::GiveUp
    } else {
        match whole_bytes(reader) {
            Some(bytes) => if bytes.len() <= limit {
                Prebuffer::Complete(bytes.len() as usize)
            } else {
                Prebuffer::GiveUp
            },
            None => if reader.ahead.len() <= limit {
                Prebuffer::ReadOn
            } else {
                Prebuffer::GiveUp
            },
        }
    }
}

impl<R> BodyReader<R> {
    /// Reads bytes that are in memory, or were read ahead. `None` if the reader of the source is
    /// to be polled.
    pub fn read_bytes(&mut self, buf: &mut [u8]) -> (r: Option<usize>)
        ensures
            match ready_bytes(old(self)@) {
                Some(bytes) => {
                    let n = min_len(bytes.len(), old(buf)@.len());
                    &&& r == Some(n as usize)
                    &&& n <= usize::MAX
                    &&& final(buf)@ == overwritten(old(buf)@, bytes.take(n as int))
                    &&& final(self)@ == with_ready_bytes(old(self)@, bytes.skip(n as int))
                },
                None => {
                    &&& r is None
                    &&& final(buf)@ == old(buf)@
                    &&& final(self)@ == old(self)@
                },
            },
    {
        match self.source.read_bytes(buf) {
            Some(amount) => Some(amount),
            None => if self.ahead.left() > 0 || self.at_end {
                Some(self.ahead.read(buf))
            } else {
                None
            },
        }
    }

    /// Tells whether all bytes that are left can be read before the reader of the source is
    /// polled.
    pub fn is_whole(&self) -> (r: bool)
        ensures
            r == (whole_bytes(self@) is Some),
    {
        match &self.source {
            BodyImpl::RequestEmpty => true,
            BodyImpl::RequestBytes(_) => true,
            _ => self.at_end,
        }
    }

    /// Takes note of what a read ahead came to, if there was one, and decides what is to be done.
    pub fn attempt_prebuffer(&mut self, read: Option<Vec<u8>>, limit: usize) -> (r: Prebuffer)
        requires
            read is Some ==> prebuffer_step(old(self)@, limit as nat) is ReadOn,
        ensures
            final(self)@ == (match read {
                Some(chunk) => with_chunk(old(self)@, chunk@),
                None => old(self)@,
            }),
            r == prebuffer_step(final(self)@, limit as nat),
    {
        if let Some(chunk) = read {
            if chunk.len() == 0 {
                self.at_end = true;
            } else {
                self.ahead.append(chunk.as_slice());
            }
        }
        if !self.prebuffer {
            return Prebuffer::GiveUp;
        }
        let amount: usize = match &self.source {
            BodyImpl::RequestEmpty => 0,
            BodyImpl::RequestBytes(cursor) => cursor.left(),
            _ => self.ahead.left(),
        };
        if amount > limit {
            Prebuffer::GiveUp
        } else if self.is_whole() {
            Prebuffer::Complete(amount)
        } else {
            Prebuffer::ReadOn
        }
    }
}

/// The content coding of a body.
pub enum BodyCodec<R> {
    /// Not settled yet.
    Deferred(Option<BodyReader<R>>),
    /// The bytes are passed on as they are.
    Pass(BodyReader<R>),
    /// The bytes are decompressed.
    GzipDecoder(BodyReader<R>),
    /// The bytes are compressed.
    GzipEncoder(BodyReader<R>),
}

/// The content coding, and the source behind it.
pub enum CodecView<R> {
    Deferred(Option<ReaderView<R>>),
    Pass(ReaderView<R>),
    GzipDecoder(ReaderView<R>),
    GzipEncoder(ReaderView<R>),
}

impl<R> View for BodyCodec<R> {
    type V = CodecView<R>;

    open spec fn view(&self) -> CodecView<R> {
        match *self {
            BodyCodec::Deferred(Some(reader)) => CodecView::Deferred(Some(reader@)),
            BodyCodec::Deferred(None) => CodecView::Deferred(None),
            BodyCodec::Pass(reader) => CodecView::Pass(reader@),
            BodyCodec::GzipDecoder(reader) => CodecView::GzipDecoder(reader@),
            BodyCodec::GzipEncoder(reader) => CodecView::GzipEncoder(reader@),
        }
    }
}

/// The coding that a `content-encoding` stands for. `gzip` is the only one that is known; what
/// is received is decompressed, what is sent is compressed.
pub open spec fn codec_for<R>(
    reader: ReaderView<R>,
    encoding: Option<Seq<u8>>,
    is_incoming: bool,
) -> CodecView<R> {
    if encoding != Some(text_bytes("gzip"@)) {
        CodecView::Pass(reader)
    } else if is_incoming {
        CodecView::GzipDecoder(reader)
    } else {
        CodecView::GzipEncoder(reader)
    }
}

/// The bytes that come out of a coding are not as many as go in.
pub open spec fn changes_size<R>(codec: CodecView<R>) -> bool {
    codec is GzipDecoder || codec is GzipEncoder
}

/// The name of a coding.
pub open spec fn codec_text<R>(codec: CodecView<R>) -> Seq<char> {
    match codec {
        CodecView::Deferred(_) => "deferred"@,
        CodecView::Pass(_) => "pass"@,
        CodecView::GzipDecoder(_) => "gzip_dec"@,
        CodecView::GzipEncoder(_) => "gzip_enc"@,
    }
}

/// A coding before it was settled.
pub open spec fn unsettled<R>(codec: CodecView<R>) -> CodecView<R> {
    match codec {
        CodecView::Deferred(_) => codec,
        CodecView::Pass(reader) => CodecView::Deferred(Some(reader)),
        CodecView::GzipDecoder(reader) => CodecView::Deferred(Some(reader)),
        CodecView::GzipEncoder(reader) => CodecView::Deferred(Some(reader)),
    }
}

impl<R> BodyCodec<R> {
    /// A coding that is settled later.
    pub fn deferred(source: BodyImpl<R>, prebuffer: bool) -> (r: BodyCodec<R>)
        ensures
            r@ == CodecView::Deferred(Some(ReaderView::fresh(source@, prebuffer))),
    {
        let ahead: Cursor = Cursor::new(Vec::new());
        assert(ahead@ =~= Seq::empty());
        BodyCodec::Deferred(Some(BodyReader { source, prebuffer, bw: None, ahead, at_end: false }))
    }

    /// The coding that a `content-encoding` header stands for.
    pub fn from_encoding(
        reader: BodyReader<R>,
        encoding: Option<Vec<u8>>,
        is_incoming: bool,
    ) -> (r: BodyCodec<R>)
        ensures
            r@ == codec_for(
                reader@,
                match encoding {
                    Some(encoding) => Some(encoding@),
                    None => None,
                },
                is_incoming,
            ),
    {
        let gzip: bool = match encoding {
            Some(encoding) => bytes_equal(encoding.as_slice(), "gzip".as_bytes()),
            None => false,
        };
        if !gzip {
            BodyCodec::Pass(reader)
        } else if is_incoming {
            BodyCodec::GzipDecoder(reader)
        } else {
            BodyCodec::GzipEncoder(reader)
        }
    }

    /// Tells whether the bytes that come out are not as many as go in.
    pub fn affects_content_size(&self) -> (r: bool)
        ensures
            r == changes_size(self@),
    {
        match self {
            BodyCodec::Deferred(_) => false,
            BodyCodec::Pass(_) => false,
            BodyCodec::GzipDecoder(_) => true,
            BodyCodec::GzipEncoder(_) => true,
        }
    }

    /// Takes note of what a read ahead of the source came to, if there was one, and decides what
    /// is to be done to read small content ahead, before it passes through the coding.
    pub fn attempt_prebuffer(&mut self, read: Option<Vec<u8>>, limit: usize) -> (r: Prebuffer)
        requires
            read is Some ==> wants_chunk(old(self)@, limit as nat),
        ensures
            match codec_reader(old(self)@) {
                Some(reader) => {
                    let after = match read {
                        Some(chunk) => with_chunk(reader, chunk@),
                        None => reader,
                    };
                    &&& final(self)@ == codec_with_reader(old(self)@, after)
                    &&& r == prebuffer_step(after, limit as nat)
                },
                None => final(self)@ == old(self)@ && r == Prebuffer::GiveUp,
            },
    {
        match self.reader_mut() {
            Some(reader) => reader.attempt_prebuffer(read, limit),
            None => Prebuffer::GiveUp,
        }
    }

    /// The name of the coding.
    pub fn name(&self) -> (r: &'static str)
        ensures
            r@ == codec_text(self@),
    {
        match self {
            BodyCodec::Deferred(_) => "deferred",
            BodyCodec::Pass(_) => "pass",
            BodyCodec::GzipDecoder(_) => "gzip_dec",
            BodyCodec::GzipEncoder(_) => "gzip_enc",
        }
    }

    /// The coding as it was before it was settled.
    pub fn into_deferred(self) -> (r: BodyCodec<R>)
        ensures
            r@ == unsettled(self@),
    {
        match self {
            BodyCodec::Deferred(reader) => BodyCodec::Deferred(reader),
            BodyCodec::Pass(reader) => BodyCodec::Deferred(Some(reader)),
            BodyCodec::GzipDecoder(reader) => BodyCodec::Deferred(Some(reader)),
            BodyCodec::GzipEncoder(reader) => BodyCodec::Deferred(Some(reader)),
        }
    }

    /// The source behind the coding. There is none while the coding is being settled.
    pub fn reader_mut(&mut self) -> (r: Option<&mut BodyReader<R>>)
        ensures
            match r {
                Some(reader) => {
                    &&& codec_reader(old(self)@) == Some(reader@)
                    &&& final(self)@ == codec_with_reader(old(self)@, final(reader)@)
                },
                None => codec_reader(old(self)@) is None && final(self)@ == old(self)@,
            },
    {
        match self {
            BodyCodec::Deferred(Some(reader)) => Some(reader),
            BodyCodec::Deferred(None) => None,
            BodyCodec::Pass(reader) => Some(reader),
            BodyCodec::GzipDecoder(reader) => Some(reader),
            BodyCodec::GzipEncoder(reader) => Some(reader),
        }
    }
}

/// The source behind a coding, with the way in which it is read.
pub open spec fn codec_reader<R>(codec: CodecView<R>) -> Option<ReaderView<R>> {
    match codec {
        CodecView::Deferred(reader) => reader,
        CodecView::Pass(reader) => Some(reader),
        CodecView::GzipDecoder(reader) => Some(reader),
        CodecView::GzipEncoder(reader) => Some(reader),
    }
}

/// Content behind a coding is being read ahead, and more of it is to be read.
pub open spec fn wants_chunk<R>(codec: CodecView<R>, limit: nat) -> bool {
    match codec_reader(codec) {
        Some(reader) => prebuffer_step(reader, limit) is ReadOn,
        None => false,
    }
}

/// A coding whose source has become `reader`.
pub open spec fn codec_with_reader<R>(codec: CodecView<R>, reader: ReaderView<R>) -> CodecView<R> {
    match codec {
        CodecView::Deferred(Some(_)) => CodecView::Deferred(Some(reader)),
        CodecView::Deferred(None) => codec,
        CodecView::Pass(_) => CodecView::Pass(reader),
        CodecView::GzipDecoder(_) => CodecView::GzipDecoder(reader),
        CodecView::GzipEncoder(_) => CodecView::GzipEncoder(reader),
    }
}

} // verus!
