//! What calls on sources and content codings come to.

use crate::codec::BodyCodec;
use crate::codec::BodyImpl;
use crate::codec::BodyReader;
use crate::codec::CodecView;
use crate::codec::Cursor;
use crate::codec::Prebuffer;
use crate::codec::ReaderView;
use crate::codec::SourceView;
use vstd::prelude::*;
use vstd::utf8::*;

verus! {

/// A read of bytes in memory comes to as many as there are and as fit. They come first in the
/// buffer, the rest of the buffer stays, and the bytes after them are left.
pub proof fn law_a_cursor_is_read_from_its_start(cursor: &mut Cursor, buf: &mut [u8], n: usize)
    requires
        call_ensures(Cursor::read, (cursor, buf), n),
    ensures
        n <= old(cursor)@.len(),
        n <= old(buf)@.len(),
        n == old(cursor)@.len() || n == old(buf)@.len(),
        final(buf)@.len() == old(buf)@.len(),
        forall|i: int| 0 <= i < n ==> final(buf)@[i] == old(cursor)@[i],
        forall|i: int| n <= i < old(buf)@.len() ==> final(buf)@[i] == old(buf)@[i],
        old(cursor)@ == old(cursor)@.take(n as int) + final(cursor)@,
{
    assert(old(cursor)@ =~= old(cursor)@.take(n as int) + final(cursor)@);
}

/// All bytes that were put into a cursor, and no others, are left in it at first; those that are
/// appended come after them.
pub proof fn law_a_cursor_holds_what_was_put_in(
    bytes: Vec<u8>,
    made: Cursor,
    more: &[u8],
    cursor: &mut Cursor,
    left: usize,
)
    requires
        call_ensures(Cursor::new, (bytes,), made),
        *old(cursor) == made,
        call_ensures(Cursor::append, (cursor, more), ()),
        call_ensures(Cursor::left, (&*final(cursor),), left),
    ensures
        made@ == bytes@,
        final(cursor)@ == bytes@ + more@,
        left == bytes@.len() + more@.len(),
{
}

/// The view of a source is what it is made of.
pub proof fn law_a_source_is_seen_as_it_is<R>(source: BodyImpl<R>)
    ensures
        match source {
            BodyImpl::RequestEmpty => source@ == SourceView::<R>::RequestEmpty,
            BodyImpl::RequestBytes(cursor) => source@ == SourceView::<R>::RequestBytes(cursor@),
            BodyImpl::RequestRead(reader) => source@ == SourceView::RequestRead(reader),
            BodyImpl::RequestAsyncRead(reader) => source@ == SourceView::RequestAsyncRead(reader),
            BodyImpl::Http1(reader) => source@ == SourceView::Http1(reader),
            BodyImpl::Http2(reader) => source@ == SourceView::Http2(reader),
        },
{
}

/// The view of a source with what was read ahead of it is what they are made of.
pub proof fn law_a_reader_is_seen_as_it_is<R>(reader: BodyReader<R>)
    ensures
        reader@.source == reader.source@,
        reader@.prebuffer == reader.prebuffer,
        reader@.bw == reader.bw,
        reader@.ahead == reader.ahead@,
        reader@.at_end == reader.at_end,
{
}

/// The view of a coding is the coding and its source.
pub proof fn law_a_coding_is_seen_as_it_is<R>(codec: BodyCodec<R>)
    ensures
        match codec {
            BodyCodec::Deferred(Some(reader)) => codec@ == CodecView::Deferred(Some(reader@)),
            BodyCodec::Deferred(None) => codec@ == CodecView::<R>::Deferred(None),
            BodyCodec::Pass(reader) => codec@ == CodecView::Pass(reader@),
            BodyCodec::GzipDecoder(reader) => codec@ == CodecView::GzipDecoder(reader@),
            BodyCodec::GzipEncoder(reader) => codec@ == CodecView::GzipEncoder(reader@),
        },
{
}

/// Bytes in memory are read in their order and none is dropped: what a read comes to, followed by
/// what is left, is what there was. A source that is not in memory is not touched.
pub proof fn law_a_source_in_memory_drops_nothing<R>(
    source: &mut BodyImpl<R>,
    buf: &mut [u8],
    r: Option<usize>,
)
    requires
        call_ensures(BodyImpl::<R>::read_bytes, (source, buf), r),
    ensures
        final(buf)@.len() == old(buf)@.len(),
        match old(source)@ {
            SourceView::RequestEmpty => {
                &&& r == Some(0usize)
                &&& final(source)@ == old(source)@
                &&& final(buf)@ == old(buf)@
            },
            SourceView::RequestBytes(bytes) => {
                &&& r is Some
                &&& r->0 == bytes.len() || r->0 == old(buf)@.len()
                &&& r->0 <= bytes.len()
                &&& final(source)@ is RequestBytes
                &&& bytes == final(buf)@.take(r->0 as int) + final(source)@->RequestBytes_0
                &&& final(buf)@.skip(r->0 as int) == old(buf)@.skip(r->0 as int)
            },
            _ => r is None && final(source)@ == old(source)@ && final(buf)@ == old(buf)@,
        },
{
    if old(source)@ is RequestBytes {
        let bytes = old(source)@->RequestBytes_0;
        let n = r->0 as int;
        assert(bytes =~= final(buf)@.take(n) + final(source)@->RequestBytes_0);
        assert(final(buf)@.skip(n) =~= old(buf)@.skip(n));
    } else if old(source)@ is RequestEmpty {
        assert(final(buf)@ =~= old(buf)@);
    }
}

/// The same of a source with what was read ahead of it: a reader gives what was read ahead, in its
/// order and to the last byte, before it is to be polled, and is not polled once its end was seen.
pub proof fn law_a_reader_drops_nothing<R>(
    reader: &mut BodyReader<R>,
    buf: &mut [u8],
    r: Option<usize>,
)
    requires
        call_ensures(BodyReader::<R>::read_bytes, (reader, buf), r),
    ensures
        final(buf)@.len() == old(buf)@.len(),
        final(reader)@.prebuffer == old(reader)@.prebuffer,
        final(reader)@.bw == old(reader)@.bw,
        final(reader)@.at_end == old(reader)@.at_end,
        r is Some ==> r->0 <= old(buf)@.len() && final(buf)@.skip(r->0 as int) == old(buf)@.skip(
            r->0 as int,
        ),
        match old(reader)@.source {
            SourceView::RequestEmpty => {
                &&& r == Some(0usize)
                &&& final(reader)@ == old(reader)@
            },
            SourceView::RequestBytes(bytes) => {
                &&& r is Some
                &&& r->0 == bytes.len() || r->0 == old(buf)@.len()
                &&& final(reader)@.source is RequestBytes
                &&& bytes == final(buf)@.take(r->0 as int)
                    + final(reader)@.source->RequestBytes_0
                &&& final(reader)@.ahead == old(reader)@.ahead
            },
            _ => {
                &&& final(reader)@.source == old(reader)@.source
                &&& (r is None) == (old(reader)@.ahead.len() == 0 && !old(reader)@.at_end)
                &&& r is Some ==> {
                    &&& r->0 == old(reader)@.ahead.len() || r->0 == old(buf)@.len()
                    &&& old(reader)@.ahead == final(buf)@.take(r->0 as int) + final(reader)@.ahead
                }
                &&& r is None ==> final(reader)@ == old(reader)@ && final(buf)@ == old(buf)@
            },
        },
{
    if r is Some {
        let n = r->0 as int;
        assert(final(buf)@.skip(n) =~= old(buf)@.skip(n));
        match old(reader)@.source {
            SourceView::RequestEmpty => {},
            SourceView::RequestBytes(bytes) => {
                assert(bytes =~= final(buf)@.take(n) + final(reader)@.source->RequestBytes_0);
            },
            _ => {
                assert(old(reader)@.ahead =~= final(buf)@.take(n) + final(reader)@.ahead);
            },
        }
    }
}

/// All of the content is there before the reader of a source is polled if it is in memory, or if
/// the end of the reader was seen.
pub proof fn law_what_is_whole<R>(reader: BodyReader<R>, r: bool)
    requires
        call_ensures(BodyReader::<R>::is_whole, (&reader,), r),
    ensures
        r == match reader.source {
            BodyImpl::RequestEmpty => true,
            BodyImpl::RequestBytes(_) => true,
            _ => reader.at_end,
        },
{
}

/// A coding that is settled later keeps its source, of which nothing was read.
pub proof fn law_a_deferred_coding_keeps_its_source<R>(
    source: BodyImpl<R>,
    prebuffer: bool,
    r: BodyCodec<R>,
)
    requires
        call_ensures(BodyCodec::<R>::deferred, (source, prebuffer), r),
    ensures
        r@ == CodecView::Deferred(
            Some(
                ReaderView {
                    source: source@,
                    prebuffer,
                    bw: None,
                    ahead: Seq::empty(),
                    at_end: false,
                },
            ),
        ),
{
}

/// The coding of a `content-encoding` is gzip if that is what it says, byte for byte, and none
/// otherwise.
pub proof fn law_gzip_is_the_only_encoding<R>(
    reader: BodyReader<R>,
    encoding: Option<Vec<u8>>,
    is_incoming: bool,
    r: BodyCodec<R>,
)
    requires
        call_ensures(BodyCodec::<R>::from_encoding, (reader, encoding, is_incoming), r),
    ensures
        r@ == if encoding is Some && encoding->0@ == encode_utf8("gzip"@) {
            if is_incoming {
                CodecView::GzipDecoder(reader@)
            } else {
                CodecView::GzipEncoder(reader@)
            }
        } else {
            CodecView::Pass(reader@)
        },
{
}

/// Only gzip affects the size of content.
pub proof fn law_only_gzip_affects_the_size<R>(codec: BodyCodec<R>, r: bool, name: &'static str)
    requires
        call_ensures(BodyCodec::<R>::affects_content_size, (&codec,), r),
        call_ensures(BodyCodec::<R>::name, (&codec,), name),
    ensures
        match codec {
            BodyCodec::Deferred(_) => !r && name@ == "deferred"@,
            BodyCodec::Pass(_) => !r && name@ == "pass"@,
            BodyCodec::GzipDecoder(_) => r && name@ == "gzip_dec"@,
            BodyCodec::GzipEncoder(_) => r && name@ == "gzip_enc"@,
        },
{
}

/// A coding that is unsettled again has the source that it had.
pub proof fn law_an_unsettled_coding_keeps_its_source<R>(codec: BodyCodec<R>, r: BodyCodec<R>)
    requires
        call_ensures(BodyCodec::<R>::into_deferred, (codec,), r),
    ensures
        match codec@ {
            CodecView::Deferred(reader) => r@ == CodecView::Deferred(reader),
            CodecView::Pass(reader) => r@ == CodecView::Deferred(Some(reader)),
            CodecView::GzipDecoder(reader) => r@ == CodecView::Deferred(Some(reader)),
            CodecView::GzipEncoder(reader) => r@ == CodecView::Deferred(Some(reader)),
        },
{
}

/// What is read ahead of a source is added to what was, and a read without bytes is its end. What
/// comes of it depends on how much there is: content of no more than `limit` bytes is complete when
/// all of it is there, and read on before that. More than that, or what is not to be read ahead, is
/// given up.
pub proof fn law_small_content_is_read_on_to_its_end<R>(
    reader: &mut BodyReader<R>,
    read: Option<Vec<u8>>,
    limit: usize,
    r: Prebuffer,
)
    requires
        call_ensures(BodyReader::<R>::attempt_prebuffer, (reader, read, limit), r),
    ensures
        final(reader)@.source == old(reader)@.source,
        final(reader)@.prebuffer == old(reader)@.prebuffer,
        final(reader)@.bw == old(reader)@.bw,
        final(reader)@.ahead == match read {
            Some(chunk) => old(reader)@.ahead + chunk@,
            None => old(reader)@.ahead,
        },
        final(reader)@.at_end == (old(reader)@.at_end || read is Some && read->0@.len() == 0),
        !old(reader)@.prebuffer ==> r == Prebuffer::GiveUp,
        old(reader)@.prebuffer ==> match old(reader)@.source {
            SourceView::RequestEmpty => r == Prebuffer::Complete(0),
            SourceView::RequestBytes(bytes) => if bytes.len() <= limit {
                r is Complete && r->Complete_0 == bytes.len()
            } else {
                r is GiveUp
            },
            _ => if final(reader)@.ahead.len() > limit {
                r is GiveUp
            } else if final(reader)@.at_end {
                r is Complete && r->Complete_0 == final(reader)@.ahead.len()
            } else {
                r is ReadOn
            },
        },
{
    if read is Some && read->0@.len() == 0 {
        assert(old(reader)@.ahead + read->0@ =~= old(reader)@.ahead);
    }
}

/// Content behind a coding is read ahead as its source is, and the coding stays.
pub proof fn law_a_coding_is_read_ahead_by_its_source<R>(
    codec: &mut BodyCodec<R>,
    reader: &mut BodyReader<R>,
    read: Option<Vec<u8>>,
    limit: usize,
    r: Prebuffer,
    of_reader: Prebuffer,
)
    requires
        call_ensures(BodyCodec::<R>::attempt_prebuffer, (codec, read, limit), r),
        call_ensures(BodyReader::<R>::attempt_prebuffer, (reader, read, limit), of_reader),
        match old(codec)@ {
            CodecView::Deferred(inner) => inner is None || inner->0 == old(reader)@,
            CodecView::Pass(inner) => inner == old(reader)@,
            CodecView::GzipDecoder(inner) => inner == old(reader)@,
            CodecView::GzipEncoder(inner) => inner == old(reader)@,
        },
    ensures
        match old(codec)@ {
            CodecView::Deferred(None) => r is GiveUp && final(codec)@ == old(codec)@,
            CodecView::Deferred(Some(_)) => r == of_reader && final(codec)@ == CodecView::Deferred(
                Some(final(reader)@),
            ),
            CodecView::Pass(_) => r == of_reader && final(codec)@ == CodecView::Pass(
                final(reader)@,
            ),
            CodecView::GzipDecoder(_) => r == of_reader && final(codec)@ == CodecView::GzipDecoder(
                final(reader)@,
            ),
            CodecView::GzipEncoder(_) => r == of_reader && final(codec)@ == CodecView::GzipEncoder(
                final(reader)@,
            ),
        },
{
}

/// The source behind a coding is that of the coding, and a change of it changes nothing else.
pub proof fn law_the_source_behind_a_coding<R>(
    codec: &mut BodyCodec<R>,
    r: Option<&mut BodyReader<R>>,
)
    requires
        call_ensures(BodyCodec::<R>::reader_mut, (codec,), r),
    ensures
        match old(codec)@ {
            CodecView::Deferred(None) => r is None && final(codec)@ == old(codec)@,
            CodecView::Deferred(Some(reader)) => r matches Some(r) && r@ == reader && final(codec)@
                == CodecView::Deferred(Some(final(r)@)),
            CodecView::Pass(reader) => r matches Some(r) && r@ == reader && final(codec)@
                == CodecView::Pass(final(r)@),
            CodecView::GzipDecoder(reader) => r matches Some(r) && r@ == reader && final(codec)@
                == CodecView::GzipDecoder(final(r)@),
            CodecView::GzipEncoder(reader) => r matches Some(r) && r@ == reader && final(codec)@
                == CodecView::GzipEncoder(final(r)@),
        },
{
}

/// The reader of a source is the one that it was made with, and a change of it changes nothing
/// else.
pub proof fn law_the_reader_of_a_source<R>(source: &mut BodyImpl<R>, r: Option<&mut R>)
    requires
        call_ensures(BodyImpl::<R>::reader_mut, (source,), r),
    ensures
        match old(source)@ {
            SourceView::RequestEmpty => r is None && final(source)@ == old(source)@,
            SourceView::RequestBytes(_) => r is None && final(source)@ == old(source)@,
            SourceView::RequestRead(reader) => r matches Some(r) && *r == reader && final(source)@
                == SourceView::RequestRead(*final(r)),
            SourceView::RequestAsyncRead(reader) => r matches Some(r) && *r == reader
                && final(source)@ == SourceView::RequestAsyncRead(*final(r)),
            SourceView::Http1(reader) => r matches Some(r) && *r == reader && final(source)@
                == SourceView::Http1(*final(r)),
            SourceView::Http2(reader) => r matches Some(r) && *r == reader && final(source)@
                == SourceView::Http2(*final(r)),
        },
{
}

} // verus!
