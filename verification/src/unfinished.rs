//! How the count of the unfinished requests of a connection goes up and down.
//!
//! The count is that of the pointers to the ticket of the connection that are alive, but for its
//! own. Here the pointers are written down as the tickets that they point to.

use crate::body::after_read;
use crate::body::begun;
use crate::body::configured;
use crate::body::discarded;
use crate::body::exhausted;
use crate::body::local_bytes;
use crate::body::with_local_bytes;
use crate::body::BodyView;
use crate::body::ReadStep;
use crate::codec::min_len;
use crate::codec::BandwidthMonitor;
use crate::conn::ConnectionView;
use crate::params::HReqParams;
use crate::ticket::Ticket;
use vstd::multiset::Multiset;
use vstd::prelude::*;

verus! {

/// The number of unfinished requests of a connection, where `pointers` are all that are alive.
pub open spec fn unfinished_count(pointers: Multiset<Ticket>, conn: ConnectionView) -> int {
    pointers.count(conn.ticket) - 1
}

/// The connection has its own pointer.
pub open spec fn is_alive(pointers: Multiset<Ticket>, conn: ConnectionView) -> bool {
    pointers.count(conn.ticket) >= 1
}

/// The body has a pointer to the ticket of the connection, beside that of the connection itself.
pub open spec fn is_counted<R>(
    pointers: Multiset<Ticket>,
    conn: ConnectionView,
    body: BodyView<R>,
) -> bool {
    body.unfinished == Some(conn.ticket) && pointers.count(conn.ticket) >= 2
}

/// The pointers after one to this ticket is gone.
pub open spec fn without_pointer(pointers: Multiset<Ticket>, ticket: Option<Ticket>) -> Multiset<
    Ticket,
> {
    match ticket {
        Some(ticket) => pointers.remove(ticket),
        None => pointers,
    }
}

/// The pointers after a body has become `after`, which keeps the ticket it had, or gave it up.
pub open spec fn pointers_after<R>(
    pointers: Multiset<Ticket>,
    before: BodyView<R>,
    after: BodyView<R>,
) -> Multiset<Ticket> {
    if after.unfinished == before.unfinished {
        pointers
    } else {
        without_pointer(pointers, before.unfinished)
    }
}

/// A body after a number of reads, each of which came to so many bytes.
pub open spec fn after_reads<R>(body: BodyView<R>, amounts: Seq<nat>) -> BodyView<R>
    decreases amounts.len(),
{
    if amounts.len() == 0 {
        body
    } else {
        after_read(begun(after_reads(body, amounts.drop_last())), amounts.last())
    }
}

/// A body that is discarded, and whether it is at its end, after polling its reader came to these
/// amounts, one after the other.
pub open spec fn discarded_by<R>(body: BodyView<R>, amounts: Seq<usize>) -> (
    BodyView<R>,
    Result<(), ReadStep>,
)
    decreases amounts.len(),
{
    if amounts.len() == 0 {
        discarded(body, None, false)
    } else {
        discarded(discarded_by(body, amounts.drop_last()).0, Some(amounts.last()), false)
    }
}

/// A request that was begun counts as one more unfinished request of its connection, and of no
/// other. The body of its response takes the count over. When the body is dropped, or the request
/// fails before there is one, the count is what it was.
pub proof fn law_a_begun_request_is_counted<R>(
    pointers: Multiset<Ticket>,
    conn: ConnectionView,
    other: ConnectionView,
    response: BodyView<R>,
    bw: Option<BandwidthMonitor>,
    params: HReqParams,
    contents: Map<Seq<char>, Seq<Seq<u8>>>,
)
    requires
        is_alive(pointers, conn),
    ensures
        ({
            let begun = pointers.insert(conn.ticket);
            let body = configured(
                BodyView { unfinished: Some(conn.ticket), bw, ..response },
                params,
                contents,
                true,
            );
            &&& unfinished_count(begun, conn) == unfinished_count(pointers, conn) + 1
            &&& other.id() != conn.id() ==> unfinished_count(begun, other) == unfinished_count(
                pointers,
                other,
            )
            &&& is_counted(begun, conn, body)
            &&& without_pointer(begun, Some(conn.ticket)) == pointers
            &&& without_pointer(begun, body.unfinished) == pointers
        }),
{
    assert(pointers.insert(conn.ticket).remove(conn.ticket) =~= pointers);
}

/// A read that comes to no bytes ends the count of a body, and lowers that of its connection by
/// one. A read that comes to some bytes, fails or has to wait leaves it.
pub proof fn law_a_read_without_bytes_ends_the_count<R>(
    pointers: Multiset<Ticket>,
    conn: ConnectionView,
    body: BodyView<R>,
    amount: nat,
)
    requires
        is_counted(pointers, conn, body),
    ensures
        ({
            let after = pointers_after(pointers, body, after_read(body, amount));
            unfinished_count(after, conn) == unfinished_count(pointers, conn) - if amount == 0 {
                1int
            } else {
                0
            }
        }),
        pointers_after(pointers, body, begun(body)) == pointers,
{
}

/// The same of bytes in memory: a read into a buffer that is not empty ends the count if nothing
/// is left, and only then.
pub proof fn law_the_end_of_content_ends_the_count<R>(
    pointers: Multiset<Ticket>,
    conn: ConnectionView,
    body: BodyView<R>,
    content: Seq<u8>,
    size: nat,
)
    requires
        is_counted(pointers, conn, body),
        local_bytes(body) == Some(content),
        size > 0,
    ensures
        ({
            let n = min_len(content.len(), size);
            let read = after_read(with_local_bytes(begun(body), content.skip(n as int)), n);
            let after = pointers_after(pointers, body, read);
            unfinished_count(after, conn) == unfinished_count(pointers, conn) - if content.len()
                == 0 {
                1int
            } else {
                0
            }
        }),
{
}

/// However often a body is read, it ends its count once: with the first read that comes to no
/// bytes. Until then the connection counts it, and from then on no more reads lower the count.
pub proof fn law_a_body_ends_its_count_once<R>(
    pointers: Multiset<Ticket>,
    conn: ConnectionView,
    body: BodyView<R>,
    amounts: Seq<nat>,
)
    requires
        is_counted(pointers, conn, body),
    ensures
        ({
            let after = pointers_after(pointers, body, after_reads(body, amounts));
            unfinished_count(after, conn) == unfinished_count(pointers, conn) - if amounts.contains(
                0,
            ) {
                1int
            } else {
                0
            }
        }),
        after_reads(body, amounts).unfinished == if amounts.contains(0) {
            None
        } else {
            Some(conn.ticket)
        },
    decreases amounts.len(),
{
    if amounts.len() > 0 {
        let before = amounts.drop_last();
        law_a_body_ends_its_count_once(pointers, conn, body, before);
        assert(amounts =~= before.push(amounts.last()));
        if before.contains(0) {
            let i = before.index_of(0);
            assert(amounts[i] == 0);
        }
        if amounts.last() == 0 {
            assert(amounts[amounts.len() - 1] == 0);
        }
        if amounts.contains(0) && amounts.last() != 0 {
            let i = amounts.index_of(0);
            assert(before[i] == 0);
        }
    }
}

/// A body that was read to the end is not counted any more, has nothing left to read, and stays
/// so.
pub proof fn law_a_body_at_its_end_is_not_counted<R>(
    pointers: Multiset<Ticket>,
    conn: ConnectionView,
    body: BodyView<R>,
)
    requires
        is_counted(pointers, conn, body),
        local_bytes(body) is Some,
    ensures
        ({
            let after = pointers_after(pointers, body, exhausted(body));
            &&& unfinished_count(after, conn) == unfinished_count(pointers, conn) - 1
            &&& pointers_after(after, exhausted(body), exhausted(exhausted(body))) == after
        }),
        local_bytes(exhausted(body)) == Some(Seq::<u8>::empty()),
{
}

/// A body that is discarded, from memory or from a reader, lowers the count of its connection by one
/// when it is at its end. As long as its reader is to be polled, or if its deadline passes, it is
/// counted.
pub proof fn law_a_discarded_body_is_not_counted<R>(
    pointers: Multiset<Ticket>,
    conn: ConnectionView,
    body: BodyView<R>,
    read: Option<usize>,
    deadline_passed: bool,
)
    requires
        is_counted(pointers, conn, body),
    ensures
        ({
            let (after, result) = discarded(body, read, deadline_passed);
            let left = pointers_after(pointers, body, after);
            &&& result is Ok ==> after.unfinished is None && unfinished_count(left, conn)
                == unfinished_count(pointers, conn) - 1
            &&& result is Err ==> after.unfinished == body.unfinished && left == pointers
        }),
{
}

/// Discarding goes on until the reader of a body comes to its end: with every read that comes to
/// some bytes it is to be polled again, as long as the deadline has not passed. The first read
/// without bytes ends it.
pub proof fn law_discarding_reads_to_the_end<R>(body: BodyView<R>, amounts: Seq<usize>)
    requires
        local_bytes(body) is None,
        forall|i: int| 0 <= i < amounts.len() ==> #[trigger] amounts[i] > 0,
    ensures
        ({
            let (after, result) = discarded_by(body, amounts);
            &&& result == Err::<(), ReadStep>(
                ReadStep::Source { char_codec: body.char_codec is Some },
            )
            &&& after == begun(body)
            &&& discarded(after, Some(0usize), false) == (
                after_read(after, 0),
                Ok::<(), ReadStep>(()),
            )
        }),
    decreases amounts.len(),
{
    if amounts.len() > 0 {
        law_discarding_reads_to_the_end(body, amounts.drop_last());
    }
}

} // verus!
