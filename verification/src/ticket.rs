//! Tickets, by which connections are told apart and count their unfinished requests.

use std::sync::atomic::AtomicBool;
use std::sync::Arc;
use vstd::prelude::*;

verus! {

/// What a connection shares with its unfinished requests: each keeps a pointer to the ticket of
/// the connection, and the connection counts the pointers. A ticket is an object of its own: one
/// that is made anew is not known to be the same, even if it has the same id.
pub struct Ticket {
    id: usize,
    // never read; sets the ticket apart from others with its id
    _identity: AtomicBool,
}

impl Ticket {
    /// The id of the connection that the ticket belongs to.
    pub closed spec fn id(&self) -> usize {
        self.id
    }

    /// The ticket of a connection that was just made.
    pub fn new(id: usize) -> (r: Ticket)
        ensures
            r.id() == id,
    {
        Ticket { id, _identity: AtomicBool::new(false) }
    }

    /// The id of the connection that the ticket belongs to.
    pub fn connection_id(&self) -> (r: usize)
        ensures
            r == self.id(),
    {
        self.id
    }
}

/// Calls `Arc::clone`, which makes another pointer to the same ticket.
#[verifier::external_body]
pub(crate) fn share(shared: &Arc<Ticket>) -> (r: Arc<Ticket>)
    ensures
        r == *shared,
{
    Arc::clone(shared)
}

/// Calls `Arc::strong_count`, the number of pointers to one ticket. The pointer that is asked is
/// one of them; how many more there are depends on what is alive at the moment, and is not
/// stated.
#[verifier::external_body]
fn strong_count(shared: &Arc<Ticket>) -> (r: usize)
    ensures
        r >= 1,
{
    Arc::strong_count(shared)
}

/// `count` is what a call of `Arc::strong_count` on a pointer to the ticket came to. Two calls may
/// come to different numbers.
pub closed spec fn is_pointer_count(ticket: Ticket, count: usize) -> bool {
    exists|pointer: Arc<Ticket>|
        *pointer == ticket && #[trigger] call_ensures(strong_count, (&pointer,), count)
}

/// The number of pointers to a ticket, at this moment.
pub(crate) fn count_pointers(pointer: &Arc<Ticket>) -> (r: usize)
    ensures
        r >= 1,
        is_pointer_count(**pointer, r),
{
    strong_count(pointer)
}

/// The id that is given out after `id`. After the largest one they start again.
pub open spec fn id_after(id: usize) -> usize {
    if id == usize::MAX {
        0
    } else {
        (id + 1) as usize
    }
}

/// The id that is given out when `count` ids were given out since `first`.
pub open spec fn nth_id(first: usize, count: nat) -> usize
    decreases count,
{
    if count == 0 {
        first
    } else {
        id_after(nth_id(first, (count - 1) as nat))
    }
}

/// Gives out the ids of connections.
pub struct IdSource {
    next: usize,
}

impl View for IdSource {
    type V = usize;

    /// The id that is given out next.
    closed spec fn view(&self) -> usize {
        self.next
    }
}

impl IdSource {
    /// A source that has given out no id yet.
    pub fn new() -> (r: IdSource)
        ensures
            r@ == 0,
    {
        IdSource { next: 0 }
    }

    /// Gives out an id.
    pub fn next_id(&mut self) -> (r: usize)
        ensures
            r == old(self)@,
            final(self)@ == id_after(old(self)@),
    {
        let id: usize = self.next;
        self.next = if id == usize::MAX {
            0
        } else {
            id + 1
        };
        id
    }
}

proof fn lemma_nth_id(first: usize, count: nat)
    requires
        count <= usize::MAX,
    ensures
        nth_id(first, count) == if first + count <= usize::MAX {
            first + count
        } else {
            first + count - usize::MAX - 1
        },
    decreases count,
{
    if count > 0 {
        lemma_nth_id(first, (count - 1) as nat);
    }
}

/// Ids are given out once, until there are no more of them.
pub proof fn law_ids_are_given_out_once(first: usize, i: nat, j: nat)
    requires
        i <= usize::MAX,
        j <= usize::MAX,
    ensures
        (nth_id(first, i) == nth_id(first, j)) == (i == j),
{
    lemma_nth_id(first, i);
    lemma_nth_id(first, j);
}

} // verus!
