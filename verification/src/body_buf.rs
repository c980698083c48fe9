//! Retains a request body while it is sent, so that it can be sent again.

use crate::codec::copy_into;
use crate::codec::min_len;
use crate::codec::overwritten;
use vstd::prelude::*;

verus! {

/// Body buffer, used to retain a sent body for cases where we want to handle 307/308 redirects.
/// The buffer is always present, but might be inert if the internal vec is `None`.
pub struct BodyBuf<B> {
    vec: Option<Vec<u8>>,
    capacity: usize,
    read_idx: usize,
    // the body of the request, on its way back to the agent.
    return_body: Option<B>,
}

/// The state of a body buffer.
pub struct BufView<B> {
    /// The bytes that are retained. `None` if the buffer is inert.
    pub data: Option<Seq<u8>>,
    /// The number of bytes that can be retained.
    pub capacity: nat,
    /// The number of retained bytes that were read since the last reset.
    pub read_idx: nat,
    /// The body that is handed back.
    pub return_body: Option<B>,
}

impl<B> BufView<B> {
    /// The buffer retains no more than it can, and has been read no further than it goes.
    pub open spec fn wf(self) -> bool {
        match self.data {
            Some(data) => self.read_idx <= data.len() <= self.capacity,
            None => true,
        }
    }

    /// The retained bytes.
    pub open spec fn retained(self) -> Seq<u8> {
        match self.data {
            Some(data) => data,
            None => Seq::empty(),
        }
    }

    /// The retained bytes that have not been read.
    pub open spec fn unread(self) -> Seq<u8> {
        match self.data {
            Some(data) => data.skip(self.read_idx as int),
            None => Seq::empty(),
        }
    }

    /// The buffer after `bytes` were appended: it becomes inert if they do not fit.
    pub open spec fn appended(self, bytes: Seq<u8>) -> BufView<B> {
        match self.data {
            Some(data) => if data.len() + bytes.len() > self.capacity {
                BufView { data: None, ..self }
            } else {
                BufView { data: Some(data + bytes), ..self }
            },
            None => self,
        }
    }

    /// The buffer after `amount` bytes were read.
    pub open spec fn advanced(self, amount: nat) -> BufView<B> {
        match self.data {
            Some(_) => BufView { read_idx: self.read_idx + amount, ..self },
            None => self,
        }
    }

    /// The buffer after a reset.
    pub open spec fn rewound(self, keep_data: bool) -> BufView<B> {
        BufView {
            data: if keep_data || self.data is None {
                self.data
            } else {
                Some(Seq::empty())
            },
            capacity: self.capacity,
            read_idx: 0,
            return_body: None,
        }
    }
}

impl<B> View for BodyBuf<B> {
    type V = BufView<B>;

    closed spec fn view(&self) -> BufView<B> {
        BufView {
            data: match self.vec {
                Some(vec) => Some(vec@),
                None => None,
            },
            capacity: self.capacity as nat,
            read_idx: self.read_idx as nat,
            return_body: self.return_body,
        }
    }
}

impl<B> BodyBuf<B> {
    /// A buffer that can retain `size` bytes. It is inert if that is none.
    pub fn new(size: usize) -> (r: BodyBuf<B>)
        requires
            size <= isize::MAX,
        ensures
            r@.wf(),
            r@ == (BufView::<B> {
                data: if size == 0 {
                    None
                } else {
                    Some(Seq::empty())
                },
                capacity: size as nat,
                read_idx: 0,
                return_body: None,
            }),
    {
        let vec: Option<Vec<u8>> = if size == 0 {
            None
        } else {
            Some(Vec::with_capacity(size))
        };
        BodyBuf { vec, capacity: size, read_idx: 0, return_body: None }
    }

    /// Reset the body buffer back to 0 optionally retaining the data that has been appended.
    ///
    /// NB: Returning a body here allows us to pass the body of the request
    /// back to the agent in case we need it for the next request.
    pub fn reset(&mut self, keep_data: bool) -> (r: Option<B>)
        requires
            old(self)@.wf(),
        ensures
            final(self)@.wf(),
            final(self)@ == old(self)@.rewound(keep_data),
            r == (if keep_data {
                old(self)@.return_body
            } else {
                None
            }),
    {
        self.read_idx = 0;
        if keep_data {
            self.return_body.take()
        } else {
            if let Some(vec) = &mut self.vec {
                vec.clear();
            }
            self.return_body = None;
            None
        }
    }

    /// Append more data to this buffer. If the amount of data to append is more than the
    /// buffer capacity, the buffer is cleared and no data is retained anymore.
    pub fn append(&mut self, buf: &[u8])
        requires
            old(self)@.wf(),
        ensures
            final(self)@.wf(),
            final(self)@ == old(self)@.appended(buf@),
    {
        if let Some(vec) = &mut self.vec {
            let remaining: usize = self.capacity - vec.len();
            if buf.len() > remaining {
                self.vec = None;
                return;
            }
            let ghost before = vec@;
            vec.extend_from_slice(buf);
            assert(vec@ =~= before + buf@);
        }
    }

    /// Current amount of retained bytes.
    pub fn len(&self) -> (r: usize)
        ensures
            r == self@.retained().len(),
    {
        match &self.vec {
            Some(vec) => vec.len(),
            None => 0,
        }
    }

    /// Read from this buffer without dropping any data.
    pub fn read(&mut self, buf: &mut [u8]) -> (n: usize)
        requires
            old(self)@.wf(),
        ensures
            final(self)@.wf(),
            n == min_len(old(self)@.unread().len(), old(buf)@.len()),
            final(buf)@ == overwritten(old(buf)@, old(self)@.unread().take(n as int)),
            final(self)@ == old(self)@.advanced(n as nat),
    {
        match &self.vec {
            Some(vec) => {
                let amt: usize = copy_into(vec, self.read_idx, buf);
                assert(vec@.subrange(self.read_idx as int, self.read_idx + amt)
                    =~= self@.unread().take(amt as int));
                self.read_idx = self.read_idx + amt;
                amt
            },
            None => {
                assert(overwritten(buf@, self@.unread().take(0)) =~= buf@);
                0
            },
        }
    }

    /// Passes a body back with the buffer.
    pub fn set_return_body(&mut self, body: B)
        requires
            old(self)@.wf(),
        ensures
            final(self)@.wf(),
            final(self)@ == (BufView { return_body: Some(body), ..old(self)@ }),
    {
        self.return_body = Some(body);
    }
}

/// Nothing is dropped by reading: what is retained stays retained.
pub proof fn law_reading_drops_nothing<B>(buf: BufView<B>, amount: nat)
    ensures
        buf.advanced(amount).data == buf.data,
{
}

/// After a reset that keeps the data, all that is retained can be read again.
pub proof fn law_retained_data_is_read_again<B>(buf: BufView<B>)
    ensures
        buf.rewound(true).unread() == buf.retained(),
{
    assert(buf.rewound(true).unread() =~= buf.retained());
}

/// A reset that does not keep the data leaves a buffer of the same capacity with nothing in it.
pub proof fn law_reset_clears<B>(buf: BufView<B>)
    ensures
        buf.rewound(false).retained().len() == 0,
        buf.rewound(false).capacity == buf.capacity,
        buf.rewound(false).return_body is None,
        buf.rewound(false).data is None == buf.data is None,
{
}

/// A buffer retains all that was appended, or nothing: it becomes inert with the first byte too
/// many, and stays so.
pub proof fn law_all_or_nothing_is_retained<B>(buf: BufView<B>, first: Seq<u8>, second: Seq<u8>)
    requires
        buf.wf(),
    ensures
        buf.appended(first).appended(second) == buf.appended(first + second),
        buf.data is None ==> {
            &&& buf.appended(first).data is None
            &&& buf.rewound(true).data is None
            &&& buf.rewound(false).data is None
        },
{
    if buf.data is Some {
        assert((buf.data->0 + first) + second =~= buf.data->0 + (first + second));
    }
}

} // verus!
