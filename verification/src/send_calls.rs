//! What calls that send a request body, and retain it, come to.

use crate::body::Body;
use crate::body_buf::BodyBuf;
use crate::body_buf::BufView;
use crate::send::has_no_body;
use crate::send::ActionView;
use crate::send::EventView;
use crate::send::RequestSender;
use crate::send::SendAction;
use crate::send::SendEvent;
use crate::send::SendPhase;
use crate::send::SendState;
use vstd::prelude::*;

verus! {

/// A request goes without a body only if its body is known to have no bytes and none are retained:
/// a body of any other length, or of an unknown one, never goes without, whatever codecs it passes
/// through.
pub proof fn law_only_an_empty_body_is_left_out<R, B>(
    body: Body<R>,
    buf: BodyBuf<B>,
    r: bool,
    retained: usize,
    no_body: bool,
)
    requires
        call_ensures(has_no_body::<R, B>, (&body, &buf), r),
        call_ensures(BodyBuf::<B>::len, (&buf,), retained),
        call_ensures(Body::<R>::is_definitely_no_body, (&body,), no_body),
    ensures
        body@.length is None ==> !r,
        body@.length is Some && body@.length->0 > 0 ==> !r,
        retained > 0 ==> !r,
        body@.length == Some(0u64) && retained == 0 ==> r,
        r == (no_body && retained == 0),
        retained == match buf@.data {
            Some(data) => data.len(),
            None => 0,
        },
{
}

/// A body that was made of some bytes is never left out.
pub proof fn law_a_body_of_bytes_is_sent<R, B>(
    bytes: Vec<u8>,
    made: Body<R>,
    changed: Body<R>,
    buf: BodyBuf<B>,
    r: bool,
)
    requires
        call_ensures(Body::<R>::from_vec, (bytes,), made),
        bytes@.len() > 0,
        changed@.length == made@.length,
        call_ensures(has_no_body::<R, B>, (&changed, &buf), r),
    ensures
        !r,
{
    assert(bytes.len() > 0);
}

/// The view of an event, and of an action, is what it is made of.
pub proof fn law_steps_are_seen_as_they_are(event: SendEvent, action: SendAction)
    ensures
        match event {
            SendEvent::Opened => event@ == EventView::Opened,
            SendEvent::ResponsePending => event@ == EventView::ResponsePending,
            SendEvent::ResponseReady => event@ == EventView::ResponseReady,
            SendEvent::BodyChunk(bytes) => event@ == EventView::BodyChunk(bytes@),
            SendEvent::DataSent => event@ == EventView::DataSent,
            SendEvent::EndSent => event@ == EventView::EndSent,
        },
        match action {
            SendAction::PollResponse => action@ == ActionView::PollResponse,
            SendAction::ReadBody => action@ == ActionView::ReadBody,
            SendAction::SendData(bytes) => action@ == ActionView::SendData(bytes@),
            SendAction::SendEnd => action@ == ActionView::SendEnd,
            SendAction::AwaitResponse => action@ == ActionView::AwaitResponse,
            SendAction::Finish => action@ == ActionView::Finish,
        },
{
}

/// A sender begins with its body, before the request was opened.
pub proof fn law_a_sender_begins_with_its_body<B>(body: B, no_body: bool, r: RequestSender<B>)
    requires
        call_ensures(RequestSender::<B>::new, (body, no_body), r),
    ensures
        r.body() == Some(body),
        r.state() == (SendState {
            phase: SendPhase::Opening,
            no_body,
            use_body_buf: true,
            early_response: false,
        }),
{
}

/// The body of a sender is the one that it has, and its phase the one that it is in.
pub proof fn law_the_body_of_a_sender<B>(
    sender: &mut RequestSender<B>,
    r: Option<&mut B>,
    phase: SendPhase,
)
    requires
        call_ensures(RequestSender::<B>::body_mut, (sender,), r),
        call_ensures(RequestSender::<B>::phase, (&*old(sender),), phase),
    ensures
        final(sender).state() == old(sender).state(),
        phase == old(sender).state().phase,
        (r is None) == (old(sender).body() is None),
        r is None ==> final(sender).body() is None,
        r matches Some(body) ==> old(sender).body() == Some(*body) && final(sender).body() == Some(
            *final(body),
        ),
{
}

/// Once a request is opened the response is looked at before anything is sent. A request without a
/// body waits for it.
pub proof fn law_an_opened_request_looks_for_the_response<B>(
    sender: &mut RequestSender<B>,
    buf: &mut BodyBuf<B>,
    limit: usize,
    r: SendAction,
)
    requires
        call_ensures(RequestSender::<B>::step, (sender, SendEvent::Opened, buf, limit), r),
    ensures
        final(buf)@ == old(buf)@,
        final(sender).body() == old(sender).body(),
        final(sender).state().no_body == old(sender).state().no_body,
        final(sender).state().use_body_buf == old(sender).state().use_body_buf,
        final(sender).state().early_response == old(sender).state().early_response,
        old(sender).state().no_body ==> r is AwaitResponse && final(sender).state().phase
            == SendPhase::Awaiting,
        !old(sender).state().no_body ==> r is PollResponse && final(sender).state().phase
            == SendPhase::Polling,
{
}

/// As long as the response is not there, retained bytes are sent, from where they were read to, as
/// many as there are up to the limit. When there are no more of them the body is read.
pub proof fn law_retained_bytes_are_sent_before_the_body_is_read<B>(
    sender: &mut RequestSender<B>,
    buf: &mut BodyBuf<B>,
    limit: usize,
    r: SendAction,
)
    requires
        call_ensures(RequestSender::<B>::step, (sender, SendEvent::ResponsePending, buf, limit), r),
    ensures
        final(sender).body() == old(sender).body(),
        final(sender).state().no_body == old(sender).state().no_body,
        final(sender).state().early_response == old(sender).state().early_response,
        final(buf)@.data == old(buf)@.data,
        final(buf)@.capacity == old(buf)@.capacity,
        final(buf)@.return_body == old(buf)@.return_body,
        ({
            let b = old(buf)@;
            let left = if old(sender).state().use_body_buf && b.data is Some && limit > 0 {
                b.data->0.len() - b.read_idx
            } else {
                0
            };
            if left > 0 {
                &&& r is SendData
                &&& r->SendData_0@.len() == left || r->SendData_0@.len() == limit
                &&& 0 < r->SendData_0@.len() <= left
                &&& r->SendData_0@ == b.data->0.subrange(
                    b.read_idx as int,
                    (b.read_idx + r->SendData_0@.len()) as int,
                )
                &&& final(buf)@.read_idx == b.read_idx + r->SendData_0@.len()
                &&& final(sender).state().phase == SendPhase::Sending
                &&& final(sender).state().use_body_buf
            } else {
                &&& r is ReadBody
                &&& final(buf)@.read_idx == b.read_idx
                &&& final(sender).state().phase == SendPhase::Reading
                &&& !final(sender).state().use_body_buf
            }
        }),
{
    if r is SendData {
        let b = old(buf)@;
        let n = r->SendData_0@.len() as int;
        assert(r->SendData_0@ =~= b.data->0.subrange(b.read_idx as int, b.read_idx + n));
    }
}

/// A response that comes while the body is being sent ends the sending, and the body is passed back;
/// one that was waited for finishes the request.
pub proof fn law_an_early_response_ends_the_sending<B>(
    sender: &mut RequestSender<B>,
    buf: &mut BodyBuf<B>,
    limit: usize,
    r: SendAction,
)
    requires
        call_ensures(RequestSender::<B>::step, (sender, SendEvent::ResponseReady, buf, limit), r),
    ensures
        final(buf)@.data == old(buf)@.data,
        final(buf)@.capacity == old(buf)@.capacity,
        final(buf)@.read_idx == old(buf)@.read_idx,
        final(sender).state().no_body == old(sender).state().no_body,
        final(sender).state().use_body_buf == old(sender).state().use_body_buf,
        if old(sender).state().phase == SendPhase::Polling {
            &&& r is SendEnd
            &&& final(sender).state().phase == SendPhase::Ending
            &&& final(sender).state().early_response
            &&& final(sender).body() is None
            &&& final(buf)@.return_body == old(sender).body()
        } else {
            &&& r is Finish
            &&& final(sender).state().phase == SendPhase::Done
            &&& final(sender).state().early_response == old(sender).state().early_response
            &&& final(sender).body() == old(sender).body()
            &&& final(buf)@.return_body == old(buf)@.return_body
        },
{
}

/// Bytes that were read of the body are sent as they are, and retained after those that were, if
/// there is room for all of them; if not nothing is retained any more. At the end of the body the
/// end is sent, and the body is passed back.
pub proof fn law_bytes_of_the_body_are_sent_and_retained<B>(
    sender: &mut RequestSender<B>,
    bytes: Vec<u8>,
    buf: &mut BodyBuf<B>,
    limit: usize,
    r: SendAction,
)
    requires
        call_ensures(
            RequestSender::<B>::step,
            (sender, SendEvent::BodyChunk(bytes), buf, limit),
            r,
        ),
    ensures
        final(buf)@.capacity == old(buf)@.capacity,
        final(buf)@.read_idx == old(buf)@.read_idx,
        final(sender).state().no_body == old(sender).state().no_body,
        final(sender).state().use_body_buf == old(sender).state().use_body_buf,
        final(sender).state().early_response == old(sender).state().early_response,
        match old(buf)@.data {
            Some(data) => if data.len() + bytes@.len() <= old(buf)@.capacity {
                final(buf)@.data == Some(data + bytes@)
            } else {
                final(buf)@.data is None
            },
            None => final(buf)@.data is None,
        },
        if bytes@.len() > 0 {
            &&& r is SendData
            &&& r->SendData_0@ == bytes@
            &&& final(sender).state().phase == SendPhase::Sending
            &&& final(sender).body() == old(sender).body()
            &&& final(buf)@.return_body == old(buf)@.return_body
        } else {
            &&& r is SendEnd
            &&& final(sender).state().phase == SendPhase::Ending
            &&& final(sender).body() is None
            &&& final(buf)@.return_body == old(sender).body()
        },
{
}

/// After data was sent the response is looked at again, before more is sent. After the end was sent
/// it is waited for, unless it came early.
pub proof fn law_the_response_is_looked_at_between_data<B>(
    sender: &mut RequestSender<B>,
    buf: &mut BodyBuf<B>,
    limit: usize,
    r: SendAction,
    ending: &mut RequestSender<B>,
    ending_buf: &mut BodyBuf<B>,
    end: SendAction,
)
    requires
        call_ensures(RequestSender::<B>::step, (sender, SendEvent::DataSent, buf, limit), r),
        call_ensures(
            RequestSender::<B>::step,
            (ending, SendEvent::EndSent, ending_buf, limit),
            end,
        ),
    ensures
        r is PollResponse,
        final(buf)@ == old(buf)@,
        final(sender).body() == old(sender).body(),
        final(sender).state() == (SendState {
            phase: SendPhase::Polling,
            ..old(sender).state()
        }),
        final(ending_buf)@ == old(ending_buf)@,
        final(ending).body() == old(ending).body(),
        if old(ending).state().early_response {
            &&& end is Finish
            &&& final(ending).state() == (SendState {
                phase: SendPhase::Done,
                ..old(ending).state()
            })
        } else {
            &&& end is AwaitResponse
            &&& final(ending).state() == (SendState {
                phase: SendPhase::Awaiting,
                ..old(ending).state()
            })
        },
{
}

/// A sender can be told whatever can happen in the phase that it is in, as long as it has its body
/// while the body is being sent.
pub proof fn law_a_sender_takes_what_can_happen<B>(
    sender: &mut RequestSender<B>,
    buf: &mut BodyBuf<B>,
    limit: usize,
    bytes: Vec<u8>,
)
    requires
        old(sender).body() is Some || old(sender).state().phase == SendPhase::Ending
            || old(sender).state().phase == SendPhase::Awaiting
            || old(sender).state().phase == SendPhase::Done,
        old(buf)@.data is Some ==> old(buf)@.read_idx <= old(buf)@.data->0.len()
            <= old(buf)@.capacity,
        0 < limit <= 2 * 1024 * 1024,
    ensures
        match old(sender).state().phase {
            SendPhase::Opening => call_requires(
                RequestSender::<B>::step,
                (sender, SendEvent::Opened, buf, limit),
            ),
            SendPhase::Polling => call_requires(
                RequestSender::<B>::step,
                (sender, SendEvent::ResponsePending, buf, limit),
            ) && call_requires(
                RequestSender::<B>::step,
                (sender, SendEvent::ResponseReady, buf, limit),
            ),
            SendPhase::Reading => call_requires(
                RequestSender::<B>::step,
                (sender, SendEvent::BodyChunk(bytes), buf, limit),
            ),
            SendPhase::Sending => call_requires(
                RequestSender::<B>::step,
                (sender, SendEvent::DataSent, buf, limit),
            ),
            SendPhase::Ending => call_requires(
                RequestSender::<B>::step,
                (sender, SendEvent::EndSent, buf, limit),
            ),
            SendPhase::Awaiting => call_requires(
                RequestSender::<B>::step,
                (sender, SendEvent::ResponseReady, buf, limit),
            ),
            SendPhase::Done => true,
        },
{
}

/// A step leaves a sender that can be told what happens next, and a buffer that was read no further
/// than it goes.
pub proof fn law_a_step_can_be_followed_by_another<B>(
    sender: &mut RequestSender<B>,
    event: SendEvent,
    buf: &mut BodyBuf<B>,
    limit: usize,
    r: SendAction,
)
    requires
        call_ensures(RequestSender::<B>::step, (sender, event, buf, limit), r),
    ensures
        final(sender).body() is Some || final(sender).state().phase == SendPhase::Ending
            || final(sender).state().phase == SendPhase::Awaiting
            || final(sender).state().phase == SendPhase::Done,
        final(buf)@.data is Some ==> final(buf)@.read_idx <= final(buf)@.data->0.len()
            <= final(buf)@.capacity,
{
}

/// A buffer that was read no further than it goes can be used in every way, and stays one.
pub proof fn law_a_buffer_can_be_used<B>(
    size: usize,
    made: BodyBuf<B>,
    buf: &mut BodyBuf<B>,
    bytes: &[u8],
    out: &mut [u8],
    keep_data: bool,
    body: B,
    n: usize,
    returned: Option<B>,
)
    requires
        old(buf)@.data is Some ==> old(buf)@.read_idx <= old(buf)@.data->0.len()
            <= old(buf)@.capacity,
    ensures
        size <= isize::MAX ==> call_requires(BodyBuf::<B>::new, (size,)),
        call_requires(BodyBuf::<B>::append, (buf, bytes)),
        call_requires(BodyBuf::<B>::read, (buf, out)),
        call_requires(BodyBuf::<B>::reset, (buf, keep_data)),
        call_requires(BodyBuf::<B>::set_return_body, (buf, body)),
        ({
            ||| call_ensures(BodyBuf::<B>::append, (buf, bytes), ())
            ||| call_ensures(BodyBuf::<B>::read, (buf, out), n)
            ||| call_ensures(BodyBuf::<B>::reset, (buf, keep_data), returned)
            ||| call_ensures(BodyBuf::<B>::set_return_body, (buf, body), ())
        }) ==> (final(buf)@.data is Some ==> final(buf)@.read_idx <= final(buf)@.data->0.len()
            <= final(buf)@.capacity),
{
}

/// A new buffer retains nothing yet, and nothing ever if it has no room.
pub proof fn law_a_new_buffer_is_empty<B>(size: usize, r: BodyBuf<B>)
    requires
        call_ensures(BodyBuf::<B>::new, (size,), r),
    ensures
        r@ == (BufView::<B> {
            data: if size > 0 {
                Some(Seq::empty())
            } else {
                None
            },
            capacity: size as nat,
            read_idx: 0,
            return_body: None,
        }),
{
}

/// What is appended to a buffer comes after what it retains, if there is room for all of it; if not
/// nothing is retained any more.
pub proof fn law_appended_bytes_are_retained<B>(buf: &mut BodyBuf<B>, bytes: &[u8])
    requires
        call_ensures(BodyBuf::<B>::append, (buf, bytes), ()),
    ensures
        final(buf)@.capacity == old(buf)@.capacity,
        final(buf)@.read_idx == old(buf)@.read_idx,
        final(buf)@.return_body == old(buf)@.return_body,
        match old(buf)@.data {
            Some(data) => if data.len() + bytes@.len() <= old(buf)@.capacity {
                final(buf)@.data == Some(data + bytes@)
            } else {
                final(buf)@.data is None
            },
            None => final(buf)@.data is None,
        },
{
}

/// A buffer is read from where it was read to, without dropping anything: as many bytes as there
/// are and as fit.
pub proof fn law_a_buffer_is_read_in_order<B>(buf: &mut BodyBuf<B>, out: &mut [u8], n: usize)
    requires
        call_ensures(BodyBuf::<B>::read, (buf, out), n),
        old(buf)@.data is Some ==> old(buf)@.read_idx <= old(buf)@.data->0.len(),
    ensures
        final(buf)@.data == old(buf)@.data,
        final(buf)@.capacity == old(buf)@.capacity,
        final(buf)@.return_body == old(buf)@.return_body,
        final(out)@.len() == old(out)@.len(),
        n <= old(out)@.len(),
        final(out)@.skip(n as int) == old(out)@.skip(n as int),
        match old(buf)@.data {
            Some(data) => {
                &&& n == data.len() - old(buf)@.read_idx || n == old(out)@.len()
                &&& old(buf)@.read_idx + n <= data.len()
                &&& final(buf)@.read_idx == old(buf)@.read_idx + n
                &&& final(out)@.take(n as int) == data.subrange(
                    old(buf)@.read_idx as int,
                    old(buf)@.read_idx + n,
                )
            },
            None => n == 0 && final(buf)@.read_idx == old(buf)@.read_idx,
        },
{
    assert(final(out)@.skip(n as int) =~= old(out)@.skip(n as int));
    if old(buf)@.data is Some {
        assert(final(out)@.take(n as int) =~= old(buf)@.data->0.subrange(
            old(buf)@.read_idx as int,
            old(buf)@.read_idx + n,
        ));
    }
}

/// A reset starts the reading again. It keeps what is retained and hands the body out if that is
/// asked for; if not both are gone, but a buffer that can retain stays one.
pub proof fn law_a_reset_keeps_what_is_asked_for<B>(
    buf: &mut BodyBuf<B>,
    keep_data: bool,
    r: Option<B>,
)
    requires
        call_ensures(BodyBuf::<B>::reset, (buf, keep_data), r),
    ensures
        final(buf)@.read_idx == 0,
        final(buf)@.capacity == old(buf)@.capacity,
        final(buf)@.return_body is None,
        keep_data ==> final(buf)@.data == old(buf)@.data && r == old(buf)@.return_body,
        !keep_data ==> r is None,
        !keep_data && old(buf)@.data is Some ==> final(buf)@.data == Some(Seq::<u8>::empty()),
        old(buf)@.data is None ==> final(buf)@.data is None,
{
}

/// A body that is passed back with the buffer is what a reset hands out, as it was.
pub proof fn law_a_body_is_passed_back<B>(
    buf: &mut BodyBuf<B>,
    body: B,
    reset: &mut BodyBuf<B>,
    r: Option<B>,
)
    requires
        call_ensures(BodyBuf::<B>::set_return_body, (buf, body), ()),
        *old(reset) == *final(buf),
        call_ensures(BodyBuf::<B>::reset, (reset, true), r),
    ensures
        r == Some(body),
        final(buf)@.data == old(buf)@.data,
        final(buf)@.capacity == old(buf)@.capacity,
        final(buf)@.read_idx == old(buf)@.read_idx,
{
}

/// What a request sent is sent again after a redirect: bytes that were retained while they were
/// read, after a reset that keeps them, come out of the buffer as they went in.
pub proof fn law_retained_bytes_come_back<B>(
    buf: &mut BodyBuf<B>,
    bytes: &[u8],
    reset: &mut BodyBuf<B>,
    body: Option<B>,
    read: &mut BodyBuf<B>,
    out: &mut [u8],
    n: usize,
)
    requires
        old(buf)@.data == Some(Seq::<u8>::empty()),
        bytes@.len() <= old(buf)@.capacity,
        bytes@.len() <= old(out)@.len(),
        call_ensures(BodyBuf::<B>::append, (buf, bytes), ()),
        *old(reset) == *final(buf),
        call_ensures(BodyBuf::<B>::reset, (reset, true), body),
        *old(read) == *final(reset),
        call_ensures(BodyBuf::<B>::read, (read, out), n),
    ensures
        n == bytes@.len(),
        final(out)@.take(n as int) == bytes@,
{
    assert(Seq::<u8>::empty() + bytes@ =~= bytes@);
    assert(final(out)@.take(n as int) =~= bytes@);
}

} // verus!
