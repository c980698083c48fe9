//! Sends a request body: decides, step by step, what is to be done next.
//!
//! Whoever drives a sender does what the action says and reports back what came of it. A failure
//! ends the sending.

use crate::body::Body;
use crate::body::BodyView;
use crate::body_buf::BodyBuf;
use crate::body_buf::BufView;
use crate::codec::min_len;
use vstd::prelude::*;

verus! {

/// The size of the buffer that a body is sent with.
pub const START_BUF_SIZE: usize = 16_384;

/// The size up to which that buffer may grow.
pub const MAX_BUF_SIZE: usize = 2_097_152;

/// What happened.
pub enum SendEvent {
    /// The request was handed to the http1.1/http2 layer.
    Opened,
    /// The response is not there yet.
    ResponsePending,
    /// The response is there.
    ResponseReady,
    /// Bytes of the body were read. There are none at the end of the body.
    BodyChunk(Vec<u8>),
    /// The data was sent.
    DataSent,
    /// The end of the body was sent.
    EndSent,
}

/// What happened, seen from the outside.
pub enum EventView {
    Opened,
    ResponsePending,
    ResponseReady,
    BodyChunk(Seq<u8>),
    DataSent,
    EndSent,
}

impl View for SendEvent {
    type V = EventView;

    open spec fn view(&self) -> EventView {
        match *self {
            SendEvent::Opened => EventView::Opened,
            SendEvent::ResponsePending => EventView::ResponsePending,
            SendEvent::ResponseReady => EventView::ResponseReady,
            SendEvent::BodyChunk(bytes) => EventView::BodyChunk(bytes@),
            SendEvent::DataSent => EventView::DataSent,
            SendEvent::EndSent => EventView::EndSent,
        }
    }
}

/// What is to be done.
pub enum SendAction {
    /// Look once whether the response is there.
    PollResponse,
    /// Read bytes of the body.
    ReadBody,
    /// Send data.
    SendData(Vec<u8>),
    /// Send the end of the body.
    SendEnd,
    /// Wait for the response.
    AwaitResponse,
    /// Nothing; the response is there.
    Finish,
}

/// What is to be done, seen from the outside.
pub enum ActionView {
    PollResponse,
    ReadBody,
    SendData(Seq<u8>),
    SendEnd,
    AwaitResponse,
    Finish,
}

impl View for SendAction {
    type V = ActionView;

    open spec fn view(&self) -> ActionView {
        match *self {
            SendAction::PollResponse => ActionView::PollResponse,
            SendAction::ReadBody => ActionView::ReadBody,
            SendAction::SendData(bytes) => ActionView::SendData(bytes@),
            SendAction::SendEnd => ActionView::SendEnd,
            SendAction::AwaitResponse => ActionView::AwaitResponse,
            SendAction::Finish => ActionView::Finish,
        }
    }
}

/// How far the sending has come.
#[derive(Clone, Copy, Debug, PartialEq, Eq, Structural)]
pub enum SendPhase {
    Opening,
    Polling,
    Reading,
    Sending,
    Ending,
    Awaiting,
    Done,
}

/// What a sender goes by.
#[derive(Clone, Copy, Debug, PartialEq, Eq, Structural)]
pub struct SendState {
    pub phase: SendPhase,
    /// There is no body to send.
    pub no_body: bool,
    /// Bytes that were retained earlier are sent first.
    pub use_body_buf: bool,
    /// The response came before the body was sent.
    pub early_response: bool,
}

impl SendState {
    /// The state at the start.
    pub open spec fn initial(no_body: bool) -> SendState {
        SendState {
            phase: SendPhase::Opening,
            no_body,
            use_body_buf: true,
            early_response: false,
        }
    }

    /// The event can happen next.
    pub open spec fn expects(self, event: EventView) -> bool {
        match event {
            EventView::Opened => self.phase == SendPhase::Opening,
            EventView::ResponsePending => self.phase == SendPhase::Polling,
            EventView::ResponseReady => self.phase == SendPhase::Polling || self.phase
                == SendPhase::Awaiting,
            EventView::BodyChunk(_) => self.phase == SendPhase::Reading,
            EventView::DataSent => self.phase == SendPhase::Sending,
            EventView::EndSent => self.phase == SendPhase::Ending,
        }
    }

    /// The body is still being sent.
    pub open spec fn is_sending(self) -> bool {
        ||| self.phase == SendPhase::Opening
        ||| self.phase == SendPhase::Polling
        ||| self.phase == SendPhase::Reading
        ||| self.phase == SendPhase::Sending
    }

    /// The state in another phase.
    pub open spec fn at(self, phase: SendPhase) -> SendState {
        SendState { phase, ..self }
    }
}

/// The state of a sender, the body buffer and the action after an event. No more than `limit`
/// retained bytes are sent at once.
pub open spec fn next<B>(
    state: SendState,
    buf: BufView<B>,
    event: EventView,
    limit: nat,
) -> (SendState, BufView<B>, ActionView) {
    match event {
        EventView::Opened => if state.no_body {
            (state.at(SendPhase::Awaiting), buf, ActionView::AwaitResponse)
        } else {
            (state.at(SendPhase::Polling), buf, ActionView::PollResponse)
        },
        EventView::ResponsePending => {
            let amount = min_len(buf.unread().len(), limit);
            if state.use_body_buf && amount > 0 {
                (
                    state.at(SendPhase::Sending),
                    buf.advanced(amount),
                    ActionView::SendData(buf.unread().take(amount as int)),
                )
            } else {
                (
                    SendState { use_body_buf: false, ..state }.at(SendPhase::Reading),
                    buf,
                    ActionView::ReadBody,
                )
            }
        },
        EventView::ResponseReady => if state.phase == SendPhase::Polling {
            (
                SendState { early_response: true, ..state }.at(SendPhase::Ending),
                buf,
                ActionView::SendEnd,
            )
        } else {
            (state.at(SendPhase::Done), buf, ActionView::Finish)
        },
        EventView::BodyChunk(bytes) => if bytes.len() == 0 {
            (state.at(SendPhase::Ending), buf.appended(bytes), ActionView::SendEnd)
        } else {
            (state.at(SendPhase::Sending), buf.appended(bytes), ActionView::SendData(bytes))
        },
        EventView::DataSent => (state.at(SendPhase::Polling), buf, ActionView::PollResponse),
        EventView::EndSent => if state.early_response {
            (state.at(SendPhase::Done), buf, ActionView::Finish)
        } else {
            (state.at(SendPhase::Awaiting), buf, ActionView::AwaitResponse)
        },
    }
}

/// A request goes without a body: there is none for sure, and none was retained from an earlier
/// attempt.
pub open spec fn goes_without_body<R, B>(body: BodyView<R>, buf: BufView<B>) -> bool {
    body.length == Some(0u64) && buf.retained().len() == 0
}

/// Tells whether a request goes without a body.
pub fn has_no_body<R, B>(body: &Body<R>, body_buffer: &BodyBuf<B>) -> (r: bool)
    ensures
        r == goes_without_body(body@, body_buffer@),
{
    body.is_definitely_no_body() && body_buffer.len() == 0
}

/// Sends the body of a request.
pub struct RequestSender<B> {
    state: SendState,
    body: Option<B>,
}

impl<B> RequestSender<B> {
    /// What the sender goes by.
    pub closed spec fn state(&self) -> SendState {
        self.state
    }

    /// The body, until its end is sent.
    pub closed spec fn body(&self) -> Option<B> {
        self.body
    }

    /// The body is there as long as it is being sent.
    pub open spec fn wf(&self) -> bool {
        self.state().is_sending() ==> self.body() is Some
    }

    /// A sender for a request that is about to be opened.
    pub fn new(body: B, no_body: bool) -> (r: RequestSender<B>)
        ensures
            r.wf(),
            r.state() == SendState::initial(no_body),
            r.body() == Some(body),
    {
        RequestSender {
            state: SendState {
                phase: SendPhase::Opening,
                no_body,
                use_body_buf: true,
                early_response: false,
            },
            body: Some(body),
        }
    }

    /// The body, to read bytes of it.
    pub fn body_mut(&mut self) -> (r: Option<&mut B>)
        ensures
            final(self).state() == old(self).state(),
            match r {
                Some(body) => {
                    &&& old(self).body() == Some(*body)
                    &&& final(self).body() == Some(*final(body))
                },
                None => old(self).body() is None && final(self).body() is None,
            },
    {
        self.body.as_mut()
    }

    /// The phase that the sending is in.
    pub fn phase(&self) -> (r: SendPhase)
        ensures
            r == self.state().phase,
    {
        self.state.phase
    }

    /// Takes note of what happened and decides what is to be done. When the end of the body is to
    /// be sent, the body is passed back with the buffer.
    pub fn step(&mut self, event: SendEvent, body_buffer: &mut BodyBuf<B>, limit: usize) -> (r:
        SendAction)
        requires
            old(self).wf(),
            old(self).state().expects(event@),
            old(body_buffer)@.wf(),
            0 < limit <= MAX_BUF_SIZE,
        ensures
            final(self).wf(),
            final(body_buffer)@.wf(),
            ({
                let (state, buf, action) = next(
                    old(self).state(),
                    old(body_buffer)@,
                    event@,
                    limit as nat,
                );
                &&& final(self).state() == state
                &&& r@ == action
                &&& if action is SendEnd {
                    &&& final(body_buffer)@ == (BufView { return_body: old(self).body(), ..buf })
                    &&& final(self).body() is None
                } else {
                    &&& final(body_buffer)@ == buf
                    &&& final(self).body() == old(self).body()
                }
            }),
    {
        match event {
            SendEvent::Opened => {
                if self.state.no_body {
                    self.state.phase = SendPhase::Awaiting;
                    SendAction::AwaitResponse
                } else {
                    self.state.phase = SendPhase::Polling;
                    SendAction::PollResponse
                }
            },
            SendEvent::ResponsePending => {
                // use buffered body (from a potential earlier 307/308 redirect)
                if self.state.use_body_buf {
                    let mut chunk: Vec<u8> = vec![0u8; limit];
                    let n: usize = body_buffer.read(chunk.as_mut_slice());
                    if n > 0 {
                        chunk.truncate(n);
                        assert(chunk@ =~= old(body_buffer)@.unread().take(n as int));
                        self.state.phase = SendPhase::Sending;
                        return SendAction::SendData(chunk);
                    }
                    // no more buffer to use
                    self.state.use_body_buf = false;
                }
                self.state.phase = SendPhase::Reading;
                SendAction::ReadBody
            },
            SendEvent::ResponseReady => {
                if self.state.phase == SendPhase::Polling {
                    // an early response means aborting the body sending.
                    self.state.early_response = true;
                    self.end(body_buffer)
                } else {
                    self.state.phase = SendPhase::Done;
                    SendAction::Finish
                }
            },
            SendEvent::BodyChunk(bytes) => {
                // Append read data to the body_buffer in case of 307/308 redirect.
                // The body_buffer might be inert and no bytes are retained.
                body_buffer.append(bytes.as_slice());
                if bytes.len() == 0 {
                    self.end(body_buffer)
                } else {
                    self.state.phase = SendPhase::Sending;
                    SendAction::SendData(bytes)
                }
            },
            SendEvent::DataSent => {
                self.state.phase = SendPhase::Polling;
                SendAction::PollResponse
            },
            SendEvent::EndSent => {
                if self.state.early_response {
                    self.state.phase = SendPhase::Done;
                    SendAction::Finish
                } else {
                    self.state.phase = SendPhase::Awaiting;
                    SendAction::AwaitResponse
                }
            },
        }
    }

    fn end(&mut self, body_buffer: &mut BodyBuf<B>) -> (r: SendAction)
        requires
            old(self).body() is Some,
            old(body_buffer)@.wf(),
        ensures
            r is SendEnd,
            final(body_buffer)@.wf(),
            final(body_buffer)@ == (BufView {
                return_body: old(self).body(),
                ..old(body_buffer)@
            }),
            final(self).state() == old(self).state().at(SendPhase::Ending),
            final(self).body() is None,
    {
        // pass the body back with the buffer
        if let Some(body) = self.body.take() {
            body_buffer.set_return_body(body);
        }
        self.state.phase = SendPhase::Ending;
        SendAction::SendEnd
    }
}

/// A sender, the body buffer and the actions after a number of steps, each an event and the limit
/// that went with it.
pub open spec fn run<B>(state: SendState, buf: BufView<B>, steps: Seq<(EventView, nat)>) -> (
    SendState,
    BufView<B>,
    Seq<ActionView>,
)
    decreases steps.len(),
{
    if steps.len() == 0 {
        (state, buf, Seq::empty())
    } else {
        let (state, buf, actions) = run(state, buf, steps.drop_last());
        let (state, buf, action) = next(state, buf, steps.last().0, steps.last().1);
        (state, buf, actions.push(action))
    }
}

/// Each of the events could happen when it did, and each limit let some bytes be sent.
pub open spec fn is_possible<B>(
    state: SendState,
    buf: BufView<B>,
    steps: Seq<(EventView, nat)>,
) -> bool
    decreases steps.len(),
{
    steps.len() > 0 ==> {
        &&& is_possible(state, buf, steps.drop_last())
        &&& run(state, buf, steps.drop_last()).0.expects(steps.last().0)
        &&& steps.last().1 > 0
    }
}

/// The data that was sent.
pub open spec fn sent_bytes(actions: Seq<ActionView>) -> Seq<u8>
    decreases actions.len(),
{
    if actions.len() == 0 {
        Seq::empty()
    } else {
        sent_bytes(actions.drop_last()) + match actions.last() {
            ActionView::SendData(bytes) => bytes,
            _ => Seq::empty(),
        }
    }
}

/// The bytes that were read of the body.
pub open spec fn read_bytes(steps: Seq<(EventView, nat)>) -> Seq<u8>
    decreases steps.len(),
{
    if steps.len() == 0 {
        Seq::empty()
    } else {
        read_bytes(steps.drop_last()) + match steps.last().0 {
            EventView::BodyChunk(bytes) => bytes,
            _ => Seq::empty(),
        }
    }
}

/// What holds at every point of a run that began with the body buffer `buf`: `sent` was sent and
/// `read` was read of the body.
spec fn run_inv<B>(
    no_body: bool,
    buf: BufView<B>,
    state: SendState,
    after: BufView<B>,
    sent: Seq<u8>,
    read: Seq<u8>,
) -> bool {
    &&& after.wf()
    &&& after.capacity == buf.capacity
    &&& state.no_body == no_body
    &&& state.phase == SendPhase::Reading ==> !state.use_body_buf
    &&& no_body ==> {
        &&& sent.len() == 0
        &&& read.len() == 0
        &&& state.phase == SendPhase::Opening || state.phase == SendPhase::Awaiting || state.phase
            == SendPhase::Done
    }
    &&& !no_body && !state.is_sending() && !state.early_response ==> !state.use_body_buf
    &&& if state.use_body_buf {
        &&& read.len() == 0
        &&& after.data == buf.data
        &&& match buf.data {
            Some(data) => {
                &&& buf.read_idx <= after.read_idx
                &&& sent == data.subrange(buf.read_idx as int, after.read_idx as int)
            },
            None => sent.len() == 0,
        }
    } else {
        &&& sent == buf.unread() + read
        &&& match buf.data {
            Some(data) => if data.len() + read.len() <= buf.capacity {
                after.data == Some(data + read)
            } else {
                after.data is None
            },
            None => after.data is None,
        }
    }
}

proof fn lemma_step<B>(
    no_body: bool,
    buf: BufView<B>,
    state: SendState,
    mid: BufView<B>,
    sent: Seq<u8>,
    read: Seq<u8>,
    event: EventView,
    limit: nat,
)
    requires
        buf.wf(),
        run_inv(no_body, buf, state, mid, sent, read),
        state.expects(event),
        limit > 0,
    ensures
        ({
            let (after_state, after, action) = next(state, mid, event, limit);
            run_inv(
                no_body,
                buf,
                after_state,
                after,
                sent + match action {
                    ActionView::SendData(bytes) => bytes,
                    _ => Seq::empty(),
                },
                read + match event {
                    EventView::BodyChunk(bytes) => bytes,
                    _ => Seq::empty(),
                },
            )
        }),
{
    assert(sent + Seq::<u8>::empty() =~= sent);
    assert(read + Seq::<u8>::empty() =~= read);
    match event {
        EventView::ResponsePending => {
            if state.use_body_buf && mid.unread().len() > 0 {
                let amount = min_len(mid.unread().len(), limit) as int;
                let data = buf.data->0;
                assert(data.subrange(buf.read_idx as int, mid.read_idx as int) + data.skip(
                    mid.read_idx as int,
                ).take(amount) =~= data.subrange(buf.read_idx as int, mid.read_idx + amount));
            } else if state.use_body_buf {
                assert(sent =~= buf.unread() + read);
                if buf.data is Some {
                    assert(buf.data->0 + read =~= buf.data->0);
                }
            }
        },
        EventView::BodyChunk(bytes) => {
            assert((buf.unread() + read) + bytes =~= buf.unread() + (read + bytes));
            if buf.data is Some {
                let data = buf.data->0;
                assert((data + read) + bytes =~= data + (read + bytes));
            }
        },
        _ => {},
    }
}

proof fn lemma_run<B>(no_body: bool, buf: BufView<B>, steps: Seq<(EventView, nat)>)
    requires
        buf.wf(),
        is_possible(SendState::initial(no_body), buf, steps),
    ensures
        ({
            let (state, after, actions) = run(SendState::initial(no_body), buf, steps);
            run_inv(no_body, buf, state, after, sent_bytes(actions), read_bytes(steps))
        }),
    decreases steps.len(),
{
    if steps.len() > 0 {
        let before = steps.drop_last();
        lemma_run(no_body, buf, before);
        let (state, mid, actions) = run(SendState::initial(no_body), buf, before);
        let (event, limit) = steps.last();
        let (_, _, action) = next(state, mid, event, limit);
        lemma_step(
            no_body,
            buf,
            state,
            mid,
            sent_bytes(actions),
            read_bytes(before),
            event,
            limit,
        );
        assert(actions.push(action).drop_last() =~= actions);
    } else if buf.data is Some {
        assert(buf.data->0.subrange(buf.read_idx as int, buf.read_idx as int) =~= Seq::empty());
    }
}

/// At every point, what was sent is the start of the retained bytes followed by the bytes of the
/// body, in their order.
pub proof fn law_body_is_sent_in_order<B>(
    no_body: bool,
    buf: BufView<B>,
    steps: Seq<(EventView, nat)>,
)
    requires
        buf.wf(),
        is_possible(SendState::initial(no_body), buf, steps),
    ensures
        sent_bytes(run(SendState::initial(no_body), buf, steps).2).is_prefix_of(
            buf.unread() + read_bytes(steps),
        ),
{
    lemma_run(no_body, buf, steps);
    let (state, after, actions) = run(SendState::initial(no_body), buf, steps);
    let sent = sent_bytes(actions);
    let all = buf.unread() + read_bytes(steps);
    if state.use_body_buf && buf.data is Some {
        assert(sent =~= all.take(sent.len() as int));
    }
    assert(sent =~= all.subrange(0, sent.len() as int));
}

/// Unless the response comes early, all retained bytes and all bytes of the body have been sent
/// when the end of the body is.
pub proof fn law_body_is_sent_completely<B>(buf: BufView<B>, steps: Seq<(EventView, nat)>)
    requires
        buf.wf(),
        is_possible(SendState::initial(false), buf, steps),
        !run(SendState::initial(false), buf, steps).0.is_sending(),
        !run(SendState::initial(false), buf, steps).0.early_response,
    ensures
        sent_bytes(run(SendState::initial(false), buf, steps).2) == buf.unread() + read_bytes(
            steps,
        ),
{
    lemma_run(false, buf, steps);
}

/// What is read of the body is retained after what was retained before, as long as there is room;
/// beyond that nothing is retained at all.
pub proof fn law_sent_body_is_retained<B>(
    no_body: bool,
    buf: BufView<B>,
    steps: Seq<(EventView, nat)>,
)
    requires
        buf.wf(),
        is_possible(SendState::initial(no_body), buf, steps),
    ensures
        run(SendState::initial(no_body), buf, steps).1.data == match buf.data {
            Some(data) => if data.len() + read_bytes(steps).len() <= buf.capacity {
                Some(data + read_bytes(steps))
            } else {
                None
            },
            None => None,
        },
{
    lemma_run(no_body, buf, steps);
    if buf.data is Some {
        let data = buf.data->0;
        assert(read_bytes(steps).len() == 0 ==> data + read_bytes(steps) =~= data);
    }
}

/// After a redirect the same bytes are sent again: a request whose body was retained, and whose
/// buffer was then reset, sends all that the request before it sent, and after that what is left
/// of the body.
pub proof fn law_redirect_sends_the_same_again<B>(
    buf: BufView<B>,
    first: Seq<(EventView, nat)>,
    second: Seq<(EventView, nat)>,
)
    requires
        buf.wf(),
        buf.read_idx == 0,
        is_possible(SendState::initial(false), buf, first),
        !run(SendState::initial(false), buf, first).0.is_sending(),
        !run(SendState::initial(false), buf, first).0.early_response,
        run(SendState::initial(false), buf, first).1.data is Some,
        ({
            let again = run(SendState::initial(false), buf, first).1.rewound(true);
            &&& is_possible(SendState::initial(false), again, second)
            &&& !run(SendState::initial(false), again, second).0.is_sending()
            &&& !run(SendState::initial(false), again, second).0.early_response
        }),
    ensures
        ({
            let (_, retained, actions) = run(SendState::initial(false), buf, first);
            let again = retained.rewound(true);
            sent_bytes(run(SendState::initial(false), again, second).2) == sent_bytes(actions)
                + read_bytes(second)
        }),
{
    let (_, retained, actions) = run(SendState::initial(false), buf, first);
    let again = retained.rewound(true);
    lemma_run(false, buf, first);
    lemma_run(false, again, second);
    assert(again.unread() =~= again.data->0);
    assert(buf.unread() =~= buf.data->0);
}

/// After a redirect the body is sent as a whole, however far the request before it came: first all
/// that was retained, then what was read of the body for that request, then what is left of it.
pub proof fn law_redirect_sends_the_whole_body<B>(
    buf: BufView<B>,
    first: Seq<(EventView, nat)>,
    second: Seq<(EventView, nat)>,
)
    requires
        buf.wf(),
        is_possible(SendState::initial(false), buf, first),
        run(SendState::initial(false), buf, first).1.data is Some,
        ({
            let again = run(SendState::initial(false), buf, first).1.rewound(true);
            &&& is_possible(SendState::initial(false), again, second)
            &&& !run(SendState::initial(false), again, second).0.is_sending()
            &&& !run(SendState::initial(false), again, second).0.early_response
        }),
    ensures
        ({
            let again = run(SendState::initial(false), buf, first).1.rewound(true);
            sent_bytes(run(SendState::initial(false), again, second).2) == buf.retained()
                + read_bytes(first) + read_bytes(second)
        }),
{
    let again = run(SendState::initial(false), buf, first).1.rewound(true);
    lemma_run(false, buf, first);
    law_sent_body_is_retained(false, buf, first);
    lemma_run(false, again, second);
    assert(again.unread() =~= again.data->0);
}

/// A request without a body sends no data, and none is read.
pub proof fn law_no_body_sends_nothing<B>(buf: BufView<B>, steps: Seq<(EventView, nat)>)
    requires
        buf.wf(),
        is_possible(SendState::initial(true), buf, steps),
    ensures
        sent_bytes(run(SendState::initial(true), buf, steps).2).len() == 0,
        read_bytes(steps).len() == 0,
{
    lemma_run(true, buf, steps);
}

/// The number of times that the end of the body was sent.
pub open spec fn end_count(actions: Seq<ActionView>) -> nat
    decreases actions.len(),
{
    if actions.len() == 0 {
        0
    } else {
        end_count(actions.drop_last()) + if actions.last() is SendEnd {
            1nat
        } else {
            0
        }
    }
}

/// The end of the body is sent once, as soon as no more of the body is, and not before; a request
/// without a body has no end to send. After the end no data is sent and none of the body is read.
/// Data that is sent is never empty.
pub proof fn law_the_end_is_sent_once<B>(
    no_body: bool,
    buf: BufView<B>,
    steps: Seq<(EventView, nat)>,
)
    requires
        buf.wf(),
        is_possible(SendState::initial(no_body), buf, steps),
    ensures
        ({
            let (state, _, actions) = run(SendState::initial(no_body), buf, steps);
            &&& end_count(actions) == if no_body || state.is_sending() {
                0nat
            } else {
                1
            }
            &&& forall|i: int, j: int|
                0 <= i < j < actions.len() && #[trigger] actions[i] is SendEnd ==> {
                    &&& #[trigger] actions[j] !is SendData
                    &&& actions[j] !is ReadBody
                    &&& actions[j] !is SendEnd
                }
            &&& state.is_sending() ==> forall|i: int|
                0 <= i < actions.len() ==> #[trigger] actions[i] !is SendEnd
            &&& forall|i: int|
                0 <= i < actions.len() && #[trigger] actions[i] is SendData
                    ==> actions[i]->SendData_0.len() > 0
        }),
    decreases steps.len(),
{
    if steps.len() > 0 {
        let before = steps.drop_last();
        law_the_end_is_sent_once(no_body, buf, before);
        lemma_run(no_body, buf, before);
        let (state, mid, actions) = run(SendState::initial(no_body), buf, before);
        let (event, limit) = steps.last();
        let (_, _, action) = next(state, mid, event, limit);
        assert(actions.push(action).drop_last() =~= actions);
        if !state.is_sending() {
            law_nothing_is_sent_after_the_end(state, mid, event, limit);
        }
    }
}

/// Once the end of the body was decided on, as it is when the response comes early, nothing more
/// of the body is read or sent.
pub proof fn law_nothing_is_sent_after_the_end<B>(
    state: SendState,
    buf: BufView<B>,
    event: EventView,
    limit: nat,
)
    requires
        !state.is_sending(),
        state.expects(event),
    ensures
        ({
            let (after, after_buf, action) = next(state, buf, event, limit);
            &&& !after.is_sending()
            &&& after_buf == buf
            &&& action !is SendData
            &&& action !is ReadBody
            &&& action !is SendEnd
        }),
{
}

} // verus!
