//! Connections that requests are sent over.

use crate::body::configured;
use crate::body::Body;
use crate::body::BodyView;
use crate::codec::BandwidthMonitor;
use crate::headers::can_take;
use crate::headers::header_contents;
use crate::headers::is_header_value;
use crate::params::HReqParams;
use crate::request::configure_request;
use crate::request::is_partly_configured;
use crate::request::request_headers;
use crate::request::RequestParts;
use crate::request::TooManyHeaders;
use crate::text::text_bytes;
use crate::ticket::count_pointers;
use crate::ticket::id_after;
use crate::ticket::is_pointer_count;
use crate::ticket::law_ids_are_given_out_once;
use crate::ticket::nth_id;
use crate::ticket::share;
use crate::ticket::IdSource;
use crate::ticket::Ticket;
use http::header::HeaderMap;
use http::header::HeaderValue;
use std::sync::Arc;
use vstd::prelude::*;
use vstd::std_specs::cmp::PartialEqSpec;
use vstd::std_specs::cmp::PartialEqSpecImpl;
use vstd::string::*;

verus! {

/// The other end of a connection.
pub struct HostPort {
    pub host: String,
    pub port: u16,
}

/// The protocol that is spoken over a connection.
#[derive(Clone, Copy, Debug, PartialEq, Eq, Structural)]
pub enum Protocol {
    H1,
    H2,
}

impl Protocol {
    /// The protocol in words, for logs.
    pub open spec fn text(self) -> Seq<char> {
        match self {
            Protocol::H1 => "Http1"@,
            Protocol::H2 => "Http2"@,
        }
    }

    /// The protocol in words, for logs.
    pub fn as_str(self) -> (r: &'static str)
        ensures
            r@ == self.text(),
    {
        match self {
            Protocol::H1 => "Http1",
            Protocol::H2 => "Http2",
        }
    }
}

/// A connection to a host.
pub struct Connection {
    host_port: HostPort,
    inner: Protocol,
    // holds the id of the connection
    unfinished_reqs: Arc<Ticket>,
    bw: Option<BandwidthMonitor>,
}

/// What a connection is made of.
pub struct ConnectionView {
    pub host_port: HostPort,
    pub inner: Protocol,
    /// What the connection shares with its unfinished requests.
    pub ticket: Ticket,
    pub bw: Option<BandwidthMonitor>,
}

impl ConnectionView {
    /// The id of the connection.
    pub open spec fn id(self) -> usize {
        self.ticket.id()
    }
}

impl View for Connection {
    type V = ConnectionView;

    closed spec fn view(&self) -> ConnectionView {
        ConnectionView {
            host_port: self.host_port,
            inner: self.inner,
            ticket: *self.unfinished_reqs,
            bw: self.bw,
        }
    }
}

/// A request that has begun: it counts as unfinished while the pointer to the ticket is kept.
pub struct StartedRequest {
    pub unfin: Arc<Ticket>,
    /// The content of the body is to be read ahead, if it is small.
    pub prebuffer: bool,
}

/// The number of unfinished requests, where the connection and each of the requests keep one of
/// `count` pointers.
pub fn unfinished_of(count: usize) -> (r: usize)
    requires
        count >= 1,
    ensures
        r == count - 1,
{
    count - 1  // -1 for self

}

impl Connection {
    /// A connection that speaks HTTP/1.1. It gets an id of its own.
    pub fn new_h1(ids: &mut IdSource, host_port: HostPort) -> (r: Connection)
        ensures
            r@.id() == old(ids)@,
            r@ == (ConnectionView {
                host_port,
                inner: Protocol::H1,
                ticket: r@.ticket,
                bw: None,
            }),
            final(ids)@ == id_after(old(ids)@),
    {
        Self::new(ids, host_port, Protocol::H1, None)
    }

    /// A connection that speaks HTTP/2. It gets an id of its own.
    pub fn new_h2(ids: &mut IdSource, host_port: HostPort, bw: BandwidthMonitor) -> (r: Connection)
        ensures
            r@.id() == old(ids)@,
            r@ == (ConnectionView {
                host_port,
                inner: Protocol::H2,
                ticket: r@.ticket,
                bw: Some(bw),
            }),
            final(ids)@ == id_after(old(ids)@),
    {
        Self::new(ids, host_port, Protocol::H2, Some(bw))
    }

    fn new(
        ids: &mut IdSource,
        host_port: HostPort,
        inner: Protocol,
        bw: Option<BandwidthMonitor>,
    ) -> (r: Connection)
        ensures
            r@.id() == old(ids)@,
            r@ == (ConnectionView { host_port, inner, ticket: r@.ticket, bw }),
            final(ids)@ == id_after(old(ids)@),
    {
        Connection {
            host_port,
            inner,
            unfinished_reqs: Arc::new(Ticket::new(ids.next_id())),
            bw,
        }
    }

    pub fn id(&self) -> (r: usize)
        ensures
            r == self@.id(),
    {
        self.unfinished_reqs.connection_id()
    }

    pub fn host_port(&self) -> (r: &HostPort)
        ensures
            *r == self@.host_port,
    {
        &self.host_port
    }

    pub fn is_http2(&self) -> (r: bool)
        ensures
            r == (self@.inner == Protocol::H2),
    {
        match self.inner {
            Protocol::H1 => false,
            Protocol::H2 => true,
        }
    }

    /// The protocol that is spoken.
    pub fn protocol(&self) -> (r: Protocol)
        ensures
            r == self@.inner,
    {
        self.inner
    }

    /// The number of requests that were begun and whose response was not read to the end: one less
    /// than the pointers that are counted, as the connection keeps one itself. It depends on what
    /// other owners of the requests do in the meantime.
    pub fn unfinished_requests(&self) -> (r: usize)
        ensures
            exists|count: usize| #[trigger]
                is_pointer_count(self@.ticket, count) && r == count - 1,
    {
        let count: usize = count_pointers(&self.unfinished_reqs);
        assert(is_pointer_count(self@.ticket, count));
        unfinished_of(count)
    }

    /// Begins a request: it counts as unfinished from now on, and its body is configured, unless
    /// that was done for an earlier attempt.
    pub fn start_request<R>(
        &self,
        params: &HReqParams,
        headers: &HeaderMap<HeaderValue>,
        body: &mut Body<R>,
    ) -> (r: StartedRequest)
        ensures
            *r.unfin == self@.ticket,
            r.prebuffer == (!old(body)@.has_read && params.prebuffer),
            final(body)@ == (if old(body)@.has_read {
                old(body)@
            } else {
                configured(old(body)@, *params, header_contents(*headers), false)
            }),
    {
        // up the arc-counter on unfinished reqs
        let unfin: Arc<Ticket> = share(&self.unfinished_reqs);
        let configurable: bool = body.is_configurable();
        // resolve deferred body codecs because content-encoding and content-type are settled.
        if configurable {
            body.configure(params, headers, false);
        }
        // for small request bodies we try to fully buffer the incoming data.
        StartedRequest { unfin, prebuffer: configurable && params.prebuffer }
    }

    /// Settles the headers of a request whose body is ready to be sent. The request gets its own
    /// copy of the monitor, to track received bytes. Fails if the headers become too many for a
    /// header map.
    pub fn send_request<R>(
        &self,
        parts: &mut RequestParts,
        body: &Body<R>,
        agent_ident: &str,
    ) -> (r: Result<Option<BandwidthMonitor>, TooManyHeaders>)
        requires
            is_header_value(text_bytes(agent_ident@)),
        ensures
            final(parts).indicates_body == old(parts).indicates_body,
            match r {
                Ok(bw) => {
                    &&& bw == self@.bw
                    &&& header_contents(final(parts).headers) == request_headers(
                        header_contents(old(parts).headers),
                        body@,
                        old(parts).indicates_body,
                        self@.inner == Protocol::H2,
                        agent_ident@,
                    )
                },
                Err(_) => is_partly_configured(
                    header_contents(final(parts).headers),
                    header_contents(old(parts).headers),
                    body@,
                    old(parts).indicates_body,
                    self@.inner == Protocol::H2,
                    agent_ident@,
                ),
            },
            can_take(
                header_contents(old(parts).headers),
                request_headers(
                    header_contents(old(parts).headers),
                    body@,
                    old(parts).indicates_body,
                    self@.inner == Protocol::H2,
                    agent_ident@,
                ),
            ) ==> r is Ok,
    {
        match configure_request(parts, body, self.is_http2(), agent_ident) {
            Ok(_) => Ok(self.bw),
            Err(e) => Err(e),
        }
    }
}

/// Makes the body of a response ready to be read: it keeps the ticket of its request, so that it
/// counts as unfinished, and it is configured.
pub fn receive_response<R>(
    body: &mut Body<R>,
    unfin: Arc<Ticket>,
    bw: Option<BandwidthMonitor>,
    params: &HReqParams,
    headers: &HeaderMap<HeaderValue>,
)
    requires
        !old(body)@.has_read,
    ensures
        final(body)@ == configured(
            BodyView { unfinished: Some(*unfin), bw, ..old(body)@ },
            *params,
            header_contents(*headers),
            true,
        ),
{
    body.set_unfinished_recs(unfin);
    body.set_bw_monitor(bw);
    body.configure(params, headers, true);
}

impl PartialEqSpecImpl for Connection {
    open spec fn obeys_eq_spec() -> bool {
        true
    }

    open spec fn eq_spec(&self, other: &Connection) -> bool {
        self@.id() == other@.id()
    }
}

impl PartialEq for Connection {
    fn eq(&self, other: &Connection) -> (r: bool) {
        self.id() == other.id()
    }
}

impl Eq for Connection {

}

/// A connection is equal to itself and to no other: two connections that were made with ids of one
/// source, after `i` and after `j` of them were given out, are equal only if they are one. That
/// holds as long as the source has not given out all ids there are.
pub proof fn law_a_connection_is_equal_to_itself_only(
    first: usize,
    a: Connection,
    i: nat,
    b: Connection,
    j: nat,
)
    requires
        a@.id() == nth_id(first, i),
        b@.id() == nth_id(first, j),
        i <= usize::MAX,
        j <= usize::MAX,
    ensures
        PartialEqSpec::eq_spec(&a, &a),
        PartialEqSpec::eq_spec(&a, &b) == (i == j),
        i != j ==> a@.ticket != b@.ticket,
{
    law_ids_are_given_out_once(first, i, j);
}

} // verus!
