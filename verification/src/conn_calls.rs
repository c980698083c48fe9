//! What calls on connections come to.

use crate::body::Body;
use crate::codec::BandwidthMonitor;
use crate::conn::receive_response;
use crate::conn::unfinished_of;
use crate::conn::Connection;
use crate::conn::HostPort;
use crate::conn::Protocol;
use crate::conn::StartedRequest;
use crate::headers::header_contents;
use crate::params::HReqParams;
use crate::request::configure_request;
use crate::request::RequestParts;
use crate::request::TooManyHeaders;
use crate::ticket::is_pointer_count;
use crate::ticket::IdSource;
use crate::ticket::Ticket;
use http::header::HeaderMap;
use http::header::HeaderValue;
use std::sync::Arc;
use vstd::prelude::*;
use vstd::string::*;

verus! {

/// Ids are given out one after the other, from `0` on, and start again after the largest.
pub proof fn law_ids_follow_each_other(
    made: IdSource,
    first: &mut IdSource,
    a: usize,
    second: &mut IdSource,
    b: usize,
)
    requires
        call_ensures(IdSource::new, (), made),
        call_ensures(IdSource::next_id, (first,), a),
        *old(second) == *final(first),
        call_ensures(IdSource::next_id, (second,), b),
    ensures
        *old(first) == made ==> a == 0,
        a < usize::MAX ==> b == a + 1,
        a == usize::MAX ==> b == 0,
{
}

/// A ticket has the id of its connection.
pub proof fn law_a_ticket_has_an_id(id: usize, made: Ticket, r: usize)
    requires
        call_ensures(Ticket::new, (id,), made),
        call_ensures(Ticket::connection_id, (&made,), r),
    ensures
        r == id,
{
}

/// A connection is what it was made with: it goes to the host, speaks the protocol, and has the id
/// that its source gives out, which is then given out no more.
pub proof fn law_a_connection_is_what_it_was_made_with(
    ids: &mut IdSource,
    host_port: HostPort,
    made: Connection,
    id: usize,
    to: &HostPort,
    is_http2: bool,
    protocol: Protocol,
    name: &'static str,
    given: &mut IdSource,
    given_id: usize,
)
    requires
        call_ensures(Connection::new_h1, (ids, host_port), made),
        call_ensures(Connection::id, (&made,), id),
        call_ensures(Connection::host_port, (&made,), to),
        call_ensures(Connection::is_http2, (&made,), is_http2),
        call_ensures(Connection::protocol, (&made,), protocol),
        call_ensures(Protocol::as_str, (protocol,), name),
        *old(given) == *old(ids),
        call_ensures(IdSource::next_id, (given,), given_id),
    ensures
        id == given_id,
        final(ids)@ == final(given)@,
        *to == host_port,
        !is_http2,
        protocol == Protocol::H1,
        name@ == "Http1"@,
        made@.bw is None,
        made@.ticket.id() == id,
{
}

/// The same of a connection that speaks HTTP/2, which has a monitor too.
pub proof fn law_a_second_protocol_has_a_monitor(
    ids: &mut IdSource,
    host_port: HostPort,
    bw: BandwidthMonitor,
    made: Connection,
    id: usize,
    to: &HostPort,
    is_http2: bool,
    protocol: Protocol,
    name: &'static str,
    given: &mut IdSource,
    given_id: usize,
)
    requires
        call_ensures(Connection::new_h2, (ids, host_port, bw), made),
        call_ensures(Connection::id, (&made,), id),
        call_ensures(Connection::host_port, (&made,), to),
        call_ensures(Connection::is_http2, (&made,), is_http2),
        call_ensures(Connection::protocol, (&made,), protocol),
        call_ensures(Protocol::as_str, (protocol,), name),
        *old(given) == *old(ids),
        call_ensures(IdSource::next_id, (given,), given_id),
    ensures
        id == given_id,
        final(ids)@ == final(given)@,
        *to == host_port,
        is_http2,
        protocol == Protocol::H2,
        name@ == "Http2"@,
        made@.bw == Some(bw),
        made@.ticket.id() == id,
{
}

/// Two connections are equal if their ids are, and only then.
pub proof fn law_connections_are_equal_by_id(
    a: Connection,
    b: Connection,
    a_id: usize,
    b_id: usize,
    r: bool,
)
    requires
        call_ensures(Connection::id, (&a,), a_id),
        call_ensures(Connection::id, (&b,), b_id),
        call_ensures(<Connection as PartialEq>::eq, (&a, &b), r),
    ensures
        r == (a_id == b_id),
{
}

/// The unfinished requests are the pointers to the ticket of the connection, but for its own.
pub proof fn law_unfinished_requests_are_pointers_but_one(
    conn: Connection,
    r: usize,
    count: usize,
    others: usize,
)
    requires
        call_ensures(Connection::unfinished_requests, (&conn,), r),
        count >= 1,
        call_ensures(unfinished_of, (count,), others),
    ensures
        others + 1 == count,
        r < usize::MAX,
        is_pointer_count(conn@.ticket, (r + 1) as usize),
{
}

/// A request that is started keeps the ticket of its connection. Its body is configured as one that
/// is sent, unless it was read before, and small content is read ahead if that is asked for and the
/// body was not read before.
pub proof fn law_a_started_request_keeps_the_ticket<R>(
    conn: Connection,
    params: HReqParams,
    headers: HeaderMap<HeaderValue>,
    body: &mut Body<R>,
    r: StartedRequest,
    configured: &mut Body<R>,
)
    requires
        call_ensures(Connection::start_request::<R>, (&conn, &params, &headers, body), r),
        *old(configured) == *old(body),
        !old(body)@.has_read ==> call_ensures(
            Body::<R>::configure,
            (configured, &params, &headers, false),
            (),
        ),
    ensures
        *r.unfin == conn@.ticket,
        old(body)@.has_read ==> final(body)@ == old(body)@ && !r.prebuffer,
        !old(body)@.has_read ==> final(body)@ == final(configured)@ && r.prebuffer
            == params.prebuffer,
{
}

/// Sending a request over a connection settles its headers as configuring it for the protocol of the
/// connection does, and hands out the monitor of the connection.
pub proof fn law_a_request_is_configured_for_its_connection<R>(
    conn: Connection,
    sent: &mut RequestParts,
    body: Body<R>,
    agent_ident: &str,
    r: Result<Option<BandwidthMonitor>, TooManyHeaders>,
    is_http2: bool,
    configured: &mut RequestParts,
    ok: Result<(), TooManyHeaders>,
)
    requires
        call_ensures(Connection::send_request::<R>, (&conn, sent, &body, agent_ident), r),
        call_ensures(Connection::is_http2, (&conn,), is_http2),
        header_contents(old(configured).headers) == header_contents(old(sent).headers),
        old(configured).indicates_body == old(sent).indicates_body,
        call_ensures(configure_request::<R>, (configured, &body, is_http2, agent_ident), ok),
        ok is Ok,
    ensures
        final(sent).indicates_body == old(sent).indicates_body,
        r is Ok ==> r->Ok_0 == conn@.bw && header_contents(final(sent).headers) == header_contents(
            final(configured).headers,
        ),
        r is Err ==> header_contents(final(sent).headers) != header_contents(
            final(configured).headers,
        ),
{
}

/// A response body keeps the ticket of its request, has the monitor, and is configured as one that
/// is received.
pub proof fn law_a_response_keeps_the_ticket<R>(
    body: &mut Body<R>,
    unfin: Arc<Ticket>,
    bw: Option<BandwidthMonitor>,
    params: HReqParams,
    headers: HeaderMap<HeaderValue>,
    counted: &mut Body<R>,
    monitored: &mut Body<R>,
    configured: &mut Body<R>,
)
    requires
        call_ensures(receive_response::<R>, (body, unfin, bw, &params, &headers), ()),
        *old(counted) == *old(body),
        call_ensures(Body::<R>::set_unfinished_recs, (counted, unfin), ()),
        *old(monitored) == *final(counted),
        call_ensures(Body::<R>::set_bw_monitor, (monitored, bw), ()),
        *old(configured) == *final(monitored),
        call_ensures(Body::<R>::configure, (configured, &params, &headers, true), ()),
    ensures
        final(body)@ == final(configured)@,
        final(body)@.unfinished == Some(*unfin),
        final(body)@.bw == bw,
        final(body)@.deadline,
{
}

} // verus!
