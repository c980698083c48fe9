use hreq::body::Body;
use hreq::body_buf::BodyBuf;
use hreq::send::{has_no_body, RequestSender, SendAction, SendEvent, SendPhase};

/// What a run did.
struct Run {
    sent: Vec<u8>,
    polls: usize,
    ends: usize,
    waited: bool,
}

/// Sends a body that comes in chunks; the response comes with the `early`th look at it.
fn send(
    chunks: &[&[u8]],
    no_body: bool,
    buf: &mut BodyBuf<u8>,
    limit: usize,
    early: Option<usize>,
) -> Run {
    let mut sender = RequestSender::new(5, no_body);
    let mut run = Run {
        sent: vec![],
        polls: 0,
        ends: 0,
        waited: false,
    };
    let mut chunks = chunks.iter();
    let mut event = SendEvent::Opened;
    loop {
        event = match sender.step(event, buf, limit) {
            SendAction::PollResponse => {
                assert_eq!(sender.phase(), SendPhase::Polling);
                run.polls += 1;
                if early == Some(run.polls) {
                    SendEvent::ResponseReady
                } else {
                    SendEvent::ResponsePending
                }
            }
            SendAction::ReadBody => {
                assert_eq!(sender.body_mut(), Some(&mut 5));
                SendEvent::BodyChunk(chunks.next().map(|c| c.to_vec()).unwrap_or_default())
            }
            SendAction::SendData(data) => {
                assert!(!data.is_empty());
                run.sent.extend(data);
                SendEvent::DataSent
            }
            SendAction::SendEnd => {
                assert_eq!(sender.body_mut(), None);
                run.ends += 1;
                SendEvent::EndSent
            }
            SendAction::AwaitResponse => {
                run.waited = true;
                SendEvent::ResponseReady
            }
            SendAction::Finish => break,
        };
    }
    assert_eq!(sender.phase(), SendPhase::Done);
    run
}

#[test]
fn a_body_is_sent_completely() {
    let mut buf = BodyBuf::new(0);
    let run = send(&[b"ab", b"cde"], false, &mut buf, 16, None);
    assert_eq!(run.sent, b"abcde");
    assert_eq!(run.ends, 1);
    assert!(run.waited);
    assert_eq!(run.polls, 3);
    // an inert buffer retains nothing
    assert_eq!(buf.len(), 0);
    assert_eq!(buf.reset(true), Some(5));
}

#[test]
fn a_redirect_sends_the_same_again() {
    let mut buf = BodyBuf::new(10);
    let run = send(&[b"ab", b"cde"], false, &mut buf, 16, None);
    assert_eq!(run.sent, b"abcde");
    assert_eq!(buf.len(), 5);
    assert_eq!(buf.reset(true), Some(5));
    // the body is at its end by now; what was retained is sent in pieces
    let run = send(&[], false, &mut buf, 2, None);
    assert_eq!(run.sent, b"abcde");
    assert_eq!(run.polls, 4);
    assert_eq!(buf.reset(true), Some(5));
    // what is left of the body follows
    let run = send(&[b"fg"], false, &mut buf, 16, None);
    assert_eq!(run.sent, b"abcdefg");
    assert_eq!(buf.len(), 7);
}

#[test]
fn an_early_response_aborts_the_sending() {
    let mut buf = BodyBuf::new(10);
    let run = send(&[b"ab", b"cde"], false, &mut buf, 16, Some(2));
    assert_eq!(run.sent, b"ab");
    assert_eq!(run.ends, 1);
    assert!(!run.waited);
    assert_eq!(buf.len(), 2);
    assert_eq!(buf.reset(true), Some(5));
    let run = send(&[b"ab"], false, &mut buf, 16, Some(1));
    assert_eq!(run.sent, b"");
    assert_eq!(run.ends, 1);
}

#[test]
fn a_redirect_after_an_early_response_sends_the_whole_body() {
    let mut buf = BodyBuf::new(10);
    let run = send(&[b"ab", b"cde"], false, &mut buf, 16, Some(2));
    assert_eq!(run.sent, b"ab");
    assert_eq!(buf.reset(true), Some(5));
    // cut short once more, before all that was retained was sent
    let run = send(&[b"cde"], false, &mut buf, 1, Some(2));
    assert_eq!(run.sent, b"a");
    assert_eq!(buf.reset(true), Some(5));
    let run = send(&[b"cde"], false, &mut buf, 16, None);
    assert_eq!(run.sent, b"abcde");
}

#[test]
fn too_large_a_body_is_not_retained() {
    let mut buf = BodyBuf::new(4);
    let run = send(&[b"ab", b"cde", b"f"], false, &mut buf, 16, None);
    assert_eq!(run.sent, b"abcdef");
    assert_eq!(buf.len(), 0);
    buf.reset(true);
    let run = send(&[], false, &mut buf, 16, None);
    assert_eq!(run.sent, b"");
}

#[test]
fn a_request_without_a_body_sends_nothing() {
    let mut buf = BodyBuf::new(10);
    let run = send(&[b"ab"], true, &mut buf, 16, None);
    assert_eq!(run.sent, b"");
    assert_eq!(run.ends, 0);
    assert_eq!(run.polls, 0);
    assert!(run.waited);
    assert_eq!(buf.reset(true), None);
}

#[test]
fn requests_without_a_body() {
    let empty: Body<u8> = Body::empty();
    let text: Body<u8> = Body::from_str("abc");
    let reader = Body::from_async_read(1_u8, None);
    let mut buf: BodyBuf<u8> = BodyBuf::new(10);
    assert!(has_no_body(&empty, &buf));
    assert!(!has_no_body(&text, &buf));
    assert!(!has_no_body(&reader, &buf));
    buf.append(b"retained");
    assert!(!has_no_body(&empty, &buf));
}

#[test]
fn body_buffers() {
    let mut buf: BodyBuf<u8> = BodyBuf::new(5);
    buf.append(b"abc");
    assert_eq!(buf.len(), 3);
    let mut out = [b'.'; 2];
    assert_eq!(buf.read(&mut out), 2);
    assert_eq!(&out, b"ab");
    assert_eq!(buf.len(), 3);
    buf.append(b"de");
    assert_eq!(buf.read(&mut out), 2);
    assert_eq!(&out, b"cd");
    assert_eq!(buf.read(&mut out), 1);
    assert_eq!(&out, b"ed");
    assert_eq!(buf.read(&mut out), 0);
    // all of it can be read again
    assert_eq!(buf.reset(true), None);
    let mut out = [b'.'; 8];
    assert_eq!(buf.read(&mut out), 5);
    assert_eq!(&out, b"abcde...");
    // a reset that keeps nothing
    buf.set_return_body(1);
    assert_eq!(buf.reset(false), None);
    assert_eq!(buf.reset(true), None);
    assert_eq!(buf.len(), 0);
    buf.append(b"12345");
    assert_eq!(buf.len(), 5);
    // the first byte too many
    buf.append(b"6");
    assert_eq!(buf.len(), 0);
    assert_eq!(buf.read(&mut out), 0);
    buf.reset(false);
    buf.append(b"1");
    assert_eq!(buf.len(), 0);
}

#[test]
fn an_inert_buffer() {
    let mut buf: BodyBuf<u8> = BodyBuf::new(0);
    buf.append(b"");
    buf.append(b"abc");
    assert_eq!(buf.len(), 0);
    assert_eq!(buf.read(&mut [0; 4]), 0);
    buf.set_return_body(3);
    assert_eq!(buf.reset(true), Some(3));
    assert_eq!(buf.reset(true), None);
}
