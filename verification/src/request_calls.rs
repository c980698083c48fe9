//! What calls that settle the headers of a request come to.

use crate::body::Body;
use crate::body::ContentType;
use crate::headers::header_contents;
use crate::request::can_configure;
use crate::request::check_header_value;
use crate::request::configure_request;
use crate::request::indicates_body;
use crate::request::RequestParts;
use crate::request::TooManyHeaders;
use crate::text::decimal_text;
use vstd::prelude::*;
use vstd::string::*;
use vstd::utf8::*;

verus! {

proof fn lemma_names_differ()
    ensures
        "content-length"@.len() == 14,
        "transfer-encoding"@.len() == 17,
        "user-agent"@.len() == 10,
        "accept"@.len() == 6,
        "content-type"@.len() == 12,
{
    reveal_strlit("content-length");
    reveal_strlit("transfer-encoding");
    reveal_strlit("user-agent");
    reveal_strlit("accept");
    reveal_strlit("content-type");
}

/// Headers that the user set are kept, value by value, whatever comes of configuring a request, and
/// no others are added than the five of a request.
pub proof fn law_set_headers_are_kept<R>(
    parts: &mut RequestParts,
    body: Body<R>,
    is_http2: bool,
    agent_ident: &str,
    r: Result<(), TooManyHeaders>,
    name: Seq<char>,
)
    requires
        call_ensures(configure_request::<R>, (parts, &body, is_http2, agent_ident), r),
    ensures
        ({
            let given = header_contents(old(parts).headers);
            let sent = header_contents(final(parts).headers);
            &&& given.contains_key(name) ==> sent.contains_key(name) && sent[name] == given[name]
            &&& sent.contains_key(name) && !given.contains_key(name) ==> {
                ||| name == "content-length"@
                ||| name == "transfer-encoding"@
                ||| name == "user-agent"@
                ||| name == "accept"@
                ||| name == "content-type"@
            }
        }),
        final(parts).indicates_body == old(parts).indicates_body,
{
}

/// A request has a `user-agent`, which is the name of the agent, an `accept` of everything, and the
/// content type of its body, unless the user set them.
pub proof fn law_standard_headers_are_added<R>(
    parts: &mut RequestParts,
    body: Body<R>,
    is_http2: bool,
    agent_ident: &str,
    r: Result<(), TooManyHeaders>,
)
    requires
        call_ensures(configure_request::<R>, (parts, &body, is_http2, agent_ident), r),
        r is Ok,
    ensures
        ({
            let given = header_contents(old(parts).headers);
            let sent = header_contents(final(parts).headers);
            &&& !given.contains_key("user-agent"@) ==> {
                &&& sent.contains_key("user-agent"@)
                &&& sent["user-agent"@] == seq![encode_utf8(agent_ident@)]
            }
            &&& !given.contains_key("accept"@) ==> {
                &&& sent.contains_key("accept"@)
                &&& sent["accept"@] == seq![encode_utf8("*/*"@)]
            }
            &&& !given.contains_key("content-type"@) ==> {
                &&& sent.contains_key("content-type"@) == (body@.content_typ is Some)
                &&& body@.content_typ == Some(ContentType::Text) ==> sent["content-type"@] == seq![
                    encode_utf8("text/plain; charset=utf-8"@),
                ]
                &&& body@.content_typ == Some(ContentType::Binary) ==> sent["content-type"@]
                    == seq![encode_utf8("application/octet-stream"@)]
                &&& body@.content_typ == Some(ContentType::Json) ==> sent["content-type"@] == seq![
                    encode_utf8("application/json; charset=utf-8"@),
                ]
            }
        }),
{
    lemma_names_differ();
}

/// The `content-length` of a request that did not have one is the length that its body tells as it
/// is sent, in decimal. There is one if that length is known, is not `0` or the method has a body,
/// and the body does not go in chunks: over HTTP/1.1 it does where the first `transfer-encoding` is
/// visible text in which `identity` does not stand.
pub proof fn law_the_content_length_is_what_the_body_tells<R>(
    parts: &mut RequestParts,
    body: Body<R>,
    is_http2: bool,
    agent_ident: &str,
    r: Result<(), TooManyHeaders>,
    length: Option<u64>,
    digits: String,
)
    requires
        call_ensures(configure_request::<R>, (parts, &body, is_http2, agent_ident), r),
        r is Ok,
        call_ensures(Body::<R>::content_encoded_length, (&body,), length),
        length is Some ==> call_ensures(decimal_text, (length->0,), digits),
        !header_contents(old(parts).headers).contains_key("content-length"@),
    ensures
        ({
            let given = header_contents(old(parts).headers);
            let sent = header_contents(final(parts).headers);
            let coding = given["transfer-encoding"@][0];
            let identity = encode_utf8("identity"@);
            let chunked = given.contains_key("transfer-encoding"@) && (forall|i: int|
                0 <= i < coding.len() ==> (32 <= #[trigger] coding[i] < 127 || coding[i] == 9)) && (
            forall|i: int|
                0 <= i <= coding.len() - identity.len() ==> #[trigger] coding.subrange(
                    i,
                    i + identity.len(),
                ) != identity);
            &&& sent.contains_key("content-length"@) == (length is Some && (length->0 > 0
                || old(parts).indicates_body) && (is_http2 || !chunked))
            &&& sent.contains_key("content-length"@) ==> sent["content-length"@] == seq![
                encode_utf8(digits@),
            ]
        }),
{
    lemma_names_differ();
    let given = header_contents(old(parts).headers);
    let coding = given["transfer-encoding"@][0];
    let identity = encode_utf8("identity"@);
    let visible = forall|i: int|
        0 <= i < coding.len() ==> (32 <= #[trigger] coding[i] < 127 || coding[i] == 9);
    let other = forall|i: int|
        0 <= i <= coding.len() - identity.len() ==> #[trigger] coding.subrange(
            i,
            i + identity.len(),
        ) != identity;
    assert(crate::text::text_bytes("identity"@) == identity);
    if crate::request::is_chunked(given) {
        assert(crate::headers::header_text(given, "transfer-encoding"@) == Some(coding));
        assert forall|i: int|
            0 <= i <= coding.len() - identity.len() implies #[trigger] coding.subrange(
            i,
            i + identity.len(),
        ) != identity by {
            assert(!crate::text::occurs_at(coding, identity, i));
        }
        assert(visible && other);
    }
    if given.contains_key("transfer-encoding"@) && visible && other {
        assert forall|i: int| !#[trigger] crate::text::occurs_at(coding, identity, i) by {}
        assert(crate::request::is_chunked(given));
    }
}

/// A request that did not have one gets a `transfer-encoding` only over HTTP/1.1, if there is a body
/// and its length as it is sent is not known. It is then sent in chunks.
pub proof fn law_a_body_of_unknown_length_goes_in_chunks<R>(
    parts: &mut RequestParts,
    body: Body<R>,
    is_http2: bool,
    agent_ident: &str,
    r: Result<(), TooManyHeaders>,
    length: Option<u64>,
    no_body: bool,
)
    requires
        call_ensures(configure_request::<R>, (parts, &body, is_http2, agent_ident), r),
        r is Ok,
        call_ensures(Body::<R>::content_encoded_length, (&body,), length),
        call_ensures(Body::<R>::is_definitely_no_body, (&body,), no_body),
        !header_contents(old(parts).headers).contains_key("transfer-encoding"@),
    ensures
        ({
            let sent = header_contents(final(parts).headers);
            &&& sent.contains_key("transfer-encoding"@) == (length is None && !is_http2
                && !no_body)
            &&& sent.contains_key("transfer-encoding"@) ==> sent["transfer-encoding"@] == seq![
                encode_utf8("chunked"@),
            ]
        }),
{
    lemma_names_differ();
}

/// A request is configured as a whole or fails with something missing: what was added by then is
/// what a configured request has.
pub proof fn law_a_failed_request_lacks_a_header<R>(
    failed: &mut RequestParts,
    configured: &mut RequestParts,
    body: Body<R>,
    is_http2: bool,
    agent_ident: &str,
    r: Result<(), TooManyHeaders>,
    ok: Result<(), TooManyHeaders>,
    name: Seq<char>,
)
    requires
        header_contents(old(failed).headers) == header_contents(old(configured).headers),
        old(failed).indicates_body == old(configured).indicates_body,
        call_ensures(configure_request::<R>, (failed, &body, is_http2, agent_ident), r),
        call_ensures(configure_request::<R>, (configured, &body, is_http2, agent_ident), ok),
        r is Err,
        ok is Ok,
    ensures
        ({
            let partly = header_contents(final(failed).headers);
            let sent = header_contents(final(configured).headers);
            &&& partly != sent
            &&& partly.contains_key(name) ==> sent.contains_key(name) && sent[name] == partly[name]
        }),
{
    lemma_names_differ();
}

/// A request that can be configured for sure is configured, and the name of its agent can stand in a
/// header.
pub proof fn law_what_can_be_configured_is<R>(
    parts: &mut RequestParts,
    body: Body<R>,
    is_http2: bool,
    agent_ident: &str,
    can: bool,
    r: Result<(), TooManyHeaders>,
    name: &[u8],
    valid: bool,
)
    requires
        call_ensures(can_configure::<R>, (&*old(parts), &body, is_http2, agent_ident), can),
        call_ensures(configure_request::<R>, (parts, &body, is_http2, agent_ident), r),
        name@ == encode_utf8(agent_ident@),
        call_ensures(check_header_value, (name,), valid),
    ensures
        can ==> r is Ok && valid,
        valid && r is Ok && header_contents(final(parts).headers) == header_contents(
            old(parts).headers,
        ) ==> can,
        valid && r is Ok && header_contents(final(parts).headers).dom().finite() && header_contents(
            final(parts).headers,
        ).dom().len() <= 6553 ==> can,
{
}

/// Every request can be configured if the name of its agent can stand in a header.
pub proof fn law_what_requests_can_be_configured<R>(
    parts: &mut RequestParts,
    body: Body<R>,
    is_http2: bool,
    agent_ident: &str,
    name: &[u8],
    valid: bool,
)
    requires
        name@ == encode_utf8(agent_ident@),
        call_ensures(check_header_value, (name,), valid),
        valid,
    ensures
        call_requires(configure_request::<R>, (parts, &body, is_http2, agent_ident)),
{
}

/// POST, PUT and PATCH are the methods that really have a body, and no others.
pub proof fn law_methods_that_have_a_body(method: &str, r: bool)
    requires
        call_ensures(indicates_body, (method,), r),
    ensures
        method@ == "POST"@ ==> r,
        method@ == "PUT"@ ==> r,
        method@ == "PATCH"@ ==> r,
        r ==> method@ == "POST"@ || method@ == "PUT"@ || method@ == "PATCH"@,
{
}

/// A header value has no control characters but the tab, and no other byte is refused.
pub proof fn law_header_values_have_no_control_characters(value: &[u8], r: bool)
    requires
        call_ensures(check_header_value, (value,), r),
    ensures
        r == !exists|i: int|
            0 <= i < value@.len() && (#[trigger] value@[i] < 32 && value@[i] != 9 || value@[i]
                == 127),
{
}

} // verus!
