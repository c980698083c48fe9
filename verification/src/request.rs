//! The headers that a request is sent with.

use crate::body::encoded_length;
use crate::body::Body;
use crate::body::BodyView;
use crate::body::ContentType;
use crate::headers::can_take;
use crate::headers::get_str;
use crate::headers::has_room;
use crate::headers::header_contents;
use crate::headers::header_count;
use crate::headers::header_get;
use crate::headers::header_set;
use crate::headers::header_text;
use crate::headers::is_header_name;
use crate::headers::is_header_value;
use crate::headers::is_visible_ascii;
use crate::headers::name_count;
use crate::headers::MAX_HEADER_NAMES;
use crate::text::decimal;
use crate::text::decimal_text;
use crate::text::find;
use crate::text::is_part_of;
use crate::text::occurs_at;
use crate::text::text_bytes;
use crate::text::text_equal;
use http::header::HeaderMap;
use http::header::HeaderValue;
use vstd::prelude::*;
use vstd::string::*;
use vstd::utf8::*;

verus! {

/// What is known of a request before its body is sent.
pub struct RequestParts {
    /// The method is one that really has a body.
    pub indicates_body: bool,
    pub headers: HeaderMap<HeaderValue>,
}

/// Tells whether a method is one that really has a body.
pub fn indicates_body(method: &str) -> (r: bool)
    ensures
        r == (method@ == "POST"@ || method@ == "PUT"@ || method@ == "PATCH"@),
{
    text_equal(method, "POST") || text_equal(method, "PUT") || text_equal(method, "PATCH")
}

/// The headers of a request became too many for a header map.
#[derive(Clone, Copy, Debug, PartialEq, Eq, Structural)]
pub struct TooManyHeaders;

/// Headers to which one is added, unless the name is there.
pub open spec fn with_default(
    contents: Map<Seq<char>, Seq<Seq<u8>>>,
    name: Seq<char>,
    value: Seq<u8>,
) -> Map<Seq<char>, Seq<Seq<u8>>> {
    if contents.contains_key(name) {
        contents
    } else {
        contents.insert(name, seq![value])
    }
}

/// The headers ask for chunked encoding: over HTTP/1.1 a body goes in chunks if there is a
/// `transfer-encoding` other than `identity`.
pub open spec fn is_chunked(contents: Map<Seq<char>, Seq<Seq<u8>>>) -> bool {
    match header_text(contents, "transfer-encoding"@) {
        Some(value) => !is_part_of(text_bytes("identity"@), value),
        None => false,
    }
}

/// Headers to which those are added that tell the other side where the body ends.
pub open spec fn with_framing<R>(
    contents: Map<Seq<char>, Seq<Seq<u8>>>,
    body: BodyView<R>,
    indicates_body: bool,
    is_http2: bool,
) -> Map<Seq<char>, Seq<Seq<u8>>> {
    match encoded_length(body) {
        Some(len) => if (len > 0 || indicates_body) && (is_http2 || !is_chunked(contents)) {
            with_default(contents, "content-length"@, text_bytes(decimal(len as nat)))
        } else {
            contents
        },
        None => if !is_http2 && body.length != Some(0u64) {
            with_default(contents, "transfer-encoding"@, text_bytes("chunked"@))
        } else {
            contents
        },
    }
}

/// The headers that a request is sent with.
pub open spec fn request_headers<R>(
    contents: Map<Seq<char>, Seq<Seq<u8>>>,
    body: BodyView<R>,
    indicates_body: bool,
    is_http2: bool,
    agent_ident: Seq<char>,
) -> Map<Seq<char>, Seq<Seq<u8>>> {
    let framed = with_framing(contents, body, indicates_body, is_http2);
    let named = with_default(framed, "user-agent"@, text_bytes(agent_ident));
    let accepting = with_default(named, "accept"@, text_bytes("*/*"@));
    match body.content_typ {
        Some(content_typ) => with_default(
            accepting,
            "content-type"@,
            text_bytes(content_typ.text()),
        ),
        None => accepting,
    }
}

/// The headers of a request to which some, but not all, were added of those that it is sent with.
/// They are added in the order of their names here: `content-length` or `transfer-encoding`,
/// `user-agent`, `accept`, `content-type`.
pub open spec fn is_partly_configured<R>(
    partly: Map<Seq<char>, Seq<Seq<u8>>>,
    contents: Map<Seq<char>, Seq<Seq<u8>>>,
    body: BodyView<R>,
    indicates_body: bool,
    is_http2: bool,
    agent_ident: Seq<char>,
) -> bool {
    let framed = with_framing(contents, body, indicates_body, is_http2);
    let named = with_default(framed, "user-agent"@, text_bytes(agent_ident));
    let accepting = with_default(named, "accept"@, text_bytes("*/*"@));
    &&& partly == contents || partly == framed || partly == named || partly == accepting
    &&& partly != request_headers(contents, body, indicates_body, is_http2, agent_ident)
}

/// A text of visible ASCII characters and spaces.
pub open spec fn is_plain_text(text: Seq<char>) -> bool {
    forall|i: int| 0 <= i < text.len() ==> ' ' <= #[trigger] text[i] <= '~'
}

proof fn lemma_plain_text_is_value(text: Seq<char>)
    requires
        is_plain_text(text),
    ensures
        is_header_value(text_bytes(text)),
{
    assert(is_ascii_chars(text));
    is_ascii_chars_encode_utf8(text);
}

proof fn lemma_decimal_is_plain(n: nat)
    ensures
        is_plain_text(decimal(n)),
    decreases n,
{
    if n >= 10 {
        lemma_decimal_is_plain(n / 10);
    }
}

proof fn lemma_content_type_is_plain(content_typ: ContentType)
    ensures
        is_plain_text(content_typ.text()),
{
    reveal_strlit("text/plain; charset=utf-8");
    reveal_strlit("application/octet-stream");
    reveal_strlit("application/json; charset=utf-8");
}

proof fn lemma_header_names()
    ensures
        is_header_name("content-length"@),
        is_header_name("transfer-encoding"@),
        is_header_name("user-agent"@),
        is_header_name("accept"@),
        is_header_name("content-type"@),
{
    reveal_strlit("content-length");
    reveal_strlit("transfer-encoding");
    reveal_strlit("user-agent");
    reveal_strlit("accept");
    reveal_strlit("content-type");
}

/// Where a map that began with `given` can take `sent`, there is room for each header on the way.
proof fn lemma_room_for_default(
    given: Map<Seq<char>, Seq<Seq<u8>>>,
    contents: Map<Seq<char>, Seq<Seq<u8>>>,
    name: Seq<char>,
    value: Seq<u8>,
    sent: Map<Seq<char>, Seq<Seq<u8>>>,
)
    requires
        given.dom().subset_of(contents.dom()),
        with_default(contents, name, value).dom().subset_of(sent.dom()),
        can_take(given, sent),
    ensures
        !contents.contains_key(name) ==> has_room(contents, 1),
{
    if !contents.contains_key(name) {
        let after = with_default(contents, name, value);
        assert(after.dom().contains(name) && !given.dom().contains(name));
        vstd::set_lib::lemma_len_subset(after.dom(), sent.dom());
        vstd::set_lib::lemma_len_subset(contents.dom(), sent.dom());
        assert(after.dom() =~= contents.dom().insert(name));
    }
}

/// Sets a header, unless it is there. Tells whether the header is there then.
fn set_default(headers: &mut HeaderMap<HeaderValue>, name: &'static str, value: &str) -> (r: bool)
    requires
        is_header_name(name@),
        is_header_value(text_bytes(value@)),
    ensures
        header_contents(*final(headers)) == (if r {
            with_default(header_contents(*old(headers)), name@, text_bytes(value@))
        } else {
            header_contents(*old(headers))
        }),
        header_contents(*old(headers)).contains_key(name@) || has_room(
            header_contents(*old(headers)),
            1,
        ) ==> r,
        r == header_contents(*final(headers)).contains_key(name@),
{
    if header_get(headers, name).is_none() {
        header_set(headers, name, value.as_bytes())
    } else {
        true
    }
}

/// Tells whether the headers ask for chunked encoding.
fn asks_for_chunked(headers: &HeaderMap<HeaderValue>) -> (r: bool)
    ensures
        r == is_chunked(header_contents(*headers)),
{
    proof {
        lemma_header_names();
    }
    match get_str(headers, "transfer-encoding") {
        Some(value) => match find(value.as_slice(), "identity".as_bytes()) {
            Some(at) => {
                let ghost text = header_text(header_contents(*headers), "transfer-encoding"@)->0;
                assert(occurs_at(text, text_bytes("identity"@), at as int));
                false
            },
            None => true,
        },
        None => false,
    }
}

/// Ensure correct content-length, transfer-encoding, user-agent, accept and content-type headers.
///
/// Fails if the headers become too many for a header map. Headers that it has room for never do.
pub fn configure_request<R>(
    parts: &mut RequestParts,
    body: &Body<R>,
    is_http2: bool,
    agent_ident: &str,
) -> (r: Result<(), TooManyHeaders>)
    requires
        is_header_value(text_bytes(agent_ident@)),
    ensures
        final(parts).indicates_body == old(parts).indicates_body,
        match r {
            Ok(_) => header_contents(final(parts).headers) == request_headers(
                header_contents(old(parts).headers),
                body@,
                old(parts).indicates_body,
                is_http2,
                agent_ident@,
            ),
            Err(_) => is_partly_configured(
                header_contents(final(parts).headers),
                header_contents(old(parts).headers),
                body@,
                old(parts).indicates_body,
                is_http2,
                agent_ident@,
            ),
        },
        can_take(
            header_contents(old(parts).headers),
            request_headers(
                header_contents(old(parts).headers),
                body@,
                old(parts).indicates_body,
                is_http2,
                agent_ident@,
            ),
        ) ==> r is Ok,
{
    let ghost given = header_contents(parts.headers);
    let ghost sent = request_headers(given, body@, parts.indicates_body, is_http2, agent_ident@);
    proof {
        lemma_header_names();
        lemma_names_differ();
    }
    if let Some(len) = body.content_encoded_length() {
        // the body indicates a length (for sure).
        // we don't want to set content-length: 0 unless we know it's
        // a method that really has a body. also we never override
        // a user set content-length header, nor set one where a user
        // set transfer-encoding makes the body go in chunks.
        if (len > 0 || parts.indicates_body) && (is_http2 || !asks_for_chunked(&parts.headers)) {
            proof {
                let value = text_bytes(decimal(len as nat));
                lemma_decimal_is_plain(len as nat);
                lemma_plain_text_is_value(decimal(len as nat));
                if can_take(given, sent) {
                    lemma_room_for_default(given, given, "content-length"@, value, sent);
                }
            }
            if !set_default(&mut parts.headers, "content-length", decimal_text(len).as_str()) {
                assert(sent.contains_key("content-length"@));
                return Err(TooManyHeaders);
            }
        }
    } else if !is_http2 && body.is_definitely_a_body() {
        // body does not indicate a length (like from a reader),
        // but there definitely is a body.
        proof {
            let value = text_bytes("chunked"@);
            reveal_strlit("chunked");
            lemma_plain_text_is_value("chunked"@);
            if can_take(given, sent) {
                lemma_room_for_default(given, given, "transfer-encoding"@, value, sent);
            }
        }
        if !set_default(&mut parts.headers, "transfer-encoding", "chunked") {
            assert(sent.contains_key("transfer-encoding"@));
            return Err(TooManyHeaders);
        }
    }
    let ghost framed = header_contents(parts.headers);
    proof {
        if can_take(given, sent) {
            let value = text_bytes(agent_ident@);
            lemma_room_for_default(given, framed, "user-agent"@, value, sent);
        }
    }
    if !set_default(&mut parts.headers, "user-agent", agent_ident) {
        assert(sent.contains_key("user-agent"@));
        return Err(TooManyHeaders);
    }
    let ghost named = header_contents(parts.headers);
    proof {
        reveal_strlit("*/*");
        lemma_plain_text_is_value("*/*"@);
        if can_take(given, sent) {
            lemma_room_for_default(given, named, "accept"@, text_bytes("*/*"@), sent);
        }
    }
    if !set_default(&mut parts.headers, "accept", "*/*") {
        assert(sent.contains_key("accept"@));
        return Err(TooManyHeaders);
    }
    if let Some(ctype) = body.content_type() {
        let ghost accepting = header_contents(parts.headers);
        proof {
            lemma_content_type_is_plain(body@.content_typ->0);
            lemma_plain_text_is_value(ctype@);
            if can_take(given, sent) {
                lemma_room_for_default(given, accepting, "content-type"@, text_bytes(ctype@), sent);
            }
        }
        if !set_default(&mut parts.headers, "content-type", ctype) {
            assert(sent.contains_key("content-type"@));
            return Err(TooManyHeaders);
        }
    }
    Ok(())
}

/// Tells whether a byte string can be a header value.
pub fn check_header_value(value: &[u8]) -> (r: bool)
    ensures
        r == is_header_value(value@),
{
    let mut i: usize = 0;
    while i < value.len()
        invariant
            i <= value@.len(),
            forall|j: int|
                0 <= j < i ==> ((#[trigger] value@[j] >= 32 && value@[j] != 127) || value@[j] == 9),
        decreases value@.len() - i,
    {
        let b: u8 = value[i];
        if !(b >= 32 && b != 127 || b == 9) {
            return false;
        }
        i = i + 1;
    }
    true
}

/// The number of header names that are added, if there is no such header.
fn count_default(headers: &HeaderMap<HeaderValue>, name: &'static str) -> (r: usize)
    requires
        is_header_name(name@),
    ensures
        r == if header_contents(*headers).contains_key(name@) {
            0int
        } else {
            1
        },
{
    if header_get(headers, name).is_none() {
        1
    } else {
        0
    }
}

/// A header that is added makes one more name.
proof fn lemma_default_count(
    contents: Map<Seq<char>, Seq<Seq<u8>>>,
    name: Seq<char>,
    value: Seq<u8>,
    count: nat,
)
    requires
        name_count(contents) == Some(count),
    ensures
        name_count(with_default(contents, name, value)) == Some(
            if contents.contains_key(name) {
                count
            } else {
                count + 1
            },
        ),
{
    if !contents.contains_key(name) {
        assert(with_default(contents, name, value).dom() =~= contents.dom().insert(name));
    }
}

/// Tells whether a request can be configured for sure: the headers that it is sent with are not so
/// many that a map may have no room for them, and the agent's name can stand in a header.
pub fn can_configure<R>(
    parts: &RequestParts,
    body: &Body<R>,
    is_http2: bool,
    agent_ident: &str,
) -> (r: bool)
    ensures
        r == (can_take(
            header_contents(parts.headers),
            request_headers(
                header_contents(parts.headers),
                body@,
                parts.indicates_body,
                is_http2,
                agent_ident@,
            ),
        ) && is_header_value(text_bytes(agent_ident@))),
{
    let ghost given = header_contents(parts.headers);
    let ghost framed = with_framing(given, body@, parts.indicates_body, is_http2);
    let ghost named = with_default(framed, "user-agent"@, text_bytes(agent_ident@));
    let ghost accepting = with_default(named, "accept"@, text_bytes("*/*"@));
    proof {
        lemma_header_names();
        lemma_names_differ();
    }
    let count: usize = header_count(&parts.headers);
    let mut added: usize = 0;
    if let Some(len) = body.content_encoded_length() {
        if (len > 0 || parts.indicates_body) && (is_http2 || !asks_for_chunked(&parts.headers)) {
            added = count_default(&parts.headers, "content-length");
            proof {
                let value = text_bytes(decimal(len as nat));
                lemma_default_count(given, "content-length"@, value, count as nat);
            }
        }
    } else if !is_http2 && body.is_definitely_a_body() {
        added = count_default(&parts.headers, "transfer-encoding");
        proof {
            let value = text_bytes("chunked"@);
            lemma_default_count(given, "transfer-encoding"@, value, count as nat);
        }
    }
    proof {
        let value = text_bytes(agent_ident@);
        lemma_default_count(framed, "user-agent"@, value, (count + added) as nat);
    }
    added = added + count_default(&parts.headers, "user-agent");
    proof {
        lemma_default_count(named, "accept"@, text_bytes("*/*"@), (count + added) as nat);
    }
    added = added + count_default(&parts.headers, "accept");
    if let Some(ctype) = body.content_type() {
        proof {
            let value = text_bytes(ctype@);
            lemma_default_count(accepting, "content-type"@, value, (count + added) as nat);
        }
        added = added + count_default(&parts.headers, "content-type");
    }
    let fits: bool = added == 0 || count <= MAX_HEADER_NAMES && added <= MAX_HEADER_NAMES - count;
    fits && check_header_value(agent_ident.as_bytes())
}

proof fn lemma_names_differ()
    ensures
        "content-length"@.len() == 14,
        "transfer-encoding"@.len() == 17,
        "user-agent"@.len() == 10,
        "accept"@.len() == 6,
        "content-type"@.len() == 12,
{
    reveal_strlit("content-length");
    reveal_strlit("transfer-encoding");
    reveal_strlit("user-agent");
    reveal_strlit("accept");
    reveal_strlit("content-type");
}

proof fn lemma_chunked_is_not_identity()
    ensures
        is_visible_ascii(text_bytes("chunked"@)),
        text_bytes("chunked"@).len() < text_bytes("identity"@).len(),
{
    reveal_strlit("chunked");
    reveal_strlit("identity");
    assert(is_ascii_chars("chunked"@));
    assert(is_ascii_chars("identity"@));
    is_ascii_chars_encode_utf8("chunked"@);
    is_ascii_chars_encode_utf8("identity"@);
}

/// A request with few headers is always configured: four more names than it has are never too many
/// for a map as long as they are no more than 6553.
pub proof fn law_few_headers_are_never_too_many<R>(
    parts: &mut RequestParts,
    body: Body<R>,
    is_http2: bool,
    agent_ident: &str,
    r: Result<(), TooManyHeaders>,
)
    requires
        call_ensures(configure_request::<R>, (parts, &body, is_http2, agent_ident), r),
        header_contents(old(parts).headers).dom().finite(),
        header_contents(old(parts).headers).dom().len() + 4 <= 6553,
    ensures
        r is Ok,
{
    let given = header_contents(old(parts).headers);
    let count = given.dom().len();
    let framed = with_framing(given, body@, old(parts).indicates_body, is_http2);
    let named = with_default(framed, "user-agent"@, text_bytes(agent_ident@));
    let accepting = with_default(named, "accept"@, text_bytes("*/*"@));
    if encoded_length(body@) is Some {
        let value = text_bytes(decimal(encoded_length(body@)->0 as nat));
        lemma_default_count(given, "content-length"@, value, count);
    } else {
        lemma_default_count(given, "transfer-encoding"@, text_bytes("chunked"@), count);
    }
    let framed_count = framed.dom().len();
    lemma_default_count(framed, "user-agent"@, text_bytes(agent_ident@), framed_count);
    let named_count = named.dom().len();
    lemma_default_count(named, "accept"@, text_bytes("*/*"@), named_count);
    if body@.content_typ is Some {
        let value = text_bytes(body@.content_typ->0.text());
        lemma_default_count(accepting, "content-type"@, value, accepting.dom().len());
    }
}

/// A header that the user set is never changed.
pub proof fn law_user_headers_are_kept<R>(
    contents: Map<Seq<char>, Seq<Seq<u8>>>,
    body: BodyView<R>,
    indicates_body: bool,
    is_http2: bool,
    agent_ident: Seq<char>,
    name: Seq<char>,
)
    requires
        contents.contains_key(name),
    ensures
        ({
            let sent = request_headers(contents, body, indicates_body, is_http2, agent_ident);
            sent.contains_key(name) && sent[name] == contents[name]
        }),
{
}

/// Nothing but the five headers of a request is ever added, each with one value.
pub proof fn law_only_request_headers_are_added<R>(
    contents: Map<Seq<char>, Seq<Seq<u8>>>,
    body: BodyView<R>,
    indicates_body: bool,
    is_http2: bool,
    agent_ident: Seq<char>,
    name: Seq<char>,
)
    requires
        request_headers(contents, body, indicates_body, is_http2, agent_ident).contains_key(name),
        !contents.contains_key(name),
    ensures
        ({
            ||| name == "content-length"@
            ||| name == "transfer-encoding"@
            ||| name == "user-agent"@
            ||| name == "accept"@
            ||| name == "content-type"@
        }),
        request_headers(contents, body, indicates_body, is_http2, agent_ident)[name].len() == 1,
{
}

/// Every request is sent with a `user-agent` and an `accept` header, and with a `content-type` if
/// its body has one. What the user did not set is the name of the agent, `*/*`, and the content
/// type of the body.
pub proof fn law_standard_headers_are_present<R>(
    contents: Map<Seq<char>, Seq<Seq<u8>>>,
    body: BodyView<R>,
    indicates_body: bool,
    is_http2: bool,
    agent_ident: Seq<char>,
)
    ensures
        ({
            let sent = request_headers(contents, body, indicates_body, is_http2, agent_ident);
            &&& sent.contains_key("user-agent"@)
            &&& sent.contains_key("accept"@)
            &&& !contents.contains_key("user-agent"@) ==> sent["user-agent"@] == seq![
                text_bytes(agent_ident),
            ]
            &&& !contents.contains_key("accept"@) ==> sent["accept"@] == seq![text_bytes("*/*"@)]
            &&& match body.content_typ {
                Some(content_typ) => {
                    &&& sent.contains_key("content-type"@)
                    &&& !contents.contains_key("content-type"@) ==> sent["content-type"@] == seq![
                        text_bytes(content_typ.text()),
                    ]
                },
                None => sent.contains_key("content-type"@) == contents.contains_key(
                    "content-type"@,
                ),
            }
        }),
{
    lemma_names_differ();
}

/// A body is framed in one way: over HTTP/1.1, unless the user did so, a request is not sent both
/// with a `content-length` and in chunks.
pub proof fn law_framing_is_unique<R>(
    contents: Map<Seq<char>, Seq<Seq<u8>>>,
    body: BodyView<R>,
    indicates_body: bool,
    agent_ident: Seq<char>,
)
    requires
        !contents.contains_key("content-length"@),
    ensures
        ({
            let sent = request_headers(contents, body, indicates_body, false, agent_ident);
            !(sent.contains_key("content-length"@) && is_chunked(sent))
        }),
{
    lemma_names_differ();
}

/// A body that there is, of a length that is not known, is sent in chunks over HTTP/1.1.
pub proof fn law_unsized_body_is_chunked<R>(
    contents: Map<Seq<char>, Seq<Seq<u8>>>,
    body: BodyView<R>,
    indicates_body: bool,
    agent_ident: Seq<char>,
)
    requires
        encoded_length(body) is None,
        body.length != Some(0u64),
        !contents.contains_key("transfer-encoding"@),
    ensures
        ({
            let sent = request_headers(contents, body, indicates_body, false, agent_ident);
            &&& sent.contains_key("transfer-encoding"@)
            &&& sent["transfer-encoding"@] == seq![text_bytes("chunked"@)]
            &&& is_chunked(sent)
        }),
{
    lemma_names_differ();
    lemma_chunked_is_not_identity();
}

/// A `content-length` that the user did not set is the length of the body as it is sent. It is
/// there if that length is known, unless chunked encoding is used, or unless it is `0` and the
/// method has no body.
pub proof fn law_content_length_is_exact<R>(
    contents: Map<Seq<char>, Seq<Seq<u8>>>,
    body: BodyView<R>,
    indicates_body: bool,
    is_http2: bool,
    agent_ident: Seq<char>,
)
    requires
        !contents.contains_key("content-length"@),
    ensures
        ({
            let sent = request_headers(contents, body, indicates_body, is_http2, agent_ident);
            match encoded_length(body) {
                Some(len) => {
                    &&& sent.contains_key("content-length"@) == ((len > 0 || indicates_body) && (
                    is_http2 || !is_chunked(contents)))
                    &&& sent.contains_key("content-length"@) ==> sent["content-length"@] == seq![
                        text_bytes(decimal(len as nat)),
                    ]
                },
                None => !sent.contains_key("content-length"@),
            }
        }),
{
    lemma_names_differ();
}

/// Over HTTP/2 no `transfer-encoding` is ever added.
pub proof fn law_http2_is_not_chunked<R>(
    contents: Map<Seq<char>, Seq<Seq<u8>>>,
    body: BodyView<R>,
    indicates_body: bool,
    agent_ident: Seq<char>,
)
    ensures
        request_headers(contents, body, indicates_body, true, agent_ident).contains_key(
            "transfer-encoding"@,
        ) == contents.contains_key("transfer-encoding"@),
{
    lemma_names_differ();
}

/// To configure a request again changes nothing, as when it is sent again after a redirect.
pub proof fn law_configuring_twice_is_configuring_once<R>(
    contents: Map<Seq<char>, Seq<Seq<u8>>>,
    body: BodyView<R>,
    indicates_body: bool,
    is_http2: bool,
    agent_ident: Seq<char>,
)
    ensures
        ({
            let sent = request_headers(contents, body, indicates_body, is_http2, agent_ident);
            request_headers(sent, body, indicates_body, is_http2, agent_ident) == sent
        }),
{
}

} // verus!
