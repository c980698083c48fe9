//! The headers of a request or a response, held in a header map of the `http` crate.

use http::header::HeaderMap;
use http::header::HeaderValue;
use vstd::prelude::*;

verus! {

/// The header map of the `http` crate.
#[verifier::external_type_specification]
#[verifier::external_body]
#[verifier::reject_recursive_types(T)]
pub struct ExHeaderMap<T>(http::header::HeaderMap<T>);

/// The header value of the `http` crate.
#[verifier::external_type_specification]
#[verifier::external_body]
pub struct ExHeaderValue(http::header::HeaderValue);

/// What a header map holds: under each header name, in lower case, the bytes of its values in
/// the order in which they were added.
pub uninterp spec fn header_contents(headers: HeaderMap<HeaderValue>) -> Map<
    Seq<char>,
    Seq<Seq<u8>>,
>;

/// The number of header names that a map can always take. The table behind a header map has at
/// most 32768 slots, and a map that is filled to no more than a fifth never has to outgrow it.
pub const MAX_HEADER_NAMES: usize = 6553;

/// The number of header names in a map with these contents.
pub open spec fn name_count(contents: Map<Seq<char>, Seq<Seq<u8>>>) -> Option<nat> {
    if contents.dom().finite() {
        Some(contents.dom().len())
    } else {
        None
    }
}

/// `count` more header names fit into a map with these contents.
pub open spec fn has_room(contents: Map<Seq<char>, Seq<Seq<u8>>>, count: nat) -> bool {
    match name_count(contents) {
        Some(names) => names + count <= MAX_HEADER_NAMES,
        None => false,
    }
}

/// A map with these contents can take what it lacks of `wanted`.
pub open spec fn can_take(
    contents: Map<Seq<char>, Seq<Seq<u8>>>,
    wanted: Map<Seq<char>, Seq<Seq<u8>>>,
) -> bool {
    contents == wanted || has_room(wanted, 0)
}

/// A header name made of lower-case letters and hyphens.
pub open spec fn is_header_name(name: Seq<char>) -> bool {
    &&& 0 < name.len() <= 64
    &&& forall|i: int| 0 <= i < name.len() ==> ('a' <= #[trigger] name[i] <= 'z' || name[i] == '-')
}

/// A byte string that can be a header value: no control characters but the tab.
pub open spec fn is_header_value(value: Seq<u8>) -> bool {
    forall|i: int|
        0 <= i < value.len() ==> ((#[trigger] value[i] >= 32 && value[i] != 127) || value[i] == 9)
}

/// A byte string of visible ASCII characters, spaces and tabs.
pub open spec fn is_visible_ascii(value: Seq<u8>) -> bool {
    forall|i: int| 0 <= i < value.len() ==> (32 <= #[trigger] value[i] < 127 || value[i] == 9)
}

/// The first value under a header name, if it is visible ASCII.
pub open spec fn header_text(contents: Map<Seq<char>, Seq<Seq<u8>>>, name: Seq<char>) -> Option<
    Seq<u8>,
> {
    if contents.contains_key(name) && is_visible_ascii(contents[name][0]) {
        Some(contents[name][0])
    } else {
        None
    }
}

/// Calls `HeaderMap::get` and copies the bytes of the value that it finds. It finds a value if
/// the map has the name; of several it is the first.
#[verifier::external_body]
pub(crate) fn header_get(headers: &HeaderMap<HeaderValue>, name: &str) -> (r: Option<Vec<u8>>)
    requires
        is_header_name(name@),
    ensures
        match r {
            Some(value) => {
                &&& header_contents(*headers).contains_key(name@)
                &&& header_contents(*headers)[name@].len() > 0
                &&& value@ == header_contents(*headers)[name@][0]
            },
            None => !header_contents(*headers).contains_key(name@),
        },
{
    headers.get(name).map(|value| value.as_bytes().to_vec())
}

/// Calls `HeaderMap::try_insert` with a value made by `HeaderValue::from_bytes`. The value replaces
/// all values that the name had; the other names keep theirs. If the map cannot grow as it would
/// have to, that is reported and the map holds what it held. When a map has to grow depends on how
/// its names are hashed, and is not stated beyond this: one with few names has room. The calls
/// would panic on a name or a value of other characters.
#[verifier::external_body]
pub(crate) fn header_set(
    headers: &mut HeaderMap<HeaderValue>,
    name: &'static str,
    value: &[u8],
) -> (r: bool)
    requires
        is_header_name(name@),
        is_header_value(value@),
    ensures
        header_contents(*final(headers)) == (if r {
            header_contents(*old(headers)).insert(name@, seq![value@])
        } else {
            header_contents(*old(headers))
        }),
        has_room(header_contents(*old(headers)), 1) ==> r,
{
    headers.try_insert(name, HeaderValue::from_bytes(value).unwrap()).is_ok()
}

/// Calls `HeaderMap::keys_len`, the number of different header names in a map.
#[verifier::external_body]
pub(crate) fn header_count(headers: &HeaderMap<HeaderValue>) -> (r: usize)
    ensures
        name_count(header_contents(*headers)) == Some(r as nat),
{
    headers.keys_len()
}

/// The first value under a header name, as text: `None` if there is none, or if it holds bytes
/// that are not visible ASCII.
pub(crate) fn get_str(headers: &HeaderMap<HeaderValue>, name: &str) -> (r: Option<Vec<u8>>)
    requires
        is_header_name(name@),
    ensures
        match r {
            Some(value) => header_text(header_contents(*headers), name@) == Some(value@),
            None => header_text(header_contents(*headers), name@) is None,
        },
{
    let value: Vec<u8> = match header_get(headers, name) {
        Some(value) => value,
        None => {
            return None;
        },
    };
    let mut i: usize = 0;
    while i < value.len()
        invariant
            i <= value@.len(),
            forall|j: int| 0 <= j < i ==> (32 <= #[trigger] value@[j] < 127 || value@[j] == 9),
            header_contents(*headers).contains_key(name@),
            value@ == header_contents(*headers)[name@][0],
        decreases value@.len() - i,
    {
        let b: u8 = value[i];
        if !(b >= 32 && b < 127 || b == 9) {
            assert(!is_visible_ascii(value@));
            return None;
        }
        i = i + 1;
    }
    Some(value)
}

} // verus!
