//! What calls on texts and bytes come to.

use crate::text::bytes_equal;
use crate::text::decimal_text;
use crate::text::find;
use crate::text::occurs;
use crate::text::text_equal;
use vstd::prelude::*;
use vstd::utf8::*;

verus! {

/// A number below ten is written with one digit, from `0` to `9`.
pub proof fn law_small_numbers_are_digits(n: u64, text: String)
    requires
        call_ensures(decimal_text, (n,), text),
        n < 10,
    ensures
        text@.len() == 1,
        text@[0] as int == '0' as int + n,
{
}

/// A number with one more digit is written with this digit at the end.
pub proof fn law_numbers_are_written_digit_by_digit(
    n: u64,
    digit: u64,
    longer: u64,
    text: String,
    longer_text: String,
    digit_text: String,
)
    requires
        call_ensures(decimal_text, (n,), text),
        call_ensures(decimal_text, (longer,), longer_text),
        call_ensures(decimal_text, (digit,), digit_text),
        0 < n,
        digit < 10,
        longer == 10 * n + digit,
    ensures
        longer_text@ == text@ + digit_text@,
{
    assert(longer / 10 == n && longer % 10 == digit);
    assert(longer_text@ =~= text@ + digit_text@);
}

/// A pattern is found where the bytes around it are put together with it, and nowhere before.
pub proof fn law_a_pattern_is_found_where_it_stands(
    bytes: &[u8],
    pattern: &[u8],
    before: Seq<u8>,
    after: Seq<u8>,
    r: Option<usize>,
)
    requires
        call_ensures(find, (bytes, pattern), r),
        bytes@ == before + pattern@ + after,
    ensures
        r is Some,
        r->0 <= before.len(),
        bytes@ == bytes@.take(r->0 as int) + pattern@ + bytes@.skip(r->0 + pattern@.len()),
{
    let at = before.len() as int;
    assert(bytes@.subrange(at, at + pattern@.len()) =~= pattern@);
    assert(crate::text::occurs_at(bytes@, pattern@, at));
    let found = r->0 as int;
    assert(bytes@ =~= bytes@.take(found) + bytes@.subrange(found, found + pattern@.len())
        + bytes@.skip(found + pattern@.len()));
}

/// The place where a pattern is found is the first: bytes that are cut off before the pattern ends
/// do not have it.
pub proof fn law_a_pattern_is_found_first(
    bytes: &[u8],
    pattern: &[u8],
    r: Option<usize>,
    before: Seq<u8>,
    after: Seq<u8>,
)
    requires
        call_ensures(find, (bytes, pattern), r),
        r is None || before.len() < r->0,
    ensures
        bytes@ != before + pattern@ + after,
{
    if bytes@ == before + pattern@ + after {
        let at = before.len() as int;
        assert(bytes@.subrange(at, at + pattern@.len()) =~= pattern@);
        assert(crate::text::occurs_at(bytes@, pattern@, at));
    }
}

/// A pattern stands at a place if the bytes are those before it, the pattern, and those after it.
pub proof fn law_a_pattern_stands_between_bytes(bytes: &[u8], pattern: &[u8], at: usize, r: bool)
    requires
        call_ensures(occurs, (bytes, pattern, at), r),
    ensures
        r ==> at + pattern@.len() <= bytes@.len() && bytes@ == bytes@.take(at as int) + pattern@
            + bytes@.skip(at + pattern@.len()),
        forall|before: Seq<u8>, after: Seq<u8>|
            before.len() == at && bytes@ == #[trigger] (before + pattern@ + after) ==> r,
{
    if r {
        assert(bytes@ =~= bytes@.take(at as int) + bytes@.subrange(
            at as int,
            at + pattern@.len(),
        ) + bytes@.skip(at + pattern@.len()));
    }
    assert forall|before: Seq<u8>, after: Seq<u8>|
        before.len() == at && bytes@ == #[trigger] (before + pattern@ + after) implies r by {
        assert(bytes@.subrange(at as int, at + pattern@.len()) =~= pattern@);
    }
}

/// Two byte strings, and two texts, are equal if they are the same byte for byte, or character for
/// character.
pub proof fn law_equal_is_equal_at_every_place(
    a: &[u8],
    b: &[u8],
    same_bytes: bool,
    s: &str,
    t: &str,
    same_text: bool,
)
    requires
        call_ensures(bytes_equal, (a, b), same_bytes),
        call_ensures(text_equal, (s, t), same_text),
    ensures
        same_bytes == (a@.len() == b@.len() && forall|i: int|
            0 <= i < a@.len() ==> a@[i] == #[trigger] b@[i]),
        same_text == (s@.len() == t@.len() && forall|i: int|
            0 <= i < s@.len() ==> s@[i] == #[trigger] t@[i]),
{
    if a@.len() == b@.len() && (forall|i: int| 0 <= i < a@.len() ==> a@[i] == #[trigger] b@[i]) {
        assert(a@ =~= b@);
    }
    if s@.len() == t@.len() && (forall|i: int| 0 <= i < s@.len() ==> s@[i] == #[trigger] t@[i]) {
        assert(s@ =~= t@);
    }
}

/// The bytes of a text are its UTF-8 encoding, from which it can be had again.
pub proof fn law_bytes_of_text_are_utf_8(text: Seq<char>)
    ensures
        crate::text::text_bytes(text) == encode_utf8(text),
        valid_utf8(crate::text::text_bytes(text)),
        decode_utf8(crate::text::text_bytes(text)) == text,
{
    encode_utf8_valid_utf8(text);
    encode_utf8_decode_utf8(text);
}

} // verus!
