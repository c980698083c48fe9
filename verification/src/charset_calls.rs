//! What calls on charsets come to.

use crate::charset::charset_of_headers;
use crate::charset::find_charset_label;
use crate::charset::label_encoding;
use crate::charset::CharCodec;
use crate::charset::CharCodecView;
use crate::charset::Charset;
use crate::charset::CharsetConfig;
use crate::headers::header_contents;
use http::header::HeaderMap;
use http::header::HeaderValue;
use vstd::prelude::*;
use vstd::string::*;
use vstd::utf8::*;

verus! {

/// The label of a charset is what follows the first `charset=`, up to the next semicolon or to the
/// end, whatever else stands around it.
pub proof fn law_the_label_follows_the_first_charset(
    content_type: &[u8],
    before: Seq<u8>,
    label: Seq<u8>,
    after: Seq<u8>,
    r: Option<Vec<u8>>,
)
    requires
        call_ensures(find_charset_label, (content_type,), r),
        content_type@ == before + encode_utf8("charset="@) + label + after,
        forall|i: int|
            0 <= i < before.len() ==> #[trigger] content_type@.subrange(
                i,
                i + encode_utf8("charset="@).len(),
            ) != encode_utf8("charset="@),
        !label.contains(59),
        after.len() == 0 || after[0] == 59,
    ensures
        r is Some,
        r->0@ == label,
{
    lemma_label(content_type@, before, label, after);
}

/// Where no `charset=` stands there is no label.
pub proof fn law_no_charset_no_label(content_type: &[u8], r: Option<Vec<u8>>)
    requires
        call_ensures(find_charset_label, (content_type,), r),
        forall|i: int|
            0 <= i <= content_type@.len() - encode_utf8("charset="@).len()
                ==> #[trigger] content_type@.subrange(i, i + encode_utf8("charset="@).len())
                != encode_utf8("charset="@),
    ensures
        r is None,
{
}

proof fn lemma_label_end(bytes: Seq<u8>, from: int, end: int)
    requires
        0 <= from <= end <= bytes.len(),
        forall|i: int| from <= i < end ==> bytes[i] != 59,
        end == bytes.len() || bytes[end] == 59,
    ensures
        crate::charset::label_end(bytes, from) == end,
    decreases end - from,
{
    if from < end {
        lemma_label_end(bytes, from + 1, end);
    }
}

proof fn lemma_label(bytes: Seq<u8>, before: Seq<u8>, label: Seq<u8>, after: Seq<u8>)
    requires
        bytes == before + encode_utf8("charset="@) + label + after,
        forall|i: int|
            0 <= i < before.len() ==> #[trigger] bytes.subrange(
                i,
                i + encode_utf8("charset="@).len(),
            ) != encode_utf8("charset="@),
        !label.contains(59),
        after.len() == 0 || after[0] == 59,
    ensures
        crate::charset::charset_label(bytes) == Some(label),
{
    let key = encode_utf8("charset="@);
    let at = before.len() as int;
    let from = at + key.len();
    let end = from + label.len();
    assert(bytes.subrange(at, at + key.len()) =~= key);
    assert(crate::charset::charset_at(bytes, at));
    assert forall|other: int| crate::charset::charset_at(bytes, other) implies other == at by {}
    assert forall|i: int| from <= i < end implies bytes[i] != 59 by {
        assert(bytes[i] == label[i - from]);
        assert(label.contains(label[i - from]));
    }
    if after.len() > 0 {
        assert(bytes[end] == after[0]);
    }
    lemma_label_end(bytes, from, end);
    assert(bytes.subrange(from, end) =~= label);
}

/// A content type names a charset whatever its subtype is: one that starts with `text/`, and in
/// which a label follows the first `charset=`, up to the next semicolon or to the end, names the
/// charset that the label stands for.
pub proof fn law_every_text_type_names_its_charset(
    headers: HeaderMap<HeaderValue>,
    subtype: Seq<u8>,
    label: Seq<u8>,
    after: Seq<u8>,
    r: Option<Charset>,
)
    requires
        call_ensures(charset_of_headers, (&headers,), r),
        header_contents(headers).contains_key("content-type"@),
        ({
            let key = encode_utf8("charset="@);
            let before = encode_utf8("text/"@) + subtype;
            let value = before + key + label + after;
            &&& header_contents(headers)["content-type"@][0] == value
            &&& forall|i: int| 0 <= i < value.len() ==> (32 <= #[trigger] value[i] < 127 || value[i]
                == 9)
            &&& forall|i: int|
                0 <= i < before.len() ==> #[trigger] value.subrange(i, i + key.len()) != key
        }),
        !label.contains(59),
        after.len() == 0 || after[0] == 59,
    ensures
        match r {
            Some(charset) => label_encoding(label) == Some(charset@),
            None => label_encoding(label) is None,
        },
{
    let before = encode_utf8("text/"@) + subtype;
    let value = before + encode_utf8("charset="@) + label + after;
    assert(value.subrange(0, encode_utf8("text/"@).len() as int) =~= encode_utf8("text/"@));
    lemma_label(value, before, label, after);
}

/// Nothing else names a charset: no content type, one that is not text, one that does not start
/// with `text/`, and one in which no `charset=` stands.
pub proof fn law_nothing_else_names_a_charset(headers: HeaderMap<HeaderValue>, r: Option<Charset>)
    requires
        call_ensures(charset_of_headers, (&headers,), r),
        ({
            let key = encode_utf8("charset="@);
            let start = encode_utf8("text/"@);
            let value = header_contents(headers)["content-type"@][0];
            ||| !header_contents(headers).contains_key("content-type"@)
            ||| exists|i: int|
                0 <= i < value.len() && !(32 <= #[trigger] value[i] < 127) && value[i] != 9
            ||| value.len() < start.len()
            ||| value.take(start.len() as int) != start
            ||| forall|i: int|
                0 <= i <= value.len() - key.len() ==> #[trigger] value.subrange(i, i + key.len())
                    != key
        }),
    ensures
        r is None,
{
    let start = encode_utf8("text/"@);
    let value = header_contents(headers)["content-type"@][0];
    if value.len() >= start.len() {
        assert(value.subrange(0, start.len() as int) =~= value.take(start.len() as int));
    }
}

/// A body that is received is converted from the charset that it names to the one that is wanted; a
/// body that is sent is converted to the charset that it names, from the one that it is known to be
/// in, or from the one that is configured. UTF-8 is what is not configured. There is no conversion
/// where none is named or where it is disabled.
pub proof fn law_charsets_are_resolved_by_direction(
    config: CharsetConfig,
    is_incoming: bool,
    headers: HeaderMap<HeaderValue>,
    override_source: Option<Charset>,
    named: Option<Charset>,
    r: Option<(Charset, Charset)>,
)
    requires
        call_ensures(charset_of_headers, (&headers,), named),
        call_ensures(CharsetConfig::resolve, (&config, is_incoming, &headers, override_source), r),
    ensures
        (r is Some) == (config.enabled && named is Some),
        match r {
            Some((from, to)) => if is_incoming {
                &&& from@ == named->0@
                &&& config.other is Some ==> to@ == config.other->0@
                &&& config.other is None ==> to@ == "UTF-8"@
            } else {
                &&& to@ == named->0@
                &&& override_source is Some ==> from@ == override_source->0@
                &&& override_source is None && config.other is Some ==> from@ == config.other->0@
                &&& override_source is None && config.other is None ==> from@ == "UTF-8"@
            },
            None => true,
        },
{
}

/// The same of a charset that was looked up before.
pub proof fn law_a_named_charset_is_resolved_by_direction(
    config: CharsetConfig,
    is_incoming: bool,
    named: Option<Charset>,
    override_source: Option<Charset>,
    r: Option<(Charset, Charset)>,
)
    requires
        call_ensures(
            CharsetConfig::resolve_named,
            (&config, is_incoming, named, override_source),
            r,
        ),
    ensures
        (r is Some) == (config.enabled && named is Some),
        match r {
            Some((from, to)) => if is_incoming {
                &&& from@ == named->0@
                &&& config.other is Some ==> to@ == config.other->0@
                &&& config.other is None ==> to@ == "UTF-8"@
            } else {
                &&& to@ == named->0@
                &&& override_source is Some ==> from@ == override_source->0@
                &&& override_source is None && config.other is Some ==> from@ == config.other->0@
                &&& override_source is None && config.other is None ==> from@ == "UTF-8"@
            },
            None => true,
        },
{
}

/// A charset goes by its name: it is the one that its label stands for, and two charsets are the
/// same if their names are.
pub proof fn law_a_charset_goes_by_its_name(
    label: &[u8],
    found: Option<Charset>,
    utf_8: Charset,
    a: Charset,
    a_name: &'static str,
    b: Charset,
    b_name: &'static str,
    same: bool,
)
    requires
        call_ensures(Charset::for_label, (label,), found),
        call_ensures(Charset::utf_8, (), utf_8),
        call_ensures(Charset::name, (&a,), a_name),
        call_ensures(Charset::name, (&b,), b_name),
        call_ensures(Charset::same, (&a, &b), same),
    ensures
        match found {
            Some(charset) => label_encoding(label@) == Some(charset@),
            None => label_encoding(label@) is None,
        },
        utf_8@ == "UTF-8"@,
        a@ == a_name@,
        same == (a_name@ == b_name@),
{
}

/// A conversion is from the one charset to the other, until its encoder is removed: then it is from
/// the same charset to UTF-8.
pub proof fn law_a_conversion_goes_from_one_charset_to_the_other(
    from: Charset,
    to: Charset,
    made: CharCodec,
    source: Charset,
    target: Option<Charset>,
    codec: &mut CharCodec,
    later_source: Charset,
    later_target: Option<Charset>,
)
    requires
        call_ensures(CharCodec::new, (from, to), made),
        call_ensures(CharCodec::source, (&made,), source),
        call_ensures(CharCodec::target, (&made,), target),
        *old(codec) == made,
        call_ensures(CharCodec::remove_encoder, (codec,), ()),
        call_ensures(CharCodec::source, (&*final(codec),), later_source),
        call_ensures(CharCodec::target, (&*final(codec),), later_target),
    ensures
        made@ == (CharCodecView { from: from@, to: to@, encoder: true }),
        source@ == from@,
        target is Some,
        target->0@ == to@,
        later_source@ == from@,
        later_target is None,
        final(codec)@ == (CharCodecView { from: from@, to: to@, encoder: false }),
{
}

} // verus!
