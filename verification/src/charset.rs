//! Character sets of text bodies: which one a body is in, and which one is wanted.

use crate::headers::get_str;
use crate::headers::header_contents;
use crate::headers::header_text;
use crate::text::find;
use crate::text::occurs;
use crate::text::occurs_at;
use crate::text::text_bytes;
use crate::text::text_equal;
use http::header::HeaderMap;
use http::header::HeaderValue;
use vstd::prelude::*;
use vstd::string::*;

verus! {

/// The name of the encoding that a label stands for in the Encoding Standard.
pub uninterp spec fn label_encoding(label: Seq<u8>) -> Option<Seq<char>>;

/// Calls `encoding_rs::Encoding::for_label` and hands out the name of the encoding found. Which
/// labels there are, and what each stands for, is not stated here: the result is named.
#[verifier::external_body]
fn encoding_for_label(label: &[u8]) -> (r: Option<&'static str>)
    ensures
        match r {
            Some(name) => label_encoding(label@) == Some(name@),
            None => label_encoding(label@) is None,
        },
{
    encoding_rs::Encoding::for_label(label).map(|encoding| encoding.name())
}

/// Calls `encoding_rs::Encoding::name` on `encoding_rs::UTF_8`. The name is "UTF-8".
#[verifier::external_body]
fn utf_8_name() -> (r: &'static str)
    ensures
        r@ == "UTF-8"@,
{
    encoding_rs::UTF_8.name()
}

/// A character encoding of the Encoding Standard.
#[derive(Clone, Copy, Debug)]
pub struct Charset {
    name: &'static str,
}

impl View for Charset {
    type V = Seq<char>;

    /// The name of the encoding. No two encodings have the same name.
    closed spec fn view(&self) -> Seq<char> {
        self.name@
    }
}

/// The name of a charset, if there is one.
pub open spec fn charset_name(charset: Option<Charset>) -> Option<Seq<char>> {
    match charset {
        Some(charset) => Some(charset@),
        None => None,
    }
}

impl Charset {
    /// UTF-8, the charset of every Rust string.
    pub fn utf_8() -> (r: Charset)
        ensures
            r@ == "UTF-8"@,
    {
        Charset { name: utf_8_name() }
    }

    /// The charset that a label stands for, such as `iso8859-1` or `utf-8`.
    pub fn for_label(label: &[u8]) -> (r: Option<Charset>)
        ensures
            charset_name(r) == label_encoding(label@),
    {
        match encoding_for_label(label) {
            Some(name) => Some(Charset { name }),
            None => None,
        }
    }

    /// The name of the encoding.
    pub fn name(&self) -> (r: &'static str)
        ensures
            r@ == self@,
    {
        self.name
    }

    /// Tells whether two charsets are the same.
    pub fn same(&self, other: &Charset) -> (r: bool)
        ensures
            r == (self@ == other@),
    {
        text_equal(self.name, other.name)
    }
}

/// Where the charset label of a content type ends: at the first semicolon, or at the end.
pub open spec fn label_end(content_type: Seq<u8>, from: int) -> int
    decreases content_type.len() - from,
{
    if from >= content_type.len() || content_type[from] == 59 {
        from
    } else {
        label_end(content_type, from + 1)
    }
}

/// `at` is the first place where `charset=` stands.
pub open spec fn charset_at(content_type: Seq<u8>, at: int) -> bool {
    &&& occurs_at(content_type, text_bytes("charset="@), at)
    &&& forall|j: int| 0 <= j < at ==> !occurs_at(content_type, text_bytes("charset="@), j)
}

/// The label that a content type gives its charset by: what follows `charset=`.
pub open spec fn charset_label(content_type: Seq<u8>) -> Option<Seq<u8>> {
    if exists|at: int| charset_at(content_type, at) {
        let at = choose|at: int| charset_at(content_type, at);
        let from = at + text_bytes("charset="@).len();
        Some(content_type.subrange(from, label_end(content_type, from)))
    } else {
        None
    }
}

/// The charset of a content type: only MIME types that start with `text/` have one.
pub open spec fn content_type_charset(content_type: Seq<u8>) -> Option<Seq<char>> {
    if !occurs_at(content_type, text_bytes("text/"@), 0) {
        None
    } else {
        match charset_label(content_type) {
            Some(label) => label_encoding(label),
            None => None,
        }
    }
}

/// The charset that the `content-type` header names.
pub open spec fn header_charset(contents: Map<Seq<char>, Seq<Seq<u8>>>) -> Option<Seq<char>> {
    match header_text(contents, "content-type"@) {
        Some(content_type) => content_type_charset(content_type),
        None => None,
    }
}

/// Copies the charset label of a content type.
pub fn find_charset_label(content_type: &[u8]) -> (r: Option<Vec<u8>>)
    ensures
        match r {
            Some(label) => charset_label(content_type@) == Some(label@),
            None => charset_label(content_type@) is None,
        },
{
    let key: &[u8] = "charset=".as_bytes();
    let at: usize = match find(content_type, key) {
        Some(at) => at,
        None => {
            return None;
        },
    };
    assert(charset_at(content_type@, at as int));
    assert forall|other: int| charset_at(content_type@, other) implies other == at by {}
    let count: usize = content_type.len();
    let from: usize = at + key.len();
    let mut end: usize = from;
    let mut label: Vec<u8> = Vec::new();
    while end < count && content_type[end] != 59
        invariant
            from <= end <= count,
            count == content_type@.len(),
            label@ == content_type@.subrange(from as int, end as int),
            label_end(content_type@, from as int) == label_end(content_type@, end as int),
        decreases count - end,
    {
        label.push(content_type[end]);
        end = end + 1;
    }
    Some(label)
}

/// The charset that the `content-type` header names, if it is a text type.
pub fn charset_of_headers(headers: &HeaderMap<HeaderValue>) -> (r: Option<Charset>)
    ensures
        charset_name(r) == header_charset(header_contents(*headers)),
{
    proof {
        reveal_strlit("content-type");
    }
    let content_type: Vec<u8> = match get_str(headers, "content-type") {
        Some(content_type) => content_type,
        None => {
            return None;
        },
    };
    if !occurs(content_type.as_slice(), "text/".as_bytes(), 0) {
        return None;
    }
    match find_charset_label(content_type.as_slice()) {
        Some(label) => Charset::for_label(label.as_slice()),
        None => None,
    }
}

/// Whether, and between which charsets, bodies of one direction are converted.
#[derive(Clone, Copy, Debug)]
pub struct CharsetConfig {
    /// Bodies are converted at all.
    pub enabled: bool,
    /// The charset at this end: the source of a body that is sent, the target of a body that is
    /// received. UTF-8 if it is not given.
    pub other: Option<Charset>,
}

/// The charset at this end.
pub open spec fn local_charset(config: CharsetConfig, override_source: Option<Seq<char>>) -> Seq<
    char,
> {
    match override_source {
        Some(name) => name,
        None => match config.other {
            Some(charset) => charset@,
            None => "UTF-8"@,
        },
    }
}

/// From which charset, to which charset a body is converted, where the content type names
/// `named`.
pub open spec fn resolution(
    config: CharsetConfig,
    is_incoming: bool,
    named: Option<Seq<char>>,
    override_source: Option<Seq<char>>,
) -> Option<(Seq<char>, Seq<char>)> {
    match named {
        Some(named) if config.enabled => if is_incoming {
            Some((named, local_charset(config, None)))
        } else {
            Some((local_charset(config, override_source), named))
        },
        _ => None,
    }
}

/// The names of a pair of charsets.
pub open spec fn charset_names(pair: Option<(Charset, Charset)>) -> Option<(Seq<char>, Seq<char>)> {
    match pair {
        Some((from, to)) => Some((from@, to@)),
        None => None,
    }
}

impl CharsetConfig {
    fn local(&self, override_source: Option<Charset>) -> (r: Charset)
        ensures
            r@ == local_charset(*self, charset_name(override_source)),
    {
        match override_source {
            Some(charset) => charset,
            None => match self.other {
                Some(charset) => charset,
                None => Charset::utf_8(),
            },
        }
    }

    /// From which charset, to which charset a body is converted, where the content type names
    /// the charset `named`. A body that is received is in the named charset. A body that is sent
    /// is to be in it; `override_source` is what such a body is known to be in.
    pub fn resolve_named(
        &self,
        is_incoming: bool,
        named: Option<Charset>,
        override_source: Option<Charset>,
    ) -> (r: Option<(Charset, Charset)>)
        ensures
            charset_names(r) == resolution(
                *self,
                is_incoming,
                charset_name(named),
                charset_name(override_source),
            ),
    {
        let named: Charset = match named {
            Some(named) => named,
            None => {
                return None;
            },
        };
        if !self.enabled {
            None
        } else if is_incoming {
            Some((named, self.local(None)))
        } else {
            Some((self.local(override_source), named))
        }
    }

    /// From which charset, to which charset a body with these headers is converted.
    pub fn resolve(
        &self,
        is_incoming: bool,
        headers: &HeaderMap<HeaderValue>,
        override_source: Option<Charset>,
    ) -> (r: Option<(Charset, Charset)>)
        ensures
            charset_names(r) == resolution(
                *self,
                is_incoming,
                header_charset(header_contents(*headers)),
                charset_name(override_source),
            ),
    {
        self.resolve_named(is_incoming, charset_of_headers(headers), override_source)
    }
}

/// Converts text from one charset to another: it is decoded, and encoded again.
pub struct CharCodec {
    from: Charset,
    to: Charset,
    encoder: bool,
}

/// The names of the charsets of a conversion, and whether decoded text is encoded again.
pub struct CharCodecView {
    pub from: Seq<char>,
    pub to: Seq<char>,
    pub encoder: bool,
}

impl View for CharCodec {
    type V = CharCodecView;

    closed spec fn view(&self) -> CharCodecView {
        CharCodecView { from: self.from@, to: self.to@, encoder: self.encoder }
    }
}

impl CharCodec {
    /// Converts from one charset to the other.
    pub fn new(from: Charset, to: Charset) -> (r: CharCodec)
        ensures
            r@ == (CharCodecView { from: from@, to: to@, encoder: true }),
    {
        CharCodec { from, to, encoder: true }
    }

    /// From now on decoded text is left in UTF-8, whatever charset was wanted.
    pub fn remove_encoder(&mut self)
        ensures
            final(self)@ == (CharCodecView { encoder: false, ..old(self)@ }),
    {
        self.encoder = false;
    }

    /// The charset that is decoded.
    pub fn source(&self) -> (r: Charset)
        ensures
            r@ == self@.from,
    {
        self.from
    }

    /// The charset that decoded text is encoded in. `None` if it is left in UTF-8.
    pub fn target(&self) -> (r: Option<Charset>)
        ensures
            charset_name(r) == (if self@.encoder {
                Some(self@.to)
            } else {
                None
            }),
    {
        if self.encoder {
            Some(self.to)
        } else {
            None
        }
    }
}

} // verus!
