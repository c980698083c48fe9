//! Values that can stand for a body.

use crate::body::bytes_body;
use crate::body::fresh_body;
use crate::body::text_body;
use crate::body::Body;
use crate::body::ContentType;
use crate::body::OpenFile;
use crate::codec::SourceView;
use vstd::prelude::*;
use vstd::std_specs::convert::FromSpecImpl;
use vstd::string::*;

verus! {

impl<R> FromSpecImpl<()> for Body<R> {
    open spec fn obeys_from_spec() -> bool {
        false
    }

    open spec fn from_spec(v: ()) -> Self {
        arbitrary()
    }
}

impl<R> From<()> for Body<R> {
    fn from(_v: ()) -> (r: Self)
        ensures
            r@ == fresh_body::<R>(
                SourceView::RequestEmpty,
                Some(0),
                true,
                Some(ContentType::Text),
            ),
    {
        Body::empty()
    }
}

impl<'a, R> FromSpecImpl<&'a str> for Body<R> {
    open spec fn obeys_from_spec() -> bool {
        false
    }

    open spec fn from_spec(v: &'a str) -> Self {
        arbitrary()
    }
}

impl<'a, R> From<&'a str> for Body<R> {
    fn from(s: &'a str) -> (r: Self)
        ensures
            r@ == text_body::<R>(s@),
    {
        Body::from_str(s)
    }
}

impl<'a, R> FromSpecImpl<&'a String> for Body<R> {
    open spec fn obeys_from_spec() -> bool {
        false
    }

    open spec fn from_spec(v: &'a String) -> Self {
        arbitrary()
    }
}

impl<'a, R> From<&'a String> for Body<R> {
    fn from(s: &'a String) -> (r: Self)
        ensures
            r@ == text_body::<R>(s@),
    {
        Body::from_string(s.clone())
    }
}

impl<R> FromSpecImpl<String> for Body<R> {
    open spec fn obeys_from_spec() -> bool {
        false
    }

    open spec fn from_spec(v: String) -> Self {
        arbitrary()
    }
}

impl<R> From<String> for Body<R> {
    fn from(s: String) -> (r: Self)
        ensures
            r@ == text_body::<R>(s@),
    {
        Body::from_string(s)
    }
}

impl<'a, R> FromSpecImpl<&'a [u8]> for Body<R> {
    open spec fn obeys_from_spec() -> bool {
        false
    }

    open spec fn from_spec(v: &'a [u8]) -> Self {
        arbitrary()
    }
}

impl<'a, R> From<&'a [u8]> for Body<R> {
    fn from(bytes: &'a [u8]) -> (r: Self)
        ensures
            r@ == bytes_body::<R>(bytes@, ContentType::Binary),
    {
        Body::from_bytes(bytes)
    }
}

impl<R> FromSpecImpl<Vec<u8>> for Body<R> {
    open spec fn obeys_from_spec() -> bool {
        false
    }

    open spec fn from_spec(v: Vec<u8>) -> Self {
        arbitrary()
    }
}

impl<R> From<Vec<u8>> for Body<R> {
    fn from(bytes: Vec<u8>) -> (r: Self)
        ensures
            r@ == bytes_body::<R>(bytes@, ContentType::Binary),
    {
        Body::from_vec(bytes)
    }
}

impl<'a, R> FromSpecImpl<&'a Vec<u8>> for Body<R> {
    open spec fn obeys_from_spec() -> bool {
        false
    }

    open spec fn from_spec(v: &'a Vec<u8>) -> Self {
        arbitrary()
    }
}

impl<'a, R> From<&'a Vec<u8>> for Body<R> {
    fn from(bytes: &'a Vec<u8>) -> (r: Self)
        ensures
            r@ == bytes_body::<R>(bytes@, ContentType::Binary),
    {
        Body::from_bytes(bytes.as_slice())
    }
}

impl<R> FromSpecImpl<OpenFile<R>> for Body<R> {
    open spec fn obeys_from_spec() -> bool {
        false
    }

    open spec fn from_spec(v: OpenFile<R>) -> Self {
        arbitrary()
    }
}

impl<R> From<OpenFile<R>> for Body<R> {
    fn from(file: OpenFile<R>) -> (r: Self)
        ensures
            r@ == fresh_body(
                SourceView::RequestAsyncRead(file.reader),
                file.length,
                true,
                Some(ContentType::Binary),
            ),
    {
        Body::from_file(file)
    }
}

} // verus!
