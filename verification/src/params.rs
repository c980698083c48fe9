//! What a request was configured with.

use crate::charset::CharsetConfig;
use vstd::prelude::*;

verus! {

/// How the body of a request, and of the response to it, are treated.
#[derive(Clone, Copy, Debug)]
pub struct HReqParams {
    /// The request body is compressed, if a `content-encoding` asks for it.
    pub content_encode: bool,
    /// The response body is decompressed, if a `content-encoding` tells that it is compressed.
    pub content_decode: bool,
    /// The charset conversion of the request body.
    pub charset_tx: CharsetConfig,
    /// The charset conversion of the response body.
    pub charset_rx: CharsetConfig,
    /// Small request bodies are read ahead, to learn their length.
    pub prebuffer: bool,
}

impl HReqParams {
    /// Tells whether bodies of this direction pass through a content coding.
    pub open spec fn uses_coding(self, is_incoming: bool) -> bool {
        if is_incoming {
            self.content_decode
        } else {
            self.content_encode
        }
    }

    /// The charset conversion of bodies of this direction.
    pub open spec fn charset_config(self, is_incoming: bool) -> CharsetConfig {
        if is_incoming {
            self.charset_rx
        } else {
            self.charset_tx
        }
    }
}

} // verus!
