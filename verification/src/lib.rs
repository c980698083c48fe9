//! The bodies and the connections of an http client.
//!
//! A [`body::Body`] holds content, or a reader that content comes from, and settles by the headers
//! and the parameters of a request which codecs the content passes through. A
//! [`conn::Connection`] settles the headers of a request, a [`send::RequestSender`] sends its
//! body, and a [`body_buf::BodyBuf`] retains what was sent, for a redirect. Nothing here touches a
//! socket, a file or a clock: where one is needed, the caller is told so and reports what came of
//! it.

pub mod body;
pub mod body_buf;
pub mod body_calls;
pub mod charset;
pub mod charset_calls;
pub mod codec;
pub mod codec_calls;
pub mod conn;
pub mod conn_calls;
pub mod convert;
pub mod headers;
pub mod laws;
pub mod params;
pub mod request;
pub mod request_calls;
pub mod send;
pub mod send_calls;
pub mod text;
pub mod text_calls;
pub mod ticket;
pub mod unfinished;
