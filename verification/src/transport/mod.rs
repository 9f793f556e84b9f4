//! How messages travel.
pub mod http_message;
pub mod sink;
pub mod sse;
pub mod stdio;
pub mod streamable_http_client;
pub mod streamable_http_server;
pub mod tls;

pub use crate::transport::http_message::{lowercase_headers, HttpReply, HttpRequest, HttpResponse};
pub use crate::transport::sink::ResponseSink;
pub use crate::transport::streamable_http_client::StreamableHttpClientTransport;
pub use crate::transport::streamable_http_server::StreamableHttpServerTransport;

use vstd::prelude::*;

verus! {

/// The circumstances of a message that was received, which go back with the answer.
#[derive(Debug, Clone)]
pub struct RequestContext<S> {
    /// The number of the connection, or zero where the server sends on its own account.
    pub connection_id: i64,
    pub session_id: String,
    /// The method of the request that is handled.
    pub method: String,
    /// The message belongs on the stream that a client opens of its own.
    pub is_get_stream: bool,
    pub is_cancelled: bool,
    /// Where the responses to this request are written.
    pub sink: Option<S>,
}

impl<S> Default for RequestContext<S> {
    fn default() -> (r: Self)
        ensures
            r.connection_id == 0,
            r.session_id@.len() == 0,
            r.method@.len() == 0,
            !r.is_get_stream,
            !r.is_cancelled,
            r.sink is None,
    {
        RequestContext {
            connection_id: 0,
            session_id: String::new(),
            method: String::new(),
            is_get_stream: false,
            is_cancelled: false,
            sink: None,
        }
    }
}

impl<S> RequestContext<S> {
    /// The circumstances of a message that a server sends on its own account.
    pub fn server_initiated(session_id: &str, method: &str) -> (r: Self)
        ensures
            r.connection_id == 0,
            r.session_id@ == session_id@,
            r.method@ == method@,
            !r.is_get_stream,
            !r.is_cancelled,
            r.sink is None,
    {
        RequestContext {
            connection_id: 0,
            session_id: session_id.to_owned(),
            method: method.to_owned(),
            is_get_stream: false,
            is_cancelled: false,
            sink: None,
        }
    }
}

} // verus!
