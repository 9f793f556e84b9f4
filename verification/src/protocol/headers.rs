//! The names of HTTP headers, in lowercase, and values they commonly have.
use vstd::prelude::*;

verus! {

pub const MCP_SESSION_ID: &'static str = "mcp-session-id";

pub const MCP_PROTOCOL_VERSION: &'static str = "mcp-protocol-version";

pub const CONTENT_TYPE: &'static str = "content-type";

pub const ACCEPT: &'static str = "accept";

pub const CACHE_CONTROL: &'static str = "cache-control";

pub const CONNECTION: &'static str = "connection";

pub const HOST: &'static str = "host";

pub const CONTENT_LENGTH: &'static str = "content-length";

pub const TRANSFER_ENCODING: &'static str = "transfer-encoding";

pub const X_ACCEL_BUFFERING: &'static str = "x-accel-buffering";

pub const AUTHORIZATION: &'static str = "authorization";

pub const LAST_EVENT_ID: &'static str = "last-event-id";

pub const ALLOW: &'static str = "allow";

pub const CONTENT_TYPE_JSON: &'static str = "application/json";

pub const CONTENT_TYPE_SSE: &'static str = "text/event-stream";

pub const CONTENT_TYPE_TEXT_PLAIN: &'static str = "text/plain";

pub const CACHE_CONTROL_NO_CACHE_NO_TRANSFORM: &'static str = "no-cache, no-transform";

pub const CONNECTION_KEEP_ALIVE: &'static str = "keep-alive";

pub const CONNECTION_CLOSE: &'static str = "close";

pub const TRANSFER_ENCODING_CHUNKED: &'static str = "chunked";

} // verus!
