//! The protocol: versions, methods, parameters, messages and endpoints.
pub mod endpoint;
pub mod headers;
pub mod message;
pub mod methods;
pub mod params;
pub mod progress;
pub mod status;

pub use crate::protocol::endpoint::{
    is_valid_streamable_http_endpoint, parse_server_endpoint, ServerEndpoint,
};
pub use crate::protocol::message::{
    classify_message, parse_message, parse_payload, serialize_message, IncomingPayload,
    MessageParseError,
};
pub use crate::protocol::params::{
    CallToolParams, CancelledNotificationParams, CompleteRequestParams, ElicitParams,
    GetPromptParams, LoggingMessageNotificationParams, PaginatedParams, ProgressNotificationParams,
    ReadResourceParams, ResourceUpdatedNotificationParams, SetLoggingLevelParams, SubscribeParams,
    UnsubscribeParams, UriParams,
};
pub use crate::protocol::progress::{inject_progress_token, progress_meta};
pub use crate::types::session::InitializeRequestParams;

use vstd::prelude::*;

use crate::text::str_eq;

verus! {

/// The version of the message format.
pub const JSONRPC_VERSION: &'static str = "2.0";

/// The latest protocol version.
pub const LATEST_PROTOCOL_VERSION: &'static str = "2025-06-18";

/// The protocol version of a peer that gives none.
pub const DEFAULT_PROTOCOL_VERSION: &'static str = "2025-03-26";

/// The protocol versions, in words.
pub const SUPPORTED_PROTOCOL_VERSIONS_STRING: &'static str = "2025-03-26, 2025-06-18";

/// The most threads that a server may be given.
pub const MAX_THREAD_NUM: u32 = 64;

/// The protocol versions.
pub open spec fn supported_versions() -> Set<Seq<char>> {
    set!["2025-03-26"@, "2025-06-18"@]
}

/// Tells whether a protocol version is one of ours.
pub fn is_supported_protocol_version(version: &str) -> (r: bool)
    ensures
        r == supported_versions().contains(version@),
{
    str_eq(version, "2025-03-26") || str_eq(version, "2025-06-18")
}

/// The default version and the latest are among ours.
pub proof fn known_versions_supported()
    ensures
        supported_versions().contains(DEFAULT_PROTOCOL_VERSION@),
        supported_versions().contains(LATEST_PROTOCOL_VERSION@),
{
}

} // verus!
