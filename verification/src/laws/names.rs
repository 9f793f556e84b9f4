//! The names and numbers that both sides of a connection must agree on.
use vstd::prelude::*;

use crate::error::{JsonRpcErrorCode, McpError};
use crate::protocol;
use crate::protocol::{headers, methods, status};
use crate::text;

verus! {

/// Every method has the name that the protocol gives it.
pub proof fn method_names()
    ensures
        methods::INITIALIZE@ == "initialize"@,
        methods::PING@ == "ping"@,
        methods::TOOLS_LIST@ == "tools/list"@,
        methods::TOOLS_CALL@ == "tools/call"@,
        methods::PROMPTS_LIST@ == "prompts/list"@,
        methods::PROMPTS_GET@ == "prompts/get"@,
        methods::RESOURCES_LIST@ == "resources/list"@,
        methods::RESOURCES_READ@ == "resources/read"@,
        methods::RESOURCES_SUBSCRIBE@ == "resources/subscribe"@,
        methods::RESOURCES_UNSUBSCRIBE@ == "resources/unsubscribe"@,
        methods::RESOURCES_TEMPLATES_LIST@ == "resources/templates/list"@,
        methods::LOGGING_SET_LEVEL@ == "logging/setLevel"@,
        methods::COMPLETION_COMPLETE@ == "completion/complete"@,
        methods::ROOTS_LIST@ == "roots/list"@,
        methods::SAMPLING_CREATE_MESSAGE@ == "sampling/createMessage"@,
        methods::ELICITATION_CREATE@ == "elicitation/create"@,
        methods::NOTIFICATION_INITIALIZED@ == "notifications/initialized"@,
        methods::NOTIFICATION_CANCELLED@ == "notifications/cancelled"@,
        methods::NOTIFICATION_PROGRESS@ == "notifications/progress"@,
        methods::NOTIFICATION_MESSAGE@ == "notifications/message"@,
        methods::NOTIFICATION_RESOURCES_UPDATED@ == "notifications/resources/updated"@,
        methods::NOTIFICATION_TOOLS_LIST_CHANGED@ == "notifications/tools/list_changed"@,
        methods::NOTIFICATION_PROMPTS_LIST_CHANGED@ == "notifications/prompts/list_changed"@,
        methods::NOTIFICATION_RESOURCES_LIST_CHANGED@ == "notifications/resources/list_changed"@,
        methods::NOTIFICATION_ROOTS_LIST_CHANGED@ == "notifications/roots/list_changed"@,
{
}

/// Every header has its name, in lowercase, and every common value is spelled as it is sent.
pub proof fn header_names()
    ensures
        headers::MCP_SESSION_ID@ == "mcp-session-id"@,
        headers::MCP_PROTOCOL_VERSION@ == "mcp-protocol-version"@,
        headers::CONTENT_TYPE@ == "content-type"@,
        headers::ACCEPT@ == "accept"@,
        headers::CACHE_CONTROL@ == "cache-control"@,
        headers::CONNECTION@ == "connection"@,
        headers::HOST@ == "host"@,
        headers::CONTENT_LENGTH@ == "content-length"@,
        headers::TRANSFER_ENCODING@ == "transfer-encoding"@,
        headers::X_ACCEL_BUFFERING@ == "x-accel-buffering"@,
        headers::AUTHORIZATION@ == "authorization"@,
        headers::LAST_EVENT_ID@ == "last-event-id"@,
        headers::ALLOW@ == "allow"@,
        headers::CONTENT_TYPE_JSON@ == "application/json"@,
        headers::CONTENT_TYPE_SSE@ == "text/event-stream"@,
        headers::CONTENT_TYPE_TEXT_PLAIN@ == "text/plain"@,
        headers::CACHE_CONTROL_NO_CACHE_NO_TRANSFORM@ == "no-cache, no-transform"@,
        headers::CONNECTION_KEEP_ALIVE@ == "keep-alive"@,
        headers::CONNECTION_CLOSE@ == "close"@,
        headers::TRANSFER_ENCODING_CHUNKED@ == "chunked"@,
{
}

/// Every status has its number.
pub proof fn status_numbers()
    ensures
        status::OK == 200,
        status::ACCEPTED == 202,
        status::NO_CONTENT == 204,
        status::BAD_REQUEST == 400,
        status::UNAUTHORIZED == 401,
        status::FORBIDDEN == 403,
        status::NOT_FOUND == 404,
        status::METHOD_NOT_ALLOWED == 405,
        status::NOT_ACCEPTABLE == 406,
        status::CONFLICT == 409,
        status::UNSUPPORTED_MEDIA_TYPE == 415,
        status::INTERNAL_SERVER_ERROR == 500,
        status::SERVICE_UNAVAILABLE == 503,
{
}

/// The versions of the protocol and of the messages, and the limits that it sets.
pub proof fn versions()
    ensures
        protocol::JSONRPC_VERSION@ == "2.0"@,
        protocol::LATEST_PROTOCOL_VERSION@ == "2025-06-18"@,
        protocol::DEFAULT_PROTOCOL_VERSION@ == "2025-03-26"@,
        protocol::SUPPORTED_PROTOCOL_VERSIONS_STRING@ == "2025-03-26, 2025-06-18"@,
        protocol::MAX_THREAD_NUM == 64,
{
}

/// The versions that are supported are these two.
pub proof fn supported(v: Seq<char>)
    ensures
        protocol::supported_versions().contains(v) <==> v == "2025-03-26"@ || v == "2025-06-18"@,
{
}

/// Every error has the number that the message format gives it, and a number is read as the
/// error that has it.
pub proof fn error_numbers(n: int)
    ensures
        JsonRpcErrorCode::ParseError.number() == -32700,
        JsonRpcErrorCode::InvalidRequest.number() == -32600,
        JsonRpcErrorCode::MethodNotFound.number() == -32601,
        JsonRpcErrorCode::InvalidParams.number() == -32602,
        JsonRpcErrorCode::InternalError.number() == -32603,
        JsonRpcErrorCode::ServerError.number() == -32000,
        JsonRpcErrorCode::numbered(n) matches Some(c) ==> c.number() == n,
        JsonRpcErrorCode::numbered(n) is None ==> n != -32700 && n != -32600 && n != -32601 && n
            != -32602 && n != -32603 && n != -32000,
{
}

/// What an error says: the words that it was made with, after a word on what failed where the
/// transport or JSON did.
pub proof fn error_words(e: McpError)
    ensures
        e matches McpError::Rpc(x) ==> e.told() == x.message@,
        e matches McpError::Transport(m) ==> e.told() == "transport error: "@ + m@,
        e matches McpError::Timeout(n) ==> e.told() == "request timed out after "@ + text::decimal(
            n as int,
        ) + " ms"@,
        e is NotInitialized ==> e.told() == "client is not initialized."@,
        e is AlreadyInitialized ==> e.told() == "client is initialized."@,
        e is Closed ==> e.told() == "connection closed"@,
        e matches McpError::InvalidState(m) ==> e.told() == m@,
        e matches McpError::InvalidArgument(m) ==> e.told() == m@,
        e matches McpError::Validation(m) ==> e.told() == m@,
        e matches McpError::Json(m) ==> e.told() == "json error: "@ + m@,
{
}

/// A peer is told an error with the number that it came with, with that of bad parameters
/// where an argument or a value does not do, and with that of an internal error otherwise.
pub proof fn errors_told(e: McpError)
    ensures
        e matches McpError::Rpc(x) ==> e.told_code() == x.code && e.told_data() == x.data,
        e is InvalidArgument || e is Validation ==> e.told_code() == -32602,
        !(e is Rpc) && !(e is InvalidArgument) && !(e is Validation) ==> e.told_code() == -32603,
        !(e is Rpc) ==> e.told_data() is None,
{
}

/// An error of an argument, of a state or of the transport is of that kind, and says the words.
pub proof fn faults_named(e: McpError, m: Seq<char>)
    ensures
        e.faults_argument(m) <==> (e is InvalidArgument && e.told() == m),
        e.faults_state(m) <==> (e is InvalidState && e.told() == m),
        e.faults_transport(m) ==> e is Transport && e.told() == "transport error: "@ + m,
        e is Transport ==> e.faults_transport(e->Transport_0@),
{
}

/// The methods of requests are told apart.
pub proof fn requests_apart()
    ensures
        "initialize"@.len() == 10,
        "ping"@.len() == 4,
        "tools/list"@.len() == 10,
        "tools/call"@.len() == 10,
        "prompts/list"@.len() == 12,
        "prompts/get"@.len() == 11,
        "resources/list"@.len() == 14,
        "resources/read"@.len() == 14,
        "resources/subscribe"@.len() == 19,
        "resources/unsubscribe"@.len() == 21,
        "resources/templates/list"@.len() == 24,
        "logging/setLevel"@.len() == 16,
        "completion/complete"@.len() == 19,
        "roots/list"@.len() == 10,
        "sampling/createMessage"@.len() == 22,
        "elicitation/create"@.len() == 18,
        "initialize"@[0] != "tools/list"@[0],
        "initialize"@[0] != "tools/call"@[0],
        "initialize"@[0] != "roots/list"@[0],
        "tools/list"@[6] != "tools/call"@[6],
        "tools/list"@[0] != "roots/list"@[0],
        "tools/call"@[0] != "roots/list"@[0],
        "resources/list"@[10] != "resources/read"@[10],
        "resources/subscribe"@[0] != "completion/complete"@[0],
{
    reveal_strlit("initialize");
    reveal_strlit("ping");
    reveal_strlit("tools/list");
    reveal_strlit("tools/call");
    reveal_strlit("prompts/list");
    reveal_strlit("prompts/get");
    reveal_strlit("resources/list");
    reveal_strlit("resources/read");
    reveal_strlit("resources/subscribe");
    reveal_strlit("resources/unsubscribe");
    reveal_strlit("resources/templates/list");
    reveal_strlit("logging/setLevel");
    reveal_strlit("completion/complete");
    reveal_strlit("roots/list");
    reveal_strlit("sampling/createMessage");
    reveal_strlit("elicitation/create");
}

/// The methods of notifications are told apart.
pub proof fn notifications_apart()
    ensures
        "notifications/initialized"@.len() == 25,
        "notifications/cancelled"@.len() == 23,
        "notifications/progress"@.len() == 22,
        "notifications/message"@.len() == 21,
        "notifications/resources/updated"@.len() == 31,
        "notifications/tools/list_changed"@.len() == 32,
        "notifications/prompts/list_changed"@.len() == 34,
        "notifications/resources/list_changed"@.len() == 36,
        "notifications/roots/list_changed"@.len() == 32,
        "notifications/tools/list_changed"@[14] != "notifications/roots/list_changed"@[14],
{
    reveal_strlit("notifications/initialized");
    reveal_strlit("notifications/cancelled");
    reveal_strlit("notifications/progress");
    reveal_strlit("notifications/message");
    reveal_strlit("notifications/resources/updated");
    reveal_strlit("notifications/tools/list_changed");
    reveal_strlit("notifications/prompts/list_changed");
    reveal_strlit("notifications/resources/list_changed");
    reveal_strlit("notifications/roots/list_changed");
}

/// The names of headers are told apart.
pub proof fn headers_apart()
    ensures
        "mcp-session-id"@.len() == 14,
        "mcp-protocol-version"@.len() == 20,
        "content-type"@.len() == 12,
        "accept"@.len() == 6,
        "cache-control"@.len() == 13,
        "connection"@.len() == 10,
        "host"@.len() == 4,
        "content-length"@.len() == 14,
        "transfer-encoding"@.len() == 17,
        "x-accel-buffering"@.len() == 17,
        "authorization"@.len() == 13,
        "last-event-id"@.len() == 13,
        "allow"@.len() == 5,
        "mcp-session-id"@[0] != "content-length"@[0],
        "cache-control"@[0] != "authorization"@[0],
        "cache-control"@[0] != "last-event-id"@[0],
        "transfer-encoding"@[0] != "x-accel-buffering"@[0],
        "authorization"@[0] != "last-event-id"@[0],
{
    reveal_strlit("mcp-session-id");
    reveal_strlit("mcp-protocol-version");
    reveal_strlit("content-type");
    reveal_strlit("accept");
    reveal_strlit("cache-control");
    reveal_strlit("connection");
    reveal_strlit("host");
    reveal_strlit("content-length");
    reveal_strlit("transfer-encoding");
    reveal_strlit("x-accel-buffering");
    reveal_strlit("authorization");
    reveal_strlit("last-event-id");
    reveal_strlit("allow");
}

} // verus!
