use mcp_sdk::error::{JsonRpcErrorCode, McpError};
use mcp_sdk::json::Json;
use mcp_sdk::RpcError;

#[test]
fn code_enum_maps_known_codes() {
    let err = McpError::rpc(-32601, "nope".to_string());
    assert_eq!(err.code(), Some(-32601));
    assert_eq!(err.code_enum(), Some(JsonRpcErrorCode::MethodNotFound));
    assert_eq!(err.message(), "nope");
    assert!(err.data().is_none());

    let custom = McpError::rpc(-32001, "custom".to_string());
    assert_eq!(custom.code_enum(), None);
    assert_eq!(JsonRpcErrorCode::ServerError.code(), -32000);
    assert_eq!(JsonRpcErrorCode::from_code(-32700), Some(JsonRpcErrorCode::ParseError));
}

#[test]
fn non_rpc_errors_have_no_code() {
    let err = McpError::NotInitialized;
    assert_eq!(err.code(), None);
    assert_eq!(err.message(), "client is not initialized.");
    assert_eq!(McpError::AlreadyInitialized.message(), "client is initialized.");
    assert_eq!(McpError::argument("bad".to_string()).to_rpc_error().code, -32602);
}

#[test]
fn every_code_has_its_number_back() {
    let codes = [
        (JsonRpcErrorCode::ParseError, -32700),
        (JsonRpcErrorCode::InvalidRequest, -32600),
        (JsonRpcErrorCode::MethodNotFound, -32601),
        (JsonRpcErrorCode::InvalidParams, -32602),
        (JsonRpcErrorCode::InternalError, -32603),
        (JsonRpcErrorCode::ServerError, -32000),
    ];
    for (code, number) in codes {
        assert_eq!(code.code(), number);
        assert_eq!(JsonRpcErrorCode::from_code(number), Some(code));
    }
    assert_eq!(JsonRpcErrorCode::from_code(0), None);
}

#[test]
fn errors_in_words() {
    assert_eq!(McpError::Transport("gone".into()).message(), "transport error: gone");
    assert_eq!(McpError::Timeout(5).message(), "request timed out after 5 ms");
    assert_eq!(McpError::Closed.message(), "connection closed");
    assert_eq!(McpError::state("s".into()).message(), "s");
    assert_eq!(McpError::Validation("v".into()).message(), "v");
    assert_eq!(McpError::Json("j".into()).message(), "json error: j");
}

#[test]
fn errors_told_to_a_peer() {
    assert_eq!(McpError::Validation("v".into()).to_rpc_error().code, -32602);
    assert_eq!(McpError::Closed.to_rpc_error().code, -32603);
    let mut rpc = RpcError::new(7, "seven".to_string());
    rpc.data = Some(Json::Bool(true));
    let err = McpError::Rpc(rpc);
    assert!(err.is_rpc());
    assert_eq!(err.data(), Some(&Json::Bool(true)));
    let told = err.to_rpc_error();
    assert_eq!((told.code, told.message.as_str()), (7, "seven"));
    assert_eq!(told.data, Some(Json::Bool(true)));
}
