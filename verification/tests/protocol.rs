use mcp_sdk::error::JsonRpcErrorCode;
use mcp_sdk::json::Json;
use mcp_sdk::protocol::{
    inject_progress_token, is_supported_protocol_version, is_valid_streamable_http_endpoint,
    parse_message, parse_payload, parse_server_endpoint, progress_meta, serialize_message,
    ElicitParams, IncomingPayload, MessageParseError, DEFAULT_PROTOCOL_VERSION,
    LATEST_PROTOCOL_VERSION,
};
use mcp_sdk::types::ProgressToken;
use mcp_sdk::wire::Wire;
use mcp_sdk::{Message, RequestId};

fn json(text: &str) -> Json {
    Json::parse(text).unwrap()
}

#[test]
fn classify_request_response_notification_error() {
    let req =
        parse_message(r#"{"jsonrpc":"2.0","id":1,"method":"initialize","params":{}}"#).unwrap();
    assert!(matches!(req, Message::Request(ref r) if r.method == "initialize"));
    let req =
        parse_message(r#"{"jsonrpc":"2.0","id":"request-123","method":"tools/list"}"#).unwrap();
    assert_eq!(req.id(), Some(&RequestId::String("request-123".into())));
    let resp = parse_message(r#"{"jsonrpc":"2.0","id":1,"result":{"tools":[]}}"#).unwrap();
    assert!(matches!(resp, Message::Response(ref r) if r.result.is_some()));
    let notif = parse_message(r#"{"jsonrpc":"2.0","method":"notifications/initialized"}"#).unwrap();
    assert!(notif.is_notification());
    let err = parse_message(
        r#"{"jsonrpc":"2.0","id":1,"error":{"code":-32600,"message":"Invalid Request","data":{"x":1}}}"#,
    )
    .unwrap();
    match err {
        Message::Response(r) => {
            let e = r.error.unwrap();
            assert_eq!(e.code, -32600);
            assert_eq!(e.message, "Invalid Request");
            assert_eq!(e.data, Some(json(r#"{"x": 1}"#)));
        }
        _ => panic!("expected error response"),
    }
}

#[test]
fn classify_rejects_invalid_messages() {
    assert!(matches!(parse_message("not json"), Err(MessageParseError::InvalidJson(_))));
    let missing_jsonrpc = parse_message(r#"{"id":1,"method":"x"}"#).unwrap_err();
    match missing_jsonrpc {
        MessageParseError::InvalidMessage { id, message, has_method } => {
            assert_eq!(id, RequestId::Number(1));
            assert!(message.contains("Deserialization Failed"));
            assert!(has_method);
        }
        _ => panic!("unexpected value"),
    }
    let wrong_version =
        parse_message(r#"{"jsonrpc":"1.0","id":1,"method":"initialize"}"#).unwrap_err();
    assert_eq!(wrong_version.to_rpc_error().code, -32600);
    assert_eq!(wrong_version.to_error_response().id, Some(RequestId::Number(1)));
    let null_id = parse_message(r#"{"jsonrpc":"2.0","id":null,"method":"x"}"#).unwrap_err();
    assert_eq!(null_id.to_rpc_error().code, -32600);
    let nothing = parse_message(r#"{"jsonrpc":"2.0"}"#).unwrap_err();
    assert!(nothing.message().contains("No matching message type"));
    let bad_code =
        parse_message(r#"{"jsonrpc":"2.0","id":1,"error":{"code":"x","message":"m"}}"#)
            .unwrap_err();
    assert!(bad_code.message().contains("error.code"));
    let missing_message =
        parse_message(r#"{"jsonrpc":"2.0","id":1,"error":{"code":1}}"#).unwrap_err();
    assert!(missing_message.message().contains("error.message"));
    assert!(parse_message("[]").is_err());
    assert_eq!(
        parse_message("5").unwrap_err().to_error_response().id,
        Some(RequestId::Number(0))
    );
    assert_eq!(parse_message("not json").unwrap_err().to_rpc_error().code, -32700);
    assert!(parse_message("not json").unwrap_err().message().starts_with("invalid JSON: "));
}

#[test]
fn response_with_error_missing_code_is_a_response() {
    let msg = parse_message(r#"{"jsonrpc":"2.0","id":1,"error":{"message":"m"}}"#).unwrap();
    assert!(matches!(msg, Message::Response(ref r) if r.error.is_none()));
    let both =
        parse_message(r#"{"jsonrpc":"2.0","id":1,"result":{},"error":{"code":1,"message":"m"}}"#)
            .unwrap();
    assert!(matches!(both, Message::Response(ref r) if r.error.is_some()));
}

#[test]
fn payload_batches() {
    let batch = parse_payload(
        r#"[{"jsonrpc":"2.0","id":1,"method":"ping"},{"jsonrpc":"2.0","method":"n"}]"#,
    )
    .unwrap();
    match batch {
        IncomingPayload::Batch(items) => assert_eq!(items.len(), 2),
        _ => panic!("unexpected value"),
    }
    assert!(parse_payload("[]").is_err());
    assert!(matches!(
        parse_payload(r#"{"jsonrpc":"2.0","id":1,"method":"ping"}"#).unwrap(),
        IncomingPayload::Single(_)
    ));
    let bad = parse_payload(
        r#"[{"jsonrpc":"2.0","id":1,"method":"ping"},{"jsonrpc":"1.0","id":2,"method":"x"}]"#,
    );
    assert!(bad.is_err());
}

#[test]
fn progress_token_injection() {
    let mut params = Some(json(r#"{"name": "t"}"#));
    inject_progress_token(&mut params, &ProgressToken::Number(7));
    let token = params.as_ref().unwrap().get("_meta").unwrap().get("progressToken").unwrap();
    assert_eq!(*token, json("7"));
    assert_eq!(
        progress_meta(&params).unwrap().progress_token,
        Some(ProgressToken::Number(7))
    );
    assert_eq!(params.as_ref().unwrap().get("name"), Some(&json(r#""t""#)));
    let mut none = None;
    inject_progress_token(&mut none, &ProgressToken::String("x".into()));
    let none = none.unwrap();
    let token = none.get("_meta").unwrap().get("progressToken").unwrap();
    assert_eq!(*token, json(r#""x""#));
    assert!(progress_meta(&Some(json(r#"{"_meta": 5}"#))).is_none());
}

#[test]
fn endpoint_validation() {
    for ok in [
        "http://localhost:8080",
        "https://127.0.0.1:8001/mcp",
        "http://example.com:443/path?x=1",
        "http://localhost",
        "https://example.com/mcp",
    ] {
        assert!(is_valid_streamable_http_endpoint(ok).is_ok(), "{ok}");
    }
    let refused = |endpoint: &str| is_valid_streamable_http_endpoint(endpoint).unwrap_err();
    assert_eq!(refused(""), "endpoint is empty");
    assert_eq!(refused("http://localhost:8080 "), "endpoint contains spaces");
    assert_eq!(refused("not-a-url"), "url is not valid");
    assert_eq!(refused("http://local#host:8080"), "url is not valid");
    assert_eq!(refused("http://localhost:8080/path#frag"), "url is not valid");
    assert_eq!(refused("http://localhost:8080#frag"), "url is not valid");
    assert_eq!(refused("ftp://localhost:8080"), "url is not valid");
    assert_eq!(refused("http://localhost:99999"), "port out of range");
    assert_eq!(refused("http://localhost:0"), "port out of range");
    let long = format!("http://{}.com", "a".repeat(3000));
    assert_eq!(refused(&long), "url length more than max url length");
}

#[test]
fn server_endpoint_parsing() {
    let e = parse_server_endpoint("http://127.0.0.1:8000/mcp").unwrap();
    assert_eq!(e.host, "127.0.0.1");
    assert_eq!(e.port, 8000);
    assert_eq!(e.path, "/mcp");
    let e = parse_server_endpoint("https://example.com").unwrap();
    assert_eq!(e.port, 443);
    assert_eq!(e.path, "/");
    let e = parse_server_endpoint("http://[::1]:8080").unwrap();
    assert_eq!(e.host, "::1");
    assert!(parse_server_endpoint("").is_err());
    assert!(parse_server_endpoint("ftp://x:1").is_err());
}

#[test]
fn version_helpers() {
    assert!(is_supported_protocol_version(DEFAULT_PROTOCOL_VERSION));
    assert!(is_supported_protocol_version(LATEST_PROTOCOL_VERSION));
    assert!(!is_supported_protocol_version("2024-11-05"));
    assert_eq!(JsonRpcErrorCode::InvalidRequest.code(), -32600);
}

#[test]
fn elicit_params_tagging() {
    let form = ElicitParams::from_json(&json(
        r#"{"mode": "form", "message": "m", "requestedSchema": {"type": "object"}}"#,
    ))
    .unwrap();
    assert!(matches!(form, ElicitParams::Form { .. }));
    let url = ElicitParams::Url {
        message: "m".into(),
        url: "https://x".into(),
        elicitation_id: "e1".into(),
    };
    assert_eq!(
        url.to_json(),
        json(r#"{"mode": "url", "message": "m", "url": "https://x", "elicitationId": "e1"}"#)
    );
}

#[test]
fn a_written_message_is_read_back() {
    for text in [
        r#"{"jsonrpc":"2.0","id":1,"method":"initialize","params":{"a":[1,{"b":null}],"c":"\n\"x"}}"#,
        r#"{"jsonrpc":"2.0","id":"q","method":"ping"}"#,
        r#"{"jsonrpc":"2.0","method":"notifications/initialized","params":{}}"#,
        r#"{"jsonrpc":"2.0","id":-4,"result":[true,false,9007199254740993]}"#,
        r#"{"jsonrpc":"2.0","id":1,"error":{"code":-32600,"message":"no","data":{"x":1}}}"#,
    ] {
        let message = parse_message(text).unwrap();
        let written = serialize_message(&message);
        assert_eq!(written, text);
        assert_eq!(parse_message(&written).unwrap(), message);
        assert!(written.chars().all(|c| c >= ' '));
    }
}
