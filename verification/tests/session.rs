use mcp_sdk::error::McpError;
use mcp_sdk::json::Json;
use mcp_sdk::session::{PendingRequests, WaitOutcome, PROGRESS_GRACE};
use mcp_sdk::types::ProgressToken;
use mcp_sdk::{RequestId, RpcError};

#[test]
fn register_complete_and_progress_lookup() {
    let mut pending: PendingRequests<&str, &str> = PendingRequests::new();
    let id = pending.register("waiter", Some("listener"));
    assert_eq!(id, RequestId::Number(1));
    assert_eq!(pending.len(), 1);
    assert_eq!(pending.progress_len(), 1);
    assert_eq!(pending.progress_callback(&ProgressToken::Number(1), 0), Some(&"listener"));
    let text = ProgressToken::String("1".into());
    assert_eq!(pending.progress_callback(&text, 0), Some(&"listener"));
    assert_eq!(pending.complete(&id, 10), Some("waiter"));
    assert_eq!(pending.progress_len(), 0);
    // Still reachable during the grace period after completion.
    let token = ProgressToken::Number(1);
    assert_eq!(pending.progress_callback(&token, 10), Some(&"listener"));
    let last = 10 + PROGRESS_GRACE - 1;
    assert_eq!(pending.progress_callback(&token, last), Some(&"listener"));
    assert_eq!(pending.progress_callback(&token, last + 1), None);
    assert_eq!(pending.progress_callback(&ProgressToken::Number(99), 10), None);
    assert_eq!(pending.complete(&id, 11), None);
    let id2 = pending.register("second", None);
    assert_eq!(id2, RequestId::Number(2));
    pending.remove(&id2, 12);
    assert!(pending.is_empty());
}

#[test]
fn await_response_paths() {
    let mut pending: PendingRequests<(), ()> = PendingRequests::new();
    let id = pending.register((), None);
    assert!(pending.complete(&id, 0).is_some());
    let answer = WaitOutcome::Answered(Err(RpcError::internal_error("err".to_string())));
    let err = pending.settle(&id, answer, 50, 0).unwrap_err();
    assert_eq!(err.code(), Some(-32603));

    let id = pending.register((), None);
    let err = pending.settle(&id, WaitOutcome::TimedOut, 5, 5).unwrap_err();
    assert!(matches!(err, McpError::Timeout(5)));
    assert!(pending.is_empty());

    let id = pending.register((), None);
    let failed = pending.fail_all();
    assert_eq!(failed.len(), 1);
    assert!(pending.is_empty());
    let answer = WaitOutcome::Answered(Err(RpcError::internal_error("closed".to_string())));
    let err = pending.settle(&id, answer, 50, 6).unwrap_err();
    assert_eq!(err.message(), "closed");

    let id = pending.register((), None);
    let err = pending.settle(&id, WaitOutcome::Dropped, 50, 7).unwrap_err();
    assert!(matches!(err, McpError::Closed));
    let ok = pending.settle(&id, WaitOutcome::Answered(Ok(Json::Bool(true))), 50, 8);
    assert_eq!(ok.unwrap(), Json::Bool(true));
}

#[test]
fn numbers_are_given_in_turn() {
    let mut pending: PendingRequests<u8, ()> = PendingRequests::new();
    for n in 1..=5 {
        assert_eq!(pending.register(0, None), RequestId::Number(n));
    }
    assert_eq!(pending.len(), 5);
}

#[test]
fn what_is_awaited_is_counted() {
    let mut pending: PendingRequests<u8, u8> = PendingRequests::new();
    assert!(pending.is_empty());
    let first = pending.register(1, Some(1));
    let second = pending.register(2, None);
    assert_eq!((pending.len(), pending.progress_len()), (2, 1));
    assert_eq!(pending.complete(&first, 3), Some(1));
    assert_eq!((pending.len(), pending.progress_len()), (1, 0));
    assert_eq!(pending.complete(&first, 4), None);
    // A text is another identity than the number that it shows.
    assert_eq!(pending.complete(&RequestId::String("2".into()), 4), None);
    assert_eq!(pending.len(), 1);
    assert_eq!(pending.complete(&second, 5), Some(2));
    assert!(pending.is_empty());
    assert_eq!(pending.complete(&second, 6), None);
    assert_eq!(pending.len(), 0);
}
