use mcp_sdk::log::{
    current_timestamp, emit, get_log_callback, get_log_level, log_level_name, set_log_callback,
    set_log_level, set_log_level_typed, LogOutput, LogState, McpLogLevel,
};

type Callback = fn(McpLogLevel, String);

fn capture(_level: McpLogLevel, _message: String) {}

#[test]
fn level_set_get_and_invalid() {
    let mut state: LogState<Callback> = LogState::new();
    let original = get_log_level(&state);
    assert_eq!(set_log_level(&mut state, McpLogLevel::Debug.as_u8()), 0);
    assert_eq!(get_log_level(&state), McpLogLevel::Debug);
    assert_eq!(set_log_level(&mut state, McpLogLevel::Fatal.as_u8()), 0);
    assert_eq!(get_log_level(&state), McpLogLevel::Fatal);
    assert_eq!(set_log_level(&mut state, 2), -1);
    assert_eq!(get_log_level(&state), McpLogLevel::Fatal);
    assert_eq!(set_log_level(&mut state, 8), -1);
    set_log_level_typed(&mut state, original);
    assert_eq!(get_log_level(&state), original);
}

#[test]
fn level_names() {
    assert_eq!(log_level_name(3), "DEBUG");
    assert_eq!(log_level_name(4), "INFO");
    assert_eq!(log_level_name(5), "WARN");
    assert_eq!(log_level_name(6), "ERROR");
    assert_eq!(log_level_name(7), "FATAL");
    assert_eq!(log_level_name(0), "UNKNOWN");
}

#[test]
fn levels_have_their_numbers_back() {
    for n in 0..=255u8 {
        match McpLogLevel::from_u8(n) {
            Some(level) => {
                assert!((3..=7).contains(&n));
                assert_eq!(level.as_u8(), n);
                assert_eq!(level.name(), log_level_name(n));
            }
            None => assert!(!(3..=7).contains(&n)),
        }
    }
}

#[test]
fn callback_receives_filtered_lines() {
    let mut state: LogState<Callback> = LogState::new();
    assert_eq!(set_log_callback(&mut state, Some(capture)), 0);
    assert!(get_log_callback(&state).is_some());
    set_log_level_typed(&mut state, McpLogLevel::Info);
    let hidden =
        emit(&state, McpLogLevel::Debug, "src/a.rs", 1, "hidden 1", "now", "main");
    assert!(matches!(hidden, LogOutput::Dropped));
    let shown =
        emit(&state, McpLogLevel::Info, "src/a.rs", 12, "Test message", "now", "main");
    match shown {
        LogOutput::Callback(line) => {
            assert!(line.contains("[INFO]"));
            assert!(line.ends_with("Test message"));
            assert_eq!(line, "[now] [main] [INFO] a.rs:[12] Test message");
        }
        _ => panic!("the line was not handed on"),
    }
    assert_eq!(set_log_callback(&mut state, None), 0);
    assert!(get_log_callback(&state).is_none());
    let recorded =
        emit(&state, McpLogLevel::Info, "src/a.rs", 12, "Test message", "now", "main");
    assert!(matches!(recorded, LogOutput::Record));
}

#[test]
fn timestamp_format() {
    let ts = current_timestamp();
    assert_eq!(ts.len(), 23);
    assert_eq!(&ts[4..5], "-");
    assert_eq!(&ts[7..8], "-");
    assert_eq!(&ts[10..11], " ");
    assert_eq!(&ts[13..14], ":");
    assert_eq!(&ts[16..17], ":");
    assert_eq!(&ts[19..20], ".");
}
