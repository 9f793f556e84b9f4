use mcp_sdk::sampling_validation::{
    validate_tool_use_result_messages, MISSING_RESULT, MIXED_CONTENT,
};
use mcp_sdk::types::{
    RoleType, SamplingContent, SamplingMessage, SamplingMessageContentBlock, TextContent,
    ToolResultContent, ToolUseContent,
};

fn text(role: RoleType, t: &str) -> SamplingMessage {
    SamplingMessage {
        role,
        content: SamplingContent::Single(SamplingMessageContentBlock::Text(TextContent::new(
            t.to_string(),
        ))),
        meta: None,
    }
}

fn tool_use(id: &str) -> SamplingMessage {
    SamplingMessage {
        role: RoleType::Assistant,
        content: SamplingContent::Single(SamplingMessageContentBlock::ToolUse(ToolUseContent {
            id: id.into(),
            name: "t".into(),
            ..Default::default()
        })),
        meta: None,
    }
}

fn tool_result(id: &str) -> SamplingMessage {
    SamplingMessage {
        role: RoleType::User,
        content: SamplingContent::Single(SamplingMessageContentBlock::ToolResult(
            ToolResultContent { tool_use_id: id.into(), ..Default::default() },
        )),
        meta: None,
    }
}

fn refused(messages: Vec<SamplingMessage>) -> String {
    validate_tool_use_result_messages(&messages).unwrap_err().message()
}

#[test]
fn plain_messages_are_valid() {
    assert!(validate_tool_use_result_messages(&vec![text(RoleType::User, "hi")]).is_ok());
    assert!(validate_tool_use_result_messages(&vec![]).is_ok());
}

#[test]
fn valid_tool_loop() {
    let msgs = vec![
        text(RoleType::User, "q"),
        tool_use("a"),
        tool_result("a"),
        text(RoleType::Assistant, "done"),
    ];
    assert!(validate_tool_use_result_messages(&msgs).is_ok());
}

#[test]
fn tool_result_without_tool_use_fails() {
    assert_eq!(refused(vec![tool_result("x")]), MISSING_RESULT);
    assert_eq!(refused(vec![text(RoleType::Assistant, "n"), tool_result("x")]), MISSING_RESULT);
}

#[test]
fn mixed_tool_result_content_fails() {
    let mixed = SamplingMessage {
        role: RoleType::User,
        content: SamplingContent::Multiple(vec![
            SamplingMessageContentBlock::ToolResult(ToolResultContent {
                tool_use_id: "a".into(),
                ..Default::default()
            }),
            SamplingMessageContentBlock::Text(TextContent::new("extra".to_string())),
        ]),
        meta: None,
    };
    assert_eq!(refused(vec![tool_use("a"), mixed]), MIXED_CONTENT);
}

#[test]
fn id_mismatch_and_missing_follow_up_fail() {
    assert_eq!(refused(vec![tool_use("a"), tool_result("b")]), MISSING_RESULT);
    assert_eq!(refused(vec![tool_use("a")]), MISSING_RESULT);
    let mut wrong_role = tool_use("a");
    wrong_role.role = RoleType::User;
    assert_eq!(refused(vec![wrong_role, tool_result("a")]), MISSING_RESULT);
}
