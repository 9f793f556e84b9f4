use mcp_sdk::error::{JsonRpcErrorCode, McpError};
use mcp_sdk::json::Json;
use mcp_sdk::server::dispatch::{answer_prompt, answer_resource};
use mcp_sdk::server::prompt_manager::PromptManager;
use mcp_sdk::server::resource_manager::ResourceManager;
use mcp_sdk::server::tool_manager::{ServerTool, ToolManager};
use mcp_sdk::types::{
    Annotations, CallToolResult, ContentBlock, Icon, PromptArgument, PromptInfo, Real,
    ResourceInfo, ResourceTemplate,
};

fn json(text: &str) -> Json {
    Json::parse(text).unwrap()
}

fn tool(name: &str) -> ServerTool<&'static str> {
    let mut t = ServerTool::new(name.to_string(), "echo");
    t.description = Some("First tool".into());
    t
}

fn resource(uri: &str) -> ResourceInfo {
    ResourceInfo { uri: uri.into(), name: "Test Resource".into(), ..Default::default() }
}

fn prompt(name: &str) -> PromptInfo {
    PromptInfo { name: name.into(), ..Default::default() }
}

fn told<T>(r: Result<T, McpError>) -> String {
    match r {
        Ok(_) => panic!("expected an error"),
        Err(e) => e.message(),
    }
}

fn names(m: &ToolManager<&'static str>, cursor: Option<&str>) -> Vec<String> {
    m.list_tools(cursor).tools.iter().map(|t| t.name.clone()).collect()
}

#[test]
fn add_remove_and_overwrite() {
    let mut m = ToolManager::default();
    assert!(m.overwrite());
    m.add_tool(tool("tool1")).unwrap();
    m.add_tool(tool("tool1")).unwrap();
    m.set_overwrite(false);
    assert!(!m.overwrite());
    assert_eq!(told(m.add_tool(tool("tool1"))), "Tool 'tool1' already exists");
    assert_eq!(told(m.remove_tool("")), "Tool name cannot be empty");
    assert_eq!(told(m.remove_tool("nope")), "Tool 'nope' not found");
    m.remove_tool("tool1").unwrap();
    assert!(m.remove_tool("tool1").is_err());
    assert!(m.is_empty());
    let long = "a".repeat(1000);
    m.add_tool(tool(&long)).unwrap();
    assert_eq!(m.list_tools(None).tools[0].name, long);
}

#[test]
fn list_tools_is_sorted_and_paginated() {
    let mut m = ToolManager::new(true, 2);
    for name in ["c", "a", "b", "d", "e"] {
        m.add_tool(tool(name)).unwrap();
    }
    assert_eq!(m.len(), 5);
    let p1 = m.list_tools(None);
    assert_eq!(names(&m, None), vec!["a", "b"]);
    assert_eq!(p1.tools[0].description.as_deref(), Some("First tool"));
    assert_eq!(p1.next_cursor.as_deref(), Some("2"));
    let p2 = m.list_tools(p1.next_cursor.as_deref());
    assert_eq!(names(&m, p1.next_cursor.as_deref()), vec!["c", "d"]);
    let p3 = m.list_tools(p2.next_cursor.as_deref());
    assert_eq!(p3.tools.len(), 1);
    assert!(p3.next_cursor.is_none());
    assert_eq!(m.list_tools(Some("garbage")).tools.len(), 2);
    assert_eq!(m.list_tools(Some("100")).tools.len(), 0);
    m.set_page_size(50);
    assert_eq!(m.list_tools(None).tools.len(), 5);
    let empty: ToolManager<&str> = ToolManager::default();
    assert!(empty.list_tools(None).tools.is_empty());
}

#[test]
fn every_page_size_lists_every_tool_once() {
    for size in 1..8 {
        let mut m = ToolManager::new(true, size);
        for name in ["g", "c", "a", "f", "b", "d", "e"] {
            m.add_tool(tool(name)).unwrap();
        }
        let mut seen: Vec<String> = Vec::new();
        let mut cursor: Option<String> = None;
        loop {
            let page = m.list_tools(cursor.as_deref());
            seen.extend(page.tools.iter().map(|t| t.name.clone()));
            match page.next_cursor {
                Some(c) => cursor = Some(c),
                None => break,
            }
        }
        assert_eq!(seen, ["a", "b", "c", "d", "e", "f", "g"]);
    }
}

#[test]
fn call_tool_paths() {
    let mut m = ToolManager::default();
    let mut t = tool("echo");
    t.input_schema = Some(json(
        r#"{"type": "object", "properties": {"user_query": {"type": "string"}},
            "required": ["user_query"]}"#,
    ));
    m.add_tool(t).unwrap();
    let arguments = json(r#"{"user_query": "hi"}"#);
    assert_eq!(m.prepare_call("echo", &arguments).unwrap().handler, "echo");
    let outcome = Ok(CallToolResult::text("Echo: hi".to_string()));
    let r = m.call_tool("echo", &arguments, outcome).unwrap();
    assert_eq!(r.content[0].as_text(), Some("Echo: hi"));
    assert!(!r.is_error);
    let ran = || Ok(CallToolResult::text("x".to_string()));
    let refused = m.call_tool("echo", &json("{}"), ran()).unwrap_err();
    assert!(refused.message().starts_with("Input validation failed for tool 'echo'"));
    assert!(matches!(refused, McpError::Validation(_)));
    let refused = m.call_tool("nope", &json("{}"), ran()).unwrap_err();
    assert_eq!(refused.message(), "Tool not found: nope");
    assert!(matches!(refused, McpError::InvalidState(_)));
    assert!(m.call_tool("", &json("{}"), ran()).is_err());
    // A refused call runs nothing.
    assert!(m.prepare_call("echo", &json("{}")).is_err());
    assert!(m.prepare_call("nope", &json("{}")).is_err());

    // A failing handler becomes an isError result.
    m.add_tool(tool("fail")).unwrap();
    let outcome = Err(McpError::state("Simulated tool error".to_string()));
    let r = m.call_tool("fail", &json("{}"), outcome).unwrap();
    assert!(r.is_error);
    assert_eq!(r.content[0].as_text(), Some("Simulated tool error"));
    assert!(matches!(r.content[0], ContentBlock::Text(_)));
    m.remove_tool("fail").unwrap();
    let outcome = Ok(CallToolResult::text("x".to_string()));
    assert!(m.call_tool("fail", &json("{}"), outcome).is_err());
}

#[test]
fn output_schema_validation() {
    let mut m = ToolManager::default();
    let mut with_schema = |schema: &str, outcome: CallToolResult| {
        let mut t = tool("test");
        t.output_schema = Some(json(schema));
        m.add_tool(t).unwrap();
        m.call_tool("test", &json("{}"), Ok(outcome))
    };
    let structured =
        || CallToolResult::from_structured(json(r#"{"status": "success", "code": 200}"#));
    let pass = r#"{"type": "object", "properties": {"status": {"type": "string"},
        "code": {"type": "number"}}, "required": ["status", "code"]}"#;
    assert!(with_schema(pass, structured()).is_ok());
    let fail = r#"{"type": "object", "properties": {"required_field": {"type": "string"}},
        "required": ["required_field"]}"#;
    let err = told(with_schema(fail, structured()));
    assert!(err.starts_with("Output validation failed for tool 'test'"));
    let array = CallToolResult::from_structured(json("[1, 2, 3]"));
    let err = told(with_schema(r#"{"type": "object"}"#, array));
    assert!(err.contains("structuredContent must be a JSON object"));
    let plain = CallToolResult::text("no structured".to_string());
    assert!(with_schema(r#"{"type": "object"}"#, plain).is_ok());
    let error_result = CallToolResult {
        is_error: true,
        structured_content: Some(json(r#"{"invalid": "data"}"#)),
        ..Default::default()
    };
    let strict = r#"{"type": "object", "properties": {"required": {"type": "string"}},
        "required": ["required"]}"#;
    assert!(with_schema(strict, error_result).is_ok());
}

#[test]
fn add_read_remove_resources() {
    let mut m = ResourceManager::default();
    assert_eq!(told(m.add_resource(resource(""), "x")), "Resource URI cannot be empty");
    let mut no_name = resource("test://r");
    no_name.name.clear();
    assert_eq!(told(m.add_resource(no_name, "x")), "Resource name cannot be empty");
    m.add_resource(resource("test://resource"), "First content").unwrap();
    assert_eq!(m.read_resource("test://resource").unwrap(), &"First content");
    m.add_resource(resource("test://resource"), "Second content").unwrap();
    assert_eq!(m.read_resource("test://resource").unwrap(), &"Second content");
    assert_eq!(
        told(m.read_resource("nonexistent://resource")),
        "Resource not found:nonexistent://resource"
    );
    m.add_resource(resource("test://resource2"), "x").unwrap();
    m.remove_resource("test://resource").unwrap();
    assert_eq!(told(m.remove_resource("")), "Resource URI cannot be empty");
    assert_eq!(
        told(m.remove_resource("nonexistent://resource")),
        "Resource 'nonexistent://resource' not found"
    );
    let list = m.list_resources(None);
    assert_eq!(list.resources.len(), 1);
    assert_eq!(list.resources[0].uri, "test://resource2");

    m.add_resource(resource("test://blob"), "blob").unwrap();
    assert_eq!(m.read_resource("test://blob").unwrap(), &"blob");
    m.subscribe_resource("test://blob").unwrap();
    m.unsubscribe_resource("test://blob").unwrap();
    assert!(m.subscribe_resource("nonexistent://resource").is_err());
    assert!(m.unsubscribe_resource("nonexistent://resource").is_err());
}

#[test]
fn no_overwrite_mode() {
    let mut m = ResourceManager::new(false, 10);
    m.add_resource(resource("r"), "a").unwrap();
    assert_eq!(told(m.add_resource(resource("r"), "b")), "Resource 'r' already exists");
    let t = ResourceTemplate {
        uri_template: "t/{id}".into(),
        name: "T".into(),
        ..Default::default()
    };
    m.add_resource_template(t.clone()).unwrap();
    assert!(m.add_resource_template(t).is_err());
}

#[test]
fn resource_info_and_pagination() {
    let mut m = ResourceManager::new(true, 2);
    let detailed = ResourceInfo {
        uri: "test://detailed".into(),
        name: "Detailed".into(),
        title: Some("Title".into()),
        description: Some("Desc".into()),
        mime_type: Some("text/plain".into()),
        size: Some(1024),
        icons: Some(vec![Icon { src: "icon.png".into(), ..Default::default() }]),
        annotations: Some(Annotations {
            priority: Some(Real { bits: 1.0f64.to_bits() }),
            ..Default::default()
        }),
    };
    m.add_resource(detailed.clone(), "x").unwrap();
    assert_eq!(m.list_resources(None).resources[0], detailed);
    for i in 0..4 {
        m.add_resource(resource(&format!("test://r{i}")), "x").unwrap();
    }
    assert_eq!(m.len(), 5);
    let mut total = 0;
    let mut cursor: Option<String> = None;
    loop {
        let page = m.list_resources(cursor.as_deref());
        total += page.resources.len();
        match page.next_cursor {
            Some(c) => cursor = Some(c),
            None => break,
        }
    }
    assert_eq!(total, 5);
    m.set_page_size(50);
    assert_eq!(m.list_resources(None).resources.len(), 5);
    assert!(ResourceManager::<&str>::default().is_empty());
}

#[test]
fn templates() {
    let mut m = ResourceManager::default();
    let empty_uri = ResourceTemplate { name: "n".into(), ..Default::default() };
    assert_eq!(told(m.add_resource_template(empty_uri)), "Resource template URI cannot be empty");
    let empty_name = ResourceTemplate { uri_template: "t".into(), ..Default::default() };
    assert_eq!(
        told(m.add_resource_template(empty_name)),
        "Resource template name cannot be empty"
    );
    let t1 = ResourceTemplate {
        uri_template: "test://t/{id}".into(),
        name: "First Template".into(),
        title: Some("First".into()),
        ..Default::default()
    };
    m.add_resource_template(t1.clone()).unwrap();
    let mut t2 = t1.clone();
    t2.name = "Second Template".into();
    t2.title = Some("Second".into());
    m.add_resource_template(t2).unwrap();
    let list = m.list_resource_templates();
    assert_eq!(list.resource_templates.len(), 1);
    assert_eq!(list.resource_templates[0].name, "Second Template");
    assert_eq!(told(m.remove_resource_template("")), "Resource template URI cannot be empty");
    assert!(m.remove_resource_template("nonexistent://template").is_err());
    m.remove_resource_template("test://t/{id}").unwrap();
    assert!(m.list_resource_templates().resource_templates.is_empty());
    // Resources and templates are independent.
    m.add_resource(resource("r"), "x").unwrap();
    m.add_resource_template(t1).unwrap();
    m.remove_resource("r").unwrap();
    assert_eq!(m.list_resource_templates().resource_templates.len(), 1);
}

#[test]
fn add_get_remove() {
    let mut m = PromptManager::default();
    assert!(m.is_empty());
    assert_eq!(told(m.add_prompt(prompt(""), "x")), "Prompt name cannot be empty");
    m.add_prompt(prompt("prompt1"), "Test description").unwrap();
    assert_eq!(m.get_prompt("prompt1").unwrap(), &"Test description");
    assert_eq!(told(m.get_prompt("nonexistent")), "Prompt not found: nonexistent");

    m.add_prompt(prompt("prompt1"), "Second handler").unwrap();
    assert_eq!(m.get_prompt("prompt1").unwrap(), &"Second handler");
    m.add_prompt(prompt("prompt2"), "2").unwrap();
    assert_eq!(m.len(), 2);
    m.remove_prompt("prompt1");
    m.remove_prompt("missing");
    let list = m.list_prompts();
    assert_eq!(list.prompts.len(), 1);
    assert_eq!(list.prompts[0].name, "prompt2");
}

#[test]
fn no_overwrite_and_handler_errors() {
    let mut m = PromptManager::new(false);
    m.add_prompt(prompt("p"), "1").unwrap();
    assert_eq!(told(m.add_prompt(prompt("p"), "2")), "Prompt already exists: p");
}

#[test]
fn what_a_handler_fails_with_is_told() {
    let prompt = answer_prompt(Err(McpError::state("Handler exception".to_string()))).unwrap_err();
    assert_eq!(prompt.message, "Handler exception");
    assert_eq!(prompt.code, JsonRpcErrorCode::InvalidParams.code());
    assert_eq!(prompt.data, None);
    let failed = McpError::state("Handler exception".to_string());
    let resource = answer_resource(Err(failed)).unwrap_err();
    assert_eq!(resource.message, "Handler exception");
    assert_eq!(resource.code, JsonRpcErrorCode::InvalidParams.code());
    assert_eq!(resource.data, None);
}

#[test]
fn fields_preserved_and_concurrent_access() {
    let mut m = PromptManager::default();
    let detailed = PromptInfo {
        name: "detailed_prompt".into(),
        description: Some("A detailed prompt description".into()),
        title: Some("Detailed Prompt Title".into()),
        icons: Some(vec![Icon { src: "icon.png".into(), ..Default::default() }]),
        arguments: Some(vec![PromptArgument::new("param1".into(), "d".into(), true)]),
    };
    m.add_prompt(detailed.clone(), "x").unwrap();
    assert_eq!(m.list_prompts().prompts[0], detailed);
    for i in 0..8 {
        m.add_prompt(prompt(&format!("p{i}")), "h").unwrap();
        assert!(m.get_prompt("detailed_prompt").is_ok());
    }
    assert_eq!(m.len(), 9);
    let names: Vec<String> = m.list_prompts().prompts.iter().map(|p| p.name.clone()).collect();
    let mut sorted = names.clone();
    sorted.sort();
    assert_eq!(names, sorted);
}

#[test]
fn pages_list_everything_once() {
    let mut tools = ToolManager::default();
    let mut resources: ResourceManager<&'static str> = ResourceManager::default();
    for i in [4, 1, 7, 3, 9, 2, 8] {
        tools.add_tool(tool(&format!("t{i}"))).unwrap();
        resources.add_resource(resource(&format!("u{i}")), "r").unwrap();
    }
    for size in 1..9 {
        tools.set_page_size(size);
        resources.set_page_size(size);
        let (mut names, mut uris) = (Vec::new(), Vec::new());
        let mut cursor: Option<String> = None;
        loop {
            let page = tools.list_tools(cursor.as_deref());
            let same = resources.list_resources(cursor.as_deref());
            assert_eq!(page.next_cursor, same.next_cursor);
            if page.next_cursor.is_some() {
                assert_eq!((page.tools.len(), same.resources.len()), (size, size));
            }
            names.extend(page.tools.into_iter().map(|t| t.name));
            uris.extend(same.resources.into_iter().map(|r| r.uri));
            cursor = page.next_cursor;
            if cursor.is_none() {
                break;
            }
        }
        assert_eq!(names, vec!["t1", "t2", "t3", "t4", "t7", "t8", "t9"]);
        assert_eq!(uris, vec!["u1", "u2", "u3", "u4", "u7", "u8", "u9"]);
    }
}
