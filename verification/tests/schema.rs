use mcp_sdk::json::Json;
use mcp_sdk::schema;

fn json(text: &str) -> Json {
    Json::parse(text).unwrap()
}

fn validate(schema: &str, instance: &str) -> Result<(), String> {
    schema::validate(&json(schema), &json(instance))
}

#[test]
fn required_and_types() {
    let schema = r#"{"type": "object", "properties": {"user_query": {"type": "string"}},
            "required": ["user_query"]}"#;
    assert!(validate(schema, r#"{"user_query": "hi"}"#).is_ok());
    let err = validate(schema, "{}").unwrap_err();
    assert!(err.contains("required property 'user_query'"));
    let err = validate(schema, r#"{"user_query": 5}"#).unwrap_err();
    assert!(err.contains("expected type"));
    assert!(validate(schema, "[1, 2]").is_err());
}

#[test]
fn numeric_and_string_bounds() {
    let schema = r#"{"type": "integer", "minimum": 1, "maximum": 100}"#;
    assert!(validate(schema, "50").is_ok());
    assert!(validate(schema, "0").is_err());
    assert!(validate(schema, "101").is_err());
    assert!(validate(schema, "1.5").is_err());
    let s = r#"{"type": "string", "minLength": 2, "pattern": "^a"}"#;
    assert!(validate(s, r#""ab""#).is_ok());
    assert!(validate(s, r#""a""#).is_err());
    assert!(validate(s, r#""bb""#).is_err());
}

#[test]
fn whole_bounds_hold_as_they_stand() {
    for bound in [-9007199254740992i64, -1, 0, 1, 9007199254740991] {
        let least = format!("{{\"minimum\": {bound}}}");
        let most = format!("{{\"maximum\": {bound}}}");
        assert!(validate(&least, &bound.to_string()).is_ok());
        assert!(validate(&most, &bound.to_string()).is_ok());
        assert!(validate(&least, &(bound + 1).to_string()).is_ok());
        assert!(validate(&most, &(bound + 1).to_string()).is_err());
    }
    // Two whole numbers that are so large may have one double.
    assert!(validate(r#"{"minimum": 9007199254740993}"#, "9007199254740992").is_ok());
    assert!(validate(r#"{"minimum": 9007199254740994}"#, "9007199254740992").is_err());
}

#[test]
fn arrays_enums_and_combinators() {
    let schema = r#"{"type": "array", "items": {"type": "number"}, "minItems": 1}"#;
    assert!(validate(schema, "[1, 2.5]").is_ok());
    assert!(validate(schema, "[]").is_err());
    assert!(validate(schema, r#"["x"]"#).is_err());
    let e = r#"{"enum": ["a", "b"]}"#;
    assert!(validate(e, r#""a""#).is_ok());
    assert!(validate(e, r#""c""#).is_err());
    let any = r#"{"anyOf": [{"type": "string"}, {"type": "null"}]}"#;
    assert!(validate(any, "null").is_ok());
    assert!(validate(any, "1").is_err());
    let one = r#"{"oneOf": [{"type": "number"}, {"type": "integer"}]}"#;
    assert!(validate(one, "1").is_err());
    assert!(validate(one, "1.5").is_ok());
    let not = r#"{"not": {"type": "string"}}"#;
    assert!(validate(not, r#""s""#).is_err());
    assert!(validate(not, "2").is_ok());
}

#[test]
fn additional_properties() {
    let schema =
        r#"{"type": "object", "properties": {"a": {}}, "additionalProperties": false}"#;
    assert!(validate(schema, r#"{"a": 1}"#).is_ok());
    assert!(validate(schema, r#"{"b": 1}"#).is_err());
    let typed = r#"{"type": "object", "additionalProperties": {"type": "string"}}"#;
    assert!(validate(typed, r#"{"x": "y"}"#).is_ok());
    assert!(validate(typed, r#"{"x": 1}"#).is_err());
    assert!(validate("true", "1").is_ok());
    assert!(validate("false", "1").is_err());
}

#[test]
fn the_first_violation_is_told_with_its_place() {
    let schema = r#"{"type": "object", "properties": {"list": {"items": {"type": "string"}}}}"#;
    let err = validate(schema, r#"{"list": ["a", 2, 3]}"#).unwrap_err();
    assert!(err.contains("list"), "{err}");
    assert!(err.contains("1"), "{err}");
}
