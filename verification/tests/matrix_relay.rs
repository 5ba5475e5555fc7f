use matrix_mcp::matrix_relay::{extract_text, structured_text, JsonMember, JsonValue, ToolReply};

fn member(key: &str, value: Option<&str>) -> JsonMember {
    JsonMember { key: key.to_string(), string_value: value.map(|v| v.to_string()) }
}

fn object(members: Vec<JsonMember>) -> Option<JsonValue> {
    Some(JsonValue::Object(members))
}

#[test]
fn tool_text_prefers_structured_text() {
    let reply = ToolReply {
        structured: object(vec![member("title", Some("t")), member("text", Some("structured"))]),
        blocks: vec![Some("block".to_string())],
    };
    assert_eq!(extract_text(&reply), Some("structured".to_string()));
}

#[test]
fn tool_text_falls_back_to_text_blocks() {
    let reply = ToolReply {
        structured: None,
        blocks: vec![Some("a".to_string()), None, Some("b".to_string())],
    };
    assert_eq!(extract_text(&reply), Some("a\nb".to_string()));
}

#[test]
fn tool_text_ignores_structured_content_without_string_text() {
    let blocks = vec![Some("block".to_string())];
    for structured in [
        object(vec![member("text", None)]),
        object(vec![member("other", Some("x"))]),
        object(vec![]),
        Some(JsonValue::NotObject),
    ] {
        let reply = ToolReply { structured, blocks: blocks.clone() };
        assert_eq!(extract_text(&reply), Some("block".to_string()));
    }
}

#[test]
fn tool_text_without_any_text_is_none() {
    let reply = ToolReply { structured: None, blocks: vec![None] };
    assert_eq!(extract_text(&reply), None);
    let empty = ToolReply { structured: Some(JsonValue::NotObject), blocks: vec![] };
    assert_eq!(extract_text(&empty), None);
}

#[test]
fn tool_text_keeps_empty_structured_text() {
    let reply = ToolReply { structured: object(vec![member("text", Some(""))]), blocks: vec![] };
    assert_eq!(extract_text(&reply), Some(String::new()));
}

#[test]
fn structured_text_reads_text_member() {
    assert_eq!(
        structured_text(&JsonValue::Object(vec![member("texts", Some("no")), member("text", Some("yes"))])),
        Some("yes".to_string())
    );
    assert_eq!(structured_text(&JsonValue::Object(vec![member("Text", Some("no"))])), None);
    assert_eq!(structured_text(&JsonValue::NotObject), None);
}
