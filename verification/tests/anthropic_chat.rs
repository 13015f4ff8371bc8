use model_provider::chat::anthropic_compat::{
    anthropic_messages_url, anthropic_stream_item_to_chunk, build_anthropic_body,
    map_anthropic_stop_reason, ANTHROPIC_VERSION,
};
use model_provider::chat::types::{
    ChatChunk, ChatMessage, ChatRequest, FinishReason, ToolChoice, ToolDefinition,
};
use model_provider::chat::{chat_text, complete_response, ChatBackend};
use model_provider::error::Error;
use model_provider::http::{body_text, decode_json_body};
use model_provider::json::Json;
use model_provider::sse::{SseEvent, SseParser};

fn assert_json(j: &Json, expected: &str) {
    assert_eq!(body_text(j), body_text(&decode_json_body(expected).expect("valid JSON")));
}

fn json(text: &str) -> Json {
    decode_json_body(text).unwrap()
}

fn stream_chunks(body: &str) -> Vec<ChatChunk> {
    let mut p = SseParser::new();
    p.push_bytes(body.as_bytes());
    p.finalize();
    let mut finish_emitted = false;
    let mut out = Vec::new();
    while let Some(ev) = p.pop_event() {
        if let Some(item) = anthropic_stream_item_to_chunk(Ok(ev), &mut finish_emitted) {
            out.push(item.unwrap());
        }
    }
    out
}

fn complete(status: u16, body: &str) -> Result<model_provider::chat::types::ChatResponse, Error> {
    complete_response(ChatBackend::AnthropicMessages, status, body.to_string())
}

#[test]
fn messages_success_returns_text_block() {
    assert_eq!(ANTHROPIC_VERSION, "2023-06-01");
    let body = build_anthropic_body(
        "sonnet-4-20250514",
        &ChatRequest::single_user("hello"),
        false,
    )
    .unwrap();
    assert_json(
        &body,
        r#"{"model":"sonnet-4-20250514","max_tokens":4096,
            "messages":[{"role":"user","content":"hello"}],"temperature":0.2}"#,
    );
    let r = complete(
        200,
        r#"{"id":"msg_1","type":"message","role":"assistant",
            "content":[{"type":"text","text":"hi there"}],
            "model":"sonnet-4-20250514","stop_reason":"end_turn"}"#,
    )
    .unwrap();
    assert_eq!(r.finish_reason, Some(FinishReason::Stop));
    assert_eq!(chat_text(r).unwrap(), "hi there");
}

#[test]
fn messages_system_top_level_and_multi_turn() {
    let req = ChatRequest {
        messages: vec![
            ChatMessage::system("Be brief."),
            ChatMessage::system("Second line."),
            ChatMessage::user("hi"),
            ChatMessage::assistant("hey"),
            ChatMessage::user("bye"),
        ],
        ..Default::default()
    };
    assert_json(
        &build_anthropic_body("sonnet-4-20250514", &req, false).unwrap(),
        r#"{"model":"sonnet-4-20250514","max_tokens":4096,
            "system":"Be brief.\n\nSecond line.",
            "messages":[{"role":"user","content":"hi"},{"role":"assistant","content":"hey"},
                        {"role":"user","content":"bye"}],
            "temperature":0.2}"#,
    );
    let r = complete(200, r#"{"content":[{"type":"text","text":"ok"}],"stop_reason":"end_turn"}"#)
        .unwrap();
    assert_eq!(r.content.as_deref(), Some("ok"));
}

#[test]
fn anthropic_complete_serializes_tool_choice_and_sampling() {
    let req = ChatRequest {
        messages: vec![ChatMessage::user("hi")],
        tools: Some(vec![ToolDefinition::function(
            "get_weather",
            json(r#"{"type":"object","properties":{}}"#),
        )]),
        tool_choice: Some(ToolChoice::Tool("get_weather".to_string())),
        temperature: Some("0.7".to_string()),
        max_tokens: Some(512),
        top_p: None,
    };
    assert_json(
        &build_anthropic_body("sonnet-4-20250514", &req, false).unwrap(),
        r#"{"model":"sonnet-4-20250514","max_tokens":512,
            "messages":[{"role":"user","content":"hi"}],
            "tools":[{"name":"get_weather","input_schema":{"type":"object","properties":{}}}],
            "tool_choice":{"type":"tool","name":"get_weather"},"temperature":0.7}"#,
    );
}

#[test]
fn complete_omits_tool_choice_when_none() {
    let req = ChatRequest {
        messages: vec![ChatMessage::user("hi")],
        tools: Some(vec![ToolDefinition::function(
            "get_weather",
            json(r#"{"type":"object","properties":{}}"#),
        )]),
        tool_choice: Some(ToolChoice::Disabled),
        ..Default::default()
    };
    assert_json(
        &build_anthropic_body("sonnet-4-20250514", &req, false).unwrap(),
        r#"{"model":"sonnet-4-20250514","max_tokens":4096,
            "messages":[{"role":"user","content":"hi"}],
            "tools":[{"name":"get_weather","input_schema":{"type":"object","properties":{}}}],
            "temperature":0.2}"#,
    );
}

#[test]
fn auto_and_required_tool_choices_are_written_as_types() {
    let mut req = ChatRequest::single_user("hi");
    req.tools = Some(vec![ToolDefinition::function("f", json("{}"))]);
    req.tool_choice = Some(ToolChoice::Auto);
    let b = build_anthropic_body("m", &req, true).unwrap();
    assert_json(
        &b,
        r#"{"model":"m","max_tokens":4096,"messages":[{"role":"user","content":"hi"}],
            "tools":[{"name":"f","input_schema":{}}],"tool_choice":{"type":"auto"},
            "temperature":0.2,"stream":true}"#,
    );
    req.tool_choice = Some(ToolChoice::Required);
    let b = build_anthropic_body("m", &req, false).unwrap();
    assert_json(
        &b,
        r#"{"model":"m","max_tokens":4096,"messages":[{"role":"user","content":"hi"}],
            "tools":[{"name":"f","input_schema":{}}],"tool_choice":{"type":"any"},
            "temperature":0.2}"#,
    );
}

#[test]
fn messages_non_stream_tool_use_in_content() {
    let r = complete(
        200,
        r#"{"content":[{"type":"tool_use","id":"tu_1","name":"get_weather","input":{"city":"NYC"}}],
            "stop_reason":"tool_use"}"#,
    )
    .unwrap();
    assert!(r.content.is_none());
    let tc = r.tool_calls.as_ref().unwrap();
    assert_eq!(tc[0].id, "tu_1");
    assert_eq!(tc[0].function.name, "get_weather");
    assert!(tc[0].function.arguments.contains("NYC"));
    assert_eq!(r.finish_reason, Some(FinishReason::ToolCalls));
}

#[test]
fn messages_stream_tool_use_deltas() {
    let body = [
        "event: content_block_start\n",
        "data: {\"type\":\"content_block_start\",\"index\":0,\"content_block\":{\"type\":\"tool_use\",\"id\":\"tu_1\",\"name\":\"fn\"}}\n\n",
        "event: content_block_delta\n",
        "data: {\"type\":\"content_block_delta\",\"index\":0,\"delta\":{\"type\":\"input_json_delta\",\"partial_json\":\"{\\\"a\\\":1}\"}}\n\n",
        "event: message_delta\n",
        "data: {\"type\":\"message_delta\",\"delta\":{\"stop_reason\":\"tool_use\"}}\n\n",
    ]
    .concat();
    let chunks = stream_chunks(&body);
    assert_eq!(chunks.len(), 3);
    assert_eq!(chunks[0].tool_call_deltas.as_ref().unwrap()[0].id.as_deref(), Some("tu_1"));
    assert_eq!(
        chunks[1].tool_call_deltas.as_ref().unwrap()[0].function_arguments.as_deref(),
        Some("{\"a\":1}")
    );
    assert_eq!(chunks[2].finish_reason, Some(FinishReason::ToolCalls));
}

#[test]
fn messages_base_url_trailing_slash_normalized() {
    assert_eq!(anthropic_messages_url("http://h:1/v1/"), "http://h:1/v1/messages");
    assert_eq!(anthropic_messages_url("http://h:1/v1"), "http://h:1/v1/messages");
}

#[test]
fn messages_empty_text_blocks_yields_missing_field() {
    let r = complete(200, r#"{"content":[{"type":"tool_use","id":"t","name":"x","input":{}}]}"#)
        .unwrap();
    match chat_text(r) {
        Err(Error::MissingField(name)) => assert_eq!(name, "response content"),
        other => panic!("expected MissingField, got {:?}", other),
    }
}

#[test]
fn messages_non_success_maps_to_api_error() {
    match complete(401, "bad key") {
        Err(Error::Api { status, message }) => {
            assert_eq!(status, 401);
            assert_eq!(message, "bad key");
        }
        other => panic!("expected Api, got {:?}", other),
    }
}

#[test]
fn messages_stream_yields_text_delta_and_stop() {
    let body = [
        "event: content_block_delta\n",
        "data: {\"type\":\"content_block_delta\",\"index\":0,\"delta\":{\"type\":\"text_delta\",\"text\":\"Hi\"}}\n\n",
        "event: message_delta\n",
        "data: {\"type\":\"message_delta\",\"delta\":{\"stop_reason\":\"end_turn\"}}\n\n",
        "event: message_stop\n",
        "data: {\"type\":\"message_stop\"}\n\n",
    ]
    .concat();
    let chunks = stream_chunks(&body);
    assert_eq!(chunks.len(), 2);
    assert_eq!(chunks[0], ChatChunk::delta("Hi"));
    assert_eq!(chunks[1], ChatChunk::finish(FinishReason::Stop));
}

#[test]
fn message_stop_alone_gives_one_stop() {
    let body = "event: message_stop\ndata: {\"type\":\"message_stop\"}\n\n";
    assert_eq!(stream_chunks(body), vec![ChatChunk::finish(FinishReason::Stop)]);
}

#[test]
fn stream_error_event_and_bad_json_are_errors() {
    let mut flag = false;
    let bad = SseEvent { event: None, data: "{".to_string() };
    assert!(matches!(anthropic_stream_item_to_chunk(Ok(bad), &mut flag), Some(Err(Error::Parse(_)))));
    assert!(!flag);
}

#[test]
fn stop_reasons_map_to_the_library_kinds() {
    assert_eq!(map_anthropic_stop_reason("end_turn"), Some(FinishReason::Stop));
    assert_eq!(map_anthropic_stop_reason("stop_sequence"), Some(FinishReason::Stop));
    assert_eq!(map_anthropic_stop_reason("max_tokens"), Some(FinishReason::Length));
    assert_eq!(map_anthropic_stop_reason("tool_use"), Some(FinishReason::ToolCalls));
    assert_eq!(map_anthropic_stop_reason("refusal"), None);
}

#[test]
fn user_message_without_content_is_refused() {
    let mut m = ChatMessage::user("x");
    m.content = None;
    let req = ChatRequest { messages: vec![m], ..Default::default() };
    match build_anthropic_body("m", &req, false) {
        Err(Error::MissingField(name)) => assert_eq!(name, "user.content"),
        other => panic!("expected MissingField, got {:?}", other),
    }
    let req = ChatRequest { messages: vec![ChatMessage::tool("id", "{}")], ..Default::default() };
    assert!(build_anthropic_body("m", &req, false).is_ok());
}
