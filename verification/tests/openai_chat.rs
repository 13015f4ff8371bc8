use model_provider::chat::openai_compat::{
    build_openai_body, map_openai_finish_reason, openai_chat_url, openai_sse_item_to_chunk,
};
use model_provider::chat::types::{
    ChatChunk, ChatMessage, ChatRequest, FinishReason, ToolChoice, ToolDefinition,
};
use model_provider::chat::{chat_text, complete_response, ChatBackend};
use model_provider::error::Error;
use model_provider::http::{body_text, decode_json_body};
use model_provider::json::Json;
use model_provider::sse::{SseEvent, SseParser};

fn canonical(text: &str) -> String {
    body_text(&decode_json_body(text).expect("valid JSON"))
}

fn assert_json(j: &Json, expected: &str) {
    assert_eq!(body_text(j), canonical(expected));
}

fn events(body: &str) -> Vec<SseEvent> {
    let mut p = SseParser::new();
    p.push_bytes(body.as_bytes());
    p.finalize();
    let mut out = Vec::new();
    while let Some(ev) = p.pop_event() {
        out.push(ev);
    }
    out
}

fn stream_chunks(body: &str) -> Vec<ChatChunk> {
    let mut out = Vec::new();
    for ev in events(body) {
        if let Some(item) = openai_sse_item_to_chunk(Ok(ev)) {
            out.push(item.unwrap());
        }
    }
    out
}

fn json(text: &str) -> Json {
    decode_json_body(text).unwrap()
}

#[test]
fn chat_success_returns_assistant_content() {
    let body = build_openai_body("gpt-4o-mini", &ChatRequest::single_user("hello"), false);
    assert_json(
        &body,
        r#"{"model":"gpt-4o-mini","messages":[{"role":"user","content":"hello"}],"temperature":0.2}"#,
    );
    let resp = complete_response(
        ChatBackend::OpenaiCompat,
        200,
        r#"{"choices":[{"message":{"role":"assistant","content":"hi there"}}]}"#.to_string(),
    )
    .unwrap();
    assert_eq!(chat_text(resp).unwrap(), "hi there");
}

#[test]
fn complete_multi_turn_and_system_in_body() {
    let req = ChatRequest {
        messages: vec![
            ChatMessage::system("You are helpful."),
            ChatMessage::user("hi"),
            ChatMessage::assistant("hello"),
            ChatMessage::user("bye"),
        ],
        ..Default::default()
    };
    assert_json(
        &build_openai_body("gpt-4o-mini", &req, false),
        r#"{"model":"gpt-4o-mini","messages":[
            {"role":"system","content":"You are helpful."},
            {"role":"user","content":"hi"},
            {"role":"assistant","content":"hello"},
            {"role":"user","content":"bye"}],"temperature":0.2}"#,
    );
    let r = complete_response(
        ChatBackend::OpenaiCompat,
        200,
        r#"{"choices":[{"message":{"role":"assistant","content":"see you"},"finish_reason":"stop"}]}"#
            .to_string(),
    )
    .unwrap();
    assert_eq!(r.content.as_deref(), Some("see you"));
    assert_eq!(r.finish_reason, Some(FinishReason::Stop));
}

#[test]
fn complete_serializes_tool_choice_and_sampling() {
    let req = ChatRequest {
        messages: vec![ChatMessage::user("hi")],
        tools: Some(vec![ToolDefinition::function(
            "get_weather",
            json(r#"{"type":"object","properties":{}}"#),
        )]),
        tool_choice: Some(ToolChoice::Tool("get_weather".to_string())),
        temperature: Some("0.7".to_string()),
        max_tokens: Some(512),
        top_p: Some("0.9".to_string()),
    };
    assert_json(
        &build_openai_body("gpt-4o-mini", &req, false),
        r#"{"model":"gpt-4o-mini","messages":[{"role":"user","content":"hi"}],
            "tools":[{"type":"function","function":{"name":"get_weather",
                "parameters":{"type":"object","properties":{}}}}],
            "tool_choice":{"type":"function","function":{"name":"get_weather"}},
            "temperature":0.7,"max_tokens":512,"top_p":0.9}"#,
    );
}

#[test]
fn tool_choice_is_dropped_without_tools_and_written_as_keywords() {
    let mut req = ChatRequest::single_user("hi");
    req.tool_choice = Some(ToolChoice::Required);
    assert_json(
        &build_openai_body("m", &req, false),
        r#"{"model":"m","messages":[{"role":"user","content":"hi"}],"temperature":0.2}"#,
    );
    req.tools = Some(vec![ToolDefinition::function_with_description("f", "does f", json("{}"))]);
    assert_json(
        &build_openai_body("m", &req, true),
        r#"{"model":"m","messages":[{"role":"user","content":"hi"}],
            "tools":[{"type":"function","function":{"name":"f","description":"does f","parameters":{}}}],
            "tool_choice":"required","temperature":0.2,"stream":true}"#,
    );
    req.tool_choice = Some(ToolChoice::Disabled);
    assert_json(
        &build_openai_body("m", &req, false),
        r#"{"model":"m","messages":[{"role":"user","content":"hi"}],
            "tools":[{"type":"function","function":{"name":"f","description":"does f","parameters":{}}}],
            "tool_choice":"none","temperature":0.2}"#,
    );
}

#[test]
fn complete_returns_tool_calls() {
    let r = complete_response(
        ChatBackend::OpenaiCompat,
        200,
        r#"{"choices":[{"message":{"role":"assistant","content":null,"tool_calls":[
            {"id":"call_1","type":"function","function":{"name":"get_weather","arguments":"{\"city\":\"NYC\"}"}}]},
            "finish_reason":"tool_calls"}]}"#
            .to_string(),
    )
    .unwrap();
    assert!(r.content.is_none());
    let tc = r.tool_calls.as_ref().unwrap();
    assert_eq!(tc.len(), 1);
    assert_eq!(tc[0].id, "call_1");
    assert_eq!(tc[0].function.name, "get_weather");
    assert_eq!(tc[0].function.arguments, "{\"city\":\"NYC\"}");
    assert_eq!(r.finish_reason, Some(FinishReason::ToolCalls));
}

#[test]
fn complete_skips_malformed_tool_calls_keeps_valid() {
    let r = complete_response(
        ChatBackend::OpenaiCompat,
        200,
        r#"{"choices":[{"message":{"role":"assistant","content":null,"tool_calls":[
            {"type":"function","function":{"name":"bad","arguments":"{}"}},
            {"id":"call_ok","type":"function","function":{"name":"good","arguments":"{}"}}]},
            "finish_reason":"tool_calls"}]}"#
            .to_string(),
    )
    .unwrap();
    let tc = r.tool_calls.as_ref().unwrap();
    assert_eq!(tc.len(), 1);
    assert_eq!(tc[0].id, "call_ok");
    assert_eq!(tc[0].function.name, "good");
}

#[test]
fn complete_stream_yields_tool_call_deltas() {
    let body = [
        "data: {\"choices\":[{\"delta\":{\"tool_calls\":[{\"index\":0,\"id\":\"call_x\",\"function\":{\"name\":\"fn\"}}]},\"finish_reason\":null}]}\n\n",
        "data: {\"choices\":[{\"delta\":{\"tool_calls\":[{\"index\":0,\"function\":{\"arguments\":\"{\\\"a\\\":1}\"}}]},\"finish_reason\":null}]}\n\n",
        "data: {\"choices\":[{\"delta\":{},\"finish_reason\":\"tool_calls\"}]}\n\n",
        "data: [DONE]\n\n",
    ]
    .concat();
    let chunks = stream_chunks(&body);
    assert_eq!(chunks.len(), 3);
    let d0 = &chunks[0].tool_call_deltas.as_ref().unwrap()[0];
    assert_eq!(d0.index, 0);
    assert_eq!(d0.id.as_deref(), Some("call_x"));
    assert_eq!(d0.function_name.as_deref(), Some("fn"));
    let d1 = &chunks[1].tool_call_deltas.as_ref().unwrap()[0];
    assert_eq!(d1.function_arguments.as_deref(), Some("{\"a\":1}"));
    assert_eq!(chunks[2].finish_reason, Some(FinishReason::ToolCalls));
}

#[test]
fn chat_base_url_trailing_slash_normalized() {
    assert_eq!(openai_chat_url("http://127.0.0.1:9/"), "http://127.0.0.1:9/chat/completions");
    assert_eq!(openai_chat_url("http://127.0.0.1:9"), "http://127.0.0.1:9/chat/completions");
}

#[test]
fn chat_empty_choices_yields_missing_field() {
    match complete_response(ChatBackend::OpenaiCompat, 200, r#"{"choices":[]}"#.to_string()) {
        Err(Error::MissingField(name)) => assert_eq!(name, "choices[0]"),
        other => panic!("expected MissingField, got {:?}", other),
    }
    match complete_response(ChatBackend::OpenaiCompat, 200, r#"{"id":"x"}"#.to_string()) {
        Err(Error::MissingField(name)) => assert_eq!(name, "choices"),
        other => panic!("expected MissingField, got {:?}", other),
    }
    match complete_response(ChatBackend::OpenaiCompat, 200, r#"{"choices":[{}]}"#.to_string()) {
        Err(Error::MissingField(name)) => assert_eq!(name, "choices[0].message"),
        other => panic!("expected MissingField, got {:?}", other),
    }
}

#[test]
fn chat_non_success_maps_to_api_error() {
    match complete_response(ChatBackend::OpenaiCompat, 401, "invalid key".to_string()) {
        Err(Error::Api { status, message }) => {
            assert_eq!(status, 401);
            assert_eq!(message, "invalid key");
        }
        other => panic!("expected Api, got {:?}", other),
    }
}

#[test]
fn chat_success_body_not_json_yields_parse() {
    match complete_response(ChatBackend::OpenaiCompat, 200, "not json".to_string()) {
        Err(Error::Parse(_)) => {}
        other => panic!("expected Parse, got {:?}", other),
    }
}

#[test]
fn chat_text_requires_non_empty_content() {
    let r = complete_response(
        ChatBackend::OpenaiCompat,
        200,
        r#"{"choices":[{"message":{"content":""}}]}"#.to_string(),
    )
    .unwrap();
    match chat_text(r) {
        Err(Error::MissingField(name)) => assert_eq!(name, "response content"),
        other => panic!("expected MissingField, got {:?}", other),
    }
}

#[test]
fn chat_stream_yields_deltas_and_finish() {
    let body = [
        "data: {\"choices\":[{\"delta\":{\"content\":\"he\"},\"finish_reason\":null}]}\n\n",
        "data: {\"choices\":[{\"delta\":{},\"finish_reason\":\"stop\"}]}\n\n",
        "data: [DONE]\n\n",
    ]
    .concat();
    let chunks = stream_chunks(&body);
    assert_eq!(chunks.len(), 2);
    assert_eq!(chunks[0].delta.as_deref(), Some("he"));
    assert!(chunks[0].finish_reason.is_none());
    assert_eq!(chunks[1].delta, None);
    assert_eq!(chunks[1].finish_reason, Some(FinishReason::Stop));
}

#[test]
fn stream_event_that_is_not_json_yields_parse_and_errors_pass_through() {
    let bad = SseEvent { event: None, data: "{oops".to_string() };
    assert!(matches!(openai_sse_item_to_chunk(Ok(bad)), Some(Err(Error::Parse(_)))));
    let passed = openai_sse_item_to_chunk(Err(Error::MissingField("x")));
    assert!(matches!(passed, Some(Err(Error::MissingField("x")))));
}

#[test]
fn finish_reasons_map_to_the_library_kinds() {
    assert_eq!(map_openai_finish_reason("stop"), Some(FinishReason::Stop));
    assert_eq!(map_openai_finish_reason("end_turn"), Some(FinishReason::Stop));
    assert_eq!(map_openai_finish_reason("length"), Some(FinishReason::Length));
    assert_eq!(map_openai_finish_reason("content_filter"), Some(FinishReason::ContentFilter));
    assert_eq!(map_openai_finish_reason("tool_calls"), Some(FinishReason::ToolCalls));
    assert_eq!(map_openai_finish_reason("other"), None);
}

#[test]
fn stream_finish_end_turn_is_stop() {
    let chunks = stream_chunks("data: {\"choices\":[{\"delta\":{},\"finish_reason\":\"end_turn\"}]}\n\n");
    assert_eq!(chunks.len(), 1);
    assert_eq!(chunks[0].finish_reason, Some(FinishReason::Stop));
}
