use model_provider::chat::google_gemini::{
    build_request_json, gemini_url, google_sse_item_to_chunk, map_gemini_finish_reason,
};
use model_provider::chat::types::{
    ChatChunk, ChatMessage, ChatRequest, FinishReason, FunctionCallResult, ToolCall, ToolChoice,
    ToolDefinition,
};
use model_provider::chat::{chat_text, complete_response, ChatBackend};
use model_provider::error::Error;
use model_provider::http::{body_text, decode_json_body};
use model_provider::json::{as_str, field, field_opt, Json};
use model_provider::sse::{SseEvent, SseParser};

fn assert_json(j: &Json, expected: &str) {
    assert_eq!(body_text(j), body_text(&decode_json_body(expected).expect("valid JSON")));
}

fn json(text: &str) -> Json {
    decode_json_body(text).unwrap()
}

fn stream_chunks(body: &str) -> Vec<Result<ChatChunk, Error>> {
    let mut p = SseParser::new();
    p.push_bytes(body.as_bytes());
    p.finalize();
    let mut out = Vec::new();
    while let Some(ev) = p.pop_event() {
        if let Some(item) = google_sse_item_to_chunk(Ok(ev)) {
            out.push(item);
        }
    }
    out
}

fn complete(status: u16, body: &str) -> Result<model_provider::chat::types::ChatResponse, Error> {
    complete_response(ChatBackend::GoogleGemini, status, body.to_string())
}

#[test]
fn build_request_json_includes_tool_config_for_tool_choice() {
    let req = ChatRequest {
        messages: vec![ChatMessage::user("hi")],
        tools: Some(vec![ToolDefinition::function("get_weather", json("{}"))]),
        tool_choice: Some(ToolChoice::Tool("get_weather".to_string())),
        temperature: Some("0.7".to_string()),
        max_tokens: Some(512),
        top_p: None,
    };
    let v = build_request_json(&req).unwrap();
    let gc = field(&v, "generationConfig");
    let t: f64 = match field_opt(gc, "temperature") {
        Some(Json::Number(n)) => n.parse().unwrap(),
        other => panic!("expected a number, got {:?}", other),
    };
    assert!((t - 0.7f64).abs() < 1e-5);
    assert_eq!(field_opt(gc, "maxOutputTokens"), Some(&Json::Number("512".to_string())));
    assert!(field(&v, "toolConfig").is_some());
    let fcc = field_opt(field(&v, "toolConfig"), "functionCallingConfig");
    assert_eq!(as_str(field_opt(fcc, "mode")).map(|s| s.as_str()), Some("ANY"));
    match field_opt(fcc, "allowedFunctionNames") {
        Some(Json::Array(names)) => assert_eq!(names[0], Json::Str("get_weather".to_string())),
        other => panic!("expected an array, got {:?}", other),
    }
}

#[test]
fn generate_content_success_returns_text() {
    assert_json(
        &build_request_json(&ChatRequest::single_user("hello")).unwrap(),
        r#"{"contents":[{"role":"user","parts":[{"text":"hello"}]}],
            "generationConfig":{"temperature":0.2}}"#,
    );
    let r = complete(
        200,
        r#"{"candidates":[{"content":{"parts":[{"text":"hi there"}],"role":"model"}}]}"#,
    )
    .unwrap();
    assert_eq!(chat_text(r).unwrap(), "hi there");
}

#[test]
fn complete_multi_turn_and_system_instruction() {
    let req = ChatRequest {
        messages: vec![
            ChatMessage::system("Be brief."),
            ChatMessage::user("hi"),
            ChatMessage::assistant("hey"),
            ChatMessage::user("bye"),
        ],
        ..Default::default()
    };
    assert_json(
        &build_request_json(&req).unwrap(),
        r#"{"contents":[{"role":"user","parts":[{"text":"hi"}]},
                        {"role":"model","parts":[{"text":"hey"}]},
                        {"role":"user","parts":[{"text":"bye"}]}],
            "generationConfig":{"temperature":0.2},
            "systemInstruction":{"parts":[{"text":"Be brief."}]}}"#,
    );
    let r = complete(200, r#"{"candidates":[{"content":{"parts":[{"text":"ok"}]}}]}"#).unwrap();
    assert_eq!(r.content.as_deref(), Some("ok"));
}

#[test]
fn complete_errors_when_tool_message_missing_function_name() {
    let req = ChatRequest {
        messages: vec![ChatMessage::user("hi"), ChatMessage::tool("call_1", "{}")],
        ..Default::default()
    };
    match build_request_json(&req) {
        Err(Error::MissingField(name)) => assert_eq!(name, "tool.name"),
        other => panic!("expected MissingField(tool.name), got {:?}", other),
    }
}

#[test]
fn tool_results_and_calls_become_function_parts() {
    let mut assistant = ChatMessage::assistant("");
    assistant.content = None;
    assistant.tool_calls = Some(vec![ToolCall {
        id: "c1".to_string(),
        function: FunctionCallResult {
            name: "get_weather".to_string(),
            arguments: "{\"city\":\"NYC\"}".to_string(),
        },
    }]);
    let req = ChatRequest {
        messages: vec![
            ChatMessage::user("w"),
            assistant,
            ChatMessage::tool_with_name("c1", "get_weather", "{\"t\":20}"),
            ChatMessage::tool_with_name("c2", "echo", "plain text"),
        ],
        ..Default::default()
    };
    assert_json(
        &build_request_json(&req).unwrap(),
        r#"{"contents":[
              {"role":"user","parts":[{"text":"w"}]},
              {"role":"model","parts":[{"functionCall":{"name":"get_weather","args":{"city":"NYC"}}}]},
              {"role":"user","parts":[{"functionResponse":{"name":"get_weather","response":{"t":20}}}]},
              {"role":"user","parts":[{"functionResponse":{"name":"echo","response":{"result":"plain text"}}}]}],
            "generationConfig":{"temperature":0.2}}"#,
    );
}

#[test]
fn complete_with_tools_tool_choice_and_sampling_succeeds() {
    let req = ChatRequest {
        messages: vec![ChatMessage::user("hi")],
        tools: Some(vec![ToolDefinition::function(
            "get_weather",
            json(r#"{"type":"object","properties":{}}"#),
        )]),
        tool_choice: Some(ToolChoice::Tool("get_weather".to_string())),
        temperature: Some("0.7".to_string()),
        max_tokens: Some(512),
        top_p: Some("0.85".to_string()),
    };
    assert_json(
        &build_request_json(&req).unwrap(),
        r#"{"contents":[{"role":"user","parts":[{"text":"hi"}]}],
            "generationConfig":{"temperature":0.7,"maxOutputTokens":512,"topP":0.85},
            "tools":[{"functionDeclarations":[{"name":"get_weather","description":null,
                "parameters":{"type":"object","properties":{}}}]}],
            "toolConfig":{"functionCallingConfig":{"mode":"ANY","allowedFunctionNames":["get_weather"]}}}"#,
    );
    let r = complete(200, r#"{"candidates":[{"content":{"parts":[{"text":"ok"}]}}]}"#).unwrap();
    assert_eq!(r.content.as_deref(), Some("ok"));
}

#[test]
fn complete_parses_function_call() {
    let r = complete(
        200,
        r#"{"candidates":[{"content":{"parts":[{"functionCall":{"name":"get_weather","args":{"city":"NYC"}}}]},
            "finishReason":"STOP"}]}"#,
    )
    .unwrap();
    let tc = r.tool_calls.as_ref().unwrap();
    assert_eq!(tc[0].id, "gemini_fc_0");
    assert_eq!(tc[0].function.name, "get_weather");
    assert!(tc[0].function.arguments.contains("NYC"));
    assert_eq!(r.finish_reason, Some(FinishReason::ToolCalls));
}

#[test]
fn generate_content_base_url_trailing_slash_normalized() {
    assert_eq!(
        gemini_url("http://h:1/v1beta/", "gemini-2.0-flash", "generateContent"),
        "http://h:1/v1beta/models/gemini-2.0-flash:generateContent"
    );
    assert_eq!(
        gemini_url("http://h:1/v1beta", "gemini-2.0-flash", "streamGenerateContent"),
        "http://h:1/v1beta/models/gemini-2.0-flash:streamGenerateContent"
    );
}

#[test]
fn generate_content_empty_text_parts_yields_missing_field() {
    let r = complete(200, r#"{"candidates":[{"content":{"parts":[{"text":""}]}}]}"#).unwrap();
    match chat_text(r) {
        Err(Error::MissingField(name)) => assert_eq!(name, "response content"),
        other => panic!("expected MissingField, got {:?}", other),
    }
}

#[test]
fn generate_content_empty_candidates_includes_prompt_feedback() {
    match complete(
        200,
        r#"{"candidates":[],"promptFeedback":{"blockReason":"BLOCK_REASON_UNSPECIFIED"}}"#,
    ) {
        Err(Error::Parse(msg)) => {
            assert!(msg.contains("no candidates") && msg.contains("blockReason"), "unexpected message: {msg}");
        }
        other => panic!("expected Parse, got {:?}", other),
    }
    match complete(200, r#"{"candidates":[]}"#) {
        Err(Error::Parse(msg)) => assert!(msg.contains("empty candidates, no promptFeedback")),
        other => panic!("expected Parse, got {:?}", other),
    }
    match complete(200, r#"{}"#) {
        Err(Error::MissingField(name)) => assert_eq!(name, "candidates"),
        other => panic!("expected MissingField, got {:?}", other),
    }
}

#[test]
fn generate_content_non_success_maps_to_api_error() {
    match complete(403, "forbidden") {
        Err(Error::Api { status, message }) => {
            assert_eq!(status, 403);
            assert_eq!(message, "forbidden");
        }
        other => panic!("expected Api, got {:?}", other),
    }
}

#[test]
fn stream_generate_content_yields_text_chunk() {
    let body = "data: {\"candidates\":[{\"content\":{\"parts\":[{\"text\":\"Hi\"}]}}]}\n\n";
    let chunks = stream_chunks(body);
    assert_eq!(chunks.len(), 1);
    assert_eq!(chunks[0].as_ref().unwrap(), &ChatChunk::delta("Hi"));
}

#[test]
fn stream_maps_finish_reason_tool_calls_when_function_call_with_stop() {
    let body = "data: {\"candidates\":[{\"content\":{\"parts\":[{\"functionCall\":{\"name\":\"fn\",\"args\":{\"a\":1}}}]},\"finishReason\":\"STOP\"}]}\n\n";
    let chunks = stream_chunks(body);
    let chunk = chunks[0].as_ref().unwrap();
    assert!(chunk.tool_call_deltas.is_some());
    assert_eq!(chunk.finish_reason, Some(FinishReason::ToolCalls));
}

#[test]
fn stream_yields_function_call_delta() {
    let body = "data: {\"candidates\":[{\"content\":{\"parts\":[{\"functionCall\":{\"name\":\"fn\",\"args\":{\"a\":1}}}]}}]}\n\n";
    let chunks = stream_chunks(body);
    let chunk = chunks[0].as_ref().unwrap();
    let d = &chunk.tool_call_deltas.as_ref().unwrap()[0];
    assert_eq!(d.index, 0);
    assert_eq!(d.id, None);
    assert_eq!(d.function_name.as_deref(), Some("fn"));
    assert!(d.function_arguments.as_ref().unwrap().contains('1'));
    assert_eq!(chunk.finish_reason, None);
}

#[test]
fn stream_skips_empty_events_and_reports_blocked_prompt() {
    let blank = SseEvent { event: None, data: "   ".to_string() };
    assert!(google_sse_item_to_chunk(Ok(blank)).is_none());
    let no_candidates = SseEvent { event: None, data: "{\"candidates\":[]}".to_string() };
    assert!(google_sse_item_to_chunk(Ok(no_candidates)).is_none());
    let blocked = SseEvent {
        event: None,
        data: "{\"candidates\":[],\"promptFeedback\":{\"blockReason\":\"SAFETY\"}}".to_string(),
    };
    assert!(matches!(google_sse_item_to_chunk(Ok(blocked)), Some(Err(Error::Parse(_)))));
}

#[test]
fn gemini_finish_reasons_map_to_the_library_kinds() {
    assert_eq!(map_gemini_finish_reason("STOP"), Some(FinishReason::Stop));
    assert_eq!(map_gemini_finish_reason("FINISH_REASON_STOP"), Some(FinishReason::Stop));
    assert_eq!(map_gemini_finish_reason("MAX_TOKENS"), Some(FinishReason::Length));
    assert_eq!(map_gemini_finish_reason("SAFETY"), Some(FinishReason::ContentFilter));
    assert_eq!(map_gemini_finish_reason("RECITATION"), Some(FinishReason::ContentFilter));
    assert_eq!(map_gemini_finish_reason("OTHER"), Some(FinishReason::ContentFilter));
    assert_eq!(map_gemini_finish_reason("UNKNOWN"), None);
}
