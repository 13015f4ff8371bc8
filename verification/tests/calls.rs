use model_provider::chat::chat_call;
use model_provider::chat::types::{ChatMessage, ChatRequest};
use model_provider::embed::{batch_call, single_call, EmbedBackend};
use model_provider::error::Error;
use model_provider::http::{body_text, decode_json_body, Auth, Call};
use model_provider::image::{image_call, ImageBackend, ImageSize};
use model_provider::rerank::{rerank_call, RerankBackend};
use model_provider::{ChatBackend, Provider, ProviderConfig};

fn body_is(call: &Call, expected: &str) {
    assert_eq!(body_text(&call.body), body_text(&decode_json_body(expected).unwrap()));
}

fn pairs_of(auth: &Auth) -> Vec<(String, String)> {
    match auth {
        Auth::Headers(h) | Auth::Query(h) => h.clone(),
        Auth::Bearer(t) => vec![("bearer".to_string(), t.clone())],
    }
}

fn cfg(p: Provider, base: &str, model: &str) -> ProviderConfig {
    ProviderConfig::new(p, "secret", base, model)
}

#[test]
fn chat_calls_per_backend() {
    let req = ChatRequest::single_user("hello");
    let c = chat_call(ChatBackend::OpenaiCompat, &cfg(Provider::OpenAI, "https://h/v1/", "gpt"), &req, true)
        .unwrap();
    assert_eq!(c.url, "https://h/v1/chat/completions");
    assert!(matches!(&c.auth, Auth::Bearer(t) if t == "secret"));
    body_is(&c, r#"{"model":"gpt","messages":[{"role":"user","content":"hello"}],"temperature":0.2,"stream":true}"#);

    let c = chat_call(
        ChatBackend::AnthropicMessages,
        &cfg(Provider::Anthropic, "https://a/v1", "sonnet"),
        &req,
        false,
    )
    .unwrap();
    assert_eq!(c.url, "https://a/v1/messages");
    assert!(matches!(&c.auth, Auth::Headers(_)));
    assert_eq!(
        pairs_of(&c.auth),
        vec![
            ("x-api-key".to_string(), "secret".to_string()),
            ("anthropic-version".to_string(), "2023-06-01".to_string())
        ]
    );

    let g = cfg(Provider::Google, "https://g/v1beta/", "gemini-2.0-flash");
    let c = chat_call(ChatBackend::GoogleGemini, &g, &req, false).unwrap();
    assert_eq!(c.url, "https://g/v1beta/models/gemini-2.0-flash:generateContent");
    assert!(matches!(&c.auth, Auth::Query(_)));
    assert_eq!(pairs_of(&c.auth), vec![("key".to_string(), "secret".to_string())]);
    let c = chat_call(ChatBackend::GoogleGemini, &g, &req, true).unwrap();
    assert_eq!(c.url, "https://g/v1beta/models/gemini-2.0-flash:streamGenerateContent");
}

#[test]
fn chat_call_reports_a_request_the_backend_cannot_express() {
    let req = ChatRequest { messages: vec![ChatMessage::tool("id", "{}")], ..Default::default() };
    let g = cfg(Provider::Google, "https://g", "m");
    assert!(matches!(chat_call(ChatBackend::GoogleGemini, &g, &req, false), Err(Error::MissingField("tool.name"))));
}

#[test]
fn embed_calls_per_backend() {
    let o = cfg(Provider::OpenAI, "https://o/v1", "text-embedding-3-small");
    let c = single_call(EmbedBackend::OpenaiCompat, &o, " hi  there ", 1536);
    assert_eq!(c.url, "https://o/v1/embeddings");
    body_is(&c, r#"{"model":"text-embedding-3-small","input":["hi there"],"dimensions":1536}"#);

    let z = cfg(Provider::Zhipu, "https://z/v4/", "embedding-3");
    let c = batch_call(EmbedBackend::Zhipu, &z, &["a", "b"], 2048);
    assert_eq!(c.url, "https://z/v4/embeddings");
    body_is(&c, r#"{"model":"embedding-3","input":["a","b"]}"#);

    let g = cfg(Provider::Google, "https://g/v1beta", "text-embedding-004");
    let c = single_call(EmbedBackend::GoogleGemini, &g, "hello", 768);
    assert_eq!(c.url, "https://g/v1beta/models/text-embedding-004:embedContent");
    assert_eq!(pairs_of(&c.auth), vec![("key".to_string(), "secret".to_string())]);
    body_is(
        &c,
        r#"{"model":"models/text-embedding-004","content":{"parts":[{"text":"hello"}]},"outputDimensionality":768}"#,
    );
    let g2 = cfg(Provider::Google, "https://g/v1beta", "models/text-embedding-004");
    let c = batch_call(EmbedBackend::GoogleGemini, &g2, &["hello"], 768);
    assert_eq!(c.url, "https://g/v1beta/models/text-embedding-004:batchEmbedContents");
    body_is(
        &c,
        r#"{"model":"models/text-embedding-004","requests":[{"model":"models/text-embedding-004",
            "content":{"parts":[{"text":"hello"}]},"outputDimensionality":768}]}"#,
    );
}

#[test]
fn rerank_and_image_calls() {
    let a = cfg(Provider::Aliyun, "https://dashscope.aliyuncs.com/api/v1", "gte-rerank");
    let c = rerank_call(RerankBackend::Aliyun, &a, "q", &["d1"], None);
    assert_eq!(c.url, "https://dashscope.aliyuncs.com/api/v1/reranks");
    assert!(matches!(&c.auth, Auth::Bearer(t) if t == "secret"));
    body_is(&c, r#"{"model":"gte-rerank","query":"q","documents":["d1"],"top_n":null}"#);

    let o = cfg(Provider::OpenAI, "https://api.openai.com/v1", "dall-e-3");
    let c = image_call(ImageBackend::OpenAI, &o, "cat", ImageSize::Square512);
    assert_eq!(c.url, "https://api.openai.com/v1/images/generations");
    body_is(&c, r#"{"model":"dall-e-3","prompt":"cat","n":1,"size":"512x512"}"#);
}
