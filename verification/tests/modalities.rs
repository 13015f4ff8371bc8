use model_provider::embed::{
    check_dimensions,
    embed_body, embeddings_url, first_embedding, gemini_batch_embed_body, gemini_embed_request,
    gemini_model_path_id, gemini_model_resource_name, EmbedBackend,
};
use model_provider::error::Error;
use model_provider::image::{image_body, image_response, image_url, size_text, ImageBackend, ImageOutput, ImageSize};
use model_provider::http::{body_text, decode_json_body};
use model_provider::json::Json;
use model_provider::rerank::{check_rerank_indices, aliyun_error_message, check_rerank_status, rerank_body, rerank_url, RerankBackend};
use model_provider::{
    create_chat_provider, create_embed_provider, create_image_provider, create_rerank_provider,
    create_speech_provider, create_transcription_provider, ChatBackend, Provider, ProviderConfig,
};

fn assert_json(j: &Json, expected: &str) {
    assert_eq!(body_text(j), body_text(&decode_json_body(expected).expect("valid JSON")));
}

fn cfg(p: Provider) -> ProviderConfig {
    ProviderConfig::new(p, "k", "https://example.invalid/v1", "m")
}

const ALL: [Provider; 6] = [
    Provider::OpenAI,
    Provider::Anthropic,
    Provider::Google,
    Provider::Aliyun,
    Provider::Ollama,
    Provider::Zhipu,
];

fn assert_unsupported(e: Error, provider: &str, cap: &str) {
    match e {
        Error::Unsupported { provider: p, capability } => {
            assert_eq!(p, provider);
            assert_eq!(capability, cap);
        }
        other => panic!("expected Unsupported, got {:?}", other),
    }
}

#[test]
fn every_provider_has_a_chat_backend() {
    assert_eq!(create_chat_provider(&cfg(Provider::OpenAI)).unwrap(), ChatBackend::OpenaiCompat);
    assert_eq!(create_chat_provider(&cfg(Provider::Aliyun)).unwrap(), ChatBackend::OpenaiCompat);
    assert_eq!(create_chat_provider(&cfg(Provider::Ollama)).unwrap(), ChatBackend::OpenaiCompat);
    assert_eq!(create_chat_provider(&cfg(Provider::Zhipu)).unwrap(), ChatBackend::OpenaiCompat);
    assert_eq!(
        create_chat_provider(&cfg(Provider::Anthropic)).unwrap(),
        ChatBackend::AnthropicMessages
    );
    assert_eq!(create_chat_provider(&cfg(Provider::Google)).unwrap(), ChatBackend::GoogleGemini);
}

#[test]
fn embed_requires_dimension_and_a_provider_with_embeddings() {
    match create_embed_provider(&cfg(Provider::OpenAI)) {
        Err(Error::MissingConfig(name)) => assert_eq!(name, "dimension"),
        other => panic!("expected MissingConfig, got {:?}", other),
    }
    let mut c = cfg(Provider::Anthropic);
    c.dimension = Some(8);
    assert_unsupported(create_embed_provider(&c).unwrap_err(), "anthropic", "embed");
    let expect = [
        (Provider::OpenAI, EmbedBackend::OpenaiCompat),
        (Provider::Aliyun, EmbedBackend::OpenaiCompat),
        (Provider::Ollama, EmbedBackend::OpenaiCompat),
        (Provider::Zhipu, EmbedBackend::Zhipu),
        (Provider::Google, EmbedBackend::GoogleGemini),
    ];
    for (p, b) in expect.iter() {
        let mut c = cfg(*p);
        c.dimension = Some(1536);
        assert_eq!(create_embed_provider(&c).unwrap(), (*b, 1536));
    }
}

#[test]
fn rerank_only_for_aliyun_and_zhipu() {
    assert_eq!(create_rerank_provider(&cfg(Provider::Aliyun)).unwrap(), RerankBackend::Aliyun);
    assert_eq!(create_rerank_provider(&cfg(Provider::Zhipu)).unwrap(), RerankBackend::Zhipu);
    for (p, n) in [(Provider::OpenAI, "openai"), (Provider::Ollama, "ollama"), (Provider::Google, "google"), (Provider::Anthropic, "anthropic")].iter() {
        assert_unsupported(create_rerank_provider(&cfg(*p)).unwrap_err(), n, "rerank");
    }
}

#[test]
fn image_only_for_openai_and_aliyun() {
    assert_eq!(create_image_provider(&cfg(Provider::OpenAI)).unwrap(), ImageBackend::OpenAI);
    assert_eq!(create_image_provider(&cfg(Provider::Aliyun)).unwrap(), ImageBackend::Aliyun);
    assert_unsupported(create_image_provider(&cfg(Provider::Ollama)).unwrap_err(), "ollama", "image");
    assert_unsupported(create_image_provider(&cfg(Provider::Zhipu)).unwrap_err(), "zhipu", "image");
}

#[test]
fn audio_is_unsupported_for_every_provider() {
    for p in ALL.iter() {
        assert_unsupported(create_transcription_provider(&cfg(*p)), p.as_str(), "transcription");
        assert_unsupported(create_speech_provider(&cfg(*p)), p.as_str(), "speech");
    }
}

#[test]
fn embed_body_normalizes_inputs_and_sends_dimensions() {
    assert_json(
        &embed_body("text-embedding-3-small", &["hello", "  wor \n ld "], Some(1536)),
        r#"{"model":"text-embedding-3-small","input":["hello","wor ld"],"dimensions":1536}"#,
    );
    assert_json(
        &embed_body("embedding-3", &["hello", "world"], None),
        r#"{"model":"embedding-3","input":["hello","world"]}"#,
    );
    assert_eq!(embeddings_url("https://api.openai.com/v1/"), "https://api.openai.com/v1/embeddings");
}

#[test]
fn first_embedding_of_an_empty_batch_is_missing() {
    assert_eq!(first_embedding(vec![vec![1u8], vec![2u8]]).unwrap(), vec![1u8]);
    match first_embedding(Vec::<Vec<u8>>::new()) {
        Err(Error::MissingField(name)) => assert_eq!(name, "embeddings[0]"),
        other => panic!("expected MissingField, got {:?}", other),
    }
}

#[test]
fn gemini_model_names_get_one_prefix() {
    assert_eq!(gemini_model_resource_name("text-embedding-004"), "models/text-embedding-004");
    assert_eq!(gemini_model_resource_name("models/text-embedding-004"), "models/text-embedding-004");
    assert_eq!(gemini_model_path_id("models/text-embedding-004"), "text-embedding-004");
    assert_eq!(gemini_model_path_id("text-embedding-004"), "text-embedding-004");
    assert_eq!(gemini_model_resource_name("model"), "models/model");
}

#[test]
fn gemini_embed_bodies() {
    assert_json(
        &gemini_embed_request("models/text-embedding-004", " hello ", 768),
        r#"{"model":"models/text-embedding-004","content":{"parts":[{"text":"hello"}]},
            "outputDimensionality":768}"#,
    );
    assert_json(
        &gemini_batch_embed_body("models/text-embedding-004", &["hello", "world"], 768),
        r#"{"model":"models/text-embedding-004","requests":[
            {"model":"models/text-embedding-004","content":{"parts":[{"text":"hello"}]},"outputDimensionality":768},
            {"model":"models/text-embedding-004","content":{"parts":[{"text":"world"}]},"outputDimensionality":768}]}"#,
    );
}

#[test]
fn rerank_bodies_and_urls() {
    assert_json(
        &rerank_body("gte-rerank", "什么是 Rust", &["Rust 是系统编程语言", "Python 是脚本语言"], Some(3)),
        r#"{"model":"gte-rerank","query":"什么是 Rust",
            "documents":["Rust 是系统编程语言","Python 是脚本语言"],"top_n":3}"#,
    );
    assert_json(&rerank_body("m", "q", &[], None), r#"{"model":"m","query":"q","documents":[],"top_n":null}"#);
    assert_eq!(rerank_url(RerankBackend::Aliyun, "https://dashscope.aliyuncs.com/api/v1/"), "https://dashscope.aliyuncs.com/api/v1/reranks");
    assert_eq!(rerank_url(RerankBackend::Zhipu, "https://open.bigmodel.cn/api/paas/v4"), "https://open.bigmodel.cn/api/paas/v4/rerank");
}

fn fields(code: Option<&str>, message: Option<&str>) -> Option<(Option<String>, Option<String>)> {
    Some((code.map(|s| s.to_string()), message.map(|s| s.to_string())))
}

#[test]
fn aliyun_error_bodies_become_code_and_message() {
    let body = r#"{"code":"InvalidParameter","message":"bad top_n","request_id":"r"}"#;
    assert_eq!(
        aliyun_error_message(body, fields(Some("InvalidParameter"), Some("bad top_n"))),
        "InvalidParameter: bad top_n"
    );
    assert_eq!(aliyun_error_message(r#"{"code":"X"}"#, fields(Some("X"), None)), r#"{"code":"X"}"#);
    assert_eq!(aliyun_error_message("gateway timeout", None), "gateway timeout");
    match check_rerank_status(RerankBackend::Aliyun, 400, "{..}".to_string(), fields(Some("C"), Some("M"))) {
        Err(Error::Api { status, message }) => {
            assert_eq!(status, 400);
            assert_eq!(message, "C: M");
        }
        other => panic!("expected Api, got {:?}", other),
    }
    match check_rerank_status(RerankBackend::Zhipu, 500, "raw".to_string(), fields(Some("C"), Some("M"))) {
        Err(Error::Api { message, .. }) => assert_eq!(message, "raw"),
        other => panic!("expected Api, got {:?}", other),
    }
    assert_eq!(check_rerank_status(RerankBackend::Aliyun, 200, "ok".to_string(), None).unwrap(), "ok");
}

#[test]
fn image_sizes_bodies_and_urls() {
    assert_eq!(size_text(ImageBackend::OpenAI, ImageSize::Landscape), "1792x1024");
    assert_eq!(size_text(ImageBackend::Aliyun, ImageSize::Portrait), "1024*1792");
    assert_eq!(size_text(ImageBackend::OpenAI, ImageSize::Square512), "512x512");
    assert_eq!(size_text(ImageBackend::Aliyun, ImageSize::Square1024), "1024*1024");
    assert_json(
        &image_body(ImageBackend::OpenAI, "dall-e-3", "一只可爱的猫", ImageSize::Square1024),
        r#"{"model":"dall-e-3","prompt":"一只可爱的猫","n":1,"size":"1024x1024"}"#,
    );
    assert_json(
        &image_body(ImageBackend::Aliyun, "wanx-v1", "一只可爱的猫", ImageSize::Square1024),
        r#"{"model":"wanx-v1","input":{"messages":[{"role":"user","content":[{"text":"一只可爱的猫"}]}]},
            "parameters":{"size":"1024*1024","prompt_extend":true,"watermark":false}}"#,
    );
    assert_eq!(image_url(ImageBackend::OpenAI, "https://api.openai.com/v1/"), "https://api.openai.com/v1/images/generations");
    assert_eq!(
        image_url(ImageBackend::Aliyun, "https://dashscope.aliyuncs.com/api/v1"),
        "https://dashscope.aliyuncs.com/api/v1/services/aigc/multimodal-generation/generation"
    );
}

#[test]
fn image_answers_are_read() {
    match image_response(ImageBackend::OpenAI, 200, r#"{"data":[{"url":"https://img/1.png"}]}"#.to_string()) {
        Ok(ImageOutput::Url(u)) => assert_eq!(u, "https://img/1.png"),
        other => panic!("expected Url, got {:?}", other),
    }
    match image_response(ImageBackend::OpenAI, 200, r#"{"data":[{"b64_json":"aGk="}]}"#.to_string()) {
        Ok(ImageOutput::Bytes(b)) => assert_eq!(b, b"hi".to_vec()),
        other => panic!("expected Bytes, got {:?}", other),
    }
    assert!(matches!(
        image_response(ImageBackend::OpenAI, 200, r#"{"data":[{"b64_json":"a"}]}"#.to_string()),
        Err(Error::Parse(_))
    ));
    assert!(matches!(
        image_response(ImageBackend::OpenAI, 200, r#"{"data":[]}"#.to_string()),
        Err(Error::MissingField("data[0]"))
    ));
    let aliyun = r#"{"output":{"choices":[{"message":{"content":[{"text":"x"},{"image":"https://img/2.png"}]}}]}}"#;
    match image_response(ImageBackend::Aliyun, 200, aliyun.to_string()) {
        Ok(ImageOutput::Url(u)) => assert_eq!(u, "https://img/2.png"),
        other => panic!("expected Url, got {:?}", other),
    }
    assert!(matches!(
        image_response(ImageBackend::Aliyun, 200, r#"{"output":{"choices":[{"message":{"content":[]}}]}}"#.to_string()),
        Err(Error::MissingField(_))
    ));
    assert!(matches!(
        image_response(ImageBackend::Aliyun, 429, "slow down".to_string()),
        Err(Error::Api { status: 429, .. })
    ));
}

#[test]
fn embedding_vectors_must_have_the_configured_dimension() {
    let ok = vec![vec![0.5f32, 1.0], vec![2.0, 3.0]];
    assert_eq!(check_dimensions(ok.clone(), 2).unwrap(), ok);
    assert_eq!(check_dimensions(Vec::<Vec<f32>>::new(), 3).unwrap(), Vec::<Vec<f32>>::new());
    match check_dimensions(vec![vec![1.0f32, 2.0], vec![1.0]], 2) {
        Err(Error::Parse(m)) => assert_eq!(m, "embedding length differs from the configured dimension"),
        other => panic!("expected Parse, got {:?}", other),
    }
}

#[test]
fn rerank_indices_must_point_at_documents() {
    let ok = vec![(1usize, 0.9f64), (0, 0.2)];
    assert_eq!(check_rerank_indices(ok.clone(), 2).unwrap(), ok);
    match check_rerank_indices(vec![(0usize, 0.9f64), (2, 0.1)], 2) {
        Err(Error::Parse(m)) => assert_eq!(m, "rerank result index is outside the documents"),
        other => panic!("expected Parse, got {:?}", other),
    }
}
