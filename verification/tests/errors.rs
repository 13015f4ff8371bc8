use model_provider::error::Error;

#[test]
fn error_messages() {
    assert_eq!(Error::UnknownProvider("x".to_string()).message(), "unknown provider name: x");
    assert_eq!(
        Error::ProviderDisabled("aliyun".to_string()).message(),
        "provider `aliyun` is not enabled (Cargo feature or modality)"
    );
    assert_eq!(
        Error::Unsupported { provider: "openai".to_string(), capability: "rerank" }.message(),
        "capability `rerank` is not supported for provider `openai`"
    );
    assert_eq!(Error::MissingConfig("dimension").message(), "missing required config: dimension");
    assert_eq!(
        Error::Api { status: 401, message: "bad key".to_string() }.message(),
        "API error (401): bad key"
    );
    assert_eq!(Error::Parse("eof".to_string()).message(), "failed to parse API response: eof");
    assert_eq!(
        Error::MissingField("choices").message(),
        "API response missing expected field: choices"
    );
}
