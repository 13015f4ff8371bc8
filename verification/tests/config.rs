use std::str::FromStr;
use std::time::Duration;

use model_provider::error::Error;
use model_provider::{Provider, ProviderConfig};

#[test]
fn provider_from_str_case_insensitive() {
    assert_eq!(Provider::from_str("openai").unwrap(), Provider::OpenAI);
    assert_eq!(Provider::from_str("Aliyun").unwrap(), Provider::Aliyun);
}

#[test]
fn provider_from_str_unknown() {
    assert!(Provider::from_str("unknown").is_err());
}

#[test]
fn provider_parse_trims_and_ignores_ascii_case() {
    assert_eq!(Provider::parse("  ANTHROPIC \n").unwrap(), Provider::Anthropic);
    assert_eq!(Provider::parse("\tGoogle").unwrap(), Provider::Google);
    assert_eq!(Provider::parse("OLLAMA").unwrap(), Provider::Ollama);
    assert_eq!(Provider::parse("zhiPU").unwrap(), Provider::Zhipu);
}

#[test]
fn provider_parse_unknown_reports_trimmed_lowercase_name() {
    match Provider::parse("  FooBar ") {
        Err(Error::UnknownProvider(name)) => assert_eq!(name, "foobar"),
        other => panic!("expected UnknownProvider, got {:?}", other),
    }
}

#[test]
fn provider_names_read_back() {
    let all = [
        Provider::OpenAI,
        Provider::Anthropic,
        Provider::Google,
        Provider::Aliyun,
        Provider::Ollama,
        Provider::Zhipu,
    ];
    let names = ["openai", "anthropic", "google", "aliyun", "ollama", "zhipu"];
    for (p, n) in all.iter().zip(names.iter()) {
        assert_eq!(p.as_str(), *n);
        assert_eq!(p.name(), *n);
        assert_eq!(Provider::from_str(n).unwrap(), *p);
    }
}

#[test]
fn provider_config_new_sets_fields() {
    let cfg = ProviderConfig::new(Provider::Zhipu, "key", "https://example.invalid/v4", "embedding-3");
    assert_eq!(cfg.provider, Provider::Zhipu);
    assert_eq!(cfg.api_key, "key");
    assert_eq!(cfg.base_url, "https://example.invalid/v4");
    assert_eq!(cfg.model, "embedding-3");
    assert_eq!(cfg.dimension, None);
    assert_eq!(cfg.timeout, None);
}

#[test]
fn timeout_or_prefers_configured_value() {
    let mut cfg = ProviderConfig::new(Provider::OpenAI, "k", "u", "m");
    assert_eq!(cfg.timeout_or(Duration::from_secs(60)), Duration::from_secs(60));
    cfg.timeout = Some(Duration::from_secs(5));
    assert_eq!(cfg.timeout_or(Duration::from_secs(60)), Duration::from_secs(5));
}
