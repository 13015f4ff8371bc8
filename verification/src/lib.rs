//! A client for the AI HTTP APIs of several vendors behind one configuration:
//! which API serves a provider, the requests, the reading of the answers and
//! of their event streams.

use vstd::prelude::*;

pub mod audio;
pub mod base64;
pub mod chat;
pub mod config;
pub mod embed;
pub mod error;
pub mod http;
pub mod image;
pub mod json;
pub mod rerank;
pub mod sse;
pub mod text;

pub use audio::AudioFormat;
pub use chat::ChatBackend;
pub use config::{Provider, ProviderConfig};
pub use embed::EmbedBackend;
pub use error::{Error, Result};
pub use image::{ImageBackend, ImageOutput, ImageSize};
pub use rerank::RerankBackend;

use config::provider_name;
use error::ErrorV;

verus! {

/// The chat API of the configured provider; every provider has one.
pub fn create_chat_provider(config: &ProviderConfig) -> (r: Result<ChatBackend>)
    ensures
        r == Ok::<ChatBackend, Error>(chat::chat_backend_of(config.provider)),
{
    chat::create(config)
}

/// The embedding API of the configured provider and the vector length:
/// `MissingConfig("dimension")` without a length, `Unsupported` for a
/// provider without embeddings.
pub fn create_embed_provider(config: &ProviderConfig) -> (r: Result<(EmbedBackend, usize)>)
    ensures
        match config.dimension {
            None => (r matches Err(e) && e.deep_view() == ErrorV::MissingConfig("dimension"@)),
            Some(d) => match embed::embed_backend_of(config.provider) {
                Some(b) => r == Ok::<(EmbedBackend, usize), Error>((b, d)),
                None => (r matches Err(e) && e.deep_view() == (ErrorV::Unsupported {
                    provider: provider_name(config.provider),
                    capability: "embed"@,
                })),
            },
        },
{
    embed::create(config)
}

/// The rerank API of the configured provider (Aliyun and Zhipu);
/// `Unsupported` for the others.
pub fn create_rerank_provider(config: &ProviderConfig) -> (r: Result<RerankBackend>)
    ensures
        match rerank::rerank_backend_of(config.provider) {
            Some(b) => r == Ok::<RerankBackend, Error>(b),
            None => (r matches Err(e) && e.deep_view() == (ErrorV::Unsupported {
                provider: provider_name(config.provider),
                capability: "rerank"@,
            })),
        },
{
    rerank::create(config)
}

/// The image API of the configured provider (OpenAI and Aliyun);
/// `Unsupported` for the others.
pub fn create_image_provider(config: &ProviderConfig) -> (r: Result<ImageBackend>)
    ensures
        match image::image_backend_of(config.provider) {
            Some(b) => r == Ok::<ImageBackend, Error>(b),
            None => (r matches Err(e) && e.deep_view() == (ErrorV::Unsupported {
                provider: provider_name(config.provider),
                capability: "image"@,
            })),
        },
{
    image::create(config)
}

/// Why no transcription provider can be made: `Unsupported`, for every
/// provider.
pub fn create_transcription_provider(config: &ProviderConfig) -> (e: Error)
    ensures
        e.deep_view() == (ErrorV::Unsupported {
            provider: provider_name(config.provider),
            capability: "transcription"@,
        }),
{
    audio::create_transcription(config)
}

/// Why no speech synthesis provider can be made: `Unsupported`, for every
/// provider.
pub fn create_speech_provider(config: &ProviderConfig) -> (e: Error)
    ensures
        e.deep_view() == (ErrorV::Unsupported {
            provider: provider_name(config.provider),
            capability: "speech"@,
        }),
{
    audio::create_speech(config)
}

} // verus!
