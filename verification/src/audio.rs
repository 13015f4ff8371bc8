//! Speech recognition and synthesis: no provider has them yet.

use vstd::prelude::*;

use crate::config::{provider_name, ProviderConfig};
use crate::error::{Error, ErrorV};

verus! {

/// The container format of audio handed to a transcription.
#[derive(Debug, Clone, Copy, PartialEq, Eq, Structural)]
pub enum AudioFormat {
    Wav,
    Mp3,
    Ogg,
    Flac,
}

/// The answer to a request for a transcription provider. None is connected
/// to any remote, so it is always `Unsupported` with the capability
/// `transcription`.
pub fn create_transcription(config: &ProviderConfig) -> (e: Error)
    ensures
        e.deep_view() == (ErrorV::Unsupported {
            provider: provider_name(config.provider),
            capability: "transcription"@,
        }),
{
    Error::Unsupported { provider: config.provider.name(), capability: "transcription" }
}

/// The answer to a request for a speech synthesis provider. None is
/// connected to any remote, so it is always `Unsupported` with the
/// capability `speech`.
pub fn create_speech(config: &ProviderConfig) -> (e: Error)
    ensures
        e.deep_view() == (ErrorV::Unsupported {
            provider: provider_name(config.provider),
            capability: "speech"@,
        }),
{
    Error::Unsupported { provider: config.provider.name(), capability: "speech" }
}

} // verus!
