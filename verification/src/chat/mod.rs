//! Chat completion: the request types, and for each API family the request
//! body, the reading of the answer and of the streamed events.

pub mod anthropic_compat;
pub mod google_gemini;
pub mod openai_compat;
pub mod types;

use vstd::prelude::*;

use crate::config::{Provider, ProviderConfig};
use crate::error::{result_view, Error, ErrorV};
use crate::chat::anthropic_compat::{
    anthropic_body_spec, anthropic_messages_url, build_anthropic_body, ANTHROPIC_VERSION,
};
use crate::chat::google_gemini::{build_request_json, gemini_body_spec, gemini_url, gemini_url_spec};
use crate::chat::openai_compat::{build_openai_body, openai_body_spec, openai_chat_url};
use crate::chat::types::ChatRequest;
use crate::http::{is_success, json_body_spec, json_response, pairs, Auth, AuthV, Call, CallV};
use crate::text::join_url_spec;
use crate::json::serde_json_read;
use crate::chat::types::{ChatResponse, ChatResponseV};

verus! {

/// The seconds a chat call may take when the configuration sets no timeout.
pub const DEFAULT_TIMEOUT_SECS: u64 = 60;

/// The API family that serves a provider's chat.
#[derive(Debug, Clone, Copy, PartialEq, Eq, Structural)]
pub enum ChatBackend {
    /// OpenAI Chat Completions (OpenAI, Aliyun, Ollama, Zhipu).
    OpenaiCompat,
    /// Anthropic Messages.
    AnthropicMessages,
    /// Google Gemini `generateContent`.
    GoogleGemini,
}

pub open spec fn chat_backend_of(p: Provider) -> ChatBackend {
    match p {
        Provider::Anthropic => ChatBackend::AnthropicMessages,
        Provider::Google => ChatBackend::GoogleGemini,
        _ => ChatBackend::OpenaiCompat,
    }
}

/// The chat backend of the configured provider; every provider has one.
pub fn create(config: &ProviderConfig) -> (r: Result<ChatBackend, Error>)
    ensures
        r == Ok::<ChatBackend, Error>(chat_backend_of(config.provider)),
{
    match config.provider {
        Provider::OpenAI => Ok(ChatBackend::OpenaiCompat),
        Provider::Aliyun => Ok(ChatBackend::OpenaiCompat),
        Provider::Anthropic => Ok(ChatBackend::AnthropicMessages),
        Provider::Google => Ok(ChatBackend::GoogleGemini),
        Provider::Ollama => Ok(ChatBackend::OpenaiCompat),
        Provider::Zhipu => Ok(ChatBackend::OpenaiCompat),
    }
}

/// The Gemini method of a call.
pub open spec fn gemini_method(stream: bool) -> Seq<char> {
    if stream {
        "streamGenerateContent"@
    } else {
        "generateContent"@
    }
}

/// The call of a completion: OpenAI-compatible APIs take a bearer token at
/// `…/chat/completions`; Anthropic takes `x-api-key` and `anthropic-version`
/// headers at `…/messages`; Gemini takes the key as the query parameter
/// `key` at `…/models/{model}:{method}`. A request that the backend cannot
/// express gives its error.
pub open spec fn chat_call_spec(
    backend: ChatBackend,
    api_key: Seq<char>,
    base_url: Seq<char>,
    model: Seq<char>,
    request: crate::chat::types::ChatRequestV,
    stream: bool,
) -> Result<CallV, ErrorV> {
    match backend {
        ChatBackend::OpenaiCompat => Ok(
            CallV {
                url: join_url_spec(base_url, "/chat/completions"@),
                auth: AuthV::Bearer(api_key),
                body: openai_body_spec(model, request, stream),
            },
        ),
        ChatBackend::AnthropicMessages => match anthropic_body_spec(model, request, stream) {
            Ok(body) => Ok(
                CallV {
                    url: join_url_spec(base_url, "/messages"@),
                    auth: AuthV::Headers(
                        seq![("x-api-key"@, api_key), ("anthropic-version"@, ANTHROPIC_VERSION@)],
                    ),
                    body,
                },
            ),
            Err(e) => Err(e),
        },
        ChatBackend::GoogleGemini => match gemini_body_spec(request) {
            Ok(body) => Ok(
                CallV {
                    url: gemini_url_spec(base_url, model, gemini_method(stream)),
                    auth: AuthV::Query(seq![("key"@, api_key)]),
                    body,
                },
            ),
            Err(e) => Err(e),
        },
    }
}

/// The call of a completion for the configured provider's backend.
pub fn chat_call(backend: ChatBackend, config: &ProviderConfig, request: &ChatRequest, stream: bool) -> (r:
    Result<Call, Error>)
    ensures
        result_view(r) == chat_call_spec(
            backend,
            config.api_key@,
            config.base_url@,
            config.model@,
            request.deep_view(),
            stream,
        ),
{
    match backend {
        ChatBackend::OpenaiCompat => Ok(
            Call {
                url: openai_chat_url(config.base_url.as_str()),
                auth: Auth::Bearer(config.api_key.clone()),
                body: build_openai_body(config.model.as_str(), request, stream),
            },
        ),
        ChatBackend::AnthropicMessages => {
            let body = build_anthropic_body(config.model.as_str(), request, stream)?;
            let headers = pairs(
                &[("x-api-key", config.api_key.as_str()), ("anthropic-version", ANTHROPIC_VERSION)],
            );
            proof {
                assert(headers.deep_view() =~= seq![
                    ("x-api-key"@, config.api_key@),
                    ("anthropic-version"@, ANTHROPIC_VERSION@),
                ]);
            }
            Ok(
                Call {
                    url: anthropic_messages_url(config.base_url.as_str()),
                    auth: Auth::Headers(headers),
                    body,
                },
            )
        },
        ChatBackend::GoogleGemini => {
            let body = build_request_json(request)?;
            let method = if stream {
                "streamGenerateContent"
            } else {
                "generateContent"
            };
            let query = pairs(&[("key", config.api_key.as_str())]);
            proof {
                assert(query.deep_view() =~= seq![("key"@, config.api_key@)]);
            }
            Ok(
                Call {
                    url: gemini_url(config.base_url.as_str(), config.model.as_str(), method),
                    auth: Auth::Query(query),
                    body,
                },
            )
        },
    }
}

/// The text of a single-prompt chat: the answer's content when it is present
/// and not empty, `MissingField("response content")` otherwise.
pub open spec fn chat_text_spec(resp: ChatResponseV) -> Result<Seq<char>, ErrorV> {
    match resp.content {
        Some(s) => if s.len() > 0 {
            Ok(s)
        } else {
            Err(ErrorV::MissingField("response content"@))
        },
        None => Err(ErrorV::MissingField("response content"@)),
    }
}

pub fn chat_text(resp: ChatResponse) -> (r: Result<String, Error>)
    ensures
        result_view(r) == chat_text_spec(resp.deep_view()),
{
    match resp.content {
        Some(s) => {
            if s.as_str().unicode_len() > 0 {
                Ok(s)
            } else {
                Err(Error::MissingField("response content"))
            }
        },
        None => Err(Error::MissingField("response content")),
    }
}

/// The answer of a non-stream completion from the HTTP status and body:
/// `Api` outside 2xx, `Parse` for a body that is not JSON, otherwise the
/// body read by the backend's reader.
pub open spec fn complete_spec(backend: ChatBackend, status: u16, body: Seq<char>) -> Result<
    ChatResponseV,
    ErrorV,
> {
    if !is_success(status) {
        Err(ErrorV::Api { status, message: body })
    } else {
        match json_body_spec(body) {
            Err(e) => Err(e),
            Ok(v) => match backend {
                ChatBackend::OpenaiCompat => openai_compat::openai_response_spec(v),
                ChatBackend::AnthropicMessages => anthropic_compat::anthropic_response_spec(v),
                ChatBackend::GoogleGemini => google_gemini::gemini_response_spec(v),
            },
        }
    }
}

/// Reads the HTTP answer of a non-stream completion.
pub fn complete_response(backend: ChatBackend, status: u16, body: String) -> (r: Result<
    ChatResponse,
    Error,
>)
    ensures
        result_view(r) == complete_spec(backend, status, body@),
{
    let v = match json_response(status, body) {
        Ok(v) => v,
        Err(e) => {
            return Err(e);
        },
    };
    match backend {
        ChatBackend::OpenaiCompat => openai_compat::parse_openai_chat_response(&v),
        ChatBackend::AnthropicMessages => anthropic_compat::parse_anthropic_message_response(&v),
        ChatBackend::GoogleGemini => google_gemini::parse_gemini_generate_response(&v),
    }
}

/// Whatever the backend, an answer outside 2xx is `Api` with its status and
/// body, and a 2xx body that is not JSON is `Parse` with `serde_json`'s
/// message.
pub proof fn lemma_transport_errors(backend: ChatBackend, status: u16, body: Seq<char>)
    ensures
        !is_success(status) ==> complete_spec(backend, status, body) == Err::<ChatResponseV, ErrorV>(
            ErrorV::Api { status, message: body },
        ),
        is_success(status) && serde_json_read(body) is Err ==> complete_spec(backend, status, body)
            == Err::<ChatResponseV, ErrorV>(ErrorV::Parse(serde_json_read(body)->Err_0)),
{
}

} // verus!
