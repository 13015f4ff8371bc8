//! Text embeddings: which backend serves a provider, the request bodies and
//! endpoints. The vectors of the answers are read outside the library.

use vstd::prelude::*;

use crate::config::{provider_name, Provider, ProviderConfig};
use crate::error::{result_view, Error, ErrorV};
use crate::chat::google_gemini::{gemini_url, gemini_url_spec};
use crate::http::{pairs, Auth, AuthV, Call, CallV};
use crate::json::{array, aview, mview, object, push_item, push_member, Json, JsonV};
use crate::text::{
    decimal_text, join_url, join_url_spec, lemma_normalize_idempotent, normalize_for_embedding,
    normalized_spec, usize_to_text,
};

verus! {

/// The seconds an embedding call may take when the configuration sets no
/// timeout.
pub const DEFAULT_TIMEOUT_SECS: u64 = 30;

/// The API that serves a provider's embeddings.
#[derive(Debug, Clone, Copy, PartialEq, Eq, Structural)]
pub enum EmbedBackend {
    /// OpenAI `POST …/embeddings` with `dimensions` (OpenAI, Aliyun, Ollama).
    OpenaiCompat,
    /// Zhipu `POST …/embeddings` without `dimensions`.
    Zhipu,
    /// Gemini `embedContent` / `batchEmbedContents`.
    GoogleGemini,
}

/// The backend of a provider; Anthropic has none.
pub open spec fn embed_backend_of(p: Provider) -> Option<EmbedBackend> {
    match p {
        Provider::OpenAI | Provider::Aliyun | Provider::Ollama => Some(EmbedBackend::OpenaiCompat),
        Provider::Zhipu => Some(EmbedBackend::Zhipu),
        Provider::Google => Some(EmbedBackend::GoogleGemini),
        Provider::Anthropic => None,
    }
}

/// The backend and the vector length for a configuration: the length is
/// required (`MissingConfig("dimension")`), and a provider without
/// embeddings gives `Unsupported`.
pub fn create(config: &ProviderConfig) -> (r: Result<(EmbedBackend, usize), Error>)
    ensures
        match config.dimension {
            None => (r matches Err(e) && e.deep_view() == ErrorV::MissingConfig("dimension"@)),
            Some(d) => match embed_backend_of(config.provider) {
                Some(b) => r == Ok::<(EmbedBackend, usize), Error>((b, d)),
                None => (r matches Err(e) && e.deep_view() == (ErrorV::Unsupported {
                    provider: provider_name(config.provider),
                    capability: "embed"@,
                })),
            },
        },
{
    let dimension = match config.dimension {
        Some(d) => d,
        None => return Err(Error::MissingConfig("dimension")),
    };
    match config.provider {
        Provider::OpenAI | Provider::Aliyun | Provider::Ollama => Ok((EmbedBackend::OpenaiCompat, dimension)),
        Provider::Zhipu => Ok((EmbedBackend::Zhipu, dimension)),
        Provider::Google => Ok((EmbedBackend::GoogleGemini, dimension)),
        Provider::Anthropic => Err(
            Error::Unsupported { provider: config.provider.name(), capability: "embed" },
        ),
    }
}

/// The texts as sent: each normalized.
pub open spec fn normalized_inputs(texts: Seq<&str>) -> Seq<JsonV> {
    texts.map_values(|t: &str| JsonV::Str(normalized_spec(t@)))
}

/// The body of `POST …/embeddings`: `model`, the normalized texts as
/// `input`, and `dimensions` when given (Zhipu sends none).
pub open spec fn embed_body_spec(model: Seq<char>, texts: Seq<&str>, dimensions: Option<usize>) -> JsonV {
    JsonV::Object(
        seq![("model"@, JsonV::Str(model)), ("input"@, JsonV::Array(normalized_inputs(texts)))]
            + match dimensions {
            Some(d) => seq![("dimensions"@, JsonV::Number(decimal_text(d as nat)))],
            None => Seq::empty(),
        },
    )
}

fn normalized_array(texts: &[&str]) -> (r: Json)
    ensures
        r.deep_view() == JsonV::Array(normalized_inputs(texts@)),
{
    let mut items: Vec<Json> = Vec::new();
    let mut i: usize = 0;
    while i < texts.len()
        invariant
            0 <= i <= texts@.len(),
            aview(items@) == normalized_inputs(texts@.take(i as int)),
        decreases texts@.len() - i,
    {
        push_item(&mut items, Json::Str(normalize_for_embedding(texts[i])));
        proof {
            assert(normalized_inputs(texts@.take(i + 1)) =~= normalized_inputs(texts@.take(i as int)).push(
                JsonV::Str(normalized_spec(texts@[i as int]@)),
            ));
        }
        i = i + 1;
    }
    proof {
        assert(texts@.take(texts@.len() as int) =~= texts@);
    }
    array(items)
}

/// A text that is already normalized is sent as it is, so embedding the
/// normalized text sends the same request as embedding the raw text.
pub proof fn lemma_normalized_text_same_request(
    model: Seq<char>,
    raw: &str,
    normalized: &str,
    dimensions: Option<usize>,
)
    requires
        normalized@ == normalized_spec(raw@),
    ensures
        embed_body_spec(model, seq![normalized], dimensions) == embed_body_spec(
            model,
            seq![raw],
            dimensions,
        ),
{
    lemma_normalize_idempotent(raw@);
    assert(normalized_inputs(seq![normalized]) =~= normalized_inputs(seq![raw]));
}

/// The body of `POST …/embeddings`.
pub fn embed_body(model: &str, texts: &[&str], dimensions: Option<usize>) -> (r: Json)
    ensures
        r.deep_view() == embed_body_spec(model@, texts@, dimensions),
{
    let mut m: Vec<(String, Json)> = Vec::new();
    push_member(&mut m, "model", Json::Str(model.to_string()));
    push_member(&mut m, "input", normalized_array(texts));
    match dimensions {
        Some(d) => {
            push_member(&mut m, "dimensions", Json::Number(usize_to_text(d)));
        },
        None => {},
    }
    let r = object(m);
    proof {
        assert(mview(m@) =~= embed_body_spec(model@, texts@, dimensions)->Object_0);
    }
    r
}

/// The URL of `POST …/embeddings` under `base_url`.
pub fn embeddings_url(base_url: &str) -> (r: String)
    ensures
        r@ == join_url_spec(base_url@, "/embeddings"@),
{
    join_url(base_url, "/embeddings")
}

/// The first vector of a batch answer; `MissingField("embeddings[0]")` when
/// there is none.
pub fn first_embedding<T>(v: Vec<T>) -> (r: Result<T, Error>)
    ensures
        v@.len() > 0 ==> r == Ok::<T, Error>(v@[0]),
        v@.len() == 0 ==> (r matches Err(e) && e.deep_view() == ErrorV::MissingField("embeddings[0]"@)),
{
    let mut v = v;
    if v.len() == 0 {
        return Err(Error::MissingField("embeddings[0]"));
    }
    Ok(v.remove(0))
}

/// Every vector has `dimension` entries.
pub open spec fn all_of_dimension<T>(vectors: Seq<Vec<T>>, dimension: usize) -> bool {
    forall|i: int| 0 <= i < vectors.len() ==> #[trigger] vectors[i]@.len() == dimension
}

/// The vectors of an answer, when each has the configured `dimension`
/// entries; otherwise `Parse`.
pub fn check_dimensions<T>(vectors: Vec<Vec<T>>, dimension: usize) -> (r: Result<Vec<Vec<T>>, Error>)
    ensures
        all_of_dimension(vectors@, dimension) ==> r == Ok::<Vec<Vec<T>>, Error>(vectors),
        !all_of_dimension(vectors@, dimension) ==> (r matches Err(e) && e.deep_view()
            == ErrorV::Parse("embedding length differs from the configured dimension"@)),
{
    let mut i: usize = 0;
    while i < vectors.len()
        invariant
            0 <= i <= vectors@.len(),
            forall|j: int| 0 <= j < i ==> #[trigger] vectors@[j]@.len() == dimension,
        decreases vectors@.len() - i,
    {
        if vectors[i].len() != dimension {
            return Err(Error::Parse("embedding length differs from the configured dimension".to_string()));
        }
        i = i + 1;
    }
    Ok(vectors)
}

pub open spec fn models_prefix() -> Seq<char> {
    seq!['m', 'o', 'd', 'e', 'l', 's', '/']
}

/// The resource name of a Gemini model: `models/{id}`, the prefix not
/// repeated when the configured name has it.
pub open spec fn gemini_model_resource(model: Seq<char>) -> Seq<char> {
    if model.len() >= 7 && model.take(7) == models_prefix() {
        model
    } else {
        models_prefix() + model
    }
}

/// The model id in a Gemini URL path: the configured name without a leading
/// `models/`.
pub open spec fn gemini_model_id(model: Seq<char>) -> Seq<char> {
    if model.len() >= 7 && model.take(7) == models_prefix() {
        model.skip(7)
    } else {
        model
    }
}

/// A Gemini resource name is `models/` followed by the model id, so the
/// prefix is never doubled: naming a resource name again changes nothing.
pub proof fn lemma_model_resource_prefix(model: Seq<char>)
    ensures
        gemini_model_resource(model) == models_prefix() + gemini_model_id(model),
        gemini_model_resource(gemini_model_resource(model)) == gemini_model_resource(model),
{
    if model.len() >= 7 && model.take(7) == models_prefix() {
        assert(model =~= models_prefix() + model.skip(7));
    } else {
        let r = models_prefix() + model;
        assert(r.take(7) =~= models_prefix());
    }
}

fn has_models_prefix(model: &str) -> (r: bool)
    ensures
        r == (model@.len() >= 7 && model@.take(7) == models_prefix()),
{
    let n = model.unicode_len();
    if n < 7 {
        return false;
    }
    let head = model.substring_char(0, 7);
    proof {
        reveal_strlit("models/");
        assert("models/"@ =~= models_prefix());
        assert(head@ =~= model@.take(7));
    }
    crate::text::str_eq(head, "models/")
}

/// The resource name of a Gemini model.
pub fn gemini_model_resource_name(model: &str) -> (r: String)
    ensures
        r@ == gemini_model_resource(model@),
{
    if has_models_prefix(model) {
        model.to_string()
    } else {
        proof {
            reveal_strlit("models/");
            assert("models/"@ =~= models_prefix());
        }
        let mut r = "models/".to_string();
        r.append(model);
        r
    }
}

/// The model id in a Gemini URL path.
pub fn gemini_model_path_id(model: &str) -> (r: String)
    ensures
        r@ == gemini_model_id(model@),
{
    if has_models_prefix(model) {
        let n = model.unicode_len();
        let rest = model.substring_char(7, n);
        proof {
            assert(rest@ =~= model@.skip(7));
        }
        rest.to_string()
    } else {
        model.to_string()
    }
}

/// One Gemini embedding request: the model resource, the normalized text as
/// one part, and `outputDimensionality`.
pub open spec fn gemini_embed_request_spec(resource: Seq<char>, text: Seq<char>, dimension: usize) -> JsonV {
    JsonV::Object(
        seq![
            ("model"@, JsonV::Str(resource)),
            (
                "content"@,
                JsonV::Object(
                    seq![
                        (
                            "parts"@,
                            JsonV::Array(
                                seq![JsonV::Object(seq![("text"@, JsonV::Str(normalized_spec(text)))])],
                            ),
                        ),
                    ],
                ),
            ),
            ("outputDimensionality"@, JsonV::Number(decimal_text(dimension as nat))),
        ],
    )
}

/// The body of `embedContent` for one text.
pub fn gemini_embed_request(resource: &str, text: &str, dimension: usize) -> (r: Json)
    ensures
        r.deep_view() == gemini_embed_request_spec(resource@, text@, dimension),
{
    let mut tp: Vec<(String, Json)> = Vec::new();
    push_member(&mut tp, "text", Json::Str(normalize_for_embedding(text)));
    let part = object(tp);
    let mut parts: Vec<Json> = Vec::new();
    proof {
        assert(aview(parts@) =~= Seq::<JsonV>::empty());
    }
    push_item(&mut parts, part);
    let mut c: Vec<(String, Json)> = Vec::new();
    push_member(&mut c, "parts", array(parts));
    let mut m: Vec<(String, Json)> = Vec::new();
    push_member(&mut m, "model", Json::Str(resource.to_string()));
    push_member(&mut m, "content", object(c));
    push_member(&mut m, "outputDimensionality", Json::Number(usize_to_text(dimension)));
    proof {
        assert(mview(tp@) =~= seq![("text"@, JsonV::Str(normalized_spec(text@)))]);
        assert(aview(parts@) =~= seq![part.deep_view()]);
        assert(mview(c@) =~= seq![("parts"@, JsonV::Array(aview(parts@)))]);
    }
    let r = object(m);
    proof {
        assert(mview(m@) =~= gemini_embed_request_spec(resource@, text@, dimension)->Object_0);
    }
    r
}

/// The body of `batchEmbedContents`: the model resource and one request per
/// text.
pub open spec fn gemini_batch_body_spec(resource: Seq<char>, texts: Seq<&str>, dimension: usize) -> JsonV {
    JsonV::Object(
        seq![
            ("model"@, JsonV::Str(resource)),
            (
                "requests"@,
                JsonV::Array(
                    texts.map_values(|t: &str| gemini_embed_request_spec(resource, t@, dimension)),
                ),
            ),
        ],
    )
}

pub fn gemini_batch_embed_body(resource: &str, texts: &[&str], dimension: usize) -> (r: Json)
    ensures
        r.deep_view() == gemini_batch_body_spec(resource@, texts@, dimension),
{
    let mut items: Vec<Json> = Vec::new();
    let mut i: usize = 0;
    while i < texts.len()
        invariant
            0 <= i <= texts@.len(),
            aview(items@) == texts@.take(i as int).map_values(
                |t: &str| gemini_embed_request_spec(resource@, t@, dimension),
            ),
        decreases texts@.len() - i,
    {
        push_item(&mut items, gemini_embed_request(resource, texts[i], dimension));
        proof {
            assert(texts@.take(i + 1).map_values(
                |t: &str| gemini_embed_request_spec(resource@, t@, dimension),
            ) =~= texts@.take(i as int).map_values(
                |t: &str| gemini_embed_request_spec(resource@, t@, dimension),
            ).push(gemini_embed_request_spec(resource@, texts@[i as int]@, dimension)));
        }
        i = i + 1;
    }
    proof {
        assert(texts@.take(texts@.len() as int) =~= texts@);
    }
    let mut m: Vec<(String, Json)> = Vec::new();
    push_member(&mut m, "model", Json::Str(resource.to_string()));
    push_member(&mut m, "requests", array(items));
    let r = object(m);
    proof {
        assert(mview(m@) =~= gemini_batch_body_spec(resource@, texts@, dimension)->Object_0);
    }
    r
}

/// The call that embeds a batch of texts: OpenAI-compatible APIs and Zhipu
/// take a bearer token at `…/embeddings` (Zhipu without `dimensions`);
/// Gemini takes the key as the query parameter `key` at
/// `…/models/{id}:batchEmbedContents`.
pub open spec fn batch_call_spec(
    backend: EmbedBackend,
    api_key: Seq<char>,
    base_url: Seq<char>,
    model: Seq<char>,
    texts: Seq<&str>,
    dimension: usize,
) -> CallV {
    match backend {
        EmbedBackend::OpenaiCompat => CallV {
            url: join_url_spec(base_url, "/embeddings"@),
            auth: AuthV::Bearer(api_key),
            body: embed_body_spec(model, texts, Some(dimension)),
        },
        EmbedBackend::Zhipu => CallV {
            url: join_url_spec(base_url, "/embeddings"@),
            auth: AuthV::Bearer(api_key),
            body: embed_body_spec(model, texts, None),
        },
        EmbedBackend::GoogleGemini => CallV {
            url: gemini_url_spec(base_url, gemini_model_id(model), "batchEmbedContents"@),
            auth: AuthV::Query(seq![("key"@, api_key)]),
            body: gemini_batch_body_spec(gemini_model_resource(model), texts, dimension),
        },
    }
}

fn gemini_key(config: &ProviderConfig) -> (r: Auth)
    ensures
        r.deep_view() == AuthV::Query(seq![("key"@, config.api_key@)]),
{
    let q = pairs(&[("key", config.api_key.as_str())]);
    proof {
        assert(q.deep_view() =~= seq![("key"@, config.api_key@)]);
    }
    Auth::Query(q)
}

/// The call that embeds a batch of texts.
pub fn batch_call(backend: EmbedBackend, config: &ProviderConfig, texts: &[&str], dimension: usize) -> (r:
    Call)
    ensures
        r.deep_view() == batch_call_spec(
            backend,
            config.api_key@,
            config.base_url@,
            config.model@,
            texts@,
            dimension,
        ),
{
    match backend {
        EmbedBackend::OpenaiCompat => Call {
            url: embeddings_url(config.base_url.as_str()),
            auth: Auth::Bearer(config.api_key.clone()),
            body: embed_body(config.model.as_str(), texts, Some(dimension)),
        },
        EmbedBackend::Zhipu => Call {
            url: embeddings_url(config.base_url.as_str()),
            auth: Auth::Bearer(config.api_key.clone()),
            body: embed_body(config.model.as_str(), texts, None),
        },
        EmbedBackend::GoogleGemini => {
            let resource = gemini_model_resource_name(config.model.as_str());
            let id = gemini_model_path_id(config.model.as_str());
            Call {
                url: gemini_url(config.base_url.as_str(), id.as_str(), "batchEmbedContents"),
                auth: gemini_key(config),
                body: gemini_batch_embed_body(resource.as_str(), texts, dimension),
            }
        },
    }
}

/// The call that embeds one text: Gemini's `…/models/{id}:embedContent`
/// with one request; for the other backends the batch call with that text
/// alone.
pub open spec fn single_call_spec(
    backend: EmbedBackend,
    api_key: Seq<char>,
    base_url: Seq<char>,
    model: Seq<char>,
    text: &str,
    dimension: usize,
) -> CallV {
    match backend {
        EmbedBackend::GoogleGemini => CallV {
            url: gemini_url_spec(base_url, gemini_model_id(model), "embedContent"@),
            auth: AuthV::Query(seq![("key"@, api_key)]),
            body: gemini_embed_request_spec(gemini_model_resource(model), text@, dimension),
        },
        _ => batch_call_spec(backend, api_key, base_url, model, seq![text], dimension),
    }
}

/// The call that embeds one text.
pub fn single_call(backend: EmbedBackend, config: &ProviderConfig, text: &str, dimension: usize) -> (r:
    Call)
    ensures
        r.deep_view() == single_call_spec(
            backend,
            config.api_key@,
            config.base_url@,
            config.model@,
            text,
            dimension,
        ),
{
    match backend {
        EmbedBackend::GoogleGemini => {
            let resource = gemini_model_resource_name(config.model.as_str());
            let id = gemini_model_path_id(config.model.as_str());
            Call {
                url: gemini_url(config.base_url.as_str(), id.as_str(), "embedContent"),
                auth: gemini_key(config),
                body: gemini_embed_request(resource.as_str(), text, dimension),
            }
        },
        _ => {
            let texts: [&str; 1] = [text];
            proof {
                assert(texts@ =~= seq![text]);
            }
            batch_call(backend, config, &texts, dimension)
        },
    }
}

} // verus!
