//! Reranking: which backend serves a provider, the request body, the
//! endpoint and the reading of an error answer. The scores of a successful
//! answer are read outside the library.

use vstd::prelude::*;

use crate::config::{provider_name, Provider, ProviderConfig};
use crate::error::{result_view, Error, ErrorV};
use crate::http::{check_status, is_success, Auth, AuthV, Call, CallV};
use crate::json::{array, aview, mview, object, push_item, push_member, Json, JsonV};
use crate::text::{decimal_text, join_url, join_url_spec, usize_to_text};

verus! {

/// The seconds a rerank call may take when the configuration sets no timeout.
pub const DEFAULT_TIMEOUT_SECS: u64 = 60;

/// The API that serves a provider's reranking.
#[derive(Debug, Clone, Copy, PartialEq, Eq, Structural)]
pub enum RerankBackend {
    /// DashScope `POST …/reranks`.
    Aliyun,
    /// Zhipu `POST …/rerank`.
    Zhipu,
}

/// The backend of a provider; only Aliyun and Zhipu rerank.
pub open spec fn rerank_backend_of(p: Provider) -> Option<RerankBackend> {
    match p {
        Provider::Aliyun => Some(RerankBackend::Aliyun),
        Provider::Zhipu => Some(RerankBackend::Zhipu),
        _ => None,
    }
}

/// The backend for a configuration; a provider without reranking gives
/// `Unsupported` with the capability `rerank`.
pub fn create(config: &ProviderConfig) -> (r: Result<RerankBackend, Error>)
    ensures
        match rerank_backend_of(config.provider) {
            Some(b) => r == Ok::<RerankBackend, Error>(b),
            None => (r matches Err(e) && e.deep_view() == (ErrorV::Unsupported {
                provider: provider_name(config.provider),
                capability: "rerank"@,
            })),
        },
{
    match config.provider {
        Provider::Aliyun => Ok(RerankBackend::Aliyun),
        Provider::Zhipu => Ok(RerankBackend::Zhipu),
        _ => Err(Error::Unsupported { provider: config.provider.name(), capability: "rerank" }),
    }
}

/// The documents as sent, in order.
pub open spec fn document_items(documents: Seq<&str>) -> Seq<JsonV> {
    documents.map_values(|d: &str| JsonV::Str(d@))
}

/// The body of a rerank request: `model`, `query`, the documents, and
/// `top_n` (`null` when not given).
pub open spec fn rerank_body_spec(
    model: Seq<char>,
    query: Seq<char>,
    documents: Seq<&str>,
    top_n: Option<usize>,
) -> JsonV {
    JsonV::Object(
        seq![
            ("model"@, JsonV::Str(model)),
            ("query"@, JsonV::Str(query)),
            ("documents"@, JsonV::Array(document_items(documents))),
            (
                "top_n"@,
                match top_n {
                    Some(n) => JsonV::Number(decimal_text(n as nat)),
                    None => JsonV::Null,
                },
            ),
        ],
    )
}

/// The body of a rerank request (the same for both backends).
pub fn rerank_body(model: &str, query: &str, documents: &[&str], top_n: Option<usize>) -> (r: Json)
    ensures
        r.deep_view() == rerank_body_spec(model@, query@, documents@, top_n),
{
    let mut items: Vec<Json> = Vec::new();
    let mut i: usize = 0;
    while i < documents.len()
        invariant
            0 <= i <= documents@.len(),
            aview(items@) == document_items(documents@.take(i as int)),
        decreases documents@.len() - i,
    {
        push_item(&mut items, Json::Str(documents[i].to_string()));
        proof {
            assert(document_items(documents@.take(i + 1)) =~= document_items(
                documents@.take(i as int),
            ).push(JsonV::Str(documents@[i as int]@)));
        }
        i = i + 1;
    }
    proof {
        assert(documents@.take(documents@.len() as int) =~= documents@);
    }
    let top = match top_n {
        Some(n) => Json::Number(usize_to_text(n)),
        None => Json::Null,
    };
    let mut m: Vec<(String, Json)> = Vec::new();
    push_member(&mut m, "model", Json::Str(model.to_string()));
    push_member(&mut m, "query", Json::Str(query.to_string()));
    push_member(&mut m, "documents", array(items));
    push_member(&mut m, "top_n", top);
    let r = object(m);
    proof {
        assert(mview(m@) =~= rerank_body_spec(model@, query@, documents@, top_n)->Object_0);
    }
    r
}

/// The endpoint path of a backend.
pub open spec fn rerank_path(backend: RerankBackend) -> Seq<char> {
    match backend {
        RerankBackend::Aliyun => "/reranks"@,
        RerankBackend::Zhipu => "/rerank"@,
    }
}

/// The URL of a rerank call under `base_url`.
pub fn rerank_url(backend: RerankBackend, base_url: &str) -> (r: String)
    ensures
        r@ == join_url_spec(base_url@, rerank_path(backend)),
{
    match backend {
        RerankBackend::Aliyun => join_url(base_url, "/reranks"),
        RerankBackend::Zhipu => join_url(base_url, "/rerank"),
    }
}

/// The call of a rerank: a bearer token and the body at the backend's
/// endpoint.
pub open spec fn rerank_call_spec(
    backend: RerankBackend,
    api_key: Seq<char>,
    base_url: Seq<char>,
    model: Seq<char>,
    query: Seq<char>,
    documents: Seq<&str>,
    top_n: Option<usize>,
) -> CallV {
    CallV {
        url: join_url_spec(base_url, rerank_path(backend)),
        auth: AuthV::Bearer(api_key),
        body: rerank_body_spec(model, query, documents, top_n),
    }
}

/// The call of a rerank.
pub fn rerank_call(
    backend: RerankBackend,
    config: &ProviderConfig,
    query: &str,
    documents: &[&str],
    top_n: Option<usize>,
) -> (r: Call)
    ensures
        r.deep_view() == rerank_call_spec(
            backend,
            config.api_key@,
            config.base_url@,
            config.model@,
            query@,
            documents@,
            top_n,
        ),
{
    Call {
        url: rerank_url(backend, config.base_url.as_str()),
        auth: Auth::Bearer(config.api_key.clone()),
        body: rerank_body(config.model.as_str(), query, documents, top_n),
    }
}

/// Every result points at one of the `count` documents.
pub open spec fn indices_in_range<T>(items: Seq<(usize, T)>, count: usize) -> bool {
    forall|i: int| 0 <= i < items.len() ==> #[trigger] items[i].0 < count
}

/// The results of an answer (document index and score), when each index is
/// that of one of the `count` documents sent; otherwise `Parse`.
pub fn check_rerank_indices<T>(items: Vec<(usize, T)>, count: usize) -> (r: Result<Vec<(usize, T)>, Error>)
    ensures
        indices_in_range(items@, count) ==> r == Ok::<Vec<(usize, T)>, Error>(items),
        !indices_in_range(items@, count) ==> (r matches Err(e) && e.deep_view()
            == ErrorV::Parse("rerank result index is outside the documents"@)),
{
    let mut i: usize = 0;
    while i < items.len()
        invariant
            0 <= i <= items@.len(),
            forall|j: int| 0 <= j < i ==> #[trigger] items@[j].0 < count,
        decreases items@.len() - i,
    {
        if items[i].0 >= count {
            return Err(Error::Parse("rerank result index is outside the documents".to_string()));
        }
        i = i + 1;
    }
    Ok(items)
}

/// The message of a DashScope error answer: `code: message` when the body
/// reads as DashScope's error object `{code, message}` with both present,
/// else the body as it is. `fields` is that reading: the two optional fields,
/// or `None` when the body does not read as the object.
pub open spec fn aliyun_error_spec(
    body: Seq<char>,
    fields: Option<(Option<Seq<char>>, Option<Seq<char>>)>,
) -> Seq<char> {
    match fields {
        Some((Some(code), Some(message))) => code + ": "@ + message,
        _ => body,
    }
}

/// The message of a DashScope error answer.
pub fn aliyun_error_message(body: &str, fields: Option<(Option<String>, Option<String>)>) -> (r:
    String)
    ensures
        r@ == aliyun_error_spec(body@, fields.deep_view()),
{
    match fields {
        Some((Some(code), Some(message))) => {
            let mut r = code;
            r.append(": ");
            r.append(message.as_str());
            r
        },
        _ => body.to_string(),
    }
}

/// The body of a successful rerank answer; outside 2xx, `Api` with the
/// status and the backend's error message (DashScope's is read from its
/// error object, given as `error_fields`; Zhipu's is the body).
pub fn check_rerank_status(
    backend: RerankBackend,
    status: u16,
    body: String,
    error_fields: Option<(Option<String>, Option<String>)>,
) -> (r: Result<String, Error>)
    ensures
        result_view(r) == if is_success(status) {
            Ok::<Seq<char>, ErrorV>(body@)
        } else {
            Err(
                ErrorV::Api {
                    status,
                    message: match backend {
                        RerankBackend::Aliyun => aliyun_error_spec(body@, error_fields.deep_view()),
                        RerankBackend::Zhipu => body@,
                    },
                },
            )
        },
{
    if 200 <= status && status <= 299 {
        return Ok(body);
    }
    let message = match backend {
        RerankBackend::Aliyun => aliyun_error_message(body.as_str(), error_fields),
        RerankBackend::Zhipu => body,
    };
    check_status(status, message)
}

} // verus!
