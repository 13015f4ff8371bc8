//! Image generation: which backend serves a provider, the request bodies,
//! the endpoints and the reading of the answers.

use vstd::prelude::*;

use crate::base64::{decode_text, decode_text_spec};
use crate::config::{provider_name, Provider, ProviderConfig};
use crate::error::{result_view, Error, ErrorV};
use crate::http::{is_success, json_body_spec, json_response, Auth, AuthV, Call, CallV};
use crate::json::{
    array, as_array, as_str, aview, field, field_opt, jarr, jget, jstr, mview, object, oget,
    push_item, push_member, Json, JsonV,
};
use crate::text::{decimal_text, join_url, join_url_spec};

verus! {

/// The seconds an image call may take when the configuration sets no timeout.
pub const DEFAULT_TIMEOUT_SECS: u64 = 120;

/// The size of a generated image.
#[derive(Debug, Clone, Copy, PartialEq, Eq, Structural)]
pub enum ImageSize {
    /// 512×512.
    Square512,
    /// 1024×1024.
    Square1024,
    /// 1792×1024.
    Landscape,
    /// 1024×1792.
    Portrait,
}

/// A generated image: where to fetch it, or its bytes.
#[derive(Debug, Clone)]
pub enum ImageOutput {
    Url(String),
    Bytes(Vec<u8>),
}

/// The value of an [`ImageOutput`].
pub enum ImageOutputV {
    Url(Seq<char>),
    Bytes(Seq<u8>),
}

impl DeepView for ImageOutput {
    type V = ImageOutputV;

    open spec fn deep_view(&self) -> ImageOutputV {
        match self {
            ImageOutput::Url(u) => ImageOutputV::Url(u@),
            ImageOutput::Bytes(b) => ImageOutputV::Bytes(b@),
        }
    }
}

/// The API that serves a provider's image generation.
#[derive(Debug, Clone, Copy, PartialEq, Eq, Structural)]
pub enum ImageBackend {
    /// OpenAI `POST …/images/generations`.
    OpenAI,
    /// DashScope multimodal generation.
    Aliyun,
}

/// The backend of a provider; only OpenAI and Aliyun generate images.
pub open spec fn image_backend_of(p: Provider) -> Option<ImageBackend> {
    match p {
        Provider::OpenAI => Some(ImageBackend::OpenAI),
        Provider::Aliyun => Some(ImageBackend::Aliyun),
        _ => None,
    }
}

/// The backend for a configuration; a provider without image generation
/// gives `Unsupported` with the capability `image`.
pub fn create(config: &ProviderConfig) -> (r: Result<ImageBackend, Error>)
    ensures
        match image_backend_of(config.provider) {
            Some(b) => r == Ok::<ImageBackend, Error>(b),
            None => (r matches Err(e) && e.deep_view() == (ErrorV::Unsupported {
                provider: provider_name(config.provider),
                capability: "image"@,
            })),
        },
{
    match config.provider {
        Provider::OpenAI => Ok(ImageBackend::OpenAI),
        Provider::Aliyun => Ok(ImageBackend::Aliyun),
        _ => Err(Error::Unsupported { provider: config.provider.name(), capability: "image" }),
    }
}

/// How a backend writes a size: `WxH` for OpenAI, `W*H` for DashScope.
pub open spec fn size_text_spec(backend: ImageBackend, size: ImageSize) -> Seq<char> {
    match backend {
        ImageBackend::OpenAI => match size {
            ImageSize::Square512 => "512x512"@,
            ImageSize::Square1024 => "1024x1024"@,
            ImageSize::Landscape => "1792x1024"@,
            ImageSize::Portrait => "1024x1792"@,
        },
        ImageBackend::Aliyun => match size {
            ImageSize::Square512 => "512*512"@,
            ImageSize::Square1024 => "1024*1024"@,
            ImageSize::Landscape => "1792*1024"@,
            ImageSize::Portrait => "1024*1792"@,
        },
    }
}

/// How a backend writes a size.
pub fn size_text(backend: ImageBackend, size: ImageSize) -> (r: &'static str)
    ensures
        r@ == size_text_spec(backend, size),
{
    match backend {
        ImageBackend::OpenAI => match size {
            ImageSize::Square512 => "512x512",
            ImageSize::Square1024 => "1024x1024",
            ImageSize::Landscape => "1792x1024",
            ImageSize::Portrait => "1024x1792",
        },
        ImageBackend::Aliyun => match size {
            ImageSize::Square512 => "512*512",
            ImageSize::Square1024 => "1024*1024",
            ImageSize::Landscape => "1792*1024",
            ImageSize::Portrait => "1024*1792",
        },
    }
}

/// The character between width and height: `x` for OpenAI, `*` for DashScope.
pub open spec fn size_separator(backend: ImageBackend) -> Seq<char> {
    match backend {
        ImageBackend::OpenAI => seq!['x'],
        ImageBackend::Aliyun => seq!['*'],
    }
}

proof fn lemma_size_numbers()
    ensures
        decimal_text(512) == seq!['5', '1', '2'],
        decimal_text(1024) == seq!['1', '0', '2', '4'],
        decimal_text(1792) == seq!['1', '7', '9', '2'],
{
    reveal_with_fuel(decimal_text, 5);
    assert(decimal_text(512) =~= seq!['5', '1', '2']);
    assert(decimal_text(1024) =~= seq!['1', '0', '2', '4']);
    assert(decimal_text(1792) =~= seq!['1', '7', '9', '2']);
}

/// Every size is written as width, separator, height in decimal: the squares
/// with equal sides (512 and 1024), a portrait taller than wide, and a
/// landscape the same picture turned, wider than tall.
pub proof fn lemma_size_shapes(backend: ImageBackend)
    ensures
        size_text_spec(backend, ImageSize::Square512) == decimal_text(512) + size_separator(backend)
            + decimal_text(512),
        size_text_spec(backend, ImageSize::Square1024) == decimal_text(1024) + size_separator(
            backend,
        ) + decimal_text(1024),
        exists|w: nat, h: nat|
            w < h && #[trigger] size_text_spec(backend, ImageSize::Portrait) == decimal_text(w)
                + size_separator(backend) + decimal_text(h) && size_text_spec(
                backend,
                ImageSize::Landscape,
            ) == decimal_text(h) + size_separator(backend) + decimal_text(w),
{
    lemma_size_numbers();
    reveal_strlit("512x512");
    reveal_strlit("1024x1024");
    reveal_strlit("1792x1024");
    reveal_strlit("1024x1792");
    reveal_strlit("512*512");
    reveal_strlit("1024*1024");
    reveal_strlit("1792*1024");
    reveal_strlit("1024*1792");
    let sep = size_separator(backend);
    assert(size_text_spec(backend, ImageSize::Square512) =~= decimal_text(512) + sep + decimal_text(
        512,
    ));
    assert(size_text_spec(backend, ImageSize::Square1024) =~= decimal_text(1024) + sep
        + decimal_text(1024));
    assert(size_text_spec(backend, ImageSize::Portrait) =~= decimal_text(1024) + sep + decimal_text(
        1792,
    ));
    assert(size_text_spec(backend, ImageSize::Landscape) =~= decimal_text(1792) + sep
        + decimal_text(1024));
}

/// The OpenAI body: `model`, `prompt`, one image (`n` is 1) and `size`.
pub open spec fn openai_image_body_spec(model: Seq<char>, prompt: Seq<char>, size: ImageSize) -> JsonV {
    JsonV::Object(
        seq![
            ("model"@, JsonV::Str(model)),
            ("prompt"@, JsonV::Str(prompt)),
            ("n"@, JsonV::Number("1"@)),
            ("size"@, JsonV::Str(size_text_spec(ImageBackend::OpenAI, size))),
        ],
    )
}

/// The DashScope body: the prompt as the text of one user message, the size,
/// prompt extension on and no watermark.
pub open spec fn aliyun_image_body_spec(model: Seq<char>, prompt: Seq<char>, size: ImageSize) -> JsonV {
    JsonV::Object(
        seq![
            ("model"@, JsonV::Str(model)),
            (
                "input"@,
                JsonV::Object(
                    seq![
                        (
                            "messages"@,
                            JsonV::Array(
                                seq![
                                    JsonV::Object(
                                        seq![
                                            ("role"@, JsonV::Str("user"@)),
                                            (
                                                "content"@,
                                                JsonV::Array(
                                                    seq![
                                                        JsonV::Object(
                                                            seq![("text"@, JsonV::Str(prompt))],
                                                        ),
                                                    ],
                                                ),
                                            ),
                                        ],
                                    ),
                                ],
                            ),
                        ),
                    ],
                ),
            ),
            (
                "parameters"@,
                JsonV::Object(
                    seq![
                        ("size"@, JsonV::Str(size_text_spec(ImageBackend::Aliyun, size))),
                        ("prompt_extend"@, JsonV::Bool(true)),
                        ("watermark"@, JsonV::Bool(false)),
                    ],
                ),
            ),
        ],
    )
}

/// The request body of a backend.
pub open spec fn image_body_spec(
    backend: ImageBackend,
    model: Seq<char>,
    prompt: Seq<char>,
    size: ImageSize,
) -> JsonV {
    match backend {
        ImageBackend::OpenAI => openai_image_body_spec(model, prompt, size),
        ImageBackend::Aliyun => aliyun_image_body_spec(model, prompt, size),
    }
}

fn openai_image_body(model: &str, prompt: &str, size: ImageSize) -> (r: Json)
    ensures
        r.deep_view() == openai_image_body_spec(model@, prompt@, size),
{
    let mut m: Vec<(String, Json)> = Vec::new();
    push_member(&mut m, "model", Json::Str(model.to_string()));
    push_member(&mut m, "prompt", Json::Str(prompt.to_string()));
    push_member(&mut m, "n", Json::Number("1".to_string()));
    push_member(&mut m, "size", Json::Str(size_text(ImageBackend::OpenAI, size).to_string()));
    let r = object(m);
    proof {
        assert(mview(m@) =~= openai_image_body_spec(model@, prompt@, size)->Object_0);
    }
    r
}

fn single(j: Json) -> (r: Json)
    ensures
        r.deep_view() == JsonV::Array(seq![j.deep_view()]),
{
    let mut items: Vec<Json> = Vec::new();
    proof {
        assert(aview(items@) =~= Seq::<JsonV>::empty());
    }
    push_item(&mut items, j);
    proof {
        assert(aview(items@) =~= seq![j.deep_view()]);
    }
    array(items)
}

fn aliyun_image_body(model: &str, prompt: &str, size: ImageSize) -> (r: Json)
    ensures
        r.deep_view() == aliyun_image_body_spec(model@, prompt@, size),
{
    let mut tm: Vec<(String, Json)> = Vec::new();
    push_member(&mut tm, "text", Json::Str(prompt.to_string()));
    proof {
        assert(mview(tm@) =~= seq![("text"@, JsonV::Str(prompt@))]);
    }
    let text = object(tm);
    let mut mm: Vec<(String, Json)> = Vec::new();
    push_member(&mut mm, "role", Json::Str("user".to_string()));
    push_member(&mut mm, "content", single(text));
    proof {
        assert(mview(mm@) =~= seq![
            ("role"@, JsonV::Str("user"@)),
            ("content"@, JsonV::Array(seq![JsonV::Object(seq![("text"@, JsonV::Str(prompt@))])])),
        ]);
    }
    let msg = object(mm);
    let mut input: Vec<(String, Json)> = Vec::new();
    push_member(&mut input, "messages", single(msg));
    let mut params: Vec<(String, Json)> = Vec::new();
    push_member(&mut params, "size", Json::Str(size_text(ImageBackend::Aliyun, size).to_string()));
    push_member(&mut params, "prompt_extend", Json::Bool(true));
    push_member(&mut params, "watermark", Json::Bool(false));
    proof {
        assert(mview(params@) =~= seq![
            ("size"@, JsonV::Str(size_text_spec(ImageBackend::Aliyun, size))),
            ("prompt_extend"@, JsonV::Bool(true)),
            ("watermark"@, JsonV::Bool(false)),
        ]);
        assert(mview(input@) =~= seq![("messages"@, JsonV::Array(seq![msg.deep_view()]))]);
    }
    let mut m: Vec<(String, Json)> = Vec::new();
    push_member(&mut m, "model", Json::Str(model.to_string()));
    push_member(&mut m, "input", object(input));
    push_member(&mut m, "parameters", object(params));
    let r = object(m);
    proof {
        assert(mview(m@) =~= aliyun_image_body_spec(model@, prompt@, size)->Object_0);
    }
    r
}

/// The request body of a backend.
pub fn image_body(backend: ImageBackend, model: &str, prompt: &str, size: ImageSize) -> (r: Json)
    ensures
        r.deep_view() == image_body_spec(backend, model@, prompt@, size),
{
    match backend {
        ImageBackend::OpenAI => openai_image_body(model, prompt, size),
        ImageBackend::Aliyun => aliyun_image_body(model, prompt, size),
    }
}

/// The endpoint path of a backend.
pub open spec fn image_path(backend: ImageBackend) -> Seq<char> {
    match backend {
        ImageBackend::OpenAI => "/images/generations"@,
        ImageBackend::Aliyun => "/services/aigc/multimodal-generation/generation"@,
    }
}

/// The URL of an image call under `base_url`.
pub fn image_url(backend: ImageBackend, base_url: &str) -> (r: String)
    ensures
        r@ == join_url_spec(base_url@, image_path(backend)),
{
    match backend {
        ImageBackend::OpenAI => join_url(base_url, "/images/generations"),
        ImageBackend::Aliyun => join_url(base_url, "/services/aigc/multimodal-generation/generation"),
    }
}

/// The call of an image generation: a bearer token and the backend's body at
/// its endpoint.
pub open spec fn image_call_spec(
    backend: ImageBackend,
    api_key: Seq<char>,
    base_url: Seq<char>,
    model: Seq<char>,
    prompt: Seq<char>,
    size: ImageSize,
) -> CallV {
    CallV {
        url: join_url_spec(base_url, image_path(backend)),
        auth: AuthV::Bearer(api_key),
        body: image_body_spec(backend, model, prompt, size),
    }
}

/// The call of an image generation.
pub fn image_call(backend: ImageBackend, config: &ProviderConfig, prompt: &str, size: ImageSize) -> (r:
    Call)
    ensures
        r.deep_view() == image_call_spec(
            backend,
            config.api_key@,
            config.base_url@,
            config.model@,
            prompt@,
            size,
        ),
{
    Call {
        url: image_url(backend, config.base_url.as_str()),
        auth: Auth::Bearer(config.api_key.clone()),
        body: image_body(backend, config.model.as_str(), prompt, size),
    }
}

/// OpenAI's answer: `data[0].url` when it is a string, else the bytes of
/// `data[0].b64_json` (`Parse` when that is not base64); `MissingField`
/// when `data` has no first element or it has neither.
pub open spec fn openai_image_spec(v: JsonV) -> Result<ImageOutputV, ErrorV> {
    match jarr(jget(v, "data"@)) {
        None => Err(ErrorV::MissingField("data"@)),
        Some(d) => if d.len() == 0 {
            Err(ErrorV::MissingField("data[0]"@))
        } else {
            match jstr(jget(d[0], "url"@)) {
                Some(u) => Ok(ImageOutputV::Url(u)),
                None => match jstr(jget(d[0], "b64_json"@)) {
                    Some(t) => match decode_text_spec(t) {
                        Some(b) => Ok(ImageOutputV::Bytes(b)),
                        None => Err(ErrorV::Parse("data[0].b64_json is not base64"@)),
                    },
                    None => Err(ErrorV::MissingField("data[0].url"@)),
                },
            }
        },
    }
}

fn parse_openai_image_response(v: &Json) -> (r: Result<ImageOutput, Error>)
    ensures
        result_view(r) == openai_image_spec(v.deep_view()),
{
    let data = match as_array(field(v, "data")) {
        Some(d) => d,
        None => return Err(Error::MissingField("data")),
    };
    if data.len() == 0 {
        return Err(Error::MissingField("data[0]"));
    }
    let first = &data[0];
    match as_str(field(first, "url")) {
        Some(u) => return Ok(ImageOutput::Url(u.clone())),
        None => {},
    }
    match as_str(field(first, "b64_json")) {
        Some(t) => match decode_text(t.as_str()) {
            Some(b) => Ok(ImageOutput::Bytes(b)),
            None => Err(Error::Parse("data[0].b64_json is not base64".to_string())),
        },
        None => Err(Error::MissingField("data[0].url")),
    }
}

/// The URL of the first content item that has a string `image`.
pub open spec fn first_image(items: Seq<JsonV>) -> Option<Seq<char>>
    decreases items.len(),
{
    if items.len() == 0 {
        None
    } else {
        match jstr(jget(items[0], "image"@)) {
            Some(u) => Some(u),
            None => first_image(items.drop_first()),
        }
    }
}

/// DashScope's answer: the first item of `output.choices[0].message.content`
/// with an `image` URL.
pub open spec fn aliyun_image_spec(v: JsonV) -> Result<ImageOutputV, ErrorV> {
    match jarr(oget(jget(v, "output"@), "choices"@)) {
        None => Err(ErrorV::MissingField("output.choices"@)),
        Some(ch) => if ch.len() == 0 {
            Err(ErrorV::MissingField("output.choices[0]"@))
        } else {
            match jarr(oget(jget(ch[0], "message"@), "content"@)) {
                None => Err(ErrorV::MissingField("output.choices[0].message.content"@)),
                Some(items) => match first_image(items) {
                    Some(u) => Ok(ImageOutputV::Url(u)),
                    None => Err(ErrorV::MissingField("output.choices[0].message.content[].image"@)),
                },
            }
        },
    }
}

fn parse_aliyun_image_response(v: &Json) -> (r: Result<ImageOutput, Error>)
    ensures
        result_view(r) == aliyun_image_spec(v.deep_view()),
{
    let choices = match as_array(field_opt(field(v, "output"), "choices")) {
        Some(c) => c,
        None => return Err(Error::MissingField("output.choices")),
    };
    if choices.len() == 0 {
        return Err(Error::MissingField("output.choices[0]"));
    }
    let items = match as_array(field_opt(field(&choices[0], "message"), "content")) {
        Some(c) => c,
        None => return Err(Error::MissingField("output.choices[0].message.content")),
    };
    let ghost all = items.deep_view();
    let mut i: usize = 0;
    proof {
        assert(all.skip(0) =~= all);
    }
    while i < items.len()
        invariant
            all == items.deep_view(),
            aliyun_image_spec(v.deep_view()) == match first_image(all) {
                Some(u) => Ok(ImageOutputV::Url(u)),
                None => Err(ErrorV::MissingField("output.choices[0].message.content[].image"@)),
            },
            0 <= i <= all.len(),
            first_image(all) == first_image(all.skip(i as int)),
        decreases all.len() - i,
    {
        proof {
            assert(all.skip(i as int).drop_first() =~= all.skip(i + 1));
            assert(all.skip(i as int).len() > 0);
            assert(all.skip(i as int)[0] == items@[i as int].deep_view());
        }
        match as_str(field(&items[i], "image")) {
            Some(u) => {
                proof {
                    assert(first_image(all.skip(i as int)) == Some(u@));
                }
                return Ok(ImageOutput::Url(u.clone()));
            },
            None => {},
        }
        i = i + 1;
    }
    Err(Error::MissingField("output.choices[0].message.content[].image"))
}

/// The answer of a backend from the HTTP status and body: `Api` outside 2xx,
/// `Parse` for a body that is not JSON, otherwise the backend's reading.
pub open spec fn image_response_spec(backend: ImageBackend, status: u16, body: Seq<char>) -> Result<
    ImageOutputV,
    ErrorV,
> {
    if !is_success(status) {
        Err(ErrorV::Api { status, message: body })
    } else {
        match json_body_spec(body) {
            Err(e) => Err(e),
            Ok(v) => match backend {
                ImageBackend::OpenAI => openai_image_spec(v),
                ImageBackend::Aliyun => aliyun_image_spec(v),
            },
        }
    }
}

/// Reads the HTTP answer of an image call.
pub fn image_response(backend: ImageBackend, status: u16, body: String) -> (r: Result<
    ImageOutput,
    Error,
>)
    ensures
        result_view(r) == image_response_spec(backend, status, body@),
{
    let v = json_response(status, body)?;
    match backend {
        ImageBackend::OpenAI => parse_openai_image_response(&v),
        ImageBackend::Aliyun => parse_aliyun_image_response(&v),
    }
}

} // verus!
