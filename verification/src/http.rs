//! What the HTTP client decides once a response has arrived.

use vstd::prelude::*;

use crate::error::{result_view, Error, ErrorV};
use crate::json::{read_json, serde_json_read, serde_json_write, write_json, Json, JsonV};

verus! {

/// How a call authenticates.
#[derive(Debug)]
pub enum Auth {
    /// `Authorization: Bearer {token}`.
    Bearer(String),
    /// Header names and values of the vendor's own.
    Headers(Vec<(String, String)>),
    /// Parameters added to the URL's query.
    Query(Vec<(String, String)>),
}

/// The value of an [`Auth`].
pub enum AuthV {
    Bearer(Seq<char>),
    Headers(Seq<(Seq<char>, Seq<char>)>),
    Query(Seq<(Seq<char>, Seq<char>)>),
}

impl DeepView for Auth {
    type V = AuthV;

    open spec fn deep_view(&self) -> AuthV {
        match self {
            Auth::Bearer(t) => AuthV::Bearer(t@),
            Auth::Headers(h) => AuthV::Headers(h.deep_view()),
            Auth::Query(q) => AuthV::Query(q.deep_view()),
        }
    }
}

/// One HTTP call: the URL to POST to, the authentication and the JSON body.
#[derive(Debug)]
pub struct Call {
    pub url: String,
    pub auth: Auth,
    pub body: Json,
}

/// The value of a [`Call`].
pub struct CallV {
    pub url: Seq<char>,
    pub auth: AuthV,
    pub body: JsonV,
}

impl DeepView for Call {
    type V = CallV;

    open spec fn deep_view(&self) -> CallV {
        CallV { url: self.url@, auth: self.auth.deep_view(), body: self.body.deep_view() }
    }
}

/// Name and value pairs, in order.
pub fn pairs(items: &[(&str, &str)]) -> (r: Vec<(String, String)>)
    ensures
        r.deep_view() == items@.map_values(|p: (&str, &str)| (p.0@, p.1@)),
{
    let mut out: Vec<(String, String)> = Vec::new();
    let mut i: usize = 0;
    while i < items.len()
        invariant
            0 <= i <= items@.len(),
            out.deep_view() == items@.take(i as int).map_values(|p: (&str, &str)| (p.0@, p.1@)),
        decreases items@.len() - i,
    {
        let (k, v) = items[i];
        out.push((k.to_string(), v.to_string()));
        proof {
            assert(items@.take(i + 1).map_values(|p: (&str, &str)| (p.0@, p.1@)) =~= items@.take(
                i as int,
            ).map_values(|p: (&str, &str)| (p.0@, p.1@)).push((k@, v@)));
            assert(out.deep_view() =~= items@.take(i + 1).map_values(
                |p: (&str, &str)| (p.0@, p.1@),
            ));
        }
        i = i + 1;
    }
    proof {
        assert(items@.take(items@.len() as int) =~= items@);
    }
    out
}

/// The text of a request body: the document as `serde_json` writes it.
pub fn body_text(body: &Json) -> (r: String)
    ensures
        r@ == serde_json_write(body.deep_view()),
{
    write_json(body)
}

/// A status in `200..=299`.
pub open spec fn is_success(status: u16) -> bool {
    200 <= status <= 299
}

/// The body of a successful response; any other status becomes `Api` with
/// the status and the (already mapped) body text as message.
pub fn check_status(status: u16, message: String) -> (r: Result<String, Error>)
    ensures
        result_view(r) == if is_success(status) {
            Ok::<Seq<char>, ErrorV>(message@)
        } else {
            Err(ErrorV::Api { status, message: message@ })
        },
{
    if 200 <= status && status <= 299 {
        Ok(message)
    } else {
        Err(Error::Api { status, message })
    }
}

/// A body read as JSON, or `Parse` with `serde_json`'s message.
pub open spec fn json_body_spec(body: Seq<char>) -> Result<JsonV, ErrorV> {
    match serde_json_read(body) {
        Ok(v) => Ok(v),
        Err(m) => Err(ErrorV::Parse(m)),
    }
}

/// A successful body read as JSON; a body that is not JSON gives `Parse`
/// with `serde_json`'s message.
pub fn decode_json_body(body: &str) -> (r: Result<Json, Error>)
    ensures
        result_view(r) == json_body_spec(body@),
{
    match read_json(body) {
        Ok(j) => Ok(j),
        Err(m) => Err(Error::Parse(m)),
    }
}

/// The outcome of a JSON call: the status decides between `Api` (the body
/// as message) and reading the body as JSON.
pub fn json_response(status: u16, body: String) -> (r: Result<Json, Error>)
    ensures
        result_view(r) == if is_success(status) {
            json_body_spec(body@)
        } else {
            Err(ErrorV::Api { status, message: body@ })
        },
{
    let text = check_status(status, body)?;
    decode_json_body(text.as_str())
}

} // verus!
