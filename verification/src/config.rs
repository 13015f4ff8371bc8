//! Providers and their connection settings.

use std::time::Duration;
use vstd::prelude::*;

use crate::error::{Error, ErrorV};
use crate::text::{
    is_white_space, lemma_trim_idempotent, str_eq, str_trim, trim_end_spec, trim_spec,
    trim_start_spec,
};

verus! {

/// The providers the library can talk to.
#[derive(Debug, Clone, Copy, PartialEq, Eq, Hash, Structural)]
#[non_exhaustive]
pub enum Provider {
    OpenAI,
    Anthropic,
    Google,
    Aliyun,
    Ollama,
    Zhipu,
}

/// The lower-case name of a provider.
pub open spec fn provider_name(p: Provider) -> Seq<char> {
    match p {
        Provider::OpenAI => "openai"@,
        Provider::Anthropic => "anthropic"@,
        Provider::Google => "google"@,
        Provider::Aliyun => "aliyun"@,
        Provider::Ollama => "ollama"@,
        Provider::Zhipu => "zhipu"@,
    }
}

/// `c` with ASCII upper-case letters mapped to lower case.
pub open spec fn ascii_lower_char(c: char) -> char {
    if 'A' <= c && c <= 'Z' {
        ((c as u32) + 32) as char
    } else {
        c
    }
}

/// `s` with every ASCII upper-case letter mapped to lower case.
pub open spec fn ascii_lower(s: Seq<char>) -> Seq<char> {
    Seq::new(s.len(), |i: int| ascii_lower_char(s[i]))
}

/// The provider a name denotes: the name is trimmed and compared without
/// regard to ASCII case.
pub open spec fn provider_from_name(s: Seq<char>) -> Option<Provider> {
    let t = ascii_lower(trim_spec(s));
    if t == "openai"@ {
        Some(Provider::OpenAI)
    } else if t == "anthropic"@ {
        Some(Provider::Anthropic)
    } else if t == "google"@ {
        Some(Provider::Google)
    } else if t == "aliyun"@ {
        Some(Provider::Aliyun)
    } else if t == "ollama"@ {
        Some(Provider::Ollama)
    } else if t == "zhipu"@ {
        Some(Provider::Zhipu)
    } else {
        None
    }
}

/// Calls `str::to_ascii_lowercase`, which maps ASCII letters `A`-`Z` to
/// `a`-`z` and leaves every other character as it is.
#[verifier::external_body]
fn str_ascii_lowercase(s: &str) -> (r: String)
    ensures
        r@ == ascii_lower(s@),
{
    s.to_ascii_lowercase()
}

impl Provider {
    /// The lower-case name (`"openai"`, `"anthropic"`, ...).
    pub fn as_str(&self) -> (r: &'static str)
        ensures
            r@ == provider_name(*self),
    {
        match self {
            Provider::OpenAI => "openai",
            Provider::Anthropic => "anthropic",
            Provider::Google => "google",
            Provider::Aliyun => "aliyun",
            Provider::Ollama => "ollama",
            Provider::Zhipu => "zhipu",
        }
    }

    /// The name as an owned string.
    pub fn name(&self) -> (r: String)
        ensures
            r@ == provider_name(*self),
    {
        self.as_str().to_string()
    }

    /// Reads a provider name, ignoring surrounding white space and ASCII
    /// case; an unknown name gives `UnknownProvider` with the trimmed,
    /// lower-cased text.
    pub fn parse(s: &str) -> (r: Result<Provider, Error>)
        ensures
            match provider_from_name(s@) {
                Some(p) => r == Ok::<Provider, Error>(p),
                None => r matches Err(e) && e.deep_view() == ErrorV::UnknownProvider(
                    ascii_lower(trim_spec(s@)),
                ),
            },
    {
        let t = str_ascii_lowercase(str_trim(s));
        if str_eq(t.as_str(), "openai") {
            Ok(Provider::OpenAI)
        } else if str_eq(t.as_str(), "anthropic") {
            Ok(Provider::Anthropic)
        } else if str_eq(t.as_str(), "google") {
            Ok(Provider::Google)
        } else if str_eq(t.as_str(), "aliyun") {
            Ok(Provider::Aliyun)
        } else if str_eq(t.as_str(), "ollama") {
            Ok(Provider::Ollama)
        } else if str_eq(t.as_str(), "zhipu") {
            Ok(Provider::Zhipu)
        } else {
            Err(Error::UnknownProvider(t))
        }
    }
}

impl std::str::FromStr for Provider {
    type Err = Error;

    fn from_str(s: &str) -> (r: std::result::Result<Provider, Error>)
        ensures
            match provider_from_name(s@) {
                Some(p) => r == Ok::<Provider, Error>(p),
                None => r matches Err(e) && e.deep_view() == ErrorV::UnknownProvider(
                    ascii_lower(trim_spec(s@)),
                ),
            },
    {
        Provider::parse(s)
    }
}

/// Every provider's name reads back as that provider.
pub proof fn lemma_name_round_trip(p: Provider)
    ensures
        provider_from_name(provider_name(p)) == Some(p),
{
    reveal_strlit("openai");
    reveal_strlit("anthropic");
    reveal_strlit("google");
    reveal_strlit("aliyun");
    reveal_strlit("ollama");
    reveal_strlit("zhipu");
    let n = provider_name(p);
    assert(trim_spec(n) =~= n) by {
        assert(!crate::text::is_white_space(n[0]));
        assert(!crate::text::is_white_space(n.last()));
    }
    assert(ascii_lower(n) =~= n);
}

/// Connection settings shared by every modality.
#[derive(Debug, Clone)]
pub struct ProviderConfig {
    pub provider: Provider,
    pub api_key: String,
    pub base_url: String,
    /// Passed to the remote as it is.
    pub model: String,
    /// The vector length; required for embeddings.
    pub dimension: Option<usize>,
    /// The HTTP timeout; `None` leaves it to the modality's default.
    pub timeout: Option<Duration>,
}

impl ProviderConfig {
    pub fn new(provider: Provider, api_key: &str, base_url: &str, model: &str) -> (r: Self)
        ensures
            r.provider == provider,
            r.api_key@ == api_key@,
            r.base_url@ == base_url@,
            r.model@ == model@,
            r.dimension is None,
            r.timeout is None,
    {
        ProviderConfig {
            provider,
            api_key: api_key.to_string(),
            base_url: base_url.to_string(),
            model: model.to_string(),
            dimension: None,
            timeout: None,
        }
    }

    /// The timeout of a call: the configured one, else the modality's
    /// `default`.
    pub fn timeout_or(&self, default: Duration) -> (r: Duration)
        ensures
            r == match self.timeout {
                Some(t) => t,
                None => default,
            },
    {
        match self.timeout {
            Some(t) => t,
            None => default,
        }
    }
}

} // verus!

verus! {

proof fn lemma_lower_keeps_white_space(c: char)
    ensures
        is_white_space(ascii_lower_char(c)) == is_white_space(c),
        ascii_lower_char(ascii_lower_char(c)) == ascii_lower_char(c),
{
}

proof fn lemma_trim_start_lower(s: Seq<char>)
    ensures
        trim_start_spec(ascii_lower(s)) == ascii_lower(trim_start_spec(s)),
    decreases s.len(),
{
    if s.len() > 0 {
        lemma_lower_keeps_white_space(s[0]);
        if is_white_space(s[0]) {
            assert(ascii_lower(s).drop_first() =~= ascii_lower(s.drop_first()));
            lemma_trim_start_lower(s.drop_first());
        }
    }
}

proof fn lemma_trim_end_lower(s: Seq<char>)
    ensures
        trim_end_spec(ascii_lower(s)) == ascii_lower(trim_end_spec(s)),
    decreases s.len(),
{
    if s.len() > 0 {
        lemma_lower_keeps_white_space(s.last());
        if is_white_space(s.last()) {
            assert(ascii_lower(s).drop_last() =~= ascii_lower(s.drop_last()));
            lemma_trim_end_lower(s.drop_last());
        }
    }
}

/// Two names that differ only in the case of ASCII letters denote the same
/// provider (or none).
pub proof fn lemma_parse_ignores_ascii_case(a: Seq<char>, b: Seq<char>)
    requires
        ascii_lower(a) == ascii_lower(b),
    ensures
        provider_from_name(a) == provider_from_name(b),
{
    lemma_trim_start_lower(a);
    lemma_trim_end_lower(trim_start_spec(a));
    lemma_trim_start_lower(b);
    lemma_trim_end_lower(trim_start_spec(b));
}

/// White space around a name makes no difference to the provider it
/// denotes.
pub proof fn lemma_parse_ignores_surrounding_space(s: Seq<char>)
    ensures
        provider_from_name(trim_spec(s)) == provider_from_name(s),
{
    lemma_trim_idempotent(s);
}

} // verus!
