//! The library's error type.

use reqwest::Error as TransportError;
use vstd::prelude::*;

use crate::text::{decimal_text, usize_to_text};

verus! {

#[verifier::external_type_specification]
#[verifier::external_body]
pub struct ExTransportError(TransportError);

/// What can go wrong when a provider is made or called.
#[derive(Debug)]
pub enum Error {
    /// A provider name that no [`crate::config::Provider`] has.
    UnknownProvider(String),
    /// The provider is not compiled in for this modality.
    ProviderDisabled(String),
    /// The provider has no such capability.
    Unsupported { provider: String, capability: &'static str },
    /// A required configuration value is missing.
    MissingConfig(&'static str),
    /// The remote answered with a status outside 2xx.
    Api { status: u16, message: String },
    /// The HTTP transport failed.
    Http(TransportError),
    /// A body could not be read as expected.
    Parse(String),
    /// A response lacks an expected field.
    MissingField(&'static str),
}

pub type Result<T> = std::result::Result<T, Error>;

/// The value of an [`Error`]; a transport error is only told apart by its kind.
pub enum ErrorV {
    UnknownProvider(Seq<char>),
    ProviderDisabled(Seq<char>),
    Unsupported { provider: Seq<char>, capability: Seq<char> },
    MissingConfig(Seq<char>),
    Api { status: u16, message: Seq<char> },
    Http,
    Parse(Seq<char>),
    MissingField(Seq<char>),
}

impl DeepView for Error {
    type V = ErrorV;

    open spec fn deep_view(&self) -> ErrorV {
        match self {
            Error::UnknownProvider(s) => ErrorV::UnknownProvider(s@),
            Error::ProviderDisabled(s) => ErrorV::ProviderDisabled(s@),
            Error::Unsupported { provider, capability } => ErrorV::Unsupported {
                provider: provider@,
                capability: capability@,
            },
            Error::MissingConfig(s) => ErrorV::MissingConfig(s@),
            Error::Api { status, message } => ErrorV::Api { status: *status, message: message@ },
            Error::Http(_) => ErrorV::Http,
            Error::Parse(s) => ErrorV::Parse(s@),
            Error::MissingField(s) => ErrorV::MissingField(s@),
        }
    }
}

/// The value of a result.
pub open spec fn result_view<T: DeepView>(r: Result<T>) -> std::result::Result<T::V, ErrorV> {
    match r {
        Ok(x) => Ok(x.deep_view()),
        Err(e) => Err(e.deep_view()),
    }
}

/// The message of an error other than a transport failure.
pub open spec fn error_text(e: ErrorV) -> Seq<char> {
    match e {
        ErrorV::UnknownProvider(s) => "unknown provider name: "@ + s,
        ErrorV::ProviderDisabled(s) => "provider `"@ + s + "` is not enabled (Cargo feature or modality)"@,
        ErrorV::Unsupported { provider, capability } => "capability `"@ + capability
            + "` is not supported for provider `"@ + provider + "`"@,
        ErrorV::MissingConfig(s) => "missing required config: "@ + s,
        ErrorV::Api { status, message } => "API error ("@ + decimal_text(status as nat) + "): "@
            + message,
        ErrorV::Http => Seq::empty(),
        ErrorV::Parse(s) => "failed to parse API response: "@ + s,
        ErrorV::MissingField(s) => "API response missing expected field: "@ + s,
    }
}

/// Calls `Display` of `reqwest::Error`; nothing is stated of the text.
#[verifier::external_body]
fn transport_text(e: &TransportError) -> String {
    e.to_string()
}

/// `parts` one after the other.
fn concat(first: &str, rest: &[&str]) -> (r: String)
    ensures
        r@ == rest@.fold_left(first@, |acc: Seq<char>, p: &str| acc + p@),
{
    let mut r = first.to_string();
    let mut i: usize = 0;
    while i < rest.len()
        invariant
            0 <= i <= rest@.len(),
            r@ == rest@.take(i as int).fold_left(first@, |acc: Seq<char>, p: &str| acc + p@),
        decreases rest@.len() - i,
    {
        r.append(rest[i]);
        proof {
            assert(rest@.take(i + 1).drop_last() =~= rest@.take(i as int));
        }
        i = i + 1;
    }
    proof {
        assert(rest@.take(rest@.len() as int) =~= rest@);
    }
    r
}

impl Error {
    /// The text of the error; a transport failure is described by the
    /// transport.
    pub fn message(&self) -> (r: String)
        ensures
            !(self is Http) ==> r@ == error_text(self.deep_view()),
    {
        match self {
            Error::UnknownProvider(s) => {
                let parts = [s.as_str()];
                proof {
                    reveal_with_fuel(Seq::fold_left, 2);
                }
                concat("unknown provider name: ", &parts)
            },
            Error::ProviderDisabled(s) => {
                let parts = [s.as_str(), "` is not enabled (Cargo feature or modality)"];
                proof {
                    reveal_with_fuel(Seq::fold_left, 3);
                }
                concat("provider `", &parts)
            },
            Error::Unsupported { provider, capability } => {
                let parts = [*capability, "` is not supported for provider `", provider.as_str(), "`"];
                proof {
                    reveal_with_fuel(Seq::fold_left, 5);
                }
                concat("capability `", &parts)
            },
            Error::MissingConfig(s) => {
                let parts = [*s];
                proof {
                    reveal_with_fuel(Seq::fold_left, 2);
                }
                concat("missing required config: ", &parts)
            },
            Error::Api { status, message } => {
                let n = usize_to_text(*status as usize);
                let parts = [n.as_str(), "): ", message.as_str()];
                proof {
                    reveal_with_fuel(Seq::fold_left, 4);
                }
                concat("API error (", &parts)
            },
            Error::Http(e) => transport_text(e),
            Error::Parse(s) => {
                let parts = [s.as_str()];
                proof {
                    reveal_with_fuel(Seq::fold_left, 2);
                }
                concat("failed to parse API response: ", &parts)
            },
            Error::MissingField(s) => {
                let parts = [*s];
                proof {
                    reveal_with_fuel(Seq::fold_left, 2);
                }
                concat("API response missing expected field: ", &parts)
            },
        }
    }
}

} // verus!
