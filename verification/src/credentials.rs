//! Resolution of the service credentials and endpoint.
//!
//! The three configuration values are read by the caller (they live in the
//! process environment) and handed in as plain optional strings; the rules
//! for which are required, which default, and how the endpoint is
//! normalized are decided here.

use crate::error::{Error, UsageMessage};
use vstd::prelude::*;

verus! {

/// The resolved service credentials and endpoint, read-only once built.
#[derive(Clone, Debug, PartialEq, Eq)]
pub struct Credentials {
    /// Valid API token.
    pub api_key: String,

    /// Name of the model to use by default.
    pub api_model: String,

    /// API endpoint to make the requests to, always ending in `/`.
    pub api_url: String,
}

/// The endpoint used when no `OPENAI_API_URL` value is configured.
pub open spec fn spec_default_api_url() -> Seq<char> {
    "https://api.openai.com/v1/"@
}

/// `s` with a trailing `/` appended unless one is already there.
pub open spec fn with_trailing_slash(s: Seq<char>) -> Seq<char> {
    if s.len() > 0 && s.last() == '/' {
        s
    } else {
        s.push('/')
    }
}

/// Append a trailing `/` to `url` unless it already ends with one, so a
/// path segment can be joined onto it without gluing names together.
pub fn ensure_trailing_slash(url: String) -> (r: String)
    ensures
        r@ == with_trailing_slash(url@),
{
    let n: usize = url.as_str().unicode_len();
    if n > 0 && url.as_str().get_char(n - 1) == '/' {
        url
    } else {
        let mut out = url;
        let ghost u: Seq<char> = out@;
        out.append("/");
        proof {
            reveal_strlit("/");
            assert(out@ =~= with_trailing_slash(u));
        }
        out
    }
}

impl Credentials {
    /// Turn the three raw configuration values into resolved credentials.
    ///
    /// The key and the default model are required; the endpoint defaults to
    /// the well-known service URL and is always normalized to end with `/`.
    pub fn resolve(
        api_key: Option<String>,
        api_model: Option<String>,
        api_url: Option<String>,
    ) -> (r: Result<Credentials, Error>)
        ensures
            api_key is None ==> r == Err::<Credentials, Error>(
                Error::InvalidUsage(UsageMessage::MissingApiKey),
            ),
            api_key is Some && api_model is None ==> r == Err::<Credentials, Error>(
                Error::InvalidUsage(UsageMessage::MissingApiModel),
            ),
            api_key is Some && api_model is Some ==> {
                &&& r is Ok
                &&& r->Ok_0.api_key == api_key->0
                &&& r->Ok_0.api_model == api_model->0
                &&& r->Ok_0.api_url@ == with_trailing_slash(
                    if api_url is Some { api_url->0@ } else { spec_default_api_url() },
                )
            },
    {
        let key = match api_key {
            Some(k) => k,
            None => {
                return Err(Error::InvalidUsage(UsageMessage::MissingApiKey));
            },
        };
        let model = match api_model {
            Some(m) => m,
            None => {
                return Err(Error::InvalidUsage(UsageMessage::MissingApiModel));
            },
        };
        let raw_url = match api_url {
            Some(u) => u,
            None => "https://api.openai.com/v1/".to_owned(),
        };
        Ok(Credentials {
            api_key: key,
            api_model: model,
            api_url: ensure_trailing_slash(raw_url),
        })
    }
}

} // verus!
