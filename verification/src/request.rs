//! The request composer: merging the annotation's parameters with the
//! resolved credentials and the declaration's rendered signature into one
//! deterministic generation request.

use crate::attributes::Attributes;
use crate::credentials::Credentials;
use vstd::prelude::*;

verus! {

/// The instruction used when the declaration gives no `prompt` argument.
pub open spec fn spec_fallback_intent() -> Seq<char> {
    "No explanation given, figure it out from the function signature"@
}

/// The intent text of a request: the given prompt, or the fallback.
pub open spec fn spec_intent(prompt: Option<String>) -> Seq<char> {
    match prompt {
        Some(p) => p@,
        None => spec_fallback_intent(),
    }
}

/// The full prompt text sent to the service: a fixed template with the
/// rendered signature and the intent placed verbatim.
pub open spec fn spec_message(signature: Seq<char>, intent: Seq<char>) -> Seq<char> {
    "Implement the body of the following Rust function declaration. Signature: "@ + signature
        + ". Intent: "@ + intent
        + ". Reply with only the Rust statements of the body, without markdown fences and without surrounding braces."@
}

/// Render the prompt text for a declaration whose signature renders as
/// `signature`, under the intent text `prompt`.
pub fn make_message(signature: &str, prompt: &str) -> (r: String)
    ensures
        r@ == spec_message(signature@, prompt@),
{
    let r = "Implement the body of the following Rust function declaration. Signature: "
        .to_owned()
        .concat(signature)
        .concat(". Intent: ")
        .concat(prompt)
        .concat(
            ". Reply with only the Rust statements of the body, without markdown fences and without surrounding braces.",
        );
    proof {
        assert(r@ =~= spec_message(signature@, prompt@));
    }
    r
}

/// One chat-style generation request, fully determined by the parameters,
/// the resolved credentials and the signature text.
#[derive(Clone, Debug, PartialEq, Eq)]
pub struct GenerationRequest {
    /// The model to ask: the annotation's choice, or the resolved default.
    pub model: String,

    /// The single user-role message carrying the composed prompt.
    pub prompt_text: String,

    /// Temperature, passed through as its float literal text.
    pub temperature: Option<String>,

    /// Top probability mass, passed through as its float literal text.
    pub top_p: Option<String>,

    /// Presence penalty, passed through as its float literal text.
    pub presence_penalty: Option<String>,

    /// Frequency penalty, passed through as its float literal text.
    pub frequency_penalty: Option<String>,

    /// Maximum tokens, passed through.
    pub max_tokens: Option<i32>,
}

impl GenerationRequest {
    /// Compose the request for a declaration whose signature renders as
    /// `signature`, merging the annotation's parameters with the resolved
    /// credentials.  Unset sampling controls stay unset: the service reads
    /// that as "use the service default".
    pub fn compose(attr: &Attributes, creds: &Credentials, signature: &str) -> (r:
        GenerationRequest)
        ensures
            r.model@ == match attr.model {
                Some(m) => m@,
                None => creds.api_model@,
            },
            r.prompt_text@ == spec_message(signature@, spec_intent(attr.prompt)),
            r.temperature == attr.temperature,
            r.top_p == attr.top_p,
            r.presence_penalty == attr.presence_penalty,
            r.frequency_penalty == attr.frequency_penalty,
            r.max_tokens == attr.max_tokens,
    {
        let model = match &attr.model {
            Some(m) => m.clone(),
            None => creds.api_model.clone(),
        };
        let prompt_text = match &attr.prompt {
            Some(p) => make_message(signature, p.as_str()),
            None => make_message(
                signature,
                "No explanation given, figure it out from the function signature",
            ),
        };
        GenerationRequest {
            model,
            prompt_text,
            temperature: clone_text(&attr.temperature),
            top_p: clone_text(&attr.top_p),
            presence_penalty: clone_text(&attr.presence_penalty),
            frequency_penalty: clone_text(&attr.frequency_penalty),
            max_tokens: attr.max_tokens,
        }
    }
}

/// Clone an optional text value.
fn clone_text(t: &Option<String>) -> (r: Option<String>)
    ensures
        r == *t,
{
    match t {
        Some(s) => Some(s.clone()),
        None => None,
    }
}

} // verus!
