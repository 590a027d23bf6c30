//! The error taxonomy of the transform pipeline.
//!
//! Every failure is terminal for the unit being processed and carries enough
//! structure for the caller to anchor a diagnostic at the most specific known
//! source location: a single argument token, the annotation's whole argument
//! list, or the whole annotated unit.

use vstd::prelude::*;

verus! {

/// Where a diagnostic should be anchored.
#[derive(Clone, Copy, Debug, PartialEq, Eq, Structural)]
pub enum SpanRef {
    /// The annotation's whole argument list.
    Args,
    /// The argument token at index `at` of the annotation's argument list.
    Arg { at: usize },
    /// The whole annotated unit (the original declaration or block).
    Unit,
}

/// What a modeled parser diagnostic says.
#[derive(Clone, Copy, Debug, PartialEq, Eq, Structural)]
pub enum SynMessage {
    /// An argument name outside the recognized set.
    UnsupportedProperty,
    /// A `prompt` or `model` argument whose literal is not a text literal.
    ExpectedStringLit,
    /// A sampling-control argument whose literal is not a float literal.
    ExpectedFloatLit,
    /// A `max_tokens` argument whose literal is not an integer literal.
    ExpectedIntLit,
    /// An integer literal too large for the declared field.
    IntOutOfRange,
    /// Argument tokens that do not form a `name = literal` list.
    ExpectedNameValue,
    /// Arguments given on a wrapping block, where none are allowed.
    ArgsOnBlock,
    /// Generated text that does not form valid replacement code.
    InvalidBody,
}

/// A parser diagnostic: a message anchored to a source location.
#[derive(Clone, Copy, Debug, PartialEq, Eq, Structural)]
pub struct SynError {
    pub message: SynMessage,
    pub at: SpanRef,
}

/// A misuse of the transform that is not a parse failure.
#[derive(Clone, Copy, Debug, PartialEq, Eq, Structural)]
pub enum UsageMessage {
    /// The annotated item is neither a wrapping block nor a declaration.
    UnsupportedItem,
    /// The API key configuration value is absent.
    MissingApiKey,
    /// The default-model configuration value is absent.
    MissingApiModel,
}

/// A failure that fits no other variant.
#[derive(Clone, Copy, Debug, PartialEq, Eq, Structural)]
pub enum OtherMessage {
    /// The service returned no usable choice.
    UnableToGenerate,
}

/// A failure of one transform unit.
#[derive(Clone, Debug, PartialEq, Eq)]
pub enum Error {
    /// Malformed or disallowed use of the annotation, or missing configuration.
    InvalidUsage(UsageMessage),
    /// A structural parse failure, in the arguments or in generated text.
    Syn(SynError),
    /// A transport or protocol failure reported by the service, as text.
    OpenAI(String),
    /// A failure to read a configuration value that was present, as text.
    Env(String),
    /// Any other failure.
    Other(OtherMessage),
}

impl SynMessage {
    /// The diagnostic wording of this message.
    pub open spec fn spec_text(self) -> Seq<char> {
        match self {
            SynMessage::UnsupportedProperty => "unsupported property"@,
            SynMessage::ExpectedStringLit => "expected string literal"@,
            SynMessage::ExpectedFloatLit => "expected float literal"@,
            SynMessage::ExpectedIntLit => "expected integer literal"@,
            SynMessage::IntOutOfRange => "integer literal out of range"@,
            SynMessage::ExpectedNameValue => "expected `name = literal` arguments"@,
            SynMessage::ArgsOnBlock => "Parameters are not supported in the top-level wrapping block."@,
            SynMessage::InvalidBody => "generated text does not form valid replacement code"@,
        }
    }

    /// Render the diagnostic wording.
    pub fn text(&self) -> (r: String)
        ensures
            r@ == self.spec_text(),
    {
        match self {
            SynMessage::UnsupportedProperty => "unsupported property".to_owned(),
            SynMessage::ExpectedStringLit => "expected string literal".to_owned(),
            SynMessage::ExpectedFloatLit => "expected float literal".to_owned(),
            SynMessage::ExpectedIntLit => "expected integer literal".to_owned(),
            SynMessage::IntOutOfRange => "integer literal out of range".to_owned(),
            SynMessage::ExpectedNameValue => "expected `name = literal` arguments".to_owned(),
            SynMessage::ArgsOnBlock => "Parameters are not supported in the top-level wrapping block.".to_owned(),
            SynMessage::InvalidBody => "generated text does not form valid replacement code".to_owned(),
        }
    }
}

impl UsageMessage {
    /// The diagnostic wording of this message.
    pub open spec fn spec_text(self) -> Seq<char> {
        match self {
            UsageMessage::UnsupportedItem => "The ai macro is not supported on this item"@,
            UsageMessage::MissingApiKey => "OPENAI_API_KEY environment variable must be defined."@,
            UsageMessage::MissingApiModel => "OPENAI_API_MODEL environment variable must be defined."@,
        }
    }

    /// Render the diagnostic wording.
    pub fn text(&self) -> (r: String)
        ensures
            r@ == self.spec_text(),
    {
        match self {
            UsageMessage::UnsupportedItem => "The ai macro is not supported on this item".to_owned(),
            UsageMessage::MissingApiKey => "OPENAI_API_KEY environment variable must be defined.".to_owned(),
            UsageMessage::MissingApiModel => "OPENAI_API_MODEL environment variable must be defined.".to_owned(),
        }
    }
}

impl OtherMessage {
    /// The diagnostic wording of this message.
    pub open spec fn spec_text(self) -> Seq<char> {
        match self {
            OtherMessage::UnableToGenerate => "Unable to generate rust code"@,
        }
    }

    /// Render the diagnostic wording.
    pub fn text(&self) -> (r: String)
        ensures
            r@ == self.spec_text(),
    {
        match self {
            OtherMessage::UnableToGenerate => "Unable to generate rust code".to_owned(),
        }
    }
}

impl Error {
    /// The full diagnostic wording of this failure: a prefix naming the
    /// error class, then the inner message.
    pub open spec fn spec_message(self) -> Seq<char> {
        match self {
            Error::InvalidUsage(m) => "Invalid usage: "@ + m.spec_text(),
            Error::Syn(e) => "Rust parser error: "@ + e.message.spec_text(),
            Error::OpenAI(s) => "OpenAI API error: "@ + s@,
            Error::Env(s) => "Environment error: "@ + s@,
            Error::Other(m) => "Other error: "@ + m.spec_text(),
        }
    }

    /// Render the full diagnostic wording.
    pub fn message(&self) -> (r: String)
        ensures
            r@ == self.spec_message(),
    {
        match self {
            Error::InvalidUsage(m) => "Invalid usage: ".to_owned().concat(m.text().as_str()),
            Error::Syn(e) => "Rust parser error: ".to_owned().concat(e.message.text().as_str()),
            Error::OpenAI(s) => "OpenAI API error: ".to_owned().concat(s.as_str()),
            Error::Env(s) => "Environment error: ".to_owned().concat(s.as_str()),
            Error::Other(m) => "Other error: ".to_owned().concat(m.text().as_str()),
        }
    }
}

} // verus!
