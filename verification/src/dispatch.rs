//! The transform dispatcher: routing an annotated unit by its shape,
//! re-emitting a wrapping block's items, and splicing generated text back
//! into a single declaration after re-validating it.
//!
//! The service round trip itself is the caller's work: `dispatch` decides
//! what to do and composes the request, the caller performs the exchange,
//! and `finish_declaration` judges whatever came back.  Generated text is
//! treated as untrusted: it is re-checked by the same parser primitive that
//! first-class input goes through, and a failure is anchored to the
//! original declaration, never to a location inside the opaque text.

use crate::attributes::{ArgToken, Attributes};
use crate::error::{Error, OtherMessage, SpanRef, SynError, SynMessage, UsageMessage};
use vstd::prelude::*;

verus! {

/// A single declaration to complete: its signature-only parts, each as
/// rendered source text, preserved verbatim across the transform.
#[derive(Clone, Debug, PartialEq, Eq)]
pub struct Declaration {
    /// The leading annotations other than the generation annotation.
    pub attrs: Vec<String>,

    /// The visibility, possibly empty.
    pub vis: String,

    /// The full signature: name, parameter list, return type.
    pub sig: String,
}

/// An annotated unit, classified by shape.  The host parser does the
/// classifying; everything after that is decided here.
#[derive(Clone, Debug, PartialEq, Eq)]
pub enum AnnotatedUnit {
    /// A wrapping block of declarations, re-emitted as written.
    WrappingBlock { attr: Vec<ArgToken>, items: Vec<String> },
    /// One signature-only declaration to complete.
    SingleDeclaration { attr: Vec<ArgToken>, decl: Declaration },
    /// Anything else: always a usage error.
    Unsupported,
}

/// What the caller must do next for a unit that did not fail outright.
#[derive(Clone, Debug, PartialEq, Eq)]
pub enum Step {
    /// Replacement source, ready to emit as it stands.
    Emit { source: String },
    /// Resolve credentials, compose the request for these parameters and
    /// this declaration's signature, perform one service exchange, then
    /// hand the returned choices and this same declaration to
    /// `finish_declaration`.  Credentials are demanded only here: a plain
    /// re-emit never needs them.
    Invoke { params: Attributes, decl: Declaration },
}

/// Whether `s` lexes as a balanced Rust token stream, so that it can stand
/// between braces as a function body.  Deterministic in `s` alone; the
/// host language's parser is the authority on its value.
pub uninterp spec fn body_parses(s: Seq<char>) -> bool;

/// Relies on `syn::parse_str::<proc_macro2::TokenStream>`: it accepts
/// exactly the strings that lex as balanced Rust token streams, and its
/// verdict depends on the text alone.  One caveat: the verdict is fixed
/// within one process, but a build lexing through the compiler's own
/// lexer can judge edition-reserved edge forms differently from one using
/// the fallback lexer the two crates carry.
#[verifier::external_body]
fn parses_as_body(s: &str) -> (r: bool)
    ensures
        r == body_parses(s@),
{
    syn::parse_str::<proc_macro2::TokenStream>(s).is_ok()
}

/// The items of a wrapping block, re-emitted in order, one per line.
pub open spec fn spec_items_text(items: Seq<Seq<char>>) -> Seq<char>
    decreases items.len(),
{
    if items.len() == 0 {
        Seq::empty()
    } else {
        spec_items_text(items.drop_last()) + items.last() + "\n"@
    }
}

/// The replacement declaration: the preserved annotations, a lint silencer
/// (the generated body cannot be curated by hand), the preserved
/// visibility and signature, and the new body between braces.
pub open spec fn spec_splice(decl: Declaration, body: Seq<char>) -> Seq<char> {
    spec_attrs_text(decl.attrs.deep_view()) + "#[allow(warnings)] "@ + decl.vis@ + " "@
        + decl.sig@ + " { "@ + body + " }"@
}

/// The preserved annotations, each followed by one space.
pub open spec fn spec_attrs_text(attrs: Seq<Seq<char>>) -> Seq<char>
    decreases attrs.len(),
{
    if attrs.len() == 0 {
        Seq::empty()
    } else {
        spec_attrs_text(attrs.drop_last()) + attrs.last() + " "@
    }
}

/// Law: the spliced replacement carries the declaration's visibility and
/// signature verbatim, at fixed offsets after the preserved annotations,
/// and the body text verbatim between the braces — so call sites see an
/// unchanged signature whatever the service returned.
pub proof fn lemma_splice_preserves_declaration(decl: Declaration, body: Seq<char>)
    ensures
        ({
            let out = spec_splice(decl, body);
            let lint = "#[allow(warnings)] "@;
            let a = spec_attrs_text(decl.attrs.deep_view()).len() as int;
            let v = decl.vis@.len() as int;
            let s = decl.sig@.len() as int;
            &&& out.subrange(a + lint.len(), a + lint.len() + v) == decl.vis@
            &&& out.subrange(a + lint.len() + v + 1, a + lint.len() + v + 1 + s) == decl.sig@
            &&& out.subrange(
                a + lint.len() + v + 1 + s + " { "@.len(),
                a + lint.len() + v + 1 + s + " { "@.len() + body.len() as int,
            ) == body
        }),
{
    reveal_strlit(" ");
    reveal_strlit(" { ");
    reveal_strlit(" }");
    let out = spec_splice(decl, body);
    let lint = "#[allow(warnings)] "@;
    let a = spec_attrs_text(decl.attrs.deep_view()).len() as int;
    let v = decl.vis@.len() as int;
    let s = decl.sig@.len() as int;
    assert(out.subrange(a + lint.len(), a + lint.len() + v) =~= decl.vis@);
    assert(out.subrange(a + lint.len() + v + 1, a + lint.len() + v + 1 + s) =~= decl.sig@);
    assert(out.subrange(
        a + lint.len() + v + 1 + s + " { "@.len(),
        a + lint.len() + v + 1 + s + " { "@.len() + body.len() as int,
    ) =~= body);
}

/// Re-emit a wrapping block's inner items, verbatim and in order.
/// Arguments are forbidden on the block itself: any argument token at all
/// is a usage error anchored to the argument list, and no inner item is
/// reached.
pub fn transform_block(attr: &Vec<ArgToken>, items: &Vec<String>) -> (r: Result<String, Error>)
    ensures
        attr@.len() > 0 ==> r == Err::<String, Error>(
            Error::Syn(SynError { message: SynMessage::ArgsOnBlock, at: SpanRef::Args }),
        ),
        attr@.len() == 0 ==> (r matches Ok(s) && s@ == spec_items_text(items.deep_view())),
{
    if attr.len() > 0 {
        return Err(Error::Syn(SynError { message: SynMessage::ArgsOnBlock, at: SpanRef::Args }));
    }
    let mut out = String::new();
    let n: usize = items.len();
    let mut i: usize = 0;
    while i < n
        invariant
            i <= n,
            n == items@.len(),
            out@ == spec_items_text(items.deep_view().take(i as int)),
        decreases n - i,
    {
        out.append(items[i].as_str());
        out.append("\n");
        proof {
            reveal_strlit("\n");
            assert(items.deep_view().take(i + 1).drop_last() =~= items.deep_view().take(i as int));
            assert(items.deep_view().take(i + 1).last() == items@[i as int]@);
            assert(out@ =~= spec_items_text(items.deep_view().take(i + 1)));
        }
        i = i + 1;
    }
    proof {
        assert(items.deep_view().take(n as int) =~= items.deep_view());
    }
    Ok(out)
}

/// Take the first usable generated text out of the service's choices: the
/// first choice's message content.  No choices, or a first choice with no
/// content, is the distinct "unable to generate" failure, not a transport
/// error.
pub fn extract_generated(choices: Vec<Option<String>>) -> (r: Result<String, Error>)
    ensures
        choices@.len() == 0 || choices@[0] is None ==> r == Err::<String, Error>(
            Error::Other(OtherMessage::UnableToGenerate),
        ),
        choices@.len() > 0 && choices@[0] is Some ==> r == Ok::<String, Error>(
            choices@[0]->0,
        ),
{
    let mut choices = choices;
    if choices.len() == 0 {
        return Err(Error::Other(OtherMessage::UnableToGenerate));
    }
    let head = choices.remove(0);
    match head {
        Some(content) => Ok(content),
        None => Err(Error::Other(OtherMessage::UnableToGenerate)),
    }
}

/// Splice generated text into the declaration as its body, after checking
/// that the text forms valid replacement code.  A text that does not parse
/// is rejected with a diagnostic anchored to the original declaration,
/// never to a location inside the generated text.
pub fn splice_replacement(decl: &Declaration, body: &str) -> (r: Result<String, Error>)
    ensures
        body_parses(body@) ==> (r matches Ok(s) && s@ == spec_splice(*decl, body@)),
        !body_parses(body@) ==> r == Err::<String, Error>(
            Error::Syn(SynError { message: SynMessage::InvalidBody, at: SpanRef::Unit }),
        ),
{
    if !parses_as_body(body) {
        return Err(Error::Syn(SynError { message: SynMessage::InvalidBody, at: SpanRef::Unit }));
    }
    let mut out = String::new();
    let n: usize = decl.attrs.len();
    let mut i: usize = 0;
    while i < n
        invariant
            i <= n,
            n == decl.attrs@.len(),
            out@ == spec_attrs_text(decl.attrs.deep_view().take(i as int)),
        decreases n - i,
    {
        out.append(decl.attrs[i].as_str());
        out.append(" ");
        proof {
            reveal_strlit(" ");
            assert(decl.attrs.deep_view().take(i + 1).drop_last() =~= decl.attrs.deep_view().take(
                i as int,
            ));
            assert(decl.attrs.deep_view().take(i + 1).last() == decl.attrs@[i as int]@);
            assert(out@ =~= spec_attrs_text(decl.attrs.deep_view().take(i + 1)));
        }
        i = i + 1;
    }
    proof {
        assert(decl.attrs.deep_view().take(n as int) =~= decl.attrs.deep_view());
    }
    out.append("#[allow(warnings)] ");
    out.append(decl.vis.as_str());
    out.append(" ");
    out.append(decl.sig.as_str());
    out.append(" { ");
    out.append(body);
    out.append(" }");
    proof {
        assert(out@ =~= spec_splice(*decl, body@));
    }
    Ok(out)
}

/// Route an annotated unit by its shape.
///
/// A wrapping block is re-emitted (or rejected if it carries arguments); a
/// single declaration has its arguments parsed and comes back as an
/// `Invoke` step, for the caller to resolve credentials, compose the
/// request and perform the exchange; any other shape is a usage error.
/// On any failure nothing is emitted in place of valid code.
pub fn dispatch(unit: AnnotatedUnit) -> (r: Result<Step, Error>)
    ensures
        unit is Unsupported ==> r == Err::<Step, Error>(
            Error::InvalidUsage(UsageMessage::UnsupportedItem),
        ),
        unit matches AnnotatedUnit::WrappingBlock { attr, items } ==> {
            &&& attr@.len() > 0 ==> r == Err::<Step, Error>(
                Error::Syn(SynError { message: SynMessage::ArgsOnBlock, at: SpanRef::Args }),
            )
            &&& attr@.len() == 0 ==> (r matches Ok(s) && s matches Step::Emit { source }
                && source@ == spec_items_text(items.deep_view()))
        },
        unit matches AnnotatedUnit::SingleDeclaration { attr, decl } ==> {
            match Attributes::spec_parse(attr@, Attributes::spec_default(), 0) {
                Err(e) => r == Err::<Step, Error>(Error::Syn(e)),
                Ok(a) => r == Ok::<Step, Error>(Step::Invoke { params: a, decl }),
            }
        },
{
    match unit {
        AnnotatedUnit::Unsupported => Err(Error::InvalidUsage(UsageMessage::UnsupportedItem)),
        AnnotatedUnit::WrappingBlock { attr, items } => {
            match transform_block(&attr, &items) {
                Ok(source) => Ok(Step::Emit { source }),
                Err(e) => Err(e),
            }
        },
        AnnotatedUnit::SingleDeclaration { attr, decl } => {
            match Attributes::new(attr) {
                Ok(params) => Ok(Step::Invoke { params, decl }),
                Err(e) => Err(e),
            }
        },
    }
}

/// Judge the service's reply for a declaration: take the first usable
/// choice, re-validate it as replacement code, and splice it in under the
/// declaration's own annotations, visibility and signature.
pub fn finish_declaration(decl: &Declaration, choices: Vec<Option<String>>) -> (r: Result<
    String,
    Error,
>)
    ensures
        choices@.len() == 0 || choices@[0] is None ==> r == Err::<String, Error>(
            Error::Other(OtherMessage::UnableToGenerate),
        ),
        choices@.len() > 0 && choices@[0] is Some ==> ({
            let body = choices@[0]->0;
            &&& body_parses(body@) ==> (r matches Ok(s) && s@ == spec_splice(*decl, body@))
            &&& !body_parses(body@) ==> r == Err::<String, Error>(
                Error::Syn(SynError { message: SynMessage::InvalidBody, at: SpanRef::Unit }),
            )
        }),
{
    let body = match extract_generated(choices) {
        Ok(b) => b,
        Err(e) => {
            return Err(e);
        },
    };
    splice_replacement(decl, body.as_str())
}

} // verus!
