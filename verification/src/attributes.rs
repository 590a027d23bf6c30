//! The parameter model: recognized generation options and the validating
//! parser over the annotation's argument grammar.
//!
//! The argument surface is a fixed, case-sensitive, named-argument grammar,
//! `name = literal` pairs separated by commas (a trailing comma is allowed).
//! An argument name outside the recognized set is a hard error, as is a
//! literal of the wrong kind for its name.  A repeated argument name is not
//! an error: the last occurrence wins.  A numeric literal may carry a
//! leading minus sign, folded into the literal's text, as the host parser
//! reads signed literal values.
//!
//! Sampling controls are float-valued at the service; the verified core
//! carries each as the literal's base-10 text, written exactly as the
//! declaration author gave it, and the caller converts it at the service
//! boundary.  This keeps machine floats out of the verified pipeline while
//! round-tripping the literal exactly.

use crate::error::{Error, SpanRef, SynError, SynMessage};
use vstd::prelude::*;

verus! {

/// One token of the annotation's argument list, as plain values.  The host
/// language's lexer is the primitive that produces these; this crate only
/// parses the grammar over them.
#[derive(Clone, Debug, PartialEq, Eq)]
pub enum ArgToken {
    /// An identifier, such as an argument name.
    Ident { name: String },
    /// The `=` punctuation.
    Eq,
    /// The `,` punctuation.
    Comma,
    /// A text literal, carrying its unescaped contents.
    LitStr { value: String },
    /// A float literal, carrying its text as written, with a leading `-`
    /// when negative.
    LitFloat { text: String },
    /// An integer literal, carrying its base-10 digits, with a leading `-`
    /// when negative.
    LitInt { digits: String },
    /// Any other token; never part of a well-formed argument list.
    Other,
}

/// The parameters of the generation annotation.  Every field is optional;
/// an absent field defers to a default resolved downstream.
#[derive(Clone, Debug, PartialEq, Eq)]
pub struct Attributes {
    /// The text passed to the `prompt` argument.
    pub prompt: Option<String>,

    /// The identifier of the model to use.
    pub model: Option<String>,

    /// Temperature parameter, as its float literal text.
    pub temperature: Option<String>,

    /// Top probability mass parameter, as its float literal text.
    pub top_p: Option<String>,

    /// Presence penalty parameter, as its float literal text.
    pub presence_penalty: Option<String>,

    /// Frequency penalty parameter, as its float literal text.
    pub frequency_penalty: Option<String>,

    /// Maximum tokens.
    pub max_tokens: Option<i32>,
}

/// Whether `c` is an ASCII decimal digit.
pub open spec fn is_digit(c: char) -> bool {
    48 <= c as u32 && c as u32 <= 57
}

/// Whether every character of `s` is an ASCII decimal digit.
pub open spec fn all_digits(s: Seq<char>) -> bool {
    forall|i: int| 0 <= i < s.len() ==> is_digit(#[trigger] s[i])
}

/// The value of `s` read as base-10 digits.
pub open spec fn digits_val(s: Seq<char>) -> int
    decreases s.len(),
{
    if s.len() == 0 {
        0
    } else {
        digits_val(s.drop_last()) * 10 + (s.last() as u32 - 48)
    }
}

/// Whether an integer literal's text opens with a minus sign.
pub open spec fn lit_is_negative(s: Seq<char>) -> bool {
    s.len() > 0 && s[0] == '-'
}

/// The magnitude digits of a possibly signed integer literal's text.
pub open spec fn lit_digits(s: Seq<char>) -> Seq<char> {
    if lit_is_negative(s) {
        s.skip(1)
    } else {
        s
    }
}

/// The value of a possibly signed integer literal's text.
pub open spec fn lit_int_value(s: Seq<char>) -> int {
    if lit_is_negative(s) {
        -digits_val(lit_digits(s))
    } else {
        digits_val(lit_digits(s))
    }
}

impl Default for Attributes {
    /// All fields unset.
    fn default() -> (r: Attributes)
        ensures
            r == Attributes::spec_default(),
    {
        Attributes {
            prompt: None,
            model: None,
            temperature: None,
            top_p: None,
            presence_penalty: None,
            frequency_penalty: None,
            max_tokens: None,
        }
    }
}

impl Attributes {
    /// The parameter set with every field unset.
    pub open spec fn spec_default() -> Attributes {
        Attributes {
            prompt: None,
            model: None,
            temperature: None,
            top_p: None,
            presence_penalty: None,
            frequency_penalty: None,
            max_tokens: None,
        }
    }

    /// What parsing the argument tokens `toks` yields, starting from the
    /// already-accumulated parameters `acc`, where `toks` begins at index
    /// `pos` of the annotation's full argument list.
    ///
    /// The grammar is `name = literal` groups separated by commas, with a
    /// trailing comma allowed.  A later occurrence of a name overwrites an
    /// earlier one.  Each error is anchored at the offending token's index.
    pub open spec fn spec_parse(toks: Seq<ArgToken>, acc: Attributes, pos: int) -> Result<
        Attributes,
        SynError,
    >
        decreases toks.len(),
    {
        if toks.len() == 0 {
            Ok(acc)
        } else {
            match toks[0] {
                ArgToken::Ident { name } => {
                    if !Self::spec_recognized(name@) {
                        Err(
                            SynError {
                                message: SynMessage::UnsupportedProperty,
                                at: SpanRef::Arg { at: pos as usize },
                            },
                        )
                    } else if toks.len() < 3 || !(toks[1] matches ArgToken::Eq) {
                        Err(
                            SynError {
                                message: SynMessage::ExpectedNameValue,
                                at: SpanRef::Arg { at: (pos + 1) as usize },
                            },
                        )
                    } else {
                        match Self::spec_set_field(acc, name@, toks[2], pos + 2) {
                            Err(e) => Err(e),
                            Ok(acc2) => {
                                if toks.len() == 3 {
                                    Ok(acc2)
                                } else if (toks[3] matches ArgToken::Comma) {
                                    Self::spec_parse(toks.skip(4), acc2, pos + 4)
                                } else {
                                    Err(
                                        SynError {
                                            message: SynMessage::ExpectedNameValue,
                                            at: SpanRef::Arg { at: (pos + 3) as usize },
                                        },
                                    )
                                }
                            },
                        }
                    }
                },
                _ => Err(
                    SynError {
                        message: SynMessage::ExpectedNameValue,
                        at: SpanRef::Arg { at: pos as usize },
                    },
                ),
            }
        }
    }

    /// Whether `name` is one of the recognized argument names.
    pub open spec fn spec_recognized(name: Seq<char>) -> bool {
        ||| name == "prompt"@
        ||| name == "model"@
        ||| name == "temperature"@
        ||| name == "top_p"@
        ||| name == "presence_penalty"@
        ||| name == "frequency_penalty"@
        ||| name == "max_tokens"@
    }

    /// What storing the literal `lit` (standing at index `pos`) under the
    /// recognized argument `name` does to the accumulated parameters.
    pub open spec fn spec_set_field(
        acc: Attributes,
        name: Seq<char>,
        lit: ArgToken,
        pos: int,
    ) -> Result<Attributes, SynError> {
        if name == "prompt"@ {
            match lit {
                ArgToken::LitStr { value } => Ok(Attributes { prompt: Some(value), ..acc }),
                _ => Err(
                    SynError {
                        message: SynMessage::ExpectedStringLit,
                        at: SpanRef::Arg { at: pos as usize },
                    },
                ),
            }
        } else if name == "model"@ {
            match lit {
                ArgToken::LitStr { value } => Ok(Attributes { model: Some(value), ..acc }),
                _ => Err(
                    SynError {
                        message: SynMessage::ExpectedStringLit,
                        at: SpanRef::Arg { at: pos as usize },
                    },
                ),
            }
        } else if name == "temperature"@ {
            match lit {
                ArgToken::LitFloat { text } => Ok(Attributes { temperature: Some(text), ..acc }),
                _ => Err(
                    SynError {
                        message: SynMessage::ExpectedFloatLit,
                        at: SpanRef::Arg { at: pos as usize },
                    },
                ),
            }
        } else if name == "top_p"@ {
            match lit {
                ArgToken::LitFloat { text } => Ok(Attributes { top_p: Some(text), ..acc }),
                _ => Err(
                    SynError {
                        message: SynMessage::ExpectedFloatLit,
                        at: SpanRef::Arg { at: pos as usize },
                    },
                ),
            }
        } else if name == "presence_penalty"@ {
            match lit {
                ArgToken::LitFloat { text } => Ok(
                    Attributes { presence_penalty: Some(text), ..acc },
                ),
                _ => Err(
                    SynError {
                        message: SynMessage::ExpectedFloatLit,
                        at: SpanRef::Arg { at: pos as usize },
                    },
                ),
            }
        } else if name == "frequency_penalty"@ {
            match lit {
                ArgToken::LitFloat { text } => Ok(
                    Attributes { frequency_penalty: Some(text), ..acc },
                ),
                _ => Err(
                    SynError {
                        message: SynMessage::ExpectedFloatLit,
                        at: SpanRef::Arg { at: pos as usize },
                    },
                ),
            }
        } else {
            // name == "max_tokens"@, the last recognized argument
            match lit {
                ArgToken::LitInt { digits } => {
                    if lit_digits(digits@).len() == 0 || !all_digits(lit_digits(digits@)) {
                        Err(
                            SynError {
                                message: SynMessage::ExpectedIntLit,
                                at: SpanRef::Arg { at: pos as usize },
                            },
                        )
                    } else if lit_int_value(digits@) > i32::MAX || lit_int_value(digits@)
                        < i32::MIN {
                        Err(
                            SynError {
                                message: SynMessage::IntOutOfRange,
                                at: SpanRef::Arg { at: pos as usize },
                            },
                        )
                    } else {
                        Ok(Attributes { max_tokens: Some(lit_int_value(digits@) as i32), ..acc })
                    }
                },
                _ => Err(
                    SynError {
                        message: SynMessage::ExpectedIntLit,
                        at: SpanRef::Arg { at: pos as usize },
                    },
                ),
            }
        }
    }

    /// Parse the annotation's argument tokens into a parameter set.
    ///
    /// Missing arguments are not errors; an unrecognized name or a literal
    /// of the wrong kind is, anchored at the offending token.
    pub fn new(attr: Vec<ArgToken>) -> (r: Result<Attributes, Error>)
        ensures
            Self::spec_parse(attr@, Self::spec_default(), 0) matches Ok(a) ==> r == Ok::<
                Attributes,
                Error,
            >(a),
            Self::spec_parse(attr@, Self::spec_default(), 0) matches Err(e) ==> r == Err::<
                Attributes,
                Error,
            >(Error::Syn(e)),
    {
        let mut acc = Attributes::default();
        let n: usize = attr.len();
        let mut i: usize = 0;
        proof {
            assert(attr@.skip(0) =~= attr@);
        }
        while i < n
            invariant
                i <= n,
                n == attr@.len(),
                Self::spec_parse(attr@, Self::spec_default(), 0) == Self::spec_parse(
                    attr@.skip(i as int),
                    acc,
                    i as int,
                ),
            decreases n - i,
        {
            let ghost toks = attr@.skip(i as int);
            let name = match &attr[i] {
                ArgToken::Ident { name } => name,
                _ => {
                    return Err(
                        Error::Syn(
                            SynError {
                                message: SynMessage::ExpectedNameValue,
                                at: SpanRef::Arg { at: i },
                            },
                        ),
                    );
                },
            };
            if !Self::recognized(name) {
                return Err(
                    Error::Syn(
                        SynError {
                            message: SynMessage::UnsupportedProperty,
                            at: SpanRef::Arg { at: i },
                        },
                    ),
                );
            }
            if n - i < 3 || !(matches!(&attr[i + 1], ArgToken::Eq)) {
                return Err(
                    Error::Syn(
                        SynError {
                            message: SynMessage::ExpectedNameValue,
                            at: SpanRef::Arg { at: i + 1 },
                        },
                    ),
                );
            }
            let name = name.clone();
            match Self::set_field(&mut acc, &name, &attr[i + 2], i + 2) {
                Err(e) => {
                    return Err(Error::Syn(e));
                },
                Ok(()) => {},
            }
            if n - i == 3 {
                i = i + 3;
                proof {
                    assert(toks.skip(3) =~= attr@.skip(i as int));
                }
            } else if matches!(&attr[i + 3], ArgToken::Comma) {
                i = i + 4;
                proof {
                    assert(toks.skip(4) =~= attr@.skip(i as int));
                }
            } else {
                return Err(
                    Error::Syn(
                        SynError {
                            message: SynMessage::ExpectedNameValue,
                            at: SpanRef::Arg { at: i + 3 },
                        },
                    ),
                );
            }
        }
        Ok(acc)
    }

    /// Whether `name` is one of the recognized argument names.
    pub fn recognized(name: &String) -> (r: bool)
        ensures
            r == Self::spec_recognized(name@),
    {
        *name == "prompt".to_owned() || *name == "model".to_owned() || *name
            == "temperature".to_owned() || *name == "top_p".to_owned() || *name
            == "presence_penalty".to_owned() || *name == "frequency_penalty".to_owned() || *name
            == "max_tokens".to_owned()
    }

    /// Store the literal `lit` (standing at argument index `pos`) under the
    /// recognized argument `name`.
    fn set_field(&mut self, name: &String, lit: &ArgToken, pos: usize) -> (r: Result<(), SynError>)
        requires
            Self::spec_recognized(name@),
        ensures
            match Self::spec_set_field(*old(self), name@, *lit, pos as int) {
                Ok(a) => r == Ok::<(), SynError>(()) && *final(self) == a,
                Err(e) => r == Err::<(), SynError>(e) && *final(self) == *old(self),
            },
    {
        if *name == "prompt".to_owned() {
            match lit {
                ArgToken::LitStr { value } => {
                    self.prompt = Some(value.clone());
                    Ok(())
                },
                _ => Err(
                    SynError {
                        message: SynMessage::ExpectedStringLit,
                        at: SpanRef::Arg { at: pos },
                    },
                ),
            }
        } else if *name == "model".to_owned() {
            match lit {
                ArgToken::LitStr { value } => {
                    self.model = Some(value.clone());
                    Ok(())
                },
                _ => Err(
                    SynError {
                        message: SynMessage::ExpectedStringLit,
                        at: SpanRef::Arg { at: pos },
                    },
                ),
            }
        } else if *name == "temperature".to_owned() {
            match lit {
                ArgToken::LitFloat { text } => {
                    self.temperature = Some(text.clone());
                    Ok(())
                },
                _ => Err(
                    SynError {
                        message: SynMessage::ExpectedFloatLit,
                        at: SpanRef::Arg { at: pos },
                    },
                ),
            }
        } else if *name == "top_p".to_owned() {
            match lit {
                ArgToken::LitFloat { text } => {
                    self.top_p = Some(text.clone());
                    Ok(())
                },
                _ => Err(
                    SynError {
                        message: SynMessage::ExpectedFloatLit,
                        at: SpanRef::Arg { at: pos },
                    },
                ),
            }
        } else if *name == "presence_penalty".to_owned() {
            match lit {
                ArgToken::LitFloat { text } => {
                    self.presence_penalty = Some(text.clone());
                    Ok(())
                },
                _ => Err(
                    SynError {
                        message: SynMessage::ExpectedFloatLit,
                        at: SpanRef::Arg { at: pos },
                    },
                ),
            }
        } else if *name == "frequency_penalty".to_owned() {
            match lit {
                ArgToken::LitFloat { text } => {
                    self.frequency_penalty = Some(text.clone());
                    Ok(())
                },
                _ => Err(
                    SynError {
                        message: SynMessage::ExpectedFloatLit,
                        at: SpanRef::Arg { at: pos },
                    },
                ),
            }
        } else {
            match lit {
                ArgToken::LitInt { digits } => {
                    match parse_i32_digits(digits) {
                        Ok(v) => {
                            self.max_tokens = Some(v);
                            Ok(())
                        },
                        Err(m) => Err(SynError { message: m, at: SpanRef::Arg { at: pos } }),
                    }
                },
                _ => Err(
                    SynError { message: SynMessage::ExpectedIntLit, at: SpanRef::Arg { at: pos } },
                ),
            }
        }
    }
}

/// Law: an argument whose name is recognized and whose literal is of the
/// required kind round-trips the literal exactly into the corresponding
/// typed field, leaving every other field unset.
pub proof fn lemma_argument_round_trip(name: String, lit: ArgToken)
    ensures
        ({
            let r = Attributes::spec_parse(
                seq![ArgToken::Ident { name }, ArgToken::Eq, lit],
                Attributes::spec_default(),
                0,
            );
            &&& name@ == "prompt"@ ==> (lit matches ArgToken::LitStr { value } ==> r == Ok::<
                Attributes,
                SynError,
            >(Attributes { prompt: Some(value), ..Attributes::spec_default() }))
            &&& name@ == "model"@ ==> (lit matches ArgToken::LitStr { value } ==> r == Ok::<
                Attributes,
                SynError,
            >(Attributes { model: Some(value), ..Attributes::spec_default() }))
            &&& name@ == "temperature"@ ==> (lit matches ArgToken::LitFloat { text } ==> r == Ok::<
                Attributes,
                SynError,
            >(Attributes { temperature: Some(text), ..Attributes::spec_default() }))
            &&& name@ == "top_p"@ ==> (lit matches ArgToken::LitFloat { text } ==> r == Ok::<
                Attributes,
                SynError,
            >(Attributes { top_p: Some(text), ..Attributes::spec_default() }))
            &&& name@ == "presence_penalty"@ ==> (lit matches ArgToken::LitFloat { text } ==> r
                == Ok::<Attributes, SynError>(
                Attributes { presence_penalty: Some(text), ..Attributes::spec_default() },
            ))
            &&& name@ == "frequency_penalty"@ ==> (lit matches ArgToken::LitFloat { text } ==> r
                == Ok::<Attributes, SynError>(
                Attributes { frequency_penalty: Some(text), ..Attributes::spec_default() },
            ))
            &&& name@ == "max_tokens"@ ==> (lit matches ArgToken::LitInt { digits } ==> (
            lit_digits(digits@).len() > 0 && all_digits(lit_digits(digits@)) && i32::MIN
                <= lit_int_value(digits@) <= i32::MAX ==> r == Ok::<Attributes, SynError>(
                Attributes {
                    max_tokens: Some(lit_int_value(digits@) as i32),
                    ..Attributes::spec_default()
                },
            )))
        }),
{
    reveal_strlit("prompt");
    reveal_strlit("model");
    reveal_strlit("temperature");
    reveal_strlit("top_p");
    reveal_strlit("presence_penalty");
    reveal_strlit("frequency_penalty");
    reveal_strlit("max_tokens");
    assert("prompt"@.len() == 6);
    assert("model"@.len() == 5);
    assert("temperature"@.len() == 11);
    assert("top_p"@.len() == 5);
    assert("presence_penalty"@.len() == 16);
    assert("frequency_penalty"@.len() == 17);
    assert("max_tokens"@.len() == 10);
    assert("model"@[0] != "top_p"@[0]);
    let toks = seq![ArgToken::Ident { name }, ArgToken::Eq, lit];
    let dflt = Attributes::spec_default();
    assert(toks.len() == 3);
    assert(toks[0] == (ArgToken::Ident { name }));
    assert(toks[1] == ArgToken::Eq);
    assert(toks[2] == lit);
    if Attributes::spec_recognized(name@) {
        assert(Attributes::spec_parse(toks, dflt, 0) == Attributes::spec_set_field(
            dflt,
            name@,
            lit,
            2,
        ));
    }
}

/// Law: an argument list that opens with a name outside the recognized set
/// fails as an unsupported property, anchored at that name, whatever was
/// accumulated before and whatever follows: no partial parameter value
/// comes out.
pub proof fn lemma_unrecognized_name_rejected(
    toks: Seq<ArgToken>,
    acc: Attributes,
    pos: int,
    name: String,
)
    requires
        toks.len() > 0,
        toks[0] == (ArgToken::Ident { name }),
        !Attributes::spec_recognized(name@),
    ensures
        Attributes::spec_parse(toks, acc, pos) == Err::<Attributes, SynError>(
            SynError {
                message: SynMessage::UnsupportedProperty,
                at: SpanRef::Arg { at: pos as usize },
            },
        ),
{
}

/// Read a possibly signed base-10 digit string into an `i32`, rejecting
/// text whose magnitude part is empty or not all digits, and values
/// outside the `i32` range.
fn parse_i32_digits(digits: &String) -> (r: Result<i32, SynMessage>)
    ensures
        lit_digits(digits@).len() == 0 || !all_digits(lit_digits(digits@)) ==> r == Err::<
            i32,
            SynMessage,
        >(SynMessage::ExpectedIntLit),
        lit_digits(digits@).len() > 0 && all_digits(lit_digits(digits@)) && (lit_int_value(digits@)
            > i32::MAX || lit_int_value(digits@) < i32::MIN) ==> r == Err::<i32, SynMessage>(
            SynMessage::IntOutOfRange,
        ),
        lit_digits(digits@).len() > 0 && all_digits(lit_digits(digits@)) && i32::MIN
            <= lit_int_value(digits@) <= i32::MAX ==> (r matches Ok(v) && v as int == lit_int_value(
            digits@,
        )),
{
    let s = digits.as_str();
    let n: usize = s.unicode_len();
    if n == 0 {
        return Err(SynMessage::ExpectedIntLit);
    }
    let neg: bool = s.get_char(0) == '-';
    let start: usize = if neg { 1 } else { 0 };
    proof {
        assert(lit_digits(digits@) =~= digits@.subrange(start as int, n as int));
    }
    if start == n {
        return Err(SynMessage::ExpectedIntLit);
    }
    let limit: i64 = if neg { 2147483648 } else { 2147483647 };
    let mut acc: i64 = 0;
    let mut over = false;
    let mut i: usize = start;
    while i < n
        invariant
            start <= i <= n,
            n == digits@.len(),
            s@ == digits@,
            neg == lit_is_negative(digits@),
            start == (if neg { 1int } else { 0int }),
            limit == (if neg { 2147483648int } else { 2147483647int }),
            all_digits(digits@.subrange(start as int, i as int)),
            !over ==> 0 <= acc <= limit && acc == digits_val(
                digits@.subrange(start as int, i as int),
            ),
            over ==> digits_val(digits@.subrange(start as int, i as int)) > limit,
        decreases n - i,
    {
        let c = s.get_char(i);
        let code: u32 = c as u32;
        if code < 48 || code > 57 {
            proof {
                assert(lit_digits(digits@) =~= digits@.subrange(start as int, n as int));
                assert(lit_digits(digits@)[i - start] == digits@[i as int]);
                assert(!is_digit(lit_digits(digits@)[i - start]));
                assert(!all_digits(lit_digits(digits@)));
            }
            return Err(SynMessage::ExpectedIntLit);
        }
        proof {
            assert(digits@.subrange(start as int, i + 1).drop_last() =~= digits@.subrange(
                start as int,
                i as int,
            ));
            assert(digits@.subrange(start as int, i + 1).last() == digits@[i as int]);
            assert(all_digits(digits@.subrange(start as int, i + 1)));
        }
        if over {
        } else {
            let d: i64 = (code - 48) as i64;
            let next: i64 = acc * 10 + d;
            if next > limit {
                over = true;
            } else {
                acc = next;
            }
        }
        i = i + 1;
    }
    proof {
        assert(digits@.subrange(start as int, n as int) =~= lit_digits(digits@));
    }
    if over {
        Err(SynMessage::IntOutOfRange)
    } else if neg {
        Ok((-acc) as i32)
    } else {
        Ok(acc as i32)
    }
}

} // verus!
