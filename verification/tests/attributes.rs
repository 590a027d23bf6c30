use ai_bindgen::attributes::{ArgToken, Attributes};
use ai_bindgen::error::{Error, SpanRef, SynError, SynMessage};

fn ident(n: &str) -> ArgToken {
    ArgToken::Ident { name: n.to_string() }
}

fn lit_str(v: &str) -> ArgToken {
    ArgToken::LitStr { value: v.to_string() }
}

fn lit_float(t: &str) -> ArgToken {
    ArgToken::LitFloat { text: t.to_string() }
}

fn lit_int(d: &str) -> ArgToken {
    ArgToken::LitInt { digits: d.to_string() }
}

#[test]
fn no_params() {
    let params = Attributes::new(vec![]).unwrap();

    assert_eq!(None, params.model);
    assert_eq!(None, params.prompt);
}

#[test]
fn parses_prompt() {
    let params = Attributes::new(vec![ident("prompt"), ArgToken::Eq, lit_str("hello world")])
        .unwrap();

    assert_eq!(Some("hello world".to_string()), params.prompt);
}

#[test]
fn parses_prompt_with_model() {
    let params = Attributes::new(vec![
        ident("prompt"),
        ArgToken::Eq,
        lit_str("hello world"),
        ArgToken::Comma,
        ident("model"),
        ArgToken::Eq,
        lit_str("the-model"),
    ])
    .unwrap();

    assert_eq!(Some("hello world".to_string()), params.prompt);
    assert_eq!(Some("the-model".to_string()), params.model);
}

#[test]
fn prompt_is_not_string() {
    let params = Attributes::new(vec![ident("prompt"), ArgToken::Eq, lit_int("42")]);

    assert!(params.is_err());
}

#[test]
fn model_is_not_string() {
    let params = Attributes::new(vec![ident("model"), ArgToken::Eq, lit_int("42")]);

    assert!(params.is_err());
}

#[test]
fn temperature_round_trips_literal_text() {
    let params = Attributes::new(vec![ident("temperature"), ArgToken::Eq, lit_float("0.7")])
        .unwrap();

    assert_eq!(Some("0.7".to_string()), params.temperature);
    assert_eq!(None, params.top_p);
    assert_eq!(None, params.max_tokens);
}

#[test]
fn every_recognized_argument_round_trips() {
    let params = Attributes::new(vec![
        ident("prompt"),
        ArgToken::Eq,
        lit_str("add the numbers"),
        ArgToken::Comma,
        ident("model"),
        ArgToken::Eq,
        lit_str("gpt-4"),
        ArgToken::Comma,
        ident("temperature"),
        ArgToken::Eq,
        lit_float("0.7"),
        ArgToken::Comma,
        ident("top_p"),
        ArgToken::Eq,
        lit_float("0.9"),
        ArgToken::Comma,
        ident("presence_penalty"),
        ArgToken::Eq,
        lit_float("1.5"),
        ArgToken::Comma,
        ident("frequency_penalty"),
        ArgToken::Eq,
        lit_float("0.25"),
        ArgToken::Comma,
        ident("max_tokens"),
        ArgToken::Eq,
        lit_int("256"),
    ])
    .unwrap();

    assert_eq!(Some("add the numbers".to_string()), params.prompt);
    assert_eq!(Some("gpt-4".to_string()), params.model);
    assert_eq!(Some("0.7".to_string()), params.temperature);
    assert_eq!(Some("0.9".to_string()), params.top_p);
    assert_eq!(Some("1.5".to_string()), params.presence_penalty);
    assert_eq!(Some("0.25".to_string()), params.frequency_penalty);
    assert_eq!(Some(256), params.max_tokens);
}

#[test]
fn unsupported_property_is_an_error() {
    let params = Attributes::new(vec![ident("verbosity"), ArgToken::Eq, lit_str("high")]);

    assert_eq!(
        Err(Error::Syn(SynError {
            message: SynMessage::UnsupportedProperty,
            at: SpanRef::Arg { at: 0 },
        })),
        params
    );
}

#[test]
fn unsupported_property_after_valid_argument() {
    let params = Attributes::new(vec![
        ident("model"),
        ArgToken::Eq,
        lit_str("m"),
        ArgToken::Comma,
        ident("oops"),
        ArgToken::Eq,
        lit_str("x"),
    ]);

    assert_eq!(
        Err(Error::Syn(SynError {
            message: SynMessage::UnsupportedProperty,
            at: SpanRef::Arg { at: 4 },
        })),
        params
    );
}

#[test]
fn temperature_rejects_integer_literal() {
    let params = Attributes::new(vec![ident("temperature"), ArgToken::Eq, lit_int("1")]);

    assert_eq!(
        Err(Error::Syn(SynError {
            message: SynMessage::ExpectedFloatLit,
            at: SpanRef::Arg { at: 2 },
        })),
        params
    );
}

#[test]
fn max_tokens_rejects_float_literal() {
    let params = Attributes::new(vec![ident("max_tokens"), ArgToken::Eq, lit_float("1.5")]);

    assert_eq!(
        Err(Error::Syn(SynError {
            message: SynMessage::ExpectedIntLit,
            at: SpanRef::Arg { at: 2 },
        })),
        params
    );
}

#[test]
fn max_tokens_too_large_is_out_of_range() {
    let params = Attributes::new(vec![ident("max_tokens"), ArgToken::Eq, lit_int("2147483648")]);

    assert_eq!(
        Err(Error::Syn(SynError {
            message: SynMessage::IntOutOfRange,
            at: SpanRef::Arg { at: 2 },
        })),
        params
    );
}

#[test]
fn max_tokens_at_the_limit_parses() {
    let params = Attributes::new(vec![ident("max_tokens"), ArgToken::Eq, lit_int("2147483647")])
        .unwrap();

    assert_eq!(Some(2147483647), params.max_tokens);
}

#[test]
fn negative_float_round_trips_literal_text() {
    let params = Attributes::new(vec![
        ident("presence_penalty"),
        ArgToken::Eq,
        lit_float("-1.0"),
        ArgToken::Comma,
        ident("temperature"),
        ArgToken::Eq,
        lit_float("-0.5"),
    ])
    .unwrap();

    assert_eq!(Some("-1.0".to_string()), params.presence_penalty);
    assert_eq!(Some("-0.5".to_string()), params.temperature);
}

#[test]
fn negative_max_tokens_parses() {
    let params = Attributes::new(vec![ident("max_tokens"), ArgToken::Eq, lit_int("-5")])
        .unwrap();

    assert_eq!(Some(-5), params.max_tokens);
}

#[test]
fn max_tokens_at_the_negative_limit_parses() {
    let params = Attributes::new(vec![ident("max_tokens"), ArgToken::Eq, lit_int("-2147483648")])
        .unwrap();

    assert_eq!(Some(-2147483648), params.max_tokens);
}

#[test]
fn max_tokens_below_the_negative_limit_is_out_of_range() {
    let params = Attributes::new(vec![ident("max_tokens"), ArgToken::Eq, lit_int("-2147483649")]);

    assert_eq!(
        Err(Error::Syn(SynError {
            message: SynMessage::IntOutOfRange,
            at: SpanRef::Arg { at: 2 },
        })),
        params
    );
}

#[test]
fn bare_minus_is_not_an_integer() {
    let params = Attributes::new(vec![ident("max_tokens"), ArgToken::Eq, lit_int("-")]);

    assert_eq!(
        Err(Error::Syn(SynError {
            message: SynMessage::ExpectedIntLit,
            at: SpanRef::Arg { at: 2 },
        })),
        params
    );
}

#[test]
fn trailing_comma_is_allowed() {
    let params = Attributes::new(vec![
        ident("model"),
        ArgToken::Eq,
        lit_str("m"),
        ArgToken::Comma,
    ])
    .unwrap();

    assert_eq!(Some("m".to_string()), params.model);
}

#[test]
fn repeated_argument_last_write_wins() {
    let params = Attributes::new(vec![
        ident("model"),
        ArgToken::Eq,
        lit_str("first"),
        ArgToken::Comma,
        ident("model"),
        ArgToken::Eq,
        lit_str("second"),
    ])
    .unwrap();

    assert_eq!(Some("second".to_string()), params.model);
}

#[test]
fn missing_equals_is_an_error() {
    let params = Attributes::new(vec![ident("model"), lit_str("m"), ArgToken::Comma]);

    assert_eq!(
        Err(Error::Syn(SynError {
            message: SynMessage::ExpectedNameValue,
            at: SpanRef::Arg { at: 1 },
        })),
        params
    );
}

#[test]
fn stray_token_is_an_error() {
    let params = Attributes::new(vec![ArgToken::Other]);

    assert_eq!(
        Err(Error::Syn(SynError {
            message: SynMessage::ExpectedNameValue,
            at: SpanRef::Arg { at: 0 },
        })),
        params
    );
}
