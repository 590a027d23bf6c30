use ai_bindgen::attributes::ArgToken;
use ai_bindgen::credentials::Credentials;
use ai_bindgen::dispatch::{
    dispatch, finish_declaration, transform_block, AnnotatedUnit, Declaration, Step,
};
use ai_bindgen::error::{Error, OtherMessage, SpanRef, SynError, SynMessage, UsageMessage};
use ai_bindgen::request::{make_message, GenerationRequest};

fn creds() -> Credentials {
    Credentials::resolve(Some("secret".to_string()), Some("default-model".to_string()), None)
        .unwrap()
}

fn max_decl() -> Declaration {
    Declaration {
        attrs: vec![],
        vis: "".to_string(),
        sig: "fn max(a: Int, b: Int) -> Int".to_string(),
    }
}

#[test]
fn block_with_arguments_is_rejected_before_its_items() {
    let attr = vec![ArgToken::Ident { name: "prompt".to_string() }];
    let items = vec!["fn a();".to_string()];

    assert_eq!(
        Err(Error::Syn(SynError { message: SynMessage::ArgsOnBlock, at: SpanRef::Args })),
        transform_block(&attr, &items)
    );
}

#[test]
fn block_without_arguments_re_emits_items_in_order() {
    let items = vec![
        "#[ai] fn a();".to_string(),
        "fn b(x: u8) -> u8;".to_string(),
        "fn c();".to_string(),
    ];

    let out = transform_block(&vec![], &items).unwrap();

    assert_eq!("#[ai] fn a();\nfn b(x: u8) -> u8;\nfn c();\n", &out);
}

#[test]
fn empty_block_emits_nothing() {
    let out = transform_block(&vec![], &vec![]).unwrap();

    assert_eq!("", &out);
}

#[test]
fn unsupported_shape_is_a_usage_error() {
    let r = dispatch(AnnotatedUnit::Unsupported);

    assert_eq!(Err(Error::InvalidUsage(UsageMessage::UnsupportedItem)), r);
}

#[test]
fn block_dispatch_emits_without_a_service_call() {
    let unit = AnnotatedUnit::WrappingBlock {
        attr: vec![],
        items: vec!["fn a();".to_string()],
    };

    match dispatch(unit).unwrap() {
        Step::Emit { source } => assert_eq!("fn a();\n", &source),
        Step::Invoke { .. } => panic!("a plain block must not reach the service"),
    }
}

#[test]
fn declaration_dispatch_yields_the_parameters_and_the_request() {
    let unit = AnnotatedUnit::SingleDeclaration {
        attr: vec![
            ArgToken::Ident { name: "prompt".to_string() },
            ArgToken::Eq,
            ArgToken::LitStr { value: "returns the greater of the two values".to_string() },
        ],
        decl: max_decl(),
    };

    match dispatch(unit).unwrap() {
        Step::Invoke { params, decl } => {
            assert_eq!(
                Some("returns the greater of the two values".to_string()),
                params.prompt
            );
            assert_eq!(None, params.model);
            assert_eq!(max_decl(), decl);

            let request = GenerationRequest::compose(&params, &creds(), decl.sig.as_str());
            assert_eq!("default-model", &request.model);
            assert_eq!(
                make_message(
                    "fn max(a: Int, b: Int) -> Int",
                    "returns the greater of the two values"
                ),
                request.prompt_text
            );
        },
        Step::Emit { .. } => panic!("a declaration needs a service exchange"),
    }
}

#[test]
fn declaration_dispatch_reports_argument_errors() {
    let unit = AnnotatedUnit::SingleDeclaration {
        attr: vec![ArgToken::Ident { name: "oops".to_string() }],
        decl: max_decl(),
    };

    assert_eq!(
        Err(Error::Syn(SynError {
            message: SynMessage::UnsupportedProperty,
            at: SpanRef::Arg { at: 0 },
        })),
        dispatch(unit)
    );
}

#[test]
fn empty_choice_list_is_unable_to_generate() {
    let r = finish_declaration(&max_decl(), vec![]);

    assert_eq!(Err(Error::Other(OtherMessage::UnableToGenerate)), r);
}

#[test]
fn first_choice_without_content_is_unable_to_generate() {
    let r = finish_declaration(&max_decl(), vec![None, Some("if a > b { a } else { b }".to_string())]);

    assert_eq!(Err(Error::Other(OtherMessage::UnableToGenerate)), r);
}

#[test]
fn valid_reply_is_spliced_under_the_original_signature() {
    let decl = Declaration {
        attrs: vec!["#[inline]".to_string()],
        vis: "pub".to_string(),
        sig: "fn max(a: Int, b: Int) -> Int".to_string(),
    };
    let reply = "if a > b { a } else { b }".to_string();

    let out = finish_declaration(&decl, vec![Some(reply)]).unwrap();

    assert_eq!(
        "#[inline] #[allow(warnings)] pub fn max(a: Int, b: Int) -> Int \
         { if a > b { a } else { b } }",
        &out
    );
}

#[test]
fn the_first_choice_is_the_one_used() {
    let out = finish_declaration(
        &max_decl(),
        vec![Some("a".to_string()), Some("b".to_string())],
    )
    .unwrap();

    assert_eq!("#[allow(warnings)]  fn max(a: Int, b: Int) -> Int { a }", &out);
}

#[test]
fn unbalanced_reply_fails_at_the_original_declaration() {
    let r = finish_declaration(&max_decl(), vec![Some("{ unbalanced".to_string())]);

    assert_eq!(
        Err(Error::Syn(SynError { message: SynMessage::InvalidBody, at: SpanRef::Unit })),
        r
    );
}

#[test]
fn unterminated_literal_reply_fails_at_the_original_declaration() {
    let r = finish_declaration(&max_decl(), vec![Some("let s = \"open".to_string())]);

    assert_eq!(
        Err(Error::Syn(SynError { message: SynMessage::InvalidBody, at: SpanRef::Unit })),
        r
    );
}

#[test]
fn error_messages_name_their_class() {
    assert_eq!(
        "Invalid usage: The ai macro is not supported on this item",
        &Error::InvalidUsage(UsageMessage::UnsupportedItem).message()
    );
    assert_eq!(
        "Other error: Unable to generate rust code",
        &Error::Other(OtherMessage::UnableToGenerate).message()
    );
    assert_eq!(
        "Rust parser error: unsupported property",
        &Error::Syn(SynError {
            message: SynMessage::UnsupportedProperty,
            at: SpanRef::Arg { at: 0 },
        })
        .message()
    );
    assert_eq!("OpenAI API error: boom", &Error::OpenAI("boom".to_string()).message());
    assert_eq!("Environment error: bad data", &Error::Env("bad data".to_string()).message());
}
