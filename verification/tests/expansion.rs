use minifilepath_macro::emit::{conclude, emitted_expression};
use minifilepath_macro::expand::{extract_literal, literal_body, ExpandError};
use minifilepath_macro::message::error_message;
use minifilepath_macro::token::Token;

const PREAMBLE: &str = "`filepath` macro takes one non-empty quoted file path string literal - ";

#[test]
fn no_argument_is_reported() {
    let tokens: Vec<Token> = Vec::new();
    let r = extract_literal(&tokens);
    let e = r.err().expect("an empty invocation must fail");
    assert!(matches!(e, ExpandError::NoArgument));
    assert_eq!(
        error_message(&e),
        format!("{}none were provided", PREAMBLE)
    );
}

#[test]
fn valid_literal_expands_to_trusted_constructor() {
    let tokens = vec![Token::Literal("\"a/b\"".to_string())];
    let (lit, extra) = extract_literal(&tokens).expect("one quoted literal must be accepted");
    assert_eq!(lit, "\"a/b\"");
    assert!(!extra);
    let out = conclude(lit, extra, Ok(())).expect("an accepted path must emit");
    assert_eq!(out, "unsafe { FilePath::new_unchecked(\"a/b\") }");
}

#[test]
fn emitted_value_round_trips_the_path_text() {
    let tokens = vec![Token::Literal("\"a/b\"".to_string())];
    let (lit, _) = extract_literal(&tokens).expect("one quoted literal must be accepted");
    let out = conclude(lit.clone(), false, Ok(())).expect("an accepted path must emit");
    // The literal stands verbatim in the emitted expression, and the path
    // text it denotes is exactly the text between its quotes.
    assert!(out.contains(lit.as_str()));
    assert_eq!(literal_body(&lit), "a/b");
}

#[test]
fn rejected_path_reports_the_oracle_reason() {
    let tokens = vec![Token::Literal("\"a\"".to_string())];
    let (lit, extra) = extract_literal(&tokens).expect("one quoted literal must be accepted");
    let r = conclude(lit, extra, Err("invalid character".to_string()));
    let e = r.err().expect("a rejected path must fail");
    match &e {
        ExpandError::InvalidPath(text, reason) => {
            assert_eq!(text, "\"a\"");
            assert_eq!(reason, "invalid character");
        }
        other => panic!("wrong failure: {:?}", error_message(other)),
    }
    let msg = error_message(&e);
    assert!(msg.contains("invalid character"));
    assert_eq!(
        msg,
        format!(
            "{}`\"a\"` is not a valid file path (invalid character)",
            PREAMBLE
        )
    );
}

#[test]
fn two_literals_are_multiple() {
    let tokens = vec![
        Token::Literal("\"a\"".to_string()),
        Token::Literal("\"b\"".to_string()),
    ];
    let (lit, extra) = extract_literal(&tokens).expect("the first literal is still extracted");
    assert_eq!(lit, "\"a\"");
    assert!(extra);
    let e = conclude(lit, extra, Ok(())).err().expect("leftover tokens must fail");
    assert!(matches!(e, ExpandError::MultipleProvided));
    assert_eq!(
        error_message(&e),
        format!("{}multiple were provided", PREAMBLE)
    );
}

#[test]
fn oracle_rejection_outranks_multiple() {
    // With two tokens and a rejected first literal, the invalid-path
    // diagnostic is the one reported.
    let tokens = vec![
        Token::Literal("\"a\"".to_string()),
        Token::Literal("\"b\"".to_string()),
    ];
    let (lit, extra) = extract_literal(&tokens).expect("the first literal is still extracted");
    let e = conclude(lit, extra, Err("reserved name".to_string()))
        .err()
        .expect("a rejected path must fail");
    assert!(matches!(e, ExpandError::InvalidPath(_, _)));
}

#[test]
fn bare_identifier_is_named_as_ident() {
    let tokens = vec![Token::Ident("foo".to_string())];
    let e = extract_literal(&tokens).err().expect("an identifier must fail");
    match &e {
        ExpandError::WrongIdent(name) => assert_eq!(name, "foo"),
        other => panic!("wrong failure: {:?}", error_message(other)),
    }
    assert_eq!(
        error_message(&e),
        format!("{}ident `foo` was provided", PREAMBLE)
    );
}

#[test]
fn punctuation_is_named_as_punct() {
    let tokens = vec![Token::Punct(',')];
    let e = extract_literal(&tokens).err().expect("punctuation must fail");
    assert!(matches!(e, ExpandError::WrongPunct(',')));
    assert_eq!(
        error_message(&e),
        format!("{}punct `,` was provided", PREAMBLE)
    );
}

#[test]
fn empty_string_literal_is_too_short() {
    let tokens = vec![Token::Literal("\"\"".to_string())];
    let e = extract_literal(&tokens).err().expect("an empty literal must fail");
    match &e {
        ExpandError::TooShort(text) => assert_eq!(text, "\"\""),
        other => panic!("wrong failure: {:?}", error_message(other)),
    }
    assert_eq!(
        error_message(&e),
        format!("{}`\"\"` was provided", PREAMBLE)
    );
}

#[test]
fn literal_without_opening_quote_is_rejected() {
    let tokens = vec![Token::Literal("abc".to_string())];
    let e = extract_literal(&tokens).err().expect("an unquoted literal must fail");
    assert!(matches!(e, ExpandError::NoOpeningQuote(_)));
    assert_eq!(
        error_message(&e),
        format!("{}`abc` does not start with a quote", PREAMBLE)
    );
}

#[test]
fn literal_without_closing_quote_is_rejected() {
    let tokens = vec![Token::Literal("\"ab".to_string())];
    let e = extract_literal(&tokens).err().expect("a half-quoted literal must fail");
    assert!(matches!(e, ExpandError::NoClosingQuote(_)));
    assert_eq!(
        error_message(&e),
        format!("{}`\"ab` does not end with a quote", PREAMBLE)
    );
}

#[test]
fn group_wrapping_a_literal_is_transparent() {
    let bare = vec![Token::Literal("\"a\"".to_string())];
    let grouped = vec![Token::Group(vec![Token::Literal("\"a\"".to_string())])];
    let (lit_bare, extra_bare) = extract_literal(&bare).expect("the bare literal is accepted");
    let (lit_grouped, extra_grouped) =
        extract_literal(&grouped).expect("the grouped literal is accepted");
    assert_eq!(lit_bare, lit_grouped);
    assert_eq!(extra_bare, extra_grouped);
    let out_bare = conclude(lit_bare, extra_bare, Ok(())).expect("must emit");
    let out_grouped = conclude(lit_grouped, extra_grouped, Ok(())).expect("must emit");
    assert_eq!(out_bare, out_grouped);
}

#[test]
fn nested_groups_unwrap_recursively() {
    let tokens = vec![Token::Group(vec![Token::Group(vec![Token::Literal(
        "\"a\"".to_string(),
    )])])];
    let (lit, extra) = extract_literal(&tokens).expect("nested groups unwrap");
    assert_eq!(lit, "\"a\"");
    assert!(!extra);
}

#[test]
fn leftovers_inside_a_group_are_multiple() {
    let tokens = vec![Token::Group(vec![
        Token::Literal("\"a\"".to_string()),
        Token::Ident("x".to_string()),
    ])];
    let (lit, extra) = extract_literal(&tokens).expect("the literal is still extracted");
    assert_eq!(lit, "\"a\"");
    assert!(extra);
    let e = conclude(lit, extra, Ok(())).err().expect("leftover tokens must fail");
    assert!(matches!(e, ExpandError::MultipleProvided));
}

#[test]
fn leftovers_outside_a_group_are_multiple() {
    let tokens = vec![
        Token::Group(vec![Token::Literal("\"a\"".to_string())]),
        Token::Punct(';'),
    ];
    let (_, extra) = extract_literal(&tokens).expect("the literal is still extracted");
    assert!(extra);
}

#[test]
fn expansion_is_idempotent() {
    let tokens = vec![Token::Literal("\"x/y/z\"".to_string())];
    let (lit1, extra1) = extract_literal(&tokens).expect("accepted");
    let (lit2, extra2) = extract_literal(&tokens).expect("accepted");
    assert_eq!(lit1, lit2);
    assert_eq!(extra1, extra2);
    let out1 = conclude(lit1, extra1, Ok(())).expect("must emit");
    let out2 = conclude(lit2, extra2, Ok(())).expect("must emit");
    assert_eq!(out1, out2);
}

#[test]
fn emitted_expression_splices_verbatim() {
    assert_eq!(
        emitted_expression("\"d/f.txt\""),
        "unsafe { FilePath::new_unchecked(\"d/f.txt\") }"
    );
}
