use scip_build::callback::{DeriveCastedConstant, Token, TokenKind};

fn tok(kind: TokenKind, raw: &str) -> Token {
    Token { kind, raw: raw.as_bytes().to_vec() }
}

fn cast_sequence() -> Vec<Token> {
    vec![
        tok(TokenKind::Punctuation, "("),
        tok(TokenKind::Keyword, "double"),
        tok(TokenKind::Punctuation, ")"),
        tok(TokenKind::Literal, "1e99"),
    ]
}

#[test]
fn registered_target_is_rewritten() {
    let rewriter = DeriveCastedConstant::new().target("SCIP_INVALID");
    let mut tokens = cast_sequence();
    rewriter.modify_macro("SCIP_INVALID", &mut tokens);
    assert_eq!(tokens, vec![tok(TokenKind::Literal, "1e99")]);
}

#[test]
fn unregistered_name_is_unchanged() {
    let rewriter = DeriveCastedConstant::new().target("SCIP_INVALID");
    let mut tokens = cast_sequence();
    rewriter.modify_macro("SCIP_OTHER", &mut tokens);
    assert_eq!(tokens, cast_sequence());
}

#[test]
fn bracketed_identifier_is_unchanged() {
    // (SCIP_Real) is grouping around an identifier, not a cast: even a
    // registered name keeps it.
    let rewriter = DeriveCastedConstant::new().target("SCIP_INVALID");
    let mut tokens = vec![
        tok(TokenKind::Punctuation, "("),
        tok(TokenKind::Identifier, "SCIP_Real"),
        tok(TokenKind::Punctuation, ")"),
        tok(TokenKind::Literal, "1e99"),
    ];
    let before = tokens.clone();
    rewriter.modify_macro("SCIP_INVALID", &mut tokens);
    assert_eq!(tokens, before);
}

#[test]
fn cast_without_following_literal_is_unchanged() {
    let rewriter = DeriveCastedConstant::new().target("SCIP_INVALID");
    let mut tokens = vec![
        tok(TokenKind::Punctuation, "("),
        tok(TokenKind::Keyword, "double"),
        tok(TokenKind::Punctuation, ")"),
    ];
    let before = tokens.clone();
    rewriter.modify_macro("SCIP_INVALID", &mut tokens);
    assert_eq!(tokens, before);
}

#[test]
fn only_first_window_is_removed() {
    let rewriter = DeriveCastedConstant::new().target("SCIP_INVALID");
    let mut tokens = cast_sequence();
    tokens.extend(cast_sequence());
    rewriter.modify_macro("SCIP_INVALID", &mut tokens);
    let mut expected = vec![tok(TokenKind::Literal, "1e99")];
    expected.extend(cast_sequence());
    assert_eq!(tokens, expected);
}

#[test]
fn window_inside_longer_definition_is_found() {
    let rewriter = DeriveCastedConstant::new().target("SCIP_INVALID");
    let mut tokens = vec![
        tok(TokenKind::Identifier, "x"),
        tok(TokenKind::Punctuation, "+"),
        tok(TokenKind::Punctuation, "("),
        tok(TokenKind::Keyword, "float"),
        tok(TokenKind::Punctuation, ")"),
        tok(TokenKind::Literal, "2"),
    ];
    rewriter.modify_macro("SCIP_INVALID", &mut tokens);
    assert_eq!(
        tokens,
        vec![
            tok(TokenKind::Identifier, "x"),
            tok(TokenKind::Punctuation, "+"),
            tok(TokenKind::Literal, "2"),
        ]
    );
}

#[test]
fn wrong_punctuation_is_not_a_cast() {
    let rewriter = DeriveCastedConstant::new().target("SCIP_INVALID");
    let mut tokens = vec![
        tok(TokenKind::Punctuation, "["),
        tok(TokenKind::Keyword, "double"),
        tok(TokenKind::Punctuation, "]"),
        tok(TokenKind::Literal, "1e99"),
    ];
    let before = tokens.clone();
    rewriter.modify_macro("SCIP_INVALID", &mut tokens);
    assert_eq!(tokens, before);
}

#[test]
fn several_targets_can_be_registered() {
    let rewriter = DeriveCastedConstant::new().target("A").target("B");
    let mut tokens = cast_sequence();
    rewriter.modify_macro("B", &mut tokens);
    assert_eq!(tokens, vec![tok(TokenKind::Literal, "1e99")]);
    let mut tokens = cast_sequence();
    rewriter.modify_macro("A", &mut tokens);
    assert_eq!(tokens, vec![tok(TokenKind::Literal, "1e99")]);
}
