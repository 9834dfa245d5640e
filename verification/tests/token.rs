use rlisp::{lookup_identifier, Span, TokenInfo, TokenType};

#[test]
fn test_keywords() {
    let is_keyword = vec![
        ("true", TokenType::True),
        ("false", TokenType::False),
        ("fn", TokenType::Function),
        ("let", TokenType::Let),
        ("if", TokenType::If),
        ("else", TokenType::Else),
        ("for", TokenType::For),
        ("while", TokenType::While),
        ("return", TokenType::Return),
        ("class", TokenType::Class),
        ("this", TokenType::This),
        ("import", TokenType::Import),
        ("nil", TokenType::Nil),
        ("break", TokenType::Break),
        ("continue", TokenType::Continue),
        ("print", TokenType::Print),
        ("super", TokenType::Super),
        ("const", TokenType::Const),
    ];
    is_keyword.iter().for_each(|x| {
        let ident = x.0.to_string();
        assert_eq!(lookup_identifier(ident), x.1)
    });
}

#[test]
fn keywords_test_identifier() {
    let is_keyword = vec![
        "True", "TRUE", "False", "FALSE", "Fn", "fN", "FN", "If", "iF", "IF", "Let", "lEt", "FOr",
        "FoR", "FOR", "wHILe", "wHILE", "WHile", "ReTURN", "RETURN", "Class", "cLass", "ThIS",
        "THIS", "Import", "iMport", "Nil", "nIl", "niL",
    ];
    is_keyword
        .iter()
        .map(|x| (x.to_string(), TokenType::Identifier(x.to_string())))
        .for_each(|x| assert_eq!(lookup_identifier(x.0), x.1));
}

#[test]
fn test_token_literal() {
    let token = TokenType::Identifier("x".to_string());
    assert_eq!(token.to_string(), "$x");

    let token = TokenType::String("hello".to_string());
    assert_eq!(token.to_string(), "\"hello\"");

    let token = TokenType::Number("1".to_string());
    assert_eq!(token.to_string(), "1");

    let token = TokenType::True;
    assert_eq!(token.to_string(), "True");

    let token = TokenType::False;
    assert_eq!(token.to_string(), "False");
}

#[test]
fn token_spellings() {
    assert_eq!(TokenType::Lte.to_string(), "=<");
    assert_eq!(TokenType::LCurly.to_string(), "{");
    assert_eq!(TokenType::Eof.to_string(), "EOF");
    assert_eq!(TokenType::XorEq.to_string(), "^=");
}

#[test]
fn token_is_compares_tag_and_payload() {
    let token = TokenInfo::new(TokenType::Identifier("a".to_string()), 3, 4, 1, 0);
    assert!(token.is(TokenType::Identifier("a".to_string())));
    assert!(!token.is(TokenType::Identifier("b".to_string())));
    assert!(!token.is(TokenType::String("a".to_string())));
    assert!(!token.is(TokenType::Eof));
    assert_eq!(token.span, Span::new(1, 0, 3, 4));
    assert!(TokenType::Plus.same(&TokenType::Plus));
    assert!(!TokenType::Plus.same(&TokenType::PlusEq));
}

#[test]
fn span_merge_covers_both() {
    let a = Span::new(2, 10, 14, 18);
    let b = Span::new(3, 20, 22, 30);
    assert_eq!(a.merge(&b), Span::new(2, 10, 14, 30));
    assert_eq!(b.merge(&a), Span::new(3, 10, 14, 30));
    assert_eq!(a.merge(&a), a);
}
