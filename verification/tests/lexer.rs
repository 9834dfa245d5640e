use rlisp::{Error, Lexer, TokenType};

fn test_lexers(input: &str, expected: Vec<TokenType>) {
    let mut lexer = Lexer::new(input.to_string());
    let mut result = Vec::new();
    loop {
        let token = lexer.scan();
        match token {
            Ok(TokenType::Eof) => break,
            Ok(x) => result.push(x),
            Err(x) => panic!("Err:{}", x.to_string()),
        }
    }
    assert_eq!(result, expected);
}

#[test]
fn test_symbols() {
    let input = "(){}[],;+-*/% =&|!^<>
        == != <= >= && || += -= *= /= %= ^= << >>";
    let expected = vec![
        TokenType::LParen,
        TokenType::RParen,
        TokenType::LCurly,
        TokenType::RCurly,
        TokenType::LBrace,
        TokenType::RBrace,
        TokenType::Comma,
        TokenType::Semicolon,
        TokenType::Plus,
        TokenType::Minus,
        TokenType::Times,
        TokenType::Divide,
        TokenType::Mod,
        TokenType::Assign,
        TokenType::And,
        TokenType::Or,
        TokenType::Not,
        TokenType::Xor,
        TokenType::Lt,
        TokenType::Gt,
        TokenType::Eq,
        TokenType::Ne,
        TokenType::Lte,
        TokenType::Gte,
        TokenType::LAnd,
        TokenType::LOr,
        TokenType::PlusEq,
        TokenType::SubEq,
        TokenType::MulEq,
        TokenType::DivEq,
        TokenType::ModEq,
        TokenType::XorEq,
        TokenType::LShift,
        TokenType::RShift,
    ];
    test_lexers(input, expected);
}

#[test]
fn mod_test_identifier() {
    let input = "if else while for return abc def_ _ghi";
    let expected = vec![
        TokenType::If,
        TokenType::Else,
        TokenType::While,
        TokenType::For,
        TokenType::Return,
        TokenType::Identifier("abc".to_string()),
        TokenType::Identifier("def_".to_string()),
        TokenType::Identifier("_ghi".to_string()),
    ];
    test_lexers(input, expected);
}

#[test]
fn mod_test_assignment() {
    let input = "";
    let expected = vec![];
    test_lexers(input, expected);
}

#[test]
fn test_function() {
    let input = "fn add(a, b) {
            return a + b; 
        }
        let a = 1;
        add(a, 2);";
    let expected = vec![
        TokenType::Function,
        TokenType::Identifier("add".to_string()),
        TokenType::LParen,
        TokenType::Identifier("a".to_string()),
        TokenType::Comma,
        TokenType::Identifier("b".to_string()),
        TokenType::RParen,
        TokenType::LCurly,
        TokenType::Return,
        TokenType::Identifier("a".to_string()),
        TokenType::Plus,
        TokenType::Identifier("b".to_string()),
        TokenType::Semicolon,
        TokenType::RCurly,
        TokenType::Let,
        TokenType::Identifier("a".to_string()),
        TokenType::Assign,
        TokenType::Number("1".to_string()),
        TokenType::Semicolon,
        TokenType::Identifier("add".to_string()),
        TokenType::LParen,
        TokenType::Identifier("a".to_string()),
        TokenType::Comma,
        TokenType::Number("2".to_string()),
        TokenType::RParen,
        TokenType::Semicolon,
    ];
    test_lexers(input, expected);
}

#[test]
fn test_unknown_character() {
    let input = "@ 1.2.3 \"this is untermintated string";
    let expected = vec![
        Error::Syntax(format!("unknown character:'@'")),
        Error::Value(format!("invalid number:'1.2.3'")),
        Error::Syntax(format!("unterminated string")),
    ];
    let mut lexer = Lexer::new(input.to_string());
    let mut result = Vec::new();
    loop {
        let token = lexer.scan();
        match token {
            Ok(TokenType::Eof) => break,
            Ok(x) => panic!("Err:{}", x.to_string()),
            Err(ref x) => result.push(x.clone()),
        }
    }
    assert_eq!(result, expected);
}

#[test]
fn dots_and_stray_characters() {
    let mut lexer = Lexer::new("a.b : $".to_string());
    assert_eq!(lexer.scan(), Ok(TokenType::Identifier("a".to_string())));
    assert_eq!(lexer.scan(), Ok(TokenType::Dot));
    assert_eq!(lexer.scan(), Ok(TokenType::Identifier("b".to_string())));
    assert_eq!(lexer.scan(), Err(Error::Syntax("unknown character:':'".to_string())));
    assert_eq!(lexer.scan(), Err(Error::Syntax("unknown character:'$'".to_string())));
    assert_eq!(lexer.scan(), Ok(TokenType::Eof));
    assert_eq!(lexer.scan(), Ok(TokenType::Eof));
}

#[test]
fn numbers_and_words() {
    let mut lexer = Lexer::new("12 3.5 7. fooBar x1_y 1..2 \"\"".to_string());
    assert_eq!(lexer.scan(), Ok(TokenType::Number("12".to_string())));
    assert_eq!(lexer.scan(), Ok(TokenType::Number("3.5".to_string())));
    assert_eq!(lexer.scan(), Ok(TokenType::Number("7.".to_string())));
    assert_eq!(lexer.scan(), Ok(TokenType::Identifier("foo".to_string())));
    assert_eq!(lexer.scan(), Ok(TokenType::Identifier("Bar".to_string())));
    assert_eq!(lexer.scan(), Ok(TokenType::Identifier("x1_y".to_string())));
    assert_eq!(lexer.scan(), Err(Error::Value("invalid number:'1..2'".to_string())));
    assert_eq!(lexer.scan(), Ok(TokenType::String(String::new())));
    assert_eq!(lexer.scan(), Ok(TokenType::Eof));
}
