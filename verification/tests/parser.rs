use rlisp::{
    desugar_assign, Error, ErrorInfo, Expr, Lexer, LiteralType, Parser, Program, Span, Stmt,
    TokenInfo, TokenType,
};

fn parse(input: &str) -> Result<Program, ErrorInfo> {
    let mut parser = Parser::new(Lexer::new(input.to_string()));
    parser.parse_program()
}

fn number(text: &str) -> Expr {
    Expr::Literal { value: LiteralType::Number(text.to_string()) }
}

fn boolean(b: bool) -> Expr {
    Expr::Literal { value: LiteralType::Boolean(b) }
}

fn variable(name: &str, start: usize) -> Expr {
    Expr::Variable { name: name.to_string(), span: Span::new(1, 0, start, start + name.len()) }
}

fn op(token: TokenType, start: usize, end: usize) -> TokenInfo {
    TokenInfo::new(token, start, end, 1, 0)
}

fn binary(left: Expr, token: TokenType, start: usize, end: usize, right: Expr) -> Expr {
    Expr::Binary { left: Box::new(left), op: op(token, start, end), right: Box::new(right) }
}

fn group(expr: Expr, start: usize) -> Expr {
    Expr::Grouping { expr: Box::new(expr), span: Span::new(1, 0, start, start + 1) }
}

fn statements(input: &str) -> Vec<Stmt> {
    parse(input).unwrap().stmts
}

fn error(input: &str) -> String {
    parse(input).unwrap_err().report()
}

#[test]
fn test_hello_world() {
    let input = "print \"Hello, World!\";";
    let mut parser = Parser::new(Lexer::new(input.into()));
    let expr = parser.parse_program().unwrap();
    assert_eq!(expr.to_string(), "((print \"Hello, World!\"))");
}

#[test]
fn test_negative_unary() {
    let input = "-(1 / (2 * 32));";
    let mut parser = Parser::new(Lexer::new(input.into()));
    let expr = parser.parse_program().unwrap();
    assert_eq!(expr.to_string(), "((- (/ 1 (* 2 32))))");
}

#[test]
fn test_assignment() {
    let input = "
        let a = 1;
        print a; ";
    let mut parser = Parser::new(Lexer::new(input.to_string()));
    let expr = parser.parse_program().unwrap();
    assert_eq!(expr.to_string(), "((let a 1)(print a))");
}

#[test]
fn test_if() {
    let input = "
        if (a == 1) {
            print a;
        } else {
            print b;
        }";
    let mut parser = Parser::new(Lexer::new(input.to_string()));
    let expr = parser.parse_program().unwrap();
    assert_eq!(
        expr.to_string(),
        "((if (== a 1) then ((print a)) else ((print b))))"
    );
}

#[test]
fn test_int_boolean() {
    assert_eq!(
        statements("(false!=true);"),
        vec![Stmt::Expr {
            expr: group(binary(boolean(false), TokenType::Ne, 6, 8, boolean(true)), 0)
        }]
    );
    assert_eq!(
        parse("true==true").unwrap_err(),
        ErrorInfo::new(
            Error::Syntax("Expected: \";\" Found: \"EOF\"".to_string()),
            1,
            0,
            10,
            10
        )
    );
    assert_eq!(
        parse("-(1-10)*100+2/(2+3);").unwrap().to_string(),
        "((+ (* (- (- 1 10)) 100) (/ 2 (+ 2 3))))"
    );
    assert_eq!(
        statements("a(1);"),
        vec![Stmt::Expr {
            expr: Expr::Call {
                callee: Box::new(variable("a", 0)),
                args: vec![number("1")],
                span: Span::new(1, 0, 1, 2),
            }
        }]
    );
    assert_eq!(statements("0.1000;"), vec![Stmt::Expr { expr: number("0.1000") }]);
}

#[test]
fn precedence_and_grouping() {
    let expected = Expr::Unary {
        op: op(TokenType::Minus, 0, 1),
        right: Box::new(group(
            binary(
                number("1"),
                TokenType::Divide,
                4,
                5,
                group(binary(number("2"), TokenType::Times, 9, 10, number("32")), 6),
            ),
            1,
        )),
    };
    assert_eq!(statements("-(1 / (2 * 32));"), vec![Stmt::Expr { expr: expected }]);
}

#[test]
fn levels_bind_in_order() {
    assert_eq!(
        parse("a || b && c == d < e + f * -g;").unwrap().to_string(),
        "((|| a (&& b (== c (< d (+ e (* f (- g))))))))"
    );
    assert_eq!(parse("1 - 2 - 3;").unwrap().to_string(), "((- (- 1 2) 3))");
    assert_eq!(parse("1 / 2 * 3;").unwrap().to_string(), "((* (/ 1 2) 3))");
    assert_eq!(parse("a < b >= c;").unwrap().to_string(), "((>= (< a b) c))");
    assert_eq!(parse("a | b & c ^ d;").unwrap().to_string(), "((^ (& (| a b) c) d))");
    assert_eq!(parse("!!a;").unwrap().to_string(), "((! (! a)))");
}

#[test]
fn assignment_targets() {
    assert_eq!(parse("a = b = 1;").unwrap().to_string(), "((= a (= b 1)))");
    assert_eq!(
        statements("x += 2;"),
        vec![Stmt::Expr {
            expr: Expr::Assign {
                name: "x".to_string(),
                value: Box::new(binary(variable("x", 0), TokenType::Plus, 2, 4, number("2"))),
                span: Span::new(1, 0, 0, 1),
            }
        }]
    );
    assert_eq!(parse("a.b = 1;").unwrap().to_string(), "((set a b 1))");
    assert_eq!(parse("a.b.c;").unwrap().to_string(), "((get (get a b) c))");
    assert_eq!(
        error("1 = 2;"),
        "ParseError: Invalid assignment target, line 1, pos 2"
    );
    assert_eq!(
        error("(a) = 2;"),
        "ParseError: Invalid assignment target, line 1, pos 4"
    );
    assert_eq!(
        error("a + b = 2;"),
        "ParseError: Invalid assignment target, line 1, pos 6"
    );
}

#[test]
fn compound_assignments() {
    assert_eq!(desugar_assign(TokenType::PlusEq), Some(TokenType::Plus));
    assert_eq!(desugar_assign(TokenType::SubEq), Some(TokenType::Minus));
    assert_eq!(desugar_assign(TokenType::MulEq), Some(TokenType::Times));
    assert_eq!(desugar_assign(TokenType::DivEq), Some(TokenType::Divide));
    assert_eq!(desugar_assign(TokenType::ModEq), Some(TokenType::Mod));
    assert_eq!(desugar_assign(TokenType::AndEq), Some(TokenType::And));
    assert_eq!(desugar_assign(TokenType::OrEq), Some(TokenType::Or));
    assert_eq!(desugar_assign(TokenType::XorEq), Some(TokenType::Xor));
    assert_eq!(desugar_assign(TokenType::Assign), None);
    assert_eq!(desugar_assign(TokenType::Eq), None);
    assert_eq!(parse("a -= 1; a %= 2; a ^= 3;").unwrap().to_string(), "((= a (- a 1))(= a (% a 2))(= a (^ a 3)))");
}

#[test]
fn for_becomes_while() {
    let for_loop = statements("for (let i = 0; i < 3; i += 1) { print i; }");
    let by_hand = statements("{ let i = 0; while (i < 3) { { print i; } i += 1; } }");
    assert_eq!(for_loop.len(), 1);
    assert_eq!(
        parse("for (let i = 0; i < 3; i += 1) { print i; }").unwrap().to_string(),
        parse("{ let i = 0; while (i < 3) { { print i; } i += 1; } }").unwrap().to_string()
    );
    match (&for_loop[0], &by_hand[0]) {
        (Stmt::Block { stmts: a }, Stmt::Block { stmts: b }) => {
            assert_eq!(a.len(), 2);
            assert_eq!(b.len(), 2);
            assert!(matches!(a[0], Stmt::Let { .. }));
            assert!(matches!(a[1], Stmt::While { .. }));
        }
        _ => panic!("a for statement is a block"),
    }
    assert_eq!(
        parse("for (;;) print 1;").unwrap().to_string(),
        "(((while (true) (print 1))))"
    );
    assert_eq!(
        parse("for (i = 0; i < 2;) print i;").unwrap().to_string(),
        "(((= i 0)(while ((< i 2)) (print i))))"
    );
}

#[test]
fn declarations() {
    assert_eq!(parse("const a = 1; let b;").unwrap().to_string(), "((const a 1)(let b))");
    assert_eq!(
        parse("fn add(a, b) { return a + b; }").unwrap().to_string(),
        "(fun add (a, b) (return (+ a b)))"
    );
    assert_eq!(parse("fn f() { return; }").unwrap().to_string(), "(fun f () (return))");
    assert_eq!(
        parse("class A < B { init(x) { } go() { } }").unwrap().to_string(),
        "(class A extends B {\nfun init (x) ()\nfun go () ()\n})"
    );
    assert_eq!(parse("class A { }").unwrap().to_string(), "(class A {\n})");
    assert_eq!(
        error("class A < A { }"),
        "ParseError: Cannot inherit from itself, line 1, pos 10"
    );
    assert_eq!(
        parse("while (a) { break; continue; }").unwrap().to_string(),
        "((while (a) (breakcontinue)))"
    );
    assert_eq!(parse("f(1, 2)(3);").unwrap().to_string(), "((call (call f 1 2) 3))");
    assert_eq!(parse("this; super.m;").unwrap().to_string(), "(this(super m))");
}

#[test]
fn first_error_ends_the_parse() {
    assert_eq!(
        error("print 1 print 2;"),
        "SyntaxError: Expected: \";\" Found: \"print\", line 1, pos 8"
    );
    assert_eq!(
        error("let = 1;"),
        "SyntaxError: Expected: \"Identifier\" Found: \"=\", line 1, pos 4"
    );
    assert_eq!(
        error("print ;"),
        "ParseError: Expect expression found \";\", line 1, pos 6"
    );
    assert_eq!(
        error("1;\n  (2;"),
        "SyntaxError: Expected: \")\" Found: \";\", line 2, pos 4"
    );
    assert_eq!(
        error("{ print 1;"),
        "SyntaxError: Expected: \"}\" Found: \"EOF\", line 1, pos 10"
    );
    assert_eq!(
        error("if a) print 1;"),
        "SyntaxError: Expected: \"(\" Found: \"$a\", line 1, pos 3"
    );
    assert_eq!(
        error("print 7 % 2;"),
        "SyntaxError: Expected: \";\" Found: \"%\", line 1, pos 8"
    );
}

#[test]
fn too_many_parameters() {
    let names: Vec<String> = (0..256).map(|i| format!("p{}", i)).collect();
    let input = format!("fn f({}) {{ }}", names.join(", "));
    assert_eq!(parse(&input).unwrap_err().error, Error::TooManyParameters);
    let names: Vec<String> = (0..255).map(|i| format!("p{}", i)).collect();
    let input = format!("fn f({}) {{ }}", names.join(", "));
    assert!(parse(&input).is_ok());
}

#[test]
fn lexical_errors_do_not_end_the_parse() {
    let mut parser = Parser::new(Lexer::new("print @ 1; print 1.2.3 2;".to_string()));
    let program = parser.parse_program().unwrap();
    assert_eq!(program.to_string(), "((print 1)(print 2))");
    let errors: Vec<String> = parser.lexical_errors().iter().map(|e| e.report()).collect();
    assert_eq!(
        errors,
        vec![
            "SyntaxError: unknown character:'@', line 1, pos 6",
            "ValueError: invalid number:'1.2.3', line 1, pos 17",
        ]
    );
}

#[test]
fn comments_and_lines() {
    let mut lexer = Lexer::new("# first\n  a # second\n\"x\ny\" b".to_string());
    let a = lexer.next();
    assert_eq!(a.token, TokenType::Identifier("a".to_string()));
    assert_eq!(a.span, Span::new(2, 8, 10, 11));
    let text = lexer.next();
    assert_eq!(text.token, TokenType::String("x\ny".to_string()));
    assert_eq!(text.span, Span::new(3, 21, 21, 26));
    let b = lexer.next();
    assert_eq!(b.token, TokenType::Identifier("b".to_string()));
    assert_eq!(b.span, Span::new(4, 24, 27, 28));
    assert_eq!(lexer.next().token, TokenType::Eof);
    assert_eq!(lexer.next().token, TokenType::Eof);
    assert!(lexer.errors().is_empty());
}
