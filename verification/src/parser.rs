//! The parser: recursive descent over the lexer's tokens, with one token
//! held and one token of lookahead.
//!
//! Each parsing function has a mathematical twin on `ParserView`; the
//! twins are the grammar. A twin that goes round again after a token was
//! consumed first checks that fewer characters remain than when it began,
//! and stalls where they do not: that is what makes the grammar finite.
//! A parsing function returns a value or an error, never a stall, so its
//! contract says among other things that the grammar did not stall.

use vstd::prelude::*;
use crate::ast::{
    expr_models, expr_models_push, stmt_models, stmt_models_push, Expr, ExprView, LiteralType, LiteralView, Program,
    Stmt, StmtView,
};
use crate::error::{Error, ErrorInfo, ErrorInfoView, ErrorView};
use crate::lexer::{Lexer, LexerView};
use crate::span::Span;
use crate::token::{TokenInfo, TokenInfoView, TokenType, TokenView};

verus! {

/// The parser's state: the lexer, the token consumed last and the token
/// held, which is the next to be consumed.
pub struct ParserView {
    pub lexer: LexerView,
    pub prev: TokenInfoView,
    pub curr: TokenInfoView,
}

/// Why the grammar stops short of a result.
pub enum Stop {
    /// The text does not follow the grammar.
    Error(ErrorInfoView),
    /// A round of the grammar did not leave fewer characters to parse.
    /// The parser never ends so: what it returns is a value or an error.
    Stalled,
}

/// A parsing step: the state it leaves, and what it found.
pub type Parsed<T> = (ParserView, Result<T, Stop>);

/// The error `error` at `span`.
pub open spec fn failure(error: ErrorView, span: Span) -> Stop {
    Stop::Error(ErrorInfoView { error, span })
}

/// The binary levels of the expression grammar, weakest binding first.
/// All of them associate to the left.
#[derive(Debug, PartialEq, Eq, Clone, Copy, Structural)]
pub enum Level {
    /// `||`
    Or,
    /// `&&`
    And,
    /// `==` and `!=`
    Equality,
    /// `<`, `<=`, `>` and `>=`
    Comparison,
    /// `+` and `-`, and the bitwise `|`, `&` and `^`
    Term,
    /// `*` and `/`
    Factor,
}

impl Level {
    /// Whether `t` is an operator of this level.
    pub open spec fn has(self, t: TokenView) -> bool {
        match self {
            Level::Or => t == TokenView::Plain(TokenType::LOr),
            Level::And => t == TokenView::Plain(TokenType::LAnd),
            Level::Equality => t == TokenView::Plain(TokenType::Eq) || t == TokenView::Plain(TokenType::Ne),
            Level::Comparison => t == TokenView::Plain(TokenType::Gt) || t == TokenView::Plain(TokenType::Gte)
                || t == TokenView::Plain(TokenType::Lt) || t == TokenView::Plain(TokenType::Lte),
            Level::Term => t == TokenView::Plain(TokenType::Plus) || t == TokenView::Plain(TokenType::Minus)
                || t == TokenView::Plain(TokenType::Or) || t == TokenView::Plain(TokenType::And) || t
                == TokenView::Plain(TokenType::Xor),
            Level::Factor => t == TokenView::Plain(TokenType::Times) || t == TokenView::Plain(
                TokenType::Divide,
            ),
        }
    }

    /// The binding strength: larger binds tighter.
    pub open spec fn strength(self) -> nat {
        match self {
            Level::Or => 0,
            Level::And => 1,
            Level::Equality => 2,
            Level::Comparison => 3,
            Level::Term => 4,
            Level::Factor => 5,
        }
    }

    fn holds(&self, t: &TokenType) -> (b: bool)
        ensures
            b == self.has(t@),
    {
        match self {
            Level::Or => matches!(t, TokenType::LOr),
            Level::And => matches!(t, TokenType::LAnd),
            Level::Equality => matches!(t, TokenType::Eq | TokenType::Ne),
            Level::Comparison => matches!(t, TokenType::Gt | TokenType::Gte | TokenType::Lt | TokenType::Lte),
            Level::Term => matches!(
                t,
                TokenType::Plus | TokenType::Minus | TokenType::Or | TokenType::And | TokenType::Xor
            ),
            Level::Factor => matches!(t, TokenType::Times | TokenType::Divide),
        }
    }
}

/// The operator that a compound assignment applies: `+` for `+=`, and so
/// on; none for any other token.
pub open spec fn desugared(t: TokenView) -> Option<TokenType> {
    if t == TokenView::Plain(TokenType::PlusEq) {
        Some(TokenType::Plus)
    } else if t == TokenView::Plain(TokenType::SubEq) {
        Some(TokenType::Minus)
    } else if t == TokenView::Plain(TokenType::ModEq) {
        Some(TokenType::Mod)
    } else if t == TokenView::Plain(TokenType::DivEq) {
        Some(TokenType::Divide)
    } else if t == TokenView::Plain(TokenType::AndEq) {
        Some(TokenType::And)
    } else if t == TokenView::Plain(TokenType::OrEq) {
        Some(TokenType::Or)
    } else if t == TokenView::Plain(TokenType::MulEq) {
        Some(TokenType::Times)
    } else if t == TokenView::Plain(TokenType::XorEq) {
        Some(TokenType::Xor)
    } else {
        None
    }
}

/// The operator that a compound assignment applies.
pub fn desugar_assign(tok: TokenType) -> (r: Option<TokenType>)
    ensures
        r == desugared(tok@),
        r matches Some(t) ==> t.is_plain(),
{
    match tok {
        TokenType::PlusEq => Some(TokenType::Plus),
        TokenType::SubEq => Some(TokenType::Minus),
        TokenType::ModEq => Some(TokenType::Mod),
        TokenType::DivEq => Some(TokenType::Divide),
        TokenType::AndEq => Some(TokenType::And),
        TokenType::OrEq => Some(TokenType::Or),
        TokenType::MulEq => Some(TokenType::Times),
        TokenType::XorEq => Some(TokenType::Xor),
        _ => None,
    }
}

/// Whether `t` assigns: `=` or a compound assignment.
pub open spec fn assigns(t: TokenView) -> bool {
    t == TokenView::Plain(TokenType::Assign) || desugared(t) is Some
}

pub open spec fn unary_operator(t: TokenView) -> bool {
    t == TokenView::Plain(TokenType::Minus) || t == TokenView::Plain(TokenType::Not) || t
        == TokenView::Plain(TokenType::Plus)
}

pub open spec fn expected_found(expected: Seq<char>, found: Seq<char>) -> Seq<char> {
    "Expected: \""@ + expected + "\" Found: \""@ + found + "\""@
}

pub open spec fn expect_expression(found: Seq<char>) -> Seq<char> {
    "Expect expression found \""@ + found + "\""@
}


impl ParserView {
    /// The held token has the tag `t`.
    pub open spec fn at(self, t: TokenType) -> bool {
        self.curr.token == TokenView::Plain(t)
    }

    /// How many characters of the text lie at or behind the held token;
    /// zero once the held token is `Eof`.
    pub open spec fn remaining(self) -> nat {
        if self.at(TokenType::Eof) || self.curr.span.start >= self.lexer.data.len() {
            0
        } else {
            (self.lexer.data.len() - self.curr.span.start) as nat
        }
    }

    pub open spec fn wf(self) -> bool {
        &&& self.lexer.wf()
        &&& !self.at(TokenType::Eof) ==> self.curr.span.start < self.lexer.cursor.pos
    }

    /// Consumes the held token and holds the next one.
    pub open spec fn advance(self) -> (ParserView, TokenInfoView) {
        let (lexer, next) = self.lexer.next();
        (ParserView { lexer, prev: self.curr, curr: next }, self.curr)
    }

    /// Consumes the held token, which has to be `expected`.
    pub open spec fn should_be(self, expected: TokenView) -> Parsed<Span> {
        let (p, val) = self.advance();
        if val.token == expected {
            (p, Ok(val.span))
        } else {
            (
                p,
                Err(failure(ErrorView::Syntax(expected_found(expected.text(), val.token.text())), val.span)),
            )
        }
    }

    /// Consumes the held token, which has to be an identifier.
    pub open spec fn get_identifier(self) -> Parsed<(Seq<char>, Span)> {
        let (p, val) = self.advance();
        match val.token {
            TokenView::Identifier(name) => (p, Ok((name, val.span))),
            _ => (
                p,
                Err(failure(ErrorView::Syntax(expected_found("Identifier"@, val.token.text())), val.span)),
            ),
        }
    }

    /// `primary := 'true' | 'false' | 'nil' | NUMBER | STRING | IDENT
    ///           | '(' expression ')' | 'super' '.' IDENT | 'this'`
    pub open spec fn primary(self) -> Parsed<ExprView>
        decreases self.remaining(), 0nat,
    {
        let span = self.curr.span;
        let p = self.advance().0;
        match self.curr.token {
            TokenView::Number(x) => (p, Ok(ExprView::Literal { value: LiteralView::Number(x) })),
            TokenView::String(x) => (p, Ok(ExprView::Literal { value: LiteralView::String(x) })),
            TokenView::Identifier(name) => (p, Ok(ExprView::Variable { name, span })),
            TokenView::Plain(t) => match t {
                TokenType::True => (p, Ok(ExprView::Literal { value: LiteralView::Boolean(true) })),
                TokenType::False => (p, Ok(ExprView::Literal { value: LiteralView::Boolean(false) })),
                TokenType::Nil => (p, Ok(ExprView::Literal { value: LiteralView::Nil })),
                TokenType::This => (p, Ok(ExprView::Variable { name: "this"@, span })),
                TokenType::LParen => {
                    if p.remaining() < self.remaining() {
                        let (p1, inner) = p.expression();
                        match inner {
                            Err(e) => (p1, Err(e)),
                            Ok(expr) => {
                                let (p2, close) = p1.should_be(TokenView::Plain(TokenType::RParen));
                                match close {
                                    Err(e) => (p2, Err(e)),
                                    Ok(_) => (p2, Ok(ExprView::Grouping { expr: Box::new(expr), span })),
                                }
                            },
                        }
                    } else {
                        (p, Err(Stop::Stalled))
                    }
                },
                TokenType::Super => {
                    let (p1, dot) = p.should_be(TokenView::Plain(TokenType::Dot));
                    match dot {
                        Err(e) => (p1, Err(e)),
                        Ok(_) => {
                            let (p2, name) = p1.get_identifier();
                            match name {
                                Err(e) => (p2, Err(e)),
                                Ok((name, span)) => (p2, Ok(ExprView::Super { name, span })),
                            }
                        },
                    }
                },
                _ => (
                    self,
                    Err(failure(ErrorView::Parse(expect_expression(self.curr.token.text())), span)),
                ),
            },
        }
    }

    /// `call := primary ( '(' arguments ')' | '.' IDENT )*`
    ///
    /// Without `callee` this parses a primary and goes on with what follows
    /// it; with `callee` it parses what follows that expression.
    pub open spec fn call(self, callee: Option<ExprView>) -> Parsed<ExprView>
        decreases self.remaining(), 1nat,
    {
        match callee {
            None => {
                let (p, first) = self.primary();
                match first {
                    Err(e) => (p, Err(e)),
                    Ok(expr) => if p.remaining() < self.remaining() {
                        p.call(Some(expr))
                    } else {
                        (p, Err(Stop::Stalled))
                    },
                }
            },
            Some(expr) => {
                if self.at(TokenType::LParen) {
                    let (p, open) = self.advance();
                    if p.remaining() < self.remaining() {
                        let (p1, args) = if p.at(TokenType::RParen) {
                            (p, Ok(Seq::<ExprView>::empty()))
                        } else {
                            p.arguments(Seq::empty())
                        };
                        match args {
                            Err(e) => (p1, Err(e)),
                            Ok(args) => {
                                let (p2, close) = p1.should_be(TokenView::Plain(TokenType::RParen));
                                match close {
                                    Err(e) => (p2, Err(e)),
                                    Ok(_) => if p2.remaining() < self.remaining() {
                                        p2.call(
                                            Some(
                                                ExprView::Call { callee: Box::new(expr), args, span: open.span },
                                            ),
                                        )
                                    } else {
                                        (p2, Err(Stop::Stalled))
                                    },
                                }
                            },
                        }
                    } else {
                        (p, Err(Stop::Stalled))
                    }
                } else if self.at(TokenType::Dot) {
                    let (p, _) = self.advance();
                    let (p1, name) = p.get_identifier();
                    match name {
                        Err(e) => (p1, Err(e)),
                        Ok((name, span)) => if p1.remaining() < self.remaining() {
                            p1.call(Some(ExprView::Get { object: Box::new(expr), name, span }))
                        } else {
                            (p1, Err(Stop::Stalled))
                        },
                    }
                } else {
                    (self, Ok(expr))
                }
            },
        }
    }

    /// `arguments := expression ( ',' expression )*`, added to `found`.
    pub open spec fn arguments(self, found: Seq<ExprView>) -> Parsed<Seq<ExprView>>
        decreases self.remaining(), 17nat,
    {
        let (p, next) = self.expression();
        match next {
            Err(e) => (p, Err(e)),
            Ok(expr) => if p.at(TokenType::Comma) {
                let p1 = p.advance().0;
                if p1.remaining() < self.remaining() {
                    p1.arguments(found.push(expr))
                } else {
                    (p1, Err(Stop::Stalled))
                }
            } else {
                (p, Ok(found.push(expr)))
            },
        }
    }

    /// `unary := ( '-' | '!' | '+' ) unary | call`
    pub open spec fn unary(self) -> Parsed<ExprView>
        decreases self.remaining(), 2nat,
    {
        if unary_operator(self.curr.token) {
            let (p, op) = self.advance();
            if p.remaining() < self.remaining() {
                let (p1, operand) = p.unary();
                match operand {
                    Err(e) => (p1, Err(e)),
                    Ok(right) => (p1, Ok(ExprView::Unary { op, right: Box::new(right) })),
                }
            } else {
                (p, Err(Stop::Stalled))
            }
        } else {
            self.call(None)
        }
    }

    /// An operand of the given level: an expression of the next tighter
    /// level, and below `Factor` a unary expression.
    pub open spec fn operand(self, level: Level) -> Parsed<ExprView>
        decreases self.remaining(), 3 + 2 * (5 - level.strength()),
    {
        match level {
            Level::Or => self.binary(Level::And, None),
            Level::And => self.binary(Level::Equality, None),
            Level::Equality => self.binary(Level::Comparison, None),
            Level::Comparison => self.binary(Level::Term, None),
            Level::Term => self.binary(Level::Factor, None),
            Level::Factor => self.unary(),
        }
    }

    /// `level := operand ( OPERATOR operand )*`, grouped to the left.
    ///
    /// `left` holds the expression parsed so far and the operator that
    /// follows it.
    pub open spec fn binary(self, level: Level, left: Option<(ExprView, TokenInfoView)>) -> Parsed<ExprView>
        decreases self.remaining(), 4 + 2 * (5 - level.strength()),
    {
        let (p, next) = self.operand(level);
        match next {
            Err(e) => (p, Err(e)),
            Ok(right) => {
                let expr = match left {
                    None => right,
                    Some((l, op)) => ExprView::Binary { left: Box::new(l), op, right: Box::new(right) },
                };
                if level.has(p.curr.token) {
                    let (p1, op) = p.advance();
                    if p1.remaining() < self.remaining() {
                        p1.binary(level, Some((expr, op)))
                    } else {
                        (p1, Err(Stop::Stalled))
                    }
                } else {
                    (p, Ok(expr))
                }
            },
        }
    }

    /// `assignment := or ( ( '=' | '+=' | ... ) assignment )?`
    ///
    /// The left side has to be a variable or a property. `x += e` becomes
    /// `x = x + e`.
    pub open spec fn assignment(self) -> Parsed<ExprView>
        decreases self.remaining(), 15nat,
    {
        let (p, target) = self.binary(Level::Or, None);
        match target {
            Err(e) => (p, Err(e)),
            Ok(left) => if assigns(p.curr.token) {
                let (p1, op) = p.advance();
                if p1.remaining() < self.remaining() {
                    let (p2, value) = p1.assignment();
                    match value {
                        Err(e) => (p2, Err(e)),
                        Ok(right) => {
                            let value = match desugared(op.token) {
                                Some(token) => ExprView::Binary {
                                    left: Box::new(left),
                                    op: TokenInfoView { token: TokenView::Plain(token), span: op.span },
                                    right: Box::new(right),
                                },
                                None => right,
                            };
                            match left {
                                ExprView::Variable { name, span } => (
                                    p2,
                                    Ok(ExprView::Assign { name, value: Box::new(value), span }),
                                ),
                                ExprView::Get { object, name, span } => (
                                    p2,
                                    Ok(ExprView::SetField { object, name, value: Box::new(value), span }),
                                ),
                                _ => (
                                    p2,
                                    Err(failure(ErrorView::Parse("Invalid assignment target"@), op.span)),
                                ),
                            }
                        },
                    }
                } else {
                    (p1, Err(Stop::Stalled))
                }
            } else {
                (p, Ok(left))
            },
        }
    }

    /// `expression := assignment`
    pub open spec fn expression(self) -> Parsed<ExprView>
        decreases self.remaining(), 16nat,
    {
        self.assignment()
    }
}


/// The most parameters that a function may declare.
pub const MAX_PARAMETERS: usize = 255;

impl ParserView {
    /// Consumes a `;` and gives `stmt`.
    pub open spec fn semicolon(self, stmt: StmtView) -> Parsed<StmtView> {
        let (p, semi) = self.should_be(TokenView::Plain(TokenType::Semicolon));
        match semi {
            Err(e) => (p, Err(e)),
            Ok(_) => (p, Ok(stmt)),
        }
    }

    /// `parameters := IDENT ( ',' IDENT )*`, added to `found`; at most
    /// `MAX_PARAMETERS` in all.
    pub open spec fn parameters(self, found: Seq<Seq<char>>) -> Parsed<Seq<Seq<char>>>
        decreases self.remaining(), 18nat,
    {
        let (p, id) = self.get_identifier();
        match id {
            Err(e) => (p, Err(e)),
            Ok((name, span)) => if found.len() >= MAX_PARAMETERS {
                (p, Err(failure(ErrorView::TooManyParameters, span)))
            } else if p.at(TokenType::Comma) {
                let p1 = p.advance().0;
                if p1.remaining() < self.remaining() {
                    p1.parameters(found.push(name))
                } else {
                    (p1, Err(Stop::Stalled))
                }
            } else {
                (p, Ok(found.push(name)))
            },
        }
    }

    /// `expr_stmt := expression ';'`
    pub open spec fn expression_statement(self) -> Parsed<StmtView>
        decreases self.remaining(), 20nat,
    {
        let (p, e) = self.expression();
        match e {
            Err(e) => (p, Err(e)),
            Ok(expr) => p.semicolon(StmtView::Expr { expr }),
        }
    }

    /// `print_stmt := 'print' expression ';'`
    pub open spec fn print_statement(self) -> Parsed<StmtView>
        decreases self.remaining(), 20nat,
    {
        let p = self.advance().0;
        if p.remaining() < self.remaining() {
            let (p1, e) = p.expression();
            match e {
                Err(e) => (p1, Err(e)),
                Ok(expr) => p1.semicolon(StmtView::Print { expr }),
            }
        } else {
            (p, Err(Stop::Stalled))
        }
    }

    /// `return_stmt := 'return' expression? ';'`
    pub open spec fn return_statement(self) -> Parsed<StmtView>
        decreases self.remaining(), 20nat,
    {
        let (p, keyword) = self.advance();
        if p.at(TokenType::Semicolon) {
            p.semicolon(StmtView::Return { value: None, span: keyword.span })
        } else if p.remaining() < self.remaining() {
            let (p1, e) = p.expression();
            match e {
                Err(e) => (p1, Err(e)),
                Ok(expr) => p1.semicolon(StmtView::Return { value: Some(expr), span: keyword.span }),
            }
        } else {
            (p, Err(Stop::Stalled))
        }
    }

    /// `'break' ';'`
    pub open spec fn break_statement(self) -> Parsed<StmtView> {
        let (p, keyword) = self.advance();
        p.semicolon(StmtView::Break { span: keyword.span })
    }

    /// `'continue' ';'`
    pub open spec fn continue_statement(self) -> Parsed<StmtView> {
        let (p, keyword) = self.advance();
        p.semicolon(StmtView::Continue { span: keyword.span })
    }

    /// `'(' expression ')'`, behind a keyword that was consumed in the
    /// state `origin`.
    pub open spec fn condition(self, origin: ParserView) -> Parsed<ExprView>
        decreases origin.remaining(), 19nat,
    {
        let (p, open) = self.should_be(TokenView::Plain(TokenType::LParen));
        match open {
            Err(e) => (p, Err(e)),
            Ok(span) => if p.remaining() < origin.remaining() {
                let (p1, e) = p.expression();
                match e {
                    Err(e) => (p1, Err(e)),
                    Ok(expr) => {
                        let (p2, close) = p1.should_be(TokenView::Plain(TokenType::RParen));
                        match close {
                            Err(e) => (p2, Err(e)),
                            Ok(_) => (p2, Ok(expr)),
                        }
                    },
                }
            } else {
                (p, Err(Stop::Stalled))
            },
        }
    }

    /// `if_stmt := 'if' '(' expression ')' statement ( 'else' statement )?`
    pub open spec fn if_statement(self) -> Parsed<StmtView>
        decreases self.remaining(), 20nat,
    {
        let (p1, c) = self.advance().0.condition(self);
        match c {
            Err(e) => (p1, Err(e)),
            Ok(condition) => if p1.remaining() < self.remaining() {
                let (p2, t) = p1.statement();
                match t {
                    Err(e) => (p2, Err(e)),
                    Ok(truthy) => if p2.at(TokenType::Else) {
                        let p3 = p2.advance().0;
                        if p3.remaining() < self.remaining() {
                            let (p4, f) = p3.statement();
                            match f {
                                Err(e) => (p4, Err(e)),
                                Ok(falsy) => (
                                    p4,
                                    Ok(
                                        StmtView::If {
                                            condition,
                                            truthy: Box::new(truthy),
                                            falsy: Some(Box::new(falsy)),
                                        },
                                    ),
                                ),
                            }
                        } else {
                            (p3, Err(Stop::Stalled))
                        }
                    } else {
                        (p2, Ok(StmtView::If { condition, truthy: Box::new(truthy), falsy: None }))
                    },
                }
            } else {
                (p1, Err(Stop::Stalled))
            },
        }
    }

    /// `while_stmt := 'while' '(' expression ')' statement`
    pub open spec fn while_statement(self) -> Parsed<StmtView>
        decreases self.remaining(), 20nat,
    {
        let (p1, c) = self.advance().0.condition(self);
        match c {
            Err(e) => (p1, Err(e)),
            Ok(condition) => if p1.remaining() < self.remaining() {
                let (p2, b) = p1.statement();
                match b {
                    Err(e) => (p2, Err(e)),
                    Ok(body) => (p2, Ok(StmtView::While { condition, body: Box::new(body) })),
                }
            } else {
                (p1, Err(Stop::Stalled))
            },
        }
    }

    /// The first clause of a `for`: `';'`, a `let` or `const` declaration,
    /// or an expression statement.
    pub open spec fn for_initializer(self, origin: ParserView) -> Parsed<Option<StmtView>>
        decreases origin.remaining(), 19nat,
    {
        if self.at(TokenType::Semicolon) {
            (self.advance().0, Ok(None))
        } else if self.remaining() < origin.remaining() {
            let (p, s) = if self.at(TokenType::Let) || self.at(TokenType::Const) {
                self.let_declaration()
            } else {
                self.expression_statement()
            };
            match s {
                Err(e) => (p, Err(e)),
                Ok(stmt) => (p, Ok(Some(stmt))),
            }
        } else {
            (self, Err(Stop::Stalled))
        }
    }

    /// The second clause of a `for`: `expression? ';'`; `true` where the
    /// expression is missing.
    pub open spec fn for_condition(self, origin: ParserView) -> Parsed<ExprView>
        decreases origin.remaining(), 19nat,
    {
        if self.at(TokenType::Semicolon) {
            (self.advance().0, Ok(ExprView::Literal { value: LiteralView::Boolean(true) }))
        } else if self.remaining() < origin.remaining() {
            let (p, e) = self.expression();
            match e {
                Err(e) => (p, Err(e)),
                Ok(expr) => {
                    let (p1, semi) = p.should_be(TokenView::Plain(TokenType::Semicolon));
                    match semi {
                        Err(e) => (p1, Err(e)),
                        Ok(_) => (p1, Ok(expr)),
                    }
                },
            }
        } else {
            (self, Err(Stop::Stalled))
        }
    }

    /// The third clause of a `for`: `expression? ')'`.
    pub open spec fn for_increment(self, origin: ParserView) -> Parsed<Option<ExprView>>
        decreases origin.remaining(), 19nat,
    {
        if self.at(TokenType::RParen) {
            (self.advance().0, Ok(None))
        } else if self.remaining() < origin.remaining() {
            let (p, e) = self.expression();
            match e {
                Err(e) => (p, Err(e)),
                Ok(expr) => {
                    let (p1, close) = p.should_be(TokenView::Plain(TokenType::RParen));
                    match close {
                        Err(e) => (p1, Err(e)),
                        Ok(_) => (p1, Ok(Some(expr))),
                    }
                },
            }
        } else {
            (self, Err(Stop::Stalled))
        }
    }

    /// `for_stmt := 'for' '(' initializer condition increment statement`
    ///
    /// The result is a block: the initializer, if there is one, then a
    /// `while` loop on the condition whose body is the statement, followed
    /// by the increment where there is one.
    pub open spec fn for_statement(self) -> Parsed<StmtView>
        decreases self.remaining(), 22nat,
    {
        let (p1, open) = self.advance().0.should_be(TokenView::Plain(TokenType::LParen));
        match open {
            Err(e) => (p1, Err(e)),
            Ok(_) => {
                let (p2, i) = p1.for_initializer(self);
                match i {
                    Err(e) => (p2, Err(e)),
                    Ok(initializer) => {
                        let (p3, c) = p2.for_condition(self);
                        match c {
                            Err(e) => (p3, Err(e)),
                            Ok(condition) => {
                                let (p4, n) = p3.for_increment(self);
                                match n {
                                    Err(e) => (p4, Err(e)),
                                    Ok(increment) => if p4.remaining() < self.remaining() {
                                        let (p5, b) = p4.statement();
                                        match b {
                                            Err(e) => (p5, Err(e)),
                                            Ok(body) => (p5, Ok(for_loop(initializer, condition, increment, body))),
                                        }
                                    } else {
                                        (p4, Err(Stop::Stalled))
                                    },
                                }
                            },
                        }
                    },
                }
            },
        }
    }

    /// The statements up to `}` or the end of the text, added to `found`.
    pub open spec fn block_items(self, found: Seq<StmtView>) -> Parsed<Seq<StmtView>>
        decreases self.remaining(), 31nat,
    {
        if self.at(TokenType::RCurly) || self.at(TokenType::Eof) {
            (self, Ok(found))
        } else {
            let (p, s) = self.declaration();
            match s {
                Err(e) => (p, Err(e)),
                Ok(stmt) => if p.remaining() < self.remaining() {
                    p.block_items(found.push(stmt))
                } else {
                    (p, Err(Stop::Stalled))
                },
            }
        }
    }

    /// `block := '{' declaration* '}'`
    pub open spec fn block_statement(self) -> Parsed<StmtView>
        decreases self.remaining(), 20nat,
    {
        let (p, open) = self.should_be(TokenView::Plain(TokenType::LCurly));
        match open {
            Err(e) => (p, Err(e)),
            Ok(span) => if p.remaining() < self.remaining() {
                let (p1, items) = p.block_items(Seq::empty());
                match items {
                    Err(e) => (p1, Err(e)),
                    Ok(stmts) => {
                        let (p2, close) = p1.should_be(TokenView::Plain(TokenType::RCurly));
                        match close {
                            Err(e) => (p2, Err(e)),
                            Ok(_) => (p2, Ok(StmtView::Block { stmts })),
                        }
                    },
                }
            } else {
                (p, Err(Stop::Stalled))
            },
        }
    }

    /// `statement := print_stmt | if_stmt | while_stmt | for_stmt
    ///             | return_stmt | 'break' ';' | 'continue' ';' | block
    ///             | expr_stmt`, told apart by the held token.
    pub open spec fn statement(self) -> Parsed<StmtView>
        decreases self.remaining(), 25nat,
    {
        if self.at(TokenType::Print) {
            self.print_statement()
        } else if self.at(TokenType::If) {
            self.if_statement()
        } else if self.at(TokenType::While) {
            self.while_statement()
        } else if self.at(TokenType::For) {
            self.for_statement()
        } else if self.at(TokenType::Return) {
            self.return_statement()
        } else if self.at(TokenType::LCurly) {
            self.block_statement()
        } else if self.at(TokenType::Break) {
            self.break_statement()
        } else if self.at(TokenType::Continue) {
            self.continue_statement()
        } else {
            self.expression_statement()
        }
    }

    /// `( 'let' | 'const' ) IDENT ( '=' expression )? ';'`
    pub open spec fn let_declaration(self) -> Parsed<StmtView>
        decreases self.remaining(), 21nat,
    {
        let is_const = self.at(TokenType::Const);
        let (p1, id) = self.advance().0.get_identifier();
        match id {
            Err(e) => (p1, Err(e)),
            Ok((name, span)) => if p1.at(TokenType::Assign) {
                let p2 = p1.advance().0;
                if p2.remaining() < self.remaining() {
                    let (p3, e) = p2.expression();
                    match e {
                        Err(e) => (p3, Err(e)),
                        Ok(expr) => p3.semicolon(StmtView::Let { name, value: Some(expr), is_const, span }),
                    }
                } else {
                    (p2, Err(Stop::Stalled))
                }
            } else {
                p1.semicolon(StmtView::Let { name, value: None, is_const, span })
            },
        }
    }

    /// `IDENT '(' parameters? ')' block`, behind `fn` or inside a class.
    pub open spec fn function_declaration(self) -> Parsed<StmtView>
        decreases self.remaining(), 21nat,
    {
        let (p1, id) = self.get_identifier();
        match id {
            Err(e) => (p1, Err(e)),
            Ok((name, span)) => {
                let (p2, open) = p1.should_be(TokenView::Plain(TokenType::LParen));
                match open {
                    Err(e) => (p2, Err(e)),
                    Ok(_) => {
                        let (p3, list) = if p2.at(TokenType::RParen) {
                            (p2, Ok(Seq::<Seq<char>>::empty()))
                        } else {
                            p2.parameters(Seq::empty())
                        };
                        match list {
                            Err(e) => (p3, Err(e)),
                            Ok(params) => {
                                let (p4, close) = p3.should_be(TokenView::Plain(TokenType::RParen));
                                match close {
                                    Err(e) => (p4, Err(e)),
                                    Ok(_) => if p4.remaining() < self.remaining() {
                                        let (p5, b) = p4.block_statement();
                                        match b {
                                            Err(e) => (p5, Err(e)),
                                            Ok(body) => (
                                                p5,
                                                Ok(StmtView::Function { name, params, body: Box::new(body), span }),
                                            ),
                                        }
                                    } else {
                                        (p4, Err(Stop::Stalled))
                                    },
                                }
                            },
                        }
                    },
                }
            },
        }
    }

    /// The methods up to `}` or the end of the text, added to `found`.
    pub open spec fn methods(self, found: Seq<StmtView>) -> Parsed<Seq<StmtView>>
        decreases self.remaining(), 27nat,
    {
        if self.at(TokenType::RCurly) || self.at(TokenType::Eof) {
            (self, Ok(found))
        } else {
            let (p, m) = self.function_declaration();
            match m {
                Err(e) => (p, Err(e)),
                Ok(method) => if p.remaining() < self.remaining() {
                    p.methods(found.push(method))
                } else {
                    (p, Err(Stop::Stalled))
                },
            }
        }
    }

    /// `( '<' IDENT )?` behind the name of a class; the class may not
    /// name itself.
    pub open spec fn super_class(self, name: Seq<char>) -> Parsed<Option<Seq<char>>> {
        if self.at(TokenType::Lt) {
            let (p, id) = self.advance().0.get_identifier();
            match id {
                Err(e) => (p, Err(e)),
                Ok((parent, span)) => if parent == name {
                    (p, Err(failure(ErrorView::Parse("Cannot inherit from itself"@), span)))
                } else {
                    (p, Ok(Some(parent)))
                },
            }
        } else {
            (self, Ok(None))
        }
    }

    /// `'class' IDENT ( '<' IDENT )? '{' function* '}'`
    pub open spec fn class_declaration(self) -> Parsed<StmtView>
        decreases self.remaining(), 28nat,
    {
        let (p1, id) = self.advance().0.get_identifier();
        match id {
            Err(e) => (p1, Err(e)),
            Ok((name, span)) => {
                let (p2, parent) = p1.super_class(name);
                match parent {
                    Err(e) => (p2, Err(e)),
                    Ok(super_class) => {
                        let (p3, open) = p2.should_be(TokenView::Plain(TokenType::LCurly));
                        match open {
                            Err(e) => (p3, Err(e)),
                            Ok(_) => if p3.remaining() < self.remaining() {
                                let (p4, list) = p3.methods(Seq::empty());
                                match list {
                                    Err(e) => (p4, Err(e)),
                                    Ok(methods) => {
                                        let (p5, close) = p4.should_be(TokenView::Plain(TokenType::RCurly));
                                        match close {
                                            Err(e) => (p5, Err(e)),
                                            Ok(_) => (
                                                p5,
                                                Ok(StmtView::Class { name, super_class, methods, span }),
                                            ),
                                        }
                                    },
                                }
                            } else {
                                (p3, Err(Stop::Stalled))
                            },
                        }
                    },
                }
            },
        }
    }

    /// `declaration := let_decl | class_decl | 'fn' function | statement`,
    /// told apart by the held token.
    pub open spec fn declaration(self) -> Parsed<StmtView>
        decreases self.remaining(), 29nat,
    {
        if self.at(TokenType::Let) || self.at(TokenType::Const) {
            self.let_declaration()
        } else if self.at(TokenType::Class) {
            self.class_declaration()
        } else if self.at(TokenType::Function) {
            let p = self.advance().0;
            if p.remaining() < self.remaining() {
                p.function_declaration()
            } else {
                (p, Err(Stop::Stalled))
            }
        } else {
            self.statement()
        }
    }

    /// `program := declaration* EOF`, added to `found`. The first error
    /// ends the parse.
    pub open spec fn program(self, found: Seq<StmtView>) -> Parsed<Seq<StmtView>>
        decreases self.remaining(), 32nat,
    {
        if self.at(TokenType::Eof) {
            (self, Ok(found))
        } else {
            let (p, s) = self.declaration();
            match s {
                Err(e) => (p, Err(e)),
                Ok(stmt) => if p.remaining() < self.remaining() {
                    p.program(found.push(stmt))
                } else {
                    (p, Err(Stop::Stalled))
                },
            }
        }
    }
}

/// What `for (initializer condition increment) body` stands for.
pub open spec fn for_loop(
    initializer: Option<StmtView>,
    condition: ExprView,
    increment: Option<ExprView>,
    body: StmtView,
) -> StmtView {
    let repeated = match increment {
        Some(expr) => StmtView::Block { stmts: seq![body, StmtView::Expr { expr }] },
        None => body,
    };
    let looping = StmtView::While { condition, body: Box::new(repeated) };
    match initializer {
        Some(first) => StmtView::Block { stmts: seq![first, looping] },
        None => StmtView::Block { stmts: seq![looping] },
    }
}

/// The mathematical value of a parsing result.
pub open spec fn view_result<T: View>(r: Result<T, ErrorInfo>) -> Result<T::V, Stop> {
    match r {
        Ok(x) => Ok(x@),
        Err(e) => Err(Stop::Error(e@)),
    }
}

/// The mathematical value of the result of parsing a list of expressions.
pub open spec fn view_exprs(r: Result<Vec<Expr>, ErrorInfo>) -> Result<Seq<ExprView>, Stop> {
    match r {
        Ok(v) => Ok(expr_models(v@)),
        Err(e) => Err(Stop::Error(e@)),
    }
}

/// The mathematical value of an expression with the operator behind it.
pub open spec fn view_left(left: Option<(Expr, TokenInfo)>) -> Option<(ExprView, TokenInfoView)> {
    match left {
        Some((e, op)) => Some((e@, op@)),
        None => None,
    }
}

/// `head`, `middle` and `tail` in a row.
pub(crate) fn framed(head: &str, middle: &String, tail: &str) -> (r: String)
    ensures
        r@ == head@ + middle@ + tail@,
{
    let mut r = String::from_str(head);
    r.append(middle.as_str());
    r.append(tail);
    r
}

fn expected_found_text(expected: &String, found: &String) -> (r: String)
    ensures
        r@ == expected_found(expected@, found@),
{
    let mut r = framed("Expected: \"", expected, "\" Found: \"");
    r.append(found.as_str());
    r.append("\"");
    r
}

/// The parser.
pub struct Parser {
    lexer: Lexer,
    prev: TokenInfo,
    curr: TokenInfo,
}

impl View for Parser {
    type V = ParserView;

    closed spec fn view(&self) -> ParserView {
        ParserView { lexer: self.lexer@, prev: self.prev@, curr: self.curr@ }
    }
}

impl ParserView {
    /// The state of a parser that begins on `lexer`: it holds the first
    /// token.
    pub open spec fn begin(lexer: LexerView) -> ParserView {
        let (lexer, first) = lexer.next();
        ParserView {
            lexer,
            prev: TokenInfoView {
                token: TokenView::Plain(TokenType::Eof),
                span: Span { line: 0, line_start: 0, start: 0, end: 0 },
            },
            curr: first,
        }
    }
}

impl Parser {
    pub open spec fn wf(&self) -> bool {
        self@.wf()
    }

    pub fn new(lexer: Lexer) -> (p: Self)
        requires
            lexer.wf(),
        ensures
            p.wf(),
            p@ == ParserView::begin(lexer@),
    {
        let mut lexer = lexer;
        let curr = lexer.next();
        Self { prev: TokenInfo::new(TokenType::Eof, 0, 0, 0, 0), curr, lexer }
    }

    /// The lexical errors passed over so far, oldest first.
    pub fn lexical_errors(&self) -> (errors: &Vec<ErrorInfo>)
        ensures
            crate::lexer::error_views(errors@) == self@.lexer.errors,
    {
        self.lexer.errors()
    }

    fn advance(&mut self) -> (t: TokenInfo)
        requires
            old(self).wf(),
        ensures
            final(self).wf(),
            (final(self)@, t@) == old(self)@.advance(),
            t == old(self).curr,
            !old(self)@.at(TokenType::Eof) ==> final(self)@.remaining() < old(self)@.remaining(),
    {
        let mut held = self.lexer.next();
        core::mem::swap(&mut self.curr, &mut held);
        self.prev = held.clone();
        held
    }

    fn should_be(&mut self, token_type: TokenType) -> (r: Result<Span, ErrorInfo>)
        requires
            old(self).wf(),
        ensures
            final(self).wf(),
            final(self)@ == old(self)@.should_be(token_type@).0,
            match r {
                Ok(s) => old(self)@.should_be(token_type@).1 == Ok::<Span, Stop>(s),
                Err(e) => old(self)@.should_be(token_type@).1 == Err::<Span, Stop>(Stop::Error(e@)),
            },
            r is Ok && token_type@ != TokenView::Plain(TokenType::Eof) ==> final(self)@.remaining() < old(
                self,
            )@.remaining(),
    {
        let val = self.advance();
        if val.token.same(&token_type) {
            Ok(val.span)
        } else {
            let expected = token_type.to_string();
            let found = val.token.to_string();
            let error = Error::Syntax(expected_found_text(&expected, &found));
            Err(ErrorInfo::new_with_span(error, val.span))
        }
    }

    fn get_identifier(&mut self) -> (r: Result<(String, Span), ErrorInfo>)
        requires
            old(self).wf(),
        ensures
            final(self).wf(),
            final(self)@ == old(self)@.get_identifier().0,
            match r {
                Ok((name, span)) => old(self)@.get_identifier().1 == Ok::<(Seq<char>, Span), Stop>((name@, span)),
                Err(e) => old(self)@.get_identifier().1 == Err::<(Seq<char>, Span), Stop>(Stop::Error(e@)),
            },
            r is Ok ==> final(self)@.remaining() < old(self)@.remaining(),
    {
        let val = self.advance();
        match val.token {
            TokenType::Identifier(name) => Ok((name, val.span)),
            other => {
                let expected = String::from_str("Identifier");
                let found = other.to_string();
                let error = Error::Syntax(expected_found_text(&expected, &found));
                Err(ErrorInfo::new_with_span(error, val.span))
            },
        }
    }

    fn primary(&mut self) -> (r: Result<Expr, ErrorInfo>)
        requires
            old(self).wf(),
        ensures
            final(self).wf(),
            (final(self)@, view_result(r)) == old(self)@.primary(),
            r is Ok ==> final(self)@.remaining() < old(self)@.remaining(),
        decreases old(self)@.remaining(), 0nat,
    {
        let tok = self.curr.clone();
        let span = tok.span;
        match tok.token {
            TokenType::True => {
                self.advance();
                Ok(Expr::Literal { value: LiteralType::Boolean(true) })
            },
            TokenType::False => {
                self.advance();
                Ok(Expr::Literal { value: LiteralType::Boolean(false) })
            },
            TokenType::Nil => {
                self.advance();
                Ok(Expr::Literal { value: LiteralType::Nil })
            },
            TokenType::Number(x) => {
                self.advance();
                Ok(Expr::Literal { value: LiteralType::Number(x) })
            },
            TokenType::String(x) => {
                self.advance();
                Ok(Expr::Literal { value: LiteralType::String(x) })
            },
            TokenType::Identifier(name) => {
                self.advance();
                Ok(Expr::Variable { name, span })
            },
            TokenType::This => {
                self.advance();
                Ok(Expr::Variable { name: String::from_str("this"), span })
            },
            TokenType::LParen => {
                self.advance();
                let expr = match self.expression() {
                    Ok(expr) => expr,
                    Err(e) => {
                        return Err(e);
                    },
                };
                match self.should_be(TokenType::RParen) {
                    Ok(_) => Ok(Expr::Grouping { expr: Box::new(expr), span }),
                    Err(e) => Err(e),
                }
            },
            TokenType::Super => {
                self.advance();
                match self.should_be(TokenType::Dot) {
                    Ok(_) => {},
                    Err(e) => {
                        return Err(e);
                    },
                }
                match self.get_identifier() {
                    Ok((name, span)) => Ok(Expr::Super { name, span }),
                    Err(e) => Err(e),
                }
            },
            other => {
                let found = other.to_string();
                let error = Error::Parse(framed("Expect expression found \"", &found, "\""));
                Err(ErrorInfo::new_with_span(error, span))
            },
        }
    }

    fn call(&mut self) -> (r: Result<Expr, ErrorInfo>)
        requires
            old(self).wf(),
        ensures
            final(self).wf(),
            (final(self)@, view_result(r)) == old(self)@.call(None),
            r is Ok ==> final(self)@.remaining() < old(self)@.remaining(),
        decreases old(self)@.remaining(), 1nat,
    {
        let mut expr = match self.primary() {
            Ok(expr) => expr,
            Err(e) => {
                return Err(e);
            },
        };
        loop
            invariant
                self.wf(),
                self@.call(Some(expr@)) == old(self)@.call(None),
                self@.remaining() < old(self)@.remaining(),
            decreases self@.remaining(),
        {
            if matches!(self.curr.token, TokenType::LParen) {
                let open = self.advance();
                let args = if matches!(self.curr.token, TokenType::RParen) {
                    Vec::new()
                } else {
                    match self.arguments() {
                        Ok(args) => args,
                        Err(e) => {
                            return Err(e);
                        },
                    }
                };
                assert(expr_models(Seq::<Expr>::empty()) =~= Seq::<ExprView>::empty());
                match self.should_be(TokenType::RParen) {
                    Ok(_) => {},
                    Err(e) => {
                        return Err(e);
                    },
                }
                expr = Expr::Call { callee: Box::new(expr), args, span: open.span };
            } else if matches!(self.curr.token, TokenType::Dot) {
                self.advance();
                match self.get_identifier() {
                    Ok((name, span)) => {
                        expr = Expr::Get { object: Box::new(expr), name, span };
                    },
                    Err(e) => {
                        return Err(e);
                    },
                }
            } else {
                return Ok(expr);
            }
        }
    }

    fn arguments(&mut self) -> (r: Result<Vec<Expr>, ErrorInfo>)
        requires
            old(self).wf(),
        ensures
            final(self).wf(),
            (final(self)@, view_exprs(r)) == old(self)@.arguments(Seq::empty()),
            r is Ok ==> final(self)@.remaining() < old(self)@.remaining(),
        decreases old(self)@.remaining(), 32nat,
    {
        let mut args: Vec<Expr> = Vec::new();
        assert(expr_models(args@) =~= Seq::<ExprView>::empty());
        loop
            invariant
                self.wf(),
                self@.arguments(expr_models(args@)) == old(self)@.arguments(Seq::empty()),
                self@.remaining() <= old(self)@.remaining(),
            decreases self@.remaining(),
        {
            let expr = match self.expression() {
                Ok(expr) => expr,
                Err(e) => {
                    return Err(e);
                },
            };
            proof {
                expr_models_push(args@, expr);
            }
            args.push(expr);
            if matches!(self.curr.token, TokenType::Comma) {
                self.advance();
            } else {
                return Ok(args);
            }
        }
    }

    fn unary(&mut self) -> (r: Result<Expr, ErrorInfo>)
        requires
            old(self).wf(),
        ensures
            final(self).wf(),
            (final(self)@, view_result(r)) == old(self)@.unary(),
            r is Ok ==> final(self)@.remaining() < old(self)@.remaining(),
        decreases old(self)@.remaining(), 2nat,
    {
        if matches!(self.curr.token, TokenType::Minus | TokenType::Not | TokenType::Plus) {
            let op = self.advance();
            match self.unary() {
                Ok(right) => Ok(Expr::Unary { op, right: Box::new(right) }),
                Err(e) => Err(e),
            }
        } else {
            self.call()
        }
    }

    fn factor(&mut self) -> (r: Result<Expr, ErrorInfo>)
        requires
            old(self).wf(),
        ensures
            final(self).wf(),
            (final(self)@, view_result(r)) == old(self)@.binary(Level::Factor, None),
            r is Ok ==> final(self)@.remaining() < old(self)@.remaining(),
        decreases old(self)@.remaining(), 14nat,
    {
        self.binary(Level::Factor)
    }

    fn term(&mut self) -> (r: Result<Expr, ErrorInfo>)
        requires
            old(self).wf(),
        ensures
            final(self).wf(),
            (final(self)@, view_result(r)) == old(self)@.binary(Level::Term, None),
            r is Ok ==> final(self)@.remaining() < old(self)@.remaining(),
        decreases old(self)@.remaining(), 17nat,
    {
        self.binary(Level::Term)
    }

    fn comparison(&mut self) -> (r: Result<Expr, ErrorInfo>)
        requires
            old(self).wf(),
        ensures
            final(self).wf(),
            (final(self)@, view_result(r)) == old(self)@.binary(Level::Comparison, None),
            r is Ok ==> final(self)@.remaining() < old(self)@.remaining(),
        decreases old(self)@.remaining(), 20nat,
    {
        self.binary(Level::Comparison)
    }

    fn equality(&mut self) -> (r: Result<Expr, ErrorInfo>)
        requires
            old(self).wf(),
        ensures
            final(self).wf(),
            (final(self)@, view_result(r)) == old(self)@.binary(Level::Equality, None),
            r is Ok ==> final(self)@.remaining() < old(self)@.remaining(),
        decreases old(self)@.remaining(), 23nat,
    {
        self.binary(Level::Equality)
    }

    fn and(&mut self) -> (r: Result<Expr, ErrorInfo>)
        requires
            old(self).wf(),
        ensures
            final(self).wf(),
            (final(self)@, view_result(r)) == old(self)@.binary(Level::And, None),
            r is Ok ==> final(self)@.remaining() < old(self)@.remaining(),
        decreases old(self)@.remaining(), 26nat,
    {
        self.binary(Level::And)
    }

    fn or(&mut self) -> (r: Result<Expr, ErrorInfo>)
        requires
            old(self).wf(),
        ensures
            final(self).wf(),
            (final(self)@, view_result(r)) == old(self)@.binary(Level::Or, None),
            r is Ok ==> final(self)@.remaining() < old(self)@.remaining(),
        decreases old(self)@.remaining(), 29nat,
    {
        self.binary(Level::Or)
    }

    fn operand(&mut self, level: Level) -> (r: Result<Expr, ErrorInfo>)
        requires
            old(self).wf(),
        ensures
            final(self).wf(),
            (final(self)@, view_result(r)) == old(self)@.operand(level),
            r is Ok ==> final(self)@.remaining() < old(self)@.remaining(),
        decreases old(self)@.remaining(), 12 + 3 * (5 - level.strength()),
    {
        match level {
            Level::Or => self.and(),
            Level::And => self.equality(),
            Level::Equality => self.comparison(),
            Level::Comparison => self.term(),
            Level::Term => self.factor(),
            Level::Factor => self.unary(),
        }
    }

    fn binary(&mut self, level: Level) -> (r: Result<Expr, ErrorInfo>)
        requires
            old(self).wf(),
        ensures
            final(self).wf(),
            (final(self)@, view_result(r)) == old(self)@.binary(level, None),
            r is Ok ==> final(self)@.remaining() < old(self)@.remaining(),
        decreases old(self)@.remaining(), 13 + 3 * (5 - level.strength()),
    {
        let mut left: Option<(Expr, TokenInfo)> = None;
        loop
            invariant
                self.wf(),
                self@.binary(level, view_left(left)) == old(self)@.binary(level, None),
                self@.remaining() <= old(self)@.remaining(),
                left is Some ==> self@.remaining() < old(self)@.remaining(),
            decreases self@.remaining(),
        {
            let right = match self.operand(level) {
                Ok(right) => right,
                Err(e) => {
                    return Err(e);
                },
            };
            let expr = match left {
                None => right,
                Some((l, op)) => Expr::Binary { left: Box::new(l), op, right: Box::new(right) },
            };
            if level.holds(&self.curr.token) {
                let op = self.advance();
                left = Some((expr, op));
            } else {
                return Ok(expr);
            }
        }
    }

    fn assignment(&mut self) -> (r: Result<Expr, ErrorInfo>)
        requires
            old(self).wf(),
        ensures
            final(self).wf(),
            (final(self)@, view_result(r)) == old(self)@.assignment(),
            r is Ok ==> final(self)@.remaining() < old(self)@.remaining(),
        decreases old(self)@.remaining(), 30nat,
    {
        let left = match self.or() {
            Ok(left) => left,
            Err(e) => {
                return Err(e);
            },
        };
        let assigning = matches!(
            self.curr.token,
            TokenType::Assign | TokenType::PlusEq | TokenType::SubEq | TokenType::ModEq | TokenType::DivEq
                | TokenType::AndEq | TokenType::OrEq | TokenType::MulEq | TokenType::XorEq
        );
        if !assigning {
            return Ok(left);
        }
        let op = self.advance();
        let right = match self.assignment() {
            Ok(right) => right,
            Err(e) => {
                return Err(e);
            },
        };
        let ghost op_view = op@;
        let TokenInfo { token, span: op_span } = op;
        let value = match desugar_assign(token) {
            Some(token) => {
                let copy = left.clone();
                Expr::Binary { left: Box::new(copy), op: TokenInfo { token, span: op_span }, right: Box::new(right) }
            },
            None => right,
        };
        let ghost expected = match desugared(op_view.token) {
            Some(token) => ExprView::Binary {
                left: Box::new(left@),
                op: TokenInfoView { token: TokenView::Plain(token), span: op_view.span },
                right: Box::new(right@),
            },
            None => right@,
        };
        assert(value@ == expected);
        match left {
            Expr::Variable { name, span } => Ok(Expr::Assign { name, value: Box::new(value), span }),
            Expr::Get { object, name, span } => Ok(Expr::SetField { object, name, value: Box::new(value), span }),
            _ => {
                let error = Error::Parse(String::from_str("Invalid assignment target"));
                Err(ErrorInfo::new_with_span(error, op_span))
            },
        }
    }

    fn expression(&mut self) -> (r: Result<Expr, ErrorInfo>)
        requires
            old(self).wf(),
        ensures
            final(self).wf(),
            (final(self)@, view_result(r)) == old(self)@.expression(),
            r is Ok ==> final(self)@.remaining() < old(self)@.remaining(),
        decreases old(self)@.remaining(), 31nat,
    {
        self.assignment()
    }
}


/// The mathematical value of the result of parsing a list of statements.
pub open spec fn view_stmts(r: Result<Vec<Stmt>, ErrorInfo>) -> Result<Seq<StmtView>, Stop> {
    match r {
        Ok(v) => Ok(stmt_models(v@)),
        Err(e) => Err(Stop::Error(e@)),
    }
}

/// The mathematical value of the result of parsing a list of names.
pub open spec fn view_names(r: Result<Vec<String>, ErrorInfo>) -> Result<Seq<Seq<char>>, Stop> {
    match r {
        Ok(v) => Ok(crate::ast::name_views(v@)),
        Err(e) => Err(Stop::Error(e@)),
    }
}

/// The mathematical value of the result of parsing what may be missing.
pub open spec fn view_optional<T: View>(r: Result<Option<T>, ErrorInfo>) -> Result<Option<T::V>, Stop> {
    match r {
        Ok(Some(x)) => Ok(Some(x@)),
        Ok(None) => Ok(None),
        Err(e) => Err(Stop::Error(e@)),
    }
}

/// The mathematical value of the result of parsing a program.
pub open spec fn view_program(r: Result<Program, ErrorInfo>) -> Result<Seq<StmtView>, Stop> {
    match r {
        Ok(p) => Ok(p@),
        Err(e) => Err(Stop::Error(e@)),
    }
}

/// The mathematical value of a statement that may be missing.
pub open spec fn optional_stmt(s: Option<Stmt>) -> Option<StmtView> {
    match s {
        Some(s) => Some(s@),
        None => None,
    }
}

/// Builds what a `for` statement stands for.
fn build_for(initializer: Option<Stmt>, condition: Expr, increment: Option<Expr>, body: Stmt) -> (r: Stmt)
    ensures
        r@ == for_loop(optional_stmt(initializer), condition@, crate::ast::optional_model(increment), body@),
{
    let ghost i = optional_stmt(initializer);
    let ghost c = condition@;
    let ghost n = crate::ast::optional_model(increment);
    let ghost b = body@;
    let repeated = match increment {
        Some(expr) => {
            let mut inner: Vec<Stmt> = Vec::new();
            let ghost e = expr@;
            let step = Stmt::Expr { expr };
            assert(step@ == StmtView::Expr { expr: e });
            inner.push(body);
            inner.push(step);
            assert(stmt_models(inner@) =~= seq![b, StmtView::Expr { expr: e }]);
            let block = Stmt::Block { stmts: inner };
            assert(block@ == StmtView::Block { stmts: seq![b, StmtView::Expr { expr: e }] });
            block
        },
        None => body,
    };
    let ghost rv = repeated@;
    let looping = Stmt::While { condition, body: Box::new(repeated) };
    let ghost l = looping@;
    assert(l == StmtView::While { condition: c, body: Box::new(rv) });
    let mut stmts: Vec<Stmt> = Vec::new();
    match initializer {
        Some(first) => {
            let ghost f = first@;
            stmts.push(first);
            stmts.push(looping);
            assert(stmt_models(stmts@) =~= seq![f, l]);
        },
        None => {
            stmts.push(looping);
            assert(stmt_models(stmts@) =~= seq![l]);
        },
    }
    let ghost sv = stmt_models(stmts@);
    let result = Stmt::Block { stmts };
    assert(result@ == StmtView::Block { stmts: sv });
    assert(result@ == for_loop(i, c, n, b));
    result
}

impl Parser {
    fn semicolon(&mut self, stmt: Stmt) -> (r: Result<Stmt, ErrorInfo>)
        requires
            old(self).wf(),
        ensures
            final(self).wf(),
            (final(self)@, view_result(r)) == old(self)@.semicolon(stmt@),
            r is Ok ==> final(self)@.remaining() < old(self)@.remaining(),
    {
        match self.should_be(TokenType::Semicolon) {
            Ok(_) => Ok(stmt),
            Err(e) => Err(e),
        }
    }

    fn parameters(&mut self) -> (r: Result<Vec<String>, ErrorInfo>)
        requires
            old(self).wf(),
        ensures
            final(self).wf(),
            (final(self)@, view_names(r)) == old(self)@.parameters(Seq::empty()),
            r is Ok ==> final(self)@.remaining() < old(self)@.remaining(),
    {
        let mut params: Vec<String> = Vec::new();
        assert(crate::ast::name_views(params@) =~= Seq::<Seq<char>>::empty());
        loop
            invariant
                self.wf(),
                self@.parameters(crate::ast::name_views(params@)) == old(self)@.parameters(Seq::empty()),
                self@.remaining() <= old(self)@.remaining(),
            decreases self@.remaining(),
        {
            let (name, span) = match self.get_identifier() {
                Ok(found) => found,
                Err(e) => {
                    return Err(e);
                },
            };
            if params.len() >= MAX_PARAMETERS {
                return Err(ErrorInfo::new_with_span(Error::TooManyParameters, span));
            }
            let ghost before = params@;
            params.push(name);
            assert(crate::ast::name_views(params@) =~= crate::ast::name_views(before).push(name@));
            if matches!(self.curr.token, TokenType::Comma) {
                self.advance();
            } else {
                return Ok(params);
            }
        }
    }

    fn expression_statement(&mut self) -> (r: Result<Stmt, ErrorInfo>)
        requires
            old(self).wf(),
        ensures
            final(self).wf(),
            (final(self)@, view_result(r)) == old(self)@.expression_statement(),
            r is Ok ==> final(self)@.remaining() < old(self)@.remaining(),
        decreases old(self)@.remaining(), 40nat,
    {
        match self.expression() {
            Ok(expr) => self.semicolon(Stmt::Expr { expr }),
            Err(e) => Err(e),
        }
    }

    fn print_statement(&mut self) -> (r: Result<Stmt, ErrorInfo>)
        requires
            old(self).wf(),
            old(self)@.at(TokenType::Print),
        ensures
            final(self).wf(),
            (final(self)@, view_result(r)) == old(self)@.print_statement(),
            r is Ok ==> final(self)@.remaining() < old(self)@.remaining(),
        decreases old(self)@.remaining(), 40nat,
    {
        self.advance();
        match self.expression() {
            Ok(expr) => self.semicolon(Stmt::Print { expr }),
            Err(e) => Err(e),
        }
    }

    fn return_statement(&mut self) -> (r: Result<Stmt, ErrorInfo>)
        requires
            old(self).wf(),
            old(self)@.at(TokenType::Return),
        ensures
            final(self).wf(),
            (final(self)@, view_result(r)) == old(self)@.return_statement(),
            r is Ok ==> final(self)@.remaining() < old(self)@.remaining(),
        decreases old(self)@.remaining(), 40nat,
    {
        let keyword = self.advance();
        if matches!(self.curr.token, TokenType::Semicolon) {
            self.semicolon(Stmt::Return { value: None, span: keyword.span })
        } else {
            match self.expression() {
                Ok(expr) => self.semicolon(Stmt::Return { value: Some(expr), span: keyword.span }),
                Err(e) => Err(e),
            }
        }
    }

    fn break_statement(&mut self) -> (r: Result<Stmt, ErrorInfo>)
        requires
            old(self).wf(),
            old(self)@.at(TokenType::Break),
        ensures
            final(self).wf(),
            (final(self)@, view_result(r)) == old(self)@.break_statement(),
            r is Ok ==> final(self)@.remaining() < old(self)@.remaining(),
    {
        let keyword = self.advance();
        self.semicolon(Stmt::Break { span: keyword.span })
    }

    fn continue_statement(&mut self) -> (r: Result<Stmt, ErrorInfo>)
        requires
            old(self).wf(),
            old(self)@.at(TokenType::Continue),
        ensures
            final(self).wf(),
            (final(self)@, view_result(r)) == old(self)@.continue_statement(),
            r is Ok ==> final(self)@.remaining() < old(self)@.remaining(),
    {
        let keyword = self.advance();
        self.semicolon(Stmt::Continue { span: keyword.span })
    }

    fn condition(&mut self, Ghost(origin): Ghost<ParserView>) -> (r: Result<Expr, ErrorInfo>)
        requires
            old(self).wf(),
            old(self)@.remaining() <= origin.remaining(),
        ensures
            final(self).wf(),
            (final(self)@, view_result(r)) == old(self)@.condition(origin),
            r is Ok ==> final(self)@.remaining() < old(self)@.remaining(),
        decreases origin.remaining(), 39nat,
    {
        match self.should_be(TokenType::LParen) {
            Ok(_) => {},
            Err(e) => {
                return Err(e);
            },
        }
        let expr = match self.expression() {
            Ok(expr) => expr,
            Err(e) => {
                return Err(e);
            },
        };
        match self.should_be(TokenType::RParen) {
            Ok(_) => Ok(expr),
            Err(e) => Err(e),
        }
    }

    fn if_statement(&mut self) -> (r: Result<Stmt, ErrorInfo>)
        requires
            old(self).wf(),
            old(self)@.at(TokenType::If),
        ensures
            final(self).wf(),
            (final(self)@, view_result(r)) == old(self)@.if_statement(),
            r is Ok ==> final(self)@.remaining() < old(self)@.remaining(),
        decreases old(self)@.remaining(), 40nat,
    {
        let ghost origin = self@;
        self.advance();
        let condition = match self.condition(Ghost(origin)) {
            Ok(expr) => expr,
            Err(e) => {
                return Err(e);
            },
        };
        let truthy = match self.statement() {
            Ok(stmt) => stmt,
            Err(e) => {
                return Err(e);
            },
        };
        if matches!(self.curr.token, TokenType::Else) {
            self.advance();
            match self.statement() {
                Ok(falsy) => Ok(Stmt::If { condition, truthy: Box::new(truthy), falsy: Some(Box::new(falsy)) }),
                Err(e) => Err(e),
            }
        } else {
            Ok(Stmt::If { condition, truthy: Box::new(truthy), falsy: None })
        }
    }

    fn while_statement(&mut self) -> (r: Result<Stmt, ErrorInfo>)
        requires
            old(self).wf(),
            old(self)@.at(TokenType::While),
        ensures
            final(self).wf(),
            (final(self)@, view_result(r)) == old(self)@.while_statement(),
            r is Ok ==> final(self)@.remaining() < old(self)@.remaining(),
        decreases old(self)@.remaining(), 40nat,
    {
        let ghost origin = self@;
        self.advance();
        let condition = match self.condition(Ghost(origin)) {
            Ok(expr) => expr,
            Err(e) => {
                return Err(e);
            },
        };
        match self.statement() {
            Ok(body) => Ok(Stmt::While { condition, body: Box::new(body) }),
            Err(e) => Err(e),
        }
    }

    fn for_initializer(&mut self, Ghost(origin): Ghost<ParserView>) -> (r: Result<Option<Stmt>, ErrorInfo>)
        requires
            old(self).wf(),
            old(self)@.remaining() < origin.remaining(),
        ensures
            final(self).wf(),
            (final(self)@, view_optional(r)) == old(self)@.for_initializer(origin),
            r is Ok ==> final(self)@.remaining() < old(self)@.remaining(),
        decreases origin.remaining(), 39nat,
    {
        if matches!(self.curr.token, TokenType::Semicolon) {
            self.advance();
            Ok(None)
        } else {
            let found = if matches!(self.curr.token, TokenType::Let | TokenType::Const) {
                self.let_declaration()
            } else {
                self.expression_statement()
            };
            match found {
                Ok(stmt) => Ok(Some(stmt)),
                Err(e) => Err(e),
            }
        }
    }

    fn for_condition(&mut self, Ghost(origin): Ghost<ParserView>) -> (r: Result<Expr, ErrorInfo>)
        requires
            old(self).wf(),
            old(self)@.remaining() < origin.remaining(),
        ensures
            final(self).wf(),
            (final(self)@, view_result(r)) == old(self)@.for_condition(origin),
            r is Ok ==> final(self)@.remaining() < old(self)@.remaining(),
        decreases origin.remaining(), 39nat,
    {
        if matches!(self.curr.token, TokenType::Semicolon) {
            self.advance();
            Ok(Expr::Literal { value: LiteralType::Boolean(true) })
        } else {
            let expr = match self.expression() {
                Ok(expr) => expr,
                Err(e) => {
                    return Err(e);
                },
            };
            match self.should_be(TokenType::Semicolon) {
                Ok(_) => Ok(expr),
                Err(e) => Err(e),
            }
        }
    }

    fn for_increment(&mut self, Ghost(origin): Ghost<ParserView>) -> (r: Result<Option<Expr>, ErrorInfo>)
        requires
            old(self).wf(),
            old(self)@.remaining() < origin.remaining(),
        ensures
            final(self).wf(),
            (final(self)@, view_optional(r)) == old(self)@.for_increment(origin),
            r is Ok ==> final(self)@.remaining() < old(self)@.remaining(),
        decreases origin.remaining(), 39nat,
    {
        if matches!(self.curr.token, TokenType::RParen) {
            self.advance();
            Ok(None)
        } else {
            let expr = match self.expression() {
                Ok(expr) => expr,
                Err(e) => {
                    return Err(e);
                },
            };
            match self.should_be(TokenType::RParen) {
                Ok(_) => Ok(Some(expr)),
                Err(e) => Err(e),
            }
        }
    }

    fn for_statement(&mut self) -> (r: Result<Stmt, ErrorInfo>)
        requires
            old(self).wf(),
            old(self)@.at(TokenType::For),
        ensures
            final(self).wf(),
            (final(self)@, view_result(r)) == old(self)@.for_statement(),
            r is Ok ==> final(self)@.remaining() < old(self)@.remaining(),
        decreases old(self)@.remaining(), 42nat,
    {
        let ghost origin = self@;
        self.advance();
        match self.should_be(TokenType::LParen) {
            Ok(_) => {},
            Err(e) => {
                return Err(e);
            },
        }
        let initializer = match self.for_initializer(Ghost(origin)) {
            Ok(found) => found,
            Err(e) => {
                return Err(e);
            },
        };
        let condition = match self.for_condition(Ghost(origin)) {
            Ok(expr) => expr,
            Err(e) => {
                return Err(e);
            },
        };
        let increment = match self.for_increment(Ghost(origin)) {
            Ok(found) => found,
            Err(e) => {
                return Err(e);
            },
        };
        match self.statement() {
            Ok(body) => Ok(build_for(initializer, condition, increment, body)),
            Err(e) => Err(e),
        }
    }

    fn block_items(&mut self) -> (r: Result<Vec<Stmt>, ErrorInfo>)
        requires
            old(self).wf(),
        ensures
            final(self).wf(),
            (final(self)@, view_stmts(r)) == old(self)@.block_items(Seq::empty()),
            r is Ok ==> final(self)@.remaining() <= old(self)@.remaining(),
        decreases old(self)@.remaining(), 51nat,
    {
        let mut stmts: Vec<Stmt> = Vec::new();
        assert(stmt_models(stmts@) =~= Seq::<StmtView>::empty());
        loop
            invariant
                self.wf(),
                self@.block_items(stmt_models(stmts@)) == old(self)@.block_items(Seq::empty()),
                self@.remaining() <= old(self)@.remaining(),
            decreases self@.remaining(),
        {
            if matches!(self.curr.token, TokenType::RCurly | TokenType::Eof) {
                return Ok(stmts);
            }
            let stmt = match self.declaration() {
                Ok(stmt) => stmt,
                Err(e) => {
                    return Err(e);
                },
            };
            proof {
                stmt_models_push(stmts@, stmt);
            }
            stmts.push(stmt);
        }
    }

    fn block_statement(&mut self) -> (r: Result<Stmt, ErrorInfo>)
        requires
            old(self).wf(),
        ensures
            final(self).wf(),
            (final(self)@, view_result(r)) == old(self)@.block_statement(),
            r is Ok ==> final(self)@.remaining() < old(self)@.remaining(),
        decreases old(self)@.remaining(), 40nat,
    {
        match self.should_be(TokenType::LCurly) {
            Ok(_) => {},
            Err(e) => {
                return Err(e);
            },
        }
        let stmts = match self.block_items() {
            Ok(stmts) => stmts,
            Err(e) => {
                return Err(e);
            },
        };
        match self.should_be(TokenType::RCurly) {
            Ok(_) => Ok(Stmt::Block { stmts }),
            Err(e) => Err(e),
        }
    }

    fn statement(&mut self) -> (r: Result<Stmt, ErrorInfo>)
        requires
            old(self).wf(),
        ensures
            final(self).wf(),
            (final(self)@, view_result(r)) == old(self)@.statement(),
            r is Ok ==> final(self)@.remaining() < old(self)@.remaining(),
        decreases old(self)@.remaining(), 45nat,
    {
        match self.curr.token {
            TokenType::Print => self.print_statement(),
            TokenType::If => self.if_statement(),
            TokenType::While => self.while_statement(),
            TokenType::For => self.for_statement(),
            TokenType::Return => self.return_statement(),
            TokenType::LCurly => self.block_statement(),
            TokenType::Break => self.break_statement(),
            TokenType::Continue => self.continue_statement(),
            _ => self.expression_statement(),
        }
    }

    fn let_declaration(&mut self) -> (r: Result<Stmt, ErrorInfo>)
        requires
            old(self).wf(),
            old(self)@.at(TokenType::Let) || old(self)@.at(TokenType::Const),
        ensures
            final(self).wf(),
            (final(self)@, view_result(r)) == old(self)@.let_declaration(),
            r is Ok ==> final(self)@.remaining() < old(self)@.remaining(),
        decreases old(self)@.remaining(), 41nat,
    {
        let is_const = matches!(self.curr.token, TokenType::Const);
        self.advance();
        let (name, span) = match self.get_identifier() {
            Ok(found) => found,
            Err(e) => {
                return Err(e);
            },
        };
        if matches!(self.curr.token, TokenType::Assign) {
            self.advance();
            match self.expression() {
                Ok(expr) => self.semicolon(Stmt::Let { name, value: Some(expr), is_const, span }),
                Err(e) => Err(e),
            }
        } else {
            self.semicolon(Stmt::Let { name, value: None, is_const, span })
        }
    }

    fn function_declaration(&mut self) -> (r: Result<Stmt, ErrorInfo>)
        requires
            old(self).wf(),
        ensures
            final(self).wf(),
            (final(self)@, view_result(r)) == old(self)@.function_declaration(),
            r is Ok ==> final(self)@.remaining() < old(self)@.remaining(),
        decreases old(self)@.remaining(), 41nat,
    {
        let (name, span) = match self.get_identifier() {
            Ok(found) => found,
            Err(e) => {
                return Err(e);
            },
        };
        match self.should_be(TokenType::LParen) {
            Ok(_) => {},
            Err(e) => {
                return Err(e);
            },
        }
        let params = if matches!(self.curr.token, TokenType::RParen) {
            let empty: Vec<String> = Vec::new();
            assert(crate::ast::name_views(empty@) =~= Seq::<Seq<char>>::empty());
            empty
        } else {
            match self.parameters() {
                Ok(params) => params,
                Err(e) => {
                    return Err(e);
                },
            }
        };
        match self.should_be(TokenType::RParen) {
            Ok(_) => {},
            Err(e) => {
                return Err(e);
            },
        }
        match self.block_statement() {
            Ok(body) => Ok(Stmt::Function { name, params, body: Box::new(body), span }),
            Err(e) => Err(e),
        }
    }

    fn super_class(&mut self, name: &String) -> (r: Result<Option<String>, ErrorInfo>)
        requires
            old(self).wf(),
        ensures
            final(self).wf(),
            (final(self)@, view_optional(r)) == old(self)@.super_class(name@),
            r is Ok ==> final(self)@.remaining() <= old(self)@.remaining(),
    {
        if matches!(self.curr.token, TokenType::Lt) {
            self.advance();
            let (parent, span) = match self.get_identifier() {
                Ok(found) => found,
                Err(e) => {
                    return Err(e);
                },
            };
            if parent == *name {
                let error = Error::Parse(String::from_str("Cannot inherit from itself"));
                Err(ErrorInfo::new_with_span(error, span))
            } else {
                Ok(Some(parent))
            }
        } else {
            Ok(None)
        }
    }

    fn methods(&mut self) -> (r: Result<Vec<Stmt>, ErrorInfo>)
        requires
            old(self).wf(),
        ensures
            final(self).wf(),
            (final(self)@, view_stmts(r)) == old(self)@.methods(Seq::empty()),
            r is Ok ==> final(self)@.remaining() <= old(self)@.remaining(),
        decreases old(self)@.remaining(), 47nat,
    {
        let mut methods: Vec<Stmt> = Vec::new();
        assert(stmt_models(methods@) =~= Seq::<StmtView>::empty());
        loop
            invariant
                self.wf(),
                self@.methods(stmt_models(methods@)) == old(self)@.methods(Seq::empty()),
                self@.remaining() <= old(self)@.remaining(),
            decreases self@.remaining(),
        {
            if matches!(self.curr.token, TokenType::RCurly | TokenType::Eof) {
                return Ok(methods);
            }
            let method = match self.function_declaration() {
                Ok(method) => method,
                Err(e) => {
                    return Err(e);
                },
            };
            proof {
                stmt_models_push(methods@, method);
            }
            methods.push(method);
        }
    }

    fn class_declaration(&mut self) -> (r: Result<Stmt, ErrorInfo>)
        requires
            old(self).wf(),
            old(self)@.at(TokenType::Class),
        ensures
            final(self).wf(),
            (final(self)@, view_result(r)) == old(self)@.class_declaration(),
            r is Ok ==> final(self)@.remaining() < old(self)@.remaining(),
        decreases old(self)@.remaining(), 48nat,
    {
        self.advance();
        let (name, span) = match self.get_identifier() {
            Ok(found) => found,
            Err(e) => {
                return Err(e);
            },
        };
        let super_class = match self.super_class(&name) {
            Ok(found) => found,
            Err(e) => {
                return Err(e);
            },
        };
        match self.should_be(TokenType::LCurly) {
            Ok(_) => {},
            Err(e) => {
                return Err(e);
            },
        }
        let methods = match self.methods() {
            Ok(methods) => methods,
            Err(e) => {
                return Err(e);
            },
        };
        match self.should_be(TokenType::RCurly) {
            Ok(_) => Ok(Stmt::Class { name, super_class, methods, span }),
            Err(e) => Err(e),
        }
    }

    fn declaration(&mut self) -> (r: Result<Stmt, ErrorInfo>)
        requires
            old(self).wf(),
        ensures
            final(self).wf(),
            (final(self)@, view_result(r)) == old(self)@.declaration(),
            r is Ok ==> final(self)@.remaining() < old(self)@.remaining(),
        decreases old(self)@.remaining(), 49nat,
    {
        match self.curr.token {
            TokenType::Let | TokenType::Const => self.let_declaration(),
            TokenType::Class => self.class_declaration(),
            TokenType::Function => {
                self.advance();
                self.function_declaration()
            },
            _ => self.statement(),
        }
    }

    /// Parses the whole text: the program, or the first error.
    pub fn parse_program(&mut self) -> (r: Result<Program, ErrorInfo>)
        requires
            old(self).wf(),
        ensures
            final(self).wf(),
            (final(self)@, view_program(r)) == old(self)@.program(Seq::empty()),
    {
        let mut stmts: Vec<Stmt> = Vec::new();
        assert(stmt_models(stmts@) =~= Seq::<StmtView>::empty());
        let mut more = !matches!(self.curr.token, TokenType::Eof);
        while more
            invariant
                self.wf(),
                more == !self@.at(TokenType::Eof),
                self@.program(stmt_models(stmts@)) == old(self)@.program(Seq::empty()),
            decreases self@.remaining(),
        {
            let stmt = match self.declaration() {
                Ok(stmt) => stmt,
                Err(e) => {
                    return Err(e);
                },
            };
            proof {
                stmt_models_push(stmts@, stmt);
            }
            stmts.push(stmt);
            more = !matches!(self.curr.token, TokenType::Eof);
        }
        Ok(Program::new(stmts))
    }
}

/// Consuming a token other than `Eof` leaves fewer characters to parse.
/// So the check that each round of the grammar makes, that fewer
/// characters remain than before, cannot fail behind a consumed token.
pub proof fn advance_moves_on(p: ParserView)
    requires
        p.wf(),
    ensures
        p.advance().0.wf(),
        p.advance().1 == p.curr,
        !p.at(TokenType::Eof) ==> p.advance().0.remaining() < p.remaining(),
{
    crate::lexer::next_moves_on(p.lexer);
}

/// A parser that begins on a lexer at the start of a text is well formed.
pub proof fn begin_is_well_formed(lexer: LexerView)
    requires
        lexer.wf(),
    ensures
        ParserView::begin(lexer).wf(),
{
    crate::lexer::next_moves_on(lexer);
}

} // verus!
