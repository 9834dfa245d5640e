//! Lexical units.

use vstd::prelude::*;
use crate::span::Span;

verus! {

/// The tag of a token, with its payload where it has one.
///
/// A `Number` carries the text of its literal, digits with at most one
/// decimal point; turning that text into a value is the host's work.
#[derive(Debug, PartialEq)]
pub enum TokenType {
    Identifier(String),
    String(String),
    Number(String),
    True,
    False,
    Comma,
    Semicolon,
    Colon,
    Function,
    Let,
    Const,
    Return,
    If,
    Else,
    For,
    While,
    LParen,
    RParen,
    LBrace,
    RBrace,
    LCurly,
    RCurly,
    Assign,
    Plus,
    Minus,
    Times,
    Divide,
    Mod,
    LShift,
    RShift,
    And,
    Or,
    Not,
    Xor,
    Lt,
    Gt,
    Eq,
    Ne,
    Lte,
    Gte,
    Eof,
    PlusEq,
    DivEq,
    SubEq,
    MulEq,
    AndEq,
    OrEq,
    XorEq,
    ModEq,
    LAnd,
    LOr,
    Import,
    Class,
    Nil,
    This,
    Break,
    Continue,
    Print,
    Dot,
    Super,
}

/// The mathematical value of a token tag: the payload as a sequence of
/// characters, or the tag itself where there is no payload.
pub enum TokenView {
    Identifier(Seq<char>),
    String(Seq<char>),
    Number(Seq<char>),
    Plain(TokenType),
}

impl View for TokenType {
    type V = TokenView;

    open spec fn view(&self) -> TokenView {
        match self {
            TokenType::Identifier(s) => TokenView::Identifier(s@),
            TokenType::String(s) => TokenView::String(s@),
            TokenType::Number(s) => TokenView::Number(s@),
            _ => TokenView::Plain(*self),
        }
    }
}

impl TokenView {
    /// How the token is written in messages.
    pub open spec fn text(self) -> Seq<char> {
        match self {
            TokenView::Identifier(s) => "$"@ + s,
            TokenView::String(s) => "\""@ + s + "\""@,
            TokenView::Number(s) => s,
            TokenView::Plain(t) => t.symbol(),
        }
    }
}

impl TokenType {
    /// A tag without payload.
    pub open spec fn is_plain(self) -> bool {
        !(self is Identifier) && !(self is String) && !(self is Number)
    }

    /// A number that tells the tags apart.
    pub open spec fn ordinal(self) -> nat {
        match self {
            TokenType::Identifier(_) => 0,
            TokenType::String(_) => 1,
            TokenType::Number(_) => 2,
            TokenType::True => 3,
            TokenType::False => 4,
            TokenType::Comma => 5,
            TokenType::Semicolon => 6,
            TokenType::Colon => 7,
            TokenType::Function => 8,
            TokenType::Let => 9,
            TokenType::Const => 10,
            TokenType::Return => 11,
            TokenType::If => 12,
            TokenType::Else => 13,
            TokenType::For => 14,
            TokenType::While => 15,
            TokenType::LParen => 16,
            TokenType::RParen => 17,
            TokenType::LBrace => 18,
            TokenType::RBrace => 19,
            TokenType::LCurly => 20,
            TokenType::RCurly => 21,
            TokenType::Assign => 22,
            TokenType::Plus => 23,
            TokenType::Minus => 24,
            TokenType::Times => 25,
            TokenType::Divide => 26,
            TokenType::Mod => 27,
            TokenType::LShift => 28,
            TokenType::RShift => 29,
            TokenType::And => 30,
            TokenType::Or => 31,
            TokenType::Not => 32,
            TokenType::Xor => 33,
            TokenType::Lt => 34,
            TokenType::Gt => 35,
            TokenType::Eq => 36,
            TokenType::Ne => 37,
            TokenType::Lte => 38,
            TokenType::Gte => 39,
            TokenType::Eof => 40,
            TokenType::PlusEq => 41,
            TokenType::DivEq => 42,
            TokenType::SubEq => 43,
            TokenType::MulEq => 44,
            TokenType::AndEq => 45,
            TokenType::OrEq => 46,
            TokenType::XorEq => 47,
            TokenType::ModEq => 48,
            TokenType::LAnd => 49,
            TokenType::LOr => 50,
            TokenType::Import => 51,
            TokenType::Class => 52,
            TokenType::Nil => 53,
            TokenType::This => 54,
            TokenType::Break => 55,
            TokenType::Continue => 56,
            TokenType::Print => 57,
            TokenType::Dot => 58,
            TokenType::Super => 59,
        }
    }

    /// The spelling of a tag without payload; empty for the others.
    pub open spec fn symbol(self) -> Seq<char> {
        match self {
            TokenType::Identifier(_) => Seq::empty(),
            TokenType::String(_) => Seq::empty(),
            TokenType::Number(_) => Seq::empty(),
            TokenType::True => "True"@,
            TokenType::False => "False"@,
            TokenType::Comma => ","@,
            TokenType::Semicolon => ";"@,
            TokenType::Colon => ":"@,
            TokenType::Function => "fn"@,
            TokenType::Let => "let"@,
            TokenType::Const => "let"@,
            TokenType::Return => "return"@,
            TokenType::If => "if"@,
            TokenType::Else => "else"@,
            TokenType::For => "for"@,
            TokenType::While => "while"@,
            TokenType::LParen => "("@,
            TokenType::RParen => ")"@,
            TokenType::LBrace => "["@,
            TokenType::RBrace => "]"@,
            TokenType::LCurly => "{"@,
            TokenType::RCurly => "}"@,
            TokenType::Assign => "="@,
            TokenType::Plus => "+"@,
            TokenType::Minus => "-"@,
            TokenType::Times => "*"@,
            TokenType::Divide => "/"@,
            TokenType::Mod => "%"@,
            TokenType::LShift => "<<"@,
            TokenType::RShift => ">>"@,
            TokenType::And => "&"@,
            TokenType::Or => "|"@,
            TokenType::Not => "!"@,
            TokenType::Xor => "^"@,
            TokenType::Lt => "<"@,
            TokenType::Gt => ">"@,
            TokenType::Eq => "=="@,
            TokenType::Ne => "!="@,
            TokenType::Lte => "=<"@,
            TokenType::Gte => ">="@,
            TokenType::Eof => "EOF"@,
            TokenType::PlusEq => "+="@,
            TokenType::DivEq => "/="@,
            TokenType::SubEq => "-="@,
            TokenType::MulEq => "*="@,
            TokenType::AndEq => "&="@,
            TokenType::OrEq => "|="@,
            TokenType::XorEq => "^="@,
            TokenType::ModEq => "%="@,
            TokenType::LAnd => "&&"@,
            TokenType::LOr => "||"@,
            TokenType::Import => "import"@,
            TokenType::Class => "class"@,
            TokenType::Nil => "nil"@,
            TokenType::This => "this"@,
            TokenType::Break => "break"@,
            TokenType::Continue => "continue"@,
            TokenType::Print => "print"@,
            TokenType::Dot => "."@,
            TokenType::Super => "super"@,
        }
    }

    fn code(&self) -> (c: u8)
        ensures
            c == self.ordinal(),
    {
        match self {
            TokenType::Identifier(_) => 0,
            TokenType::String(_) => 1,
            TokenType::Number(_) => 2,
            TokenType::True => 3,
            TokenType::False => 4,
            TokenType::Comma => 5,
            TokenType::Semicolon => 6,
            TokenType::Colon => 7,
            TokenType::Function => 8,
            TokenType::Let => 9,
            TokenType::Const => 10,
            TokenType::Return => 11,
            TokenType::If => 12,
            TokenType::Else => 13,
            TokenType::For => 14,
            TokenType::While => 15,
            TokenType::LParen => 16,
            TokenType::RParen => 17,
            TokenType::LBrace => 18,
            TokenType::RBrace => 19,
            TokenType::LCurly => 20,
            TokenType::RCurly => 21,
            TokenType::Assign => 22,
            TokenType::Plus => 23,
            TokenType::Minus => 24,
            TokenType::Times => 25,
            TokenType::Divide => 26,
            TokenType::Mod => 27,
            TokenType::LShift => 28,
            TokenType::RShift => 29,
            TokenType::And => 30,
            TokenType::Or => 31,
            TokenType::Not => 32,
            TokenType::Xor => 33,
            TokenType::Lt => 34,
            TokenType::Gt => 35,
            TokenType::Eq => 36,
            TokenType::Ne => 37,
            TokenType::Lte => 38,
            TokenType::Gte => 39,
            TokenType::Eof => 40,
            TokenType::PlusEq => 41,
            TokenType::DivEq => 42,
            TokenType::SubEq => 43,
            TokenType::MulEq => 44,
            TokenType::AndEq => 45,
            TokenType::OrEq => 46,
            TokenType::XorEq => 47,
            TokenType::ModEq => 48,
            TokenType::LAnd => 49,
            TokenType::LOr => 50,
            TokenType::Import => 51,
            TokenType::Class => 52,
            TokenType::Nil => 53,
            TokenType::This => 54,
            TokenType::Break => 55,
            TokenType::Continue => 56,
            TokenType::Print => 57,
            TokenType::Dot => 58,
            TokenType::Super => 59,
        }
    }

    /// Whether two tags are the same tag with the same payload.
    pub fn same(&self, other: &TokenType) -> (b: bool)
        ensures
            b == (self@ == other@),
    {
        if self.code() != other.code() {
            return false;
        }
        match (self, other) {
            (TokenType::Identifier(x), TokenType::Identifier(y)) => *x == *y,
            (TokenType::String(x), TokenType::String(y)) => *x == *y,
            (TokenType::Number(x), TokenType::Number(y)) => *x == *y,
            _ => true,
        }
    }

    /// How the token is written in messages.
    pub fn to_string(&self) -> (s: String)
        ensures
            s@ == self@.text(),
    {
        match self {
            TokenType::Identifier(x) => {
                let mut s = String::from_str("$");
                s.append(x.as_str());
                s
            },
            TokenType::String(x) => {
                let mut s = String::from_str("\"");
                s.append(x.as_str());
                s.append("\"");
                s
            },
            TokenType::Number(x) => x.clone(),
            TokenType::True => String::from_str("True"),
            TokenType::False => String::from_str("False"),
            TokenType::Comma => String::from_str(","),
            TokenType::Semicolon => String::from_str(";"),
            TokenType::Colon => String::from_str(":"),
            TokenType::Function => String::from_str("fn"),
            TokenType::Let => String::from_str("let"),
            TokenType::Const => String::from_str("let"),
            TokenType::Return => String::from_str("return"),
            TokenType::If => String::from_str("if"),
            TokenType::Else => String::from_str("else"),
            TokenType::For => String::from_str("for"),
            TokenType::While => String::from_str("while"),
            TokenType::LParen => String::from_str("("),
            TokenType::RParen => String::from_str(")"),
            TokenType::LBrace => String::from_str("["),
            TokenType::RBrace => String::from_str("]"),
            TokenType::LCurly => String::from_str("{"),
            TokenType::RCurly => String::from_str("}"),
            TokenType::Assign => String::from_str("="),
            TokenType::Plus => String::from_str("+"),
            TokenType::Minus => String::from_str("-"),
            TokenType::Times => String::from_str("*"),
            TokenType::Divide => String::from_str("/"),
            TokenType::Mod => String::from_str("%"),
            TokenType::LShift => String::from_str("<<"),
            TokenType::RShift => String::from_str(">>"),
            TokenType::And => String::from_str("&"),
            TokenType::Or => String::from_str("|"),
            TokenType::Not => String::from_str("!"),
            TokenType::Xor => String::from_str("^"),
            TokenType::Lt => String::from_str("<"),
            TokenType::Gt => String::from_str(">"),
            TokenType::Eq => String::from_str("=="),
            TokenType::Ne => String::from_str("!="),
            TokenType::Lte => String::from_str("=<"),
            TokenType::Gte => String::from_str(">="),
            TokenType::Eof => String::from_str("EOF"),
            TokenType::PlusEq => String::from_str("+="),
            TokenType::DivEq => String::from_str("/="),
            TokenType::SubEq => String::from_str("-="),
            TokenType::MulEq => String::from_str("*="),
            TokenType::AndEq => String::from_str("&="),
            TokenType::OrEq => String::from_str("|="),
            TokenType::XorEq => String::from_str("^="),
            TokenType::ModEq => String::from_str("%="),
            TokenType::LAnd => String::from_str("&&"),
            TokenType::LOr => String::from_str("||"),
            TokenType::Import => String::from_str("import"),
            TokenType::Class => String::from_str("class"),
            TokenType::Nil => String::from_str("nil"),
            TokenType::This => String::from_str("this"),
            TokenType::Break => String::from_str("break"),
            TokenType::Continue => String::from_str("continue"),
            TokenType::Print => String::from_str("print"),
            TokenType::Dot => String::from_str("."),
            TokenType::Super => String::from_str("super"),
        }
    }
}

/// A token with its place in the source.
#[derive(Debug, PartialEq)]
pub struct TokenInfo {
    pub token: TokenType,
    pub span: Span,
}

pub struct TokenInfoView {
    pub token: TokenView,
    pub span: Span,
}

impl View for TokenInfo {
    type V = TokenInfoView;

    open spec fn view(&self) -> TokenInfoView {
        TokenInfoView { token: self.token@, span: self.span }
    }
}

impl TokenInfo {
    pub fn new(token: TokenType, start: usize, end: usize, line: usize, line_start: usize) -> (t: Self)
        ensures
            t.token == token,
            t.span == (Span { line, line_start, start, end }),
    {
        Self { token, span: Span { start, end, line, line_start } }
    }

    /// Whether the token has the given tag and payload.
    pub fn is(&self, token: TokenType) -> (b: bool)
        ensures
            b == (self.token@ == token@),
    {
        self.token.same(&token)
    }
}

impl Clone for TokenType {
    fn clone(&self) -> (r: Self)
        ensures
            r == *self,
    {
        match self {
            TokenType::Identifier(s) => TokenType::Identifier(s.clone()),
            TokenType::String(s) => TokenType::String(s.clone()),
            TokenType::Number(s) => TokenType::Number(s.clone()),
            TokenType::True => TokenType::True,
            TokenType::False => TokenType::False,
            TokenType::Comma => TokenType::Comma,
            TokenType::Semicolon => TokenType::Semicolon,
            TokenType::Colon => TokenType::Colon,
            TokenType::Function => TokenType::Function,
            TokenType::Let => TokenType::Let,
            TokenType::Const => TokenType::Const,
            TokenType::Return => TokenType::Return,
            TokenType::If => TokenType::If,
            TokenType::Else => TokenType::Else,
            TokenType::For => TokenType::For,
            TokenType::While => TokenType::While,
            TokenType::LParen => TokenType::LParen,
            TokenType::RParen => TokenType::RParen,
            TokenType::LBrace => TokenType::LBrace,
            TokenType::RBrace => TokenType::RBrace,
            TokenType::LCurly => TokenType::LCurly,
            TokenType::RCurly => TokenType::RCurly,
            TokenType::Assign => TokenType::Assign,
            TokenType::Plus => TokenType::Plus,
            TokenType::Minus => TokenType::Minus,
            TokenType::Times => TokenType::Times,
            TokenType::Divide => TokenType::Divide,
            TokenType::Mod => TokenType::Mod,
            TokenType::LShift => TokenType::LShift,
            TokenType::RShift => TokenType::RShift,
            TokenType::And => TokenType::And,
            TokenType::Or => TokenType::Or,
            TokenType::Not => TokenType::Not,
            TokenType::Xor => TokenType::Xor,
            TokenType::Lt => TokenType::Lt,
            TokenType::Gt => TokenType::Gt,
            TokenType::Eq => TokenType::Eq,
            TokenType::Ne => TokenType::Ne,
            TokenType::Lte => TokenType::Lte,
            TokenType::Gte => TokenType::Gte,
            TokenType::Eof => TokenType::Eof,
            TokenType::PlusEq => TokenType::PlusEq,
            TokenType::DivEq => TokenType::DivEq,
            TokenType::SubEq => TokenType::SubEq,
            TokenType::MulEq => TokenType::MulEq,
            TokenType::AndEq => TokenType::AndEq,
            TokenType::OrEq => TokenType::OrEq,
            TokenType::XorEq => TokenType::XorEq,
            TokenType::ModEq => TokenType::ModEq,
            TokenType::LAnd => TokenType::LAnd,
            TokenType::LOr => TokenType::LOr,
            TokenType::Import => TokenType::Import,
            TokenType::Class => TokenType::Class,
            TokenType::Nil => TokenType::Nil,
            TokenType::This => TokenType::This,
            TokenType::Break => TokenType::Break,
            TokenType::Continue => TokenType::Continue,
            TokenType::Print => TokenType::Print,
            TokenType::Dot => TokenType::Dot,
            TokenType::Super => TokenType::Super,
        }
    }
}

impl Clone for TokenInfo {
    fn clone(&self) -> (r: Self)
        ensures
            r == *self,
    {
        TokenInfo { token: self.token.clone(), span: self.span }
    }
}

/// The token that the word `ident` stands for: its keyword, or else the
/// identifier `ident`. Keywords are lower case, and case matters.
pub open spec fn keyword_or_identifier(ident: Seq<char>) -> TokenView {
    if ident == "true"@ {
        TokenView::Plain(TokenType::True)
    } else if ident == "false"@ {
        TokenView::Plain(TokenType::False)
    } else if ident == "fn"@ {
        TokenView::Plain(TokenType::Function)
    } else if ident == "let"@ {
        TokenView::Plain(TokenType::Let)
    } else if ident == "else"@ {
        TokenView::Plain(TokenType::Else)
    } else if ident == "if"@ {
        TokenView::Plain(TokenType::If)
    } else if ident == "for"@ {
        TokenView::Plain(TokenType::For)
    } else if ident == "while"@ {
        TokenView::Plain(TokenType::While)
    } else if ident == "return"@ {
        TokenView::Plain(TokenType::Return)
    } else if ident == "import"@ {
        TokenView::Plain(TokenType::Import)
    } else if ident == "nil"@ {
        TokenView::Plain(TokenType::Nil)
    } else if ident == "class"@ {
        TokenView::Plain(TokenType::Class)
    } else if ident == "this"@ {
        TokenView::Plain(TokenType::This)
    } else if ident == "break"@ {
        TokenView::Plain(TokenType::Break)
    } else if ident == "continue"@ {
        TokenView::Plain(TokenType::Continue)
    } else if ident == "super"@ {
        TokenView::Plain(TokenType::Super)
    } else if ident == "print"@ {
        TokenView::Plain(TokenType::Print)
    } else if ident == "const"@ {
        TokenView::Plain(TokenType::Const)
    } else {
        TokenView::Identifier(ident)
    }
}

fn is_word(ident: &String, word: &str) -> (b: bool)
    ensures
        b == (ident@ == word@),
{
    let w = String::from_str(word);
    *ident == w
}

/// The token that the word `ident` stands for.
pub fn lookup_identifier(ident: String) -> (t: TokenType)
    ensures
        t@ == keyword_or_identifier(ident@),
{
    if is_word(&ident, "true") {
        TokenType::True
    } else if is_word(&ident, "false") {
        TokenType::False
    } else if is_word(&ident, "fn") {
        TokenType::Function
    } else if is_word(&ident, "let") {
        TokenType::Let
    } else if is_word(&ident, "else") {
        TokenType::Else
    } else if is_word(&ident, "if") {
        TokenType::If
    } else if is_word(&ident, "for") {
        TokenType::For
    } else if is_word(&ident, "while") {
        TokenType::While
    } else if is_word(&ident, "return") {
        TokenType::Return
    } else if is_word(&ident, "import") {
        TokenType::Import
    } else if is_word(&ident, "nil") {
        TokenType::Nil
    } else if is_word(&ident, "class") {
        TokenType::Class
    } else if is_word(&ident, "this") {
        TokenType::This
    } else if is_word(&ident, "break") {
        TokenType::Break
    } else if is_word(&ident, "continue") {
        TokenType::Continue
    } else if is_word(&ident, "super") {
        TokenType::Super
    } else if is_word(&ident, "print") {
        TokenType::Print
    } else if is_word(&ident, "const") {
        TokenType::Const
    } else {
        TokenType::Identifier(ident)
    }
}

} // verus!
