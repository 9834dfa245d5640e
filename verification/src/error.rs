//! Errors and their rendering.

use vstd::prelude::*;
use crate::span::Span;
use crate::text::{decimal, decimal_text};

verus! {

/// What went wrong.
#[derive(Debug, PartialEq)]
pub enum Error {
    /// The lexer or the parser met a structure it does not know.
    Syntax(String),
    /// A literal cannot be turned into a value.
    Value(String),
    /// A structural violation found by the parser.
    Parse(String),
    /// An operator was applied to operands it does not take.
    Runtime(String),
    /// No enclosing scope binds the name.
    Name(String),
    /// A number was divided by zero.
    ZeroDivision,
    /// A parameter list is longer than the implementation accepts.
    TooManyParameters,
    /// A value that is no function was called.
    Type(String),
}

pub enum ErrorView {
    Syntax(Seq<char>),
    Value(Seq<char>),
    Parse(Seq<char>),
    Runtime(Seq<char>),
    Name(Seq<char>),
    ZeroDivision,
    TooManyParameters,
    Type(Seq<char>),
}

impl View for Error {
    type V = ErrorView;

    open spec fn view(&self) -> ErrorView {
        match self {
            Error::Syntax(s) => ErrorView::Syntax(s@),
            Error::Value(s) => ErrorView::Value(s@),
            Error::Parse(s) => ErrorView::Parse(s@),
            Error::Runtime(s) => ErrorView::Runtime(s@),
            Error::Name(s) => ErrorView::Name(s@),
            Error::ZeroDivision => ErrorView::ZeroDivision,
            Error::TooManyParameters => ErrorView::TooManyParameters,
            Error::Type(s) => ErrorView::Type(s@),
        }
    }
}

impl ErrorView {
    /// The kind and the message, as one line.
    pub open spec fn text(self) -> Seq<char> {
        match self {
            ErrorView::Syntax(s) => "SyntaxError: "@ + s,
            ErrorView::Value(s) => "ValueError: "@ + s,
            ErrorView::Parse(s) => "ParseError: "@ + s,
            ErrorView::Runtime(s) => "RuntimeError: "@ + s,
            ErrorView::Name(s) => "NameError: undefined variable \""@ + s + "\""@,
            ErrorView::ZeroDivision => "ZeroDivisionError: division by zero"@,
            ErrorView::TooManyParameters => "TooManyParameters: exceeded maximum number of parameters"@,
            ErrorView::Type(s) => "TypeError: "@ + s,
        }
    }
}

fn prefixed(prefix: &str, s: &String) -> (r: String)
    ensures
        r@ == prefix@ + s@,
{
    let mut r = String::from_str(prefix);
    r.append(s.as_str());
    r
}

impl Error {
    /// The kind and the message, as one line.
    pub fn to_string(&self) -> (r: String)
        ensures
            r@ == self@.text(),
    {
        match self {
            Error::Syntax(s) => prefixed("SyntaxError: ", s),
            Error::Value(s) => prefixed("ValueError: ", s),
            Error::Parse(s) => prefixed("ParseError: ", s),
            Error::Runtime(s) => prefixed("RuntimeError: ", s),
            Error::Name(s) => {
                let mut r = prefixed("NameError: undefined variable \"", s);
                r.append("\"");
                r
            },
            Error::ZeroDivision => String::from_str("ZeroDivisionError: division by zero"),
            Error::TooManyParameters => String::from_str(
                "TooManyParameters: exceeded maximum number of parameters",
            ),
            Error::Type(s) => prefixed("TypeError: ", s),
        }
    }
}

impl Clone for Error {
    fn clone(&self) -> (r: Self)
        ensures
            r == *self,
    {
        match self {
            Error::Syntax(s) => Error::Syntax(s.clone()),
            Error::Value(s) => Error::Value(s.clone()),
            Error::Parse(s) => Error::Parse(s.clone()),
            Error::Runtime(s) => Error::Runtime(s.clone()),
            Error::Name(s) => Error::Name(s.clone()),
            Error::ZeroDivision => Error::ZeroDivision,
            Error::TooManyParameters => Error::TooManyParameters,
            Error::Type(s) => Error::Type(s.clone()),
        }
    }
}

/// An error with the place it was found at.
#[derive(Debug, PartialEq)]
pub struct ErrorInfo {
    pub error: Error,
    pub span: Span,
}

pub struct ErrorInfoView {
    pub error: ErrorView,
    pub span: Span,
}

impl View for ErrorInfo {
    type V = ErrorInfoView;

    open spec fn view(&self) -> ErrorInfoView {
        ErrorInfoView { error: self.error@, span: self.span }
    }
}

impl ErrorInfoView {
    /// The line shown to the user: the error, its line and the column of
    /// its first character.
    pub open spec fn text(self) -> Seq<char> {
        self.error.text() + ", line "@ + decimal(self.span.line as nat) + ", pos "@ + decimal(
            self.span.column() as nat,
        )
    }
}

impl Clone for ErrorInfo {
    fn clone(&self) -> (r: Self)
        ensures
            r == *self,
    {
        ErrorInfo { error: self.error.clone(), span: self.span }
    }
}

impl ErrorInfo {
    pub fn new(error: Error, line: usize, line_start: usize, start: usize, end: usize) -> (e: Self)
        ensures
            e.error == error,
            e.span == (Span { line, line_start, start, end }),
    {
        Self { error, span: Span::new(line, line_start, start, end) }
    }

    pub fn new_with_span(error: Error, span: Span) -> (e: Self)
        ensures
            e.error == error,
            e.span == span,
    {
        Self { error, span }
    }

    /// The line to show to the user.
    pub fn report(&self) -> (r: String)
        ensures
            r@ == self@.text(),
    {
        let mut r = self.error.to_string();
        r.append(", line ");
        let line = decimal_text(self.span.line);
        r.append(line.as_str());
        r.append(", pos ");
        let column = if self.span.start >= self.span.line_start {
            self.span.start - self.span.line_start
        } else {
            0
        };
        let pos = decimal_text(column);
        r.append(pos.as_str());
        r
    }
}

} // verus!
