//! A tree-walking interpreter for a small, dynamically typed scripting
//! language: lexer, recursive-descent parser, syntax tree, scope chain and
//! evaluator, each stated against a mathematical model and verified.

pub mod span;
pub mod text;
pub mod number;
pub mod token;
pub mod error;
pub mod lexer;
pub mod ast;
pub mod printer;
pub mod parser;
pub mod object;
pub mod environment;
pub mod machine;
pub mod interpretor;

pub use span::Span;
pub use number::Number;
pub use token::{lookup_identifier, TokenInfo, TokenType};
pub use error::{Error, ErrorInfo};
pub use lexer::Lexer;
pub use ast::{Expr, LiteralType, Program, Stmt};
pub use parser::{desugar_assign, Parser};
pub use object::{Function, Object, Operation, Outcome, Request};
pub use environment::Environment;
pub use machine::Status;
pub use interpretor::Interpretor;
