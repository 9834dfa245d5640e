//! Runtime values and the operators on them.

use vstd::prelude::*;
use crate::ast::{clone_names, name_views, Stmt, StmtView};
use crate::error::{Error, ErrorView};
use crate::number::Number;
use crate::span::Span;
use crate::text::{repeat, repeated};
use crate::token::{TokenType, TokenView};

verus! {

/// A function value.
#[derive(Debug, PartialEq)]
pub enum Function {
    /// A function that the host provides, known by its number.
    Inbuilt { arity: usize, id: usize },
    /// A function of the program, with the scope it was defined in.
    User { name: String, params: Vec<String>, body: Stmt, closure: usize, is_initializer: bool, span: Span },
}

pub enum FunctionView {
    Inbuilt { arity: nat, id: nat },
    User { name: Seq<char>, params: Seq<Seq<char>>, body: StmtView, closure: nat, is_initializer: bool, span: Span },
}

impl View for Function {
    type V = FunctionView;

    open spec fn view(&self) -> FunctionView {
        match self {
            Function::Inbuilt { arity, id } => FunctionView::Inbuilt { arity: *arity as nat, id: *id as nat },
            Function::User { name, params, body, closure, is_initializer, span } => FunctionView::User {
                name: name@,
                params: name_views(params@),
                body: body@,
                closure: *closure as nat,
                is_initializer: *is_initializer,
                span: *span,
            },
        }
    }
}

impl FunctionView {
    /// How many arguments the function takes.
    pub open spec fn arity(self) -> nat {
        match self {
            FunctionView::Inbuilt { arity, .. } => arity,
            FunctionView::User { params, .. } => params.len(),
        }
    }
}

impl Clone for Function {
    fn clone(&self) -> (r: Self)
        ensures
            r@ == self@,
    {
        match self {
            Function::Inbuilt { arity, id } => Function::Inbuilt { arity: *arity, id: *id },
            Function::User { name, params, body, closure, is_initializer, span } => Function::User {
                name: name.clone(),
                params: clone_names(params),
                body: body.clone(),
                closure: *closure,
                is_initializer: *is_initializer,
                span: *span,
            },
        }
    }
}

impl Function {
    /// How many arguments the function takes.
    pub fn arity(&self) -> (n: usize)
        ensures
            n == self@.arity(),
    {
        match self {
            Function::Inbuilt { arity, .. } => *arity,
            Function::User { params, .. } => {
                assert(name_views(params@).len() == params@.len());
                params.len()
            },
        }
    }
}

/// A runtime value.
#[derive(Debug, PartialEq)]
pub enum Object {
    Boolean(bool),
    Number(Number),
    String(String),
    Function(Function),
    Nil,
}

pub enum ObjectView {
    Boolean(bool),
    Number(Number),
    String(Seq<char>),
    Function(FunctionView),
    Nil,
}

impl View for Object {
    type V = ObjectView;

    open spec fn view(&self) -> ObjectView {
        match self {
            Object::Boolean(b) => ObjectView::Boolean(*b),
            Object::Number(n) => ObjectView::Number(*n),
            Object::String(s) => ObjectView::String(s@),
            Object::Function(f) => ObjectView::Function(f@),
            Object::Nil => ObjectView::Nil,
        }
    }
}

impl Clone for Object {
    fn clone(&self) -> (r: Self)
        ensures
            r@ == self@,
    {
        match self {
            Object::Boolean(b) => Object::Boolean(*b),
            Object::Number(n) => Object::Number(*n),
            Object::String(s) => Object::String(s.clone()),
            Object::Function(f) => Object::Function(f.clone()),
            Object::Nil => Object::Nil,
        }
    }
}

/// The mathematical values of a list of runtime values.
pub open spec fn object_views(s: Seq<Object>) -> Seq<ObjectView> {
    s.map_values(|o: Object| o@)
}

/// The four operations on two numbers that the host computes.
#[derive(Debug, PartialEq, Eq, Clone, Copy, Structural)]
pub enum Operation {
    Add,
    Subtract,
    Multiply,
    Divide,
}

/// Work that only the host can do, for which evaluation waits. The host
/// answers with a value.
#[derive(Debug, PartialEq)]
pub enum Request {
    /// The result of the operation on the two numbers, as a number.
    Arithmetic { operation: Operation, left: Number, right: Number },
    /// The number that the literal, digits with at most one decimal point,
    /// stands for.
    Literal { text: String },
    /// The number as text, as a string.
    Display { number: Number },
    /// The result of calling the host's function `id` on `args`.
    Native { id: usize, args: Vec<Object> },
}

pub enum RequestView {
    Arithmetic { operation: Operation, left: Number, right: Number },
    Literal { text: Seq<char> },
    Display { number: Number },
    Native { id: nat, args: Seq<ObjectView> },
}

impl View for Request {
    type V = RequestView;

    open spec fn view(&self) -> RequestView {
        match self {
            Request::Arithmetic { operation, left, right } => RequestView::Arithmetic {
                operation: *operation,
                left: *left,
                right: *right,
            },
            Request::Literal { text } => RequestView::Literal { text: text@ },
            Request::Display { number } => RequestView::Display { number: *number },
            Request::Native { id, args } => RequestView::Native { id: *id as nat, args: object_views(args@) },
        }
    }
}

/// What an operator gives: a value, or work for the host whose answer is
/// the value.
#[derive(Debug, PartialEq)]
pub enum Outcome {
    Value(Object),
    Host(Request),
}

pub enum OutcomeView {
    Value(ObjectView),
    Host(RequestView),
}

impl View for Outcome {
    type V = OutcomeView;

    open spec fn view(&self) -> OutcomeView {
        match self {
            Outcome::Value(v) => OutcomeView::Value(v@),
            Outcome::Host(r) => OutcomeView::Host(r@),
        }
    }
}

pub open spec fn view_outcome(r: Result<Outcome, Error>) -> Result<OutcomeView, ErrorView> {
    match r {
        Ok(o) => Ok(o@),
        Err(e) => Err(e@),
    }
}

pub open spec fn view_object(r: Result<Object, Error>) -> Result<ObjectView, ErrorView> {
    match r {
        Ok(o) => Ok(o@),
        Err(e) => Err(e@),
    }
}

impl ObjectView {
    /// Whether the value counts as true: `nil` does not, a boolean is
    /// itself, a number unless it is zero, a string unless it is empty, a
    /// function always.
    pub open spec fn truthy(self) -> bool {
        match self {
            ObjectView::Nil => false,
            ObjectView::Boolean(b) => b,
            ObjectView::Number(n) => !n.zero(),
            ObjectView::String(s) => s.len() != 0,
            ObjectView::Function(_) => true,
        }
    }

    /// The text that `print` shows; a number has none here, the host
    /// writes it.
    pub open spec fn display(self) -> Option<Seq<char>> {
        match self {
            ObjectView::Boolean(b) => Some(if b { "true"@ } else { "false"@ }),
            ObjectView::Number(_) => None,
            ObjectView::String(s) => Some(s),
            ObjectView::Function(_) => Some("<function>"@),
            ObjectView::Nil => Some("nil"@),
        }
    }

    /// A unary operator applied: `-` and `+` take a number, `!` negates
    /// the truth of any value.
    pub open spec fn unary(self, op: TokenView) -> Result<ObjectView, ErrorView> {
        if op == TokenView::Plain(TokenType::Minus) || op == TokenView::Plain(TokenType::Plus) {
            match self {
                ObjectView::Number(n) => Ok(
                    ObjectView::Number(if op == TokenView::Plain(TokenType::Plus) { n } else { n.opposite() }),
                ),
                _ => Err(ErrorView::Runtime("Operand must be a number."@)),
            }
        } else if op == TokenView::Plain(TokenType::Not) {
            Ok(ObjectView::Boolean(!self.truthy()))
        } else {
            Err(ErrorView::Runtime("Invalid unary operator."@))
        }
    }
}

/// The host's work for an operation on two numbers.
pub open spec fn arithmetic(operation: Operation, left: Number, right: Number) -> Result<OutcomeView, ErrorView> {
    Ok(OutcomeView::Host(RequestView::Arithmetic { operation, left, right }))
}

pub open spec fn truth(b: bool) -> Result<OutcomeView, ErrorView> {
    Ok(OutcomeView::Value(ObjectView::Boolean(b)))
}

pub open spec fn two_numbers() -> Result<OutcomeView, ErrorView> {
    Err(ErrorView::Runtime("Operands must be two numbers."@))
}

/// A number under a boolean: itself where the boolean is true, else zero.
pub open spec fn gated(n: Number, b: bool) -> Result<OutcomeView, ErrorView> {
    Ok(OutcomeView::Value(ObjectView::Number(if b { n } else { Number { bits: 0 } })))
}

/// Whether two values are equal: numbers by numeric equality, strings and
/// booleans by value, `nil` to `nil`; values of different kinds are not
/// equal, and a function equals nothing.
pub open spec fn equal(left: ObjectView, right: ObjectView) -> bool {
    match (left, right) {
        (ObjectView::Number(l), ObjectView::Number(r)) => l.same(r),
        (ObjectView::String(l), ObjectView::String(r)) => l == r,
        (ObjectView::Boolean(l), ObjectView::Boolean(r)) => l == r,
        (ObjectView::Nil, ObjectView::Nil) => true,
        _ => false,
    }
}

/// A binary operator applied to two values.
///
/// - `+`: two numbers (the host adds them) or two strings (joined).
/// - `-`: two numbers.
/// - `*`: two numbers; a string and a number, in either order, repeat
///   the string; a number and a boolean, in either order, gate the number.
/// - `/`: two numbers, unless the divisor is zero; a number and a
///   boolean as for `*`.
/// - `&&`, `||`: two booleans.
/// - `<`, `<=`, `>`, `>=`: two numbers.
/// - `==`, `!=`: any two values.
pub open spec fn binary(left: ObjectView, op: TokenView, right: ObjectView) -> Result<OutcomeView, ErrorView> {
    if op == TokenView::Plain(TokenType::Plus) {
        match (left, right) {
            (ObjectView::Number(l), ObjectView::Number(r)) => arithmetic(Operation::Add, l, r),
            (ObjectView::String(l), ObjectView::String(r)) => Ok(OutcomeView::Value(ObjectView::String(l + r))),
            _ => Err(ErrorView::Runtime("Operands must be two numbers or two strings."@)),
        }
    } else if op == TokenView::Plain(TokenType::Minus) {
        match (left, right) {
            (ObjectView::Number(l), ObjectView::Number(r)) => arithmetic(Operation::Subtract, l, r),
            _ => two_numbers(),
        }
    } else if op == TokenView::Plain(TokenType::Times) {
        match (left, right) {
            (ObjectView::Number(l), ObjectView::Number(r)) => arithmetic(Operation::Multiply, l, r),
            (ObjectView::String(s), ObjectView::Number(n)) => Ok(
                OutcomeView::Value(ObjectView::String(repeated(s, n.count()))),
            ),
            (ObjectView::Number(n), ObjectView::String(s)) => Ok(
                OutcomeView::Value(ObjectView::String(repeated(s, n.count()))),
            ),
            (ObjectView::Number(n), ObjectView::Boolean(b)) => gated(n, b),
            (ObjectView::Boolean(b), ObjectView::Number(n)) => gated(n, b),
            _ => Err(ErrorView::Runtime("Operands must be two numbers or a string and a number."@)),
        }
    } else if op == TokenView::Plain(TokenType::Divide) {
        match (left, right) {
            (ObjectView::Number(l), ObjectView::Number(r)) => if r.zero() {
                Err(ErrorView::ZeroDivision)
            } else {
                arithmetic(Operation::Divide, l, r)
            },
            (ObjectView::Number(n), ObjectView::Boolean(b)) => gated(n, b),
            (ObjectView::Boolean(b), ObjectView::Number(n)) => gated(n, b),
            _ => two_numbers(),
        }
    } else if op == TokenView::Plain(TokenType::LAnd) {
        match (left, right) {
            (ObjectView::Boolean(l), ObjectView::Boolean(r)) => truth(l && r),
            _ => Err(ErrorView::Runtime("Operands must be two booleans."@)),
        }
    } else if op == TokenView::Plain(TokenType::LOr) {
        match (left, right) {
            (ObjectView::Boolean(l), ObjectView::Boolean(r)) => truth(l || r),
            _ => Err(ErrorView::Runtime("Operands must be two booleans."@)),
        }
    } else if op == TokenView::Plain(TokenType::Gt) {
        match (left, right) {
            (ObjectView::Number(l), ObjectView::Number(r)) => truth(r.below(l)),
            _ => two_numbers(),
        }
    } else if op == TokenView::Plain(TokenType::Gte) {
        match (left, right) {
            (ObjectView::Number(l), ObjectView::Number(r)) => truth(r.below(l) || r.same(l)),
            _ => two_numbers(),
        }
    } else if op == TokenView::Plain(TokenType::Lt) {
        match (left, right) {
            (ObjectView::Number(l), ObjectView::Number(r)) => truth(l.below(r)),
            _ => two_numbers(),
        }
    } else if op == TokenView::Plain(TokenType::Lte) {
        match (left, right) {
            (ObjectView::Number(l), ObjectView::Number(r)) => truth(l.below(r) || l.same(r)),
            _ => two_numbers(),
        }
    } else if op == TokenView::Plain(TokenType::Eq) {
        truth(equal(left, right))
    } else if op == TokenView::Plain(TokenType::Ne) {
        truth(!equal(left, right))
    } else {
        Err(ErrorView::Runtime("Invalid Logical operator."@))
    }
}

fn runtime(message: &str) -> (e: Error)
    ensures
        e@ == ErrorView::Runtime(message@),
{
    Error::Runtime(String::from_str(message))
}

fn ask(operation: Operation, left: Number, right: Number) -> (r: Result<Outcome, Error>)
    ensures
        view_outcome(r) == arithmetic(operation, left, right),
{
    Ok(Outcome::Host(Request::Arithmetic { operation, left, right }))
}

fn gate(n: Number, b: bool) -> (r: Result<Outcome, Error>)
    ensures
        view_outcome(r) == gated(n, b),
{
    Ok(Outcome::Value(Object::Number(if b { n } else { Number::zero_value() })))
}

fn boolean(b: bool) -> (r: Result<Outcome, Error>)
    ensures
        view_outcome(r) == truth(b),
{
    Ok(Outcome::Value(Object::Boolean(b)))
}

fn equal_values(left: &Object, right: &Object) -> (b: bool)
    ensures
        b == equal(left@, right@),
{
    match (left, right) {
        (Object::Number(l), Object::Number(r)) => l.equals(r),
        (Object::String(l), Object::String(r)) => *l == *r,
        (Object::Boolean(l), Object::Boolean(r)) => *l == *r,
        (Object::Nil, Object::Nil) => true,
        _ => false,
    }
}

impl Object {
    pub fn is_nil(&self) -> (b: bool)
        ensures
            b == (self@ is Nil),
    {
        match self {
            Object::Nil => true,
            _ => false,
        }
    }

    /// Whether the value counts as true.
    pub fn to_boolean(&self) -> (b: bool)
        ensures
            b == self@.truthy(),
    {
        match self {
            Object::Nil => false,
            Object::Boolean(b) => *b,
            Object::Number(n) => !n.is_zero(),
            Object::String(s) => !s.as_str().is_empty(),
            Object::Function(_) => true,
        }
    }

    /// The text that `print` shows; `None` for a number, which the host
    /// writes.
    pub fn display(&self) -> (r: Option<String>)
        ensures
            match r {
                Some(s) => self@.display() == Some(s@),
                None => self@.display() is None,
            },
    {
        match self {
            Object::Boolean(b) => Some(String::from_str(if *b { "true" } else { "false" })),
            Object::Number(_) => None,
            Object::String(s) => Some(s.clone()),
            Object::Function(_) => Some(String::from_str("<function>")),
            Object::Nil => Some(String::from_str("nil")),
        }
    }

    /// Applies a unary operator.
    pub fn to_unary(&self, op: &TokenType) -> (r: Result<Object, Error>)
        ensures
            view_object(r) == self@.unary(op@),
    {
        match op {
            TokenType::Minus | TokenType::Plus => {
                match self {
                    Object::Number(n) => Ok(
                        Object::Number(if matches!(op, TokenType::Plus) { *n } else { n.negate() }),
                    ),
                    _ => Err(runtime("Operand must be a number.")),
                }
            },
            TokenType::Not => Ok(Object::Boolean(!self.to_boolean())),
            _ => Err(runtime("Invalid unary operator.")),
        }
    }

    /// Applies a binary operator.
    pub fn binary(left: Object, op: &TokenType, right: Object) -> (r: Result<Outcome, Error>)
        ensures
            view_outcome(r) == binary(left@, op@, right@),
    {
        match op {
            TokenType::Plus => match (left, right) {
                (Object::Number(l), Object::Number(r)) => ask(Operation::Add, l, r),
                (Object::String(l), Object::String(r)) => {
                    let mut joined = l;
                    joined.append(r.as_str());
                    Ok(Outcome::Value(Object::String(joined)))
                },
                _ => Err(runtime("Operands must be two numbers or two strings.")),
            },
            TokenType::Minus => match (left, right) {
                (Object::Number(l), Object::Number(r)) => ask(Operation::Subtract, l, r),
                _ => Err(runtime("Operands must be two numbers.")),
            },
            TokenType::Times => match (left, right) {
                (Object::Number(l), Object::Number(r)) => ask(Operation::Multiply, l, r),
                (Object::String(s), Object::Number(n)) => Ok(
                    Outcome::Value(Object::String(repeat(s.as_str(), n.to_count()))),
                ),
                (Object::Number(n), Object::String(s)) => Ok(
                    Outcome::Value(Object::String(repeat(s.as_str(), n.to_count()))),
                ),
                (Object::Number(n), Object::Boolean(b)) => gate(n, b),
                (Object::Boolean(b), Object::Number(n)) => gate(n, b),
                _ => Err(runtime("Operands must be two numbers or a string and a number.")),
            },
            TokenType::Divide => match (left, right) {
                (Object::Number(l), Object::Number(r)) => {
                    if r.is_zero() {
                        Err(Error::ZeroDivision)
                    } else {
                        ask(Operation::Divide, l, r)
                    }
                },
                (Object::Number(n), Object::Boolean(b)) => gate(n, b),
                (Object::Boolean(b), Object::Number(n)) => gate(n, b),
                _ => Err(runtime("Operands must be two numbers.")),
            },
            TokenType::LAnd => match (left, right) {
                (Object::Boolean(l), Object::Boolean(r)) => boolean(l && r),
                _ => Err(runtime("Operands must be two booleans.")),
            },
            TokenType::LOr => match (left, right) {
                (Object::Boolean(l), Object::Boolean(r)) => boolean(l || r),
                _ => Err(runtime("Operands must be two booleans.")),
            },
            TokenType::Gt => match (left, right) {
                (Object::Number(l), Object::Number(r)) => boolean(r.less(&l)),
                _ => Err(runtime("Operands must be two numbers.")),
            },
            TokenType::Gte => match (left, right) {
                (Object::Number(l), Object::Number(r)) => boolean(r.at_most(&l)),
                _ => Err(runtime("Operands must be two numbers.")),
            },
            TokenType::Lt => match (left, right) {
                (Object::Number(l), Object::Number(r)) => boolean(l.less(&r)),
                _ => Err(runtime("Operands must be two numbers.")),
            },
            TokenType::Lte => match (left, right) {
                (Object::Number(l), Object::Number(r)) => boolean(l.at_most(&r)),
                _ => Err(runtime("Operands must be two numbers.")),
            },
            TokenType::Eq => boolean(equal_values(&left, &right)),
            TokenType::Ne => boolean(!equal_values(&left, &right)),
            _ => Err(runtime("Invalid Logical operator.")),
        }
    }
}

/// Repeating a string by a number does not depend on the order of the two
/// operands.
pub proof fn repetition_commutes(s: Seq<char>, n: Number)
    ensures
        binary(ObjectView::String(s), TokenView::Plain(TokenType::Times), ObjectView::Number(n)) == binary(
            ObjectView::Number(n),
            TokenView::Plain(TokenType::Times),
            ObjectView::String(s),
        ),
        binary(ObjectView::String(s), TokenView::Plain(TokenType::Times), ObjectView::Number(n)) == Ok::<
            OutcomeView,
            ErrorView,
        >(OutcomeView::Value(ObjectView::String(repeated(s, n.count())))),
{
}

/// Dividing a number by zero is an error, and by any other number it is
/// the host's division of the two.
pub proof fn division_by_zero(a: Number, b: Number)
    ensures
        b.zero() ==> binary(ObjectView::Number(a), TokenView::Plain(TokenType::Divide), ObjectView::Number(b))
            == Err::<OutcomeView, ErrorView>(ErrorView::ZeroDivision),
        !b.zero() ==> binary(ObjectView::Number(a), TokenView::Plain(TokenType::Divide), ObjectView::Number(b))
            == arithmetic(Operation::Divide, a, b),
{
}

} // verus!
