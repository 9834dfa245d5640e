//! The syntax tree.

use vstd::prelude::*;
use crate::span::Span;
use crate::token::{TokenInfo, TokenInfoView};

verus! {

/// A literal as written in the source. A number keeps the text of its
/// literal.
#[derive(Debug, PartialEq)]
pub enum LiteralType {
    String(String),
    Number(String),
    Boolean(bool),
    Nil,
}

pub enum LiteralView {
    String(Seq<char>),
    Number(Seq<char>),
    Boolean(bool),
    Nil,
}

impl View for LiteralType {
    type V = LiteralView;

    open spec fn view(&self) -> LiteralView {
        match self {
            LiteralType::String(s) => LiteralView::String(s@),
            LiteralType::Number(s) => LiteralView::Number(s@),
            LiteralType::Boolean(b) => LiteralView::Boolean(*b),
            LiteralType::Nil => LiteralView::Nil,
        }
    }
}

impl Clone for LiteralType {
    fn clone(&self) -> (r: Self)
        ensures
            r == *self,
    {
        match self {
            LiteralType::String(s) => LiteralType::String(s.clone()),
            LiteralType::Number(s) => LiteralType::Number(s.clone()),
            LiteralType::Boolean(b) => LiteralType::Boolean(*b),
            LiteralType::Nil => LiteralType::Nil,
        }
    }
}

/// An expression.
#[derive(Debug, PartialEq)]
#[allow(inconsistent_fields)]
pub enum Expr {
    /// `name = value`; a compound assignment `name += e` is held as
    /// `name = name + e`.
    Assign { name: String, value: Box<Expr>, span: Span },
    /// An operator between two operands; the logical and the comparison
    /// operators too.
    Binary { left: Box<Expr>, op: TokenInfo, right: Box<Expr> },
    Call { callee: Box<Expr>, args: Vec<Expr>, span: Span },
    Get { object: Box<Expr>, name: String, span: Span },
    Grouping { expr: Box<Expr>, span: Span },
    Literal { value: LiteralType },
    SetField { object: Box<Expr>, name: String, value: Box<Expr>, span: Span },
    Super { name: String, span: Span },
    Unary { op: TokenInfo, right: Box<Expr> },
    Variable { name: String, span: Span },
}

#[allow(inconsistent_fields)]
pub enum ExprView {
    Assign { name: Seq<char>, value: Box<ExprView>, span: Span },
    Binary { left: Box<ExprView>, op: TokenInfoView, right: Box<ExprView> },
    Call { callee: Box<ExprView>, args: Seq<ExprView>, span: Span },
    Get { object: Box<ExprView>, name: Seq<char>, span: Span },
    Grouping { expr: Box<ExprView>, span: Span },
    Literal { value: LiteralView },
    SetField { object: Box<ExprView>, name: Seq<char>, value: Box<ExprView>, span: Span },
    Super { name: Seq<char>, span: Span },
    Unary { op: TokenInfoView, right: Box<ExprView> },
    Variable { name: Seq<char>, span: Span },
}

/// The mathematical values of a list of expressions.
pub open spec fn expr_models(s: Seq<Expr>) -> Seq<ExprView>
    decreases s,
{
    Seq::new(s.len(), |i: int| if 0 <= i < s.len() { s[i].model() } else { ExprView::Literal { value: LiteralView::Nil } })
}

impl Expr {
    /// The mathematical value of the expression.
    pub open spec fn model(&self) -> ExprView
        decreases self,
    {
        match self {
            Expr::Assign { name, value, span } => ExprView::Assign {
                name: name@,
                value: Box::new(value.model()),
                span: *span,
            },
            Expr::Binary { left, op, right } => ExprView::Binary {
                left: Box::new(left.model()),
                op: op@,
                right: Box::new(right.model()),
            },
            Expr::Call { callee, args, span } => ExprView::Call {
                callee: Box::new(callee.model()),
                args: expr_models(args@),
                span: *span,
            },
            Expr::Get { object, name, span } => ExprView::Get {
                object: Box::new(object.model()),
                name: name@,
                span: *span,
            },
            Expr::Grouping { expr, span } => ExprView::Grouping { expr: Box::new(expr.model()), span: *span },
            Expr::Literal { value } => ExprView::Literal { value: value@ },
            Expr::SetField { object, name, value, span } => ExprView::SetField {
                object: Box::new(object.model()),
                name: name@,
                value: Box::new(value.model()),
                span: *span,
            },
            Expr::Super { name, span } => ExprView::Super { name: name@, span: *span },
            Expr::Unary { op, right } => ExprView::Unary { op: op@, right: Box::new(right.model()) },
            Expr::Variable { name, span } => ExprView::Variable { name: name@, span: *span },
        }
    }
}

impl View for Expr {
    type V = ExprView;

    open spec fn view(&self) -> ExprView {
        self.model()
    }
}

/// A copy of a list of expressions.
pub fn clone_exprs(v: &Vec<Expr>) -> (r: Vec<Expr>)
    ensures
        expr_models(r@) == expr_models(v@),
    decreases v,
{
    let mut r: Vec<Expr> = Vec::new();
    let mut i: usize = 0;
    while i < v.len()
        invariant
            i <= v.len(),
            r.len() == i,
            forall|j: int| 0 <= j < i ==> r@[j].model() == v@[j].model(),
        decreases v.len() - i,
    {
        let e = v[i].clone();
        r.push(e);
        i += 1;
    }
    assert(expr_models(r@) =~= expr_models(v@));
    r
}

impl Clone for Expr {
    fn clone(&self) -> (r: Self)
        ensures
            r@ == self@,
        decreases self,
    {
        match self {
            Expr::Assign { name, value, span } => Expr::Assign {
                name: name.clone(),
                value: Box::new((&**value).clone()),
                span: *span,
            },
            Expr::Binary { left, op, right } => Expr::Binary {
                left: Box::new((&**left).clone()),
                op: op.clone(),
                right: Box::new((&**right).clone()),
            },
            Expr::Call { callee, args, span } => Expr::Call {
                callee: Box::new((&**callee).clone()),
                args: clone_exprs(args),
                span: *span,
            },
            Expr::Get { object, name, span } => Expr::Get {
                object: Box::new((&**object).clone()),
                name: name.clone(),
                span: *span,
            },
            Expr::Grouping { expr, span } => Expr::Grouping { expr: Box::new((&**expr).clone()), span: *span },
            Expr::Literal { value } => Expr::Literal { value: value.clone() },
            Expr::SetField { object, name, value, span } => Expr::SetField {
                object: Box::new((&**object).clone()),
                name: name.clone(),
                value: Box::new((&**value).clone()),
                span: *span,
            },
            Expr::Super { name, span } => Expr::Super { name: name.clone(), span: *span },
            Expr::Unary { op, right } => Expr::Unary { op: op.clone(), right: Box::new((&**right).clone()) },
            Expr::Variable { name, span } => Expr::Variable { name: name.clone(), span: *span },
        }
    }
}

/// The mathematical value of an expression that may be missing.
pub open spec fn optional_model(e: Option<Expr>) -> Option<ExprView> {
    match e {
        Some(e) => Some(e.model()),
        None => None,
    }
}

/// The texts of a list of names.
pub open spec fn name_views(s: Seq<String>) -> Seq<Seq<char>> {
    s.map_values(|n: String| n@)
}

/// A statement. There is no `for` statement: the parser writes
/// `for (init; cond; incr) body` as a block that holds `init` and a
/// `while` loop over `body` followed by `incr`.
#[derive(Debug, PartialEq)]
#[allow(inconsistent_fields)]
pub enum Stmt {
    Expr { expr: Expr },
    Print { expr: Expr },
    Let { name: String, value: Option<Expr>, is_const: bool, span: Span },
    Block { stmts: Vec<Stmt> },
    If { condition: Expr, truthy: Box<Stmt>, falsy: Option<Box<Stmt>> },
    While { condition: Expr, body: Box<Stmt> },
    Function { name: String, params: Vec<String>, body: Box<Stmt>, span: Span },
    Return { value: Option<Expr>, span: Span },
    Class { name: String, super_class: Option<String>, methods: Vec<Stmt>, span: Span },
    Break { span: Span },
    Continue { span: Span },
}

#[allow(inconsistent_fields)]
pub enum StmtView {
    Expr { expr: ExprView },
    Print { expr: ExprView },
    Let { name: Seq<char>, value: Option<ExprView>, is_const: bool, span: Span },
    Block { stmts: Seq<StmtView> },
    If { condition: ExprView, truthy: Box<StmtView>, falsy: Option<Box<StmtView>> },
    While { condition: ExprView, body: Box<StmtView> },
    Function { name: Seq<char>, params: Seq<Seq<char>>, body: Box<StmtView>, span: Span },
    Return { value: Option<ExprView>, span: Span },
    Class { name: Seq<char>, super_class: Option<Seq<char>>, methods: Seq<StmtView>, span: Span },
    Break { span: Span },
    Continue { span: Span },
}

/// The mathematical values of a list of statements.
pub open spec fn stmt_models(s: Seq<Stmt>) -> Seq<StmtView>
    decreases s,
{
    Seq::new(s.len(), |i: int| if 0 <= i < s.len() { s[i].model() } else { StmtView::Block { stmts: Seq::empty() } })
}

impl Stmt {
    /// The mathematical value of the statement.
    pub open spec fn model(&self) -> StmtView
        decreases self,
    {
        match self {
            Stmt::Expr { expr } => StmtView::Expr { expr: expr.model() },
            Stmt::Print { expr } => StmtView::Print { expr: expr.model() },
            Stmt::Let { name, value, is_const, span } => StmtView::Let {
                name: name@,
                value: optional_model(*value),
                is_const: *is_const,
                span: *span,
            },
            Stmt::Block { stmts } => StmtView::Block { stmts: stmt_models(stmts@) },
            Stmt::If { condition, truthy, falsy } => StmtView::If {
                condition: condition.model(),
                truthy: Box::new(truthy.model()),
                falsy: match falsy {
                    Some(f) => Some(Box::new(f.model())),
                    None => None,
                },
            },
            Stmt::While { condition, body } => StmtView::While {
                condition: condition.model(),
                body: Box::new(body.model()),
            },
            Stmt::Function { name, params, body, span } => StmtView::Function {
                name: name@,
                params: name_views(params@),
                body: Box::new(body.model()),
                span: *span,
            },
            Stmt::Return { value, span } => StmtView::Return { value: optional_model(*value), span: *span },
            Stmt::Class { name, super_class, methods, span } => StmtView::Class {
                name: name@,
                super_class: match super_class {
                    Some(c) => Some(c@),
                    None => None,
                },
                methods: stmt_models(methods@),
                span: *span,
            },
            Stmt::Break { span } => StmtView::Break { span: *span },
            Stmt::Continue { span } => StmtView::Continue { span: *span },
        }
    }
}

impl View for Stmt {
    type V = StmtView;

    open spec fn view(&self) -> StmtView {
        self.model()
    }
}

/// Adding a statement to a list adds its value to the list's values.
pub proof fn stmt_models_push(s: Seq<Stmt>, x: Stmt)
    ensures
        stmt_models(s.push(x)) == stmt_models(s).push(x.model()),
{
    assert(stmt_models(s.push(x)) =~= stmt_models(s).push(x.model()));
}

/// Adding an expression to a list adds its value to the list's values.
pub proof fn expr_models_push(s: Seq<Expr>, x: Expr)
    ensures
        expr_models(s.push(x)) == expr_models(s).push(x.model()),
{
    assert(expr_models(s.push(x)) =~= expr_models(s).push(x.model()));
}

fn clone_optional(e: &Option<Expr>) -> (r: Option<Expr>)
    ensures
        optional_model(r) == optional_model(*e),
{
    match e {
        Some(e) => Some(e.clone()),
        None => None,
    }
}

/// A copy of a list of names.
pub fn clone_names(v: &Vec<String>) -> (r: Vec<String>)
    ensures
        r@ == v@,
{
    let mut r: Vec<String> = Vec::new();
    let mut i: usize = 0;
    while i < v.len()
        invariant
            i <= v.len(),
            r@ == v@.take(i as int),
        decreases v.len() - i,
    {
        r.push(v[i].clone());
        i += 1;
        assert(v@.take(i as int) == v@.take(i - 1).push(v@[i - 1]));
    }
    assert(v@.take(v.len() as int) == v@);
    r
}

/// A copy of a list of statements.
pub fn clone_stmts(v: &Vec<Stmt>) -> (r: Vec<Stmt>)
    ensures
        stmt_models(r@) == stmt_models(v@),
    decreases v,
{
    let mut r: Vec<Stmt> = Vec::new();
    let mut i: usize = 0;
    while i < v.len()
        invariant
            i <= v.len(),
            r.len() == i,
            forall|j: int| 0 <= j < i ==> r@[j].model() == v@[j].model(),
        decreases v.len() - i,
    {
        let e = v[i].clone();
        r.push(e);
        i += 1;
    }
    assert(stmt_models(r@) =~= stmt_models(v@));
    r
}

impl Clone for Stmt {
    fn clone(&self) -> (r: Self)
        ensures
            r@ == self@,
        decreases self,
    {
        match self {
            Stmt::Expr { expr } => Stmt::Expr { expr: expr.clone() },
            Stmt::Print { expr } => Stmt::Print { expr: expr.clone() },
            Stmt::Let { name, value, is_const, span } => Stmt::Let {
                name: name.clone(),
                value: clone_optional(value),
                is_const: *is_const,
                span: *span,
            },
            Stmt::Block { stmts } => Stmt::Block { stmts: clone_stmts(stmts) },
            Stmt::If { condition, truthy, falsy } => Stmt::If {
                condition: condition.clone(),
                truthy: Box::new((&**truthy).clone()),
                falsy: match falsy {
                    Some(f) => Some(Box::new((&**f).clone())),
                    None => None,
                },
            },
            Stmt::While { condition, body } => Stmt::While {
                condition: condition.clone(),
                body: Box::new((&**body).clone()),
            },
            Stmt::Function { name, params, body, span } => Stmt::Function {
                name: name.clone(),
                params: clone_names(params),
                body: Box::new((&**body).clone()),
                span: *span,
            },
            Stmt::Return { value, span } => Stmt::Return { value: clone_optional(value), span: *span },
            Stmt::Class { name, super_class, methods, span } => Stmt::Class {
                name: name.clone(),
                super_class: match super_class {
                    Some(c) => Some(c.clone()),
                    None => None,
                },
                methods: clone_stmts(methods),
                span: *span,
            },
            Stmt::Break { span } => Stmt::Break { span: *span },
            Stmt::Continue { span } => Stmt::Continue { span: *span },
        }
    }
}

/// A parsed program: its statements in source order.
#[derive(Debug, PartialEq)]
pub struct Program {
    pub stmts: Vec<Stmt>,
}

impl View for Program {
    type V = Seq<StmtView>;

    open spec fn view(&self) -> Seq<StmtView> {
        stmt_models(self.stmts@)
    }
}

impl Program {
    pub fn new(stmts: Vec<Stmt>) -> (p: Self)
        ensures
            p.stmts == stmts,
    {
        Self { stmts }
    }
}

} // verus!
