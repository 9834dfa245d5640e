//! The evaluator: the machine of `machine`, run on real values.

use vstd::prelude::*;
use crate::ast::{expr_models, name_views, stmt_models, Expr, LiteralType, Program, Stmt, StmtView};
use crate::environment::{Environment, EnvironmentView, ScopeView};
use crate::error::{Error, ErrorInfo, ErrorInfoView};
use crate::lexer::error_views;
use crate::machine::{
    bind_all, CompletionView, ControlView, FrameView, MachineView, Status,
};
use crate::object::{object_views, Function, FunctionView, Object, ObjectView, Outcome, Request};
use crate::parser::{framed, optional_stmt};
use crate::span::Span;
use crate::text::decimal_text;
use crate::token::TokenInfo;

verus! {

/// The number of the host's clock among the host's functions. It takes no
/// argument and gives the time in nanoseconds, as a number.
pub const CLOCK: usize = 0;

/// How a statement ended.
#[derive(Debug, PartialEq)]
pub enum Completion {
    Normal,
    Return(Object),
    Break,
    Continue,
}

impl View for Completion {
    type V = CompletionView;

    open spec fn view(&self) -> CompletionView {
        match self {
            Completion::Normal => CompletionView::Normal,
            Completion::Return(v) => CompletionView::Return(v@),
            Completion::Break => CompletionView::Break,
            Completion::Continue => CompletionView::Continue,
        }
    }
}

/// What the machine is working on.
#[derive(Debug, PartialEq)]
pub enum Control {
    Eval(Expr),
    Exec(Stmt),
    Value(Object),
    Done(Completion),
    Fail(ErrorInfo),
    Wait(Request),
}

impl View for Control {
    type V = ControlView;

    open spec fn view(&self) -> ControlView {
        match self {
            Control::Eval(e) => ControlView::Eval(e@),
            Control::Exec(s) => ControlView::Exec(s@),
            Control::Value(v) => ControlView::Value(v@),
            Control::Done(c) => ControlView::Done(c@),
            Control::Fail(e) => ControlView::Fail(e@),
            Control::Wait(r) => ControlView::Wait(r@),
        }
    }
}

/// Work that is put off.
#[derive(Debug, PartialEq)]
#[allow(inconsistent_fields)]
pub enum Frame {
    Program { rest: Vec<Stmt> },
    Sequence { rest: Vec<Stmt> },
    Scope { saved: usize },
    Restore { saved: usize },
    Call { saved: usize },
    Discard,
    Print,
    Let { name: String, is_const: bool, span: Span },
    Branch { truthy: Stmt, falsy: Option<Stmt> },
    Loop { condition: Expr, body: Stmt },
    Body { condition: Expr, body: Stmt },
    Return,
    Unary { op: TokenInfo },
    Right { op: TokenInfo, right: Expr },
    Apply { op: TokenInfo, left: Object },
    Assign { name: String, span: Span },
    Callee { args: Vec<Expr>, span: Span },
    Argument { callee: Object, rest: Vec<Expr>, values: Vec<Object>, span: Span },
    NotCallable { span: Span },
}

impl View for Frame {
    type V = FrameView;

    open spec fn view(&self) -> FrameView {
        match self {
            Frame::Program { rest } => FrameView::Program { rest: stmt_models(rest@) },
            Frame::Sequence { rest } => FrameView::Sequence { rest: stmt_models(rest@) },
            Frame::Scope { saved } => FrameView::Scope { saved: *saved as nat },
            Frame::Restore { saved } => FrameView::Restore { saved: *saved as nat },
            Frame::Call { saved } => FrameView::Call { saved: *saved as nat },
            Frame::Discard => FrameView::Discard,
            Frame::Print => FrameView::Print,
            Frame::Let { name, is_const, span } => FrameView::Let { name: name@, is_const: *is_const, span: *span },
            Frame::Branch { truthy, falsy } => FrameView::Branch { truthy: truthy@, falsy: optional_stmt(*falsy) },
            Frame::Loop { condition, body } => FrameView::Loop { condition: condition@, body: body@ },
            Frame::Body { condition, body } => FrameView::Body { condition: condition@, body: body@ },
            Frame::Return => FrameView::Return,
            Frame::Unary { op } => FrameView::Unary { op: op@ },
            Frame::Right { op, right } => FrameView::Right { op: op@, right: right@ },
            Frame::Apply { op, left } => FrameView::Apply { op: op@, left: left@ },
            Frame::Assign { name, span } => FrameView::Assign { name: name@, span: *span },
            Frame::Callee { args, span } => FrameView::Callee { args: expr_models(args@), span: *span },
            Frame::Argument { callee, rest, values, span } => FrameView::Argument {
                callee: callee@,
                rest: expr_models(rest@),
                values: object_views(values@),
                span: *span,
            },
            Frame::NotCallable { span } => FrameView::NotCallable { span: *span },
        }
    }
}

pub open spec fn frame_views(s: Seq<Frame>) -> Seq<FrameView> {
    s.map_values(|f: Frame| f@)
}

pub open spec fn line_views(s: Seq<String>) -> Seq<Seq<char>> {
    s.map_values(|l: String| l@)
}

/// The elements of `v`, last first.
fn reversed<T>(v: Vec<T>) -> (r: Vec<T>)
    ensures
        r@ == v@.reverse(),
{
    let mut v = v;
    let ghost all = v@;
    let mut r: Vec<T> = Vec::new();
    while v.len() > 0
        invariant
            v.len() + r.len() == all.len(),
            v@ == all.take(v.len() as int),
            forall|j: int| 0 <= j < r.len() ==> r@[j] == all[all.len() - 1 - j],
        decreases v.len(),
    {
        let x = v.pop().unwrap();
        r.push(x);
    }
    assert(r@ =~= all.reverse());
    r
}

fn reversed_stmts(v: Vec<Stmt>) -> (r: Vec<Stmt>)
    ensures
        stmt_models(r@) == stmt_models(v@).reverse(),
{
    let r = reversed(v);
    assert(stmt_models(r@) =~= stmt_models(v@).reverse());
    r
}

fn reversed_exprs(v: Vec<Expr>) -> (r: Vec<Expr>)
    ensures
        expr_models(r@) == expr_models(v@).reverse(),
{
    let r = reversed(v);
    assert(expr_models(r@) =~= expr_models(v@).reverse());
    r
}

/// Takes the last statement off `v`.
fn next_stmt(v: &mut Vec<Stmt>) -> (s: Stmt)
    requires
        old(v).len() > 0,
    ensures
        s@ == stmt_models(old(v)@).last(),
        stmt_models(final(v)@) == stmt_models(old(v)@).drop_last(),
{
    let s = v.pop().unwrap();
    assert(stmt_models(v@) =~= stmt_models(old(v)@).drop_last());
    s
}

/// Takes the last expression off `v`.
fn next_expr(v: &mut Vec<Expr>) -> (e: Expr)
    requires
        old(v).len() > 0,
    ensures
        e@ == expr_models(old(v)@).last(),
        expr_models(final(v)@) == expr_models(old(v)@).drop_last(),
{
    let e = v.pop().unwrap();
    assert(expr_models(v@) =~= expr_models(old(v)@).drop_last());
    e
}

/// The error for a part of the language that is read but not run.
fn missing(what: &str) -> (e: Error)
    ensures
        e@ == crate::machine::not_implemented(what@),
{
    let mut message = String::from_str(what);
    message.append(" is not implemented");
    Error::Runtime(message)
}

/// The evaluator.
pub struct Interpretor {
    environment: Environment,
    control: Control,
    frames: Vec<Frame>,
    output: Vec<String>,
    errors: Vec<ErrorInfo>,
}

impl View for Interpretor {
    type V = MachineView;

    closed spec fn view(&self) -> MachineView {
        MachineView {
            environment: self.environment@,
            control: self.control@,
            frames: frame_views(self.frames@),
            output: line_views(self.output@),
            errors: error_views(self.errors@),
        }
    }
}

impl MachineView {
    /// The machine before any program: the global scope binds `time` to
    /// the host's clock, as a constant, and there is nothing to do.
    pub open spec fn initial() -> MachineView {
        MachineView {
            environment: EnvironmentView {
                scopes: seq![
                    ScopeView {
                        bindings: Map::<Seq<char>, (ObjectView, bool)>::empty().insert(
                            "time"@,
                            (ObjectView::Function(FunctionView::Inbuilt { arity: 0, id: CLOCK as nat }), true),
                        ),
                        enclosing: None,
                        captured: false,
                    },
                ],
                current: 0,
            },
            control: ControlView::Done(CompletionView::Normal),
            frames: Seq::empty(),
            output: Seq::empty(),
            errors: Seq::empty(),
        }
    }

    pub open spec fn wf(self) -> bool {
        self.environment.wf()
    }

    /// The machine set to run `program` in the global scope. What it was
    /// doing is given up.
    pub open spec fn interpret(self, program: Seq<StmtView>) -> MachineView {
        MachineView {
            frames: seq![FrameView::Program { rest: program.reverse() }],
            environment: self.environment.enter(0),
            ..self
        }.finish()
    }

    /// The machine set to evaluate `e` in the current scope.
    pub open spec fn load_expr(self, e: crate::ast::ExprView) -> MachineView {
        MachineView { frames: Seq::empty(), ..self }.go(ControlView::Eval(e))
    }

    /// The machine set to execute `s` in the current scope.
    pub open spec fn load_stmt(self, s: StmtView) -> MachineView {
        MachineView { frames: Seq::empty(), ..self }.go(ControlView::Exec(s))
    }

    /// The machine set to execute `stmts` in the scope `environment`,
    /// after which the current scope is current again.
    pub open spec fn load_block(self, stmts: Seq<StmtView>, environment: nat) -> MachineView {
        MachineView {
            frames: seq![
                FrameView::Restore { saved: self.environment.current },
                FrameView::Sequence { rest: stmts.reverse() },
            ],
            environment: self.environment.enter(environment),
            ..self
        }.finish()
    }
}

impl Interpretor {
    pub open spec fn wf(&self) -> bool {
        self@.wf()
    }

    pub fn new() -> (i: Self)
        ensures
            i.wf(),
            i@ == MachineView::initial(),
    {
        let mut environment = Environment::new();
        let clock = Object::Function(Function::Inbuilt { arity: 0, id: CLOCK });
        let _ = environment.define(String::from_str("time"), clock, true);
        let i = Self {
            environment,
            control: Control::Done(Completion::Normal),
            frames: Vec::new(),
            output: Vec::new(),
            errors: Vec::new(),
        };
        assert(i@.frames =~= Seq::<FrameView>::empty());
        assert(i@.output =~= Seq::<Seq<char>>::empty());
        assert(i@.errors =~= Seq::<ErrorInfoView>::empty());
        assert(i@.environment.scopes =~= MachineView::initial().environment.scopes);
        i
    }

    fn go(&mut self, control: Control)
        ensures
            final(self)@ == old(self)@.go(control@),
    {
        self.control = control;
    }

    fn finish(&mut self)
        ensures
            final(self)@ == old(self)@.finish(),
    {
        self.control = Control::Done(Completion::Normal);
    }

    fn raise(&mut self, error: Error, span: Span)
        ensures
            final(self)@ == old(self)@.raise(error@, span),
    {
        self.control = Control::Fail(ErrorInfo::new_with_span(error, span));
    }

    fn push_frame(&mut self, frame: Frame)
        ensures
            final(self)@ == old(self)@.push(frame@),
    {
        self.frames.push(frame);
        assert(frame_views(self.frames@) =~= frame_views(old(self).frames@).push(frame@));
    }

    fn pop_frame(&mut self) -> (frame: Frame)
        requires
            old(self)@.frames.len() > 0,
        ensures
            final(self)@ == old(self)@.pop(),
            frame@ == old(self)@.frames.last(),
    {
        let frame = self.frames.pop().unwrap();
        assert(frame_views(self.frames@) =~= frame_views(old(self).frames@).drop_last());
        frame
    }

    fn print_line(&mut self, line: String)
        ensures
            final(self)@ == (MachineView { output: old(self)@.output.push(line@), ..old(self)@ }),
    {
        self.output.push(line);
        assert(line_views(self.output@) =~= line_views(old(self).output@).push(line@));
    }

    fn report(&mut self, error: ErrorInfo)
        ensures
            final(self)@ == (MachineView { errors: old(self)@.errors.push(error@), ..old(self)@ }),
    {
        self.errors.push(error);
        assert(error_views(self.errors@) =~= error_views(old(self).errors@).push(error@));
    }

    fn enter(&mut self, scope: usize)
        requires
            old(self).wf(),
        ensures
            final(self).wf(),
            final(self)@ == old(self)@.within(old(self)@.environment.enter(scope as nat)),
    {
        self.environment.enter(scope);
    }

    fn leave(&mut self, saved: usize)
        requires
            old(self).wf(),
        ensures
            final(self).wf(),
            final(self)@ == old(self)@.within(old(self)@.environment.leave(saved as nat)),
    {
        self.environment.leave(saved);
    }
}


impl Interpretor {
    fn step_eval(&mut self, e: Expr)
        requires
            old(self).wf(),
        ensures
            final(self).wf(),
            final(self)@ == old(self)@.eval(e@),
    {
        match e {
            Expr::Literal { value } => match value {
                LiteralType::Number(text) => self.go(Control::Wait(Request::Literal { text })),
                LiteralType::String(s) => self.go(Control::Value(Object::String(s))),
                LiteralType::Boolean(b) => self.go(Control::Value(Object::Boolean(b))),
                LiteralType::Nil => self.go(Control::Value(Object::Nil)),
            },
            Expr::Variable { name, span } => match self.environment.get(&name) {
                Ok(v) => self.go(Control::Value(v)),
                Err(e) => self.raise(e, span),
            },
            Expr::Grouping { expr, span } => self.go(Control::Eval(*expr)),
            Expr::Unary { op, right } => {
                self.push_frame(Frame::Unary { op });
                self.go(Control::Eval(*right));
            },
            Expr::Binary { left, op, right } => {
                self.push_frame(Frame::Right { op, right: *right });
                self.go(Control::Eval(*left));
            },
            Expr::Assign { name, value, span } => {
                self.push_frame(Frame::Assign { name, span });
                self.go(Control::Eval(*value));
            },
            Expr::Call { callee, args, span } => {
                self.push_frame(Frame::Callee { args: reversed_exprs(args), span });
                self.go(Control::Eval(*callee));
            },
            Expr::Get { object, name, span } => {
                self.raise(missing("property access"), span);
            },
            Expr::SetField { object, name, value, span } => {
                self.raise(missing("property assignment"), span);
            },
            Expr::Super { name, span } => {
                self.raise(missing("super"), span);
            },
        }
    }

    fn step_exec(&mut self, s: Stmt)
        requires
            old(self).wf(),
        ensures
            final(self).wf(),
            final(self)@ == old(self)@.exec(s@),
    {
        match s {
            Stmt::Expr { expr } => {
                self.push_frame(Frame::Discard);
                self.go(Control::Eval(expr));
            },
            Stmt::Print { expr } => {
                self.push_frame(Frame::Print);
                self.go(Control::Eval(expr));
            },
            Stmt::Let { name, value, is_const, span } => {
                self.push_frame(Frame::Let { name, is_const, span });
                match value {
                    Some(expr) => self.go(Control::Eval(expr)),
                    None => self.go(Control::Value(Object::Nil)),
                }
            },
            Stmt::Block { stmts } => {
                let current = self.environment.current();
                self.push_frame(Frame::Scope { saved: current });
                self.push_frame(Frame::Sequence { rest: reversed_stmts(stmts) });
                self.environment.push_scope(current);
                self.finish();
            },
            Stmt::If { condition, truthy, falsy } => {
                let falsy = match falsy {
                    Some(f) => Some(*f),
                    None => None,
                };
                self.push_frame(Frame::Branch { truthy: *truthy, falsy });
                self.go(Control::Eval(condition));
            },
            Stmt::While { condition, body } => {
                let first = condition.clone();
                self.push_frame(Frame::Loop { condition, body: *body });
                self.go(Control::Eval(first));
            },
            Stmt::Function { name, params, body, span } => {
                let function = Object::Function(
                    Function::User {
                        name: name.clone(),
                        params,
                        body: *body,
                        closure: self.environment.current(),
                        is_initializer: false,
                        span,
                    },
                );
                match self.environment.define(name, function, false) {
                    Ok(_) => {
                        self.environment.capture();
                        self.finish();
                    },
                    Err(e) => self.raise(e, span),
                }
            },
            Stmt::Return { value, span } => match value {
                Some(expr) => {
                    self.push_frame(Frame::Return);
                    self.go(Control::Eval(expr));
                },
                None => self.go(Control::Done(Completion::Return(Object::Nil))),
            },
            Stmt::Class { name, super_class, methods, span } => {
                self.raise(missing("class"), span);
            },
            Stmt::Break { span } => self.go(Control::Done(Completion::Break)),
            Stmt::Continue { span } => self.go(Control::Done(Completion::Continue)),
        }
    }

    /// Binds each parameter to its argument in the current scope.
    fn bind_parameters(&mut self, params: &Vec<String>, args: &Vec<Object>)
        requires
            old(self).wf(),
            params.len() == args.len(),
        ensures
            final(self).wf(),
            final(self)@ == old(self)@.within(
                bind_all(old(self)@.environment, name_views(params@), object_views(args@)),
            ),
    {
        let ghost start = self@;
        let ghost names = name_views(params@);
        let ghost values = object_views(args@);
        let mut i: usize = 0;
        while i < params.len()
            invariant
                self.wf(),
                i <= params.len() == args.len(),
                names == name_views(params@),
                values == object_views(args@),
                self@.environment.current == start.environment.current,
                self@ == start.within(bind_all(start.environment, names.take(i as int), values.take(i as int))),
            decreases params.len() - i,
        {
            proof {
                assert(names.take(i + 1).drop_last() == names.take(i as int));
                assert(values.take(i + 1).drop_last() == values.take(i as int));
                assert(names.take(i + 1).last() == params@[i as int]@);
                assert(values.take(i + 1).last() == args@[i as int]@);
            }
            self.environment.bind(params[i].clone(), args[i].clone());
            i += 1;
        }
        assert(names.take(params.len() as int) == names);
        assert(values.take(params.len() as int) == values);
    }

    fn invoke(&mut self, callee: Object, args: Vec<Object>, span: Span)
        requires
            old(self).wf(),
        ensures
            final(self).wf(),
            final(self)@ == old(self)@.invoke(callee@, object_views(args@), span),
    {
        match callee {
            Object::Function(f) => {
                let arity = f.arity();
                if arity != args.len() {
                    let expected = decimal_text(arity);
                    let mut message = framed("Expected ", &expected, " arguments but got ");
                    let given = decimal_text(args.len());
                    message.append(given.as_str());
                    self.raise(Error::Runtime(message), span);
                } else {
                    match f {
                        Function::Inbuilt { arity, id } => self.go(Control::Wait(Request::Native { id, args })),
                        Function::User { name, params, body, closure, is_initializer, span } => {
                            let saved = self.environment.current();
                            self.push_frame(Frame::Call { saved });
                            self.environment.push_scope(closure);
                            self.bind_parameters(&params, &args);
                            self.go(Control::Exec(body));
                        },
                    }
                }
            },
            other => {
                self.push_frame(Frame::NotCallable { span });
                self.go(Control::Value(other));
            },
        }
    }

    fn step_value(&mut self, v: Object)
        requires
            old(self).wf(),
            old(self)@.frames.len() > 0,
        ensures
            final(self).wf(),
            final(self)@ == old(self)@.value(v@),
    {
        let ghost start = self@;
        let frame = self.pop_frame();
        match frame {
            Frame::Discard => self.finish(),
            Frame::Print => match v {
                Object::Number(number) => {
                    self.push_frame(Frame::Print);
                    assert(self@.frames =~= start.frames);
                    self.go(Control::Wait(Request::Display { number }));
                },
                other => {
                    match other.display() {
                        Some(line) => {
                            self.print_line(line);
                        },
                        None => {},
                    }
                    self.finish();
                },
            },
            Frame::Let { name, is_const, span } => match self.environment.define(name, v, is_const) {
                Ok(_) => self.finish(),
                Err(e) => self.raise(e, span),
            },
            Frame::Branch { truthy, falsy } => {
                if v.to_boolean() {
                    self.go(Control::Exec(truthy));
                } else {
                    match falsy {
                        Some(f) => self.go(Control::Exec(f)),
                        None => self.finish(),
                    }
                }
            },
            Frame::Loop { condition, body } => {
                if v.to_boolean() {
                    let round = body.clone();
                    self.push_frame(Frame::Body { condition, body });
                    self.go(Control::Exec(round));
                } else {
                    self.finish();
                }
            },
            Frame::Return => self.go(Control::Done(Completion::Return(v))),
            Frame::Unary { op } => match v.to_unary(&op.token) {
                Ok(r) => self.go(Control::Value(r)),
                Err(e) => self.raise(e, op.span),
            },
            Frame::Right { op, right } => {
                self.push_frame(Frame::Apply { op, left: v });
                self.go(Control::Eval(right));
            },
            Frame::Apply { op, left } => match Object::binary(left, &op.token, v) {
                Ok(Outcome::Value(r)) => self.go(Control::Value(r)),
                Ok(Outcome::Host(q)) => self.go(Control::Wait(q)),
                Err(e) => self.raise(e, op.span),
            },
            Frame::Assign { name, span } => match self.environment.assign(&name, v) {
                Ok(r) => self.go(Control::Value(r)),
                Err(e) => self.raise(e, span),
            },
            Frame::Callee { args, span } => {
                let mut args = args;
                if args.len() == 0 {
                    let none: Vec<Object> = Vec::new();
                    assert(object_views(none@) =~= Seq::<ObjectView>::empty());
                    self.invoke(v, none, span);
                } else {
                    let first = next_expr(&mut args);
                    let values: Vec<Object> = Vec::new();
                    assert(object_views(values@) =~= Seq::<ObjectView>::empty());
                    self.push_frame(Frame::Argument { callee: v, rest: args, values, span });
                    self.go(Control::Eval(first));
                }
            },
            Frame::Argument { callee, rest, values, span } => {
                let mut rest = rest;
                let mut values = values;
                let ghost before = values@;
                values.push(v);
                assert(object_views(values@) =~= object_views(before).push(v@));
                if rest.len() == 0 {
                    self.invoke(callee, values, span);
                } else {
                    let next = next_expr(&mut rest);
                    self.push_frame(Frame::Argument { callee, rest, values, span });
                    self.go(Control::Eval(next));
                }
            },
            Frame::NotCallable { span } => match v {
                Object::Number(number) => {
                    self.push_frame(Frame::NotCallable { span });
                    assert(self@.frames =~= start.frames);
                    self.go(Control::Wait(Request::Display { number }));
                },
                other => {
                    let mut text = match other.display() {
                        Some(text) => text,
                        None => String::new(),
                    };
                    text.append(" is not callable");
                    self.raise(Error::Type(text), span);
                },
            },
            other => {
                self.push_frame(other);
                assert(self@.frames =~= start.frames);
                self.finish();
            },
        }
    }

    fn step_done(&mut self, c: Completion)
        requires
            old(self).wf(),
            old(self)@.frames.len() > 0,
        ensures
            final(self).wf(),
            final(self)@ == old(self)@.done(c@),
    {
        let frame = self.pop_frame();
        match frame {
            Frame::Sequence { rest } => {
                let mut rest = rest;
                if matches!(c, Completion::Normal) && rest.len() > 0 {
                    let next = next_stmt(&mut rest);
                    self.push_frame(Frame::Sequence { rest });
                    self.go(Control::Exec(next));
                } else {
                    self.go(Control::Done(c));
                }
            },
            Frame::Program { rest } => {
                let mut rest = rest;
                if rest.len() > 0 {
                    let next = next_stmt(&mut rest);
                    self.push_frame(Frame::Program { rest });
                    self.go(Control::Exec(next));
                } else {
                    self.finish();
                }
            },
            Frame::Scope { saved } => {
                self.leave(saved);
                self.go(Control::Done(c));
            },
            Frame::Restore { saved } => {
                self.enter(saved);
                self.go(Control::Done(c));
            },
            Frame::Call { saved } => {
                self.leave(saved);
                let result = match c {
                    Completion::Return(v) => v,
                    _ => Object::Nil,
                };
                self.go(Control::Value(result));
            },
            Frame::Body { condition, body } => match c {
                Completion::Normal | Completion::Continue => {
                    let again = condition.clone();
                    self.push_frame(Frame::Loop { condition, body });
                    self.go(Control::Eval(again));
                },
                Completion::Break => self.finish(),
                Completion::Return(v) => self.go(Control::Done(Completion::Return(v))),
            },
            _ => self.go(Control::Done(c)),
        }
    }

    fn step_fail(&mut self, e: ErrorInfo)
        requires
            old(self).wf(),
            old(self)@.frames.len() > 0,
        ensures
            final(self).wf(),
            final(self)@ == old(self)@.fail(e@),
    {
        let ghost start = self@;
        let frame = self.pop_frame();
        match frame {
            Frame::Scope { saved } => {
                self.leave(saved);
                self.go(Control::Fail(e));
            },
            Frame::Restore { saved } => {
                self.enter(saved);
                self.go(Control::Fail(e));
            },
            Frame::Call { saved } => {
                self.leave(saved);
                self.go(Control::Fail(e));
            },
            Frame::Program { rest } => {
                self.push_frame(Frame::Program { rest });
                assert(self@.frames =~= start.frames);
                self.report(e);
                self.finish();
            },
            _ => self.go(Control::Fail(e)),
        }
    }

    /// Whether there is a step to take.
    pub fn status(&self) -> (s: Status)
        ensures
            s == self@.status(),
    {
        assert(frame_views(self.frames@).len() == self.frames@.len());
        match self.control {
            Control::Wait(_) => Status::Waiting,
            Control::Eval(_) => Status::Running,
            Control::Exec(_) => Status::Running,
            _ => if self.frames.len() == 0 {
                Status::Halted
            } else {
                Status::Running
            },
        }
    }

    /// Takes one step, if there is one to take.
    pub fn step(&mut self) -> (s: Status)
        requires
            old(self).wf(),
        ensures
            final(self).wf(),
            final(self)@ == old(self)@.step(),
            s == final(self)@.status(),
    {
        match self.status() {
            Status::Running => {},
            other => {
                return other;
            },
        }
        let mut control = Control::Done(Completion::Normal);
        core::mem::swap(&mut control, &mut self.control);
        assert(self@ == old(self)@.finish());
        match control {
            Control::Eval(e) => self.step_eval(e),
            Control::Exec(s) => self.step_exec(s),
            Control::Value(v) => self.step_value(v),
            Control::Done(c) => self.step_done(c),
            Control::Fail(e) => self.step_fail(e),
            Control::Wait(r) => self.go(Control::Wait(r)),
        }
        self.status()
    }

    /// Takes steps until the machine is halted or waits, but `fuel` steps
    /// at most.
    pub fn run(&mut self, fuel: usize) -> (s: Status)
        requires
            old(self).wf(),
        ensures
            final(self).wf(),
            final(self)@ == old(self)@.run(fuel as nat),
            s == final(self)@.status(),
    {
        let mut left = fuel;
        let mut status = self.status();
        while left > 0 && matches!(status, Status::Running)
            invariant
                self.wf(),
                status == self@.status(),
                self@.run(left as nat) == old(self)@.run(fuel as nat),
            decreases left,
        {
            status = self.step();
            left -= 1;
        }
        status
    }

    /// Gives the machine the host's answer.
    pub fn resume(&mut self, reply: Object)
        requires
            old(self).wf(),
        ensures
            final(self).wf(),
            final(self)@ == old(self)@.resume(reply@),
    {
        if matches!(self.control, Control::Wait(_)) {
            self.go(Control::Value(reply));
        }
    }

    /// What the host is asked for, where the machine waits.
    pub fn request(&self) -> (r: Option<&Request>)
        ensures
            match r {
                Some(q) => self@.control == ControlView::Wait(q@),
                None => !(self@.control is Wait),
            },
    {
        match &self.control {
            Control::Wait(q) => Some(q),
            _ => None,
        }
    }

    /// The value that evaluation ended with, where it ended with one.
    pub fn value(&self) -> (r: Option<&Object>)
        ensures
            match r {
                Some(v) => self@.control == ControlView::Value(v@),
                None => !(self@.control is Value),
            },
    {
        match &self.control {
            Control::Value(v) => Some(v),
            _ => None,
        }
    }

    /// The error that evaluation ended with, where it ended with one.
    pub fn failure(&self) -> (r: Option<&ErrorInfo>)
        ensures
            match r {
                Some(e) => self@.control == ControlView::Fail(e@),
                None => !(self@.control is Fail),
            },
    {
        match &self.control {
            Control::Fail(e) => Some(e),
            _ => None,
        }
    }

    /// The lines printed so far, oldest first.
    pub fn output(&self) -> (lines: &Vec<String>)
        ensures
            line_views(lines@) == self@.output,
    {
        &self.output
    }

    /// The errors reported so far, oldest first.
    pub fn errors(&self) -> (errors: &Vec<ErrorInfo>)
        ensures
            error_views(errors@) == self@.errors,
    {
        &self.errors
    }

    /// The scopes.
    pub fn environment(&self) -> (e: &Environment)
        ensures
            e@ == self@.environment,
    {
        &self.environment
    }

    /// Hands out the lines printed so far and forgets them.
    pub fn take_output(&mut self) -> (lines: Vec<String>)
        ensures
            line_views(lines@) == old(self)@.output,
            final(self)@ == (MachineView { output: Seq::empty(), ..old(self)@ }),
    {
        let mut lines: Vec<String> = Vec::new();
        core::mem::swap(&mut lines, &mut self.output);
        assert(line_views(self.output@) =~= Seq::<Seq<char>>::empty());
        lines
    }

    /// Hands out the errors reported so far and forgets them.
    pub fn take_errors(&mut self) -> (errors: Vec<ErrorInfo>)
        ensures
            error_views(errors@) == old(self)@.errors,
            final(self)@ == (MachineView { errors: Seq::empty(), ..old(self)@ }),
    {
        let mut errors: Vec<ErrorInfo> = Vec::new();
        core::mem::swap(&mut errors, &mut self.errors);
        assert(error_views(self.errors@) =~= Seq::<ErrorInfoView>::empty());
        errors
    }

    fn clear_frames(&mut self)
        ensures
            final(self)@ == (MachineView { frames: Seq::empty(), ..old(self)@ }),
    {
        self.frames = Vec::new();
        assert(frame_views(self.frames@) =~= Seq::<FrameView>::empty());
    }

    /// Sets the machine to run `program` in the global scope.
    pub fn interpret(&mut self, program: Program)
        requires
            old(self).wf(),
        ensures
            final(self).wf(),
            final(self)@ == old(self)@.interpret(program@),
    {
        self.clear_frames();
        self.enter(0);
        self.push_frame(Frame::Program { rest: reversed_stmts(program.stmts) });
        assert(self@.frames =~= seq![FrameView::Program { rest: program@.reverse() }]);
        self.finish();
    }

    /// Sets the machine to evaluate `expr` in the current scope.
    pub fn eval(&mut self, expr: &Expr)
        requires
            old(self).wf(),
        ensures
            final(self).wf(),
            final(self)@ == old(self)@.load_expr(expr@),
    {
        self.clear_frames();
        self.go(Control::Eval(expr.clone()));
    }

    /// Sets the machine to execute `stmt` in the current scope.
    pub fn exec(&mut self, stmt: &Stmt)
        requires
            old(self).wf(),
        ensures
            final(self).wf(),
            final(self)@ == old(self)@.load_stmt(stmt@),
    {
        self.clear_frames();
        self.go(Control::Exec(stmt.clone()));
    }

    /// Sets the machine to execute `stmts` in the scope `environment`.
    pub fn exec_block(&mut self, stmts: &Vec<Stmt>, environment: usize)
        requires
            old(self).wf(),
        ensures
            final(self).wf(),
            final(self)@ == old(self)@.load_block(stmt_models(stmts@), environment as nat),
    {
        let saved = self.environment.current();
        self.clear_frames();
        self.push_frame(Frame::Restore { saved });
        self.push_frame(Frame::Sequence { rest: reversed_stmts(crate::ast::clone_stmts(stmts)) });
        assert(self@.frames =~= seq![
            FrameView::Restore { saved: saved as nat },
            FrameView::Sequence { rest: stmt_models(stmts@).reverse() },
        ]);
        self.enter(environment);
        self.finish();
    }
}

/// A copy of a list of values.
fn clone_objects(v: &Vec<Object>) -> (r: Vec<Object>)
    ensures
        object_views(r@) == object_views(v@),
{
    let mut r: Vec<Object> = Vec::new();
    let mut i: usize = 0;
    while i < v.len()
        invariant
            i <= v.len(),
            r.len() == i,
            forall|j: int| 0 <= j < i ==> r@[j]@ == v@[j]@,
        decreases v.len() - i,
    {
        r.push(v[i].clone());
        i += 1;
    }
    assert(object_views(r@) =~= object_views(v@));
    r
}

impl FunctionView {
    /// Where the function was defined; a function of the host has no
    /// place in the source.
    pub open spec fn origin(self) -> Span {
        match self {
            FunctionView::Inbuilt { .. } => Span { line: 0, line_start: 0, start: 0, end: 0 },
            FunctionView::User { span, .. } => span,
        }
    }
}

impl Function {
    /// Sets `interpreter` to call the function on `args`. The value of
    /// the call is the value that the machine then comes to.
    pub fn call(&self, interpreter: &mut Interpretor, args: &Vec<Object>)
        requires
            old(interpreter).wf(),
        ensures
            final(interpreter).wf(),
            final(interpreter)@ == old(interpreter)@.invoke(
                ObjectView::Function(self@),
                object_views(args@),
                self@.origin(),
            ),
    {
        let span = match self {
            Function::Inbuilt { .. } => Span::new(0, 0, 0, 0),
            Function::User { span, .. } => *span,
        };
        interpreter.invoke(Object::Function(self.clone()), clone_objects(args), span);
    }
}

impl Default for Interpretor {
    fn default() -> (i: Self)
        ensures
            i.wf(),
            i@ == MachineView::initial(),
    {
        Self::new()
    }
}

} // verus!
