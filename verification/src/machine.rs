//! The evaluator's state and its transitions, as mathematics.
//!
//! Evaluation is a machine that takes one small step at a time. Its state
//! is the scopes, what is being worked on (the control), the work that is
//! put off until the control has an outcome (the frames, innermost last),
//! and what was printed and reported so far. Where a step needs the host,
//! the machine waits until the host has answered.

use vstd::prelude::*;
use crate::ast::{ExprView, LiteralView, StmtView};
use crate::environment::EnvironmentView;
use crate::error::{ErrorInfoView, ErrorView};
use crate::object::{binary, FunctionView, ObjectView, OutcomeView, RequestView};
use crate::span::Span;
use crate::text::decimal;
use crate::token::TokenInfoView;

verus! {

/// How a statement ended.
pub enum CompletionView {
    /// It ran to its end.
    Normal,
    /// A `return` with this value is on its way to the call.
    Return(ObjectView),
    /// A `break` is on its way to the loop.
    Break,
    /// A `continue` is on its way to the loop.
    Continue,
}

/// What the machine is working on.
pub enum ControlView {
    /// An expression to evaluate.
    Eval(ExprView),
    /// A statement to execute.
    Exec(StmtView),
    /// The value of the expression just evaluated.
    Value(ObjectView),
    /// The end of the statement just executed.
    Done(CompletionView),
    /// An error on its way outwards.
    Fail(ErrorInfoView),
    /// Work of the host, whose answer is awaited.
    Wait(RequestView),
}

/// Work that is put off. Lists of statements and expressions hold what
/// is still to come, the next one last.
#[allow(inconsistent_fields)]
pub enum FrameView {
    /// The statements of the program that are still to run.
    Program { rest: Seq<StmtView> },
    /// The statements of a block that are still to run.
    Sequence { rest: Seq<StmtView> },
    /// A scope was made and entered; it is left for `saved`.
    Scope { saved: nat },
    /// A scope that was there before was entered; `saved` is current
    /// again afterwards.
    Restore { saved: nat },
    /// A function was called from scope `saved`.
    Call { saved: nat },
    /// An expression statement: the value is dropped.
    Discard,
    /// `print`: the value is written.
    Print,
    /// `let` or `const`: the value is bound to `name`.
    Let { name: Seq<char>, is_const: bool, span: Span },
    /// `if`: the value chooses the branch.
    Branch { truthy: StmtView, falsy: Option<StmtView> },
    /// `while`: the value of the condition decides.
    Loop { condition: ExprView, body: StmtView },
    /// `while`: the body is running.
    Body { condition: ExprView, body: StmtView },
    /// `return`: the value is returned.
    Return,
    /// A unary operator waits for its operand.
    Unary { op: TokenInfoView },
    /// A binary operator waits for its left operand.
    Right { op: TokenInfoView, right: ExprView },
    /// A binary operator waits for its right operand.
    Apply { op: TokenInfoView, left: ObjectView },
    /// An assignment waits for its value.
    Assign { name: Seq<char>, span: Span },
    /// A call waits for the value that is called.
    Callee { args: Seq<ExprView>, span: Span },
    /// A call waits for an argument.
    Argument { callee: ObjectView, rest: Seq<ExprView>, values: Seq<ObjectView>, span: Span },
    /// A value that is no function was called.
    NotCallable { span: Span },
}

/// Whether the machine can take a step.
#[derive(Debug, PartialEq, Eq, Clone, Copy, Structural)]
pub enum Status {
    /// There is a step to take.
    Running,
    /// Nothing is left to do.
    Halted,
    /// The host owes an answer.
    Waiting,
}

pub struct MachineView {
    pub environment: EnvironmentView,
    pub control: ControlView,
    pub frames: Seq<FrameView>,
    /// The lines printed, oldest first.
    pub output: Seq<Seq<char>>,
    /// The errors reported, oldest first.
    pub errors: Seq<ErrorInfoView>,
}

pub open spec fn not_implemented(what: Seq<char>) -> ErrorView {
    ErrorView::Runtime(what + " is not implemented"@)
}

pub open spec fn wrong_arity(expected: nat, given: nat) -> ErrorView {
    ErrorView::Runtime("Expected "@ + decimal(expected) + " arguments but got "@ + decimal(given))
}

pub open spec fn not_callable(text: Seq<char>) -> ErrorView {
    ErrorView::Type(text + " is not callable"@)
}

/// The environment with each parameter bound to its argument in the
/// current scope, first parameter first.
pub open spec fn bind_all(env: EnvironmentView, params: Seq<Seq<char>>, args: Seq<ObjectView>) -> EnvironmentView
    decreases params.len(),
{
    if params.len() == 0 || args.len() == 0 {
        env
    } else {
        bind_all(env, params.drop_last(), args.drop_last()).bind(env.current, params.last(), args.last(), false)
    }
}

impl MachineView {
    /// The same machine working on `control`.
    pub open spec fn go(self, control: ControlView) -> MachineView {
        MachineView { control, ..self }
    }

    /// The same machine with `frame` put off.
    pub open spec fn push(self, frame: FrameView) -> MachineView {
        MachineView { frames: self.frames.push(frame), ..self }
    }

    /// The same machine without its innermost frame.
    pub open spec fn pop(self) -> MachineView {
        MachineView { frames: self.frames.drop_last(), ..self }
    }

    pub open spec fn raise(self, error: ErrorView, span: Span) -> MachineView {
        self.go(ControlView::Fail(ErrorInfoView { error, span }))
    }

    pub open spec fn within(self, environment: EnvironmentView) -> MachineView {
        MachineView { environment, ..self }
    }

    pub open spec fn finish(self) -> MachineView {
        self.go(ControlView::Done(CompletionView::Normal))
    }

    /// One step on the expression `e`.
    pub open spec fn eval(self, e: ExprView) -> MachineView {
        match e {
            ExprView::Literal { value } => match value {
                LiteralView::Number(text) => self.go(ControlView::Wait(RequestView::Literal { text })),
                LiteralView::String(s) => self.go(ControlView::Value(ObjectView::String(s))),
                LiteralView::Boolean(b) => self.go(ControlView::Value(ObjectView::Boolean(b))),
                LiteralView::Nil => self.go(ControlView::Value(ObjectView::Nil)),
            },
            ExprView::Variable { name, span } => match self.environment.get(name) {
                Ok(v) => self.go(ControlView::Value(v)),
                Err(e) => self.raise(e, span),
            },
            ExprView::Grouping { expr, span } => self.go(ControlView::Eval(*expr)),
            ExprView::Unary { op, right } => self.push(FrameView::Unary { op }).go(ControlView::Eval(*right)),
            ExprView::Binary { left, op, right } => self.push(FrameView::Right { op, right: *right }).go(
                ControlView::Eval(*left),
            ),
            ExprView::Assign { name, value, span } => self.push(FrameView::Assign { name, span }).go(
                ControlView::Eval(*value),
            ),
            ExprView::Call { callee, args, span } => self.push(
                FrameView::Callee { args: args.reverse(), span },
            ).go(ControlView::Eval(*callee)),
            ExprView::Get { object, name, span } => self.raise(not_implemented("property access"@), span),
            ExprView::SetField { object, name, value, span } => self.raise(
                not_implemented("property assignment"@),
                span,
            ),
            ExprView::Super { name, span } => self.raise(not_implemented("super"@), span),
        }
    }

    /// One step on the statement `s`.
    pub open spec fn exec(self, s: StmtView) -> MachineView {
        match s {
            StmtView::Expr { expr } => self.push(FrameView::Discard).go(ControlView::Eval(expr)),
            StmtView::Print { expr } => self.push(FrameView::Print).go(ControlView::Eval(expr)),
            StmtView::Let { name, value, is_const, span } => {
                let waiting = self.push(FrameView::Let { name, is_const, span });
                match value {
                    Some(expr) => waiting.go(ControlView::Eval(expr)),
                    None => waiting.go(ControlView::Value(ObjectView::Nil)),
                }
            },
            StmtView::Block { stmts } => self.push(FrameView::Scope { saved: self.environment.current }).push(
                FrameView::Sequence { rest: stmts.reverse() },
            ).within(self.environment.push_scope(self.environment.current)).finish(),
            StmtView::If { condition, truthy, falsy } => self.push(
                FrameView::Branch {
                    truthy: *truthy,
                    falsy: match falsy {
                        Some(f) => Some(*f),
                        None => None,
                    },
                },
            ).go(ControlView::Eval(condition)),
            StmtView::While { condition, body } => self.push(FrameView::Loop { condition, body: *body }).go(
                ControlView::Eval(condition),
            ),
            StmtView::Function { name, params, body, span } => {
                let function = ObjectView::Function(
                    FunctionView::User {
                        name,
                        params,
                        body: *body,
                        closure: self.environment.current,
                        is_initializer: false,
                        span,
                    },
                );
                let (environment, defined) = self.environment.define(name, function, false);
                match defined {
                    Ok(_) => self.within(environment.capture()).finish(),
                    Err(e) => self.raise(e, span),
                }
            },
            StmtView::Return { value, span } => match value {
                Some(expr) => self.push(FrameView::Return).go(ControlView::Eval(expr)),
                None => self.go(ControlView::Done(CompletionView::Return(ObjectView::Nil))),
            },
            StmtView::Class { name, super_class, methods, span } => self.raise(
                not_implemented("class"@),
                span,
            ),
            StmtView::Break { span } => self.go(ControlView::Done(CompletionView::Break)),
            StmtView::Continue { span } => self.go(ControlView::Done(CompletionView::Continue)),
        }
    }

    /// The call of `callee` on `args`.
    ///
    /// A function of the program runs its body in a new scope that lies
    /// inside the scope the function was defined in, with its parameters
    /// bound there. A function of the host is the host's work. Anything
    /// else is not callable. The number of arguments has to be the number
    /// of parameters.
    pub open spec fn invoke(self, callee: ObjectView, args: Seq<ObjectView>, span: Span) -> MachineView {
        match callee {
            ObjectView::Function(f) => if f.arity() != args.len() {
                self.raise(wrong_arity(f.arity(), args.len()), span)
            } else {
                match f {
                    FunctionView::Inbuilt { arity, id } => self.go(
                        ControlView::Wait(RequestView::Native { id, args }),
                    ),
                    FunctionView::User { name, params, body, closure, is_initializer, span } => self.push(
                        FrameView::Call { saved: self.environment.current },
                    ).within(bind_all(self.environment.push_scope(closure), params, args)).go(
                        ControlView::Exec(body),
                    ),
                }
            },
            _ => self.push(FrameView::NotCallable { span }).go(ControlView::Value(callee)),
        }
    }

    /// One step on the value `v`, which goes to the innermost frame.
    pub open spec fn value(self, v: ObjectView) -> MachineView {
        let rest = self.pop();
        match self.frames.last() {
            FrameView::Discard => rest.finish(),
            FrameView::Print => match v {
                ObjectView::Number(number) => self.go(ControlView::Wait(RequestView::Display { number })),
                _ => MachineView { output: rest.output.push(v.display().unwrap()), ..rest }.finish(),
            },
            FrameView::Let { name, is_const, span } => {
                let (environment, defined) = rest.environment.define(name, v, is_const);
                match defined {
                    Ok(_) => rest.within(environment).finish(),
                    Err(e) => rest.raise(e, span),
                }
            },
            FrameView::Branch { truthy, falsy } => if v.truthy() {
                rest.go(ControlView::Exec(truthy))
            } else {
                match falsy {
                    Some(f) => rest.go(ControlView::Exec(f)),
                    None => rest.finish(),
                }
            },
            FrameView::Loop { condition, body } => if v.truthy() {
                rest.push(FrameView::Body { condition, body }).go(ControlView::Exec(body))
            } else {
                rest.finish()
            },
            FrameView::Return => rest.go(ControlView::Done(CompletionView::Return(v))),
            FrameView::Unary { op } => match v.unary(op.token) {
                Ok(r) => rest.go(ControlView::Value(r)),
                Err(e) => rest.raise(e, op.span),
            },
            FrameView::Right { op, right } => rest.push(FrameView::Apply { op, left: v }).go(
                ControlView::Eval(right),
            ),
            FrameView::Apply { op, left } => match binary(left, op.token, v) {
                Ok(OutcomeView::Value(r)) => rest.go(ControlView::Value(r)),
                Ok(OutcomeView::Host(q)) => rest.go(ControlView::Wait(q)),
                Err(e) => rest.raise(e, op.span),
            },
            FrameView::Assign { name, span } => {
                let (environment, assigned) = rest.environment.assign(name, v);
                match assigned {
                    Ok(r) => rest.within(environment).go(ControlView::Value(r)),
                    Err(e) => rest.raise(e, span),
                }
            },
            FrameView::Callee { args, span } => if args.len() == 0 {
                rest.invoke(v, Seq::empty(), span)
            } else {
                rest.push(
                    FrameView::Argument { callee: v, rest: args.drop_last(), values: Seq::empty(), span },
                ).go(ControlView::Eval(args.last()))
            },
            FrameView::Argument { callee, rest: pending, values, span } => if pending.len() == 0 {
                rest.invoke(callee, values.push(v), span)
            } else {
                rest.push(
                    FrameView::Argument { callee, rest: pending.drop_last(), values: values.push(v), span },
                ).go(ControlView::Eval(pending.last()))
            },
            FrameView::NotCallable { span } => match v {
                ObjectView::Number(number) => self.go(ControlView::Wait(RequestView::Display { number })),
                _ => rest.raise(not_callable(v.display().unwrap()), span),
            },
            _ => self.finish(),
        }
    }

    /// One step on the end `c` of a statement, which goes to the
    /// innermost frame.
    pub open spec fn done(self, c: CompletionView) -> MachineView {
        let rest = self.pop();
        match self.frames.last() {
            FrameView::Sequence { rest: pending } => if c is Normal && pending.len() > 0 {
                rest.push(FrameView::Sequence { rest: pending.drop_last() }).go(ControlView::Exec(pending.last()))
            } else {
                rest.go(ControlView::Done(c))
            },
            FrameView::Program { rest: pending } => if pending.len() > 0 {
                rest.push(FrameView::Program { rest: pending.drop_last() }).go(ControlView::Exec(pending.last()))
            } else {
                rest.finish()
            },
            FrameView::Scope { saved } => rest.within(rest.environment.leave(saved)).go(ControlView::Done(c)),
            FrameView::Restore { saved } => rest.within(rest.environment.enter(saved)).go(ControlView::Done(c)),
            FrameView::Call { saved } => rest.within(rest.environment.leave(saved)).go(
                ControlView::Value(
                    match c {
                        CompletionView::Return(v) => v,
                        _ => ObjectView::Nil,
                    },
                ),
            ),
            FrameView::Body { condition, body } => match c {
                CompletionView::Normal => rest.push(FrameView::Loop { condition, body }).go(
                    ControlView::Eval(condition),
                ),
                CompletionView::Continue => rest.push(FrameView::Loop { condition, body }).go(
                    ControlView::Eval(condition),
                ),
                CompletionView::Break => rest.finish(),
                CompletionView::Return(_) => rest.go(ControlView::Done(c)),
            },
            _ => rest.go(ControlView::Done(c)),
        }
    }

    /// One step on the error `e`, which leaves the innermost frame behind.
    /// At the program's frame it is reported, and the program goes on with
    /// its next statement.
    pub open spec fn fail(self, e: ErrorInfoView) -> MachineView {
        let rest = self.pop();
        match self.frames.last() {
            FrameView::Scope { saved } => rest.within(rest.environment.leave(saved)).go(ControlView::Fail(e)),
            FrameView::Restore { saved } => rest.within(rest.environment.enter(saved)).go(ControlView::Fail(e)),
            FrameView::Call { saved } => rest.within(rest.environment.leave(saved)).go(ControlView::Fail(e)),
            FrameView::Program { rest: pending } => MachineView { errors: self.errors.push(e), ..self }.finish(),
            _ => rest.go(ControlView::Fail(e)),
        }
    }

    pub open spec fn status(self) -> Status {
        match self.control {
            ControlView::Wait(_) => Status::Waiting,
            ControlView::Eval(_) => Status::Running,
            ControlView::Exec(_) => Status::Running,
            _ => if self.frames.len() == 0 {
                Status::Halted
            } else {
                Status::Running
            },
        }
    }

    /// The machine after one step; unchanged where it is halted or waits.
    pub open spec fn step(self) -> MachineView {
        if self.status() != Status::Running {
            self
        } else {
            match self.control {
                ControlView::Eval(e) => self.finish().eval(e),
                ControlView::Exec(s) => self.finish().exec(s),
                ControlView::Value(v) => self.finish().value(v),
                ControlView::Done(c) => self.finish().done(c),
                ControlView::Fail(e) => self.finish().fail(e),
                ControlView::Wait(_) => self,
            }
        }
    }

    /// The machine after at most `fuel` steps: it stops early where it is
    /// halted or waits.
    pub open spec fn run(self, fuel: nat) -> MachineView
        decreases fuel,
    {
        if fuel == 0 || self.status() != Status::Running {
            self
        } else {
            self.step().run((fuel - 1) as nat)
        }
    }

    /// The machine with the host's answer: the answer is the value that
    /// was waited for. Unchanged where the machine does not wait.
    pub open spec fn resume(self, reply: ObjectView) -> MachineView {
        match self.control {
            ControlView::Wait(_) => self.go(ControlView::Value(reply)),
            _ => self,
        }
    }
}

/// Binding parameters changes no scope but the current one, and there
/// only what is bound.
pub proof fn bind_all_keeps_the_scopes(env: EnvironmentView, params: Seq<Seq<char>>, args: Seq<ObjectView>)
    requires
        env.wf(),
    ensures
        bind_all(env, params, args).current == env.current,
        bind_all(env, params, args).scopes.len() == env.scopes.len(),
        forall|i: int|
            0 <= i < env.scopes.len() ==> (#[trigger] bind_all(env, params, args).scopes[i]).enclosing
                == env.scopes[i].enclosing,
        forall|i: int|
            0 <= i < env.scopes.len() && i != env.current ==> #[trigger] bind_all(env, params, args).scopes[i]
                == env.scopes[i],
    decreases params.len(),
{
    if params.len() != 0 && args.len() != 0 {
        bind_all_keeps_the_scopes(env, params.drop_last(), args.drop_last());
    }
}

/// A function of the program runs in a new scope that lies inside the
/// scope it was defined in, from whatever scope it is called; the scope
/// of the call is kept for the return.
pub proof fn call_enters_the_defining_scope(
    m: MachineView,
    function: FunctionView,
    args: Seq<ObjectView>,
    at: Span,
)
    requires
        m.environment.wf(),
        function is User,
        function.arity() == args.len(),
    ensures
        ({
            let next = m.invoke(ObjectView::Function(function), args, at);
            &&& next.environment.current == m.environment.scopes.len()
            &&& next.environment.scopes.len() == m.environment.scopes.len() + 1
            &&& next.environment.scopes[next.environment.current as int].enclosing == Some(
                function->closure,
            )
            &&& forall|i: int|
                0 <= i < m.environment.scopes.len() ==> #[trigger] next.environment.scopes[i]
                    == m.environment.scopes[i]
            &&& next.frames == m.frames.push(FrameView::Call { saved: m.environment.current })
            &&& next.control == ControlView::Exec(function->body)
        }),
{
    let entered = m.environment.push_scope(function->closure);
    bind_all_keeps_the_scopes(entered, function->params, args);
}

/// An error that reaches the program is reported, and the program goes
/// on with its next statement.
pub proof fn failure_is_reported_and_the_program_goes_on(m: MachineView, e: ErrorInfoView, rest: Seq<StmtView>)
    requires
        m.control == ControlView::Fail(e),
        m.frames.len() > 0,
        m.frames.last() == (FrameView::Program { rest }),
    ensures
        m.step() == (MachineView { errors: m.errors.push(e), ..m }).finish(),
        rest.len() > 0 ==> m.step().step() == (MachineView {
            errors: m.errors.push(e),
            frames: m.frames.drop_last().push(FrameView::Program { rest: rest.drop_last() }),
            ..m
        }).go(ControlView::Exec(rest.last())),
        rest.len() == 0 ==> m.step().step() == (MachineView {
            errors: m.errors.push(e),
            frames: m.frames.drop_last(),
            ..m
        }).finish(),
{
}

/// The scope that was current when a block was entered is current again
/// when the block is left, however it is left: at its end, by `return`,
/// `break` or `continue`, or by an error.
pub proof fn blocks_restore_the_scope(m: MachineView, saved: nat, c: CompletionView, e: ErrorInfoView)
    requires
        m.frames.len() > 0,
        m.frames.last() == (FrameView::Scope { saved }),
        saved < m.environment.current < m.environment.scopes.len(),
    ensures
        m.done(c).environment.current == saved,
        m.done(c).control == ControlView::Done(c),
        m.fail(e).environment.current == saved,
        m.fail(e).control == ControlView::Fail(e),
        m.done(c).frames == m.frames.drop_last(),
        m.fail(e).frames == m.frames.drop_last(),
{
}

/// A `return` ends at the nearest call, whose value it gives; a function
/// that runs to its end gives `nil`.
pub proof fn return_ends_at_the_call(m: MachineView, saved: nat, v: ObjectView)
    requires
        m.frames.len() > 0,
        m.frames.last() == (FrameView::Call { saved }),
    ensures
        m.done(CompletionView::Return(v)).control == ControlView::Value(v),
        m.done(CompletionView::Normal).control == ControlView::Value(ObjectView::Nil),
        m.done(CompletionView::Return(v)).frames == m.frames.drop_last(),
{
}

/// Running in two legs is running in one: it makes no difference how
/// the host cuts the steps into runs.
pub proof fn run_in_legs(m: MachineView, a: nat, b: nat)
    ensures
        m.run(a).run(b) == m.run(a + b),
    decreases a,
{
    if a != 0 && m.status() == Status::Running {
        run_in_legs(m.step(), (a - 1) as nat, b);
    }
}

/// A machine that is halted or waits stays as it is, however long it is
/// run; only an answer of the host moves a machine that waits.
pub proof fn rest_is_kept(m: MachineView, fuel: nat)
    requires
        m.status() != Status::Running,
    ensures
        m.step() == m,
        m.run(fuel) == m,
{
}

/// `return`, `break` and `continue` pass through the rest of a block and
/// through the scope of a block: the frame is left behind and the
/// statements that were still to come are skipped.
pub proof fn completions_unwind(m: MachineView, c: CompletionView)
    requires
        m.frames.len() > 0,
        m.frames.last() is Sequence || m.frames.last() is Scope,
        !(c is Normal),
    ensures
        m.done(c).control == ControlView::Done(c),
        m.done(c).frames == m.frames.drop_last(),
{
}

/// A loop ends on `break`, goes round again on `continue` and at the end
/// of its body, and hands a `return` on.
pub proof fn loops_catch_break_and_continue(m: MachineView, condition: ExprView, body: StmtView, v: ObjectView)
    requires
        m.frames.len() > 0,
        m.frames.last() == (FrameView::Body { condition, body }),
    ensures
        m.done(CompletionView::Break) == m.pop().finish(),
        m.done(CompletionView::Continue) == m.done(CompletionView::Normal),
        m.done(CompletionView::Normal) == m.pop().push(FrameView::Loop { condition, body }).go(
            ControlView::Eval(condition),
        ),
        m.done(CompletionView::Return(v)) == m.pop().go(ControlView::Done(CompletionView::Return(v))),
{
}

/// An error passes through every frame but the program's: the frame is
/// left behind, and what it was waiting to do is not done.
pub proof fn errors_unwind(m: MachineView, e: ErrorInfoView)
    requires
        m.frames.len() > 0,
        !(m.frames.last() is Program),
    ensures
        m.fail(e).control == ControlView::Fail(e),
        m.fail(e).frames == m.frames.drop_last(),
        m.fail(e).output == m.output,
        m.fail(e).errors == m.errors,
{
}

} // verus!
