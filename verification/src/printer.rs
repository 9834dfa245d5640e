//! The syntax tree as text, in prefix notation: a way to look at what the
//! parser built.

use vstd::prelude::*;
use crate::ast::{
    expr_models, name_views, stmt_models, Expr, ExprView, LiteralType, LiteralView, Program, Stmt, StmtView,
};

verus! {

impl LiteralView {
    /// A string in quotes, a number as it was written, `true`, `false` or
    /// `nil`.
    pub open spec fn text(self) -> Seq<char> {
        match self {
            LiteralView::String(s) => "\""@ + s + "\""@,
            LiteralView::Number(s) => s,
            LiteralView::Boolean(b) => if b { "true"@ } else { "false"@ },
            LiteralView::Nil => "nil"@,
        }
    }
}

/// The texts of `args`, each behind a blank.
pub open spec fn spaced(args: Seq<ExprView>) -> Seq<char>
    decreases args,
{
    if args.len() == 0 {
        Seq::empty()
    } else {
        spaced(args.drop_last()) + " "@ + args.last().text()
    }
}

impl ExprView {
    /// The expression in prefix notation: `(operator operand operand)`.
    /// Parentheses of the source leave no trace.
    pub open spec fn text(self) -> Seq<char>
        decreases self,
    {
        match self {
            ExprView::Assign { name, value, span } => "(= "@ + name + " "@ + value.text() + ")"@,
            ExprView::Binary { left, op, right } => "("@ + op.token.text() + " "@ + left.text() + " "@
                + right.text() + ")"@,
            ExprView::Call { callee, args, span } => "(call "@ + callee.text() + spaced(args) + ")"@,
            ExprView::Get { object, name, span } => "(get "@ + object.text() + " "@ + name + ")"@,
            ExprView::Grouping { expr, span } => expr.text(),
            ExprView::Literal { value } => value.text(),
            ExprView::SetField { object, name, value, span } => "(set "@ + object.text() + " "@ + name + " "@
                + value.text() + ")"@,
            ExprView::Super { name, span } => "(super "@ + name + ")"@,
            ExprView::Unary { op, right } => "("@ + op.token.text() + " "@ + right.text() + ")"@,
            ExprView::Variable { name, span } => name,
        }
    }
}

/// The texts of `stmts`, one behind the other.
pub open spec fn run_on(stmts: Seq<StmtView>) -> Seq<char>
    decreases stmts,
{
    if stmts.len() == 0 {
        Seq::empty()
    } else {
        run_on(stmts.drop_last()) + stmts.last().text()
    }
}

/// The texts of `stmts`, each on a line of its own.
pub open spec fn lined(stmts: Seq<StmtView>) -> Seq<char>
    decreases stmts,
{
    if stmts.len() == 0 {
        Seq::empty()
    } else {
        lined(stmts.drop_last()) + stmts.last().text() + "\n"@
    }
}

/// `names` with `, ` between them.
pub open spec fn listed(names: Seq<Seq<char>>) -> Seq<char>
    decreases names.len(),
{
    if names.len() == 0 {
        Seq::empty()
    } else if names.len() == 1 {
        names[0]
    } else {
        listed(names.drop_last()) + ", "@ + names.last()
    }
}

impl StmtView {
    /// The statement in prefix notation.
    pub open spec fn text(self) -> Seq<char>
        decreases self,
    {
        match self {
            StmtView::Expr { expr } => expr.text(),
            StmtView::Print { expr } => "(print "@ + expr.text() + ")"@,
            StmtView::Let { name, value, is_const, span } => {
                let head = if is_const { "(const "@ } else { "(let "@ };
                match value {
                    Some(v) => head + name + " "@ + v.text() + ")"@,
                    None => head + name + ")"@,
                }
            },
            StmtView::Block { stmts } => "("@ + run_on(stmts) + ")"@,
            StmtView::If { condition, truthy, falsy } => match falsy {
                Some(f) => "(if "@ + condition.text() + " then "@ + truthy.text() + " else "@ + f.text() + ")"@,
                None => "(if "@ + condition.text() + " then "@ + truthy.text() + ")"@,
            },
            StmtView::While { condition, body } => "(while ("@ + condition.text() + ") "@ + body.text() + ")"@,
            StmtView::Function { name, params, body, span } => "fun "@ + name + " ("@ + listed(params) + ") "@
                + body.text(),
            StmtView::Return { value, span } => match value {
                Some(v) => "return "@ + v.text(),
                None => "return"@,
            },
            StmtView::Class { name, super_class, methods, span } => match super_class {
                Some(parent) => "class "@ + name + " extends "@ + parent + " {\n"@ + lined(methods) + "}"@,
                None => "class "@ + name + " {\n"@ + lined(methods) + "}"@,
            },
            StmtView::Break { span } => "break"@,
            StmtView::Continue { span } => "continue"@,
        }
    }
}

/// The program in prefix notation.
pub open spec fn program_text(stmts: Seq<StmtView>) -> Seq<char> {
    "("@ + run_on(stmts) + ")"@
}

impl LiteralType {
    pub fn to_string(&self) -> (r: String)
        ensures
            r@ == self@.text(),
    {
        match self {
            LiteralType::String(s) => {
                let mut r = String::from_str("\"");
                r.append(s.as_str());
                r.append("\"");
                r
            },
            LiteralType::Number(s) => s.clone(),
            LiteralType::Boolean(b) => String::from_str(if *b { "true" } else { "false" }),
            LiteralType::Nil => String::from_str("nil"),
        }
    }
}

fn spaced_text(args: &Vec<Expr>) -> (r: String)
    ensures
        r@ == spaced(expr_models(args@)),
    decreases args,
{
    let ghost all = expr_models(args@);
    let mut r = String::new();
    let mut i: usize = 0;
    while i < args.len()
        invariant
            i <= args.len(),
            all == expr_models(args@),
            r@ == spaced(all.take(i as int)),
        decreases args.len() - i,
    {
        proof {
            assert(all.take(i + 1).drop_last() == all.take(i as int));
            assert(all.take(i + 1).last() == args@[i as int].model());
        }
        let t = args[i].to_string();
        r.append(" ");
        r.append(t.as_str());
        i += 1;
    }
    assert(all.take(args.len() as int) == all);
    r
}

impl Expr {
    /// The expression in prefix notation.
    pub fn to_string(&self) -> (r: String)
        ensures
            r@ == self@.text(),
        decreases self,
    {
        match self {
            Expr::Assign { name, value, span } => {
                let v = value.to_string();
                let mut r = String::from_str("(= ");
                r.append(name.as_str());
                r.append(" ");
                r.append(v.as_str());
                r.append(")");
                r
            },
            Expr::Binary { left, op, right } => {
                let o = op.token.to_string();
                let l = left.to_string();
                let t = right.to_string();
                let mut r = String::from_str("(");
                r.append(o.as_str());
                r.append(" ");
                r.append(l.as_str());
                r.append(" ");
                r.append(t.as_str());
                r.append(")");
                r
            },
            Expr::Call { callee, args, span } => {
                let c = callee.to_string();
                let a = spaced_text(args);
                let mut r = String::from_str("(call ");
                r.append(c.as_str());
                r.append(a.as_str());
                r.append(")");
                r
            },
            Expr::Get { object, name, span } => {
                let o = object.to_string();
                let mut r = String::from_str("(get ");
                r.append(o.as_str());
                r.append(" ");
                r.append(name.as_str());
                r.append(")");
                r
            },
            Expr::Grouping { expr, span } => expr.to_string(),
            Expr::Literal { value } => value.to_string(),
            Expr::SetField { object, name, value, span } => {
                let o = object.to_string();
                let v = value.to_string();
                let mut r = String::from_str("(set ");
                r.append(o.as_str());
                r.append(" ");
                r.append(name.as_str());
                r.append(" ");
                r.append(v.as_str());
                r.append(")");
                r
            },
            Expr::Super { name, span } => {
                let mut r = String::from_str("(super ");
                r.append(name.as_str());
                r.append(")");
                r
            },
            Expr::Unary { op, right } => {
                let o = op.token.to_string();
                let t = right.to_string();
                let mut r = String::from_str("(");
                r.append(o.as_str());
                r.append(" ");
                r.append(t.as_str());
                r.append(")");
                r
            },
            Expr::Variable { name, span } => name.clone(),
        }
    }
}

fn listed_text(names: &Vec<String>) -> (r: String)
    ensures
        r@ == listed(name_views(names@)),
{
    let ghost all = name_views(names@);
    let mut r = String::new();
    let mut i: usize = 0;
    while i < names.len()
        invariant
            i <= names.len(),
            all == name_views(names@),
            r@ == listed(all.take(i as int)),
        decreases names.len() - i,
    {
        proof {
            assert(all.take(i + 1).drop_last() == all.take(i as int));
            assert(all.take(i + 1).last() == names@[i as int]@);
            assert(all.take(i + 1)[0] == names@[0]@);
        }
        if i > 0 {
            r.append(", ");
        }
        r.append(names[i].as_str());
        i += 1;
    }
    assert(all.take(names.len() as int) == all);
    r
}

fn run_on_text(stmts: &Vec<Stmt>, lines: bool) -> (r: String)
    ensures
        lines ==> r@ == lined(stmt_models(stmts@)),
        !lines ==> r@ == run_on(stmt_models(stmts@)),
    decreases stmts,
{
    let ghost all = stmt_models(stmts@);
    let mut r = String::new();
    let mut i: usize = 0;
    while i < stmts.len()
        invariant
            i <= stmts.len(),
            all == stmt_models(stmts@),
            lines ==> r@ == lined(all.take(i as int)),
            !lines ==> r@ == run_on(all.take(i as int)),
        decreases stmts.len() - i,
    {
        proof {
            assert(all.take(i + 1).drop_last() == all.take(i as int));
            assert(all.take(i + 1).last() == stmts@[i as int].model());
        }
        let t = stmts[i].to_string();
        r.append(t.as_str());
        if lines {
            r.append("\n");
        }
        i += 1;
    }
    assert(all.take(stmts.len() as int) == all);
    r
}

impl Stmt {
    /// The statement in prefix notation.
    pub fn to_string(&self) -> (r: String)
        ensures
            r@ == self@.text(),
        decreases self,
    {
        match self {
            Stmt::Expr { expr } => expr.to_string(),
            Stmt::Print { expr } => {
                let e = expr.to_string();
                let mut r = String::from_str("(print ");
                r.append(e.as_str());
                r.append(")");
                r
            },
            Stmt::Let { name, value, is_const, span } => {
                let mut r = String::from_str(if *is_const { "(const " } else { "(let " });
                r.append(name.as_str());
                match value {
                    Some(v) => {
                        let t = v.to_string();
                        r.append(" ");
                        r.append(t.as_str());
                    },
                    None => {},
                }
                r.append(")");
                r
            },
            Stmt::Block { stmts } => {
                let inner = run_on_text(stmts, false);
                let mut r = String::from_str("(");
                r.append(inner.as_str());
                r.append(")");
                r
            },
            Stmt::If { condition, truthy, falsy } => {
                let c = condition.to_string();
                let t = truthy.to_string();
                let mut r = String::from_str("(if ");
                r.append(c.as_str());
                r.append(" then ");
                r.append(t.as_str());
                match falsy {
                    Some(f) => {
                        let e = f.to_string();
                        r.append(" else ");
                        r.append(e.as_str());
                    },
                    None => {},
                }
                r.append(")");
                r
            },
            Stmt::While { condition, body } => {
                let c = condition.to_string();
                let b = body.to_string();
                let mut r = String::from_str("(while (");
                r.append(c.as_str());
                r.append(") ");
                r.append(b.as_str());
                r.append(")");
                r
            },
            Stmt::Function { name, params, body, span } => {
                let p = listed_text(params);
                let b = body.to_string();
                let mut r = String::from_str("fun ");
                r.append(name.as_str());
                r.append(" (");
                r.append(p.as_str());
                r.append(") ");
                r.append(b.as_str());
                r
            },
            Stmt::Return { value, span } => match value {
                Some(v) => {
                    let t = v.to_string();
                    let mut r = String::from_str("return ");
                    r.append(t.as_str());
                    r
                },
                None => String::from_str("return"),
            },
            Stmt::Class { name, super_class, methods, span } => {
                let m = run_on_text(methods, true);
                let mut r = String::from_str("class ");
                r.append(name.as_str());
                match super_class {
                    Some(parent) => {
                        r.append(" extends ");
                        r.append(parent.as_str());
                    },
                    None => {},
                }
                r.append(" {\n");
                r.append(m.as_str());
                r.append("}");
                r
            },
            Stmt::Break { span } => String::from_str("break"),
            Stmt::Continue { span } => String::from_str("continue"),
        }
    }
}

impl Program {
    /// The program in prefix notation.
    pub fn to_string(&self) -> (r: String)
        ensures
            r@ == program_text(self@),
    {
        let inner = run_on_text(&self.stmts, false);
        let mut r = String::from_str("(");
        r.append(inner.as_str());
        r.append(")");
        r
    }
}

} // verus!
