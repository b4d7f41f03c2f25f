//! Whole-subtree searches: markup elements and reads of a `value` property.
use vstd::prelude::*;
use crate::names::same_text;
use crate::ast::{Arg, ArrowBody, ArrowExpr, Expr, Function, MemberProp, Stmt, VarDeclarator};

verus! {

/// What a search looks for.
#[derive(PartialEq, Eq, Structural, Clone, Copy, Debug)]
pub enum Probe {
    /// A markup element.
    Markup,
    /// A member access whose property is named `value`.
    SignalRead,
}

/// `e` with every enclosing pair of parentheses taken off.
pub open spec fn unparen(e: Expr) -> Expr
    decreases e,
{
    match e {
        Expr::Paren(x) => unparen(*x),
        _ => e,
    }
}

pub open spec fn is_value_name(s: Seq<char>) -> bool {
    s == "value"@
}

/// `.value`, or `["value"]` with the string literal possibly parenthesised.
pub open spec fn is_value_prop(p: MemberProp) -> bool {
    match p {
        MemberProp::Ident(id) => is_value_name(id.sym@),
        MemberProp::Computed(x) => match unparen(*x) {
            Expr::Str(s) => is_value_name(s@),
            _ => false,
        },
    }
}

pub open spec fn expr_has(p: Probe, e: Expr) -> bool
    decreases e,
{
    match e {
        Expr::Ident(_) => false,
        Expr::Str(_) => false,
        Expr::Lit => false,
        Expr::Paren(x) => expr_has(p, *x),
        Expr::Jsx(ch) => p == Probe::Markup || exists|i: int| 0 <= i < ch.len() && expr_has(p, #[trigger] ch@[i]),
        Expr::Member(o, prop) => (p == Probe::SignalRead && is_value_prop(prop)) || expr_has(p, *o) || match prop {
            MemberProp::Ident(_) => false,
            MemberProp::Computed(x) => expr_has(p, *x),
        },
        Expr::Call(c, args) => expr_has(p, *c) || exists|i: int| 0 <= i < args.len() && expr_has(p, (#[trigger] args@[i]).expr),
        Expr::Arrow(a) => arrow_has(p, *a),
        Expr::Fn(f) => fn_has(p, f.function),
        Expr::Other(es) => exists|i: int| 0 <= i < es.len() && expr_has(p, #[trigger] es@[i]),
    }
}

pub open spec fn arrow_has(p: Probe, a: ArrowExpr) -> bool
    decreases a,
{
    (exists|i: int| 0 <= i < a.params.len() && expr_has(p, #[trigger] a.params@[i])) || match a.body {
        ArrowBody::Block(ss) => exists|i: int| 0 <= i < ss.len() && stmt_has(p, #[trigger] ss@[i]),
        ArrowBody::Expr(x) => expr_has(p, *x),
    }
}

pub open spec fn fn_has(p: Probe, f: Function) -> bool
    decreases f,
{
    (exists|i: int| 0 <= i < f.params.len() && expr_has(p, #[trigger] f.params@[i])) || match f.body {
        Some(ss) => exists|i: int| 0 <= i < ss.len() && stmt_has(p, #[trigger] ss@[i]),
        None => false,
    }
}

pub open spec fn stmt_has(p: Probe, s: Stmt) -> bool
    decreases s,
{
    match s {
        Stmt::Expr(e) => expr_has(p, e),
        Stmt::Return(Some(e)) => expr_has(p, e),
        Stmt::Return(None) => false,
        Stmt::Var(d) => exists|i: int| 0 <= i < d.decls.len() && match (#[trigger] d.decls@[i]).init {
            Some(e) => expr_has(p, e),
            None => false,
        },
        Stmt::FnDecl(d) => fn_has(p, d.function),
        Stmt::Block(ss) => exists|i: int| 0 <= i < ss.len() && stmt_has(p, #[trigger] ss@[i]),
        Stmt::Try(b, f) => (exists|i: int| 0 <= i < b.len() && stmt_has(p, #[trigger] b@[i])) || match f {
            Some(fs) => exists|i: int| 0 <= i < fs.len() && stmt_has(p, #[trigger] fs@[i]),
            None => false,
        },
        Stmt::Empty => false,
        Stmt::Other(es, ss) => (exists|i: int| 0 <= i < es.len() && expr_has(p, #[trigger] es@[i]))
            || exists|i: int| 0 <= i < ss.len() && stmt_has(p, #[trigger] ss@[i]),
    }
}

pub open spec fn stmts_have(p: Probe, ss: Seq<Stmt>) -> bool {
    exists|i: int| 0 <= i < ss.len() && stmt_has(p, #[trigger] ss[i])
}

pub open spec fn exprs_have(p: Probe, es: Seq<Expr>) -> bool {
    exists|i: int| 0 <= i < es.len() && expr_has(p, #[trigger] es[i])
}

fn is_value_prop_exec(prop: &MemberProp) -> (r: bool)
    ensures
        r == is_value_prop(*prop),
{
    match prop {
        MemberProp::Ident(id) => same_text(id.sym.as_str(), "value"),
        MemberProp::Computed(x) => match unwrap_parens(x) {
            Expr::Str(s) => same_text(s.as_str(), "value"),
            _ => false,
        },
    }
}

/// Takes off every enclosing pair of parentheses.
pub fn unwrap_parens(e: &Expr) -> (r: &Expr)
    ensures
        *r == unparen(*e),
    decreases e,
{
    match e {
        Expr::Paren(x) => unwrap_parens(x),
        _ => e,
    }
}

fn stmt_list_has(p: Probe, ss: &Vec<Stmt>) -> (r: bool)
    ensures
        r == stmts_have(p, ss@),
    decreases ss,
{
    let mut i: usize = 0;
    while i < ss.len()
        invariant
            i <= ss@.len(),
            forall|k: int| 0 <= k < i ==> !stmt_has(p, #[trigger] ss@[k]),
        decreases ss@.len() - i,
    {
        assert(decreases_to!(ss => ss@[i as int]));
        if stmt_contains(p, &ss[i]) {
            return true;
        }
        i = i + 1;
    }
    false
}

fn expr_list_has(p: Probe, es: &Vec<Expr>) -> (r: bool)
    ensures
        r == exprs_have(p, es@),
    decreases es,
{
    let mut i: usize = 0;
    while i < es.len()
        invariant
            i <= es@.len(),
            forall|k: int| 0 <= k < i ==> !expr_has(p, #[trigger] es@[k]),
        decreases es@.len() - i,
    {
        assert(decreases_to!(es => es@[i as int]));
        if expr_contains(p, &es[i]) {
            return true;
        }
        i = i + 1;
    }
    false
}

fn args_have(p: Probe, args: &Vec<Arg>) -> (r: bool)
    ensures
        r == exists|i: int| 0 <= i < args@.len() && expr_has(p, (#[trigger] args@[i]).expr),
    decreases args,
{
    let mut i: usize = 0;
    while i < args.len()
        invariant
            i <= args@.len(),
            forall|k: int| 0 <= k < i ==> !expr_has(p, (#[trigger] args@[k]).expr),
        decreases args@.len() - i,
    {
        assert(decreases_to!(args => args@[i as int]));
        if expr_contains(p, &args[i].expr) {
            return true;
        }
        i = i + 1;
    }
    false
}

fn declarators_have(p: Probe, ds: &Vec<VarDeclarator>) -> (r: bool)
    ensures
        r == exists|i: int| 0 <= i < ds@.len() && match (#[trigger] ds@[i]).init {
            Some(e) => expr_has(p, e),
            None => false,
        },
    decreases ds,
{
    let mut i: usize = 0;
    while i < ds.len()
        invariant
            i <= ds@.len(),
            forall|k: int| 0 <= k < i ==> !match (#[trigger] ds@[k]).init {
                Some(e) => expr_has(p, e),
                None => false,
            },
        decreases ds@.len() - i,
    {
        assert(decreases_to!(ds => ds@[i as int]));
        if let Some(e) = &ds[i].init {
            if expr_contains(p, e) {
                return true;
            }
        }
        i = i + 1;
    }
    false
}

/// Searches an expression's whole subtree.
pub fn expr_contains(p: Probe, e: &Expr) -> (r: bool)
    ensures
        r == expr_has(p, *e),
    decreases e,
{
    match e {
        Expr::Ident(_) => false,
        Expr::Str(_) => false,
        Expr::Lit => false,
        Expr::Paren(x) => expr_contains(p, x),
        Expr::Jsx(ch) => p == Probe::Markup || expr_list_has(p, ch),
        Expr::Member(o, prop) => (p == Probe::SignalRead && is_value_prop_exec(prop)) || expr_contains(p, o)
            || match prop {
            MemberProp::Ident(_) => false,
            MemberProp::Computed(x) => expr_contains(p, x),
        },
        Expr::Call(c, args) => expr_contains(p, c) || args_have(p, args),
        Expr::Arrow(a) => arrow_contains(p, a),
        Expr::Fn(f) => function_contains(p, &f.function),
        Expr::Other(es) => expr_list_has(p, es),
    }
}

/// Searches the body of an arrow expression.
pub fn arrow_contains(p: Probe, a: &ArrowExpr) -> (r: bool)
    ensures
        r == arrow_has(p, *a),
    decreases a,
{
    expr_list_has(p, &a.params) || match &a.body {
        ArrowBody::Block(ss) => stmt_list_has(p, ss),
        ArrowBody::Expr(x) => expr_contains(p, x),
    }
}

/// Searches the body of a function.
pub fn function_contains(p: Probe, f: &Function) -> (r: bool)
    ensures
        r == fn_has(p, *f),
    decreases f,
{
    expr_list_has(p, &f.params) || match &f.body {
        Some(ss) => stmt_list_has(p, ss),
        None => false,
    }
}

/// Searches a statement's whole subtree.
pub fn stmt_contains(p: Probe, s: &Stmt) -> (r: bool)
    ensures
        r == stmt_has(p, *s),
    decreases s,
{
    match s {
        Stmt::Expr(e) => expr_contains(p, e),
        Stmt::Return(Some(e)) => expr_contains(p, e),
        Stmt::Return(None) => false,
        Stmt::Var(d) => declarators_have(p, &d.decls),
        Stmt::FnDecl(d) => function_contains(p, &d.function),
        Stmt::Block(ss) => stmt_list_has(p, ss),
        Stmt::Try(b, f) => stmt_list_has(p, b) || match f {
            Some(fs) => stmt_list_has(p, fs),
            None => false,
        },
        Stmt::Empty => false,
        Stmt::Other(es, ss) => expr_list_has(p, es) || stmt_list_has(p, ss),
    }
}

} // verus!
