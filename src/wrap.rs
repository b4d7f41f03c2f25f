//! Rewrites a tracked body: a tracking setup, then the body's own statements in a
//! region whose cleanup always runs the teardown.
use vstd::prelude::*;
use crate::ast::{Arg, ArrowBody, Expr, Ident, MemberProp, Pat, Stmt, VarDecl, VarDeclarator, VarKind};

verus! {

/// Two identifiers with the same name and the same hygiene.
pub open spec fn same_ident(a: Ident, b: Ident) -> bool {
    a.sym@ == b.sym@ && a.private == b.private
}

/// The identifier bound to the tracking-setup function in one unit.
pub open spec fn is_use_signals_ident(id: Ident) -> bool {
    id.sym@ == "_useSignals"@ && id.private
}

/// The local that holds what the tracking setup returned.
pub open spec fn is_effect_ident(id: Ident) -> bool {
    id.sym@ == "_effect"@ && id.private
}

/// `var <effect> = <use_signals>();`
pub open spec fn is_setup_stmt(s: Stmt, use_signals: Ident) -> bool {
    match s {
        Stmt::Var(d) => d.comments@.len() == 0 && d.kind == VarKind::Var && d.decls@.len() == 1
            && match d.decls@[0].name {
            Pat::Ident(eff) => is_effect_ident(eff),
            Pat::Other => false,
        } && match d.decls@[0].init {
            Some(Expr::Call(c, args)) => args@.len() == 0 && match *c {
                Expr::Ident(f) => same_ident(f, use_signals),
                _ => false,
            },
            _ => false,
        },
        _ => false,
    }
}

/// `<effect>.f();`
pub open spec fn is_teardown_stmt(s: Stmt) -> bool {
    match s {
        Stmt::Expr(Expr::Call(c, args)) => args@.len() == 0 && match *c {
            Expr::Member(o, MemberProp::Ident(m)) => m.sym@ == "f"@ && !m.private && match *o {
                Expr::Ident(eff) => is_effect_ident(eff),
                _ => false,
            },
            _ => false,
        },
        _ => false,
    }
}

/// `r` is `body` instrumented with the tracking setup bound to `use_signals`.
pub open spec fn wrapped(r: Seq<Stmt>, body: Seq<Stmt>, use_signals: Ident) -> bool {
    r.len() == 2 && is_setup_stmt(r[0], use_signals) && match r[1] {
        Stmt::Try(b, Some(f)) => b@ == body && f@.len() == 1 && is_teardown_stmt(f@[0]),
        _ => false,
    }
}

/// A body as a list of statements: an expression body becomes its `return`.
pub open spec fn block_of(body: ArrowBody) -> Seq<Stmt> {
    match body {
        ArrowBody::Block(ss) => ss@,
        ArrowBody::Expr(x) => seq![Stmt::Return(Some(*x))],
    }
}

fn effect_ident() -> (r: Ident)
    ensures
        is_effect_ident(r),
{
    Ident { sym: String::from_str("_effect"), private: true }
}

/// Makes the identifier bound to the tracking-setup function.
pub fn use_signals_ident() -> (r: Ident)
    ensures
        is_use_signals_ident(r),
{
    Ident { sym: String::from_str("_useSignals"), private: true }
}

/// Instruments `n`: the setup comes first, then `n` guarded by a cleanup that
/// calls the teardown.
pub fn wrap_with_use_signals(n: Vec<Stmt>, use_signals_ident: Ident) -> (r: Vec<Stmt>)
    ensures
        wrapped(r@, n@, use_signals_ident),
{
    let callee = Expr::Ident(Ident { sym: use_signals_ident.sym, private: use_signals_ident.private });
    let setup = Stmt::Var(VarDecl {
        comments: Vec::new(),
        kind: VarKind::Var,
        decls: vec![VarDeclarator {
            name: Pat::Ident(effect_ident()),
            init: Some(Expr::Call(Box::new(callee), Vec::<Arg>::new())),
        }],
    });
    let teardown = Stmt::Expr(Expr::Call(
        Box::new(Expr::Member(
            Box::new(Expr::Ident(effect_ident())),
            MemberProp::Ident(Ident { sym: String::from_str("f"), private: false }),
        )),
        Vec::<Arg>::new(),
    ));
    let fin = vec![teardown];
    vec![setup, Stmt::Try(n, Some(fin))]
}

/// The body of an arrow as a list of statements.
pub fn to_block(body: ArrowBody) -> (r: Vec<Stmt>)
    ensures
        r@ == block_of(body),
{
    match body {
        ArrowBody::Block(ss) => ss,
        ArrowBody::Expr(x) => vec![Stmt::Return(Some(*x))],
    }
}

/// `r` is an instrumented body: setup, then a guarded region whose cleanup is
/// the teardown.
pub open spec fn is_instrumented(r: Seq<Stmt>) -> bool {
    r.len() == 2 && match r[0] {
        Stmt::Var(d) => d.comments@.len() == 0 && d.kind == VarKind::Var && d.decls@.len() == 1
            && match d.decls@[0].name {
            Pat::Ident(eff) => is_effect_ident(eff),
            Pat::Other => false,
        } && match d.decls@[0].init {
            Some(Expr::Call(c, args)) => args@.len() == 0 && match *c {
                Expr::Ident(f) => is_use_signals_ident(f),
                _ => false,
            },
            _ => false,
        },
        _ => false,
    } && match r[1] {
        Stmt::Try(_, Some(f)) => f@.len() == 1 && is_teardown_stmt(f@[0]),
        _ => false,
    }
}

/// The statements that an instrumented body guards.
pub open spec fn protected(r: Seq<Stmt>) -> Seq<Stmt> {
    match r[1] {
        Stmt::Try(b, _) => b@,
        _ => Seq::empty(),
    }
}

} // verus!
