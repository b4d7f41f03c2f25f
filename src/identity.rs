//! Structural sameness of trees, and the proof that the traversal leaves a
//! subtree without instrumented sites the same.
use vstd::prelude::*;
use crate::ast::{ArrowBody, ArrowExpr, Expr, Function, MemberProp, ModuleItem, Stmt};
use crate::candidate::TransformMode;
use crate::sites::{arrow_finds, expr_finds, fn_finds, fn_wraps, stmt_finds, t_arrow, t_expr, t_fn, t_item, t_stmt, decl_wraps, Query};

verus! {

/// `r` has the shape and contents of `e`.
pub open spec fn same_expr(e: Expr, r: Expr) -> bool
    decreases e,
{
    match e {
        Expr::Ident(_) => r == e,
        Expr::Str(_) => r == e,
        Expr::Lit => r == e,
        Expr::Paren(x) => match r {
            Expr::Paren(y) => same_expr(*x, *y),
            _ => false,
        },
        Expr::Jsx(ch) => match r {
            Expr::Jsx(ch2) => ch2.len() == ch.len() && forall|i: int| 0 <= i < ch.len() ==> same_expr(#[trigger] ch@[i], ch2@[i]),
            _ => false,
        },
        Expr::Member(o, prop) => match r {
            Expr::Member(o2, prop2) => same_expr(*o, *o2) && match prop {
                MemberProp::Ident(_) => prop2 == prop,
                MemberProp::Computed(x) => match prop2 {
                    MemberProp::Computed(y) => same_expr(*x, *y),
                    _ => false,
                },
            },
            _ => false,
        },
        Expr::Call(c, args) => match r {
            Expr::Call(c2, args2) => same_expr(*c, *c2) && args2.len() == args.len()
                && forall|i: int| 0 <= i < args.len() ==> (#[trigger] args2@[i]).spread == args@[i].spread
                    && same_expr(args@[i].expr, args2@[i].expr),
            _ => false,
        },
        Expr::Arrow(a) => match r {
            Expr::Arrow(a2) => same_arrow(*a, *a2),
            _ => false,
        },
        Expr::Fn(f) => match r {
            Expr::Fn(f2) => f2.ident == f.ident && same_fn(f.function, f2.function),
            _ => false,
        },
        Expr::Other(es) => match r {
            Expr::Other(es2) => es2.len() == es.len() && forall|i: int| 0 <= i < es.len() ==> same_expr(#[trigger] es@[i], es2@[i]),
            _ => false,
        },
    }
}

pub open spec fn same_arrow(a: ArrowExpr, r: ArrowExpr) -> bool
    decreases a,
{
    r.is_async == a.is_async && r.is_generator == a.is_generator && r.params.len() == a.params.len()
        && (forall|i: int| 0 <= i < a.params.len() ==> same_expr(#[trigger] a.params@[i], r.params@[i])) && match a.body {
        ArrowBody::Block(ss) => match r.body {
            ArrowBody::Block(ss2) => ss2.len() == ss.len() && forall|i: int| 0 <= i < ss.len() ==> same_stmt(#[trigger] ss@[i], ss2@[i]),
            _ => false,
        },
        ArrowBody::Expr(x) => match r.body {
            ArrowBody::Expr(y) => same_expr(*x, *y),
            _ => false,
        },
    }
}

pub open spec fn same_fn(f: Function, r: Function) -> bool
    decreases f,
{
    r.is_async == f.is_async && r.is_generator == f.is_generator && r.params.len() == f.params.len()
        && (forall|i: int| 0 <= i < f.params.len() ==> same_expr(#[trigger] f.params@[i], r.params@[i])) && match f.body {
        Some(ss) => match r.body {
            Some(ss2) => ss2.len() == ss.len() && forall|i: int| 0 <= i < ss.len() ==> same_stmt(#[trigger] ss@[i], ss2@[i]),
            None => false,
        },
        None => r.body.is_none(),
    }
}

pub open spec fn same_stmt(s: Stmt, r: Stmt) -> bool
    decreases s,
{
    match s {
        Stmt::Expr(e) => match r {
            Stmt::Expr(e2) => same_expr(e, e2),
            _ => false,
        },
        Stmt::Return(None) => r == s,
        Stmt::Return(Some(e)) => match r {
            Stmt::Return(Some(e2)) => same_expr(e, e2),
            _ => false,
        },
        Stmt::Var(d) => match r {
            Stmt::Var(d2) => d2.comments == d.comments && d2.kind == d.kind && d2.decls.len() == d.decls.len()
                && forall|i: int| 0 <= i < d.decls.len() ==> (#[trigger] d2.decls@[i]).name == d.decls@[i].name
                    && match d.decls@[i].init {
                    Some(e) => match d2.decls@[i].init {
                        Some(e2) => same_expr(e, e2),
                        None => false,
                    },
                    None => d2.decls@[i].init.is_none(),
                },
            _ => false,
        },
        Stmt::FnDecl(d) => match r {
            Stmt::FnDecl(d2) => d2.comments == d.comments && d2.ident == d.ident && same_fn(d.function, d2.function),
            _ => false,
        },
        Stmt::Block(ss) => match r {
            Stmt::Block(ss2) => ss2.len() == ss.len() && forall|i: int| 0 <= i < ss.len() ==> same_stmt(#[trigger] ss@[i], ss2@[i]),
            _ => false,
        },
        Stmt::Try(b, f) => match r {
            Stmt::Try(b2, f2) => b2.len() == b.len() && (forall|i: int| 0 <= i < b.len() ==> same_stmt(#[trigger] b@[i], b2@[i]))
                && match f {
                Some(fs) => match f2 {
                    Some(fs2) => fs2.len() == fs.len() && forall|i: int| 0 <= i < fs.len() ==> same_stmt(#[trigger] fs@[i], fs2@[i]),
                    None => false,
                },
                None => f2.is_none(),
            },
            _ => false,
        },
        Stmt::Empty => r == s,
        Stmt::Other(es, ss) => match r {
            Stmt::Other(es2, ss2) => es2.len() == es.len() && (forall|i: int| 0 <= i < es.len() ==> same_expr(#[trigger] es@[i], es2@[i]))
                && ss2.len() == ss.len() && forall|i: int| 0 <= i < ss.len() ==> same_stmt(#[trigger] ss@[i], ss2@[i]),
            _ => false,
        },
    }
}

pub open spec fn same_item(it: ModuleItem, r: ModuleItem) -> bool {
    match it {
        ModuleItem::Import(_) => r == it,
        ModuleItem::Stmt(s) => match r {
            ModuleItem::Stmt(s2) => same_stmt(s, s2),
            _ => false,
        },
        ModuleItem::Export(s) => match r {
            ModuleItem::Export(s2) => same_stmt(s, s2),
            _ => false,
        },
    }
}

pub proof fn lemma_expr_unchanged(mode: TransformMode, e: Expr, r: Expr)
    requires
        t_expr(mode, e, r),
        !expr_finds(Query::Wraps(mode), e),
    ensures
        same_expr(e, r),
    decreases e,
{
    match e {
        Expr::Paren(x) => {
            if let Expr::Paren(y) = r {
                lemma_expr_unchanged(mode, *x, *y);
            }
        },
        Expr::Jsx(ch) => {
            if let Expr::Jsx(ch2) = r {
                assert forall|i: int| 0 <= i < ch.len() implies same_expr(#[trigger] ch@[i], ch2@[i]) by {
                    assert(decreases_to!(ch => ch@[i]));
                    lemma_expr_unchanged(mode, ch@[i], ch2@[i]);
                }
            }
        },
        Expr::Member(o, prop) => {
            if let Expr::Member(o2, prop2) = r {
                lemma_expr_unchanged(mode, *o, *o2);
                if let MemberProp::Computed(x) = prop {
                    if let MemberProp::Computed(y) = prop2 {
                        lemma_expr_unchanged(mode, *x, *y);
                    }
                }
            }
        },
        Expr::Call(c, args) => {
            if let Expr::Call(c2, args2) = r {
                lemma_expr_unchanged(mode, *c, *c2);
                assert forall|i: int| 0 <= i < args.len() implies (#[trigger] args2@[i]).spread == args@[i].spread
                    && same_expr(args@[i].expr, args2@[i].expr) by {
                    assert(decreases_to!(args => args@[i]));
                    lemma_expr_unchanged(mode, args@[i].expr, args2@[i].expr);
                }
            }
        },
        Expr::Arrow(a) => {
            if let Expr::Arrow(a2) = r {
                lemma_arrow_unchanged(mode, *a, *a2);
            }
        },
        Expr::Fn(f) => {
            if let Expr::Fn(f2) = r {
                lemma_fn_unchanged(mode, f.function, f2.function);
            }
        },
        Expr::Other(es) => {
            if let Expr::Other(es2) = r {
                assert forall|i: int| 0 <= i < es.len() implies same_expr(#[trigger] es@[i], es2@[i]) by {
                    assert(decreases_to!(es => es@[i]));
                    lemma_expr_unchanged(mode, es@[i], es2@[i]);
                }
            }
        },
        _ => {},
    }
}

pub proof fn lemma_arrow_unchanged(mode: TransformMode, a: ArrowExpr, r: ArrowExpr)
    requires
        t_arrow(mode, a, r),
        !arrow_finds(Query::Wraps(mode), a),
    ensures
        same_arrow(a, r),
    decreases a,
{
    assert forall|i: int| 0 <= i < a.params.len() implies same_expr(#[trigger] a.params@[i], r.params@[i]) by {
        assert(decreases_to!(a.params => a.params@[i]));
        lemma_expr_unchanged(mode, a.params@[i], r.params@[i]);
    }
    match a.body {
        ArrowBody::Block(ss) => {
            if let ArrowBody::Block(ss2) = r.body {
                assert forall|i: int| 0 <= i < ss.len() implies same_stmt(#[trigger] ss@[i], ss2@[i]) by {
                    assert(decreases_to!(ss => ss@[i]));
                    lemma_stmt_unchanged(mode, ss@[i], ss2@[i]);
                }
            }
        },
        ArrowBody::Expr(x) => {
            if let ArrowBody::Expr(y) = r.body {
                lemma_expr_unchanged(mode, *x, *y);
            }
        },
    }
}

pub proof fn lemma_fn_unchanged(mode: TransformMode, f: Function, r: Function)
    requires
        t_fn(mode, f, r),
        !fn_finds(Query::Wraps(mode), f),
    ensures
        same_fn(f, r),
    decreases f,
{
    assert forall|i: int| 0 <= i < f.params.len() implies same_expr(#[trigger] f.params@[i], r.params@[i]) by {
        assert(decreases_to!(f.params => f.params@[i]));
        lemma_expr_unchanged(mode, f.params@[i], r.params@[i]);
    }
    if let Some(ss) = f.body {
        if let Some(ss2) = r.body {
            assert forall|i: int| 0 <= i < ss.len() implies same_stmt(#[trigger] ss@[i], ss2@[i]) by {
                assert(decreases_to!(ss => ss@[i]));
                lemma_stmt_unchanged(mode, ss@[i], ss2@[i]);
            }
        }
    }
}

pub proof fn lemma_stmt_unchanged(mode: TransformMode, s: Stmt, r: Stmt)
    requires
        t_stmt(mode, s, r),
        !stmt_finds(Query::Wraps(mode), s),
    ensures
        same_stmt(s, r),
    decreases s,
{
    reveal_with_fuel(stmt_finds, 2);
    match s {
        Stmt::Expr(e) => {
            if let Stmt::Expr(e2) = r {
                lemma_expr_unchanged(mode, e, e2);
            }
        },
        Stmt::Return(Some(e)) => {
            if let Stmt::Return(Some(e2)) = r {
                lemma_expr_unchanged(mode, e, e2);
            }
        },
        Stmt::Var(d) => {
            if let Stmt::Var(d2) = r {
                assert forall|i: int| 0 <= i < d.decls.len() implies (#[trigger] d2.decls@[i]).name == d.decls@[i].name
                    && match d.decls@[i].init {
                    Some(e) => match d2.decls@[i].init {
                        Some(e2) => same_expr(e, e2),
                        None => false,
                    },
                    None => d2.decls@[i].init.is_none(),
                } by {
                    assert(decreases_to!(d.decls => d.decls@[i]));
                    assert(!decl_wraps(mode, d.comments@, d.decls@[i]));
                    if let Some(e) = d.decls@[i].init {
                        if let Some(e2) = d2.decls@[i].init {
                            lemma_expr_unchanged(mode, e, e2);
                        }
                    }
                }
            }
        },
        Stmt::FnDecl(d) => {
            if let Stmt::FnDecl(d2) = r {
                assert(!fn_wraps(mode, d));
                if let Some(ss) = d.function.body {
                    if let Some(ss2) = d2.function.body {
                        assert forall|i: int| 0 <= i < ss.len() implies same_stmt(#[trigger] ss@[i], ss2@[i]) by {
                            assert(decreases_to!(ss => ss@[i]));
                            lemma_stmt_unchanged(mode, ss@[i], ss2@[i]);
                        }
                    }
                }
                assert forall|i: int| 0 <= i < d.function.params.len()
                    implies same_expr(#[trigger] d.function.params@[i], d2.function.params@[i]) by {
                    assert(decreases_to!(d.function.params => d.function.params@[i]));
                    lemma_expr_unchanged(mode, d.function.params@[i], d2.function.params@[i]);
                }
                assert(same_fn(d.function, d2.function));
            }
        },
        Stmt::Block(ss) => {
            if let Stmt::Block(ss2) = r {
                assert forall|i: int| 0 <= i < ss.len() implies same_stmt(#[trigger] ss@[i], ss2@[i]) by {
                    assert(decreases_to!(ss => ss@[i]));
                    lemma_stmt_unchanged(mode, ss@[i], ss2@[i]);
                }
            }
        },
        Stmt::Try(b, f) => {
            if let Stmt::Try(b2, f2) = r {
                assert forall|i: int| 0 <= i < b.len() implies same_stmt(#[trigger] b@[i], b2@[i]) by {
                    assert(decreases_to!(b => b@[i]));
                    lemma_stmt_unchanged(mode, b@[i], b2@[i]);
                }
                if let Some(fs) = f {
                    if let Some(fs2) = f2 {
                        assert forall|i: int| 0 <= i < fs.len() implies same_stmt(#[trigger] fs@[i], fs2@[i]) by {
                            assert(decreases_to!(fs => fs@[i]));
                            lemma_stmt_unchanged(mode, fs@[i], fs2@[i]);
                        }
                    }
                }
            }
        },
        Stmt::Other(es, ss) => {
            if let Stmt::Other(es2, ss2) = r {
                assert forall|i: int| 0 <= i < es.len() implies same_expr(#[trigger] es@[i], es2@[i]) by {
                    assert(decreases_to!(es => es@[i]));
                    lemma_expr_unchanged(mode, es@[i], es2@[i]);
                }
                assert forall|i: int| 0 <= i < ss.len() implies same_stmt(#[trigger] ss@[i], ss2@[i]) by {
                    assert(decreases_to!(ss => ss@[i]));
                    lemma_stmt_unchanged(mode, ss@[i], ss2@[i]);
                }
            }
        },
        _ => {},
    }
}

pub proof fn lemma_item_unchanged(mode: TransformMode, it: ModuleItem, r: ModuleItem)
    requires
        t_item(mode, it, r),
        match it {
            ModuleItem::Import(_) => true,
            ModuleItem::Stmt(s) => !stmt_finds(Query::Wraps(mode), s),
            ModuleItem::Export(s) => !stmt_finds(Query::Wraps(mode), s),
        },
    ensures
        same_item(it, r),
{
    match it {
        ModuleItem::Stmt(s) => {
            if let ModuleItem::Stmt(s2) = r {
                lemma_stmt_unchanged(mode, s, s2);
            }
        },
        ModuleItem::Export(s) => {
            if let ModuleItem::Export(s2) = r {
                lemma_stmt_unchanged(mode, s, s2);
            }
        },
        ModuleItem::Import(_) => {},
    }
}

} // verus!
