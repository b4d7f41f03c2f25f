//! Sites, the searches for wrapped and conflicting sites, and the relation
//! between a tree and what the traversal makes of it.
use vstd::prelude::*;
use crate::ast::{Comment, VarDeclarator, ArrowBody, ArrowExpr, Expr, FnDecl, Function, MemberProp, ModuleItem, Stmt, VarDecl};
use crate::candidate::{auto_spec, candidate, candidate_has, decide_spec, pat_is_component, TransformMode};
use crate::detect::{fn_has, Probe};
use crate::directive::verdict_spec;
use crate::names::is_component_name_spec;
use crate::wrap::{is_instrumented, protected};

verus! {

/// The candidate of a declarator: that of its initializer.
pub open spec fn decl_site(dd: VarDeclarator) -> Option<Expr> {
    match dd.init {
        Some(e) => candidate(e),
        None => None,
    }
}

/// Whether a declarator of a declaration led by `comments` is tracked.
pub open spec fn decl_tracks(mode: TransformMode, comments: Seq<Comment>, dd: VarDeclarator) -> bool {
    match decl_site(dd) {
        Some(c) => match verdict_spec(comments) {
            Ok(v) => decide_spec(v, auto_spec(mode, pat_is_component(dd.name),
                candidate_has(Probe::Markup, c), candidate_has(Probe::SignalRead, c))),
            Err(_) => false,
        },
        None => false,
    }
}

/// A declarator whose candidate meets conflicting directives.
pub open spec fn decl_conflicts(comments: Seq<Comment>, dd: VarDeclarator) -> bool {
    decl_site(dd).is_some() && verdict_spec(comments).is_err()
}

/// A candidate with a body to instrument.
pub open spec fn has_body(c: Expr) -> bool {
    match c {
        Expr::Fn(f) => f.function.body.is_some(),
        _ => true,
    }
}

/// The declarator's candidate is instrumented.
pub open spec fn decl_wraps(mode: TransformMode, comments: Seq<Comment>, dd: VarDeclarator) -> bool {
    decl_tracks(mode, comments, dd) && has_body(decl_site(dd).unwrap())
}

/// A plain function: neither async nor a generator.
pub open spec fn is_regular(f: Function) -> bool {
    !f.is_async && !f.is_generator
}

pub open spec fn fn_tracks(mode: TransformMode, d: FnDecl) -> bool {
    is_regular(d.function) && match verdict_spec(d.comments@) {
        Ok(v) => decide_spec(v, auto_spec(mode, is_component_name_spec(d.ident.sym@),
            fn_has(Probe::Markup, d.function), fn_has(Probe::SignalRead, d.function))),
        Err(_) => false,
    }
}

/// An async or generator declaration is no site, so it meets no directive.
pub open spec fn fn_conflicts(d: FnDecl) -> bool {
    is_regular(d.function) && verdict_spec(d.comments@).is_err()
}

pub open spec fn fn_wraps(mode: TransformMode, d: FnDecl) -> bool {
    fn_tracks(mode, d) && d.function.body.is_some()
}

/// What a search over sites looks for.
#[derive(PartialEq, Eq, Structural, Clone, Copy, Debug)]
pub enum Query {
    /// A site that is instrumented under the mode.
    Wraps(TransformMode),
    /// A site whose directives conflict.
    Conflict,
}

pub open spec fn decl_hit(q: Query, comments: Seq<Comment>, dd: VarDeclarator) -> bool {
    match q {
        Query::Wraps(mode) => decl_wraps(mode, comments, dd),
        Query::Conflict => decl_conflicts(comments, dd),
    }
}

/// A declarator that is a hit itself or holds one in its initializer.
pub open spec fn decl_finds(q: Query, comments: Seq<Comment>, dd: VarDeclarator) -> bool {
    decl_hit(q, comments, dd) || match dd.init {
        Some(e) => expr_finds(q, e),
        None => false,
    }
}

pub open spec fn fn_hit(q: Query, d: FnDecl) -> bool {
    match q {
        Query::Wraps(mode) => fn_wraps(mode, d),
        Query::Conflict => fn_conflicts(d),
    }
}

pub open spec fn expr_finds(q: Query, e: Expr) -> bool
    decreases e,
{
    match e {
        Expr::Ident(_) => false,
        Expr::Str(_) => false,
        Expr::Lit => false,
        Expr::Paren(x) => expr_finds(q, *x),
        Expr::Jsx(ch) => exists|i: int| 0 <= i < ch.len() && expr_finds(q, #[trigger] ch@[i]),
        Expr::Member(o, prop) => expr_finds(q, *o) || match prop {
            MemberProp::Ident(_) => false,
            MemberProp::Computed(x) => expr_finds(q, *x),
        },
        Expr::Call(c, args) => expr_finds(q, *c) || exists|i: int| 0 <= i < args.len() && expr_finds(q, (#[trigger] args@[i]).expr),
        Expr::Arrow(a) => arrow_finds(q, *a),
        Expr::Fn(f) => fn_finds(q, f.function),
        Expr::Other(es) => exists|i: int| 0 <= i < es.len() && expr_finds(q, #[trigger] es@[i]),
    }
}

pub open spec fn arrow_finds(q: Query, a: ArrowExpr) -> bool
    decreases a,
{
    (exists|i: int| 0 <= i < a.params.len() && expr_finds(q, #[trigger] a.params@[i])) || match a.body {
        ArrowBody::Block(ss) => exists|i: int| 0 <= i < ss.len() && stmt_finds(q, #[trigger] ss@[i]),
        ArrowBody::Expr(x) => expr_finds(q, *x),
    }
}

pub open spec fn fn_finds(q: Query, f: Function) -> bool
    decreases f,
{
    (exists|i: int| 0 <= i < f.params.len() && expr_finds(q, #[trigger] f.params@[i])) || match f.body {
        Some(ss) => exists|i: int| 0 <= i < ss.len() && stmt_finds(q, #[trigger] ss@[i]),
        None => false,
    }
}

pub open spec fn stmt_finds(q: Query, s: Stmt) -> bool
    decreases s,
{
    match s {
        Stmt::Expr(e) => expr_finds(q, e),
        Stmt::Return(Some(e)) => expr_finds(q, e),
        Stmt::Return(None) => false,
        Stmt::Var(d) => exists|i: int| 0 <= i < d.decls.len() && (decl_hit(q, d.comments@, #[trigger] d.decls@[i]) || match d.decls@[i].init {
            Some(e) => expr_finds(q, e),
            None => false,
        }),
        Stmt::FnDecl(d) => fn_hit(q, d) || fn_finds(q, d.function),
        Stmt::Block(ss) => exists|i: int| 0 <= i < ss.len() && stmt_finds(q, #[trigger] ss@[i]),
        Stmt::Try(b, f) => (exists|i: int| 0 <= i < b.len() && stmt_finds(q, #[trigger] b@[i])) || match f {
            Some(fs) => exists|i: int| 0 <= i < fs.len() && stmt_finds(q, #[trigger] fs@[i]),
            None => false,
        },
        Stmt::Empty => false,
        Stmt::Other(es, ss) => (exists|i: int| 0 <= i < es.len() && expr_finds(q, #[trigger] es@[i]))
            || exists|i: int| 0 <= i < ss.len() && stmt_finds(q, #[trigger] ss@[i]),
    }
}

pub open spec fn stmts_find(q: Query, ss: Seq<Stmt>) -> bool {
    exists|i: int| 0 <= i < ss.len() && stmt_finds(q, #[trigger] ss[i])
}

pub open spec fn item_finds(q: Query, it: ModuleItem) -> bool {
    match it {
        ModuleItem::Import(_) => false,
        ModuleItem::Stmt(s) => stmt_finds(q, s),
        ModuleItem::Export(s) => stmt_finds(q, s),
    }
}

pub open spec fn items_find(q: Query, its: Seq<ModuleItem>) -> bool {
    exists|i: int| 0 <= i < its.len() && item_finds(q, #[trigger] its[i])
}

/// `r` is what the traversal makes of `e`.
pub open spec fn t_expr(mode: TransformMode, e: Expr, r: Expr) -> bool
    decreases e,
{
    match e {
        Expr::Ident(_) => r == e,
        Expr::Str(_) => r == e,
        Expr::Lit => r == e,
        Expr::Paren(x) => match r {
            Expr::Paren(y) => t_expr(mode, *x, *y),
            _ => false,
        },
        Expr::Jsx(ch) => match r {
            Expr::Jsx(ch2) => ch2.len() == ch.len() && forall|i: int| 0 <= i < ch.len() ==> t_expr(mode, #[trigger] ch@[i], ch2@[i]),
            _ => false,
        },
        Expr::Member(o, prop) => match r {
            Expr::Member(o2, prop2) => t_expr(mode, *o, *o2) && match prop {
                MemberProp::Ident(_) => prop2 == prop,
                MemberProp::Computed(x) => match prop2 {
                    MemberProp::Computed(y) => t_expr(mode, *x, *y),
                    _ => false,
                },
            },
            _ => false,
        },
        Expr::Call(c, args) => match r {
            Expr::Call(c2, args2) => t_expr(mode, *c, *c2) && args2.len() == args.len()
                && forall|i: int| 0 <= i < args.len() ==> (#[trigger] args2@[i]).spread == args@[i].spread
                    && t_expr(mode, args@[i].expr, args2@[i].expr),
            _ => false,
        },
        Expr::Arrow(a) => match r {
            Expr::Arrow(a2) => t_arrow(mode, *a, *a2),
            _ => false,
        },
        Expr::Fn(f) => match r {
            Expr::Fn(f2) => f2.ident == f.ident && t_fn(mode, f.function, f2.function),
            _ => false,
        },
        Expr::Other(es) => match r {
            Expr::Other(es2) => es2.len() == es.len() && forall|i: int| 0 <= i < es.len() ==> t_expr(mode, #[trigger] es@[i], es2@[i]),
            _ => false,
        },
    }
}

pub open spec fn t_arrow(mode: TransformMode, a: ArrowExpr, r: ArrowExpr) -> bool
    decreases a,
{
    r.is_async == a.is_async && r.is_generator == a.is_generator && r.params.len() == a.params.len()
        && (forall|i: int| 0 <= i < a.params.len() ==> t_expr(mode, #[trigger] a.params@[i], r.params@[i])) && match a.body {
        ArrowBody::Block(ss) => match r.body {
            ArrowBody::Block(ss2) => ss2.len() == ss.len() && forall|i: int| 0 <= i < ss.len() ==> t_stmt(mode, #[trigger] ss@[i], ss2@[i]),
            _ => false,
        },
        ArrowBody::Expr(x) => match r.body {
            ArrowBody::Expr(y) => t_expr(mode, *x, *y),
            _ => false,
        },
    }
}

pub open spec fn t_fn(mode: TransformMode, f: Function, r: Function) -> bool
    decreases f,
{
    r.is_async == f.is_async && r.is_generator == f.is_generator && r.params.len() == f.params.len()
        && (forall|i: int| 0 <= i < f.params.len() ==> t_expr(mode, #[trigger] f.params@[i], r.params@[i])) && match f.body {
        Some(ss) => match r.body {
            Some(ss2) => ss2.len() == ss.len() && forall|i: int| 0 <= i < ss.len() ==> t_stmt(mode, #[trigger] ss@[i], ss2@[i]),
            None => false,
        },
        None => r.body.is_none(),
    }
}

/// `r` is an instrumented body guarding what the traversal makes of `ss`.
pub open spec fn t_wrapped(mode: TransformMode, ss: Vec<Stmt>, r: Seq<Stmt>) -> bool
    decreases ss,
{
    is_instrumented(r) && protected(r).len() == ss.len()
        && forall|i: int| 0 <= i < ss.len() ==> t_stmt(mode, #[trigger] ss@[i], protected(r)[i])
}

/// `r` is what the traversal makes of a site's initializer `e` whose candidate
/// is instrumented.
pub open spec fn t_site(mode: TransformMode, e: Expr, r: Expr) -> bool
    decreases e,
{
    match e {
        Expr::Paren(x) => match r {
            Expr::Paren(y) => t_site(mode, *x, *y),
            _ => false,
        },
        Expr::Arrow(a) => match r {
            Expr::Arrow(a2) => a2.is_async == a.is_async && a2.is_generator == a.is_generator && a2.params.len() == a.params.len()
                && (forall|i: int| 0 <= i < a.params.len() ==> t_expr(mode, #[trigger] a.params@[i], a2.params@[i])) && match a2.body {
                ArrowBody::Block(ss2) => match a.body {
                    ArrowBody::Block(ss) => t_wrapped(mode, ss, ss2@),
                    ArrowBody::Expr(x) => is_instrumented(ss2@) && protected(ss2@).len() == 1 && match protected(ss2@)[0] {
                        Stmt::Return(Some(y)) => t_expr(mode, *x, y),
                        _ => false,
                    },
                },
                _ => false,
            },
            _ => false,
        },
        Expr::Fn(f) => match r {
            Expr::Fn(f2) => f2.ident == f.ident && f2.function.is_async == f.function.is_async
                && f2.function.is_generator == f.function.is_generator && f2.function.params.len() == f.function.params.len()
                && (forall|i: int| 0 <= i < f.function.params.len() ==> t_expr(mode, #[trigger] f.function.params@[i], f2.function.params@[i]))
                && match f.function.body {
                Some(ss) => match f2.function.body {
                    Some(ss2) => t_wrapped(mode, ss, ss2@),
                    None => false,
                },
                None => f2.function.body.is_none(),
            },
            _ => false,
        },
        Expr::Call(c, args) => match r {
            Expr::Call(c2, args2) => t_expr(mode, *c, *c2) && args2.len() == args.len() && args.len() > 0
                && args2@[0].spread == args@[0].spread && t_site(mode, args@[0].expr, args2@[0].expr)
                && forall|i: int| 1 <= i < args.len() ==> (#[trigger] args2@[i]).spread == args@[i].spread
                    && t_expr(mode, args@[i].expr, args2@[i].expr),
            _ => false,
        },
        _ => false,
    }
}

pub open spec fn t_stmt(mode: TransformMode, s: Stmt, r: Stmt) -> bool
    decreases s,
{
    match s {
        Stmt::Expr(e) => match r {
            Stmt::Expr(e2) => t_expr(mode, e, e2),
            _ => false,
        },
        Stmt::Return(None) => r == s,
        Stmt::Return(Some(e)) => match r {
            Stmt::Return(Some(e2)) => t_expr(mode, e, e2),
            _ => false,
        },
        Stmt::Var(d) => match r {
            Stmt::Var(d2) => d2.comments == d.comments && d2.kind == d.kind && d2.decls.len() == d.decls.len()
                && forall|i: int| 0 <= i < d.decls.len() ==> (#[trigger] d2.decls@[i]).name == d.decls@[i].name
                    && match d.decls@[i].init {
                    Some(e) => match d2.decls@[i].init {
                        Some(e2) => if decl_wraps(mode, d.comments@, d.decls@[i]) {
                            t_site(mode, e, e2)
                        } else {
                            t_expr(mode, e, e2)
                        },
                        None => false,
                    },
                    None => d2.decls@[i].init.is_none(),
                },
            _ => false,
        },
        Stmt::FnDecl(d) => match r {
            Stmt::FnDecl(d2) => d2.comments == d.comments && d2.ident == d.ident
                && d2.function.is_async == d.function.is_async && d2.function.is_generator == d.function.is_generator
                && d2.function.params.len() == d.function.params.len()
                && (forall|i: int| 0 <= i < d.function.params.len() ==> t_expr(mode, #[trigger] d.function.params@[i], d2.function.params@[i]))
                && match d.function.body {
                Some(ss) => match d2.function.body {
                    Some(ss2) => if fn_tracks(mode, d) {
                        t_wrapped(mode, ss, ss2@)
                    } else {
                        ss2.len() == ss.len() && forall|i: int| 0 <= i < ss.len() ==> t_stmt(mode, #[trigger] ss@[i], ss2@[i])
                    },
                    None => false,
                },
                None => d2.function.body.is_none(),
            },
            _ => false,
        },
        Stmt::Block(ss) => match r {
            Stmt::Block(ss2) => ss2.len() == ss.len() && forall|i: int| 0 <= i < ss.len() ==> t_stmt(mode, #[trigger] ss@[i], ss2@[i]),
            _ => false,
        },
        Stmt::Try(b, f) => match r {
            Stmt::Try(b2, f2) => b2.len() == b.len() && (forall|i: int| 0 <= i < b.len() ==> t_stmt(mode, #[trigger] b@[i], b2@[i]))
                && match f {
                Some(fs) => match f2 {
                    Some(fs2) => fs2.len() == fs.len() && forall|i: int| 0 <= i < fs.len() ==> t_stmt(mode, #[trigger] fs@[i], fs2@[i]),
                    None => false,
                },
                None => f2.is_none(),
            },
            _ => false,
        },
        Stmt::Empty => r == s,
        Stmt::Other(es, ss) => match r {
            Stmt::Other(es2, ss2) => es2.len() == es.len() && (forall|i: int| 0 <= i < es.len() ==> t_expr(mode, #[trigger] es@[i], es2@[i]))
                && ss2.len() == ss.len() && forall|i: int| 0 <= i < ss.len() ==> t_stmt(mode, #[trigger] ss@[i], ss2@[i]),
            _ => false,
        },
    }
}

pub open spec fn t_stmts(mode: TransformMode, ss: Seq<Stmt>, rs: Seq<Stmt>) -> bool {
    rs.len() == ss.len() && forall|i: int| 0 <= i < ss.len() ==> t_stmt(mode, #[trigger] ss[i], rs[i])
}

pub open spec fn t_item(mode: TransformMode, it: ModuleItem, r: ModuleItem) -> bool {
    match it {
        ModuleItem::Import(_) => r == it,
        ModuleItem::Stmt(s) => match r {
            ModuleItem::Stmt(s2) => t_stmt(mode, s, s2),
            _ => false,
        },
        ModuleItem::Export(s) => match r {
            ModuleItem::Export(s2) => t_stmt(mode, s, s2),
            _ => false,
        },
    }
}

} // verus!
