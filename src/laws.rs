//! Laws of the transform, proved over the specifications of the traversal.
use vstd::prelude::*;
use crate::ast::{Arg, Comment, Expr, FnDecl, ModuleItem, Stmt, VarDecl, VarDeclarator};
use crate::candidate::{candidate, candidate_has, pat_is_component, TransformMode};
use crate::detect::{fn_has, Probe};
use crate::directive::{verdict_spec, ShouldTrack};
use crate::names::is_component_name_spec;
use crate::identity::{lemma_item_unchanged, lemma_stmt_unchanged, same_item, same_stmt};
use crate::sites::{t_site, t_expr, is_regular, decl_site, decl_tracks, decl_wraps, fn_tracks, items_find, stmt_finds, stmts_find, t_item, t_stmt, t_wrapped, Query};
use crate::visitor::{is_tracking_require, module_result, script_result};
use crate::wrap::{is_instrumented, protected};

verus! {

/// A module in which no site is instrumented comes out as it went in: no
/// import is added and every item keeps its shape and contents.
pub proof fn lemma_module_without_sites_unchanged(mode: TransformMode, source: Seq<char>, items: Seq<ModuleItem>, r: Seq<ModuleItem>)
    requires
        module_result(mode, source, items, r),
        !items_find(Query::Wraps(mode), items),
    ensures
        r.len() == items.len(),
        forall|i: int| 0 <= i < items.len() ==> same_item(#[trigger] items[i], r[i]),
{
    assert forall|i: int| 0 <= i < items.len() implies same_item(#[trigger] items[i], r[i]) by {
        assert(t_item(mode, items[i], r[i]));
        lemma_item_unchanged(mode, items[i], r[i]);
    }
}

/// The same for a script: no require is added.
pub proof fn lemma_script_without_sites_unchanged(mode: TransformMode, source: Seq<char>, body: Seq<Stmt>, r: Seq<Stmt>)
    requires
        script_result(mode, source, body, r),
        !stmts_find(Query::Wraps(mode), body),
    ensures
        r.len() == body.len(),
        forall|i: int| 0 <= i < body.len() ==> same_stmt(#[trigger] body[i], r[i]),
{
    assert forall|i: int| 0 <= i < body.len() implies same_stmt(#[trigger] body[i], r[i]) by {
        assert(t_stmt(mode, body[i], r[i]));
        lemma_stmt_unchanged(mode, body[i], r[i]);
    }
}

/// The statements that instrumenting a body adds are never sites, nor do they
/// hold one: a second run finds nothing new to instrument in them.
pub proof fn lemma_added_statements_are_not_sites(q: Query, body: Seq<Stmt>)
    requires
        is_instrumented(body),
    ensures
        !stmt_finds(q, body[0]),
        match body[1] {
            Stmt::Try(_, Some(f)) => !stmt_finds(q, f@[0]),
            _ => false,
        },
{
    reveal_with_fuel(crate::sites::expr_finds, 3);
    if let Stmt::Var(d) = body[0] {
        let e = d.decls@[0].init.unwrap();
        assert(candidate(e).is_none());
        assert(!crate::sites::expr_finds(q, e));
        assert(!crate::sites::decl_hit(q, d.comments@, d.decls@[0]));
        assert(d.decls@[0].init == Some(e));
        assert(!stmt_finds(q, body[0]));
    }
    if let Stmt::Try(_, Some(f)) = body[1] {
        if let Stmt::Expr(Expr::Call(c, args)) = f@[0] {
            if let Expr::Member(o, _) = *c {
                assert(!crate::sites::expr_finds(q, *o));
            }
            assert(!crate::sites::expr_finds(q, *c));
            assert(!crate::sites::expr_finds(q, Expr::Call(c, args)));
        }
        assert(!stmt_finds(q, f@[0]));
    }
}

/// Nor is the require statement that a script receives.
pub proof fn lemma_require_is_not_a_site(q: Query, s: Stmt, source: Seq<char>)
    requires
        is_tracking_require(s, source),
    ensures
        !stmt_finds(q, s),
{
    reveal_with_fuel(crate::sites::expr_finds, 4);
    if let Stmt::Var(d) = s {
        let e = d.decls@[0].init.unwrap();
        assert(candidate(e).is_none());
        if let Expr::Member(o, _) = e {
            if let Expr::Call(c, args) = *o {
                assert(!crate::sites::expr_finds(q, *c));
                assert(!crate::sites::expr_finds(q, args@[0].expr));
            }
        }
        assert(!crate::sites::expr_finds(q, e));
        assert(!crate::sites::decl_hit(q, d.comments@, d.decls@[0]));
    }
}

/// A directive decides every declarator's site whatever the heuristics say:
/// opting in tracks it, opting out never does.
pub proof fn lemma_directive_precedence_var(mode: TransformMode, comments: Seq<Comment>, dd: VarDeclarator)
    requires
        decl_site(dd).is_some(),
    ensures
        verdict_spec(comments) == Ok::<ShouldTrack, crate::directive::ConflictingDirectives>(ShouldTrack::OptIn) ==> decl_tracks(mode, comments, dd),
        verdict_spec(comments) == Ok::<ShouldTrack, crate::directive::ConflictingDirectives>(ShouldTrack::OptOut) ==> !decl_tracks(mode, comments, dd),
{
}

/// The same for function declarations.
pub proof fn lemma_directive_precedence_fn(mode: TransformMode, d: FnDecl)
    requires
        is_regular(d.function),
    ensures
        verdict_spec(d.comments@) == Ok::<ShouldTrack, crate::directive::ConflictingDirectives>(ShouldTrack::OptIn) ==> fn_tracks(mode, d),
        verdict_spec(d.comments@) == Ok::<ShouldTrack, crate::directive::ConflictingDirectives>(ShouldTrack::OptOut) ==> !fn_tracks(mode, d),
{
}

/// Without a directive, `manual` tracks nothing; `all` tracks a capitalised
/// candidate holding markup, whether or not it reads a `value`; `auto` tracks
/// it only if it also reads one.
pub proof fn lemma_mode_semantics(comments: Seq<Comment>, dd: VarDeclarator)
    requires
        decl_site(dd).is_some(),
        verdict_spec(comments) == Ok::<ShouldTrack, crate::directive::ConflictingDirectives>(ShouldTrack::Auto),
    ensures
        !decl_tracks(TransformMode::Manual, comments, dd),
        decl_tracks(TransformMode::All, comments, dd) == (pat_is_component(dd.name)
            && candidate_has(Probe::Markup, decl_site(dd).unwrap())),
        decl_tracks(TransformMode::Auto, comments, dd) == (pat_is_component(dd.name)
            && candidate_has(Probe::Markup, decl_site(dd).unwrap())
            && candidate_has(Probe::SignalRead, decl_site(dd).unwrap())),
{
}

/// A candidate passed as the first argument of a call is decided as the bare
/// candidate bound to the same name under the same comments.
pub proof fn lemma_wrapper_unwrapping(mode: TransformMode, comments: Seq<Comment>, wrapped: VarDeclarator, bare: VarDeclarator, callee: Expr, args: Vec<Arg>)
    requires
        wrapped.name == bare.name,
        wrapped.init == Some(Expr::Call(Box::new(callee), args)),
        args@.len() > 0,
        !args@[0].spread,
        bare.init == Some(args@[0].expr),
    ensures
        decl_site(wrapped) == decl_site(bare),
        decl_wraps(mode, comments, wrapped) == decl_wraps(mode, comments, bare),
{
}

/// Sites are decided independently: inside a tracked function declaration, a
/// nested declaration that opts out keeps a body that is only visited, while
/// the outer body is instrumented around it.
pub proof fn lemma_nested_independence(mode: TransformMode, outer: FnDecl, r: FnDecl, ss: Vec<Stmt>, i: int, inner: FnDecl)
    requires
        t_stmt(mode, Stmt::FnDecl(outer), Stmt::FnDecl(r)),
        is_regular(outer.function),
        verdict_spec(outer.comments@) == Ok::<ShouldTrack, crate::directive::ConflictingDirectives>(ShouldTrack::Auto),
        mode != TransformMode::Manual,
        is_component_name_spec(outer.ident.sym@),
        fn_has(Probe::Markup, outer.function),
        mode == TransformMode::Auto ==> fn_has(Probe::SignalRead, outer.function),
        outer.function.body == Some(ss),
        0 <= i < ss@.len(),
        ss@[i] == Stmt::FnDecl(inner),
        verdict_spec(inner.comments@) == Ok::<ShouldTrack, crate::directive::ConflictingDirectives>(ShouldTrack::OptOut),
    ensures
        fn_tracks(mode, outer),
        !fn_tracks(mode, inner),
        match r.function.body {
            Some(rb) => is_instrumented(rb@) && match protected(rb@)[i] {
                Stmt::FnDecl(ri) => t_stmt(mode, Stmt::FnDecl(inner), Stmt::FnDecl(ri)) && match (inner.function.body, ri.function.body) {
                    (Some(ib), Some(rib)) => rib@.len() == ib@.len()
                        && forall|j: int| 0 <= j < ib@.len() ==> t_stmt(mode, #[trigger] ib@[j], rib@[j]),
                    (None, None) => true,
                    _ => false,
                },
                _ => false,
            },
            None => false,
        },
{
    assert(fn_tracks(mode, outer));
    let rb = r.function.body.unwrap();
    assert(t_wrapped(mode, ss, rb@));
    assert(t_stmt(mode, ss@[i], protected(rb@)[i]));
    reveal_with_fuel(t_stmt, 2);
}

/// The same with a nested variable declaration that opts out: inside the
/// instrumented outer body, none of its declarators is instrumented and each
/// initializer is only visited.
pub proof fn lemma_nested_independence_var(mode: TransformMode, outer: FnDecl, r: FnDecl, ss: Vec<Stmt>, i: int, inner: VarDecl)
    requires
        t_stmt(mode, Stmt::FnDecl(outer), Stmt::FnDecl(r)),
        is_regular(outer.function),
        verdict_spec(outer.comments@) == Ok::<ShouldTrack, crate::directive::ConflictingDirectives>(ShouldTrack::Auto),
        mode != TransformMode::Manual,
        is_component_name_spec(outer.ident.sym@),
        fn_has(Probe::Markup, outer.function),
        mode == TransformMode::Auto ==> fn_has(Probe::SignalRead, outer.function),
        outer.function.body == Some(ss),
        0 <= i < ss@.len(),
        ss@[i] == Stmt::Var(inner),
        verdict_spec(inner.comments@) == Ok::<ShouldTrack, crate::directive::ConflictingDirectives>(ShouldTrack::OptOut),
    ensures
        fn_tracks(mode, outer),
        forall|j: int| 0 <= j < inner.decls@.len() ==> !decl_tracks(mode, inner.comments@, #[trigger] inner.decls@[j]),
        match r.function.body {
            Some(rb) => is_instrumented(rb@) && match protected(rb@)[i] {
                Stmt::Var(ri) => ri.decls@.len() == inner.decls@.len()
                    && forall|j: int| 0 <= j < inner.decls@.len() ==> match (#[trigger] inner.decls@[j]).init {
                    Some(e) => match ri.decls@[j].init {
                        Some(e2) => t_expr(mode, e, e2),
                        None => false,
                    },
                    None => ri.decls@[j].init.is_none(),
                },
                _ => false,
            },
            None => false,
        },
{
    assert(fn_tracks(mode, outer));
    let rb = r.function.body.unwrap();
    assert(t_wrapped(mode, ss, rb@));
    assert(t_stmt(mode, ss@[i], protected(rb@)[i]));
    reveal_with_fuel(t_stmt, 2);
}

/// A wrapper call is seen through for the result too: the call's first
/// argument comes out as the bare candidate would as an instrumented site.
pub proof fn lemma_wrapper_result(mode: TransformMode, callee: Expr, args: Vec<Arg>, r: Expr)
    requires
        t_site(mode, Expr::Call(Box::new(callee), args), r),
    ensures
        match r {
            Expr::Call(_, args2) => args2@.len() == args@.len() && args@.len() > 0
                && args2@[0].spread == args@[0].spread && t_site(mode, args@[0].expr, args2@[0].expr),
            _ => false,
        },
{
}

} // verus!
