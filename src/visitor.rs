//! The traversal that instruments every eligible site of a unit, and the
//! import of the tracking-setup function.
use vstd::prelude::*;
use crate::ast::{Comment, ImportDecl, ModuleItem, Pat, Program, VarKind, Arg, ArrowBody, ArrowExpr, Expr, FnDecl, FnExpr, Function, Ident, MemberProp, Stmt, VarDecl, VarDeclarator};
use crate::candidate::{candidate, extract_fn_from_expr, should_track_auto, should_track_auto_fn, TransformMode};
use crate::directive::{verdict_spec, should_track_by_comment, ConflictingDirectives, ShouldTrack};
use crate::sites::{
    arrow_finds, expr_finds, fn_finds, has_body, stmt_finds, stmts_find, t_arrow, t_expr, t_fn, t_site, t_stmt, t_stmts,
    decl_finds, decl_wraps, Query, items_find, item_finds, t_item,
};
use crate::wrap::{is_use_signals_ident, to_block, use_signals_ident, wrap_with_use_signals};

verus! {

/// The configuration of the transform.
#[derive(Clone, Debug)]
pub struct PreactSignalsPluginOptions {
    pub mode: Option<TransformMode>,
    pub import_source: Option<String>,
}

pub open spec fn default_import_source() -> Seq<char> {
    "@preact-signals/safe-react/tracking"@
}

/// The transform: its configuration, and the identifier of the tracking-setup
/// function once a site of the current unit has been instrumented.
pub struct SignalsTransformVisitor {
    pub mode: TransformMode,
    pub import_use_signals: Option<Ident>,
    pub use_signals_import_source: String,
}

impl SignalsTransformVisitor {
    pub open spec fn wf(&self) -> bool {
        match self.import_use_signals {
            Some(id) => is_use_signals_ident(id),
            None => true,
        }
    }

    /// `next` has the configuration of `self`.
    pub open spec fn kept(&self, next: &Self) -> bool {
        next.wf() && next.mode == self.mode && next.use_signals_import_source@ == self.use_signals_import_source@
    }

    /// `next` follows `self` over a subtree; `used` says whether a site of it
    /// was instrumented.
    pub open spec fn advanced(&self, next: &Self, used: bool) -> bool {
        self.kept(next) && next.import_use_signals.is_some() == (self.import_use_signals.is_some() || used)
            && (self.import_use_signals.is_some() ==> next.import_use_signals == self.import_use_signals)
    }

    pub fn from_options(options: PreactSignalsPluginOptions) -> (r: Self)
        ensures
            r.wf(),
            r.import_use_signals.is_none(),
            r.mode == match options.mode {
                Some(m) => m,
                None => TransformMode::All,
            },
            r.use_signals_import_source@ == match options.import_source {
                Some(s) => s@,
                None => default_import_source(),
            },
    {
        SignalsTransformVisitor {
            mode: match options.mode {
                Some(m) => m,
                None => TransformMode::All,
            },
            import_use_signals: None,
            use_signals_import_source: match options.import_source {
                Some(s) => s,
                None => String::from_str("@preact-signals/safe-react/tracking"),
            },
        }
    }

    pub fn from_default() -> (r: Self)
        ensures
            r.wf(),
            r.import_use_signals.is_none(),
            r.mode == TransformMode::All,
            r.use_signals_import_source@ == default_import_source(),
    {
        SignalsTransformVisitor {
            mode: TransformMode::All,
            import_use_signals: None,
            use_signals_import_source: String::from_str("@preact-signals/safe-react/tracking"),
        }
    }

    /// The unit's identifier of the tracking-setup function, made on first use.
    pub fn get_import_use_signals(&mut self) -> (r: Ident)
        requires
            old(self).wf(),
        ensures
            old(self).advanced(final(self), true),
            is_use_signals_ident(r),
    {
        match &self.import_use_signals {
            Some(id) => Ident { sym: id.sym.clone(), private: id.private },
            None => {
                self.import_use_signals = Some(use_signals_ident());
                use_signals_ident()
            },
        }
    }

    fn visit_exprs(&mut self, es: Vec<Expr>) -> (r: Result<Vec<Expr>, ConflictingDirectives>)
        requires
            old(self).wf(),
        ensures
            match r {
                Ok(v) => v@.len() == es@.len() && (forall|i: int| 0 <= i < es@.len() ==> t_expr(old(self).mode, #[trigger] es@[i], v@[i]))
                    && !(exists|i: int| 0 <= i < es@.len() && expr_finds(Query::Conflict, #[trigger] es@[i]))
                    && old(self).advanced(final(self), exists|i: int| 0 <= i < es@.len() && expr_finds(Query::Wraps(old(self).mode), #[trigger] es@[i])),
                Err(_) => (exists|i: int| 0 <= i < es@.len() && expr_finds(Query::Conflict, #[trigger] es@[i])) && old(self).kept(final(self)),
            },
        decreases es,
    {
        let ghost es0 = es;
        let ghost mode = self.mode;
        let mut rest = es;
        let mut out: Vec<Expr> = Vec::new();
        while rest.len() > 0
            invariant
                es0 == es,
                mode == old(self).mode,
                out@.len() + rest@.len() == es0@.len(),
                rest@ == es0@.subrange(out@.len() as int, es0@.len() as int),
                forall|j: int| 0 <= j < out@.len() ==> t_expr(mode, #[trigger] es0@[j], out@[j]) && !expr_finds(Query::Conflict, es0@[j]),
                old(self).advanced(self, exists|j: int| 0 <= j < out@.len() && expr_finds(Query::Wraps(mode), #[trigger] es0@[j])),
            decreases rest@.len(),
        {
            let ghost k = out@.len() as int;
            let x = rest.remove(0);
            assert(x == es0@[k]);
            assert(decreases_to!(es0 => es0@[k]));
            match self.visit_expr(x) {
                Ok(y) => out.push(y),
                Err(c) => return Err(c),
            }
        }
        Ok(out)
    }

    fn visit_stmts(&mut self, ss: Vec<Stmt>) -> (r: Result<Vec<Stmt>, ConflictingDirectives>)
        requires
            old(self).wf(),
        ensures
            match r {
                Ok(v) => t_stmts(old(self).mode, ss@, v@) && !stmts_find(Query::Conflict, ss@)
                    && old(self).advanced(final(self), stmts_find(Query::Wraps(old(self).mode), ss@)),
                Err(_) => stmts_find(Query::Conflict, ss@) && old(self).kept(final(self)),
            },
        decreases ss,
    {
        let ghost ss0 = ss;
        let ghost mode = self.mode;
        let mut rest = ss;
        let mut out: Vec<Stmt> = Vec::new();
        while rest.len() > 0
            invariant
                ss0 == ss,
                mode == old(self).mode,
                out@.len() + rest@.len() == ss0@.len(),
                rest@ == ss0@.subrange(out@.len() as int, ss0@.len() as int),
                forall|j: int| 0 <= j < out@.len() ==> t_stmt(mode, #[trigger] ss0@[j], out@[j]) && !stmt_finds(Query::Conflict, ss0@[j]),
                old(self).advanced(self, exists|j: int| 0 <= j < out@.len() && stmt_finds(Query::Wraps(mode), #[trigger] ss0@[j])),
            decreases rest@.len(),
        {
            let ghost k = out@.len() as int;
            let x = rest.remove(0);
            assert(x == ss0@[k]);
            assert(decreases_to!(ss0 => ss0@[k]));
            match self.visit_stmt(x) {
                Ok(y) => out.push(y),
                Err(c) => return Err(c),
            }
        }
        Ok(out)
    }

    /// Visits the arguments of a call; with `site`, the first one holds the
    /// candidate of an instrumented site.
    fn visit_args(&mut self, args: Vec<Arg>, site: bool) -> (r: Result<Vec<Arg>, ConflictingDirectives>)
        requires
            old(self).wf(),
            site ==> args@.len() > 0 && candidate(args@[0].expr).is_some(),
        ensures
            match r {
                Ok(v) => v@.len() == args@.len() && (forall|i: int| 0 <= i < args@.len() ==> (#[trigger] v@[i]).spread == args@[i].spread
                    && if site && i == 0 {
                        t_site(old(self).mode, args@[i].expr, v@[i].expr)
                    } else {
                        t_expr(old(self).mode, args@[i].expr, v@[i].expr)
                    })
                    && !(exists|i: int| 0 <= i < args@.len() && expr_finds(Query::Conflict, (#[trigger] args@[i]).expr))
                    && old(self).advanced(final(self), (site && has_body(candidate(args@[0].expr).unwrap()))
                        || exists|i: int| 0 <= i < args@.len() && expr_finds(Query::Wraps(old(self).mode), (#[trigger] args@[i]).expr)),
                Err(_) => (exists|i: int| 0 <= i < args@.len() && expr_finds(Query::Conflict, (#[trigger] args@[i]).expr)) && old(self).kept(final(self)),
            },
        decreases args,
    {
        proof {
            reveal_with_fuel(stmt_finds, 2);
            reveal_with_fuel(expr_finds, 2);
            reveal_with_fuel(t_stmt, 2);
            reveal_with_fuel(t_site, 2);
        }
        let ghost a0 = args;
        let ghost mode = self.mode;
        let mut rest = args;
        let mut out: Vec<Arg> = Vec::new();
        while rest.len() > 0
            invariant
                a0 == args,
                mode == old(self).mode,
                site ==> a0@.len() > 0 && candidate(a0@[0].expr).is_some(),
                out@.len() + rest@.len() == a0@.len(),
                rest@ == a0@.subrange(out@.len() as int, a0@.len() as int),
                forall|j: int| 0 <= j < out@.len() ==> (#[trigger] out@[j]).spread == a0@[j].spread
                    && (if site && j == 0 {
                        t_site(mode, a0@[j].expr, out@[j].expr)
                    } else {
                        t_expr(mode, a0@[j].expr, out@[j].expr)
                    }),
                forall|j: int| 0 <= j < out@.len() ==> !expr_finds(Query::Conflict, (#[trigger] a0@[j]).expr),
                old(self).advanced(self, (site && out@.len() > 0 && has_body(candidate(a0@[0].expr).unwrap()))
                    || exists|j: int| 0 <= j < out@.len() && expr_finds(Query::Wraps(mode), (#[trigger] a0@[j]).expr)),
            decreases rest@.len(),
        {
            let ghost k = out@.len() as int;
            let x = rest.remove(0);
            assert(x == a0@[k]);
            assert(decreases_to!(a0 => a0@[k]));
            let Arg { spread, expr } = x;
            let res = if site && out.len() == 0 {
                self.visit_site(expr)
            } else {
                self.visit_expr(expr)
            };
            match res {
                Ok(y) => out.push(Arg { spread, expr: y }),
                Err(c) => return Err(c),
            }
        }
        Ok(out)
    }

    fn visit_expr(&mut self, e: Expr) -> (r: Result<Expr, ConflictingDirectives>)
        requires
            old(self).wf(),
        ensures
            match r {
                Ok(x) => t_expr(old(self).mode, e, x) && !expr_finds(Query::Conflict, e)
                    && old(self).advanced(final(self), expr_finds(Query::Wraps(old(self).mode), e)),
                Err(_) => expr_finds(Query::Conflict, e) && old(self).kept(final(self)),
            },
        decreases e,
    {
        match e {
            Expr::Ident(id) => Ok(Expr::Ident(id)),
            Expr::Str(s) => Ok(Expr::Str(s)),
            Expr::Lit => Ok(Expr::Lit),
            Expr::Paren(x) => match self.visit_expr(*x) {
                Ok(y) => Ok(Expr::Paren(Box::new(y))),
                Err(c) => Err(c),
            },
            Expr::Jsx(ch) => match self.visit_exprs(ch) {
                Ok(v) => Ok(Expr::Jsx(v)),
                Err(c) => Err(c),
            },
            Expr::Member(o, prop) => {
                let o2 = match self.visit_expr(*o) {
                    Ok(y) => y,
                    Err(c) => return Err(c),
                };
                match prop {
                    MemberProp::Ident(id) => Ok(Expr::Member(Box::new(o2), MemberProp::Ident(id))),
                    MemberProp::Computed(x) => match self.visit_expr(*x) {
                        Ok(y) => Ok(Expr::Member(Box::new(o2), MemberProp::Computed(Box::new(y)))),
                        Err(c) => Err(c),
                    },
                }
            },
            Expr::Call(c, args) => {
                let c2 = match self.visit_expr(*c) {
                    Ok(y) => y,
                    Err(err) => return Err(err),
                };
                match self.visit_args(args, false) {
                    Ok(v) => Ok(Expr::Call(Box::new(c2), v)),
                    Err(err) => Err(err),
                }
            },
            Expr::Arrow(a) => match self.visit_arrow(*a) {
                Ok(a2) => Ok(Expr::Arrow(Box::new(a2))),
                Err(c) => Err(c),
            },
            Expr::Fn(f) => {
                let FnExpr { ident, function } = *f;
                match self.visit_function(function) {
                    Ok(f2) => Ok(Expr::Fn(Box::new(FnExpr { ident, function: f2 }))),
                    Err(c) => Err(c),
                }
            },
            Expr::Other(es) => match self.visit_exprs(es) {
                Ok(v) => Ok(Expr::Other(v)),
                Err(c) => Err(c),
            },
        }
    }

    fn visit_arrow(&mut self, a: ArrowExpr) -> (r: Result<ArrowExpr, ConflictingDirectives>)
        requires
            old(self).wf(),
        ensures
            match r {
                Ok(x) => t_arrow(old(self).mode, a, x) && !arrow_finds(Query::Conflict, a)
                    && old(self).advanced(final(self), arrow_finds(Query::Wraps(old(self).mode), a)),
                Err(_) => arrow_finds(Query::Conflict, a) && old(self).kept(final(self)),
            },
        decreases a,
    {
        let ArrowExpr { is_async, is_generator, params, body } = a;
        let params2 = match self.visit_exprs(params) {
            Ok(v) => v,
            Err(c) => return Err(c),
        };
        match body {
            ArrowBody::Block(ss) => match self.visit_stmts(ss) {
                Ok(v) => Ok(ArrowExpr { is_async, is_generator, params: params2, body: ArrowBody::Block(v) }),
                Err(c) => Err(c),
            },
            ArrowBody::Expr(x) => match self.visit_expr(*x) {
                Ok(y) => Ok(ArrowExpr { is_async, is_generator, params: params2, body: ArrowBody::Expr(Box::new(y)) }),
                Err(c) => Err(c),
            },
        }
    }

    fn visit_function(&mut self, f: Function) -> (r: Result<Function, ConflictingDirectives>)
        requires
            old(self).wf(),
        ensures
            match r {
                Ok(x) => t_fn(old(self).mode, f, x) && !fn_finds(Query::Conflict, f)
                    && old(self).advanced(final(self), fn_finds(Query::Wraps(old(self).mode), f)),
                Err(_) => fn_finds(Query::Conflict, f) && old(self).kept(final(self)),
            },
        decreases f,
    {
        let Function { is_async, is_generator, params, body } = f;
        let params2 = match self.visit_exprs(params) {
            Ok(v) => v,
            Err(c) => return Err(c),
        };
        match body {
            Some(ss) => match self.visit_stmts(ss) {
                Ok(v) => Ok(Function { is_async, is_generator, params: params2, body: Some(v) }),
                Err(c) => Err(c),
            },
            None => Ok(Function { is_async, is_generator, params: params2, body: None }),
        }
    }

    /// Visits the initializer of an instrumented site and instruments its
    /// candidate.
    fn visit_site(&mut self, e: Expr) -> (r: Result<Expr, ConflictingDirectives>)
        requires
            old(self).wf(),
            candidate(e).is_some(),
        ensures
            match r {
                Ok(x) => t_site(old(self).mode, e, x) && !expr_finds(Query::Conflict, e)
                    && old(self).advanced(final(self), expr_finds(Query::Wraps(old(self).mode), e) || has_body(candidate(e).unwrap())),
                Err(_) => expr_finds(Query::Conflict, e) && old(self).kept(final(self)),
            },
        decreases e,
    {
        proof {
            reveal_with_fuel(stmt_finds, 2);
            reveal_with_fuel(expr_finds, 2);
            reveal_with_fuel(t_stmt, 2);
            reveal_with_fuel(t_site, 2);
        }
        match e {
            Expr::Paren(x) => match self.visit_site(*x) {
                Ok(y) => Ok(Expr::Paren(Box::new(y))),
                Err(c) => Err(c),
            },
            Expr::Arrow(a) => {
                let ArrowExpr { is_async, is_generator, params, body } = *a;
                let params2 = match self.visit_exprs(params) {
                    Ok(v) => v,
                    Err(c) => return Err(c),
                };
                let block = match body {
                    ArrowBody::Block(ss) => match self.visit_stmts(ss) {
                        Ok(v) => v,
                        Err(c) => return Err(c),
                    },
                    ArrowBody::Expr(x) => match self.visit_expr(*x) {
                        Ok(y) => to_block(ArrowBody::Expr(Box::new(y))),
                        Err(c) => return Err(c),
                    },
                };
                let id = self.get_import_use_signals();
                let wrapped = wrap_with_use_signals(block, id);
                Ok(Expr::Arrow(Box::new(ArrowExpr { is_async, is_generator, params: params2, body: ArrowBody::Block(wrapped) })))
            },
            Expr::Fn(f) => {
                let FnExpr { ident, function } = *f;
                let Function { is_async, is_generator, params, body } = function;
                let params2 = match self.visit_exprs(params) {
                    Ok(v) => v,
                    Err(c) => return Err(c),
                };
                let body2 = match body {
                    Some(ss) => match self.visit_stmts(ss) {
                        Ok(v) => {
                            let id = self.get_import_use_signals();
                            Some(wrap_with_use_signals(v, id))
                        },
                        Err(c) => return Err(c),
                    },
                    None => None,
                };
                Ok(Expr::Fn(Box::new(FnExpr { ident, function: Function { is_async, is_generator, params: params2, body: body2 } })))
            },
            Expr::Call(c, args) => {
                let c2 = match self.visit_expr(*c) {
                    Ok(y) => y,
                    Err(err) => return Err(err),
                };
                match self.visit_args(args, true) {
                    Ok(v) => Ok(Expr::Call(Box::new(c2), v)),
                    Err(err) => Err(err),
                }
            },
            _ => Ok(e),
        }
    }

    fn visit_stmt(&mut self, s: Stmt) -> (r: Result<Stmt, ConflictingDirectives>)
        requires
            old(self).wf(),
        ensures
            match r {
                Ok(x) => t_stmt(old(self).mode, s, x) && !stmt_finds(Query::Conflict, s)
                    && old(self).advanced(final(self), stmt_finds(Query::Wraps(old(self).mode), s)),
                Err(_) => stmt_finds(Query::Conflict, s) && old(self).kept(final(self)),
            },
        decreases s,
    {
        match s {
            Stmt::Expr(e) => match self.visit_expr(e) {
                Ok(y) => Ok(Stmt::Expr(y)),
                Err(c) => Err(c),
            },
            Stmt::Return(None) => Ok(Stmt::Return(None)),
            Stmt::Return(Some(e)) => match self.visit_expr(e) {
                Ok(y) => Ok(Stmt::Return(Some(y))),
                Err(c) => Err(c),
            },
            Stmt::Var(d) => match self.visit_mut_var_decl(d) {
                Ok(d2) => Ok(Stmt::Var(d2)),
                Err(c) => Err(c),
            },
            Stmt::FnDecl(d) => match self.visit_mut_fn_decl(d) {
                Ok(d2) => Ok(Stmt::FnDecl(d2)),
                Err(c) => Err(c),
            },
            Stmt::Block(ss) => match self.visit_stmts(ss) {
                Ok(v) => Ok(Stmt::Block(v)),
                Err(c) => Err(c),
            },
            Stmt::Try(b, f) => {
                let b2 = match self.visit_stmts(b) {
                    Ok(v) => v,
                    Err(c) => return Err(c),
                };
                match f {
                    Some(fs) => match self.visit_stmts(fs) {
                        Ok(v) => Ok(Stmt::Try(b2, Some(v))),
                        Err(c) => Err(c),
                    },
                    None => Ok(Stmt::Try(b2, None)),
                }
            },
            Stmt::Empty => Ok(Stmt::Empty),
            Stmt::Other(es, ss) => {
                let es2 = match self.visit_exprs(es) {
                    Ok(v) => v,
                    Err(c) => return Err(c),
                };
                match self.visit_stmts(ss) {
                    Ok(v) => Ok(Stmt::Other(es2, v)),
                    Err(c) => Err(c),
                }
            },
        }
    }

    /// Visits the declarators of a declaration led by `comments`, whose
    /// directive verdict is `verdict`, instrumenting each eligible one.
    fn visit_declarators(&mut self, decls: Vec<VarDeclarator>, comments: &Vec<Comment>, verdict: Result<ShouldTrack, ConflictingDirectives>)
        -> (r: Result<Vec<VarDeclarator>, ConflictingDirectives>)
        requires
            old(self).wf(),
            verdict == verdict_spec(comments@),
        ensures
            match r {
                Ok(v) => v@.len() == decls@.len() && (forall|j: int| 0 <= j < decls@.len() ==> (#[trigger] v@[j]).name == decls@[j].name
                    && match decls@[j].init {
                    Some(e) => match v@[j].init {
                        Some(e2) => if decl_wraps(old(self).mode, comments@, decls@[j]) {
                            t_site(old(self).mode, e, e2)
                        } else {
                            t_expr(old(self).mode, e, e2)
                        },
                        None => false,
                    },
                    None => v@[j].init.is_none(),
                }) && !(exists|j: int| 0 <= j < decls@.len() && decl_finds(Query::Conflict, comments@, #[trigger] decls@[j]))
                    && old(self).advanced(final(self), exists|j: int| 0 <= j < decls@.len()
                        && decl_finds(Query::Wraps(old(self).mode), comments@, #[trigger] decls@[j])),
                Err(_) => (exists|j: int| 0 <= j < decls@.len() && decl_finds(Query::Conflict, comments@, #[trigger] decls@[j]))
                    && old(self).kept(final(self)),
            },
        decreases decls,
    {
        proof {
            reveal_with_fuel(expr_finds, 2);
            reveal_with_fuel(t_site, 2);
        }
        let ghost d0 = decls;
        let ghost mode = self.mode;
        let mut rest = decls;
        let mut out: Vec<VarDeclarator> = Vec::new();
        while rest.len() > 0
            invariant
                d0 == decls,
                mode == old(self).mode,
                verdict == verdict_spec(comments@),
                out@.len() + rest@.len() == d0@.len(),
                rest@ == d0@.subrange(out@.len() as int, d0@.len() as int),
                forall|j: int| 0 <= j < out@.len() ==> (#[trigger] out@[j]).name == d0@[j].name
                    && match d0@[j].init {
                    Some(e) => match out@[j].init {
                        Some(e2) => if decl_wraps(mode, comments@, d0@[j]) {
                            t_site(mode, e, e2)
                        } else {
                            t_expr(mode, e, e2)
                        },
                        None => false,
                    },
                    None => out@[j].init.is_none(),
                },
                forall|j: int| 0 <= j < out@.len() ==> !decl_finds(Query::Conflict, comments@, #[trigger] d0@[j]),
                old(self).advanced(self, exists|j: int| 0 <= j < out@.len()
                    && decl_finds(Query::Wraps(mode), comments@, #[trigger] d0@[j])),
            decreases rest@.len(),
        {
            let ghost k = out@.len() as int;
            let x = rest.remove(0);
            assert(x == d0@[k]);
            assert(decreases_to!(d0 => d0@[k]));
            let VarDeclarator { name, init } = x;
            let init2 = match init {
                Some(e) => {
                    let wraps = match extract_fn_from_expr(&e) {
                        None => false,
                        Some(c) => {
                            let tracks = match verdict {
                                Err(err) => return Err(err),
                                Ok(ShouldTrack::Auto) => should_track_auto(self.mode, &name, c),
                                Ok(ShouldTrack::OptIn) => true,
                                Ok(ShouldTrack::OptOut) => false,
                            };
                            let has_body = match c {
                                Expr::Fn(f) => f.function.body.is_some(),
                                _ => true,
                            };
                            tracks && has_body
                        },
                    };
                    let res = if wraps {
                        self.visit_site(e)
                    } else {
                        self.visit_expr(e)
                    };
                    match res {
                        Ok(y) => Some(y),
                        Err(c) => return Err(c),
                    }
                },
                None => None,
            };
            out.push(VarDeclarator { name, init: init2 });
        }
        Ok(out)
    }

    /// Instruments each eligible declarator of the declaration, and visits
    /// its initializers.
    pub fn visit_mut_var_decl(&mut self, n: VarDecl) -> (r: Result<VarDecl, ConflictingDirectives>)
        requires
            old(self).wf(),
        ensures
            match r {
                Ok(x) => t_stmt(old(self).mode, Stmt::Var(n), Stmt::Var(x)) && !stmt_finds(Query::Conflict, Stmt::Var(n))
                    && old(self).advanced(final(self), stmt_finds(Query::Wraps(old(self).mode), Stmt::Var(n))),
                Err(_) => stmt_finds(Query::Conflict, Stmt::Var(n)) && old(self).kept(final(self)),
            },
        decreases n,
    {
        let VarDecl { comments, kind, decls } = n;
        let verdict = should_track_by_comment(&comments);
        match self.visit_declarators(decls, &comments, verdict) {
            Ok(v) => Ok(VarDecl { comments, kind, decls: v }),
            Err(c) => Err(c),
        }
    }

    /// Instruments the declared function if it is eligible, and visits its
    /// body.
    pub fn visit_mut_fn_decl(&mut self, n: FnDecl) -> (r: Result<FnDecl, ConflictingDirectives>)
        requires
            old(self).wf(),
        ensures
            match r {
                Ok(x) => t_stmt(old(self).mode, Stmt::FnDecl(n), Stmt::FnDecl(x)) && !stmt_finds(Query::Conflict, Stmt::FnDecl(n))
                    && old(self).advanced(final(self), stmt_finds(Query::Wraps(old(self).mode), Stmt::FnDecl(n))),
                Err(_) => stmt_finds(Query::Conflict, Stmt::FnDecl(n)) && old(self).kept(final(self)),
            },
        decreases n,
    {
        proof {
            reveal_with_fuel(stmt_finds, 2);
            reveal_with_fuel(t_stmt, 2);
        }
        let regular = !n.function.is_async && !n.function.is_generator;
        let tracks = if !regular {
            false
        } else {
            match should_track_by_comment(&n.comments) {
                Err(c) => return Err(c),
                Ok(ShouldTrack::Auto) => should_track_auto_fn(self.mode, &n.ident, &n.function),
                Ok(ShouldTrack::OptIn) => true,
                Ok(ShouldTrack::OptOut) => false,
            }
        };
        let ghost n0 = n;
        let FnDecl { comments, ident, function } = n;
        let Function { is_async, is_generator, params, body } = function;
        let params2 = match self.visit_exprs(params) {
            Ok(v) => v,
            Err(c) => {
                assert(fn_finds(Query::Conflict, n0.function));
                return Err(c);
            },
        };
        let body2 = match body {
            Some(ss) => match self.visit_stmts(ss) {
                Ok(v) => if tracks {
                    let id = self.get_import_use_signals();
                    Some(wrap_with_use_signals(v, id))
                } else {
                    Some(v)
                },
                Err(c) => {
                    assert(fn_finds(Query::Conflict, n0.function));
                    return Err(c);
                },
            },
            None => None,
        };
        Ok(FnDecl { comments, ident, function: Function { is_async, is_generator, params: params2, body: body2 } })
    }
}

/// The name of the tracking-setup export.
pub open spec fn is_named_import_ident(id: Ident) -> bool {
    id.sym@ == "useSignals"@ && !id.private
}

/// `import { useSignals as _useSignals } from "<source>"`.
pub open spec fn is_tracking_import(it: ModuleItem, source: Seq<char>) -> bool {
    match it {
        ModuleItem::Import(d) => is_use_signals_ident(d.local) && d.source@ == source && match d.imported {
            Some(m) => is_named_import_ident(m),
            None => false,
        },
        _ => false,
    }
}

/// `const _useSignals = require("<source>").useSignals;`
pub open spec fn is_tracking_require(s: Stmt, source: Seq<char>) -> bool {
    match s {
        Stmt::Var(d) => d.comments@.len() == 0 && d.kind == VarKind::Const && d.decls@.len() == 1 && match d.decls@[0].name {
            Pat::Ident(id) => is_use_signals_ident(id),
            Pat::Other => false,
        } && match d.decls@[0].init {
            Some(Expr::Member(o, MemberProp::Ident(m))) => is_named_import_ident(m) && match *o {
                Expr::Call(c, args) => args@.len() == 1 && !args@[0].spread && match args@[0].expr {
                    Expr::Str(src) => src@ == source,
                    _ => false,
                } && match *c {
                    Expr::Ident(req) => req.sym@ == "require"@ && !req.private,
                    _ => false,
                },
                _ => false,
            },
            _ => false,
        },
        _ => false,
    }
}

/// What the traversal makes of a module's items: the items visited, and the
/// tracking import first if and only if a site was instrumented.
pub open spec fn module_result(mode: TransformMode, source: Seq<char>, items: Seq<ModuleItem>, r: Seq<ModuleItem>) -> bool {
    if items_find(Query::Wraps(mode), items) {
        r.len() == items.len() + 1 && is_tracking_import(r[0], source)
            && forall|i: int| 0 <= i < items.len() ==> t_item(mode, #[trigger] items[i], r[i + 1])
    } else {
        r.len() == items.len() && forall|i: int| 0 <= i < items.len() ==> t_item(mode, #[trigger] items[i], r[i])
    }
}

/// The same for a script's statements and the tracking require.
pub open spec fn script_result(mode: TransformMode, source: Seq<char>, body: Seq<Stmt>, r: Seq<Stmt>) -> bool {
    if stmts_find(Query::Wraps(mode), body) {
        r.len() == body.len() + 1 && is_tracking_require(r[0], source)
            && forall|i: int| 0 <= i < body.len() ==> t_stmt(mode, #[trigger] body[i], r[i + 1])
    } else {
        t_stmts(mode, body, r)
    }
}

pub open spec fn program_result(mode: TransformMode, source: Seq<char>, p: Program, r: Program) -> bool {
    match p {
        Program::Module(items) => match r {
            Program::Module(r_items) => module_result(mode, source, items@, r_items@),
            _ => false,
        },
        Program::Script(body) => match r {
            Program::Script(r_body) => script_result(mode, source, body@, r_body@),
            _ => false,
        },
    }
}

pub open spec fn program_conflicts(p: Program) -> bool {
    match p {
        Program::Module(items) => items_find(Query::Conflict, items@),
        Program::Script(body) => stmts_find(Query::Conflict, body@),
    }
}

/// The import of `source_member_ident` (the default export when `None`) from
/// `source`, bound to `ident`.
pub fn add_import(ident: Ident, source: String, source_member_ident: Option<Ident>) -> (r: ImportDecl)
    ensures
        r.local == ident,
        r.source == source,
        r.imported == source_member_ident,
{
    ImportDecl { local: ident, imported: source_member_ident, source }
}

/// `const <ident> = require("<source>").<member>;`, or without the member
/// access when `source_member_ident` is `None`.
pub fn add_require(ident: Ident, source: String, source_member_ident: Option<Ident>) -> (r: Stmt)
    ensures
        match source_member_ident {
            Some(m) => is_named_import_ident(m) && is_use_signals_ident(ident) ==> is_tracking_require(r, source@),
            None => true,
        },
        match r {
            Stmt::Var(d) => d.kind == VarKind::Const && d.decls@.len() == 1 && d.decls@[0].name == Pat::Ident(ident)
                && match source_member_ident {
                Some(m) => match d.decls@[0].init {
                    Some(Expr::Member(o, MemberProp::Ident(m2))) => m2 == m && is_require_of(*o, source@),
                    _ => false,
                },
                None => match d.decls@[0].init {
                    Some(o) => is_require_of(o, source@),
                    None => false,
                },
            },
            _ => false,
        },
{
    let import_call = Expr::Call(
        Box::new(Expr::Ident(Ident { sym: String::from_str("require"), private: false })),
        vec![Arg { spread: false, expr: Expr::Str(source) }],
    );
    let init = match source_member_ident {
        Some(m) => Expr::Member(Box::new(import_call), MemberProp::Ident(m)),
        None => import_call,
    };
    Stmt::Var(VarDecl {
        comments: Vec::new(),
        kind: VarKind::Const,
        decls: vec![VarDeclarator { name: Pat::Ident(ident), init: Some(init) }],
    })
}

/// `require("<source>")`.
pub open spec fn is_require_of(e: Expr, source: Seq<char>) -> bool {
    match e {
        Expr::Call(c, args) => args@.len() == 1 && !args@[0].spread && match args@[0].expr {
            Expr::Str(src) => src@ == source,
            _ => false,
        } && match *c {
            Expr::Ident(req) => req.sym@ == "require"@ && !req.private,
            _ => false,
        },
        _ => false,
    }
}

fn get_named_import_ident() -> (r: Ident)
    ensures
        is_named_import_ident(r),
{
    Ident { sym: String::from_str("useSignals"), private: false }
}

impl SignalsTransformVisitor {
    /// Visits a module and, if a site was instrumented, puts the tracking
    /// import before everything else.
    pub fn visit_mut_module(&mut self, items: Vec<ModuleItem>) -> (r: Result<Vec<ModuleItem>, ConflictingDirectives>)
        requires
            old(self).wf(),
        ensures
            final(self).wf(),
            final(self).mode == old(self).mode,
            final(self).use_signals_import_source@ == old(self).use_signals_import_source@,
            match r {
                Ok(v) => !items_find(Query::Conflict, items@)
                    && module_result(old(self).mode, old(self).use_signals_import_source@, items@, v@)
                    && final(self).import_use_signals.is_some() == items_find(Query::Wraps(old(self).mode), items@),
                Err(_) => items_find(Query::Conflict, items@),
            },
    {
        self.import_use_signals = None;
        let ghost i0 = items;
        let ghost mode = self.mode;
        let ghost s0 = *self;
        let mut rest = items;
        let mut out: Vec<ModuleItem> = Vec::new();
        while rest.len() > 0
            invariant
                i0 == items,
                mode == old(self).mode,
                s0.mode == mode,
                s0.use_signals_import_source@ == old(self).use_signals_import_source@,
                s0.import_use_signals.is_none(),
                s0.wf(),
                out@.len() + rest@.len() == i0@.len(),
                rest@ == i0@.subrange(out@.len() as int, i0@.len() as int),
                forall|j: int| 0 <= j < out@.len() ==> t_item(mode, #[trigger] i0@[j], out@[j]),
                forall|j: int| 0 <= j < out@.len() ==> !item_finds(Query::Conflict, #[trigger] i0@[j]),
                s0.advanced(self, exists|j: int| 0 <= j < out@.len() && item_finds(Query::Wraps(mode), #[trigger] i0@[j])),
            decreases rest@.len(),
        {
            let ghost k = out@.len() as int;
            let x = rest.remove(0);
            assert(x == i0@[k]);
            match x {
                ModuleItem::Import(d) => out.push(ModuleItem::Import(d)),
                ModuleItem::Stmt(st) => match self.visit_stmt(st) {
                    Ok(y) => out.push(ModuleItem::Stmt(y)),
                    Err(c) => return Err(c),
                },
                ModuleItem::Export(st) => match self.visit_stmt(st) {
                    Ok(y) => out.push(ModuleItem::Export(y)),
                    Err(c) => return Err(c),
                },
            }
        }
        let ghost visited = out@;
        match &self.import_use_signals {
            Some(ident) => {
                let local = Ident { sym: ident.sym.clone(), private: ident.private };
                let decl = add_import(local, self.use_signals_import_source.clone(), Some(get_named_import_ident()));
                out.insert(0, ModuleItem::Import(decl));
                assert forall|i: int| 0 <= i < i0@.len() implies t_item(mode, #[trigger] i0@[i], out@[i + 1]) by {
                    assert(out@[i + 1] == visited[i]);
                }
            },
            None => {},
        }
        Ok(out)
    }

    /// Visits a script and, if a site was instrumented, puts the tracking
    /// require before everything else.
    pub fn visit_mut_script(&mut self, body: Vec<Stmt>) -> (r: Result<Vec<Stmt>, ConflictingDirectives>)
        requires
            old(self).wf(),
        ensures
            final(self).wf(),
            final(self).mode == old(self).mode,
            final(self).use_signals_import_source@ == old(self).use_signals_import_source@,
            match r {
                Ok(v) => !stmts_find(Query::Conflict, body@)
                    && script_result(old(self).mode, old(self).use_signals_import_source@, body@, v@)
                    && final(self).import_use_signals.is_some() == stmts_find(Query::Wraps(old(self).mode), body@),
                Err(_) => stmts_find(Query::Conflict, body@),
            },
    {
        self.import_use_signals = None;
        let ghost mode = self.mode;
        let mut out = match self.visit_stmts(body) {
            Ok(v) => v,
            Err(c) => return Err(c),
        };
        let ghost visited = out@;
        match &self.import_use_signals {
            Some(ident) => {
                let local = Ident { sym: ident.sym.clone(), private: ident.private };
                let req = add_require(local, self.use_signals_import_source.clone(), Some(get_named_import_ident()));
                out.insert(0, req);
                assert forall|i: int| 0 <= i < body@.len() implies t_stmt(mode, #[trigger] body@[i], out@[i + 1]) by {
                    assert(out@[i + 1] == visited[i]);
                }
            },
            None => {},
        }
        Ok(out)
    }

    /// Runs the transform over one unit.
    pub fn visit_mut_program(&mut self, p: Program) -> (r: Result<Program, ConflictingDirectives>)
        requires
            old(self).wf(),
        ensures
            final(self).wf(),
            final(self).mode == old(self).mode,
            final(self).use_signals_import_source@ == old(self).use_signals_import_source@,
            match r {
                Ok(x) => !program_conflicts(p) && program_result(old(self).mode, old(self).use_signals_import_source@, p, x),
                Err(_) => program_conflicts(p),
            },
    {
        match p {
            Program::Module(items) => match self.visit_mut_module(items) {
                Ok(v) => Ok(Program::Module(v)),
                Err(c) => Err(c),
            },
            Program::Script(body) => match self.visit_mut_script(body) {
                Ok(v) => Ok(Program::Script(v)),
                Err(c) => Err(c),
            },
        }
    }
}

/// Transforms one unit under the given configuration (the defaults when
/// `None`).
pub fn process_transform(program: Program, options: Option<PreactSignalsPluginOptions>) -> (r: Result<Program, ConflictingDirectives>)
    ensures
        ({
            let mode = match options {
                Some(o) => match o.mode {
                    Some(m) => m,
                    None => TransformMode::All,
                },
                None => TransformMode::All,
            };
            let source = match options {
                Some(o) => match o.import_source {
                    Some(s) => s@,
                    None => default_import_source(),
                },
                None => default_import_source(),
            };
            match r {
                Ok(x) => !program_conflicts(program) && program_result(mode, source, program, x),
                Err(_) => program_conflicts(program),
            }
        }),
{
    let mut v = match options {
        Some(o) => SignalsTransformVisitor::from_options(o),
        None => SignalsTransformVisitor::from_default(),
    };
    v.visit_mut_program(program)
}

} // verus!
