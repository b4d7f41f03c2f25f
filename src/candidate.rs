//! Which expressions are function-like candidates, and which candidates are
//! tracked.
use vstd::prelude::*;
use crate::ast::{Expr, Function, Ident, Pat};
use crate::detect::{arrow_contains, arrow_has, fn_has, function_contains, Probe};
use crate::directive::ShouldTrack;
use crate::names::{is_component_name, is_component_name_spec};

verus! {

/// How sites without a directive are decided.
#[derive(PartialEq, Eq, Structural, Clone, Copy, Debug)]
pub enum TransformMode {
    /// Only sites that opt in are tracked.
    Manual,
    /// Capitalised functions that hold markup are tracked.
    All,
    /// Capitalised functions that hold markup and read a `value` are tracked.
    Auto,
}

/// The candidate an expression denotes: a plain (neither async nor generator)
/// arrow or function expression, looked for through parentheses and through
/// the first argument of calls.
pub open spec fn candidate(e: Expr) -> Option<Expr>
    decreases e,
{
    match e {
        Expr::Paren(x) => candidate(*x),
        Expr::Arrow(a) => if !a.is_async && !a.is_generator {
            Some(e)
        } else {
            None
        },
        Expr::Fn(f) => if !f.function.is_async && !f.function.is_generator {
            Some(e)
        } else {
            None
        },
        Expr::Call(_, args) => if args.len() > 0 && !args@[0].spread {
            candidate(args@[0].expr)
        } else {
            None
        },
        _ => None,
    }
}

/// Whether the search `p` succeeds in a candidate's subtree.
pub open spec fn candidate_has(p: Probe, c: Expr) -> bool {
    match c {
        Expr::Arrow(a) => arrow_has(p, *a),
        Expr::Fn(f) => fn_has(p, f.function),
        _ => false,
    }
}

pub open spec fn pat_is_component(p: Pat) -> bool {
    match p {
        Pat::Ident(id) => is_component_name_spec(id.sym@),
        Pat::Other => false,
    }
}

/// The mode's policy for a site without a directive.
pub open spec fn auto_spec(mode: TransformMode, component_name: bool, markup: bool, signal_read: bool) -> bool {
    match mode {
        TransformMode::All => component_name && markup,
        TransformMode::Manual => false,
        TransformMode::Auto => component_name && markup && signal_read,
    }
}

/// The final decision: a directive overrides the mode's policy.
pub open spec fn decide_spec(verdict: ShouldTrack, auto: bool) -> bool {
    match verdict {
        ShouldTrack::OptIn => true,
        ShouldTrack::OptOut => false,
        ShouldTrack::Auto => auto,
    }
}

/// Finds the candidate that an expression denotes, if any.
pub fn extract_fn_from_expr(e: &Expr) -> (r: Option<&Expr>)
    ensures
        match r {
            Some(c) => candidate(*e) == Some(*c),
            None => candidate(*e).is_none(),
        },
    decreases e,
{
    match e {
        Expr::Paren(x) => extract_fn_from_expr(x),
        Expr::Arrow(a) => if !a.is_async && !a.is_generator {
            Some(e)
        } else {
            None
        },
        Expr::Fn(f) => if !f.function.is_async && !f.function.is_generator {
            Some(e)
        } else {
            None
        },
        Expr::Call(_, args) => if args.len() > 0 && !args[0].spread {
            assert(decreases_to!(args => args@[0]));
            extract_fn_from_expr(&args[0].expr)
        } else {
            None
        },
        _ => None,
    }
}

pub fn pat_is_component_name(p: &Pat) -> (r: bool)
    ensures
        r == pat_is_component(*p),
{
    match p {
        Pat::Ident(id) => is_component_name(id.sym.as_str()),
        Pat::Other => false,
    }
}

/// The mode's policy applied to a candidate bound to `name`.
pub fn should_track_auto(mode: TransformMode, name: &Pat, c: &Expr) -> (r: bool)
    ensures
        r == auto_spec(mode, pat_is_component(*name), candidate_has(Probe::Markup, *c),
            candidate_has(Probe::SignalRead, *c)),
{
    match mode {
        TransformMode::All => pat_is_component_name(name) && candidate_contains(Probe::Markup, c),
        TransformMode::Manual => false,
        TransformMode::Auto => pat_is_component_name(name) && candidate_contains(Probe::Markup, c)
            && candidate_contains(Probe::SignalRead, c),
    }
}

/// The mode's policy applied to a function declared as `name`.
pub fn should_track_auto_fn(mode: TransformMode, name: &Ident, f: &Function) -> (r: bool)
    ensures
        r == auto_spec(mode, is_component_name_spec(name.sym@), fn_has(Probe::Markup, *f),
            fn_has(Probe::SignalRead, *f)),
{
    match mode {
        TransformMode::All => is_component_name(name.sym.as_str()) && function_contains(Probe::Markup, f),
        TransformMode::Manual => false,
        TransformMode::Auto => is_component_name(name.sym.as_str()) && function_contains(Probe::Markup, f)
            && function_contains(Probe::SignalRead, f),
    }
}

pub fn candidate_contains(p: Probe, c: &Expr) -> (r: bool)
    ensures
        r == candidate_has(p, *c),
{
    match c {
        Expr::Arrow(a) => arrow_contains(p, a),
        Expr::Fn(f) => function_contains(p, &f.function),
        _ => false,
    }
}

} // verus!
