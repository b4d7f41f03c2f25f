use preact_signals_swc::ast::{Comment, CommentKind, Expr, Ident, MemberProp};
use preact_signals_swc::candidate::extract_fn_from_expr;
use preact_signals_swc::detect::{expr_contains, Probe};
use preact_signals_swc::directive::{
    is_no_track_signals_directive, is_track_signals_directive, should_track_by_comment, ConflictingDirectives,
    ShouldTrack,
};
use preact_signals_swc::names::{contains, is_component_name, same_text};

fn block(text: &str) -> Comment {
    Comment { kind: CommentKind::Block, text: text.to_string() }
}

#[test]
fn component_names() {
    assert!(is_component_name("App"));
    assert!(is_component_name("Z"));
    assert!(!is_component_name("app"));
    assert!(!is_component_name(""));
    assert!(!is_component_name("_App"));
    assert!(!is_component_name("Ärger"));
}

#[test]
fn substring_search() {
    assert!(contains("abc", ""));
    assert!(contains("x @trackSignals y", "@trackSignals"));
    assert!(!contains("@trackSignal", "@trackSignals"));
    assert!(contains("aab", "ab"));
    assert!(same_text("value", "value"));
    assert!(!same_text("value", "values"));
}

#[test]
fn directive_markers() {
    assert!(is_track_signals_directive("* @trackSignals"));
    assert!(!is_track_signals_directive("* @noTrackSignals"));
    assert!(is_no_track_signals_directive("@noTrackSignals please"));
    assert!(!is_no_track_signals_directive("@trackSignals"));
}

#[test]
fn directive_verdicts() {
    assert_eq!(should_track_by_comment(&vec![]), Ok(ShouldTrack::Auto));
    assert_eq!(should_track_by_comment(&vec![block("hello")]), Ok(ShouldTrack::Auto));
    assert_eq!(should_track_by_comment(&vec![block("@trackSignals")]), Ok(ShouldTrack::OptIn));
    assert_eq!(should_track_by_comment(&vec![block("x"), block("@noTrackSignals")]), Ok(ShouldTrack::OptOut));
    assert_eq!(
        should_track_by_comment(&vec![block("@trackSignals @noTrackSignals")]),
        Err(ConflictingDirectives)
    );
    let line = Comment { kind: CommentKind::Line, text: "@noTrackSignals".to_string() };
    assert_eq!(should_track_by_comment(&vec![line, block("@trackSignals")]), Ok(ShouldTrack::OptIn));
}

#[test]
fn markup_and_value_searches() {
    let e = Expr::Other(vec![Expr::Lit, Expr::Paren(Box::new(Expr::Jsx(vec![])))]);
    assert!(expr_contains(Probe::Markup, &e));
    assert!(!expr_contains(Probe::SignalRead, &e));
    let read = Expr::Member(
        Box::new(Expr::Ident(Ident { sym: "count".to_string(), private: false })),
        MemberProp::Ident(Ident { sym: "value".to_string(), private: false }),
    );
    let in_jsx = Expr::Jsx(vec![read]);
    assert!(expr_contains(Probe::SignalRead, &in_jsx));
    assert!(expr_contains(Probe::Markup, &in_jsx));
}

#[test]
fn candidate_through_parens_and_calls() {
    let arrow = || Expr::Arrow(Box::new(preact_signals_swc::ast::ArrowExpr {
        is_async: false,
        is_generator: false,
        params: vec![],
        body: preact_signals_swc::ast::ArrowBody::Expr(Box::new(Expr::Lit)),
    }));
    let nested = Expr::Call(
        Box::new(Expr::Ident(Ident { sym: "outer".to_string(), private: false })),
        vec![preact_signals_swc::ast::Arg {
            spread: false,
            expr: Expr::Paren(Box::new(Expr::Call(
                Box::new(Expr::Ident(Ident { sym: "inner".to_string(), private: false })),
                vec![preact_signals_swc::ast::Arg { spread: false, expr: arrow() }],
            ))),
        }],
    );
    assert!(matches!(extract_fn_from_expr(&nested), Some(Expr::Arrow(_))));
    assert!(extract_fn_from_expr(&Expr::Lit).is_none());
    assert!(matches!(extract_fn_from_expr(&Expr::Paren(Box::new(arrow()))), Some(Expr::Arrow(_))));
}
