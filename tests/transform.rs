use preact_signals_swc::ast::{
    Arg, ArrowBody, ArrowExpr, Comment, CommentKind, Expr, FnDecl, FnExpr, Function, Ident, MemberProp, ModuleItem,
    Pat, Program, Stmt, VarDecl, VarDeclarator, VarKind,
};
use preact_signals_swc::candidate::TransformMode;
use preact_signals_swc::directive::ConflictingDirectives;
use preact_signals_swc::visitor::{process_transform, PreactSignalsPluginOptions};

fn id(s: &str) -> Ident {
    Ident { sym: s.to_string(), private: false }
}

fn jsx() -> Expr {
    Expr::Jsx(vec![])
}

fn num() -> Expr {
    Expr::Lit
}

fn arrow_block(stmts: Vec<Stmt>) -> Expr {
    Expr::Arrow(Box::new(ArrowExpr { is_async: false, is_generator: false, params: vec![], body: ArrowBody::Block(stmts) }))
}

fn arrow_expr(e: Expr) -> Expr {
    Expr::Arrow(Box::new(ArrowExpr { is_async: false, is_generator: false, params: vec![], body: ArrowBody::Expr(Box::new(e)) }))
}

fn fn_expr(name: Option<&str>, stmts: Vec<Stmt>) -> Expr {
    Expr::Fn(Box::new(FnExpr {
        ident: name.map(id),
        function: Function { is_async: false, is_generator: false, params: vec![], body: Some(stmts) },
    }))
}

fn ret(e: Expr) -> Stmt {
    Stmt::Return(Some(e))
}

fn block_comment(text: &str) -> Comment {
    Comment { kind: CommentKind::Block, text: text.to_string() }
}

fn decl(kind: VarKind, name: &str, init: Expr, comments: Vec<Comment>) -> Stmt {
    Stmt::Var(VarDecl { comments, kind, decls: vec![VarDeclarator { name: Pat::Ident(id(name)), init: Some(init) }] })
}

fn const_decl(name: &str, init: Expr) -> Stmt {
    decl(VarKind::Const, name, init, vec![])
}

fn fn_decl(name: &str, stmts: Vec<Stmt>, comments: Vec<Comment>) -> Stmt {
    Stmt::FnDecl(FnDecl {
        comments,
        ident: id(name),
        function: Function { is_async: false, is_generator: false, params: vec![], body: Some(stmts) },
    })
}

fn call(callee: &str, args: Vec<Expr>) -> Expr {
    Expr::Call(Box::new(Expr::Ident(id(callee))), args.into_iter().map(|expr| Arg { spread: false, expr }).collect())
}

fn member(obj: &str, prop: &str) -> Expr {
    Expr::Member(Box::new(Expr::Ident(id(obj))), MemberProp::Ident(id(prop)))
}

fn module(stmts: Vec<Stmt>) -> Program {
    Program::Module(stmts.into_iter().map(ModuleItem::Stmt).collect())
}

fn options(mode: TransformMode) -> Option<PreactSignalsPluginOptions> {
    Some(PreactSignalsPluginOptions { mode: Some(mode), import_source: None })
}

fn items(p: Program) -> Vec<ModuleItem> {
    match p {
        Program::Module(items) => items,
        Program::Script(_) => panic!("expected a module"),
    }
}

fn stmt(item: &ModuleItem) -> &Stmt {
    match item {
        ModuleItem::Stmt(s) => s,
        ModuleItem::Export(s) => s,
        ModuleItem::Import(_) => panic!("expected a statement"),
    }
}

fn is_private(i: &Ident, sym: &str) -> bool {
    i.private && i.sym == sym
}

/// The statements that an instrumented body guards, if `body` is one.
fn guarded(body: &Vec<Stmt>) -> Option<&Vec<Stmt>> {
    if body.len() != 2 {
        return None;
    }
    let setup_ok = match &body[0] {
        Stmt::Var(d) => {
            d.kind == VarKind::Var
                && d.decls.len() == 1
                && matches!(&d.decls[0].name, Pat::Ident(e) if is_private(e, "_effect"))
                && match &d.decls[0].init {
                    Some(Expr::Call(c, args)) => {
                        args.is_empty() && matches!(&**c, Expr::Ident(u) if is_private(u, "_useSignals"))
                    }
                    _ => false,
                }
        }
        _ => false,
    };
    if !setup_ok {
        return None;
    }
    match &body[1] {
        Stmt::Try(b, Some(f)) => {
            let teardown_ok = f.len() == 1
                && match &f[0] {
                    Stmt::Expr(Expr::Call(c, args)) => {
                        args.is_empty()
                            && match &**c {
                                Expr::Member(o, MemberProp::Ident(m)) => {
                                    m.sym == "f" && !m.private && matches!(&**o, Expr::Ident(e) if is_private(e, "_effect"))
                                }
                                _ => false,
                            }
                    }
                    _ => false,
                };
            if teardown_ok {
                Some(b)
            } else {
                None
            }
        }
        _ => None,
    }
}

/// The body of the function-like expression reached through parentheses and
/// first call arguments.
fn fn_body(e: &Expr) -> Option<&Vec<Stmt>> {
    match e {
        Expr::Paren(x) => fn_body(x),
        Expr::Arrow(a) => match &a.body {
            ArrowBody::Block(ss) => Some(ss),
            ArrowBody::Expr(_) => None,
        },
        Expr::Fn(f) => f.function.body.as_ref(),
        Expr::Call(_, args) => fn_body(&args[0].expr),
        _ => None,
    }
}

fn decl_body(s: &Stmt) -> Option<&Vec<Stmt>> {
    match s {
        Stmt::Var(d) => fn_body(d.decls[0].init.as_ref().unwrap()),
        Stmt::FnDecl(d) => d.function.body.as_ref(),
        _ => None,
    }
}

fn is_wrapped_site(s: &Stmt) -> bool {
    decl_body(s).map_or(false, |b| guarded(b).is_some())
}

fn is_tracking_import(item: &ModuleItem, source: &str) -> bool {
    match item {
        ModuleItem::Import(d) => {
            is_private(&d.local, "_useSignals")
                && d.source == source
                && matches!(&d.imported, Some(m) if m.sym == "useSignals" && !m.private)
        }
        _ => false,
    }
}

const DEFAULT_SOURCE: &str = "@preact-signals/safe-react/tracking";

#[test]
fn literal_arrow_component_is_wrapped_with_import() {
    let p = module(vec![const_decl("A", arrow_block(vec![ret(jsx())]))]);
    let out = items(process_transform(p, None).unwrap());
    assert_eq!(out.len(), 2);
    assert!(is_tracking_import(&out[0], DEFAULT_SOURCE));
    let body = decl_body(stmt(&out[1])).unwrap();
    let inner = guarded(body).unwrap();
    assert_eq!(inner.len(), 1);
    assert!(matches!(&inner[0], Stmt::Return(Some(Expr::Jsx(ch))) if ch.is_empty()));
}

fn sample_module() -> Program {
    let track = vec![block_comment("*\n * should be transformed\n * @trackSignals\n ")];
    let no_track = vec![block_comment("*\n * should not be transformed\n * @noTrackSignals\n ")];
    let line = vec![Comment { kind: CommentKind::Line, text: " should be transformed".to_string() }];
    module(vec![
        decl(VarKind::Const, "A", arrow_block(vec![ret(jsx())]), line.clone()),
        decl(VarKind::Const, "Cecek", arrow_expr(jsx()), line.clone()),
        fn_decl("Beb2", vec![ret(jsx())], line),
        decl(VarKind::Var, "C", fn_expr(None, vec![ret(jsx())]), vec![]),
        decl(VarKind::Var, "C2", fn_expr(Some("C3"), vec![ret(jsx())]), vec![]),
        decl(VarKind::Const, "sdfj", arrow_expr(num()), track.clone()),
        const_decl("Cec", call("memo", vec![arrow_block(vec![ret(jsx())])])),
        const_decl(
            "Cyc",
            Expr::Call(
                Box::new(member("React", "lazy")),
                vec![
                    Arg {
                        spread: false,
                        expr: Expr::Call(
                            Box::new(member("React", "memo")),
                            vec![Arg { spread: false, expr: arrow_block(vec![ret(jsx())]) }],
                        ),
                    },
                    Arg { spread: false, expr: Expr::Other(vec![]) },
                ],
            ),
        ),
        const_decl("CycPlain", arrow_expr(num())),
        fn_decl("B", vec![ret(jsx())], no_track.clone()),
        Stmt::Empty,
        fn_decl(
            "Asdjsadf",
            vec![
                fn_decl("B", vec![ret(jsx())], no_track),
                Stmt::Empty,
                fn_decl("c", vec![ret(num())], track),
                Stmt::Empty,
                ret(jsx()),
            ],
            vec![],
        ),
    ])
}

#[test]
fn mixed_module_sample() {
    let out = items(process_transform(sample_module(), None).unwrap());
    assert_eq!(out.len(), 13);
    assert!(is_tracking_import(&out[0], DEFAULT_SOURCE));
    let wrapped: Vec<bool> = out[1..].iter().map(|it| is_wrapped_site(stmt(it))).collect();
    assert_eq!(
        wrapped,
        vec![true, true, true, true, true, true, true, true, false, false, false, true]
    );
    // `const Cecek = () => <div/>` becomes a block returning the markup.
    let cecek = guarded(decl_body(stmt(&out[2])).unwrap()).unwrap();
    assert!(matches!(&cecek[0], Stmt::Return(Some(Expr::Jsx(_)))));
    // Inside `Asdjsadf`, `B` opts out and `c` opts in.
    let outer = guarded(decl_body(stmt(&out[12])).unwrap()).unwrap();
    assert_eq!(outer.len(), 5);
    assert!(!is_wrapped_site(&outer[0]));
    assert!(is_wrapped_site(&outer[2]));
    // The untouched `CycPlain` keeps its expression body.
    match stmt(&out[9]) {
        Stmt::Var(d) => assert!(matches!(
            d.decls[0].init.as_ref().unwrap(),
            Expr::Arrow(a) if matches!(a.body, ArrowBody::Expr(_))
        )),
        _ => panic!("expected a declaration"),
    }
}

#[test]
fn unit_without_sites_is_unchanged() {
    let build = || {
        module(vec![
            const_decl("a", arrow_block(vec![ret(jsx())])),
            const_decl("B", arrow_expr(num())),
            Stmt::Expr(call("render", vec![jsx()])),
        ])
    };
    let out = process_transform(build(), None).unwrap();
    assert_eq!(format!("{:?}", out), format!("{:?}", build()));
}

#[test]
fn single_import_first_for_many_sites() {
    let p = module(vec![
        Stmt::Expr(call("setup", vec![])),
        const_decl("A", arrow_expr(jsx())),
        const_decl("B", arrow_expr(jsx())),
        fn_decl("C", vec![ret(jsx())], vec![]),
    ]);
    let out = items(process_transform(p, None).unwrap());
    assert_eq!(out.len(), 5);
    assert!(is_tracking_import(&out[0], DEFAULT_SOURCE));
    let imports = out.iter().filter(|it| matches!(it, ModuleItem::Import(_))).count();
    assert_eq!(imports, 1);
}

#[test]
fn script_gets_require_first() {
    let p = Program::Script(vec![Stmt::Expr(call("setup", vec![])), const_decl("A", arrow_expr(jsx()))]);
    let out = match process_transform(p, None).unwrap() {
        Program::Script(body) => body,
        Program::Module(_) => panic!("expected a script"),
    };
    assert_eq!(out.len(), 3);
    match &out[0] {
        Stmt::Var(d) => {
            assert_eq!(d.kind, VarKind::Const);
            assert!(matches!(&d.decls[0].name, Pat::Ident(u) if is_private(u, "_useSignals")));
            match d.decls[0].init.as_ref().unwrap() {
                Expr::Member(o, MemberProp::Ident(m)) => {
                    assert_eq!(m.sym, "useSignals");
                    match &**o {
                        Expr::Call(c, args) => {
                            assert!(matches!(&**c, Expr::Ident(r) if r.sym == "require"));
                            assert!(matches!(&args[0].expr, Expr::Str(s) if s == DEFAULT_SOURCE));
                        }
                        _ => panic!("expected a require call"),
                    }
                }
                _ => panic!("expected a member access"),
            }
        }
        _ => panic!("expected a declaration"),
    }
    assert!(is_wrapped_site(&out[2]));
}

#[test]
fn custom_import_source() {
    let p = module(vec![const_decl("A", arrow_expr(jsx()))]);
    let opts = PreactSignalsPluginOptions { mode: None, import_source: Some("my-tracking".to_string()) };
    let out = items(process_transform(p, Some(opts)).unwrap());
    assert!(is_tracking_import(&out[0], "my-tracking"));
}

#[test]
fn second_run_adds_no_site_of_its_own() {
    // The statements the first run adds, standing alone, are no sites.
    let out = items(process_transform(module(vec![const_decl("A", arrow_expr(jsx()))]), None).unwrap());
    let added: Vec<Stmt> = match out.into_iter().nth(1).unwrap() {
        ModuleItem::Stmt(Stmt::Var(mut d)) => match d.decls.remove(0).init.unwrap() {
            Expr::Arrow(a) => match a.body {
                ArrowBody::Block(ss) => ss,
                ArrowBody::Expr(_) => panic!("expected a block"),
            },
            _ => panic!("expected an arrow"),
        },
        _ => panic!("expected a declaration"),
    };
    let again = items(process_transform(module(added), None).unwrap());
    assert_eq!(again.len(), 2);
    assert!(again.iter().all(|it| matches!(it, ModuleItem::Stmt(_))));
}

#[test]
fn opt_in_wins_over_heuristics() {
    let p = module(vec![decl(VarKind::Const, "lower", arrow_expr(num()), vec![block_comment(" @trackSignals ")])]);
    let out = items(process_transform(p, options(TransformMode::Manual)).unwrap());
    assert!(is_tracking_import(&out[0], DEFAULT_SOURCE));
    assert!(is_wrapped_site(stmt(&out[1])));
}

#[test]
fn opt_out_wins_over_heuristics() {
    let p = module(vec![decl(VarKind::Const, "Comp", arrow_block(vec![ret(jsx())]), vec![block_comment("@noTrackSignals")])]);
    let out = items(process_transform(p, None).unwrap());
    assert_eq!(out.len(), 1);
    assert!(!is_wrapped_site(stmt(&out[0])));
}

#[test]
fn directive_in_line_comment_is_ignored() {
    let c = Comment { kind: CommentKind::Line, text: " @trackSignals".to_string() };
    let p = module(vec![decl(VarKind::Const, "lower", arrow_expr(num()), vec![c])]);
    let out = items(process_transform(p, None).unwrap());
    assert_eq!(out.len(), 1);
}

#[test]
fn both_directives_are_an_error() {
    let p = module(vec![decl(
        VarKind::Const,
        "A",
        arrow_expr(jsx()),
        vec![block_comment("@trackSignals"), block_comment("@noTrackSignals")],
    )]);
    assert!(matches!(process_transform(p, None), Err(ConflictingDirectives)));
}

fn reads_value() -> Program {
    module(vec![const_decl("A", arrow_block(vec![Stmt::Expr(member("sig", "value")), ret(jsx())]))])
}

fn no_value_read() -> Program {
    module(vec![const_decl("A", arrow_block(vec![ret(jsx())]))])
}

#[test]
fn manual_mode_wraps_nothing_automatically() {
    let out = items(process_transform(reads_value(), options(TransformMode::Manual)).unwrap());
    assert_eq!(out.len(), 1);
    assert!(!is_wrapped_site(stmt(&out[0])));
}

#[test]
fn all_mode_ignores_value_reads() {
    let out = items(process_transform(no_value_read(), options(TransformMode::All)).unwrap());
    assert!(is_wrapped_site(stmt(&out[1])));
}

#[test]
fn auto_mode_needs_a_value_read() {
    let out = items(process_transform(no_value_read(), options(TransformMode::Auto)).unwrap());
    assert_eq!(out.len(), 1);
    let out = items(process_transform(reads_value(), options(TransformMode::Auto)).unwrap());
    assert!(is_wrapped_site(stmt(&out[1])));
}

#[test]
fn auto_mode_accepts_computed_value_read() {
    let read = Expr::Member(
        Box::new(Expr::Ident(id("sig"))),
        MemberProp::Computed(Box::new(Expr::Paren(Box::new(Expr::Str("value".to_string()))))),
    );
    let p = module(vec![const_decl("A", arrow_block(vec![Stmt::Expr(read), ret(jsx())]))]);
    let out = items(process_transform(p, options(TransformMode::Auto)).unwrap());
    assert!(is_wrapped_site(stmt(&out[1])));
    let other = Expr::Member(Box::new(Expr::Ident(id("sig"))), MemberProp::Computed(Box::new(Expr::Str("values".to_string()))));
    let p = module(vec![const_decl("A", arrow_block(vec![Stmt::Expr(other), ret(jsx())]))]);
    let out = items(process_transform(p, options(TransformMode::Auto)).unwrap());
    assert_eq!(out.len(), 1);
}

#[test]
fn nested_sites_are_decided_independently() {
    let inner = decl(VarKind::Const, "inner", arrow_block(vec![ret(jsx())]), vec![block_comment("@noTrackSignals")]);
    let p = module(vec![fn_decl("Outer", vec![inner, ret(jsx())], vec![])]);
    let out = items(process_transform(p, None).unwrap());
    let outer = guarded(decl_body(stmt(&out[1])).unwrap()).unwrap();
    assert!(!is_wrapped_site(&outer[0]));
}

#[test]
fn wrapper_call_is_seen_through() {
    let bare = items(process_transform(module(vec![const_decl("A", arrow_expr(jsx()))]), None).unwrap());
    let wrapped = items(process_transform(module(vec![const_decl("A", call("memo", vec![arrow_expr(jsx())]))]), None).unwrap());
    assert_eq!(bare.len(), 2);
    assert_eq!(wrapped.len(), 2);
    assert!(is_wrapped_site(stmt(&wrapped[1])));
}

#[test]
fn spread_or_missing_argument_is_no_candidate() {
    let spread = Expr::Call(Box::new(Expr::Ident(id("memo"))), vec![Arg { spread: true, expr: arrow_expr(jsx()) }]);
    let out = items(process_transform(module(vec![const_decl("A", spread)]), None).unwrap());
    assert_eq!(out.len(), 1);
    let out = items(process_transform(module(vec![const_decl("A", call("memo", vec![]))]), None).unwrap());
    assert_eq!(out.len(), 1);
}

#[test]
fn async_and_generator_functions_are_skipped() {
    let a = Expr::Arrow(Box::new(ArrowExpr { is_async: true, is_generator: false, params: vec![], body: ArrowBody::Expr(Box::new(jsx())) }));
    let g = Expr::Fn(Box::new(FnExpr {
        ident: None,
        function: Function { is_async: false, is_generator: true, params: vec![], body: Some(vec![ret(jsx())]) },
    }));
    let out = items(process_transform(module(vec![const_decl("A", a), const_decl("B", g)]), None).unwrap());
    assert_eq!(out.len(), 2);
}

#[test]
fn every_declarator_is_a_site() {
    let d = Stmt::Var(VarDecl {
        comments: vec![],
        kind: VarKind::Const,
        decls: vec![
            VarDeclarator { name: Pat::Ident(id("a")), init: Some(num()) },
            VarDeclarator { name: Pat::Ident(id("B")), init: Some(arrow_expr(jsx())) },
            VarDeclarator { name: Pat::Ident(id("c")), init: Some(arrow_expr(jsx())) },
        ],
    });
    let out = items(process_transform(module(vec![d]), None).unwrap());
    assert_eq!(out.len(), 2);
    assert!(is_tracking_import(&out[0], DEFAULT_SOURCE));
    match stmt(&out[1]) {
        Stmt::Var(d) => {
            assert!(matches!(d.decls[0].init, Some(Expr::Lit)));
            let b = fn_body(d.decls[1].init.as_ref().unwrap()).unwrap();
            assert!(guarded(b).is_some());
            assert!(matches!(d.decls[2].init.as_ref().unwrap(), Expr::Arrow(a) if matches!(a.body, ArrowBody::Expr(_))));
        }
        _ => panic!("expected a declaration"),
    }
}

#[test]
fn directives_apply_to_every_declarator() {
    let d = Stmt::Var(VarDecl {
        comments: vec![block_comment("@trackSignals")],
        kind: VarKind::Let,
        decls: vec![
            VarDeclarator { name: Pat::Ident(id("a")), init: Some(arrow_expr(num())) },
            VarDeclarator { name: Pat::Ident(id("b")), init: Some(arrow_expr(num())) },
        ],
    });
    let out = items(process_transform(module(vec![d]), options(TransformMode::Manual)).unwrap());
    match stmt(&out[1]) {
        Stmt::Var(d) => {
            assert!(guarded(fn_body(d.decls[0].init.as_ref().unwrap()).unwrap()).is_some());
            assert!(guarded(fn_body(d.decls[1].init.as_ref().unwrap()).unwrap()).is_some());
        }
        _ => panic!("expected a declaration"),
    }
}

#[test]
fn async_and_generator_declarations_are_skipped() {
    let decl_with = |is_async: bool, is_generator: bool, comments: Vec<Comment>| {
        Stmt::FnDecl(FnDecl {
            comments,
            ident: id("A"),
            function: Function { is_async, is_generator, params: vec![], body: Some(vec![ret(jsx())]) },
        })
    };
    let p = module(vec![
        decl_with(true, false, vec![]),
        decl_with(false, true, vec![block_comment("@trackSignals")]),
        // Being no site, an async declaration meets no directive conflict.
        decl_with(true, false, vec![block_comment("@trackSignals @noTrackSignals")]),
    ]);
    let out = items(process_transform(p, None).unwrap());
    assert_eq!(out.len(), 3);
    assert!(out.iter().all(|it| !is_wrapped_site(stmt(it))));
}

#[test]
fn nested_const_site_opting_out() {
    let inner = decl(VarKind::Const, "inner", arrow_expr(jsx()), vec![block_comment("@noTrackSignals")]);
    let p = module(vec![fn_decl("Outer", vec![inner, ret(jsx())], vec![])]);
    let out = items(process_transform(p, None).unwrap());
    let outer = guarded(decl_body(stmt(&out[1])).unwrap()).unwrap();
    match &outer[0] {
        Stmt::Var(d) => assert!(matches!(d.decls[0].init.as_ref().unwrap(), Expr::Arrow(a) if matches!(a.body, ArrowBody::Expr(_)))),
        _ => panic!("expected a declaration"),
    }
}

#[test]
fn destructuring_name_is_not_a_component() {
    let d = Stmt::Var(VarDecl {
        comments: vec![],
        kind: VarKind::Const,
        decls: vec![VarDeclarator { name: Pat::Other, init: Some(arrow_expr(jsx())) }],
    });
    let out = items(process_transform(module(vec![d]), None).unwrap());
    assert_eq!(out.len(), 1);
}

#[test]
fn markup_in_parameter_default_counts() {
    let a = Expr::Arrow(Box::new(ArrowExpr {
        is_async: false,
        is_generator: false,
        params: vec![Expr::Other(vec![Expr::Ident(id("x")), jsx()])],
        body: ArrowBody::Expr(Box::new(num())),
    }));
    let out = items(process_transform(module(vec![const_decl("A", a)]), None).unwrap());
    assert_eq!(out.len(), 2);
    assert!(is_wrapped_site(stmt(&out[1])));
}

#[test]
fn exported_declarations_are_sites() {
    let p = Program::Module(vec![
        ModuleItem::Export(const_decl("A", arrow_expr(jsx()))),
        ModuleItem::Export(fn_decl("B", vec![ret(jsx())], vec![])),
    ]);
    let out = items(process_transform(p, None).unwrap());
    assert_eq!(out.len(), 3);
    assert!(is_tracking_import(&out[0], DEFAULT_SOURCE));
    for it in &out[1..] {
        match it {
            ModuleItem::Export(s) => assert!(is_wrapped_site(s)),
            _ => panic!("expected an export"),
        }
    }
}
