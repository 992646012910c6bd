use remove_imports::matcher::Matcher;
use remove_imports::transform::Remove;
use remove_imports::transform::TransformVisitor;
use remove_imports::tree::Arg;
use remove_imports::tree::CallExpr;
use remove_imports::tree::Callee;
use remove_imports::tree::Expr;
use remove_imports::tree::ImportDecl;
use remove_imports::tree::ModuleItem;
use remove_imports::tree::Pat;
use remove_imports::tree::Stmt;
use remove_imports::tree::VarDecl;
use remove_imports::tree::VarDeclarator;

fn import(src: &str, specifiers: usize) -> ModuleItem {
    ModuleItem::Import(ImportDecl { src: src.to_string(), specifiers })
}

fn require_call(arg: &str) -> Expr {
    Expr::Call(CallExpr {
        callee: Callee::Ident("require".to_string()),
        args: vec![Arg::Str(arg.to_string())],
    })
}

fn bare_require(arg: &str) -> Stmt {
    Stmt::Expr(require_call(arg))
}

fn require_decl(name: &str, arg: &str) -> Stmt {
    Stmt::VarDecl(VarDecl {
        decls: vec![VarDeclarator {
            name: Pat::Ident(name.to_string()),
            init: Some(require_call(arg)),
        }],
    })
}

fn style_matcher() -> Matcher {
    Matcher::new("\\.(less|css)$").unwrap()
}

fn everything_matcher() -> Matcher {
    Matcher::new("").unwrap()
}

#[test]
fn example() {
    let visitor = TransformVisitor { test: style_matcher(), remove: Remove::All };
    let mut items = vec![
        import("./index.less", 0),
        import("./index.main.css", 0),
        import("uiw", 1),
        import("@uiw/core", 1),
    ];
    visitor.visit_mut_module_items(&mut items);
    assert_eq!(items, vec![import("uiw", 1), import("@uiw/core", 1)]);
}

#[test]
fn remove_all() {
    let visitor = TransformVisitor { test: everything_matcher(), remove: Remove::All };
    let mut items = vec![
        import("./index.less", 0),
        import("./index.main.css", 0),
        import("uiw", 1),
        import("@uiw/core", 1),
    ];
    visitor.visit_mut_module_items(&mut items);
    assert_eq!(items, vec![]);
}

#[test]
fn effects() {
    let visitor = TransformVisitor {
        test: Matcher::new("foo").unwrap(),
        remove: Remove::Effects,
    };
    let mut items = vec![import("foo", 0), import("foo", 1)];
    visitor.visit_mut_module_items(&mut items);
    assert_eq!(items, vec![import("foo", 1)]);
}

#[test]
fn require_example() {
    let visitor = TransformVisitor { test: style_matcher(), remove: Remove::All };
    let mut items = vec![
        ModuleItem::Stmt(bare_require("./index.less")),
        ModuleItem::Stmt(bare_require("./index.main.css")),
        ModuleItem::Stmt(require_decl("uiw", "uiw")),
        ModuleItem::Stmt(require_decl("core", "@uiw/core")),
    ];
    visitor.visit_mut_module_items(&mut items);
    assert_eq!(
        items,
        vec![
            ModuleItem::Stmt(require_decl("uiw", "uiw")),
            ModuleItem::Stmt(require_decl("core", "@uiw/core")),
        ]
    );
}

#[test]
fn require_effects() {
    let visitor = TransformVisitor {
        test: Matcher::new("foo").unwrap(),
        remove: Remove::Effects,
    };
    let mut stmts = vec![bare_require("foo"), require_decl("foo", "foo")];
    visitor.visit_mut_stmts(&mut stmts);
    assert_eq!(stmts, vec![require_decl("foo", "foo")]);
}

#[test]
fn require_remove_all() {
    let visitor = TransformVisitor { test: everything_matcher(), remove: Remove::All };
    let plain_decl = || {
        Stmt::VarDecl(VarDecl {
            decls: vec![VarDeclarator {
                name: Pat::Ident("test".to_string()),
                init: Some(Expr::Other),
            }],
        })
    };
    let mut stmts = vec![
        bare_require("./index.less"),
        bare_require("./index.main.css"),
        require_decl("uiw", "uiw"),
        require_decl("core", "@uiw/core"),
        plain_decl(),
    ];
    visitor.visit_mut_stmts(&mut stmts);
    assert_eq!(stmts, vec![plain_decl()]);
}

#[test]
fn idempotent_on_rewritten_tree() {
    let visitor = TransformVisitor { test: style_matcher(), remove: Remove::All };
    let mut items = vec![
        import("./index.less", 0),
        ModuleItem::Stmt(bare_require("./a.css")),
        import("uiw", 1),
        ModuleItem::Stmt(require_decl("core", "@uiw/core")),
    ];
    visitor.visit_mut_module_items(&mut items);
    let first = vec![import("uiw", 1), ModuleItem::Stmt(require_decl("core", "@uiw/core"))];
    assert_eq!(items, first);
    visitor.visit_mut_module_items(&mut items);
    assert_eq!(items, first);
}

#[test]
fn null_matcher_is_noop() {
    let visitor = TransformVisitor { test: Matcher::Null, remove: Remove::All };
    let mut items = vec![
        import("./index.less", 0),
        ModuleItem::Stmt(bare_require("./a.css")),
        ModuleItem::Stmt(require_decl("core", "@uiw/core")),
        ModuleItem::Stmt(Stmt::Other),
    ];
    visitor.visit_mut_module_items(&mut items);
    assert_eq!(
        items,
        vec![
            import("./index.less", 0),
            ModuleItem::Stmt(bare_require("./a.css")),
            ModuleItem::Stmt(require_decl("core", "@uiw/core")),
            ModuleItem::Stmt(Stmt::Other),
        ]
    );
}

#[test]
fn policy_distinction_on_imports() {
    let all = TransformVisitor { test: Matcher::new("foo").unwrap(), remove: Remove::All };
    let effects = TransformVisitor {
        test: Matcher::new("foo").unwrap(),
        remove: Remove::Effects,
    };

    let mut zero_all = vec![import("foo", 0)];
    all.visit_mut_module_items(&mut zero_all);
    assert_eq!(zero_all, vec![]);

    let mut zero_effects = vec![import("foo", 0)];
    effects.visit_mut_module_items(&mut zero_effects);
    assert_eq!(zero_effects, vec![]);

    let mut bound_all = vec![import("foo", 2)];
    all.visit_mut_module_items(&mut bound_all);
    assert_eq!(bound_all, vec![]);

    let mut bound_effects = vec![import("foo", 2)];
    effects.visit_mut_module_items(&mut bound_effects);
    assert_eq!(bound_effects, vec![import("foo", 2)]);
}

#[test]
fn structural_validity_of_output() {
    let visitor = TransformVisitor { test: everything_matcher(), remove: Remove::All };
    let mut items = vec![
        import("a", 0),
        ModuleItem::Stmt(require_decl("x", "b")),
        ModuleItem::Stmt(bare_require("c")),
        ModuleItem::Stmt(Stmt::Other),
    ];
    visitor.visit_mut_module_items(&mut items);
    assert_eq!(items, vec![ModuleItem::Stmt(Stmt::Other)]);
    for item in &items {
        match item {
            ModuleItem::Import(decl) => assert!(!decl.src.is_empty()),
            ModuleItem::Stmt(Stmt::Empty) => panic!("empty statement survived"),
            ModuleItem::Stmt(Stmt::VarDecl(decl)) => assert!(!decl.decls.is_empty()),
            ModuleItem::Stmt(_) => {}
        }
    }
}

#[test]
fn unrecognized_call_shapes_are_kept() {
    let visitor = TransformVisitor { test: everything_matcher(), remove: Remove::All };
    let two_args = Stmt::Expr(Expr::Call(CallExpr {
        callee: Callee::Ident("require".to_string()),
        args: vec![Arg::Str("a".to_string()), Arg::Str("b".to_string())],
    }));
    let non_literal = Stmt::Expr(Expr::Call(CallExpr {
        callee: Callee::Ident("require".to_string()),
        args: vec![Arg::Other],
    }));
    let other_callee = Stmt::Expr(Expr::Call(CallExpr {
        callee: Callee::Ident("load".to_string()),
        args: vec![Arg::Str("a".to_string())],
    }));
    let not_ident = Stmt::Expr(Expr::Call(CallExpr {
        callee: Callee::Other,
        args: vec![Arg::Str("a".to_string())],
    }));
    let rebuild = || {
        vec![
            Stmt::Expr(Expr::Call(CallExpr {
                callee: Callee::Ident("require".to_string()),
                args: vec![Arg::Str("a".to_string()), Arg::Str("b".to_string())],
            })),
            Stmt::Expr(Expr::Call(CallExpr {
                callee: Callee::Ident("require".to_string()),
                args: vec![Arg::Other],
            })),
            Stmt::Expr(Expr::Call(CallExpr {
                callee: Callee::Ident("load".to_string()),
                args: vec![Arg::Str("a".to_string())],
            })),
            Stmt::Expr(Expr::Call(CallExpr {
                callee: Callee::Other,
                args: vec![Arg::Str("a".to_string())],
            })),
        ]
    };
    let mut stmts = vec![two_args, non_literal, other_callee, not_ident];
    visitor.visit_mut_stmts(&mut stmts);
    assert_eq!(stmts, rebuild());
}

#[test]
fn bare_require_removed_under_both_policies() {
    let all = TransformVisitor { test: Matcher::new("foo").unwrap(), remove: Remove::All };
    let effects = TransformVisitor {
        test: Matcher::new("foo").unwrap(),
        remove: Remove::Effects,
    };

    let mut stmts = vec![bare_require("foo")];
    all.visit_mut_stmts(&mut stmts);
    assert_eq!(stmts, vec![]);

    let mut stmts = vec![bare_require("foo")];
    effects.visit_mut_stmts(&mut stmts);
    assert_eq!(stmts, vec![]);
}

#[test]
fn declaration_collapses_only_when_all_declarators_go() {
    let visitor = TransformVisitor { test: Matcher::new("^lib$").unwrap(), remove: Remove::All };
    let mut stmts = vec![Stmt::VarDecl(VarDecl {
        decls: vec![
            VarDeclarator {
                name: Pat::Ident("a".to_string()),
                init: Some(require_call("lib")),
            },
            VarDeclarator {
                name: Pat::Ident("b".to_string()),
                init: Some(Expr::Other),
            },
        ],
    })];
    visitor.visit_mut_stmts(&mut stmts);
    assert_eq!(
        stmts,
        vec![Stmt::VarDecl(VarDecl {
            decls: vec![VarDeclarator {
                name: Pat::Ident("b".to_string()),
                init: Some(Expr::Other),
            }],
        })]
    );
}
