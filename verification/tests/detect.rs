use react_refresh::ast::{CallExpr, Callee, Module, Span, Stmt};
use react_refresh::visitor::{is_refresh_boundary, is_refresh_reg, FoundReactRefreshVisitor};

fn call(callee: Callee, inner: Vec<CallExpr>) -> CallExpr {
    CallExpr { callee, inner }
}

fn ident(name: &str) -> Callee {
    Callee::Ident(name.to_string())
}

fn module(body: Vec<Stmt<&'static str>>) -> Module<&'static str> {
    Module { span: Span { lo: 0, hi: 10 }, body, shebang: None }
}

#[test]
fn exact_name_is_the_hook() {
    assert!(is_refresh_reg(&ident("$RefreshReg$")));
}

#[test]
fn other_callees_are_not_the_hook() {
    assert!(!is_refresh_reg(&ident("someOtherFn")));
    assert!(!is_refresh_reg(&ident("$RefreshReg")));
    assert!(!is_refresh_reg(&ident("$RefreshReg$$")));
    assert!(!is_refresh_reg(&ident("$refreshreg$")));
    assert!(!is_refresh_reg(&ident("")));
    assert!(!is_refresh_reg(&Callee::Super));
    assert!(!is_refresh_reg(&Callee::Import));
    assert!(!is_refresh_reg(&Callee::Other));
}

#[test]
fn visitor_starts_unset() {
    assert!(!FoundReactRefreshVisitor::new().is_refresh_boundary);
}

#[test]
fn visitor_sets_flag_on_top_level_call() {
    let mut v = FoundReactRefreshVisitor::new();
    v.visit_call_expr(&call(ident("$RefreshReg$"), vec![]));
    assert!(v.is_refresh_boundary);
}

#[test]
fn visitor_keeps_flag_once_set() {
    let mut v = FoundReactRefreshVisitor::new();
    v.visit_call_expr(&call(ident("$RefreshReg$"), vec![]));
    v.visit_call_expr(&call(ident("other"), vec![]));
    assert!(v.is_refresh_boundary);
}

#[test]
fn visitor_finds_hook_at_depth() {
    let deep = call(
        ident("a"),
        vec![
            call(Callee::Other, vec![]),
            call(ident("b"), vec![call(Callee::Other, vec![call(ident("$RefreshReg$"), vec![])])]),
        ],
    );
    let mut v = FoundReactRefreshVisitor::new();
    v.visit_call_expr(&deep);
    assert!(v.is_refresh_boundary);
}

#[test]
fn visitor_leaves_flag_unset_without_hook() {
    let tree = call(ident("a"), vec![call(ident("b"), vec![call(Callee::Super, vec![])])]);
    let mut v = FoundReactRefreshVisitor::new();
    v.visit_call_expr(&tree);
    assert!(!v.is_refresh_boundary);
}

#[test]
fn empty_module_is_no_boundary() {
    assert!(!is_refresh_boundary(&module(vec![])));
}

#[test]
fn statement_without_calls_is_no_boundary() {
    let m = module(vec![Stmt { item: "let x = 1;", calls: vec![] }]);
    assert!(!is_refresh_boundary(&m));
}

#[test]
fn boundary_found_in_last_statement() {
    let m = module(vec![
        Stmt { item: "f();", calls: vec![call(ident("f"), vec![])] },
        Stmt { item: "let x = 1;", calls: vec![] },
        Stmt {
            item: "g(h(), $RefreshReg$(A, \"A\"));",
            calls: vec![call(
                ident("g"),
                vec![call(ident("h"), vec![]), call(ident("$RefreshReg$"), vec![])],
            )],
        },
    ]);
    assert!(is_refresh_boundary(&m));
}

#[test]
fn member_call_of_that_name_is_no_boundary() {
    let m = module(vec![Stmt {
        item: "globalThis.$RefreshReg$(A, \"A\");",
        calls: vec![call(Callee::Other, vec![])],
    }]);
    assert!(!is_refresh_boundary(&m));
}
