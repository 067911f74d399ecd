use hsharp::ast::{Expr, FnDef, ImplBlock, Item, MatchArm, Module, Span, Stmt};
use hsharp::calls::{callee_name, collect_calls_expr};
use hsharp::names::NameSet;
use hsharp::reachability::{compute_reachable, is_entry_point};

fn at() -> Span {
    Span { start: 0, end: 0 }
}

fn ident(name: &str) -> Expr {
    Expr::Ident(name.to_string(), at())
}

fn call(name: &str) -> Expr {
    Expr::Call(Box::new(ident(name)), Vec::new(), at())
}

fn path_call(segments: &[&str]) -> Expr {
    let path = segments.iter().map(|s| s.to_string()).collect();
    Expr::Call(Box::new(Expr::Path(path, at())), Vec::new(), at())
}

fn run(expr: Expr) -> Stmt {
    Stmt::Expr(expr, at())
}

fn def(name: &str, body: Vec<Stmt>) -> FnDef {
    FnDef {
        name: name.to_string(),
        type_params: Vec::new(),
        params: Vec::new(),
        return_type: None,
        body,
        pub_: false,
    }
}

fn func(name: &str, body: Vec<Stmt>) -> Item {
    Item::FnDef(def(name, body))
}

fn module_of(name: &str, items: Vec<Item>) -> Item {
    Item::ModDecl { name: name.to_string(), inline: Some(items), pub_: false }
}

fn methods(target: &str, methods: Vec<FnDef>) -> Item {
    Item::ImplBlock(ImplBlock { target: target.to_string(), methods })
}

fn reachable(items: Vec<Item>) -> Vec<String> {
    let mut names = compute_reachable(&Module { items }).names().clone();
    names.sort();
    names
}

fn calls_in(expr: &Expr) -> Vec<String> {
    let mut out = NameSet::new();
    collect_calls_expr(expr, &mut out);
    let mut names = out.names().clone();
    names.sort();
    names
}

#[test]
fn only_main_is_an_entry_point() {
    assert!(is_entry_point("main"));
    assert!(!is_entry_point("Main"));
    assert!(!is_entry_point("main2"));
    assert!(!is_entry_point(""));
}

#[test]
fn calls_are_followed_from_main() {
    let names = reachable(vec![
        func("main", vec![run(call("a"))]),
        func("a", vec![run(call("b"))]),
        func("b", Vec::new()),
        func("dead", vec![run(call("deader"))]),
        func("deader", Vec::new()),
    ]);
    assert_eq!(names, vec!["a", "b", "main"]);
}

#[test]
fn recursion_ends() {
    let names = reachable(vec![
        func("main", vec![run(call("even"))]),
        func("even", vec![run(call("odd"))]),
        func("odd", vec![run(call("even")), run(call("main"))]),
    ]);
    assert_eq!(names, vec!["even", "main", "odd"]);
}

#[test]
fn called_names_without_a_body_are_kept() {
    let names = reachable(vec![func("main", vec![run(call("println"))])]);
    assert_eq!(names, vec!["main", "println"]);
}

#[test]
fn pub_functions_are_no_entry_points() {
    let mut exported = def("exported", Vec::new());
    exported.pub_ = true;
    let names = reachable(vec![func("main", Vec::new()), Item::FnDef(exported)]);
    assert_eq!(names, vec!["main"]);
}

#[test]
fn methods_are_never_pruned() {
    let names = reachable(vec![
        func("main", Vec::new()),
        methods("Point", vec![def("norm", Vec::new())]),
        module_of("inner", vec![methods("Line", vec![def("len", Vec::new())])]),
    ]);
    assert_eq!(names, vec!["__impl_method__len", "__impl_method__norm", "main"]);
}

#[test]
fn calls_of_methods_are_followed() {
    let names = reachable(vec![
        func("main", Vec::new()),
        methods("Point", vec![def("norm", vec![run(call("sqrt"))])]),
        func("sqrt", vec![run(call("step"))]),
        func("step", Vec::new()),
        func("dead", Vec::new()),
    ]);
    assert_eq!(names, vec!["__impl_method__norm", "main", "sqrt", "step"]);
}

#[test]
fn libraries_with_methods_are_kept_whole() {
    let names = reachable(vec![
        func("helper", vec![run(call("elsewhere"))]),
        methods("Point", vec![def("norm", Vec::new())]),
    ]);
    assert_eq!(names, vec!["__impl_method__norm", "helper"]);
}

#[test]
fn without_a_start_everything_is_reachable() {
    let names = reachable(vec![
        func("a", vec![run(call("elsewhere"))]),
        module_of("inner", vec![func("b", Vec::new())]),
    ]);
    assert_eq!(names, vec!["a", "b"]);
    assert!(reachable(Vec::new()).is_empty());
}

#[test]
fn modules_share_one_namespace() {
    let names = reachable(vec![
        func("main", vec![run(path_call(&["json", "parse"]))]),
        module_of("json", vec![func("parse", vec![run(call("skip"))]), func("skip", Vec::new())]),
    ]);
    assert_eq!(names, vec!["main", "parse", "skip"]);
}

#[test]
fn the_later_of_two_bodies_counts() {
    let names = reachable(vec![
        func("main", vec![run(call("f"))]),
        func("f", vec![run(call("old"))]),
        module_of("inner", vec![func("f", vec![run(call("new"))])]),
    ]);
    assert_eq!(names, vec!["f", "main", "new"]);
}

#[test]
fn modules_without_known_items_have_no_bodies() {
    let names = reachable(vec![
        func("main", Vec::new()),
        Item::ModDecl { name: "far".to_string(), inline: None, pub_: true },
        Item::Other,
    ]);
    assert_eq!(names, vec!["main"]);
}

#[test]
fn callees_are_names_or_last_segments() {
    assert_eq!(callee_name(&ident("f")), Some("f".to_string()));
    let path = Expr::Path(vec!["a".to_string(), "b".to_string()], at());
    assert_eq!(callee_name(&path), Some("b".to_string()));
    assert_eq!(callee_name(&Expr::Path(Vec::new(), at())), None);
    assert_eq!(callee_name(&call("f")), None);
}

#[test]
fn arguments_and_receivers_are_searched() {
    let nested = Expr::Call(Box::new(call("make")), vec![call("arg")], at());
    assert_eq!(calls_in(&nested), vec!["arg", "make"]);
    let method = Expr::MethodCall(
        Box::new(call("recv")),
        "push".to_string(),
        vec![call("arg")],
        at(),
    );
    assert_eq!(calls_in(&method), vec!["arg", "recv"]);
}

#[test]
fn every_branch_is_searched() {
    let branch = Expr::If {
        condition: Box::new(call("c")),
        then_body: vec![run(call("t"))],
        elsif_branches: vec![(call("ec"), vec![Stmt::Return(Some(call("eb")), at())])],
        else_body: Some(vec![Stmt::Break(Some(call("e")), at())]),
        span: at(),
    };
    assert_eq!(calls_in(&branch), vec!["c", "e", "eb", "ec", "t"]);
    let choice = Expr::Match {
        subject: Box::new(call("s")),
        arms: vec![
            MatchArm {
                pattern: "1".to_string(),
                guard: Some(call("g")),
                body: vec![run(call("one"))],
            },
            MatchArm { pattern: "_".to_string(), guard: None, body: vec![run(call("other"))] },
        ],
        span: at(),
    };
    assert_eq!(calls_in(&choice), vec!["g", "one", "other", "s"]);
}

#[test]
fn loops_blocks_and_closures_are_searched() {
    let repeat = Expr::While {
        condition: Box::new(call("c")),
        body: vec![run(Expr::For {
            binding: "i".to_string(),
            iterable: Box::new(call("it")),
            body: vec![run(Expr::Do { body: vec![run(call("d"))], span: at() })],
            span: at(),
        })],
        span: at(),
    };
    assert_eq!(calls_in(&repeat), vec!["c", "d", "it"]);
    let low = Expr::Unsafe(vec![run(call("u"))], Some("arena".to_string()), at());
    assert_eq!(calls_in(&low), vec!["u"]);
    let closure = Expr::Closure {
        params: Vec::new(),
        return_type: None,
        body: vec![run(call("k"))],
        span: at(),
    };
    assert_eq!(calls_in(&closure), vec!["k"]);
}

#[test]
fn operators_and_literals_are_searched() {
    let pair = Expr::TupleLit(
        vec![
            Expr::Await(Box::new(call("a")), at()),
            Expr::Try(Box::new(call("b")), at()),
            Expr::IndexAccess(Box::new(call("c")), Box::new(call("d")), at()),
            Expr::StructLit("S".to_string(), vec![("f".to_string(), call("e"))], at()),
            Expr::Assign(Box::new(call("g")), Box::new(call("h")), at()),
            Expr::Range(Box::new(call("i")), Box::new(call("j")), false, at()),
            Expr::Return(Some(Box::new(call("k"))), at()),
        ],
        at(),
    );
    assert_eq!(calls_in(&pair), vec!["a", "b", "c", "d", "e", "g", "h", "i", "j", "k"]);
    assert!(calls_in(&ident("x")).is_empty());
    assert!(calls_in(&Expr::Return(None, at())).is_empty());
}

#[test]
fn nested_functions_are_part_of_the_body() {
    let names = reachable(vec![
        func(
            "main",
            vec![
                Stmt::Item(func("local", vec![run(call("a"))])),
                Stmt::Item(module_of(
                    "m",
                    vec![func("f", vec![run(call("b"))]), module_of("n", vec![func("g", vec![run(call("c"))])])],
                )),
                Stmt::Let { name: "x".to_string(), ty: None, mutable: false, value: Some(call("d")), span: at() },
            ],
        ),
    ]);
    assert_eq!(names, vec!["a", "b", "d", "main"]);
}

#[test]
fn dead_functions_change_nothing() {
    let program = |dead: Vec<Item>| {
        let mut items = vec![func("main", vec![run(call("a"))])];
        items.extend(dead);
        items.push(func("a", Vec::new()));
        reachable(items)
    };
    assert_eq!(program(Vec::new()), program(vec![func("dead", vec![run(call("deader"))])]));
}

#[test]
fn a_name_is_kept_once() {
    let mut set = NameSet::new();
    assert!(set.is_empty());
    assert!(set.insert("a".to_string()));
    assert!(!set.insert("a".to_string()));
    assert!(set.insert("b".to_string()));
    assert!(set.contains("a"));
    assert!(!set.contains("c"));
    assert!(!set.is_empty());
    assert_eq!(*set.names(), vec!["a", "b"]);
}
