use hsharp::ast::{BinOp, Expr, Literal, MatchArm, Param, Span, Stmt, TypeExpr, UnOp};
use hsharp::checker::TypeChecker;
use hsharp::htype::HType;
use hsharp::infer::Semantics;

/// Knows `i32`, `bool` and named types, allows casts between equal spellings and from numbers, and
/// checks expression statements and `let`.
struct Small;

impl Semantics for Small {
    fn lower_type(&self, ty: &TypeExpr) -> HType {
        match ty {
            TypeExpr::I32 => HType::I32,
            TypeExpr::Bool => HType::Bool,
            TypeExpr::Named(name) => HType::Named(name.clone()),
            _ => HType::Any,
        }
    }

    fn display(&self, ty: &HType) -> String {
        match ty {
            HType::I32 => "i32".to_string(),
            HType::Str => "string".to_string(),
            HType::Bool => "bool".to_string(),
            other => format!("{:?}", other),
        }
    }

    fn cast_allowed(&self, from: &HType, to: &HType) -> bool {
        self.display(from) == self.display(to) || (from.is_numeric() && to.is_numeric())
    }

    fn check_stmt(&self, checker: TypeChecker, stmt: &Stmt) -> (TypeChecker, HType) {
        let mut checker = checker;
        match stmt {
            Stmt::Expr(e, _) => {
                let t = checker.infer_expr(self, e);
                (checker, t)
            }
            Stmt::Let { name, value: Some(e), mutable, .. } => {
                let t = checker.infer_expr(self, e);
                checker.define(name, t, *mutable);
                (checker, HType::Void)
            }
            _ => (checker, HType::Void),
        }
    }

    fn check_match_exhaustive(
        &self,
        checker: TypeChecker,
        _subject: &HType,
        arms: &Vec<MatchArm>,
        span: &Span,
    ) -> TypeChecker {
        let mut checker = checker;
        if !arms.iter().any(|a| a.pattern == "_") {
            checker.err_hint(*span, "not exhaustive".to_string(), "add `_`".to_string());
        }
        checker
    }
}

fn at() -> Span {
    Span { start: 3, end: 7 }
}

fn number(n: i64) -> Expr {
    Expr::Literal(Literal::Int(n), at())
}

fn float() -> Expr {
    Expr::Literal(Literal::Float("1.5".to_string()), at())
}

fn string() -> Expr {
    Expr::Literal(Literal::String("s".to_string()), at())
}

fn boolean() -> Expr {
    Expr::Literal(Literal::Bool(true), at())
}

fn ident(name: &str) -> Expr {
    Expr::Ident(name.to_string(), at())
}

fn field(base: Expr, name: &str) -> Expr {
    Expr::FieldAccess(Box::new(base), name.to_string(), at())
}

fn binop(l: Expr, op: BinOp, r: Expr) -> Expr {
    Expr::BinOp(Box::new(l), op, Box::new(r), at())
}

fn call(callee: Expr) -> Expr {
    Expr::Call(Box::new(callee), Vec::new(), at())
}

fn path(segments: &[&str]) -> Expr {
    Expr::Path(segments.iter().map(|s| s.to_string()).collect(), at())
}

fn stmt(e: Expr) -> Stmt {
    Stmt::Expr(e, at())
}

fn checker() -> TypeChecker {
    let mut c = TypeChecker::new();
    c.push_scope();
    c
}

fn ty_in(c: &mut TypeChecker, e: &Expr) -> String {
    format!("{:?}", c.infer_expr_pub(&Small, e))
}

fn ty(e: Expr) -> String {
    let mut c = checker();
    let t = ty_in(&mut c, &e);
    assert!(c.diagnostics.is_empty());
    t
}

fn points() -> TypeChecker {
    let mut c = checker();
    c.declare_struct(
        "Point".to_string(),
        vec![("x".to_string(), HType::I32), ("y".to_string(), HType::F64), ("x".to_string(), HType::Bool)],
    );
    c.declare_struct("Unit".to_string(), Vec::new());
    c
}

#[test]
fn literals_have_their_types() {
    assert_eq!(ty(number(1)), "Int");
    assert_eq!(ty(float()), "F64");
    assert_eq!(ty(string()), "Str");
    assert_eq!(ty(Expr::Literal(Literal::Interpolated("a".to_string()), at())), "Str");
    assert_eq!(ty(boolean()), "Bool");
    assert_eq!(ty(Expr::Literal(Literal::Nil, at())), "Optional(Any)");
    assert_eq!(ty(Expr::Literal(Literal::Bytes(vec![1]), at())), "Bytes");
}

#[test]
fn identifiers_are_variables_then_constants() {
    let mut c = checker();
    c.declare_const("N".to_string(), HType::I64);
    c.declare_const("__bind:x".to_string(), HType::I64);
    c.define("__closure_1", HType::I64, false);
    c.declare_fn("f".to_string(), HType::Bool);
    assert_eq!(ty_in(&mut c, &ident("N")), "I64");
    c.define("N", HType::Str, true);
    assert_eq!(ty_in(&mut c, &ident("N")), "Str");
    assert_eq!(ty_in(&mut c, &ident("__bind:x")), "Any");
    assert_eq!(ty_in(&mut c, &ident("__closure_1")), "Any");
    assert_eq!(ty_in(&mut c, &ident("f")), "Any");
    assert_eq!(ty_in(&mut c, &ident("unknown")), "Any");
    assert!(c.diagnostics.is_empty());
}

#[test]
fn scopes_nest() {
    let mut c = checker();
    c.define("x", HType::Int, false);
    c.push_scope();
    assert_eq!(ty_in(&mut c, &ident("x")), "Int");
    c.define("x", HType::Bool, true);
    c.define("y", HType::Str, false);
    assert_eq!(ty_in(&mut c, &ident("x")), "Bool");
    assert!(c.lookup("x").unwrap().mutable);
    c.pop_scope();
    assert_eq!(ty_in(&mut c, &ident("x")), "Int");
    assert!(!c.lookup("x").unwrap().mutable);
    assert!(c.lookup("y").is_none());
    assert_eq!(c.scopes.len(), 1);
}

#[test]
fn without_a_scope_nothing_is_defined() {
    let mut c = TypeChecker::new();
    c.pop_scope();
    c.define("x", HType::Int, false);
    assert!(c.lookup("x").is_none());
}

#[test]
fn struct_literals_have_their_struct_type() {
    assert_eq!(ty(Expr::StructLit("Foo".to_string(), Vec::new(), at())), "Named(\"Foo\")");
}

#[test]
fn comparisons_are_booleans() {
    for op in [
        BinOp::Eq, BinOp::NotEq, BinOp::Lt, BinOp::Gt, BinOp::LtEq, BinOp::GtEq, BinOp::And, BinOp::Or,
    ] {
        assert_eq!(ty(binop(string(), op, number(1))), "Bool");
    }
}

#[test]
fn addition_with_text_is_text() {
    assert_eq!(ty(binop(string(), BinOp::Add, number(1))), "Str");
    assert_eq!(ty(binop(number(1), BinOp::Add, string())), "Str");
    assert_eq!(ty(binop(string(), BinOp::Sub, string())), "Any");
}

#[test]
fn arithmetic_takes_the_left_type() {
    assert_eq!(ty(binop(number(1), BinOp::Mul, float())), "Int");
    assert_eq!(ty(binop(float(), BinOp::Add, number(1))), "F64");
    assert_eq!(ty(binop(boolean(), BinOp::Add, number(1))), "Any");
    assert_eq!(ty(binop(number(1), BinOp::Shl, boolean())), "Any");
}

#[test]
fn unary_operators_keep_or_wrap() {
    let un = |op| ty(Expr::UnOp(op, Box::new(number(1)), at()));
    assert_eq!(un(UnOp::Not), "Bool");
    assert_eq!(un(UnOp::Neg), "Int");
    assert_eq!(un(UnOp::Ref), "Ref(Int)");
    assert_eq!(un(UnOp::RefMut), "RefMut(Int)");
    assert_eq!(un(UnOp::Deref), "Int");
}

#[test]
fn calls_have_the_declared_result() {
    let mut c = checker();
    c.declare_fn("f".to_string(), HType::I8);
    c.declare_fn("json::parse".to_string(), HType::U8);
    c.declare_fn("util_scan".to_string(), HType::U16);
    c.declare_fn("scan".to_string(), HType::U32);
    assert_eq!(ty_in(&mut c, &call(ident("f"))), "I8");
    assert_eq!(ty_in(&mut c, &call(ident("g"))), "Any");
    assert_eq!(ty_in(&mut c, &call(path(&["json", "parse"]))), "U8");
    assert_eq!(ty_in(&mut c, &call(path(&["util", "scan"]))), "U16");
    assert_eq!(ty_in(&mut c, &call(path(&["other", "scan"]))), "U32");
    assert_eq!(ty_in(&mut c, &call(path(&["a", "b"]))), "Any");
    assert_eq!(ty_in(&mut c, &call(path(&[]))), "Any");
    assert_eq!(ty_in(&mut c, &call(call(ident("f")))), "Any");
    assert_eq!(ty_in(&mut c, &path(&["json", "parse"])), "Any");
    let method = Expr::MethodCall(Box::new(number(1)), "abs".to_string(), Vec::new(), at());
    assert_eq!(ty_in(&mut c, &method), "Any");
    assert!(c.diagnostics.is_empty());
}

#[test]
fn fields_have_their_declared_type() {
    let mut c = points();
    let p = || Expr::StructLit("Point".to_string(), Vec::new(), at());
    assert_eq!(ty_in(&mut c, &field(p(), "x")), "I32");
    assert_eq!(ty_in(&mut c, &field(p(), "y")), "F64");
    assert!(c.diagnostics.is_empty());
}

#[test]
fn references_are_followed_once() {
    let mut c = points();
    let p = || Box::new(Expr::StructLit("Point".to_string(), Vec::new(), at()));
    assert_eq!(ty_in(&mut c, &field(Expr::UnOp(UnOp::Ref, p(), at()), "y")), "F64");
    assert_eq!(ty_in(&mut c, &field(Expr::UnOp(UnOp::RefMut, p(), at()), "y")), "F64");
    let twice = Expr::UnOp(UnOp::Ref, Box::new(Expr::UnOp(UnOp::Ref, p(), at())), at());
    assert_eq!(ty_in(&mut c, &field(twice, "nope")), "Any");
    assert!(c.diagnostics.is_empty());
    assert_eq!(ty_in(&mut c, &field(Expr::UnOp(UnOp::Ref, p(), at()), "z")), "Any");
    assert_eq!(c.diagnostics.len(), 1);
}

#[test]
fn missing_fields_are_reported() {
    let mut c = points();
    let t = ty_in(&mut c, &field(Expr::StructLit("Point".to_string(), Vec::new(), at()), "z"));
    assert_eq!(t, "Any");
    assert_eq!(c.diagnostics[0].message, "struct `Point` has no field `z`");
    assert_eq!(c.diagnostics[0].hint, "available fields: x, y, x");
    assert_eq!(c.diagnostics[0].span, at());
    ty_in(&mut c, &field(Expr::StructLit("Unit".to_string(), Vec::new(), at()), "z"));
    assert_eq!(c.diagnostics[1].message, "struct `Unit` has no field `z`");
    assert_eq!(c.diagnostics[1].hint, "`Unit` has no fields");
    ty_in(&mut c, &field(Expr::StructLit("Unknown".to_string(), Vec::new(), at()), "z"));
    ty_in(&mut c, &field(number(1), "z"));
    assert_eq!(c.diagnostics.len(), 2);
}

#[test]
fn tuple_fields_are_positional() {
    let pair = || Expr::TupleLit(vec![number(1), string()], at());
    assert_eq!(ty(field(pair(), "0")), "Int");
    assert_eq!(ty(field(pair(), "1")), "Str");
    let mut c = checker();
    assert_eq!(ty_in(&mut c, &field(pair(), "2")), "Any");
    assert_eq!(c.diagnostics[0].message, "tuple of 2 element(s) has no field `.2`");
    assert_eq!(
        c.diagnostics[0].hint,
        "tuple fields are accessed positionally as `.0`, `.1`, ... up to (len - 1)"
    );
    ty_in(&mut c, &field(Expr::TupleLit(Vec::new(), at()), "first"));
    assert_eq!(c.diagnostics[1].message, "tuple of 0 element(s) has no field `.first`");
}

#[test]
fn arrays_and_indices() {
    assert_eq!(ty(Expr::ArrayLit(vec![string(), number(1)], at())), "Array(Str)");
    assert_eq!(ty(Expr::ArrayLit(Vec::new(), at())), "Array(Any)");
    let array = Expr::ArrayLit(vec![string()], at());
    assert_eq!(ty(Expr::IndexAccess(Box::new(array), Box::new(number(0)), at())), "Str");
    assert_eq!(ty(Expr::IndexAccess(Box::new(number(1)), Box::new(number(0)), at())), "Any");
    assert_eq!(ty(Expr::Range(Box::new(number(0)), Box::new(number(9)), true, at())), "Array(Int)");
}

#[test]
fn casts_are_checked() {
    assert_eq!(ty(Expr::Cast(Box::new(number(1)), TypeExpr::I32, at())), "I32");
    let mut c = checker();
    assert_eq!(ty_in(&mut c, &Expr::Cast(Box::new(string()), TypeExpr::I32, at())), "I32");
    assert_eq!(c.diagnostics[0].message, "invalid cast: cannot cast `string` as `i32`");
    assert_eq!(c.diagnostics[0].hint, "valid casts: numeric<->numeric, numeric<->bool, any<->concrete type");
}

#[test]
fn small_forms() {
    assert_eq!(ty(Expr::Return(Some(Box::new(number(1))), at())), "Void");
    assert_eq!(ty(Expr::SelfExpr(at())), "Named(\"Self\")");
    assert_eq!(ty(Expr::Try(Box::new(Expr::Literal(Literal::Nil, at())), at())), "Any");
    assert_eq!(ty(Expr::Try(Box::new(number(1)), at())), "Int");
    assert_eq!(ty(Expr::Assign(Box::new(ident("x")), Box::new(string()), at())), "Str");
    assert_eq!(ty(Expr::CompoundAssign(Box::new(number(1)), BinOp::Add, Box::new(string()), at())), "Int");
    assert_eq!(ty(Expr::Await(Box::new(number(1)), at())), "Any");
    assert_eq!(ty(Expr::Opaque(at())), "Any");
    assert_eq!(ty(Expr::Unsafe(vec![stmt(number(1))], None, at())), "Any");
}

#[test]
fn closures_are_functions() {
    let closure = |return_type, body| Expr::Closure {
        params: vec![Param { name: "b".to_string(), ty: TypeExpr::I32 }],
        return_type,
        body,
        span: at(),
    };
    assert_eq!(ty(closure(Some(TypeExpr::Bool), vec![stmt(number(1))])), "Fn([I32], Bool)");
    assert_eq!(ty(closure(None, vec![stmt(string()), stmt(number(1))])), "Fn([I32], Int)");
    assert_eq!(ty(closure(None, vec![Stmt::Return(None, at())])), "Fn([I32], Any)");
    assert_eq!(ty(closure(None, Vec::new())), "Fn([I32], Void)");
}

#[test]
fn blocks_have_the_value_of_their_last_statement() {
    let mut c = checker();
    let body = vec![stmt(number(1)), stmt(boolean())];
    assert_eq!(format!("{:?}", c.check_block_value(&Small, &body)), "Bool");
    assert_eq!(format!("{:?}", c.check_block_value(&Small, &Vec::new())), "Void");
}

#[test]
fn branches_are_all_checked() {
    let mut c = points();
    let bad = |name: &str| field(Expr::StructLit("Unit".to_string(), Vec::new(), at()), name);
    let branch = Expr::If {
        condition: Box::new(bad("a")),
        then_body: vec![stmt(bad("b")), stmt(number(1))],
        elsif_branches: vec![(bad("c"), vec![stmt(bad("d"))])],
        else_body: Some(vec![stmt(bad("e"))]),
        span: at(),
    };
    assert_eq!(ty_in(&mut c, &branch), "Int");
    let told: Vec<&str> = c.diagnostics.iter().map(|d| d.message.as_str()).collect();
    assert_eq!(
        told,
        vec![
            "struct `Unit` has no field `a`",
            "struct `Unit` has no field `b`",
            "struct `Unit` has no field `c`",
            "struct `Unit` has no field `d`",
            "struct `Unit` has no field `e`",
        ]
    );
}

#[test]
fn loops_are_checked_and_have_no_value() {
    let mut c = points();
    let bad = |name: &str| field(Expr::StructLit("Unit".to_string(), Vec::new(), at()), name);
    let w = Expr::While { condition: Box::new(bad("a")), body: vec![stmt(bad("b"))], span: at() };
    assert_eq!(ty_in(&mut c, &w), "Void");
    let f = Expr::For {
        binding: "i".to_string(),
        iterable: Box::new(bad("c")),
        body: vec![stmt(bad("d"))],
        span: at(),
    };
    assert_eq!(ty_in(&mut c, &f), "Void");
    assert_eq!(c.diagnostics.len(), 4);
    let d = Expr::Do { body: vec![stmt(bad("e")), stmt(string())], span: at() };
    assert_eq!(ty_in(&mut c, &d), "Void");
    assert_eq!(c.diagnostics.len(), 5);
    assert_eq!(ty_in(&mut c, &Expr::Do { body: Vec::new(), span: at() }), "Void");
}

#[test]
fn matches_have_the_value_of_their_first_arm() {
    let arm = |pattern: &str, guard, value| MatchArm {
        pattern: pattern.to_string(),
        guard,
        body: vec![stmt(value)],
    };
    let mut c = checker();
    let m = Expr::Match {
        subject: Box::new(number(1)),
        arms: vec![arm("1", Some(boolean()), string()), arm("2", None, number(2))],
        span: at(),
    };
    assert_eq!(ty_in(&mut c, &m), "Str");
    assert_eq!(c.diagnostics[0].message, "not exhaustive");
    let none = Expr::Match { subject: Box::new(number(1)), arms: Vec::new(), span: at() };
    assert_eq!(ty_in(&mut c, &none), "Any");
    assert_eq!(c.diagnostics.len(), 2);
}

#[test]
fn diagnostics_are_kept() {
    let mut c = points();
    c.err_hint(at(), "first".to_string(), "hint".to_string());
    ty_in(&mut c, &field(Expr::StructLit("Unit".to_string(), Vec::new(), at()), "z"));
    assert_eq!(c.diagnostics.len(), 2);
    assert_eq!(c.diagnostics[0].message, "first");
}

#[test]
fn statements_may_define_variables() {
    let mut c = checker();
    let bind = Stmt::Let {
        name: "n".to_string(),
        ty: None,
        mutable: false,
        value: Some(string()),
        span: at(),
    };
    let body = vec![bind, stmt(ident("n"))];
    assert_eq!(format!("{:?}", c.check_block_value(&Small, &body)), "Str");
}

#[test]
fn numeric_types() {
    for t in [HType::Int, HType::I8, HType::U128, HType::F32, HType::F64] {
        assert!(t.is_numeric());
    }
    for t in [HType::Bool, HType::Str, HType::Any, HType::Void, HType::Array(Box::new(HType::Int))] {
        assert!(!t.is_numeric());
    }
}
